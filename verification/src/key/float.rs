//! Key handling for the confirmation, warning, choice and help floats: the
//! per-kind key tables, message handlers, and the bounded dispatch loops
//! that drive one key press to a settled state.

use vstd::prelude::*;

use crate::app::data::DataTransfer;
use crate::app::App;
use crate::float::confirm::{
    folder_save_resolution, link_save_resolution, spec_reclamp, ConfirmChoice,
    FolderDeleteConfirmState, FolderSaveConfirmState, LinkDeleteConfirmState, LinkSaveConfirmState,
};
use crate::float::help::HelpState;
use crate::float::warning::{CorruptDataWarningChoice, CorruptDataWarningState, WarningState};
use crate::float::{Float, FloatActionResult};
use crate::input::{KeyCode, KeyPress};
use crate::message::{
    choose_msg_rank, ChooseMessage, ConfirmMessage, FloatUpdater, WarningMessage,
};
use crate::state::folder::FolderNormalState;
use crate::state::link::LinkNormalState;
use crate::state::{AppState, NormalState};

verus! {

/// The key table every two-way confirmation dialog shares.
pub open spec fn spec_confirm_key_message(key: KeyPress) -> Option<ConfirmMessage> {
    if !key.press {
        None
    } else {
        match key.code {
            KeyCode::Char(c) => if c == 'y' || c == 'Y' {
                Some(ConfirmMessage::Yes)
            } else if c == 'n' || c == 'N' {
                Some(ConfirmMessage::No)
            } else if c == 'q' || c == 'Q' {
                Some(ConfirmMessage::Quit)
            } else if c == ' ' {
                Some(ConfirmMessage::Choose)
            } else {
                None
            },
            KeyCode::Esc => Some(ConfirmMessage::Quit),
            KeyCode::Left => Some(ConfirmMessage::SwitchLeft),
            KeyCode::Right => Some(ConfirmMessage::SwitchRight),
            KeyCode::Tab => Some(ConfirmMessage::Switch),
            KeyCode::BackTab => Some(ConfirmMessage::Switch),
            KeyCode::Enter => Some(ConfirmMessage::Choose),
            _ => None,
        }
    }
}

/// The shared confirmation key table, as the delete dialogs read it.
pub fn folder_delete_confirm_key(key: KeyPress) -> (r: Option<ConfirmMessage>)
    ensures
        r == spec_confirm_key_message(key),
{
    confirm_key(key)
}

/// The shared confirmation key table, as the folder save dialog reads it.
pub fn folder_save_confirm_key(key: KeyPress) -> (r: Option<ConfirmMessage>)
    ensures
        r == spec_confirm_key_message(key),
{
    confirm_key(key)
}

/// The shared confirmation key table, as the link save dialog reads it.
pub fn link_save_confirm_key(key: KeyPress) -> (r: Option<ConfirmMessage>)
    ensures
        r == spec_confirm_key_message(key),
{
    confirm_key(key)
}

fn confirm_key(key: KeyPress) -> (r: Option<ConfirmMessage>)
    ensures
        r == spec_confirm_key_message(key),
{
    if !key.press {
        return None;
    }
    match key.code {
        KeyCode::Char(c) => if c == 'y' || c == 'Y' {
            Some(ConfirmMessage::Yes)
        } else if c == 'n' || c == 'N' {
            Some(ConfirmMessage::No)
        } else if c == 'q' || c == 'Q' {
            Some(ConfirmMessage::Quit)
        } else if c == ' ' {
            Some(ConfirmMessage::Choose)
        } else {
            None
        },
        KeyCode::Esc => Some(ConfirmMessage::Quit),
        KeyCode::Left => Some(ConfirmMessage::SwitchLeft),
        KeyCode::Right => Some(ConfirmMessage::SwitchRight),
        KeyCode::Tab => Some(ConfirmMessage::Switch),
        KeyCode::BackTab => Some(ConfirmMessage::Switch),
        KeyCode::Enter => Some(ConfirmMessage::Choose),
        _ => None,
    }
}

/// The answer a confirmation message settles on: `Yes` and `No` directly,
/// `Quit` as `No`, `Choose` as whatever is currently selected; the switch
/// messages settle nothing.
pub open spec fn confirm_effective(m: ConfirmMessage, current: ConfirmChoice) -> Option<
    ConfirmChoice,
> {
    match m {
        ConfirmMessage::Yes => Some(ConfirmChoice::Yes),
        ConfirmMessage::No => Some(ConfirmChoice::No),
        ConfirmMessage::Quit => Some(ConfirmChoice::No),
        ConfirmMessage::Choose => Some(current),
        _ => None,
    }
}

/// Where the selection lands after a switch message.
pub open spec fn confirm_switched(m: ConfirmMessage, current: ConfirmChoice) -> ConfirmChoice {
    match m {
        ConfirmMessage::SwitchLeft => ConfirmChoice::Yes,
        ConfirmMessage::SwitchRight => ConfirmChoice::No,
        ConfirmMessage::Switch => if current == ConfirmChoice::Yes {
            ConfirmChoice::No
        } else {
            ConfirmChoice::Yes
        },
        _ => current,
    }
}

/// What settling the folder delete dialog with a given answer does, when
/// the base folder view is active: `No` changes nothing at all, `Yes`
/// removes the target folder and re-clamps the cursor; in any other base
/// state nothing changes.
pub open spec fn folder_delete_outcome(
    st0: AppState,
    d0: Seq<crate::data::dir::LinkDirView>,
    st1: AppState,
    d1: Seq<crate::data::dir::LinkDirView>,
    target: usize,
    c: ConfirmChoice,
) -> bool {
    match st0 {
        AppState::Normal(NormalState::Folder(fs)) => {
            &&& (c == ConfirmChoice::No ==> d1 == d0 && st1 == st0)
            &&& (c == ConfirmChoice::Yes ==> d1 == d0.remove(target as int) && st1
                == AppState::Normal(
                NormalState::Folder(
                    FolderNormalState {
                        selected: Some(spec_reclamp(target, (d0.len() - 1) as usize)),
                    },
                ),
            ))
        },
        _ => d1 == d0 && st1 == st0,
    }
}

/// What settling the link delete dialog with a given answer does, when the
/// base link view is active: `No` changes nothing at all, `Yes` removes
/// the target link from the folder the dialog was captured for and
/// re-clamps the cursor; in any other base state nothing changes.
pub open spec fn link_delete_outcome(
    st0: AppState,
    d0: Seq<crate::data::dir::LinkDirView>,
    st1: AppState,
    d1: Seq<crate::data::dir::LinkDirView>,
    target: usize,
    dir_idx: usize,
    c: ConfirmChoice,
) -> bool {
    match st0 {
        AppState::Normal(NormalState::Link(ls)) => {
            &&& (c == ConfirmChoice::No ==> d1 == d0 && st1 == st0)
            &&& (c == ConfirmChoice::Yes ==> d1 == d0.update(
                dir_idx as int,
                crate::data::dir::LinkDirView {
                    identifier: d0[dir_idx as int].identifier,
                    links: d0[dir_idx as int].links.remove(target as int),
                },
            ) && st1 == AppState::Normal(
                NormalState::Link(
                    LinkNormalState {
                        selected: Some(
                            spec_reclamp(target, (d0[dir_idx as int].links.len() - 1) as usize),
                        ),
                        ..ls
                    },
                ),
            ))
        },
        _ => d1 == d0 && st1 == st0,
    }
}

/// One step of the folder delete dialog. A settling message interprets the
/// deferred removal against the base folder view and discards the dialog;
/// a switch message keeps the dialog with its selection moved. Cancelling
/// leaves the collection untouched.
pub fn folder_delete_confirm_message(
    app: &mut App,
    state: FolderDeleteConfirmState,
    message: ConfirmMessage,
) -> (r: FloatUpdater<ConfirmMessage, FolderDeleteConfirmState>)
    requires
        old(app).wf(),
        old(app).spec_floats().len() == 0,
        state.target < old(app).data@.len(),
    ensures
        final(app).wf(),
        final(app).spec_floats() == old(app).spec_floats(),
        final(app).option == old(app).option,
        final(app).cache == old(app).cache,
        r.message is None,
        r.float is None,
        match confirm_effective(message, state.choice) {
            Some(c) => r.state is None && folder_delete_outcome(
                old(app).state,
                old(app).data@,
                final(app).state,
                final(app).data@,
                state.target,
                c,
            ),
            None => final(app).data == old(app).data && final(app).state == old(app).state
                && r.state == Some(
                FolderDeleteConfirmState {
                    choice: confirm_switched(message, state.choice),
                    ..state
                },
            ),
        },
{
    match message {
        ConfirmMessage::Yes => folder_delete_confirm_call(app, state, ConfirmChoice::Yes),
        ConfirmMessage::No => folder_delete_confirm_call(app, state, ConfirmChoice::No),
        ConfirmMessage::Quit => folder_delete_confirm_call(app, state, ConfirmChoice::No),
        ConfirmMessage::SwitchLeft => {
            let mut state = state;
            state.change_choice(ConfirmChoice::Yes);
            FloatUpdater::new().with_state(state)
        },
        ConfirmMessage::SwitchRight => {
            let mut state = state;
            state.change_choice(ConfirmChoice::No);
            FloatUpdater::new().with_state(state)
        },
        ConfirmMessage::Switch => {
            let mut state = state;
            state.switch_chioce();
            FloatUpdater::new().with_state(state)
        },
        ConfirmMessage::Choose => {
            let choice = state.choice();
            folder_delete_confirm_call(app, state, choice)
        },
    }
}

/// Interprets the folder delete dialog's deferred action with the given
/// answer, when the base folder view is active; in any other base state
/// the dialog is simply dropped.
pub fn folder_delete_confirm_call(
    app: &mut App,
    state: FolderDeleteConfirmState,
    choice: ConfirmChoice,
) -> (r: FloatUpdater<ConfirmMessage, FolderDeleteConfirmState>)
    requires
        old(app).wf(),
        old(app).spec_floats().len() == 0,
        state.target < old(app).data@.len(),
    ensures
        final(app).wf(),
        final(app).spec_floats() == old(app).spec_floats(),
        final(app).option == old(app).option,
        final(app).cache == old(app).cache,
        r.message is None,
        r.float is None,
        r.state is None,
        folder_delete_outcome(
            old(app).state,
            old(app).data@,
            final(app).state,
            final(app).data@,
            state.target,
            choice,
        ),
{
    let fs_opt: Option<FolderNormalState> = match &app.state {
        AppState::Normal(NormalState::Folder(s)) => Some(*s),
        _ => None,
    };
    match fs_opt {
        Some(mut fs) => {
            let armed = state.with_choice(choice);
            armed.call(&mut fs, &mut app.data);
            app.set_state(AppState::Normal(NormalState::Folder(fs)));
            FloatUpdater::new()
        },
        None => FloatUpdater::new(),
    }
}

/// One step of the link delete dialog, against the folder recorded when
/// the removal was requested. Cancelling leaves that folder untouched.
pub fn link_delete_confirm_message(
    app: &mut App,
    state: LinkDeleteConfirmState,
    message: ConfirmMessage,
) -> (r: FloatUpdater<ConfirmMessage, LinkDeleteConfirmState>)
    requires
        old(app).wf(),
        old(app).spec_floats().len() == 0,
        state.dir_idx < old(app).data@.len(),
        state.target < old(app).data@[state.dir_idx as int].links.len(),
    ensures
        final(app).wf(),
        final(app).spec_floats() == old(app).spec_floats(),
        final(app).option == old(app).option,
        final(app).cache == old(app).cache,
        r.message is None,
        r.float is None,
        match confirm_effective(message, state.choice) {
            Some(c) => r.state is None && link_delete_outcome(
                old(app).state,
                old(app).data@,
                final(app).state,
                final(app).data@,
                state.target,
                state.dir_idx,
                c,
            ),
            None => final(app).data == old(app).data && final(app).state == old(app).state
                && r.state == Some(
                LinkDeleteConfirmState { choice: confirm_switched(message, state.choice), ..state },
            ),
        },
{
    match message {
        ConfirmMessage::Yes => link_delete_confirm_call(app, state, ConfirmChoice::Yes),
        ConfirmMessage::No => link_delete_confirm_call(app, state, ConfirmChoice::No),
        ConfirmMessage::Quit => link_delete_confirm_call(app, state, ConfirmChoice::No),
        ConfirmMessage::SwitchLeft => {
            let mut state = state;
            state.change_choice(ConfirmChoice::Yes);
            FloatUpdater::new().with_state(state)
        },
        ConfirmMessage::SwitchRight => {
            let mut state = state;
            state.change_choice(ConfirmChoice::No);
            FloatUpdater::new().with_state(state)
        },
        ConfirmMessage::Switch => {
            let mut state = state;
            state.switch_chioce();
            FloatUpdater::new().with_state(state)
        },
        ConfirmMessage::Choose => {
            let choice = state.choice();
            link_delete_confirm_call(app, state, choice)
        },
    }
}

/// Interprets the link delete dialog's deferred action with the given
/// answer, when the base link view is active; in any other base state the
/// dialog is simply dropped.
pub fn link_delete_confirm_call(
    app: &mut App,
    state: LinkDeleteConfirmState,
    choice: ConfirmChoice,
) -> (r: FloatUpdater<ConfirmMessage, LinkDeleteConfirmState>)
    requires
        old(app).wf(),
        old(app).spec_floats().len() == 0,
        state.dir_idx < old(app).data@.len(),
        state.target < old(app).data@[state.dir_idx as int].links.len(),
    ensures
        final(app).wf(),
        final(app).spec_floats() == old(app).spec_floats(),
        final(app).option == old(app).option,
        final(app).cache == old(app).cache,
        r.message is None,
        r.float is None,
        r.state is None,
        link_delete_outcome(
            old(app).state,
            old(app).data@,
            final(app).state,
            final(app).data@,
            state.target,
            state.dir_idx,
            choice,
        ),
{
    let ls_opt: Option<LinkNormalState> = match &app.state {
        AppState::Normal(NormalState::Link(s)) => Some(*s),
        _ => None,
    };
    match ls_opt {
        Some(mut ls) => {
            let ghost dirs0 = app.data@;
            let dir_idx = state.dir_idx();
            let armed = state.with_choice(choice);
            let dir = app.data.dir_mut(dir_idx);
            armed.call(&mut ls, dir);
            proof {
                if choice == ConfirmChoice::No {
                    assert(app.data@ =~= dirs0);
                } else {
                    assert(app.data@[state.dir_idx as int] =~= crate::data::dir::LinkDirView {
                        identifier: dirs0[state.dir_idx as int].identifier,
                        links: dirs0[state.dir_idx as int].links.remove(state.target as int),
                    });
                    assert(app.data@ =~= dirs0.update(
                        state.dir_idx as int,
                        crate::data::dir::LinkDirView {
                            identifier: dirs0[state.dir_idx as int].identifier,
                            links: dirs0[state.dir_idx as int].links.remove(state.target as int),
                        },
                    ));
                }
            }
            app.set_state(AppState::Normal(NormalState::Link(ls)));
            proof {
                assert(app.data.wf()) by {
                    assert forall|i: int| 0 <= i < app.data@.len() implies crate::data::dir::dir_view_wf(
                        #[trigger] app.data@[i],
                    ) by {
                        if i != state.dir_idx as int {
                            assert(app.data@[i] == dirs0[i]);
                        }
                    }
                    assert forall|i: int, j: int|
                        #![trigger app.data@[i], app.data@[j]]
                        0 <= i < j < app.data@.len() implies app.data@[i].identifier
                        != app.data@[j].identifier by {
                        assert(dirs0[i].identifier != dirs0[j].identifier);
                        assert(app.data@[i].identifier == dirs0[i].identifier);
                        assert(app.data@[j].identifier == dirs0[j].identifier);
                    }
                }
            }
            FloatUpdater::new()
        },
        None => FloatUpdater::new(),
    }
}

/// The key table of the warning and help floats: escape or `q` dismisses.
pub open spec fn spec_warning_key_message(key: KeyPress) -> Option<WarningMessage> {
    if !key.press {
        None
    } else {
        match key.code {
            KeyCode::Char(c) => if c == 'q' || c == 'Q' {
                Some(WarningMessage::Quit)
            } else {
                None
            },
            KeyCode::Esc => Some(WarningMessage::Quit),
            _ => None,
        }
    }
}

pub fn warning_key(key: KeyPress) -> (r: Option<WarningMessage>)
    ensures
        r == spec_warning_key_message(key),
{
    if !key.press {
        return None;
    }
    match key.code {
        KeyCode::Char(c) => if c == 'q' || c == 'Q' {
            Some(WarningMessage::Quit)
        } else {
            None
        },
        KeyCode::Esc => Some(WarningMessage::Quit),
        _ => None,
    }
}

/// One step of a warning float: dismissal drops it, and nothing else of
/// the application changes.
pub fn warning_message(app: &mut App, state: WarningState, message: WarningMessage) -> (r:
    FloatUpdater<WarningMessage, WarningState>)
    ensures
        *final(app) == *old(app),
        r.message is None,
        r.state is None,
        r.float is None,
{
    match message {
        WarningMessage::Quit => FloatUpdater::new(),
    }
}

/// One step of a help float: dismissal drops it, like a warning.
pub fn help_message(app: &mut App, state: HelpState, message: WarningMessage) -> (r: FloatUpdater<
    WarningMessage,
    HelpState,
>)
    ensures
        *final(app) == *old(app),
        r.message is None,
        r.state is None,
        r.float is None,
{
    match message {
        WarningMessage::Quit => FloatUpdater::new(),
    }
}

/// One step of the folder save dialog. A settling message resolves it per
/// [`folder_save_resolution`]; a switch message keeps the dialog with its
/// selection moved. The data is never touched.
pub fn folder_save_confirm_message(
    app: &mut App,
    state: FolderSaveConfirmState,
    message: ConfirmMessage,
) -> (r: FloatUpdater<ConfirmMessage, FolderSaveConfirmState>)
    requires
        old(app).wf(),
    ensures
        final(app).wf(),
        final(app).spec_floats() == old(app).spec_floats(),
        final(app).option == old(app).option,
        final(app).cache == old(app).cache,
        final(app).data == old(app).data,
        r.message is None,
        match confirm_effective(message, state.choice) {
            Some(c) => {
                let armed = FolderSaveConfirmState { choice: c, ..state };
                r.state is None && r.float == folder_save_resolution(armed).1 && final(app).state
                    == (match folder_save_resolution(armed).0 {
                    Some(st) => st,
                    None => old(app).state,
                })
            },
            None => *final(app) == *old(app) && r.float is None && r.state == Some(
                FolderSaveConfirmState { choice: confirm_switched(message, state.choice), ..state },
            ),
        },
{
    match message {
        ConfirmMessage::Yes => folder_save_confirm_call(app, ConfirmChoice::Yes, state),
        ConfirmMessage::No => folder_save_confirm_call(app, ConfirmChoice::No, state),
        ConfirmMessage::Quit => folder_save_confirm_call(app, ConfirmChoice::No, state),
        ConfirmMessage::SwitchLeft => {
            let mut state = state;
            state.change_choice(ConfirmChoice::Yes);
            FloatUpdater::new().with_state(state)
        },
        ConfirmMessage::SwitchRight => {
            let mut state = state;
            state.change_choice(ConfirmChoice::No);
            FloatUpdater::new().with_state(state)
        },
        ConfirmMessage::Switch => {
            let mut state = state;
            state.switch_chioce();
            FloatUpdater::new().with_state(state)
        },
        ConfirmMessage::Choose => {
            let choice = state.choice();
            folder_save_confirm_call(app, choice, state)
        },
    }
}

/// Arms the folder save dialog with the given answer and resolves it.
pub fn folder_save_confirm_call(
    app: &mut App,
    choice: ConfirmChoice,
    state: FolderSaveConfirmState,
) -> (r: FloatUpdater<ConfirmMessage, FolderSaveConfirmState>)
    requires
        old(app).wf(),
    ensures
        final(app).wf(),
        final(app).spec_floats() == old(app).spec_floats(),
        final(app).option == old(app).option,
        final(app).cache == old(app).cache,
        final(app).data == old(app).data,
        r.message is None,
        r.state is None,
        ({
            let armed = FolderSaveConfirmState { choice, ..state };
            r.float == folder_save_resolution(armed).1 && final(app).state == (
            match folder_save_resolution(armed).0 {
                Some(st) => st,
                None => old(app).state,
            })
        }),
{
    let armed = state.with_choice(choice);
    let float = armed.call(app);
    FloatUpdater::new().with_optional_float(float)
}

/// One step of the link save dialog; the counterpart of
/// [`folder_save_confirm_message`], resolving per [`link_save_resolution`].
pub fn link_save_confirm_message(
    app: &mut App,
    state: LinkSaveConfirmState,
    message: ConfirmMessage,
) -> (r: FloatUpdater<ConfirmMessage, LinkSaveConfirmState>)
    requires
        old(app).wf(),
        state.last_state.from < old(app).data@.len(),
    ensures
        final(app).wf(),
        final(app).spec_floats() == old(app).spec_floats(),
        final(app).option == old(app).option,
        final(app).cache == old(app).cache,
        final(app).data == old(app).data,
        r.message is None,
        match confirm_effective(message, state.choice) {
            Some(c) => {
                let armed = LinkSaveConfirmState { choice: c, ..state };
                r.state is None && r.float == link_save_resolution(armed).1 && final(app).state == (
                match link_save_resolution(armed).0 {
                    Some(st) => st,
                    None => old(app).state,
                })
            },
            None => *final(app) == *old(app) && r.float is None && r.state == Some(
                LinkSaveConfirmState { choice: confirm_switched(message, state.choice), ..state },
            ),
        },
{
    match message {
        ConfirmMessage::Yes => link_save_confirm_call(app, ConfirmChoice::Yes, state),
        ConfirmMessage::No => link_save_confirm_call(app, ConfirmChoice::No, state),
        ConfirmMessage::Quit => link_save_confirm_call(app, ConfirmChoice::No, state),
        ConfirmMessage::SwitchLeft => {
            let mut state = state;
            state.change_choice(ConfirmChoice::Yes);
            FloatUpdater::new().with_state(state)
        },
        ConfirmMessage::SwitchRight => {
            let mut state = state;
            state.change_choice(ConfirmChoice::No);
            FloatUpdater::new().with_state(state)
        },
        ConfirmMessage::Switch => {
            let mut state = state;
            state.switch_chioce();
            FloatUpdater::new().with_state(state)
        },
        ConfirmMessage::Choose => {
            let choice = state.choice();
            link_save_confirm_call(app, choice, state)
        },
    }
}

/// Arms the link save dialog with the given answer and resolves it.
pub fn link_save_confirm_call(
    app: &mut App,
    choice: ConfirmChoice,
    state: LinkSaveConfirmState,
) -> (r: FloatUpdater<ConfirmMessage, LinkSaveConfirmState>)
    requires
        old(app).wf(),
        state.last_state.from < old(app).data@.len(),
    ensures
        final(app).wf(),
        final(app).spec_floats() == old(app).spec_floats(),
        final(app).option == old(app).option,
        final(app).cache == old(app).cache,
        final(app).data == old(app).data,
        r.message is None,
        r.state is None,
        ({
            let armed = LinkSaveConfirmState { choice, ..state };
            r.float == link_save_resolution(armed).1 && final(app).state == (
            match link_save_resolution(armed).0 {
                Some(st) => st,
                None => old(app).state,
            })
        }),
{
    let armed = state.with_choice(choice);
    let float = armed.call(app);
    FloatUpdater::new().with_optional_float(float)
}

/// The key table of the corrupt-data dialog: navigable in four directions,
/// dismissable, and settled with enter or space.
pub open spec fn spec_corrupt_data_warning_key_message(key: KeyPress) -> Option<
    ChooseMessage<bool>,
> {
    if !key.press {
        None
    } else {
        match key.code {
            KeyCode::Char(c) => if c == 'q' || c == 'Q' {
                Some(ChooseMessage::Quit(false))
            } else if c == ' ' {
                Some(ChooseMessage::Choose)
            } else {
                None
            },
            KeyCode::Esc => Some(ChooseMessage::Quit(false)),
            KeyCode::Enter => Some(ChooseMessage::Choose),
            KeyCode::Left => Some(ChooseMessage::SwitchLeft),
            KeyCode::Right => Some(ChooseMessage::SwitchRight),
            KeyCode::Up => Some(ChooseMessage::SwitchUp),
            KeyCode::Down => Some(ChooseMessage::SwitchDown),
            KeyCode::Tab => Some(ChooseMessage::Switch),
            KeyCode::BackTab => Some(ChooseMessage::SwitchBack),
            _ => None,
        }
    }
}

pub fn corrupt_data_warning_key(key: KeyPress) -> (r: Option<ChooseMessage<bool>>)
    ensures
        r == spec_corrupt_data_warning_key_message(key),
{
    if !key.press {
        return None;
    }
    match key.code {
        KeyCode::Char(c) => if c == 'q' || c == 'Q' {
            Some(ChooseMessage::Quit(false))
        } else if c == ' ' {
            Some(ChooseMessage::Choose)
        } else {
            None
        },
        KeyCode::Esc => Some(ChooseMessage::Quit(false)),
        KeyCode::Enter => Some(ChooseMessage::Choose),
        KeyCode::Left => Some(ChooseMessage::SwitchLeft),
        KeyCode::Right => Some(ChooseMessage::SwitchRight),
        KeyCode::Up => Some(ChooseMessage::SwitchUp),
        KeyCode::Down => Some(ChooseMessage::SwitchDown),
        KeyCode::Tab => Some(ChooseMessage::Switch),
        KeyCode::BackTab => Some(ChooseMessage::SwitchBack),
        _ => None,
    }
}

/// One step of the corrupt-data dialog. Quitting, or choosing `Exit`,
/// suppresses saving and ends the application; choosing `NewData`
/// re-enables saving and dismisses the dialog, so work continues on the
/// empty collection. Navigation keeps the dialog with its choice moved.
pub fn corrupt_data_warning_message(
    app: &mut App,
    state: CorruptDataWarningState,
    message: ChooseMessage<bool>,
) -> (r: FloatUpdater<ChooseMessage<bool>, CorruptDataWarningState>)
    ensures
        final(app).spec_floats() == old(app).spec_floats(),
        final(app).data == old(app).data,
        final(app).cache == old(app).cache,
        r.float is None,
        r.message matches Some(m2) ==> choose_msg_rank(m2) < choose_msg_rank(message),
        old(app).wf() ==> final(app).wf(),
        match message {
            ChooseMessage::Quit(keep) => r.state is None && r.message is None && (if keep {
                *final(app) == *old(app)
            } else {
                !final(app).option.save && (final(app).state matches AppState::Quit(d) && d.link
                    is None && d.config is None && d.data is None)
            }),
            ChooseMessage::Choose => r.message == Some(
                ChooseMessage::Quit(state.choice == CorruptDataWarningChoice::NewData),
            ) && r.state == Some(state) && (if state.choice == CorruptDataWarningChoice::NewData {
                final(app).option.save && final(app).state == old(app).state
            } else {
                *final(app) == *old(app)
            }),
            _ => *final(app) == *old(app) && r.message is None && (r.state matches Some(s2)
                && s2.message == state.message && s2.choice == (match message {
                ChooseMessage::SwitchLeft => CorruptDataWarningChoice::Exit,
                ChooseMessage::SwitchRight => CorruptDataWarningChoice::NewData,
                ChooseMessage::Switch | ChooseMessage::SwitchBack => if state.choice
                    == CorruptDataWarningChoice::Exit {
                    CorruptDataWarningChoice::NewData
                } else {
                    CorruptDataWarningChoice::Exit
                },
                _ => state.choice,
            })),
        },
{
    match message {
        ChooseMessage::Quit(choice) => {
            if !choice {
                app.option.save = false;
                app.set_state(AppState::Quit(DataTransfer::new()));
            }
            FloatUpdater::new()
        },
        ChooseMessage::Choose => {
            match state.choice() {
                CorruptDataWarningChoice::Exit => FloatUpdater::new().with_message(
                    ChooseMessage::Quit(false),
                ).with_state(state),
                CorruptDataWarningChoice::NewData => {
                    app.option.save = true;
                    FloatUpdater::new().with_message(ChooseMessage::Quit(true)).with_state(state)
                },
            }
        },
        ChooseMessage::SwitchLeft => {
            let mut state = state;
            state.switch_left();
            FloatUpdater::new().with_state(state)
        },
        ChooseMessage::SwitchRight => {
            let mut state = state;
            state.switch_right();
            FloatUpdater::new().with_state(state)
        },
        ChooseMessage::SwitchUp => {
            let mut state = state;
            state.switch_up();
            FloatUpdater::new().with_state(state)
        },
        ChooseMessage::SwitchDown => {
            let mut state = state;
            state.switch_down();
            FloatUpdater::new().with_state(state)
        },
        ChooseMessage::Switch => {
            let mut state = state;
            state.switch();
            FloatUpdater::new().with_state(state)
        },
        ChooseMessage::SwitchBack => {
            let mut state = state;
            state.switch_back();
            FloatUpdater::new().with_state(state)
        },
    }
}


/// The whole effect of one key event on the folder delete dialog, as
/// [`handle_folder_delete_confirm_key`] guarantees it.
pub open spec fn folder_delete_key_post(
    key: KeyPress,
    state: FolderDeleteConfirmState,
    st0: AppState,
    d0: crate::data::dirset::LinkDirSet,
    st1: AppState,
    d1: crate::data::dirset::LinkDirSet,
    r: FloatActionResult,
) -> bool {
    match spec_confirm_key_message(key) {
            None => r.primary == Some(Float::FolderDeleteConfirm(state)) && d1 == d0 && st1 == st0,
            Some(m) => match confirm_effective(m, state.choice) {
                Some(c) => r.primary is None && folder_delete_outcome(
                    st0,
                    d0@,
                    st1,
                    d1@,
                    state.target,
                    c,
                ),
                None => r.primary == Some(
                    Float::FolderDeleteConfirm(
                        FolderDeleteConfirmState {
                            choice: confirm_switched(m, state.choice),
                            ..state
                        },
                    ),
                ) && d1 == d0 && st1 == st0,
            },
        }
}

/// Drives one key event through the folder delete dialog, per the shared
/// confirmation key table: a switch keeps the dialog (as the primary
/// float) with its selection moved, a settling answer interprets the
/// deferred removal per [`folder_delete_outcome`] and drops the dialog,
/// and an unmapped key changes nothing.
pub fn handle_folder_delete_confirm_key(
    app: &mut App,
    key: KeyPress,
    state: FolderDeleteConfirmState,
) -> (r: FloatActionResult)
    requires
        old(app).wf(),
        old(app).spec_floats().len() == 0,
        state.target < old(app).data@.len(),
    ensures
        final(app).wf(),
        final(app).spec_floats() == old(app).spec_floats(),
        final(app).option == old(app).option,
        final(app).cache == old(app).cache,
        r.new is None,
        folder_delete_key_post(
            key,
            state,
            old(app).state,
            old(app).data,
            final(app).state,
            final(app).data,
            r,
        ),
{
    match folder_delete_confirm_key(key) {
        None => FloatActionResult::new().with_primary(Float::FolderDeleteConfirm(state)),
        Some(msg) => {
            let updater = folder_delete_confirm_message(app, state, msg);
            match updater.state {
                Some(settled) => FloatActionResult::new().with_primary(
                    Float::FolderDeleteConfirm(settled),
                ),
                None => FloatActionResult::new().with_optional_new(updater.float),
            }
        },
    }
}

/// The whole effect of one key event on the link delete dialog, as
/// [`handle_link_delete_confirm_key`] guarantees it.
pub open spec fn link_delete_key_post(
    key: KeyPress,
    state: LinkDeleteConfirmState,
    st0: AppState,
    d0: crate::data::dirset::LinkDirSet,
    st1: AppState,
    d1: crate::data::dirset::LinkDirSet,
    r: FloatActionResult,
) -> bool {
    match spec_confirm_key_message(key) {
            None => r.primary == Some(Float::LinkDeleteConfirm(state)) && d1 == d0 && st1 == st0,
            Some(m) => match confirm_effective(m, state.choice) {
                Some(c) => r.primary is None && link_delete_outcome(
                    st0,
                    d0@,
                    st1,
                    d1@,
                    state.target,
                    state.dir_idx,
                    c,
                ),
                None => r.primary == Some(
                    Float::LinkDeleteConfirm(
                        LinkDeleteConfirmState {
                            choice: confirm_switched(m, state.choice),
                            ..state
                        },
                    ),
                ) && d1 == d0 && st1 == st0,
            },
        }
}

/// Drives one key event through the link delete dialog; the counterpart
/// of [`handle_folder_delete_confirm_key`], settling per
/// [`link_delete_outcome`].
pub fn handle_link_delete_confirm_key(
    app: &mut App,
    key: KeyPress,
    state: LinkDeleteConfirmState,
) -> (r: FloatActionResult)
    requires
        old(app).wf(),
        old(app).spec_floats().len() == 0,
        state.dir_idx < old(app).data@.len(),
        state.target < old(app).data@[state.dir_idx as int].links.len(),
    ensures
        final(app).wf(),
        final(app).spec_floats() == old(app).spec_floats(),
        final(app).option == old(app).option,
        final(app).cache == old(app).cache,
        r.new is None,
        link_delete_key_post(
            key,
            state,
            old(app).state,
            old(app).data,
            final(app).state,
            final(app).data,
            r,
        ),
{
    match folder_delete_confirm_key(key) {
        None => FloatActionResult::new().with_primary(Float::LinkDeleteConfirm(state)),
        Some(msg) => {
            let updater = link_delete_confirm_message(app, state, msg);
            match updater.state {
                Some(settled) => FloatActionResult::new().with_primary(
                    Float::LinkDeleteConfirm(settled),
                ),
                None => FloatActionResult::new().with_optional_new(updater.float),
            }
        },
    }
}

/// The whole effect of one key event on a warning float, as
/// [`handle_warning_key`] guarantees it: a dismissal key drops the float,
/// anything else keeps it.
pub open spec fn warning_key_post(key: KeyPress, state: WarningState, r: FloatActionResult) -> bool {
    &&& r.new is None
    &&& (spec_warning_key_message(key) is Some ==> r.primary is None)
    &&& (spec_warning_key_message(key) is None ==> r.primary == Some(Float::Warning(state)))
}

/// The whole effect of one key event on the help float, which dismisses
/// like a warning.
pub open spec fn help_key_post(key: KeyPress, state: HelpState, r: FloatActionResult) -> bool {
    &&& r.new is None
    &&& (spec_warning_key_message(key) is Some ==> r.primary is None)
    &&& (spec_warning_key_message(key) is None ==> r.primary == Some(Float::Help(state)))
}

/// Drives one key event through a warning float: a dismissal key drops it,
/// anything else keeps it; the application is untouched either way.
pub fn handle_warning_key(app: &mut App, key: KeyPress, state: WarningState) -> (r:
    FloatActionResult)
    ensures
        *final(app) == *old(app),
        warning_key_post(key, state, r),
{
    let opt_msg = warning_key(key);
    match opt_msg {
        Some(msg) => {
            let updater = warning_message(app, state, msg);
            FloatActionResult::new().with_optional_new(updater.float)
        },
        None => FloatActionResult::new().with_primary(Float::Warning(state)),
    }
}

/// Drives one key event through the help float, which dismisses like a
/// warning.
pub fn handle_help_key(app: &mut App, key: KeyPress, state: HelpState) -> (r: FloatActionResult)
    ensures
        *final(app) == *old(app),
        help_key_post(key, state, r),
{
    let opt_msg = warning_key(key);
    match opt_msg {
        Some(msg) => {
            let updater = help_message(app, state, msg);
            FloatActionResult::new().with_optional_new(updater.float)
        },
        None => FloatActionResult::new().with_primary(Float::Help(state)),
    }
}

/// The whole effect of one key event on the folder save dialog, as
/// [`handle_folder_save_confirm_key`] guarantees it; the data is never
/// touched.
pub open spec fn folder_save_key_post(
    key: KeyPress,
    state: FolderSaveConfirmState,
    st0: AppState,
    d0: crate::data::dirset::LinkDirSet,
    st1: AppState,
    d1: crate::data::dirset::LinkDirSet,
    r: FloatActionResult,
) -> bool {
    match spec_confirm_key_message(key) {
            None => r.primary == Some(Float::FolderSaveConfirm(state)) && r.new is None && st1 == st0,
            Some(m) => match confirm_effective(m, state.choice) {
                Some(c) => {
                    let armed = FolderSaveConfirmState { choice: c, ..state };
                    r.primary is None && r.new == folder_save_resolution(armed).1 && st1 == (match folder_save_resolution(armed).0 {
                        Some(st) => st,
                        None => st0,
                    })
                },
                None => r.primary == Some(
                    Float::FolderSaveConfirm(
                        FolderSaveConfirmState { choice: confirm_switched(m, state.choice), ..state },
                    ),
                ) && r.new is None && st1 == st0,
            },
        }
}

/// Drives one key event through the folder save dialog, per the shared
/// confirmation key table: a switch keeps the dialog with its selection
/// moved, a settling answer resolves it per [`folder_save_resolution`] —
/// handing the suspended editor back as the newly spawned float when the
/// user chose to keep editing — and an unmapped key changes nothing. The
/// data is never touched.
pub fn handle_folder_save_confirm_key(
    app: &mut App,
    key: KeyPress,
    state: FolderSaveConfirmState,
) -> (r: FloatActionResult)
    requires
        old(app).wf(),
        crate::float::folder_edit_wf(state.last_state, old(app).data@),
    ensures
        final(app).wf(),
        final(app).spec_floats() == old(app).spec_floats(),
        final(app).option == old(app).option,
        final(app).cache == old(app).cache,
        final(app).data == old(app).data,
        folder_save_key_post(
            key,
            state,
            old(app).state,
            old(app).data,
            final(app).state,
            final(app).data,
            r,
        ),
{
    match folder_save_confirm_key(key) {
        None => FloatActionResult::new().with_primary(Float::FolderSaveConfirm(state)),
        Some(msg) => {
            let updater = folder_save_confirm_message(app, state, msg);
            match updater.state {
                Some(settled) => FloatActionResult::new().with_primary(
                    Float::FolderSaveConfirm(settled),
                ),
                None => FloatActionResult::new().with_optional_new(updater.float),
            }
        },
    }
}

/// The whole effect of one key event on the link save dialog, as
/// [`handle_link_save_confirm_key`] guarantees it; the data is never
/// touched.
pub open spec fn link_save_key_post(
    key: KeyPress,
    state: LinkSaveConfirmState,
    st0: AppState,
    d0: crate::data::dirset::LinkDirSet,
    st1: AppState,
    d1: crate::data::dirset::LinkDirSet,
    r: FloatActionResult,
) -> bool {
    match spec_confirm_key_message(key) {
            None => r.primary == Some(Float::LinkSaveConfirm(state)) && r.new is None && st1 == st0,
            Some(m) => match confirm_effective(m, state.choice) {
                Some(c) => {
                    let armed = LinkSaveConfirmState { choice: c, ..state };
                    r.primary is None && r.new == link_save_resolution(armed).1 && st1 == (match link_save_resolution(armed).0 {
                        Some(st) => st,
                        None => st0,
                    })
                },
                None => r.primary == Some(
                    Float::LinkSaveConfirm(
                        LinkSaveConfirmState { choice: confirm_switched(m, state.choice), ..state },
                    ),
                ) && r.new is None && st1 == st0,
            },
        }
}

/// Drives one key event through the link save dialog; the counterpart of
/// [`handle_folder_save_confirm_key`], resolving per
/// [`link_save_resolution`].
pub fn handle_link_save_confirm_key(
    app: &mut App,
    key: KeyPress,
    state: LinkSaveConfirmState,
) -> (r: FloatActionResult)
    requires
        old(app).wf(),
        crate::float::link_edit_wf(state.last_state, old(app).data@),
    ensures
        final(app).wf(),
        final(app).spec_floats() == old(app).spec_floats(),
        final(app).option == old(app).option,
        final(app).cache == old(app).cache,
        final(app).data == old(app).data,
        link_save_key_post(
            key,
            state,
            old(app).state,
            old(app).data,
            final(app).state,
            final(app).data,
            r,
        ),
{
    match link_save_confirm_key(key) {
        None => FloatActionResult::new().with_primary(Float::LinkSaveConfirm(state)),
        Some(msg) => {
            let updater = link_save_confirm_message(app, state, msg);
            match updater.state {
                Some(settled) => FloatActionResult::new().with_primary(
                    Float::LinkSaveConfirm(settled),
                ),
                None => FloatActionResult::new().with_optional_new(updater.float),
            }
        },
    }
}

/// The whole effect of one key event on the corrupt-data dialog, as
/// [`handle_corrupt_data_warning_key`] guarantees it; the data is never
/// touched.
pub open spec fn corrupt_data_key_post(
    key: KeyPress,
    state: CorruptDataWarningState,
    st0: AppState,
    d0: crate::data::dirset::LinkDirSet,
    st1: AppState,
    d1: crate::data::dirset::LinkDirSet,
    save0: bool,
    save1: bool,
    r: FloatActionResult,
) -> bool {
    match spec_corrupt_data_warning_key_message(key) {
            None => r.primary == Some(Float::CorruptDataWarning(state)) && st1
                == st0 && save1 == save0,
            Some(ChooseMessage::Quit(keep)) => r.primary is None && !save1 && (
            st1 matches AppState::Quit(d) && d.link is None && d.config is None
                && d.data is None),
            Some(ChooseMessage::Choose) => r.primary is None && (if state.choice
                == CorruptDataWarningChoice::NewData {
                save1 && st1 == st0
            } else {
                !save1 && (st1 matches AppState::Quit(d) && d.link
                    is None && d.config is None && d.data is None)
            }),
            Some(m) => r.primary == Some(
                Float::CorruptDataWarning(
                    CorruptDataWarningState {
                        choice: match m {
                            ChooseMessage::SwitchLeft => CorruptDataWarningChoice::Exit,
                            ChooseMessage::SwitchRight => CorruptDataWarningChoice::NewData,
                            ChooseMessage::Switch | ChooseMessage::SwitchBack => if state.choice
                                == CorruptDataWarningChoice::Exit {
                                CorruptDataWarningChoice::NewData
                            } else {
                                CorruptDataWarningChoice::Exit
                            },
                            _ => state.choice,
                        },
                        message: state.message,
                    },
                ),
            ) && st1 == st0 && save1 == save0,
        }
}

/// Drives one key event through the corrupt-data dialog, per its key
/// table: navigation keeps the dialog with its choice moved; quitting, or
/// settling on `Exit`, suppresses saving and ends the application with an
/// empty transfer; settling on `NewData` re-enables saving and dismisses
/// the dialog, so work continues on the collection as it is.
pub fn handle_corrupt_data_warning_key(
    app: &mut App,
    key: KeyPress,
    state: CorruptDataWarningState,
) -> (r: FloatActionResult)
    requires
        old(app).wf(),
    ensures
        final(app).wf(),
        final(app).spec_floats() == old(app).spec_floats(),
        final(app).data == old(app).data,
        final(app).cache == old(app).cache,
        r.new is None,
        corrupt_data_key_post(
            key,
            state,
            old(app).state,
            old(app).data,
            final(app).state,
            final(app).data,
            old(app).option.save,
            final(app).option.save,
            r,
        ),
{
    match corrupt_data_warning_key(key) {
        None => FloatActionResult::new().with_primary(Float::CorruptDataWarning(state)),
        Some(msg) => {
            let updater = corrupt_data_warning_message(app, state, msg);
            match updater.message {
                None => match updater.state {
                    Some(settled) => FloatActionResult::new().with_primary(
                        Float::CorruptDataWarning(settled),
                    ),
                    None => FloatActionResult::new().with_optional_new(updater.float),
                },
                Some(msg2) => match updater.state {
                    Some(settled) => {
                        let updater2 = corrupt_data_warning_message(app, settled, msg2);
                        match updater2.state {
                            Some(settled2) => FloatActionResult::new().with_primary(
                                Float::CorruptDataWarning(settled2),
                            ),
                            None => FloatActionResult::new().with_optional_new(updater2.float),
                        }
                    },
                    None => FloatActionResult::new().with_optional_new(updater.float),
                },
            }
        },
    }
}

} // verus!
