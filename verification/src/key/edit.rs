//! Key handling for the edit floats: the key tables of their two modes,
//! the per-message handlers with their confirm and quit flows, and the
//! bounded dispatch loops.

use vstd::prelude::*;

use tui_input::Input;

use crate::app::data::CursorCache;
use crate::app::App;
use crate::data::dir::{dir_contains, LinkDir, LinkDirView};
use crate::data::dirset::LinkDirSet;
use crate::data::dirset::dirset_contains;
use crate::data::link::{absolute_path, get_vaild_path, str_eq, valid_identifier, Link, LinkView};
use crate::float::confirm::{ConfirmChoice, FolderSaveConfirmState, LinkSaveConfirmState};
use crate::float::edit::{FolderEditState, LinkEditState};
use crate::float::help::{HelpEntry, HelpState};
use crate::float::warning::WarningState;
use crate::float::{float_wf, folder_edit_wf, is_delete_confirm, link_edit_wf, Float, FloatActionResult};
use crate::input::{input_feed, KeyCode, KeyPress};
use crate::message::{edit_msg_rank, EditMessage, FloatUpdater};
use crate::state::common::{InputMode, InputPart};
use crate::state::folder::FolderNormalState;
use crate::state::link::LinkNormalState;
use crate::state::{AppState, NormalState};

verus! {

/// Feeds one keystroke into a text buffer and marks the rendered cursor
/// stale, since the insertion point may have moved.
pub fn input_handle_key(input: &mut Input, key: &KeyPress, cursor_cache: &mut CursorCache)
    ensures
        crate::input::input_chars(*final(input)) == crate::input::feed_chars(
            *old(input),
            key.raw,
        ),
        final(cursor_cache).outdated,
        final(cursor_cache).pos == old(cursor_cache).pos,
{
    input_feed(input, key);
    cursor_cache.outdate();
}

/// The pending selection a quit from an edit dialog carries: the dialog's
/// own subject, or the top of a non-empty list.
pub open spec fn spec_quit_select(select: Option<usize>, data_len: nat) -> Option<usize> {
    if data_len == 0 {
        select
    } else {
        match select {
            Some(i) => Some(i),
            None => Some(0usize),
        }
    }
}

/// The command-mode key table of the folder edit dialog.
pub open spec fn spec_folder_edit_normal_key(key: KeyPress, quit_select: Option<usize>) -> Option<
    EditMessage,
> {
    if !key.press {
        None
    } else if key.ctrl && (key.code == KeyCode::Char('c') || key.code == KeyCode::Char('C')) {
        Some(EditMessage::Quit(quit_select, true))
    } else {
        match key.code {
            KeyCode::Esc => Some(EditMessage::Quit(quit_select, true)),
            KeyCode::Char(c) => if c == 'q' {
                Some(EditMessage::Quit(quit_select, true))
            } else if c == 'a' || c == 'e' {
                Some(EditMessage::Edit)
            } else if c == '?' {
                Some(EditMessage::Help)
            } else {
                None
            },
            KeyCode::Enter => Some(EditMessage::Confirm),
            _ => None,
        }
    }
}

/// The command-mode key table of the link edit dialog: the folder table
/// plus buffer switching.
pub open spec fn spec_link_edit_normal_key(key: KeyPress, quit_select: Option<usize>) -> Option<
    EditMessage,
> {
    if !key.press {
        None
    } else if key.ctrl && (key.code == KeyCode::Char('c') || key.code == KeyCode::Char('C')) {
        Some(EditMessage::Quit(quit_select, true))
    } else {
        match key.code {
            KeyCode::Esc => Some(EditMessage::Quit(quit_select, true)),
            KeyCode::Char(c) => if c == 'q' {
                Some(EditMessage::Quit(quit_select, true))
            } else if c == 'a' || c == 'e' {
                Some(EditMessage::Edit)
            } else if c == '?' {
                Some(EditMessage::Help)
            } else {
                None
            },
            KeyCode::Enter => Some(EditMessage::Confirm),
            KeyCode::Tab => Some(EditMessage::Switch),
            KeyCode::BackTab => Some(EditMessage::Switch),
            KeyCode::Left => Some(EditMessage::SwitchLeft),
            KeyCode::Right => Some(EditMessage::SwitchRight),
            _ => None,
        }
    }
}

/// Whether an editing-mode key of the folder edit dialog goes into the
/// text buffer rather than being a command (quit, back, confirm).
pub open spec fn folder_editing_feeds(key: KeyPress) -> bool {
    !key.press || (!(key.ctrl && (key.code == KeyCode::Char('c') || key.code == KeyCode::Char(
        'C',
    ))) && key.code != KeyCode::Esc && key.code != KeyCode::Enter)
}

/// Whether an editing-mode key of the link edit dialog goes into the
/// active text buffer rather than being a command.
pub open spec fn link_editing_feeds(key: KeyPress) -> bool {
    !key.press || (!(key.ctrl && (key.code == KeyCode::Char('c') || key.code == KeyCode::Char(
        'C',
    ))) && key.code != KeyCode::Esc && key.code != KeyCode::Tab && key.code != KeyCode::Enter)
}

/// Every key event reaches the folder edit dialog as a `HandleInput`.
pub fn edit_folder_key(key: KeyPress) -> (r: Option<EditMessage>)
    ensures
        r == Some(EditMessage::HandleInput(key)),
{
    Some(EditMessage::HandleInput(key))
}

/// Every key event reaches the link edit dialog as a `HandleInput`.
pub fn edit_link_key(key: KeyPress) -> (r: Option<EditMessage>)
    ensures
        r == Some(EditMessage::HandleInput(key)),
{
    Some(EditMessage::HandleInput(key))
}

/// Command-mode input of the folder edit dialog: translates the key into
/// the follow-up message of [`spec_folder_edit_normal_key`], touching
/// nothing.
pub fn folder_handle_input_normal(app: &mut App, state: &FolderEditState, key: KeyPress) -> (r:
    FloatUpdater<EditMessage, FolderEditState>)
    ensures
        *final(app) == *old(app),
        r.state is None,
        r.float is None,
        r.message == spec_folder_edit_normal_key(
            key,
            spec_quit_select(state.selected, old(app).data@.len()),
        ),
{
    let select = state.selected();
    let quit_select: Option<usize> = if app.data.is_empty() {
        select
    } else {
        match select {
            Some(i) => Some(i),
            None => Some(0),
        }
    };
    if !key.press {
        return FloatUpdater::new();
    }
    if key.ctrl {
        match key.code {
            KeyCode::Char(c) => if c == 'c' || c == 'C' {
                return FloatUpdater::new().with_message(EditMessage::Quit(quit_select, true));
            },
            _ => {},
        }
    }
    match key.code {
        KeyCode::Esc => FloatUpdater::new().with_message(EditMessage::Quit(quit_select, true)),
        KeyCode::Char(c) => if c == 'q' {
            FloatUpdater::new().with_message(EditMessage::Quit(quit_select, true))
        } else if c == 'a' || c == 'e' {
            FloatUpdater::new().with_message(EditMessage::Edit)
        } else if c == '?' {
            FloatUpdater::new().with_message(EditMessage::Help)
        } else {
            FloatUpdater::new()
        },
        KeyCode::Enter => FloatUpdater::new().with_message(EditMessage::Confirm),
        _ => FloatUpdater::new(),
    }
}

/// Enters editing mode from command mode.
pub fn folder_edit_normal(app: &mut App, state: &mut FolderEditState) -> (r: FloatUpdater<
    EditMessage,
    FolderEditState,
>)
    ensures
        final(app).state == old(app).state,
        final(app).data == old(app).data,
        final(app).option == old(app).option,
        final(app).spec_floats() == old(app).spec_floats(),
        *final(state) == (FolderEditState {
            mode: if old(state).mode == InputMode::Normal {
                InputMode::Editing
            } else {
                InputMode::Normal
            },
            ..*old(state)
        }),
        r.message is None,
        r.state is None,
        r.float is None,
{
    app.cache.cursor.outdate();
    state.switch_mode();
    FloatUpdater::new()
}

/// What confirming a folder edit does, over the collection's view: a
/// validation failure yields exactly the data model's warning and leaves
/// the collection unchanged; success appends or renames and resolves into
/// a quit carrying the entry's index as the pending selection.
pub open spec fn folder_confirm_post(
    d0: Seq<LinkDirView>,
    d1: Seq<LinkDirView>,
    selected: Option<usize>,
    name: Seq<char>,
    msg: Option<EditMessage>,
    float: Option<Float>,
) -> bool {
    match selected {
        None => {
            if !valid_identifier(name) {
                d1 == d0 && msg is None && (float matches Some(Float::Warning(w)) && w.message@
                    == "Link name is empty"@)
            } else if dirset_contains(d0, name) {
                d1 == d0 && msg is None && (float matches Some(Float::Warning(w)) && w.message@
                    == "Directory name already exists"@)
            } else {
                d1 == d0.push(LinkDirView { identifier: name, links: Seq::<LinkView>::empty() })
                    && float is None && msg == Some(
                    EditMessage::Quit(Some(d0.len() as usize), false),
                )
            }
        },
        Some(idx) => {
            if name == d0[idx as int].identifier {
                d1 == d0 && float is None && msg == Some(EditMessage::Quit(Some(idx), false))
            } else if dirset_contains(d0, name) {
                d1 == d0 && msg is None && (float matches Some(Float::Warning(w)) && w.message@
                    == "Directory name already exists"@)
            } else if !valid_identifier(name) {
                d1 == d0 && msg is None && (float matches Some(Float::Warning(w)) && w.message@
                    == "Link name is empty"@)
            } else {
                d1 == d0.update(
                    idx as int,
                    LinkDirView { identifier: name, links: d0[idx as int].links },
                ) && float is None && msg == Some(EditMessage::Quit(Some(idx), false))
            }
        },
    }
}

/// Confirms the folder edit: appends or renames through the validating
/// data model; a validation failure spawns a warning carrying the model's
/// message and mutates nothing at all, while success resolves into a quit
/// with the entry's index as the pending selection.
pub fn folder_confirm_normal(app: &mut App, state: &FolderEditState) -> (r: FloatUpdater<
    EditMessage,
    FolderEditState,
>)
    requires
        old(app).wf(),
        folder_edit_wf(*state, old(app).data@),
    ensures
        final(app).wf(),
        final(app).spec_floats() == old(app).spec_floats(),
        final(app).state == old(app).state,
        final(app).option == old(app).option,
        final(app).cache == old(app).cache,
        final(app).data@.len() >= old(app).data@.len(),
        forall|k: int|
            0 <= k < old(app).data@.len() ==> (#[trigger] final(app).data@[k]).links.len()
                >= old(app).data@[k].links.len(),
        r.state is None,
        r.float is Some ==> final(app).data@ == old(app).data@,
        folder_confirm_post(
            old(app).data@,
            final(app).data@,
            state.selected,
            crate::input::input_chars(state.input),
            r.message,
            r.float,
        ),
{
    let ghost dirs0 = app.data@;
    let name = state.value();
    let updater = match state.selected() {
        None => {
            match crate::data::dir::LinkDir::builder(name) {
                Err(err) => FloatUpdater::new().with_float(
                    Float::Warning(WarningState::new(String::from_str(err.message()))),
                ),
                Ok(dir) => {
                    match app.data.push(dir) {
                        Ok(_) => {
                            let select = app.data.len() - 1;
                            FloatUpdater::new().with_message(EditMessage::Quit(Some(select), false))
                        },
                        Err(err) => FloatUpdater::new().with_float(
                            Float::Warning(WarningState::new(String::from_str(err.message()))),
                        ),
                    }
                },
            }
        },
        Some(idx) => {
            if !str_eq(name, app.data.get(idx).identifier()) {
                match app.data.rename(idx, name) {
                    Ok(_) => FloatUpdater::new().with_message(EditMessage::Quit(Some(idx), false)),
                    Err(err) => FloatUpdater::new().with_float(
                        Float::Warning(WarningState::new(String::from_str(err.message()))),
                    ),
                }
            } else {
                FloatUpdater::new().with_message(EditMessage::Quit(Some(idx), false))
            }
        },
    };
    proof {
        assert forall|k: int| 0 <= k < dirs0.len() implies (#[trigger] app.data@[k]).links.len()
            >= dirs0[k].links.len() by {
            if app.data@.len() == dirs0.len() + 1 {
                assert(app.data@[k] == dirs0[k]);
            }
        }
        assert forall|i: int| 0 <= i < app.spec_floats().len() implies float_wf(
            #[trigger] app.spec_floats()[i],
            app.data@,
        ) by {
            assert(app.spec_floats()[i] == old(app).spec_floats()[i]);
            assert(float_wf(old(app).spec_floats()[i], dirs0));
            crate::float::lemma_float_wf_monotonic(app.spec_floats()[i], dirs0, app.data@);
        }
        assert forall|i: int|
            0 <= i < app.spec_floats().len() && is_delete_confirm(
                #[trigger] app.spec_floats()[i],
            ) implies app.spec_floats().len() == 1 by {
            assert(app.spec_floats()[i] == old(app).spec_floats()[i]);
            assert(is_delete_confirm(old(app).spec_floats()[i]));
        }
    }
    updater
}

/// What quitting the folder edit dialog from command mode does: unsaved
/// changes (a non-empty fresh buffer, or a renamed name that differs)
/// raise a save confirmation owning the whole dialog; otherwise the dialog
/// closes and the base folder view returns at the pending selection.
pub open spec fn folder_quit_post(
    d: Seq<LinkDirView>,
    state: FolderEditState,
    select: Option<usize>,
    ask_save: bool,
    st0: AppState,
    st1: AppState,
    float: Option<Float>,
) -> bool {
    let modified = match state.selected {
        None => crate::input::input_chars(state.input).len() > 0,
        Some(idx) => crate::input::input_chars(state.input) != d[idx as int].identifier,
    };
    if ask_save && modified {
        st1 == st0 && float == Some(
            Float::FolderSaveConfirm(
                FolderSaveConfirmState { choice: ConfirmChoice::No, last_state: state, select },
            ),
        )
    } else {
        st1 == AppState::Normal(NormalState::Folder(FolderNormalState { selected: select }))
            && float is None
    }
}

/// Quit from the folder edit dialog's command mode, per
/// [`folder_quit_post`].
pub fn folder_quit_normal(
    app: &mut App,
    state: FolderEditState,
    select: Option<usize>,
    ask_save: bool,
) -> (r: FloatUpdater<EditMessage, FolderEditState>)
    requires
        old(app).wf(),
        folder_edit_wf(state, old(app).data@),
    ensures
        final(app).wf(),
        final(app).spec_floats() == old(app).spec_floats(),
        final(app).data == old(app).data,
        final(app).option == old(app).option,
        final(app).cache == old(app).cache,
        r.message is None,
        r.state is None,
        folder_quit_post(
            old(app).data@,
            state,
            select,
            ask_save,
            old(app).state,
            final(app).state,
            r.float,
        ),
{
    let confirm: bool = if ask_save {
        match state.selected() {
            None => !state.value().is_empty(),
            Some(idx) => !str_eq(state.value(), app.data.get(idx).identifier()),
        }
    } else {
        false
    };
    if confirm {
        return FloatUpdater::new().with_float(
            Float::FolderSaveConfirm(FolderSaveConfirmState::new(state, select)),
        );
    }
    app.set_state(AppState::Normal(NormalState::Folder(FolderNormalState::with_selected(select))));
    FloatUpdater::new()
}

/// The folder edit dialog's help table.
pub fn folder_help_normal(app: &mut App, state: &mut FolderEditState) -> (r: FloatUpdater<
    EditMessage,
    FolderEditState,
>)
    ensures
        final(app).state == old(app).state,
        final(app).data == old(app).data,
        final(app).option == old(app).option,
        final(app).spec_floats() == old(app).spec_floats(),
        *final(state) == *old(state),
        r.message is None,
        r.state is None,
        r.float matches Some(Float::Help(h)) && h.entries@.len() == 5,
{
    app.cache.cursor.outdate();
    let mut help = HelpState::new();
    help.add_entry(HelpEntry::new("<Esc>/<q>", "Close the edit window in normal mode"));
    help.add_entry(HelpEntry::new("<Enter>", "Confirm the edit result"));
    help.add_entry(HelpEntry::new("<a>/<e>", "Enter editing mode in normal mode"));
    help.add_entry(HelpEntry::new("<Esc>", "Back to normal mode from editing mode"));
    help.add_entry(HelpEntry::new("<?>", "Open this window in normal mode"));
    FloatUpdater::new().with_float(Float::Help(help))
}

/// Editing-mode input of the folder edit dialog: escape returns to command
/// mode, enter confirms, quit keys quit, and every other key goes into the
/// text buffer.
pub fn folder_handle_input_editing(app: &mut App, state: &mut FolderEditState, key: KeyPress) -> (r:
    FloatUpdater<EditMessage, FolderEditState>)
    ensures
        final(app).state == old(app).state,
        final(app).data == old(app).data,
        final(app).option == old(app).option,
        final(app).spec_floats() == old(app).spec_floats(),
        r.state is None,
        r.float is None,
        folder_editing_feeds(key) ==> r.message is None && final(state).selected == old(
            state,
        ).selected && final(state).mode == old(state).mode && crate::input::input_chars(
            final(state).input,
        ) == crate::input::feed_chars(old(state).input, key.raw),
        !folder_editing_feeds(key) ==> *final(state) == *old(state) && r.message == (
        if key.ctrl && (key.code == KeyCode::Char('c') || key.code == KeyCode::Char('C')) {
            Some(EditMessage::Quit(old(state).selected, true))
        } else if key.code == KeyCode::Esc {
            Some(EditMessage::Back)
        } else {
            Some(EditMessage::Confirm)
        }),
{
    if key.press {
        if key.ctrl {
            match key.code {
                KeyCode::Char(c) => if c == 'c' || c == 'C' {
                    return FloatUpdater::new().with_message(
                        EditMessage::Quit(state.selected(), true),
                    );
                },
                _ => {},
            }
        }
        match key.code {
            KeyCode::Esc => FloatUpdater::new().with_message(EditMessage::Back),
            KeyCode::Enter => FloatUpdater::new().with_message(EditMessage::Confirm),
            _ => {
                input_handle_key(&mut state.input, &key, &mut app.cache.cursor);
                FloatUpdater::new()
            },
        }
    } else {
        input_handle_key(&mut state.input, &key, &mut app.cache.cursor);
        FloatUpdater::new()
    }
}

/// Enter in editing mode: back to command mode, then confirm.
pub fn folder_confirm_editing(app: &mut App, state: &mut FolderEditState) -> (r: FloatUpdater<
    EditMessage,
    FolderEditState,
>)
    ensures
        final(app).state == old(app).state,
        final(app).data == old(app).data,
        final(app).option == old(app).option,
        final(app).spec_floats() == old(app).spec_floats(),
        *final(state) == (FolderEditState {
            mode: if old(state).mode == InputMode::Normal {
                InputMode::Editing
            } else {
                InputMode::Normal
            },
            ..*old(state)
        }),
        r.message == Some(EditMessage::Confirm),
        r.state is None,
        r.float is None,
{
    state.switch_mode();
    app.cache.cursor.outdate();
    FloatUpdater::new().with_message(EditMessage::Confirm)
}

/// Quit from editing mode: leaves editing mode and re-raises the quit,
/// seeding the pending selection to the top of a non-empty list.
pub fn folder_quit_editing(
    app: &mut App,
    state: &mut FolderEditState,
    select: Option<usize>,
    ask_save: bool,
) -> (r: FloatUpdater<EditMessage, FolderEditState>)
    ensures
        final(app).state == old(app).state,
        final(app).data == old(app).data,
        final(app).option == old(app).option,
        final(app).spec_floats() == old(app).spec_floats(),
        *final(state) == (FolderEditState {
            mode: if old(state).mode == InputMode::Normal {
                InputMode::Editing
            } else {
                InputMode::Normal
            },
            ..*old(state)
        }),
        r.message == Some(
            EditMessage::Quit(
                if old(app).data@.len() == 0 {
                    Option::<usize>::None
                } else {
                    match select {
                        Some(i) => Some(i),
                        None => Some(0usize),
                    }
                },
                ask_save,
            ),
        ),
        r.state is None,
        r.float is None,
{
    let select: Option<usize> = if app.data.is_empty() {
        None
    } else {
        match select {
            Some(i) => Some(i),
            None => Some(0),
        }
    };
    state.switch_mode();
    app.cache.cursor.outdate();
    FloatUpdater::new().with_message(EditMessage::Quit(select, ask_save))
}

/// Escape in editing mode: back to command mode.
pub fn folder_back_editing(app: &mut App, state: &mut FolderEditState) -> (r: FloatUpdater<
    EditMessage,
    FolderEditState,
>)
    ensures
        final(app).state == old(app).state,
        final(app).data == old(app).data,
        final(app).option == old(app).option,
        final(app).spec_floats() == old(app).spec_floats(),
        *final(state) == (FolderEditState {
            mode: if old(state).mode == InputMode::Normal {
                InputMode::Editing
            } else {
                InputMode::Normal
            },
            ..*old(state)
        }),
        r.message is None,
        r.state is None,
        r.float is None,
{
    state.switch_mode();
    app.cache.cursor.outdate();
    FloatUpdater::new()
}

/// One handler invocation of the folder edit dialog, dispatched on its
/// mode. A chained message always has a smaller rank than the handled one,
/// so every chain settles; a validation warning replaces the dialog, and a
/// quit either closes it or moves it whole into a save confirmation.
pub fn edit_folder_message(app: &mut App, state: FolderEditState, msg: EditMessage) -> (r:
    FloatUpdater<EditMessage, FolderEditState>)
    requires
        old(app).wf(),
        folder_edit_wf(state, old(app).data@),
    ensures
        final(app).wf(),
        final(app).spec_floats() == old(app).spec_floats(),
        final(app).data@.len() >= old(app).data@.len(),
        forall|k: int|
            0 <= k < old(app).data@.len() ==> (#[trigger] final(app).data@[k]).links.len()
                >= old(app).data@[k].links.len(),
        r.state matches Some(s2) ==> folder_edit_wf(s2, final(app).data@),
        r.message matches Some(m2) ==> (r.state matches Some(s2) && edit_msg_rank(s2.mode, m2)
            < edit_msg_rank(state.mode, msg)),
        r.float matches Some(f) ==> float_wf(f, final(app).data@) && !is_delete_confirm(f),
        final(app).option == old(app).option,
        !(state.mode == InputMode::Normal && msg is Confirm) ==> final(app).data == old(app).data,
        !(state.mode == InputMode::Normal && msg is Quit) ==> final(app).state == old(app).state,
        state.mode == InputMode::Normal ==> match msg {
            EditMessage::HandleInput(key) => r.float is None && r.state == Some(state)
                && r.message == spec_folder_edit_normal_key(
                key,
                spec_quit_select(state.selected, old(app).data@.len()),
            ),
            EditMessage::Edit => r.message is None && r.float is None && r.state == Some(
                FolderEditState { mode: InputMode::Editing, ..state },
            ),
            EditMessage::Confirm => folder_confirm_post(
                old(app).data@,
                final(app).data@,
                state.selected,
                crate::input::input_chars(state.input),
                r.message,
                r.float,
            ) && (r.float is Some ==> r.state is None) && (r.float is None ==> r.state == Some(
                state,
            )),
            EditMessage::Quit(select, ask_save) => folder_quit_post(
                old(app).data@,
                state,
                select,
                ask_save,
                old(app).state,
                final(app).state,
                r.float,
            ) && r.message is None && r.state is None,
            EditMessage::Help => r.message is None && r.state == Some(state) && (
            r.float matches Some(Float::Help(h)) && h.entries@.len() == 5),
            EditMessage::SwitchOrConfirm => r.message == Some(EditMessage::Confirm) && r.state
                == Some(state) && r.float is None,
            _ => r.message is None && r.state == Some(state) && r.float is None,
        },
        state.mode == InputMode::Editing ==> match msg {
            EditMessage::HandleInput(key) => r.float is None && (folder_editing_feeds(key)
                ==> r.message is None && (r.state matches Some(s1) && s1.selected == state.selected
                && s1.mode == state.mode && crate::input::input_chars(s1.input)
                == crate::input::feed_chars(state.input, key.raw))) && (!folder_editing_feeds(key)
                ==> r.state == Some(state) && r.message == (
            if key.ctrl && (key.code == KeyCode::Char('c') || key.code == KeyCode::Char('C')) {
                Some(EditMessage::Quit(state.selected, true))
            } else if key.code == KeyCode::Esc {
                Some(EditMessage::Back)
            } else {
                Some(EditMessage::Confirm)
            })),
            EditMessage::Confirm => r.message == Some(EditMessage::Confirm) && r.float is None
                && r.state == Some(FolderEditState { mode: InputMode::Normal, ..state }),
            EditMessage::Quit(select, ask_save) => r.float is None && r.state == Some(
                FolderEditState { mode: InputMode::Normal, ..state },
            ) && r.message == Some(
                EditMessage::Quit(
                    if old(app).data@.len() == 0 {
                        Option::<usize>::None
                    } else {
                        match select {
                            Some(i) => Some(i),
                            None => Some(0usize),
                        }
                    },
                    ask_save,
                ),
            ),
            EditMessage::Back => r.message is None && r.float is None && r.state == Some(
                FolderEditState { mode: InputMode::Normal, ..state },
            ),
            EditMessage::SwitchOrConfirm => r.message == Some(EditMessage::Confirm) && r.state
                == Some(state) && r.float is None,
            _ => r.message is None && r.state == Some(state) && r.float is None,
        },
{
    let mut state = state;
    match *state.mode() {
        InputMode::Normal => match msg {
            EditMessage::HandleInput(key) => {
                let updater = folder_handle_input_normal(app, &state, key);
                updater.with_state(state)
            },
            EditMessage::Edit => {
                let updater = folder_edit_normal(app, &mut state);
                updater.with_state(state)
            },
            EditMessage::Confirm => {
                let updater = folder_confirm_normal(app, &state);
                if updater.float.is_some() {
                    updater
                } else {
                    updater.with_state(state)
                }
            },
            EditMessage::Switch => FloatUpdater::new().with_state(state),
            EditMessage::SwitchLeft => FloatUpdater::new().with_state(state),
            EditMessage::SwitchRight => FloatUpdater::new().with_state(state),
            EditMessage::SwitchOrConfirm => FloatUpdater::new().with_message(
                EditMessage::Confirm,
            ).with_state(state),
            EditMessage::Quit(select, ask_save) => folder_quit_normal(app, state, select, ask_save),
            EditMessage::Back => FloatUpdater::new().with_state(state),
            EditMessage::Help => {
                let updater = folder_help_normal(app, &mut state);
                updater.with_state(state)
            },
        },
        InputMode::Editing => match msg {
            EditMessage::HandleInput(key) => {
                let updater = folder_handle_input_editing(app, &mut state, key);
                updater.with_state(state)
            },
            EditMessage::Edit => FloatUpdater::new().with_state(state),
            EditMessage::Confirm => {
                let updater = folder_confirm_editing(app, &mut state);
                updater.with_state(state)
            },
            EditMessage::Switch => FloatUpdater::new().with_state(state),
            EditMessage::SwitchLeft => FloatUpdater::new().with_state(state),
            EditMessage::SwitchRight => FloatUpdater::new().with_state(state),
            EditMessage::SwitchOrConfirm => FloatUpdater::new().with_message(
                EditMessage::Confirm,
            ).with_state(state),
            EditMessage::Quit(select, ask_save) => {
                let updater = folder_quit_editing(app, &mut state, select, ask_save);
                updater.with_state(state)
            },
            EditMessage::Back => {
                let updater = folder_back_editing(app, &mut state);
                updater.with_state(state)
            },
            EditMessage::Help => FloatUpdater::new().with_state(state),
        },
    }
}

/// How a confirm settles the folder edit dialog, composing one confirm
/// step with the quit it chains into: a validation warning discards the
/// dialog and becomes the newly spawned float with the base state
/// untouched, while success applies the edit and restores the base folder
/// view at the entry's index.
pub open spec fn folder_confirm_settled(
    d0: Seq<LinkDirView>,
    d1: Seq<LinkDirView>,
    selected: Option<usize>,
    name: Seq<char>,
    st0: AppState,
    st1: AppState,
    r: FloatActionResult,
) -> bool {
    exists|m2: Option<EditMessage>, fl: Option<Float>|
        {
            &&& #[trigger] folder_confirm_post(d0, d1, selected, name, m2, fl)
            &&& match fl {
                Some(f) => st1 == st0 && r.primary is None && r.new == Some(f),
                None => r.primary is None && r.new is None && (m2 matches Some(
                    EditMessage::Quit(sel, ask),
                ) && !ask && st1 == AppState::Normal(
                    NormalState::Folder(FolderNormalState { selected: sel }),
                )),
            }
        }
}

/// The whole effect of one key event on the folder edit dialog, as
/// [`handle_edit_folder_key`] guarantees it: the result floats, the data
/// and the base state, cased on the dialog's mode and its key table.
pub open spec fn folder_edit_key_post(
    key: KeyPress,
    state: FolderEditState,
    st0: AppState,
    d0: LinkDirSet,
    st1: AppState,
    d1: LinkDirSet,
    r: FloatActionResult,
) -> bool {
        &&& (state.mode == InputMode::Normal ==> match spec_folder_edit_normal_key(
            key,
            spec_quit_select(state.selected, d0@.len()),
        ) {
            None => r.primary == Some(Float::FolderEdit(state)) && r.new is None && d1
                == d0 && st1 == st0,
            Some(EditMessage::Edit) => r.primary == Some(
                Float::FolderEdit(FolderEditState { mode: InputMode::Editing, ..state }),
            ) && r.new is None && d1 == d0 && st1 == st0,
            Some(EditMessage::Help) => r.primary == Some(Float::FolderEdit(state)) && (
            r.new matches Some(Float::Help(h)) && h.entries@.len() == 5) && d1 == d0
                && st1 == st0,
            Some(EditMessage::Confirm) => folder_confirm_settled(
                d0@,
                d1@,
                state.selected,
                crate::input::input_chars(state.input),
                st0,
                st1,
                r,
            ),
            Some(EditMessage::Quit(sel, ask)) => folder_quit_post(
                d0@,
                state,
                sel,
                ask,
                st0,
                st1,
                r.new,
            ) && r.primary is None && d1 == d0,
            _ => true,
        })
    &&& (state.mode == InputMode::Editing ==> (if folder_editing_feeds(key) {
            (r.primary matches Some(Float::FolderEdit(s1)) && s1.mode == InputMode::Editing
                && s1.selected == state.selected && crate::input::input_chars(s1.input)
                == crate::input::feed_chars(state.input, key.raw)) && r.new is None && d1
                == d0 && st1 == st0
        } else if key.ctrl && (key.code == KeyCode::Char('c') || key.code == KeyCode::Char('C')) {
            folder_quit_post(
                d0@,
                FolderEditState { mode: InputMode::Normal, ..state },
                if d0@.len() == 0 {
                    Option::<usize>::None
                } else {
                    match state.selected {
                        Some(i) => Some(i),
                        None => Some(0usize),
                    }
                },
                true,
                st0,
                st1,
                r.new,
            ) && r.primary is None && d1 == d0
        } else if key.code == KeyCode::Esc {
            r.primary == Some(Float::FolderEdit(FolderEditState { mode: InputMode::Normal, ..state }))
                && r.new is None && d1 == d0 && st1 == st0
        } else {
            folder_confirm_settled(
                d0@,
                d1@,
                state.selected,
                crate::input::input_chars(state.input),
                st0,
                st1,
                r,
            )
        }))
}

/// Drives one key event through the folder edit dialog to a settled state,
/// casing on the dialog's mode and its key table: command keys edit, open
/// help, confirm (per [`folder_confirm_settled`]) or quit (per
/// [`folder_quit_post`]); editing-mode keys feed the buffer or leave
/// editing mode. The dialog comes back as the primary float unless its
/// flow finished, with at most one newly spawned float on top.
pub fn handle_edit_folder_key(app: &mut App, key: KeyPress, state: FolderEditState) -> (r:
    FloatActionResult)
    requires
        old(app).wf(),
        folder_edit_wf(state, old(app).data@),
    ensures
        final(app).wf(),
        final(app).spec_floats() == old(app).spec_floats(),
        final(app).option == old(app).option,
        final(app).data@.len() >= old(app).data@.len(),
        forall|k: int|
            0 <= k < old(app).data@.len() ==> (#[trigger] final(app).data@[k]).links.len()
                >= old(app).data@[k].links.len(),
        r.primary matches Some(f) ==> float_wf(f, final(app).data@) && !is_delete_confirm(f),
        r.new matches Some(f) ==> float_wf(f, final(app).data@) && !is_delete_confirm(f),
        folder_edit_key_post(
            key,
            state,
            old(app).state,
            old(app).data,
            final(app).state,
            final(app).data,
            r,
        ),
{
    let mut state = state;
    let mut new_float: Option<Float> = None;
    let mut opt_msg = edit_folder_key(key);
    if opt_msg.is_some() {
        let ghost mid = app.data@;
        let msg = opt_msg.unwrap();
        let updater = edit_folder_message(app, state, msg);
        proof {
            assert forall|k2: int| 0 <= k2 < old(app).data@.len() implies (#[trigger] app.data@[k2]).links.len()
                >= old(app).data@[k2].links.len() by {
                assert(app.data@[k2].links.len() >= mid[k2].links.len());
                assert(mid[k2].links.len() >= old(app).data@[k2].links.len());
            }
        }
        opt_msg = updater.message;
        new_float = updater.float;
        match updater.state {
            Some(s) => {
                state = s;
            },
            None => {
                return FloatActionResult::new().with_optional_new(new_float);
            },
        }
    }
    if opt_msg.is_some() {
        let ghost mid = app.data@;
        let msg = opt_msg.unwrap();
        let updater = edit_folder_message(app, state, msg);
        proof {
            assert forall|k2: int| 0 <= k2 < old(app).data@.len() implies (#[trigger] app.data@[k2]).links.len()
                >= old(app).data@[k2].links.len() by {
                assert(app.data@[k2].links.len() >= mid[k2].links.len());
                assert(mid[k2].links.len() >= old(app).data@[k2].links.len());
            }
        }
        opt_msg = updater.message;
        new_float = updater.float;
        match updater.state {
            Some(s) => {
                state = s;
            },
            None => {
                return FloatActionResult::new().with_optional_new(new_float);
            },
        }
    }
    if opt_msg.is_some() {
        let ghost mid = app.data@;
        let msg = opt_msg.unwrap();
        let updater = edit_folder_message(app, state, msg);
        proof {
            assert forall|k2: int| 0 <= k2 < old(app).data@.len() implies (#[trigger] app.data@[k2]).links.len()
                >= old(app).data@[k2].links.len() by {
                assert(app.data@[k2].links.len() >= mid[k2].links.len());
                assert(mid[k2].links.len() >= old(app).data@[k2].links.len());
            }
        }
        opt_msg = updater.message;
        new_float = updater.float;
        match updater.state {
            Some(s) => {
                state = s;
            },
            None => {
                return FloatActionResult::new().with_optional_new(new_float);
            },
        }
    }
    if opt_msg.is_some() {
        let ghost mid = app.data@;
        let msg = opt_msg.unwrap();
        let updater = edit_folder_message(app, state, msg);
        proof {
            assert forall|k2: int| 0 <= k2 < old(app).data@.len() implies (#[trigger] app.data@[k2]).links.len()
                >= old(app).data@[k2].links.len() by {
                assert(app.data@[k2].links.len() >= mid[k2].links.len());
                assert(mid[k2].links.len() >= old(app).data@[k2].links.len());
            }
        }
        opt_msg = updater.message;
        new_float = updater.float;
        match updater.state {
            Some(s) => {
                state = s;
            },
            None => {
                return FloatActionResult::new().with_optional_new(new_float);
            },
        }
    }
    if opt_msg.is_some() {
        let ghost mid = app.data@;
        let msg = opt_msg.unwrap();
        let updater = edit_folder_message(app, state, msg);
        proof {
            assert forall|k2: int| 0 <= k2 < old(app).data@.len() implies (#[trigger] app.data@[k2]).links.len()
                >= old(app).data@[k2].links.len() by {
                assert(app.data@[k2].links.len() >= mid[k2].links.len());
                assert(mid[k2].links.len() >= old(app).data@[k2].links.len());
            }
        }
        opt_msg = updater.message;
        new_float = updater.float;
        match updater.state {
            Some(s) => {
                state = s;
            },
            None => {
                return FloatActionResult::new().with_optional_new(new_float);
            },
        }
    }
    proof {
        assert(opt_msg is None);
    }
    FloatActionResult::new().with_primary(Float::FolderEdit(state)).with_optional_new(new_float)
}

/// Command-mode input of the link edit dialog:/// Command-mode input of the link edit dialog: translates the key into the
/// follow-up message of [`spec_link_edit_normal_key`], touching nothing.
pub fn link_handle_input_normal(app: &mut App, state: &LinkEditState, key: KeyPress) -> (r:
    FloatUpdater<EditMessage, LinkEditState>)
    ensures
        *final(app) == *old(app),
        r.state is None,
        r.float is None,
        r.message == spec_link_edit_normal_key(
            key,
            spec_quit_select(state.selected, old(app).data@.len()),
        ),
{
    let select = state.selected();
    let quit_select: Option<usize> = if app.data.is_empty() {
        select
    } else {
        match select {
            Some(i) => Some(i),
            None => Some(0),
        }
    };
    if !key.press {
        return FloatUpdater::new();
    }
    if key.ctrl {
        match key.code {
            KeyCode::Char(c) => if c == 'c' || c == 'C' {
                return FloatUpdater::new().with_message(EditMessage::Quit(quit_select, true));
            },
            _ => {},
        }
    }
    match key.code {
        KeyCode::Esc => FloatUpdater::new().with_message(EditMessage::Quit(quit_select, true)),
        KeyCode::Char(c) => if c == 'q' {
            FloatUpdater::new().with_message(EditMessage::Quit(quit_select, true))
        } else if c == 'a' || c == 'e' {
            FloatUpdater::new().with_message(EditMessage::Edit)
        } else if c == '?' {
            FloatUpdater::new().with_message(EditMessage::Help)
        } else {
            FloatUpdater::new()
        },
        KeyCode::Enter => FloatUpdater::new().with_message(EditMessage::Confirm),
        KeyCode::Tab => FloatUpdater::new().with_message(EditMessage::Switch),
        KeyCode::BackTab => FloatUpdater::new().with_message(EditMessage::Switch),
        KeyCode::Left => FloatUpdater::new().with_message(EditMessage::SwitchLeft),
        KeyCode::Right => FloatUpdater::new().with_message(EditMessage::SwitchRight),
        _ => FloatUpdater::new(),
    }
}

/// Enters editing mode from command mode.
pub fn link_edit_normal(app: &mut App, state: &mut LinkEditState) -> (r: FloatUpdater<
    EditMessage,
    LinkEditState,
>)
    ensures
        final(app).state == old(app).state,
        final(app).data == old(app).data,
        final(app).option == old(app).option,
        final(app).spec_floats() == old(app).spec_floats(),
        *final(state) == (LinkEditState {
            mode: if old(state).mode == InputMode::Normal {
                InputMode::Editing
            } else {
                InputMode::Normal
            },
            ..*old(state)
        }),
        r.message is None,
        r.state is None,
        r.float is None,
{
    state.switch_mode();
    app.cache.cursor.outdate();
    FloatUpdater::new()
}

/// What confirming a link edit does, over the collection's view. The path
/// buffer is first resolved against the working directory, so the outcome
/// depends on that resolution: the clauses name every outcome it allows.
/// Any validation failure — a non-absolute resolution, a duplicate name,
/// an empty name — yields exactly the data model's warning and leaves the
/// collection unchanged; success appends, or renames and relinks in one
/// step, and resolves into a quit carrying the entry's index.
pub open spec fn link_confirm_post(
    d0: Seq<LinkDirView>,
    d1: Seq<LinkDirView>,
    from_idx: usize,
    selected: Option<usize>,
    name: Seq<char>,
    msg: Option<EditMessage>,
    float: Option<Float>,
) -> bool {
    let from = from_idx as int;
    let links0 = d0[from].links;
    match selected {
        None => {
            if !valid_identifier(name) {
                d1 == d0 && msg is None && (float matches Some(Float::Warning(w)) && w.message@
                    == "Link name is empty"@)
            } else {
                |||
                (d1 == d0 && msg is None && (float matches Some(Float::Warning(w)) && w.message@
                    == "path is not absolute"@))
                ||| (dir_contains(links0, name) && d1 == d0 && msg is None && (
                float matches Some(Float::Warning(w)) && w.message@
                    == "Same link name already exists"@))
                ||| (!dir_contains(links0, name) && exists|p: Seq<char>|
                    #[trigger] absolute_path(p) && d1 == d0.update(
                        from,
                        LinkDirView {
                            identifier: d0[from].identifier,
                            links: links0.push(LinkView { identifier: name, path: p }),
                        },
                    ) && float is None && msg == Some(
                        EditMessage::Quit(Some(links0.len() as usize), false),
                    ))
            }
        },
        Some(idx) => {
            let cur = links0[idx as int];
            |||
            (d1 == d0 && msg is None && (float matches Some(Float::Warning(w)) && w.message@
                == "path is not absolute"@))
            ||| (name != cur.identifier && dir_contains(links0, name) && d1 == d0 && msg is None
                && (float matches Some(Float::Warning(w)) && w.message@
                == "Same link name already exists"@))
            ||| (name != cur.identifier && !dir_contains(links0, name) && !valid_identifier(name)
                && d1 == d0 && msg is None && (float matches Some(Float::Warning(w)) && w.message@
                == "Link name is empty"@))
            ||| (name == cur.identifier && d1 == d0 && float is None && msg == Some(
                EditMessage::Quit(Some(idx), false),
            ))
            ||| (name != cur.identifier && !dir_contains(links0, name) && valid_identifier(name)
                && d1 == d0.update(
                from,
                LinkDirView {
                    identifier: d0[from].identifier,
                    links: links0.update(idx as int, LinkView { identifier: name, path: cur.path }),
                },
            ) && float is None && msg == Some(EditMessage::Quit(Some(idx), false)))
            ||| ((name == cur.identifier || (!dir_contains(links0, name) && valid_identifier(
                name,
            ))) && exists|p: Seq<char>|
                #[trigger] absolute_path(p) && d1 == d0.update(
                    from,
                    LinkDirView {
                        identifier: d0[from].identifier,
                        links: links0.update(idx as int, LinkView { identifier: name, path: p }),
                    },
                ) && float is None && msg == Some(EditMessage::Quit(Some(idx), false)))
        },
    }
}

/// Confirms the link edit: appends or renames-and-relinks through the
/// validating data model, resolving the path buffer against the working
/// directory first. Both validations run before anything is mutated, so a
/// validation failure spawns a warning carrying the model's message and
/// mutates nothing at all; success resolves into a quit with the entry's
/// index as the pending selection.
pub fn link_confirm_normal(app: &mut App, state: &LinkEditState) -> (r: FloatUpdater<
    EditMessage,
    LinkEditState,
>)
    requires
        old(app).wf(),
        link_edit_wf(*state, old(app).data@),
    ensures
        final(app).wf(),
        final(app).spec_floats() == old(app).spec_floats(),
        final(app).state == old(app).state,
        final(app).option == old(app).option,
        final(app).cache == old(app).cache,
        final(app).data@.len() == old(app).data@.len(),
        forall|k: int|
            0 <= k < old(app).data@.len() && k != state.from ==> final(app).data@[k] == old(app).data@[k],
        forall|k: int|
            0 <= k < old(app).data@.len() ==> (#[trigger] final(app).data@[k]).links.len()
                >= old(app).data@[k].links.len(),
        r.state is None,
        r.float is Some ==> final(app).data@ == old(app).data@,
        link_confirm_post(
            old(app).data@,
            final(app).data@,
            state.from,
            state.selected,
            crate::input::input_chars(state.input.0),
            r.message,
            r.float,
        ),
{
    let ghost dirs0 = app.data@;
    let from = state.from();
    let (name, raw_value) = state.value();
    let resolved_opt = if raw_value.is_empty() {
        get_vaild_path(".")
    } else {
        get_vaild_path(raw_value)
    };
    let resolved: String = match resolved_opt {
        Some(p) => p,
        None => String::new(),
    };
    let dir = app.data.dir_mut(from);
    let updater = match state.selected() {
        None => {
            match Link::builder(name, resolved.as_str()) {
                Err(err) => FloatUpdater::new().with_float(
                    Float::Warning(WarningState::new(String::from_str(err.message()))),
                ),
                Ok(link) => {
                    match dir.push(link) {
                        Ok(_) => {
                            let select = dir.len() - 1;
                            FloatUpdater::new().with_message(EditMessage::Quit(Some(select), false))
                        },
                        Err(err) => FloatUpdater::new().with_float(
                            Float::Warning(WarningState::new(String::from_str(err.message()))),
                        ),
                    }
                },
            }
        },
        Some(idx) => {
            let path_changed = !str_eq(resolved.as_str(), dir.get(idx).path());
            if path_changed && !crate::data::link::check_absolute_path(resolved.as_str()) {
                let err = crate::data::err::Error::new(
                    crate::data::err::ErrorKind::InvaildPath,
                    "path is not absolute",
                );
                FloatUpdater::new().with_float(
                    Float::Warning(WarningState::new(String::from_str(err.message()))),
                )
            } else {
                let rename_result: Option<crate::data::err::Error> = if !str_eq(
                    name,
                    dir.get(idx).identifier(),
                ) {
                    match dir.rename(idx, name) {
                        Ok(_) => None,
                        Err(err) => Some(err),
                    }
                } else {
                    None
                };
                match rename_result {
                    Some(err) => FloatUpdater::new().with_float(
                        Float::Warning(WarningState::new(String::from_str(err.message()))),
                    ),
                    None => {
                        if path_changed {
                            match dir.relink(idx, resolved.as_str()) {
                                Ok(_) => FloatUpdater::new().with_message(
                                    EditMessage::Quit(Some(idx), false),
                                ),
                                Err(err) => FloatUpdater::new().with_float(
                                    Float::Warning(
                                        WarningState::new(String::from_str(err.message())),
                                    ),
                                ),
                            }
                        } else {
                            FloatUpdater::new().with_message(EditMessage::Quit(Some(idx), false))
                        }
                    },
                }
            }
        },
    };
    proof {
        let gfrom = state.from as int;
        assert(app.data@ =~= dirs0.update(gfrom, app.data@[gfrom]));
        assert(dirs0.update(gfrom, dirs0[gfrom]) =~= dirs0);
        assert(app.data@[gfrom] =~~= (LinkDirView {
            identifier: app.data@[gfrom].identifier,
            links: app.data@[gfrom].links,
        }));
        if state.selected is Some {
            let gidx = state.selected->0 as int;
            let links0 = dirs0[gfrom].links;
            assert(app.data@[gfrom].links =~= links0.update(
                gidx,
                app.data@[gfrom].links[gidx],
            ));
            assert(links0.update(gidx, links0[gidx]) =~= links0);
            assert(links0[gidx] =~~= (LinkView {
                identifier: links0[gidx].identifier,
                path: links0[gidx].path,
            }));
        }
    }
    proof {
        assert(app.data.wf()) by {
            assert forall|i: int| 0 <= i < app.data@.len() implies crate::data::dir::dir_view_wf(
                #[trigger] app.data@[i],
            ) by {
                if i != state.from as int {
                    assert(app.data@[i] == dirs0[i]);
                }
            }
            assert forall|i: int, j: int|
                #![trigger app.data@[i], app.data@[j]]
                0 <= i < j < app.data@.len() implies app.data@[i].identifier
                != app.data@[j].identifier by {
                assert(dirs0[i].identifier != dirs0[j].identifier);
                assert(app.data@[i].identifier == dirs0[i].identifier);
                assert(app.data@[j].identifier == dirs0[j].identifier);
            }
        }
        assert forall|k: int| 0 <= k < dirs0.len() implies (#[trigger] app.data@[k]).links.len()
            >= dirs0[k].links.len() by {
            if k != state.from as int {
                assert(app.data@[k] == dirs0[k]);
            }
        }
        assert forall|i: int| 0 <= i < app.spec_floats().len() implies float_wf(
            #[trigger] app.spec_floats()[i],
            app.data@,
        ) by {
            assert(app.spec_floats()[i] == old(app).spec_floats()[i]);
            assert(float_wf(old(app).spec_floats()[i], dirs0));
            crate::float::lemma_float_wf_monotonic(app.spec_floats()[i], dirs0, app.data@);
        }
        assert forall|i: int|
            0 <= i < app.spec_floats().len() && is_delete_confirm(
                #[trigger] app.spec_floats()[i],
            ) implies app.spec_floats().len() == 1 by {
            assert(app.spec_floats()[i] == old(app).spec_floats()[i]);
            assert(is_delete_confirm(old(app).spec_floats()[i]));
        }
    }
    updater
}

/// Flips which buffer is active.
pub fn link_switch_normal(state: &mut LinkEditState) -> (r: FloatUpdater<EditMessage, LinkEditState>)
    ensures
        *final(state) == (LinkEditState {
            part: if old(state).part == InputPart::Key {
                InputPart::Value
            } else {
                InputPart::Key
            },
            ..*old(state)
        }),
        r.message is None,
        r.state is None,
        r.float is None,
{
    state.switch_part();
    FloatUpdater::new()
}

/// Activates the name buffer.
pub fn link_switch_left_normal(state: &mut LinkEditState) -> (r: FloatUpdater<
    EditMessage,
    LinkEditState,
>)
    ensures
        *final(state) == (LinkEditState { part: InputPart::Key, ..*old(state) }),
        r.message is None,
        r.state is None,
        r.float is None,
{
    state.set_part(InputPart::Key);
    FloatUpdater::new()
}

/// Activates the path buffer.
pub fn link_switch_right_normal(state: &mut LinkEditState) -> (r: FloatUpdater<
    EditMessage,
    LinkEditState,
>)
    ensures
        *final(state) == (LinkEditState { part: InputPart::Value, ..*old(state) }),
        r.message is None,
        r.state is None,
        r.float is None,
{
    state.set_part(InputPart::Value);
    FloatUpdater::new()
}

/// Enter on the name buffer moves on to the path buffer; enter on the path
/// buffer confirms.
pub fn link_switch_or_confirm_normal(state: &mut LinkEditState) -> (r: FloatUpdater<
    EditMessage,
    LinkEditState,
>)
    ensures
        old(state).part == InputPart::Key ==> *final(state) == (LinkEditState {
            part: InputPart::Value,
            ..*old(state)
        }) && r.message is None,
        old(state).part == InputPart::Value ==> *final(state) == *old(state) && r.message == Some(
            EditMessage::Confirm,
        ),
        r.state is None,
        r.float is None,
{
    match *state.part() {
        InputPart::Key => {
            state.set_part(InputPart::Value);
            FloatUpdater::new()
        },
        InputPart::Value => FloatUpdater::new().with_message(EditMessage::Confirm),
    }
}

/// What quitting the link edit dialog from command mode does: unsaved
/// changes (any fresh text, or a name or raw path that differs from the
/// entry's) raise a save confirmation owning the whole dialog; otherwise
/// the dialog closes and the base link view returns at the pending
/// selection.
pub open spec fn link_quit_post(
    d: Seq<LinkDirView>,
    state: LinkEditState,
    select: Option<usize>,
    ask_save: bool,
    st0: AppState,
    st1: AppState,
    float: Option<Float>,
) -> bool {
    let links0 = d[state.from as int].links;
    let modified = match state.selected {
        None => crate::input::input_chars(state.input.0).len() > 0 || crate::input::input_chars(
            state.input.1,
        ).len() > 0,
        Some(idx) => crate::input::input_chars(state.input.0) != links0[idx as int].identifier
            || crate::input::input_chars(state.input.1) != links0[idx as int].path,
    };
    if ask_save && modified {
        st1 == st0 && float == Some(
            Float::LinkSaveConfirm(
                LinkSaveConfirmState { choice: ConfirmChoice::No, last_state: state, select },
            ),
        )
    } else {
        st1 == AppState::Normal(
            NormalState::Link(
                LinkNormalState {
                    folder_state: FolderNormalState { selected: Some(state.from) },
                    selected: select,
                },
            ),
        ) && float is None
    }
}

/// Quit from the link edit dialog's command mode, per [`link_quit_post`].
pub fn link_quit_normal(
    app: &mut App,
    state: LinkEditState,
    select: Option<usize>,
    ask_save: bool,
) -> (r: FloatUpdater<EditMessage, LinkEditState>)
    requires
        old(app).wf(),
        link_edit_wf(state, old(app).data@),
    ensures
        final(app).wf(),
        final(app).spec_floats() == old(app).spec_floats(),
        final(app).data == old(app).data,
        final(app).option == old(app).option,
        final(app).cache == old(app).cache,
        r.message is None,
        r.state is None,
        link_quit_post(
            old(app).data@,
            state,
            select,
            ask_save,
            old(app).state,
            final(app).state,
            r.float,
        ),
{
    let from = state.from();
    let confirm: bool = if ask_save {
        match state.selected() {
            None => !state.value().0.is_empty() || !state.value().1.is_empty(),
            Some(idx) => {
                let link = app.data.get(from).get(idx);
                !str_eq(state.value().0, link.identifier()) || !str_eq(
                    state.value().1,
                    link.path(),
                )
            },
        }
    } else {
        false
    };
    if confirm {
        return FloatUpdater::new().with_float(
            Float::LinkSaveConfirm(LinkSaveConfirmState::new(state, select)),
        );
    }
    app.set_state(
        AppState::Normal(NormalState::Link(LinkNormalState::with_selected(from, select))),
    );
    FloatUpdater::new()
}

/// The link edit dialog's help table.
pub fn link_help_normal(app: &mut App, state: &mut LinkEditState) -> (r: FloatUpdater<
    EditMessage,
    LinkEditState,
>)
    ensures
        final(app).state == old(app).state,
        final(app).data == old(app).data,
        final(app).option == old(app).option,
        final(app).spec_floats() == old(app).spec_floats(),
        *final(state) == *old(state),
        r.message is None,
        r.state is None,
        r.float matches Some(Float::Help(h)) && h.entries@.len() == 8,
{
    app.cache.cursor.outdate();
    let mut help = HelpState::new();
    help.add_entry(HelpEntry::new("<Esc>/<q>", "Close the edit window in normal mode"));
    help.add_entry(HelpEntry::new("<Enter>", "Confirm the edit result in normal mode"));
    help.add_entry(HelpEntry::new("<a>/<e>", "Enter editing mode in normal mode"));
    help.add_entry(HelpEntry::new("<Tab>/<BackTab>", "Switch between key and value input"));
    help.add_entry(HelpEntry::new("<Left>/<Right>", "Switch to key/value input directly"));
    help.add_entry(HelpEntry::new("<Esc>", "Back to normal mode from editing mode"));
    help.add_entry(
        HelpEntry::new("<Enter>", "Switch to value input or confirm edit result in editing mode"),
    );
    help.add_entry(HelpEntry::new("<?>", "Open this window in normal mode"));
    FloatUpdater::new().with_float(Float::Help(help))
}

/// Editing-mode input of the link edit dialog: escape returns to command
/// mode, tab switches buffers, enter switches or confirms, and every other
/// key goes into the active buffer.
pub fn link_handle_input_editing(app: &mut App, state: &mut LinkEditState, key: KeyPress) -> (r:
    FloatUpdater<EditMessage, LinkEditState>)
    ensures
        final(app).state == old(app).state,
        final(app).data == old(app).data,
        final(app).option == old(app).option,
        final(app).spec_floats() == old(app).spec_floats(),
        final(state).selected == old(state).selected,
        final(state).from == old(state).from,
        final(state).mode == old(state).mode,
        final(state).part == old(state).part,
        r.state is None,
        r.float is None,
        link_editing_feeds(key) ==> r.message is None && (old(state).part == InputPart::Key
            ==> crate::input::input_chars(final(state).input.0) == crate::input::feed_chars(
            old(state).input.0,
            key.raw,
        ) && final(state).input.1 == old(state).input.1) && (old(state).part == InputPart::Value
            ==> crate::input::input_chars(final(state).input.1) == crate::input::feed_chars(
            old(state).input.1,
            key.raw,
        ) && final(state).input.0 == old(state).input.0),
        !link_editing_feeds(key) ==> *final(state) == *old(state) && r.message == (
        if key.ctrl && (key.code == KeyCode::Char('c') || key.code == KeyCode::Char('C')) {
            Some(EditMessage::Quit(old(state).selected, true))
        } else if key.code == KeyCode::Esc {
            Some(EditMessage::Back)
        } else if key.code == KeyCode::Tab {
            Some(EditMessage::Switch)
        } else {
            Some(EditMessage::SwitchOrConfirm)
        }),
{
    if key.press {
        if key.ctrl {
            match key.code {
                KeyCode::Char(c) => if c == 'c' || c == 'C' {
                    return FloatUpdater::new().with_message(
                        EditMessage::Quit(state.selected(), true),
                    );
                },
                _ => {},
            }
        }
        match key.code {
            KeyCode::Esc => FloatUpdater::new().with_message(EditMessage::Back),
            KeyCode::Tab => FloatUpdater::new().with_message(EditMessage::Switch),
            KeyCode::Enter => FloatUpdater::new().with_message(EditMessage::SwitchOrConfirm),
            _ => {
                match *state.part() {
                    InputPart::Key => input_handle_key(
                        &mut state.input.0,
                        &key,
                        &mut app.cache.cursor,
                    ),
                    InputPart::Value => input_handle_key(
                        &mut state.input.1,
                        &key,
                        &mut app.cache.cursor,
                    ),
                }
                FloatUpdater::new()
            },
        }
    } else {
        match *state.part() {
            InputPart::Key => input_handle_key(&mut state.input.0, &key, &mut app.cache.cursor),
            InputPart::Value => input_handle_key(&mut state.input.1, &key, &mut app.cache.cursor),
        }
        FloatUpdater::new()
    }
}

/// Confirm from editing mode: back to command mode, then confirm.
pub fn link_confirm_editing(app: &mut App, state: &mut LinkEditState) -> (r: FloatUpdater<
    EditMessage,
    LinkEditState,
>)
    ensures
        final(app).state == old(app).state,
        final(app).data == old(app).data,
        final(app).option == old(app).option,
        final(app).spec_floats() == old(app).spec_floats(),
        *final(state) == (LinkEditState {
            mode: if old(state).mode == InputMode::Normal {
                InputMode::Editing
            } else {
                InputMode::Normal
            },
            ..*old(state)
        }),
        r.message == Some(EditMessage::Confirm),
        r.state is None,
        r.float is None,
{
    state.switch_mode();
    app.cache.cursor.outdate();
    FloatUpdater::new().with_message(EditMessage::Confirm)
}

/// Tab in editing mode: flips the active buffer.
pub fn link_switch_editing(app: &mut App, state: &mut LinkEditState) -> (r: FloatUpdater<
    EditMessage,
    LinkEditState,
>)
    ensures
        final(app).state == old(app).state,
        final(app).data == old(app).data,
        final(app).option == old(app).option,
        final(app).spec_floats() == old(app).spec_floats(),
        *final(state) == (LinkEditState {
            part: if old(state).part == InputPart::Key {
                InputPart::Value
            } else {
                InputPart::Key
            },
            ..*old(state)
        }),
        r.message is None,
        r.state is None,
        r.float is None,
{
    app.cache.cursor.outdate();
    link_switch_normal(state)
}

/// Activates the name buffer from editing mode.
pub fn link_switch_left_editing(app: &mut App, state: &mut LinkEditState) -> (r: FloatUpdater<
    EditMessage,
    LinkEditState,
>)
    ensures
        final(app).state == old(app).state,
        final(app).data == old(app).data,
        final(app).option == old(app).option,
        final(app).spec_floats() == old(app).spec_floats(),
        *final(state) == (LinkEditState { part: InputPart::Key, ..*old(state) }),
        r.message is None,
        r.state is None,
        r.float is None,
{
    app.cache.cursor.outdate();
    link_switch_left_normal(state)
}

/// Activates the path buffer from editing mode.
pub fn link_switch_right_editing(app: &mut App, state: &mut LinkEditState) -> (r: FloatUpdater<
    EditMessage,
    LinkEditState,
>)
    ensures
        final(app).state == old(app).state,
        final(app).data == old(app).data,
        final(app).option == old(app).option,
        final(app).spec_floats() == old(app).spec_floats(),
        *final(state) == (LinkEditState { part: InputPart::Value, ..*old(state) }),
        r.message is None,
        r.state is None,
        r.float is None,
{
    app.cache.cursor.outdate();
    link_switch_right_normal(state)
}

/// Enter in editing mode: moves from the name buffer to the path buffer,
/// or confirms from the path buffer.
pub fn link_switch_or_confirm_editing(app: &mut App, state: &mut LinkEditState) -> (r: FloatUpdater<
    EditMessage,
    LinkEditState,
>)
    ensures
        final(app).state == old(app).state,
        final(app).data == old(app).data,
        final(app).option == old(app).option,
        final(app).spec_floats() == old(app).spec_floats(),
        old(state).part == InputPart::Key ==> *final(state) == (LinkEditState {
            part: InputPart::Value,
            ..*old(state)
        }) && r.message is None,
        old(state).part == InputPart::Value ==> *final(state) == *old(state) && r.message == Some(
            EditMessage::Confirm,
        ),
        r.state is None,
        r.float is None,
{
    app.cache.cursor.outdate();
    match *state.part() {
        InputPart::Key => {
            state.set_part(InputPart::Value);
            FloatUpdater::new()
        },
        InputPart::Value => FloatUpdater::new().with_message(EditMessage::Confirm),
    }
}

/// Quit from editing mode: leaves editing mode and re-raises the quit
/// unchanged.
pub fn link_quit_editing(state: &mut LinkEditState, select: Option<usize>, ask_save: bool) -> (r:
    FloatUpdater<EditMessage, LinkEditState>)
    ensures
        *final(state) == (LinkEditState {
            mode: if old(state).mode == InputMode::Normal {
                InputMode::Editing
            } else {
                InputMode::Normal
            },
            ..*old(state)
        }),
        r.message == Some(EditMessage::Quit(select, ask_save)),
        r.state is None,
        r.float is None,
{
    state.switch_mode();
    FloatUpdater::new().with_message(EditMessage::Quit(select, ask_save))
}

/// Escape in editing mode: back to command mode.
pub fn link_back_editing(app: &mut App, state: &mut LinkEditState) -> (r: FloatUpdater<
    EditMessage,
    LinkEditState,
>)
    ensures
        final(app).state == old(app).state,
        final(app).data == old(app).data,
        final(app).option == old(app).option,
        final(app).spec_floats() == old(app).spec_floats(),
        *final(state) == (LinkEditState {
            mode: if old(state).mode == InputMode::Normal {
                InputMode::Editing
            } else {
                InputMode::Normal
            },
            ..*old(state)
        }),
        r.message is None,
        r.state is None,
        r.float is None,
{
    app.cache.cursor.outdate();
    state.switch_mode();
    FloatUpdater::new()
}

/// One handler invocation of the link edit dialog, dispatched on its mode;
/// the counterpart of [`edit_folder_message`].
pub fn edit_link_message(app: &mut App, state: LinkEditState, msg: EditMessage) -> (r: FloatUpdater<
    EditMessage,
    LinkEditState,
>)
    requires
        old(app).wf(),
        link_edit_wf(state, old(app).data@),
    ensures
        final(app).wf(),
        final(app).spec_floats() == old(app).spec_floats(),
        final(app).data@.len() >= old(app).data@.len(),
        forall|k: int|
            0 <= k < old(app).data@.len() ==> (#[trigger] final(app).data@[k]).links.len()
                >= old(app).data@[k].links.len(),
        r.state matches Some(s2) ==> link_edit_wf(s2, final(app).data@),
        r.message matches Some(m2) ==> (r.state matches Some(s2) && edit_msg_rank(s2.mode, m2)
            < edit_msg_rank(state.mode, msg)),
        r.float matches Some(f) ==> float_wf(f, final(app).data@) && !is_delete_confirm(f),
        final(app).option == old(app).option,
        !(state.mode == InputMode::Normal && msg is Confirm) ==> final(app).data == old(app).data,
        !(state.mode == InputMode::Normal && msg is Quit) ==> final(app).state == old(app).state,
        state.mode == InputMode::Normal ==> match msg {
            EditMessage::HandleInput(key) => r.float is None && r.state == Some(state)
                && r.message == spec_link_edit_normal_key(
                key,
                spec_quit_select(state.selected, old(app).data@.len()),
            ),
            EditMessage::Edit => r.message is None && r.float is None && r.state == Some(
                LinkEditState { mode: InputMode::Editing, ..state },
            ),
            EditMessage::Confirm => link_confirm_post(
                old(app).data@,
                final(app).data@,
                state.from,
                state.selected,
                crate::input::input_chars(state.input.0),
                r.message,
                r.float,
            ) && (r.float is Some ==> r.state is None) && (r.float is None ==> r.state == Some(
                state,
            )),
            EditMessage::Switch => r.message is None && r.float is None && r.state == Some(
                LinkEditState {
                    part: if state.part == InputPart::Key {
                        InputPart::Value
                    } else {
                        InputPart::Key
                    },
                    ..state
                },
            ),
            EditMessage::SwitchLeft => r.message is None && r.float is None && r.state == Some(
                LinkEditState { part: InputPart::Key, ..state },
            ),
            EditMessage::SwitchRight => r.message is None && r.float is None && r.state == Some(
                LinkEditState { part: InputPart::Value, ..state },
            ),
            EditMessage::SwitchOrConfirm => r.float is None && (if state.part == InputPart::Key {
                r.message is None && r.state == Some(
                    LinkEditState { part: InputPart::Value, ..state },
                )
            } else {
                r.message == Some(EditMessage::Confirm) && r.state == Some(state)
            }),
            EditMessage::Quit(select, ask_save) => link_quit_post(
                old(app).data@,
                state,
                select,
                ask_save,
                old(app).state,
                final(app).state,
                r.float,
            ) && r.message is None && r.state is None,
            EditMessage::Back => r.message is None && r.float is None && r.state == Some(state),
            EditMessage::Help => r.message is None && r.state == Some(state) && (
            r.float matches Some(Float::Help(h)) && h.entries@.len() == 8),
        },
        state.mode == InputMode::Editing ==> match msg {
            EditMessage::HandleInput(key) => r.float is None && (link_editing_feeds(key)
                ==> r.message is None && (r.state matches Some(s1) && s1.selected == state.selected
                && s1.from == state.from && s1.mode == state.mode && s1.part == state.part && (
            state.part == InputPart::Key ==> crate::input::input_chars(s1.input.0)
                == crate::input::feed_chars(state.input.0, key.raw) && s1.input.1 == state.input.1)
                && (state.part == InputPart::Value ==> crate::input::input_chars(s1.input.1)
                == crate::input::feed_chars(state.input.1, key.raw) && s1.input.0
                == state.input.0))) && (!link_editing_feeds(key) ==> r.state == Some(state)
                && r.message == (
            if key.ctrl && (key.code == KeyCode::Char('c') || key.code == KeyCode::Char('C')) {
                Some(EditMessage::Quit(state.selected, true))
            } else if key.code == KeyCode::Esc {
                Some(EditMessage::Back)
            } else if key.code == KeyCode::Tab {
                Some(EditMessage::Switch)
            } else {
                Some(EditMessage::SwitchOrConfirm)
            })),
            EditMessage::Confirm => r.message == Some(EditMessage::Confirm) && r.float is None
                && r.state == Some(LinkEditState { mode: InputMode::Normal, ..state }),
            EditMessage::Switch => r.message is None && r.float is None && r.state == Some(
                LinkEditState {
                    part: if state.part == InputPart::Key {
                        InputPart::Value
                    } else {
                        InputPart::Key
                    },
                    ..state
                },
            ),
            EditMessage::SwitchLeft => r.message is None && r.float is None && r.state == Some(
                LinkEditState { part: InputPart::Key, ..state },
            ),
            EditMessage::SwitchRight => r.message is None && r.float is None && r.state == Some(
                LinkEditState { part: InputPart::Value, ..state },
            ),
            EditMessage::SwitchOrConfirm => r.float is None && (if state.part == InputPart::Key {
                r.message is None && r.state == Some(
                    LinkEditState { part: InputPart::Value, ..state },
                )
            } else {
                r.message == Some(EditMessage::Confirm) && r.state == Some(state)
            }),
            EditMessage::Quit(select, ask_save) => r.float is None && r.state == Some(
                LinkEditState { mode: InputMode::Normal, ..state },
            ) && r.message == Some(EditMessage::Quit(select, ask_save)),
            EditMessage::Back => r.message is None && r.float is None && r.state == Some(
                LinkEditState { mode: InputMode::Normal, ..state },
            ),
            _ => r.message is None && r.state == Some(state) && r.float is None,
        },
{
    let mut state = state;
    match *state.mode() {
        InputMode::Normal => match msg {
            EditMessage::HandleInput(key) => {
                let updater = link_handle_input_normal(app, &state, key);
                updater.with_state(state)
            },
            EditMessage::Edit => {
                let updater = link_edit_normal(app, &mut state);
                updater.with_state(state)
            },
            EditMessage::Confirm => {
                let updater = link_confirm_normal(app, &state);
                if updater.float.is_some() {
                    updater
                } else {
                    updater.with_state(state)
                }
            },
            EditMessage::Switch => {
                let updater = link_switch_normal(&mut state);
                updater.with_state(state)
            },
            EditMessage::SwitchLeft => {
                let updater = link_switch_left_normal(&mut state);
                updater.with_state(state)
            },
            EditMessage::SwitchRight => {
                let updater = link_switch_right_normal(&mut state);
                updater.with_state(state)
            },
            EditMessage::SwitchOrConfirm => {
                let updater = link_switch_or_confirm_normal(&mut state);
                updater.with_state(state)
            },
            EditMessage::Quit(select, ask_save) => link_quit_normal(app, state, select, ask_save),
            EditMessage::Back => FloatUpdater::new().with_state(state),
            EditMessage::Help => {
                let updater = link_help_normal(app, &mut state);
                updater.with_state(state)
            },
        },
        InputMode::Editing => match msg {
            EditMessage::HandleInput(key) => {
                let updater = link_handle_input_editing(app, &mut state, key);
                updater.with_state(state)
            },
            EditMessage::Edit => FloatUpdater::new().with_state(state),
            EditMessage::Confirm => {
                let updater = link_confirm_editing(app, &mut state);
                updater.with_state(state)
            },
            EditMessage::Switch => {
                let updater = link_switch_editing(app, &mut state);
                updater.with_state(state)
            },
            EditMessage::SwitchLeft => {
                let updater = link_switch_left_editing(app, &mut state);
                updater.with_state(state)
            },
            EditMessage::SwitchRight => {
                let updater = link_switch_right_editing(app, &mut state);
                updater.with_state(state)
            },
            EditMessage::SwitchOrConfirm => {
                let updater = link_switch_or_confirm_editing(app, &mut state);
                updater.with_state(state)
            },
            EditMessage::Quit(select, ask_save) => {
                let updater = link_quit_editing(&mut state, select, ask_save);
                updater.with_state(state)
            },
            EditMessage::Back => {
                let updater = link_back_editing(app, &mut state);
                updater.with_state(state)
            },
            EditMessage::Help => FloatUpdater::new().with_state(state),
        },
    }
}

/// How a confirm settles the link edit dialog, composing one confirm step
/// with the quit it chains into: a validation warning discards the dialog
/// and becomes the newly spawned float with the base state untouched,
/// while success applies the edit and restores the base link view, in the
/// dialog's folder, at the entry's index.
pub open spec fn link_confirm_settled(
    d0: Seq<LinkDirView>,
    d1: Seq<LinkDirView>,
    from_idx: usize,
    selected: Option<usize>,
    name: Seq<char>,
    st0: AppState,
    st1: AppState,
    r: FloatActionResult,
) -> bool {
    exists|m2: Option<EditMessage>, fl: Option<Float>|
        {
            &&& #[trigger] link_confirm_post(d0, d1, from_idx, selected, name, m2, fl)
            &&& match fl {
                Some(f) => st1 == st0 && r.primary is None && r.new == Some(f),
                None => r.primary is None && r.new is None && (m2 matches Some(
                    EditMessage::Quit(sel, ask),
                ) && !ask && st1 == AppState::Normal(
                    NormalState::Link(
                        LinkNormalState {
                            folder_state: FolderNormalState { selected: Some(from_idx) },
                            selected: sel,
                        },
                    ),
                )),
            }
        }
}

/// The whole effect of one key event on the link edit dialog, as
/// [`handle_edit_link_key`] guarantees it.
pub open spec fn link_edit_key_post(
    key: KeyPress,
    state: LinkEditState,
    st0: AppState,
    d0: LinkDirSet,
    st1: AppState,
    d1: LinkDirSet,
    r: FloatActionResult,
) -> bool {
        &&& (state.mode == InputMode::Normal ==> match spec_link_edit_normal_key(
            key,
            spec_quit_select(state.selected, d0@.len()),
        ) {
            None => r.primary == Some(Float::LinkEdit(state)) && r.new is None && d1
                == d0 && st1 == st0,
            Some(EditMessage::Edit) => r.primary == Some(
                Float::LinkEdit(LinkEditState { mode: InputMode::Editing, ..state }),
            ) && r.new is None && d1 == d0 && st1 == st0,
            Some(EditMessage::Help) => r.primary == Some(Float::LinkEdit(state)) && (
            r.new matches Some(Float::Help(h)) && h.entries@.len() == 8) && d1 == d0
                && st1 == st0,
            Some(EditMessage::Switch) => r.primary == Some(
                Float::LinkEdit(
                    LinkEditState {
                        part: if state.part == InputPart::Key {
                            InputPart::Value
                        } else {
                            InputPart::Key
                        },
                        ..state
                    },
                ),
            ) && r.new is None && d1 == d0 && st1 == st0,
            Some(EditMessage::SwitchLeft) => r.primary == Some(
                Float::LinkEdit(LinkEditState { part: InputPart::Key, ..state }),
            ) && r.new is None && d1 == d0 && st1 == st0,
            Some(EditMessage::SwitchRight) => r.primary == Some(
                Float::LinkEdit(LinkEditState { part: InputPart::Value, ..state }),
            ) && r.new is None && d1 == d0 && st1 == st0,
            Some(EditMessage::Confirm) => link_confirm_settled(
                d0@,
                d1@,
                state.from,
                state.selected,
                crate::input::input_chars(state.input.0),
                st0,
                st1,
                r,
            ),
            Some(EditMessage::Quit(sel, ask)) => link_quit_post(
                d0@,
                state,
                sel,
                ask,
                st0,
                st1,
                r.new,
            ) && r.primary is None && d1 == d0,
            _ => true,
        })
    &&& (state.mode == InputMode::Editing ==> (if link_editing_feeds(key) {
            (r.primary matches Some(Float::LinkEdit(s1)) && s1.mode == InputMode::Editing
                && s1.selected == state.selected && s1.from == state.from && s1.part == state.part
                && (state.part == InputPart::Key ==> crate::input::input_chars(s1.input.0)
                == crate::input::feed_chars(state.input.0, key.raw) && s1.input.1 == state.input.1)
                && (state.part == InputPart::Value ==> crate::input::input_chars(s1.input.1)
                == crate::input::feed_chars(state.input.1, key.raw) && s1.input.0
                == state.input.0)) && r.new is None && d1 == d0 && st1
                == st0
        } else if key.ctrl && (key.code == KeyCode::Char('c') || key.code == KeyCode::Char('C')) {
            link_quit_post(
                d0@,
                LinkEditState { mode: InputMode::Normal, ..state },
                state.selected,
                true,
                st0,
                st1,
                r.new,
            ) && r.primary is None && d1 == d0
        } else if key.code == KeyCode::Esc {
            r.primary == Some(Float::LinkEdit(LinkEditState { mode: InputMode::Normal, ..state }))
                && r.new is None && d1 == d0 && st1 == st0
        } else if key.code == KeyCode::Tab {
            r.primary == Some(
                Float::LinkEdit(
                    LinkEditState {
                        part: if state.part == InputPart::Key {
                            InputPart::Value
                        } else {
                            InputPart::Key
                        },
                        ..state
                    },
                ),
            ) && r.new is None && d1 == d0 && st1 == st0
        } else if state.part == InputPart::Key {
            r.primary == Some(Float::LinkEdit(LinkEditState { part: InputPart::Value, ..state }))
                && r.new is None && d1 == d0 && st1 == st0
        } else {
            link_confirm_settled(
                d0@,
                d1@,
                state.from,
                state.selected,
                crate::input::input_chars(state.input.0),
                st0,
                st1,
                r,
            )
        }))
}

/// Drives one key event through the link edit dialog to a settled state,
/// casing on the dialog's mode and its key table: command keys edit, open
/// help, switch buffers, confirm (per [`link_confirm_settled`]) or quit
/// (per [`link_quit_post`]); editing-mode keys feed the active buffer,
/// switch buffers, or leave editing mode. The dialog comes back as the
/// primary float unless its flow finished, with at most one newly spawned
/// float on top.
pub fn handle_edit_link_key(app: &mut App, key: KeyPress, state: LinkEditState) -> (r:
    FloatActionResult)
    requires
        old(app).wf(),
        link_edit_wf(state, old(app).data@),
    ensures
        final(app).wf(),
        final(app).spec_floats() == old(app).spec_floats(),
        final(app).option == old(app).option,
        final(app).data@.len() >= old(app).data@.len(),
        forall|k: int|
            0 <= k < old(app).data@.len() ==> (#[trigger] final(app).data@[k]).links.len()
                >= old(app).data@[k].links.len(),
        r.primary matches Some(f) ==> float_wf(f, final(app).data@) && !is_delete_confirm(f),
        r.new matches Some(f) ==> float_wf(f, final(app).data@) && !is_delete_confirm(f),
        link_edit_key_post(
            key,
            state,
            old(app).state,
            old(app).data,
            final(app).state,
            final(app).data,
            r,
        ),
{
    let mut state = state;
    let mut new_float: Option<Float> = None;
    let mut opt_msg = edit_link_key(key);
    if opt_msg.is_some() {
        let ghost mid = app.data@;
        let msg = opt_msg.unwrap();
        let updater = edit_link_message(app, state, msg);
        proof {
            assert forall|k2: int| 0 <= k2 < old(app).data@.len() implies (#[trigger] app.data@[k2]).links.len()
                >= old(app).data@[k2].links.len() by {
                assert(app.data@[k2].links.len() >= mid[k2].links.len());
                assert(mid[k2].links.len() >= old(app).data@[k2].links.len());
            }
        }
        opt_msg = updater.message;
        new_float = updater.float;
        match updater.state {
            Some(s) => {
                state = s;
            },
            None => {
                return FloatActionResult::new().with_optional_new(new_float);
            },
        }
    }
    if opt_msg.is_some() {
        let ghost mid = app.data@;
        let msg = opt_msg.unwrap();
        let updater = edit_link_message(app, state, msg);
        proof {
            assert forall|k2: int| 0 <= k2 < old(app).data@.len() implies (#[trigger] app.data@[k2]).links.len()
                >= old(app).data@[k2].links.len() by {
                assert(app.data@[k2].links.len() >= mid[k2].links.len());
                assert(mid[k2].links.len() >= old(app).data@[k2].links.len());
            }
        }
        opt_msg = updater.message;
        new_float = updater.float;
        match updater.state {
            Some(s) => {
                state = s;
            },
            None => {
                return FloatActionResult::new().with_optional_new(new_float);
            },
        }
    }
    if opt_msg.is_some() {
        let ghost mid = app.data@;
        let msg = opt_msg.unwrap();
        let updater = edit_link_message(app, state, msg);
        proof {
            assert forall|k2: int| 0 <= k2 < old(app).data@.len() implies (#[trigger] app.data@[k2]).links.len()
                >= old(app).data@[k2].links.len() by {
                assert(app.data@[k2].links.len() >= mid[k2].links.len());
                assert(mid[k2].links.len() >= old(app).data@[k2].links.len());
            }
        }
        opt_msg = updater.message;
        new_float = updater.float;
        match updater.state {
            Some(s) => {
                state = s;
            },
            None => {
                return FloatActionResult::new().with_optional_new(new_float);
            },
        }
    }
    if opt_msg.is_some() {
        let ghost mid = app.data@;
        let msg = opt_msg.unwrap();
        let updater = edit_link_message(app, state, msg);
        proof {
            assert forall|k2: int| 0 <= k2 < old(app).data@.len() implies (#[trigger] app.data@[k2]).links.len()
                >= old(app).data@[k2].links.len() by {
                assert(app.data@[k2].links.len() >= mid[k2].links.len());
                assert(mid[k2].links.len() >= old(app).data@[k2].links.len());
            }
        }
        opt_msg = updater.message;
        new_float = updater.float;
        match updater.state {
            Some(s) => {
                state = s;
            },
            None => {
                return FloatActionResult::new().with_optional_new(new_float);
            },
        }
    }
    if opt_msg.is_some() {
        let ghost mid = app.data@;
        let msg = opt_msg.unwrap();
        let updater = edit_link_message(app, state, msg);
        proof {
            assert forall|k2: int| 0 <= k2 < old(app).data@.len() implies (#[trigger] app.data@[k2]).links.len()
                >= old(app).data@[k2].links.len() by {
                assert(app.data@[k2].links.len() >= mid[k2].links.len());
                assert(mid[k2].links.len() >= old(app).data@[k2].links.len());
            }
        }
        opt_msg = updater.message;
        new_float = updater.float;
        match updater.state {
            Some(s) => {
                state = s;
            },
            None => {
                return FloatActionResult::new().with_optional_new(new_float);
            },
        }
    }
    proof {
        assert(opt_msg is None);
    }
    FloatActionResult::new().with_primary(Float::LinkEdit(state)).with_optional_new(new_float)
}

} // verus!
