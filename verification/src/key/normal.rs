//! The base view's per-message handlers: cursor movement, reordering,
//! drilling in and out, and the transitions into edit and confirmation
//! floats. Each handler's effect is stated by a postcondition predicate of
//! its own, which the dispatcher's contract repeats case by case.

use vstd::prelude::*;

use crate::app::data::DataTransfer;
use crate::data::dir::{LinkDir, LinkDirView};
use crate::data::dirset::LinkDirSet;
use crate::float::confirm::{ConfirmChoice, FolderDeleteConfirmState, LinkDeleteConfirmState};
use crate::float::edit::{FolderEditState, LinkEditState};
use crate::float::Float;
use crate::input::input_chars;
use crate::message::{MessageUpdater, NormalFolderMessage, NormalLinkMessage};
use crate::state::common::{InputMode, InputPart};
use crate::state::folder::FolderNormalState;
use crate::state::link::LinkNormalState;
use crate::state::{AppState, NormalState};

verus! {

/// The cursor one below `idx`, stopping at the largest index.
pub open spec fn spec_step_down(idx: usize) -> usize {
    if idx == usize::MAX {
        idx
    } else {
        (idx + 1) as usize
    }
}

/// What drilling into the selected folder does: seeds an unset cursor,
/// clamps one past the end, and otherwise resolves to `ToDir` at the
/// cursor; the data is untouched.
pub open spec fn folder_select_post(
    s0: FolderNormalState,
    s1: FolderNormalState,
    d0: Seq<LinkDirView>,
    d1: Seq<LinkDirView>,
    r: MessageUpdater<NormalFolderMessage>,
) -> bool {
    &&& d1 == d0
    &&& r.state is None
    &&& r.float is None
    &&& match s0.selected {
        None => s1 == (FolderNormalState { selected: Some(0usize) }) && r.message is None,
        Some(idx) => {
            let n = d0.len();
            if n == 0 {
                s1 == s0 && r.message is None
            } else if idx < n {
                s1 == s0 && r.message == Some(NormalFolderMessage::ToDir(idx))
            } else {
                s1.selected == Some((n - 1) as usize) && r.message is None
            }
        },
    }
}

pub fn folder_select(state: &mut FolderNormalState, data: &mut LinkDirSet) -> (r: MessageUpdater<
    NormalFolderMessage,
>)
    ensures
        folder_select_post(*old(state), *final(state), old(data)@, final(data)@, r),
{
    let opt_idx = state.selected();
    match opt_idx {
        None => {
            state.select(Some(0));
            MessageUpdater::new()
        },
        Some(idx) => {
            let n = data.len();
            if n == 0 {
                MessageUpdater::new()
            } else if idx < n {
                MessageUpdater::new().with_message(NormalFolderMessage::ToDir(idx))
            } else {
                state.select(Some(n - 1));
                MessageUpdater::new()
            }
        },
    }
}

/// What moving the folder cursor one up does: seeds an unset cursor and
/// stops at the top; the data is untouched.
pub open spec fn folder_move_up_post(
    s0: FolderNormalState,
    s1: FolderNormalState,
    d0: Seq<LinkDirView>,
    d1: Seq<LinkDirView>,
    r: MessageUpdater<NormalFolderMessage>,
) -> bool {
    &&& d1 == d0
    &&& s1 == s0
    &&& r.state is None
    &&& r.float is None
    &&& (d0.len() == 0 ==> r.message is None)
    &&& (d0.len() > 0 ==> r.message == match s0.selected {
        None => Some(NormalFolderMessage::Item(0usize)),
        Some(idx) => if idx == 0 {
            Option::<NormalFolderMessage>::None
        } else {
            Some(NormalFolderMessage::Item((idx - 1) as usize))
        },
    })
}

pub fn folder_move_up(state: &mut FolderNormalState, data: &LinkDirSet) -> (r: MessageUpdater<
    NormalFolderMessage,
>)
    ensures
        folder_move_up_post(*old(state), *final(state), data@, data@, r),
{
    if data.is_empty() {
        return MessageUpdater::new();
    }
    match state.selected() {
        None => MessageUpdater::new().with_message(NormalFolderMessage::Item(0)),
        Some(idx) => if idx == 0 {
            MessageUpdater::new()
        } else {
            MessageUpdater::new().with_message(NormalFolderMessage::Item(idx - 1))
        },
    }
}

/// What moving the folder cursor one down does: seeds an unset cursor; the
/// cursor may step past the end of the list, and stops only at the largest
/// index; the data is untouched.
pub open spec fn folder_move_down_post(
    s0: FolderNormalState,
    s1: FolderNormalState,
    d0: Seq<LinkDirView>,
    d1: Seq<LinkDirView>,
    r: MessageUpdater<NormalFolderMessage>,
) -> bool {
    &&& d1 == d0
    &&& s1 == s0
    &&& r.state is None
    &&& r.float is None
    &&& (d0.len() == 0 ==> r.message is None)
    &&& (d0.len() > 0 ==> r.message == match s0.selected {
        None => Some(NormalFolderMessage::Item(0usize)),
        Some(idx) => Some(NormalFolderMessage::Item(spec_step_down(idx))),
    })
}

pub fn folder_move_down(state: &mut FolderNormalState, data: &LinkDirSet) -> (r: MessageUpdater<
    NormalFolderMessage,
>)
    ensures
        folder_move_down_post(*old(state), *final(state), data@, data@, r),
{
    if data.is_empty() {
        return MessageUpdater::new();
    }
    match state.selected() {
        None => MessageUpdater::new().with_message(NormalFolderMessage::Item(0)),
        Some(idx) => {
            let next: usize = if idx == usize::MAX {
                idx
            } else {
                idx + 1
            };
            MessageUpdater::new().with_message(NormalFolderMessage::Item(next))
        },
    }
}

/// What swapping the selected folder with its upper neighbour does,
/// following with a cursor move so the cursor stays on the moved folder.
pub open spec fn folder_switch_up_post(
    s0: FolderNormalState,
    s1: FolderNormalState,
    d0: Seq<LinkDirView>,
    d1: Seq<LinkDirView>,
    r: MessageUpdater<NormalFolderMessage>,
) -> bool {
    &&& s1 == s0
    &&& r.state is None
    &&& r.float is None
    &&& (d0.len() == 0 ==> d1 == d0 && r.message is None)
    &&& (d0.len() > 0 ==> match s0.selected {
        None => d1 == d0 && r.message == Some(NormalFolderMessage::Item(0usize)),
        Some(idx) => if 0 < idx < d0.len() {
            d1 == d0.update(idx as int, d0[idx - 1]).update(idx - 1, d0[idx as int])
                && r.message == Some(NormalFolderMessage::MoveUp)
        } else {
            d1 == d0 && r.message is None
        },
    })
}

pub fn folder_switch_up(state: &mut FolderNormalState, data: &mut LinkDirSet) -> (r: MessageUpdater<
    NormalFolderMessage,
>)
    requires
        old(data).wf(),
    ensures
        final(data).wf(),
        final(data)@.len() == old(data)@.len(),
        folder_switch_up_post(*old(state), *final(state), old(data)@, final(data)@, r),
{
    if data.is_empty() {
        return MessageUpdater::new();
    }
    match state.selected() {
        None => MessageUpdater::new().with_message(NormalFolderMessage::Item(0)),
        Some(idx) => if idx == 0 {
            MessageUpdater::new()
        } else if idx < data.len() {
            data.swap(idx, idx - 1);
            MessageUpdater::new().with_message(NormalFolderMessage::MoveUp)
        } else {
            MessageUpdater::new()
        },
    }
}

/// What swapping the selected folder with its lower neighbour does,
/// following with a cursor move so the cursor stays on the moved folder.
pub open spec fn folder_switch_down_post(
    s0: FolderNormalState,
    s1: FolderNormalState,
    d0: Seq<LinkDirView>,
    d1: Seq<LinkDirView>,
    r: MessageUpdater<NormalFolderMessage>,
) -> bool {
    &&& s1 == s0
    &&& r.state is None
    &&& r.float is None
    &&& (d0.len() == 0 ==> d1 == d0 && r.message is None)
    &&& (d0.len() > 0 ==> match s0.selected {
        None => d1 == d0 && r.message == Some(NormalFolderMessage::Item(0usize)),
        Some(idx) => if idx + 1 < d0.len() {
            d1 == d0.update(idx as int, d0[idx + 1]).update(idx + 1, d0[idx as int])
                && r.message == Some(NormalFolderMessage::MoveDown)
        } else {
            d1 == d0 && r.message is None
        },
    })
}

pub fn folder_switch_down(state: &mut FolderNormalState, data: &mut LinkDirSet) -> (r:
    MessageUpdater<NormalFolderMessage>)
    requires
        old(data).wf(),
    ensures
        final(data).wf(),
        final(data)@.len() == old(data)@.len(),
        folder_switch_down_post(*old(state), *final(state), old(data)@, final(data)@, r),
{
    if data.is_empty() {
        return MessageUpdater::new();
    }
    match state.selected() {
        None => MessageUpdater::new().with_message(NormalFolderMessage::Item(0)),
        Some(idx) => if idx < data.len() - 1 {
            data.swap(idx, idx + 1);
            MessageUpdater::new().with_message(NormalFolderMessage::MoveDown)
        } else {
            MessageUpdater::new()
        },
    }
}

/// What requesting a folder append does: a fresh edit float with no prior
/// selection, opening in editing mode on an empty buffer.
pub open spec fn folder_append_post(
    s0: FolderNormalState,
    s1: FolderNormalState,
    d0: Seq<LinkDirView>,
    d1: Seq<LinkDirView>,
    r: MessageUpdater<NormalFolderMessage>,
) -> bool {
    &&& d1 == d0
    &&& s1 == s0
    &&& r.message is None
    &&& r.state is None
    &&& (r.float matches Some(Float::FolderEdit(e)) && e.selected is None && e.mode
        == InputMode::Editing && input_chars(e.input) == Seq::<char>::empty())
}

pub fn folder_append(state: &mut FolderNormalState, data: &LinkDirSet) -> (r: MessageUpdater<
    NormalFolderMessage,
>)
    ensures
        folder_append_post(*old(state), *final(state), data@, data@, r),
{
    MessageUpdater::new().with_float(Float::FolderEdit(FolderEditState::new(None)))
}

/// What requesting a folder rename does: an edit float pre-filled with the
/// selected folder's name, or nothing when no valid folder is selected.
pub open spec fn folder_rename_post(
    s0: FolderNormalState,
    s1: FolderNormalState,
    d0: Seq<LinkDirView>,
    d1: Seq<LinkDirView>,
    r: MessageUpdater<NormalFolderMessage>,
) -> bool {
    &&& d1 == d0
    &&& s1 == s0
    &&& r.message is None
    &&& r.state is None
    &&& match s0.selected {
        Some(idx) => if idx < d0.len() {
            r.float matches Some(Float::FolderEdit(e)) && e.selected == Some(idx) && e.mode
                == InputMode::Editing && input_chars(e.input) == d0[idx as int].identifier
        } else {
            r.float is None
        },
        None => r.float is None,
    }
}

pub fn folder_rename(state: &mut FolderNormalState, data: &LinkDirSet) -> (r: MessageUpdater<
    NormalFolderMessage,
>)
    requires
        data.wf(),
    ensures
        folder_rename_post(*old(state), *final(state), data@, data@, r),
{
    if data.is_empty() {
        return MessageUpdater::new();
    }
    match state.selected() {
        Some(idx) => if idx < data.len() {
            let edit = FolderEditState::new(Some(idx)).with_value(data.get(idx).identifier());
            MessageUpdater::new().with_float(Float::FolderEdit(edit))
        } else {
            MessageUpdater::new()
        },
        None => MessageUpdater::new(),
    }
}

/// What requesting a folder removal does: a delete confirmation carrying
/// the deferred removal of the selected folder; the data is untouched
/// until the user confirms.
pub open spec fn folder_remove_post(
    s0: FolderNormalState,
    s1: FolderNormalState,
    d0: Seq<LinkDirView>,
    d1: Seq<LinkDirView>,
    r: MessageUpdater<NormalFolderMessage>,
) -> bool {
    &&& d1 == d0
    &&& s1 == s0
    &&& r.message is None
    &&& r.state is None
    &&& match s0.selected {
        Some(idx) => if idx < d0.len() {
            r.float == Some(
                Float::FolderDeleteConfirm(
                    FolderDeleteConfirmState { choice: ConfirmChoice::No, target: idx },
                ),
            )
        } else {
            r.float is None
        },
        None => r.float is None,
    }
}

pub fn folder_remove(state: &mut FolderNormalState, data: &mut LinkDirSet) -> (r: MessageUpdater<
    NormalFolderMessage,
>)
    ensures
        folder_remove_post(*old(state), *final(state), old(data)@, final(data)@, r),
{
    if data.is_empty() {
        return MessageUpdater::new();
    }
    match state.selected() {
        Some(idx) => if idx < data.len() {
            MessageUpdater::new().with_float(
                Float::FolderDeleteConfirm(FolderDeleteConfirmState::new(idx)),
            )
        } else {
            MessageUpdater::new()
        },
        None => MessageUpdater::new(),
    }
}

/// What quitting from the folder view does: the terminal state with an
/// empty transfer.
pub open spec fn folder_quit_post(r: MessageUpdater<NormalFolderMessage>) -> bool {
    &&& r.message is None
    &&& r.float is None
    &&& (r.state matches Some(AppState::Quit(d)) && d.link is None && d.config is None && d.data
        is None)
}

pub fn folder_quit() -> (r: MessageUpdater<NormalFolderMessage>)
    ensures
        folder_quit_post(r),
{
    MessageUpdater::new().with_state(AppState::Quit(DataTransfer::new()))
}

/// What a cursor placement does: the folder cursor lands at the index.
pub open spec fn folder_item_post(
    s1: FolderNormalState,
    idx: usize,
    r: MessageUpdater<NormalFolderMessage>,
) -> bool {
    &&& s1.selected == Some(idx)
    &&& r.message is None
    &&& r.state is None
    &&& r.float is None
}

pub fn folder_item(state: &mut FolderNormalState, idx: usize) -> (r: MessageUpdater<
    NormalFolderMessage,
>)
    ensures
        folder_item_post(*final(state), idx, r),
{
    state.select(Some(idx));
    MessageUpdater::new()
}

/// What entering a folder's link view does: the base state becomes the
/// link view of that folder, cursor seeded at the top; out of range,
/// nothing happens.
pub open spec fn folder_to_dir_post(
    s0: FolderNormalState,
    s1: FolderNormalState,
    d0: Seq<LinkDirView>,
    d1: Seq<LinkDirView>,
    idx: usize,
    r: MessageUpdater<NormalFolderMessage>,
) -> bool {
    &&& d1 == d0
    &&& s1 == s0
    &&& r.message is None
    &&& r.float is None
    &&& if idx < d0.len() {
        r.state == Some(
            AppState::Normal(
                NormalState::Link(
                    LinkNormalState {
                        folder_state: FolderNormalState { selected: Some(idx) },
                        selected: Some(0usize),
                    },
                ),
            ),
        )
    } else {
        r.state is None
    }
}

pub fn folder_to_dir(state: &mut FolderNormalState, data: &LinkDirSet, idx: usize) -> (r:
    MessageUpdater<NormalFolderMessage>)
    ensures
        folder_to_dir_post(*old(state), *final(state), data@, data@, idx, r),
{
    if idx < data.len() {
        MessageUpdater::new().with_state(
            AppState::Normal(NormalState::Link(LinkNormalState::new(idx))),
        )
    } else {
        MessageUpdater::new()
    }
}

/// What returning from the link view does: the folder view, with the
/// folder cursor kept where the link view was scoped.
pub open spec fn link_back_post(
    s0: LinkNormalState,
    s1: LinkNormalState,
    r: MessageUpdater<NormalLinkMessage>,
) -> bool {
    &&& s1 == s0
    &&& r.message is None
    &&& r.float is None
    &&& r.state == Some(
        AppState::Normal(
            NormalState::Folder(
                FolderNormalState {
                    selected: Some(
                        match s0.folder_state.selected {
                            Some(i) => i,
                            None => 0usize,
                        },
                    ),
                },
            ),
        ),
    )
}

pub fn link_back(state: &mut LinkNormalState, data: &LinkDir) -> (r: MessageUpdater<
    NormalLinkMessage,
>)
    ensures
        link_back_post(*old(state), *final(state), r),
{
    let dir_idx = match state.folder_state().selected() {
        Some(i) => i,
        None => 0,
    };
    MessageUpdater::new().with_state(
        AppState::Normal(NormalState::Folder(FolderNormalState::with_selected(Some(dir_idx)))),
    )
}

/// What picking the selected link does: seeds an unset cursor, clamps one
/// past the end, and otherwise resolves to `ToLink` at the cursor.
pub open spec fn link_select_post(
    s0: LinkNormalState,
    s1: LinkNormalState,
    dv0: LinkDirView,
    dv1: LinkDirView,
    r: MessageUpdater<NormalLinkMessage>,
) -> bool {
    &&& dv1 == dv0
    &&& r.state is None
    &&& r.float is None
    &&& s1.folder_state == s0.folder_state
    &&& match s0.selected {
        None => s1.selected == Some(0usize) && r.message is None,
        Some(idx) => {
            let n = dv0.links.len();
            if n == 0 {
                s1 == s0 && r.message is None
            } else if idx < n {
                s1 == s0 && r.message == Some(NormalLinkMessage::ToLink(idx))
            } else {
                s1.selected == Some((n - 1) as usize) && r.message is None
            }
        },
    }
}

pub fn link_select(state: &mut LinkNormalState, data: &LinkDir) -> (r: MessageUpdater<
    NormalLinkMessage,
>)
    ensures
        link_select_post(*old(state), *final(state), data@, data@, r),
{
    let opt_idx = state.selected();
    match opt_idx {
        None => {
            state.select(Some(0));
            MessageUpdater::new()
        },
        Some(idx) => {
            let n = data.len();
            if n == 0 {
                MessageUpdater::new()
            } else if idx < n {
                MessageUpdater::new().with_message(NormalLinkMessage::ToLink(idx))
            } else {
                state.select(Some(n - 1));
                MessageUpdater::new()
            }
        },
    }
}

/// What moving the link cursor one up does; the folder is untouched.
pub open spec fn link_move_up_post(
    s0: LinkNormalState,
    s1: LinkNormalState,
    dv0: LinkDirView,
    dv1: LinkDirView,
    r: MessageUpdater<NormalLinkMessage>,
) -> bool {
    &&& dv1 == dv0
    &&& s1 == s0
    &&& r.state is None
    &&& r.float is None
    &&& (dv0.links.len() == 0 ==> r.message is None)
    &&& (dv0.links.len() > 0 ==> r.message == match s0.selected {
        None => Some(NormalLinkMessage::Item(0usize)),
        Some(idx) => if idx == 0 {
            Option::<NormalLinkMessage>::None
        } else {
            Some(NormalLinkMessage::Item((idx - 1) as usize))
        },
    })
}

pub fn link_move_up(state: &mut LinkNormalState, data: &LinkDir) -> (r: MessageUpdater<
    NormalLinkMessage,
>)
    ensures
        link_move_up_post(*old(state), *final(state), data@, data@, r),
{
    if data.is_empty() {
        return MessageUpdater::new();
    }
    match state.selected() {
        None => MessageUpdater::new().with_message(NormalLinkMessage::Item(0)),
        Some(idx) => if idx == 0 {
            MessageUpdater::new()
        } else {
            MessageUpdater::new().with_message(NormalLinkMessage::Item(idx - 1))
        },
    }
}

/// What moving the link cursor one down does; the cursor may step past the
/// end and stops only at the largest index; the folder is untouched.
pub open spec fn link_move_down_post(
    s0: LinkNormalState,
    s1: LinkNormalState,
    dv0: LinkDirView,
    dv1: LinkDirView,
    r: MessageUpdater<NormalLinkMessage>,
) -> bool {
    &&& dv1 == dv0
    &&& s1 == s0
    &&& r.state is None
    &&& r.float is None
    &&& (dv0.links.len() == 0 ==> r.message is None)
    &&& (dv0.links.len() > 0 ==> r.message == match s0.selected {
        None => Some(NormalLinkMessage::Item(0usize)),
        Some(idx) => Some(NormalLinkMessage::Item(spec_step_down(idx))),
    })
}

pub fn link_move_down(state: &mut LinkNormalState, data: &LinkDir) -> (r: MessageUpdater<
    NormalLinkMessage,
>)
    ensures
        link_move_down_post(*old(state), *final(state), data@, data@, r),
{
    if data.is_empty() {
        return MessageUpdater::new();
    }
    match state.selected() {
        None => MessageUpdater::new().with_message(NormalLinkMessage::Item(0)),
        Some(idx) => {
            let next: usize = if idx == usize::MAX {
                idx
            } else {
                idx + 1
            };
            MessageUpdater::new().with_message(NormalLinkMessage::Item(next))
        },
    }
}

/// What swapping the selected link with its upper neighbour does.
pub open spec fn link_switch_up_post(
    s0: LinkNormalState,
    s1: LinkNormalState,
    dv0: LinkDirView,
    dv1: LinkDirView,
    r: MessageUpdater<NormalLinkMessage>,
) -> bool {
    &&& s1 == s0
    &&& r.state is None
    &&& r.float is None
    &&& dv1.identifier == dv0.identifier
    &&& (dv0.links.len() == 0 ==> dv1 == dv0 && r.message is None)
    &&& (dv0.links.len() > 0 ==> match s0.selected {
        None => dv1 == dv0 && r.message == Some(NormalLinkMessage::Item(0usize)),
        Some(idx) => if 0 < idx < dv0.links.len() {
            dv1.links == dv0.links.update(idx as int, dv0.links[idx - 1]).update(
                idx - 1,
                dv0.links[idx as int],
            ) && r.message == Some(NormalLinkMessage::MoveUp)
        } else {
            dv1 == dv0 && r.message is None
        },
    })
}

pub fn link_switch_up(state: &mut LinkNormalState, data: &mut LinkDir) -> (r: MessageUpdater<
    NormalLinkMessage,
>)
    requires
        old(data).wf(),
    ensures
        final(data).wf(),
        final(data)@.links.len() == old(data)@.links.len(),
        link_switch_up_post(*old(state), *final(state), old(data)@, final(data)@, r),
{
    if data.is_empty() {
        return MessageUpdater::new();
    }
    match state.selected() {
        None => MessageUpdater::new().with_message(NormalLinkMessage::Item(0)),
        Some(idx) => if idx == 0 {
            MessageUpdater::new()
        } else if idx < data.len() {
            data.swap(idx, idx - 1);
            MessageUpdater::new().with_message(NormalLinkMessage::MoveUp)
        } else {
            MessageUpdater::new()
        },
    }
}

/// What swapping the selected link with its lower neighbour does.
pub open spec fn link_switch_down_post(
    s0: LinkNormalState,
    s1: LinkNormalState,
    dv0: LinkDirView,
    dv1: LinkDirView,
    r: MessageUpdater<NormalLinkMessage>,
) -> bool {
    &&& s1 == s0
    &&& r.state is None
    &&& r.float is None
    &&& dv1.identifier == dv0.identifier
    &&& (dv0.links.len() == 0 ==> dv1 == dv0 && r.message is None)
    &&& (dv0.links.len() > 0 ==> match s0.selected {
        None => dv1 == dv0 && r.message == Some(NormalLinkMessage::Item(0usize)),
        Some(idx) => if idx + 1 < dv0.links.len() {
            dv1.links == dv0.links.update(idx as int, dv0.links[idx + 1]).update(
                idx + 1,
                dv0.links[idx as int],
            ) && r.message == Some(NormalLinkMessage::MoveDown)
        } else {
            dv1 == dv0 && r.message is None
        },
    })
}

pub fn link_switch_down(state: &mut LinkNormalState, data: &mut LinkDir) -> (r: MessageUpdater<
    NormalLinkMessage,
>)
    requires
        old(data).wf(),
    ensures
        final(data).wf(),
        final(data)@.links.len() == old(data)@.links.len(),
        link_switch_down_post(*old(state), *final(state), old(data)@, final(data)@, r),
{
    if data.is_empty() {
        return MessageUpdater::new();
    }
    match state.selected() {
        None => MessageUpdater::new().with_message(NormalLinkMessage::Item(0)),
        Some(idx) => if idx < data.len() - 1 {
            data.swap(idx, idx + 1);
            MessageUpdater::new().with_message(NormalLinkMessage::MoveDown)
        } else {
            MessageUpdater::new()
        },
    }
}

/// What requesting a link append does: a fresh link edit float scoped to
/// the current folder, opening in editing mode on the empty name buffer.
pub open spec fn link_append_post(
    s0: LinkNormalState,
    s1: LinkNormalState,
    dv0: LinkDirView,
    dv1: LinkDirView,
    r: MessageUpdater<NormalLinkMessage>,
) -> bool {
    &&& dv1 == dv0
    &&& s1 == s0
    &&& r.message is None
    &&& r.state is None
    &&& (r.float matches Some(Float::LinkEdit(e)) && e.from == s0.spec_folder_index() && e.selected
        is None && e.mode == InputMode::Editing && e.part == InputPart::Key && input_chars(
        e.input.0,
    ) == Seq::<char>::empty() && input_chars(e.input.1) == Seq::<char>::empty())
}

pub fn link_append(state: &mut LinkNormalState, data: &LinkDir) -> (r: MessageUpdater<
    NormalLinkMessage,
>)
    requires
        old(state).wf(),
    ensures
        link_append_post(*old(state), *final(state), data@, data@, r),
{
    let from = state.folder_index();
    MessageUpdater::new().with_float(Float::LinkEdit(LinkEditState::new(from, None)))
}

/// What requesting a link rename does: an edit float pre-filled with the
/// selected link's name and path, or nothing when no valid link is
/// selected.
pub open spec fn link_rename_post(
    s0: LinkNormalState,
    s1: LinkNormalState,
    dv0: LinkDirView,
    dv1: LinkDirView,
    r: MessageUpdater<NormalLinkMessage>,
) -> bool {
    &&& dv1 == dv0
    &&& s1 == s0
    &&& r.message is None
    &&& r.state is None
    &&& match s0.selected {
        Some(idx) => if idx < dv0.links.len() {
            r.float matches Some(Float::LinkEdit(e)) && e.from == s0.spec_folder_index()
                && e.selected == Some(idx) && e.mode == InputMode::Editing && e.part
                == InputPart::Key && input_chars(e.input.0) == dv0.links[idx as int].identifier
                && input_chars(e.input.1) == dv0.links[idx as int].path
        } else {
            r.float is None
        },
        None => r.float is None,
    }
}

pub fn link_rename(state: &mut LinkNormalState, data: &LinkDir) -> (r: MessageUpdater<
    NormalLinkMessage,
>)
    requires
        old(state).wf(),
        data.wf(),
    ensures
        link_rename_post(*old(state), *final(state), data@, data@, r),
{
    if data.is_empty() {
        return MessageUpdater::new();
    }
    match state.selected() {
        Some(idx) => if idx < data.len() {
            let from = state.folder_index();
            let link = data.get(idx);
            let edit = LinkEditState::new(from, Some(idx)).with_value(
                link.identifier(),
                link.path(),
            );
            MessageUpdater::new().with_float(Float::LinkEdit(edit))
        } else {
            MessageUpdater::new()
        },
        None => MessageUpdater::new(),
    }
}

/// What requesting a link removal does: a delete confirmation carrying the
/// deferred removal, bound to the owning folder; the data is untouched
/// until the user confirms.
pub open spec fn link_remove_post(
    s0: LinkNormalState,
    s1: LinkNormalState,
    dv0: LinkDirView,
    dv1: LinkDirView,
    r: MessageUpdater<NormalLinkMessage>,
) -> bool {
    &&& dv1 == dv0
    &&& s1 == s0
    &&& r.message is None
    &&& r.state is None
    &&& match s0.selected {
        Some(idx) => if idx < dv0.links.len() {
            r.float == Some(
                Float::LinkDeleteConfirm(
                    LinkDeleteConfirmState {
                        choice: ConfirmChoice::No,
                        target: idx,
                        dir_idx: s0.spec_folder_index(),
                    },
                ),
            )
        } else {
            r.float is None
        },
        None => r.float is None,
    }
}

pub fn link_remove(state: &mut LinkNormalState, data: &mut LinkDir) -> (r: MessageUpdater<
    NormalLinkMessage,
>)
    requires
        old(state).wf(),
    ensures
        link_remove_post(*old(state), *final(state), old(data)@, final(data)@, r),
{
    if data.is_empty() {
        return MessageUpdater::new();
    }
    match state.selected() {
        Some(idx) => if idx < data.len() {
            let dir_idx = state.folder_index();
            MessageUpdater::new().with_float(
                Float::LinkDeleteConfirm(LinkDeleteConfirmState::new(idx, dir_idx)),
            )
        } else {
            MessageUpdater::new()
        },
        None => MessageUpdater::new(),
    }
}

/// What quitting from the link view does: the terminal state with an empty
/// transfer.
pub open spec fn link_quit_post(r: MessageUpdater<NormalLinkMessage>) -> bool {
    &&& r.message is None
    &&& r.float is None
    &&& (r.state matches Some(AppState::Quit(d)) && d.link is None && d.config is None && d.data
        is None)
}

pub fn link_quit() -> (r: MessageUpdater<NormalLinkMessage>)
    ensures
        link_quit_post(r),
{
    MessageUpdater::new().with_state(AppState::Quit(DataTransfer::new()))
}

/// What a cursor placement does: the link cursor lands at the index.
pub open spec fn link_item_post(
    s0: LinkNormalState,
    s1: LinkNormalState,
    idx: usize,
    r: MessageUpdater<NormalLinkMessage>,
) -> bool {
    &&& s1.folder_state == s0.folder_state
    &&& s1.selected == Some(idx)
    &&& r.message is None
    &&& r.state is None
    &&& r.float is None
}

pub fn link_item(state: &mut LinkNormalState, idx: usize) -> (r: MessageUpdater<NormalLinkMessage>)
    ensures
        link_item_post(*old(state), *final(state), idx, r),
{
    state.select(Some(idx));
    MessageUpdater::new()
}

/// What choosing a link as the operation's output does: the terminal state
/// carrying that link; out of range, nothing happens.
pub open spec fn link_to_link_post(
    s0: LinkNormalState,
    s1: LinkNormalState,
    dv0: LinkDirView,
    dv1: LinkDirView,
    idx: usize,
    r: MessageUpdater<NormalLinkMessage>,
) -> bool {
    &&& dv1 == dv0
    &&& s1 == s0
    &&& r.message is None
    &&& r.float is None
    &&& if idx < dv0.links.len() {
        r.state matches Some(AppState::Quit(d)) && (d.link matches Some(l) && l@
            == dv0.links[idx as int]) && d.config is None && d.data is None
    } else {
        r.state is None
    }
}

pub fn link_to_link(state: &mut LinkNormalState, data: &LinkDir, idx: usize) -> (r: MessageUpdater<
    NormalLinkMessage,
>)
    requires
        data.wf(),
    ensures
        link_to_link_post(*old(state), *final(state), data@, data@, idx, r),
{
    if idx < data.len() {
        MessageUpdater::new().with_state(
            AppState::Quit(DataTransfer::with_link(data.get(idx).clone())),
        )
    } else {
        MessageUpdater::new()
    }
}

} // verus!
