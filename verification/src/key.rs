//! Key dispatch: translation of key presses into kind-scoped messages, the
//! per-kind dispatchers, and the driver that folds one input event to a
//! settled state — through the topmost float when one is present, else
//! through the base view.

pub mod edit;
pub mod float;
pub mod normal;

use vstd::prelude::*;

use crate::app::App;
use crate::data::dir::{LinkDir, LinkDirView};
use crate::data::dirset::LinkDirSet;
use crate::float::{float_wf, is_delete_confirm, Float, FloatActionResult};
use crate::input::{KeyCode, KeyPress};
use crate::message::{
    normal_folder_msg_rank, normal_link_msg_rank, MessageUpdater, NormalFolderMessage,
    NormalLinkMessage,
};
use crate::state::common::{InputMode, InputPart};
use crate::state::folder::FolderNormalState;
use crate::state::link::LinkNormalState;
use crate::state::{app_state_wf, AppState, NormalState};

verus! {

/// The key table of the base folder view.
pub open spec fn spec_normal_folder_key_message(key: KeyPress) -> Option<NormalFolderMessage> {
    if !key.press {
        None
    } else if key.ctrl && (key.code == KeyCode::Char('c') || key.code == KeyCode::Char('C')) {
        Some(NormalFolderMessage::Quit)
    } else if key.ctrl && key.code == KeyCode::Up {
        Some(NormalFolderMessage::SwitchUp)
    } else if key.ctrl && key.code == KeyCode::Down {
        Some(NormalFolderMessage::SwitchDown)
    } else {
        match key.code {
            KeyCode::Esc => Some(NormalFolderMessage::Quit),
            KeyCode::Enter => Some(NormalFolderMessage::Select),
            KeyCode::Right => Some(NormalFolderMessage::Select),
            KeyCode::Up => Some(NormalFolderMessage::MoveUp),
            KeyCode::Down => Some(NormalFolderMessage::MoveDown),
            KeyCode::Char(c) => if c == 'q' {
                Some(NormalFolderMessage::Quit)
            } else if c == 'k' {
                Some(NormalFolderMessage::MoveUp)
            } else if c == 'j' {
                Some(NormalFolderMessage::MoveDown)
            } else if c == 'K' {
                Some(NormalFolderMessage::SwitchUp)
            } else if c == 'J' {
                Some(NormalFolderMessage::SwitchDown)
            } else if c == 'a' {
                Some(NormalFolderMessage::Append)
            } else if c == 'r' {
                Some(NormalFolderMessage::Rename)
            } else if c == 'x' {
                Some(NormalFolderMessage::Remove)
            } else {
                None
            },
            _ => None,
        }
    }
}

/// The key table of the base link view.
pub open spec fn spec_normal_link_key_message(key: KeyPress) -> Option<NormalLinkMessage> {
    if !key.press {
        None
    } else if key.ctrl && (key.code == KeyCode::Char('c') || key.code == KeyCode::Char('C')) {
        Some(NormalLinkMessage::Quit)
    } else if key.ctrl && key.code == KeyCode::Up {
        Some(NormalLinkMessage::SwitchUp)
    } else if key.ctrl && key.code == KeyCode::Down {
        Some(NormalLinkMessage::SwitchDown)
    } else {
        match key.code {
            KeyCode::Esc => Some(NormalLinkMessage::Quit),
            KeyCode::Enter => Some(NormalLinkMessage::Select),
            KeyCode::Left => Some(NormalLinkMessage::Back),
            KeyCode::Up => Some(NormalLinkMessage::MoveUp),
            KeyCode::Down => Some(NormalLinkMessage::MoveDown),
            KeyCode::Char(c) => if c == 'q' {
                Some(NormalLinkMessage::Quit)
            } else if c == 'k' {
                Some(NormalLinkMessage::MoveUp)
            } else if c == 'j' {
                Some(NormalLinkMessage::MoveDown)
            } else if c == 'K' {
                Some(NormalLinkMessage::SwitchUp)
            } else if c == 'J' {
                Some(NormalLinkMessage::SwitchDown)
            } else if c == 'a' {
                Some(NormalLinkMessage::Append)
            } else if c == 'r' {
                Some(NormalLinkMessage::Rename)
            } else if c == 'x' {
                Some(NormalLinkMessage::Remove)
            } else {
                None
            },
            _ => None,
        }
    }
}

pub fn handle_normal_folder_key_event(key: KeyPress) -> (r: Option<NormalFolderMessage>)
    ensures
        r == spec_normal_folder_key_message(key),
{
    if !key.press {
        return None;
    }
    if key.ctrl {
        match key.code {
            KeyCode::Char(c) => if c == 'c' || c == 'C' {
                return Some(NormalFolderMessage::Quit);
            },
            KeyCode::Up => {
                return Some(NormalFolderMessage::SwitchUp);
            },
            KeyCode::Down => {
                return Some(NormalFolderMessage::SwitchDown);
            },
            _ => {},
        }
    }
    match key.code {
        KeyCode::Esc => Some(NormalFolderMessage::Quit),
        KeyCode::Enter => Some(NormalFolderMessage::Select),
        KeyCode::Right => Some(NormalFolderMessage::Select),
        KeyCode::Up => Some(NormalFolderMessage::MoveUp),
        KeyCode::Down => Some(NormalFolderMessage::MoveDown),
        KeyCode::Char(c) => if c == 'q' {
            Some(NormalFolderMessage::Quit)
        } else if c == 'k' {
            Some(NormalFolderMessage::MoveUp)
        } else if c == 'j' {
            Some(NormalFolderMessage::MoveDown)
        } else if c == 'K' {
            Some(NormalFolderMessage::SwitchUp)
        } else if c == 'J' {
            Some(NormalFolderMessage::SwitchDown)
        } else if c == 'a' {
            Some(NormalFolderMessage::Append)
        } else if c == 'r' {
            Some(NormalFolderMessage::Rename)
        } else if c == 'x' {
            Some(NormalFolderMessage::Remove)
        } else {
            None
        },
        _ => None,
    }
}

pub fn handle_normal_link_key_event(key: KeyPress) -> (r: Option<NormalLinkMessage>)
    ensures
        r == spec_normal_link_key_message(key),
{
    if !key.press {
        return None;
    }
    if key.ctrl {
        match key.code {
            KeyCode::Char(c) => if c == 'c' || c == 'C' {
                return Some(NormalLinkMessage::Quit);
            },
            KeyCode::Up => {
                return Some(NormalLinkMessage::SwitchUp);
            },
            KeyCode::Down => {
                return Some(NormalLinkMessage::SwitchDown);
            },
            _ => {},
        }
    }
    match key.code {
        KeyCode::Esc => Some(NormalLinkMessage::Quit),
        KeyCode::Enter => Some(NormalLinkMessage::Select),
        KeyCode::Left => Some(NormalLinkMessage::Back),
        KeyCode::Up => Some(NormalLinkMessage::MoveUp),
        KeyCode::Down => Some(NormalLinkMessage::MoveDown),
        KeyCode::Char(c) => if c == 'q' {
            Some(NormalLinkMessage::Quit)
        } else if c == 'k' {
            Some(NormalLinkMessage::MoveUp)
        } else if c == 'j' {
            Some(NormalLinkMessage::MoveDown)
        } else if c == 'K' {
            Some(NormalLinkMessage::SwitchUp)
        } else if c == 'J' {
            Some(NormalLinkMessage::SwitchDown)
        } else if c == 'a' {
            Some(NormalLinkMessage::Append)
        } else if c == 'r' {
            Some(NormalLinkMessage::Rename)
        } else if c == 'x' {
            Some(NormalLinkMessage::Remove)
        } else {
            None
        },
        _ => None,
    }
}

/// One handler invocation of the base folder view. Chained messages have
/// strictly smaller rank; the data stays well formed with its length
/// untouched; any produced state or float fits the data.
pub fn handle_normal_folder_message(
    state: &mut FolderNormalState,
    data: &mut LinkDirSet,
    message: NormalFolderMessage,
) -> (r: MessageUpdater<NormalFolderMessage>)
    requires
        old(data).wf(),
    ensures
        final(data).wf(),
        final(data)@.len() == old(data)@.len(),
        r.message matches Some(m2) ==> normal_folder_msg_rank(m2) < normal_folder_msg_rank(
            message,
        ),
        r.state matches Some(st) ==> app_state_wf(st, final(data)@),
        r.float matches Some(f) ==> float_wf(f, final(data)@) && !is_delete_confirm(f) || (
        f matches Float::FolderDeleteConfirm(c) && c.target < final(data)@.len()),
        match message {
            NormalFolderMessage::Select => crate::key::normal::folder_select_post(
                *old(state),
                *final(state),
                old(data)@,
                final(data)@,
                r,
            ),
            NormalFolderMessage::MoveUp => crate::key::normal::folder_move_up_post(
                *old(state),
                *final(state),
                old(data)@,
                final(data)@,
                r,
            ),
            NormalFolderMessage::MoveDown => crate::key::normal::folder_move_down_post(
                *old(state),
                *final(state),
                old(data)@,
                final(data)@,
                r,
            ),
            NormalFolderMessage::SwitchUp => crate::key::normal::folder_switch_up_post(
                *old(state),
                *final(state),
                old(data)@,
                final(data)@,
                r,
            ),
            NormalFolderMessage::SwitchDown => crate::key::normal::folder_switch_down_post(
                *old(state),
                *final(state),
                old(data)@,
                final(data)@,
                r,
            ),
            NormalFolderMessage::Append => crate::key::normal::folder_append_post(
                *old(state),
                *final(state),
                old(data)@,
                final(data)@,
                r,
            ),
            NormalFolderMessage::Rename => crate::key::normal::folder_rename_post(
                *old(state),
                *final(state),
                old(data)@,
                final(data)@,
                r,
            ),
            NormalFolderMessage::Remove => crate::key::normal::folder_remove_post(
                *old(state),
                *final(state),
                old(data)@,
                final(data)@,
                r,
            ),
            NormalFolderMessage::Quit => crate::key::normal::folder_quit_post(r) && *final(state)
                == *old(state) && final(data)@ == old(data)@,
            NormalFolderMessage::Item(idx) => crate::key::normal::folder_item_post(
                *final(state),
                idx,
                r,
            ) && final(data)@ == old(data)@,
            NormalFolderMessage::ToDir(idx) => crate::key::normal::folder_to_dir_post(
                *old(state),
                *final(state),
                old(data)@,
                final(data)@,
                idx,
                r,
            ),
            NormalFolderMessage::Help => r.message is None && r.state is None && r.float is None
                && *final(state) == *old(state) && final(data)@ == old(data)@,
        },
{
    match message {
        NormalFolderMessage::Select => crate::key::normal::folder_select(state, data),
        NormalFolderMessage::MoveUp => crate::key::normal::folder_move_up(state, data),
        NormalFolderMessage::MoveDown => crate::key::normal::folder_move_down(state, data),
        NormalFolderMessage::SwitchUp => crate::key::normal::folder_switch_up(state, data),
        NormalFolderMessage::SwitchDown => crate::key::normal::folder_switch_down(state, data),
        NormalFolderMessage::Append => crate::key::normal::folder_append(state, data),
        NormalFolderMessage::Rename => crate::key::normal::folder_rename(state, data),
        NormalFolderMessage::Remove => crate::key::normal::folder_remove(state, data),
        NormalFolderMessage::Quit => crate::key::normal::folder_quit(),
        NormalFolderMessage::Item(idx) => crate::key::normal::folder_item(state, idx),
        NormalFolderMessage::ToDir(idx) => crate::key::normal::folder_to_dir(state, data, idx),
        NormalFolderMessage::Help => MessageUpdater::new(),
    }
}

/// One handler invocation of the base link view, against the folder the
/// view is scoped to. Chained messages have strictly smaller rank; the
/// folder stays well formed with its name and length untouched; any
/// produced state returns to the folder view or quits, and any produced
/// float belongs to this folder.
pub fn handle_normal_link_message(
    state: &mut LinkNormalState,
    data: &mut LinkDir,
    message: NormalLinkMessage,
) -> (r: MessageUpdater<NormalLinkMessage>)
    requires
        old(data).wf(),
        old(state).wf(),
    ensures
        final(data).wf(),
        final(data)@.identifier == old(data)@.identifier,
        final(data)@.links.len() == old(data)@.links.len(),
        final(state).folder_state == old(state).folder_state,
        r.message matches Some(m2) ==> normal_link_msg_rank(m2) < normal_link_msg_rank(message),
        r.state matches Some(st) ==> (st matches AppState::Normal(NormalState::Folder(_)) || st
            is Quit),
        r.float matches Some(f) ==> match f {
            Float::LinkEdit(e) => e.from == old(state).spec_folder_index() && (
            e.selected matches Some(i) ==> i < final(data)@.links.len()),
            Float::LinkDeleteConfirm(c) => c.dir_idx == old(state).spec_folder_index() && c.target
                < final(data)@.links.len(),
            _ => false,
        },
        match message {
            NormalLinkMessage::Back => crate::key::normal::link_back_post(
                *old(state),
                *final(state),
                r,
            ) && final(data)@ == old(data)@,
            NormalLinkMessage::Select => crate::key::normal::link_select_post(
                *old(state),
                *final(state),
                old(data)@,
                final(data)@,
                r,
            ),
            NormalLinkMessage::MoveUp => crate::key::normal::link_move_up_post(
                *old(state),
                *final(state),
                old(data)@,
                final(data)@,
                r,
            ),
            NormalLinkMessage::MoveDown => crate::key::normal::link_move_down_post(
                *old(state),
                *final(state),
                old(data)@,
                final(data)@,
                r,
            ),
            NormalLinkMessage::SwitchUp => crate::key::normal::link_switch_up_post(
                *old(state),
                *final(state),
                old(data)@,
                final(data)@,
                r,
            ),
            NormalLinkMessage::SwitchDown => crate::key::normal::link_switch_down_post(
                *old(state),
                *final(state),
                old(data)@,
                final(data)@,
                r,
            ),
            NormalLinkMessage::Append => crate::key::normal::link_append_post(
                *old(state),
                *final(state),
                old(data)@,
                final(data)@,
                r,
            ),
            NormalLinkMessage::Rename => crate::key::normal::link_rename_post(
                *old(state),
                *final(state),
                old(data)@,
                final(data)@,
                r,
            ),
            NormalLinkMessage::Remove => crate::key::normal::link_remove_post(
                *old(state),
                *final(state),
                old(data)@,
                final(data)@,
                r,
            ),
            NormalLinkMessage::Quit => crate::key::normal::link_quit_post(r) && *final(state)
                == *old(state) && final(data)@ == old(data)@,
            NormalLinkMessage::Item(idx) => crate::key::normal::link_item_post(
                *old(state),
                *final(state),
                idx,
                r,
            ) && final(data)@ == old(data)@,
            NormalLinkMessage::ToLink(idx) => crate::key::normal::link_to_link_post(
                *old(state),
                *final(state),
                old(data)@,
                final(data)@,
                idx,
                r,
            ),
            NormalLinkMessage::Help => r.message is None && r.state is None && r.float is None
                && *final(state) == *old(state) && final(data)@ == old(data)@,
        },
{
    match message {
        NormalLinkMessage::Back => crate::key::normal::link_back(state, data),
        NormalLinkMessage::Select => crate::key::normal::link_select(state, data),
        NormalLinkMessage::MoveUp => crate::key::normal::link_move_up(state, data),
        NormalLinkMessage::MoveDown => crate::key::normal::link_move_down(state, data),
        NormalLinkMessage::SwitchUp => crate::key::normal::link_switch_up(state, data),
        NormalLinkMessage::SwitchDown => crate::key::normal::link_switch_down(state, data),
        NormalLinkMessage::Append => crate::key::normal::link_append(state, data),
        NormalLinkMessage::Rename => crate::key::normal::link_rename(state, data),
        NormalLinkMessage::Remove => crate::key::normal::link_remove(state, data),
        NormalLinkMessage::Quit => crate::key::normal::link_quit(),
        NormalLinkMessage::Item(idx) => crate::key::normal::link_item(state, idx),
        NormalLinkMessage::ToLink(idx) => crate::key::normal::link_to_link(state, data, idx),
        NormalLinkMessage::Help => MessageUpdater::new(),
    }
}

/// Where a one-step cursor move up lands.
pub open spec fn spec_moved_up(sel: Option<usize>, n: nat) -> Option<usize> {
    if n == 0 {
        sel
    } else {
        match sel {
            None => Some(0usize),
            Some(idx) => if idx == 0 {
                Some(0usize)
            } else {
                Some((idx - 1) as usize)
            },
        }
    }
}

/// Where a one-step cursor move down lands.
pub open spec fn spec_moved_down(sel: Option<usize>, n: nat) -> Option<usize> {
    if n == 0 {
        sel
    } else {
        match sel {
            None => Some(0usize),
            Some(idx) => Some(crate::key::normal::spec_step_down(idx)),
        }
    }
}

/// What one key event settles to in the base folder view, per its key
/// table: the final base state, the final data, and the floats pushed onto
/// the (empty) stack.
pub open spec fn folder_view_settled(
    key: KeyPress,
    s0: FolderNormalState,
    d0: Seq<LinkDirView>,
    d1: Seq<LinkDirView>,
    st1: AppState,
    floats1: Seq<Float>,
) -> bool {
    match spec_normal_folder_key_message(key) {
        None => d1 == d0 && (st1 matches AppState::Normal(NormalState::Folder(s1)) && s1.selected
            == s0.selected) && floats1 == Seq::<Float>::empty(),
        Some(NormalFolderMessage::Quit) => d1 == d0 && floats1 == Seq::<Float>::empty() && (
        st1 matches AppState::Quit(t) && t.link is None && t.config is None && t.data is None),
        Some(NormalFolderMessage::Select) => d1 == d0 && floats1 == Seq::<Float>::empty()
            && match s0.selected {
            None => st1 matches AppState::Normal(NormalState::Folder(s1)) && s1.selected == Some(
                0usize,
            ),
            Some(idx) => if d0.len() == 0 {
                st1 matches AppState::Normal(NormalState::Folder(s1)) && s1.selected == s0.selected
            } else if idx < d0.len() {
                st1 == AppState::Normal(
                    NormalState::Link(
                        LinkNormalState {
                            folder_state: FolderNormalState { selected: Some(idx) },
                            selected: Some(0usize),
                        },
                    ),
                )
            } else {
                st1 matches AppState::Normal(NormalState::Folder(s1)) && s1.selected == Some(
                    (d0.len() - 1) as usize,
                )
            },
        },
        Some(NormalFolderMessage::MoveUp) => d1 == d0 && floats1 == Seq::<Float>::empty() && (
        st1 matches AppState::Normal(NormalState::Folder(s1)) && s1.selected == spec_moved_up(
            s0.selected,
            d0.len(),
        )),
        Some(NormalFolderMessage::MoveDown) => d1 == d0 && floats1 == Seq::<Float>::empty() && (
        st1 matches AppState::Normal(NormalState::Folder(s1)) && s1.selected == spec_moved_down(
            s0.selected,
            d0.len(),
        )),
        Some(NormalFolderMessage::SwitchUp) => floats1 == Seq::<Float>::empty() && (
        match s0.selected {
            None => d1 == d0 && (st1 matches AppState::Normal(NormalState::Folder(s1))
                && s1.selected == (if d0.len() == 0 {
                s0.selected
            } else {
                Some(0usize)
            })),
            Some(idx) => if 0 < idx < d0.len() {
                d1 == d0.update(idx as int, d0[idx - 1]).update(idx - 1, d0[idx as int]) && (
                st1 matches AppState::Normal(NormalState::Folder(s1)) && s1.selected == Some(
                    (idx - 1) as usize,
                ))
            } else {
                d1 == d0 && (st1 matches AppState::Normal(NormalState::Folder(s1)) && s1.selected
                    == s0.selected)
            },
        }),
        Some(NormalFolderMessage::SwitchDown) => floats1 == Seq::<Float>::empty() && (
        match s0.selected {
            None => d1 == d0 && (st1 matches AppState::Normal(NormalState::Folder(s1))
                && s1.selected == (if d0.len() == 0 {
                s0.selected
            } else {
                Some(0usize)
            })),
            Some(idx) => if idx + 1 < d0.len() {
                d1 == d0.update(idx as int, d0[idx + 1]).update(idx + 1, d0[idx as int]) && (
                st1 matches AppState::Normal(NormalState::Folder(s1)) && s1.selected == Some(
                    crate::key::normal::spec_step_down(idx),
                ))
            } else {
                d1 == d0 && (st1 matches AppState::Normal(NormalState::Folder(s1)) && s1.selected
                    == s0.selected)
            },
        }),
        Some(NormalFolderMessage::Append) => d1 == d0 && (st1 matches AppState::Normal(
            NormalState::Folder(s1),
        ) && s1.selected == s0.selected) && floats1.len() == 1 && (floats1[0] matches Float::FolderEdit(e) && e.selected is None
            && e.mode == InputMode::Editing && crate::input::input_chars(e.input)
            == Seq::<char>::empty()),
        Some(NormalFolderMessage::Rename) => d1 == d0 && (st1 matches AppState::Normal(
            NormalState::Folder(s1),
        ) && s1.selected == s0.selected) && match s0.selected {
            Some(idx) => if idx < d0.len() {
                floats1.len() == 1 && (floats1[0] matches Float::FolderEdit(e) && e.selected
                    == Some(idx) && e.mode == InputMode::Editing && crate::input::input_chars(
                    e.input,
                ) == d0[idx as int].identifier)
            } else {
                floats1 == Seq::<Float>::empty()
            },
            None => floats1 == Seq::<Float>::empty(),
        },
        Some(NormalFolderMessage::Remove) => d1 == d0 && (st1 matches AppState::Normal(
            NormalState::Folder(s1),
        ) && s1.selected == s0.selected) && match s0.selected {
            Some(idx) => if idx < d0.len() {
                floats1 == seq![
                    Float::FolderDeleteConfirm(
                        crate::float::confirm::FolderDeleteConfirmState {
                            choice: crate::float::confirm::ConfirmChoice::No,
                            target: idx,
                        },
                    ),
                ]
            } else {
                floats1 == Seq::<Float>::empty()
            },
            None => floats1 == Seq::<Float>::empty(),
        },
        _ => true,
    }
}

/// What one key event settles to in the base link view, per its key table.
/// Picking a valid link is the success path: the application quits carrying
/// that link.
pub open spec fn link_view_settled(
    key: KeyPress,
    s0: LinkNormalState,
    d0: Seq<LinkDirView>,
    d1: Seq<LinkDirView>,
    st1: AppState,
    floats1: Seq<Float>,
) -> bool {
    let from = s0.spec_folder_index();
    let links0 = d0[from as int].links;
    match spec_normal_link_key_message(key) {
        None => d1 == d0 && (st1 matches AppState::Normal(NormalState::Link(s1)) && s1.folder_state
            == s0.folder_state && s1.selected == s0.selected) && floats1 == Seq::<Float>::empty(),
        Some(NormalLinkMessage::Quit) => d1 == d0 && floats1 == Seq::<Float>::empty() && (
        st1 matches AppState::Quit(t) && t.link is None && t.config is None && t.data is None),
        Some(NormalLinkMessage::Back) => d1 == d0 && floats1 == Seq::<Float>::empty() && st1
            == AppState::Normal(
            NormalState::Folder(FolderNormalState { selected: Some(from) }),
        ),
        Some(NormalLinkMessage::Select) => d1 == d0 && floats1 == Seq::<Float>::empty()
            && match s0.selected {
            None => st1 matches AppState::Normal(NormalState::Link(s1)) && s1.folder_state
                == s0.folder_state && s1.selected == Some(0usize),
            Some(idx) => if links0.len() == 0 {
                st1 matches AppState::Normal(NormalState::Link(s1)) && s1.folder_state
                    == s0.folder_state && s1.selected == s0.selected
            } else if idx < links0.len() {
                st1 matches AppState::Quit(t) && (t.link matches Some(l) && l@
                    == links0[idx as int]) && t.config is None && t.data is None
            } else {
                st1 matches AppState::Normal(NormalState::Link(s1)) && s1.folder_state
                    == s0.folder_state && s1.selected == Some((links0.len() - 1) as usize)
            },
        },
        Some(NormalLinkMessage::MoveUp) => d1 == d0 && floats1 == Seq::<Float>::empty() && (
        st1 matches AppState::Normal(NormalState::Link(s1)) && s1.folder_state == s0.folder_state
            && s1.selected == spec_moved_up(s0.selected, links0.len())),
        Some(NormalLinkMessage::MoveDown) => d1 == d0 && floats1 == Seq::<Float>::empty() && (
        st1 matches AppState::Normal(NormalState::Link(s1)) && s1.folder_state == s0.folder_state
            && s1.selected == spec_moved_down(s0.selected, links0.len())),
        Some(NormalLinkMessage::SwitchUp) => floats1 == Seq::<Float>::empty() && (
        match s0.selected {
            None => d1 == d0 && (st1 matches AppState::Normal(NormalState::Link(s1))
                && s1.folder_state == s0.folder_state && s1.selected == (if links0.len() == 0 {
                s0.selected
            } else {
                Some(0usize)
            })),
            Some(idx) => if 0 < idx < links0.len() {
                d1 == d0.update(
                    from as int,
                    LinkDirView {
                        identifier: d0[from as int].identifier,
                        links: links0.update(idx as int, links0[idx - 1]).update(
                            idx - 1,
                            links0[idx as int],
                        ),
                    },
                ) && (st1 matches AppState::Normal(NormalState::Link(s1)) && s1.folder_state
                    == s0.folder_state && s1.selected == Some((idx - 1) as usize))
            } else {
                d1 == d0 && (st1 matches AppState::Normal(NormalState::Link(s1)) && s1.folder_state
                    == s0.folder_state && s1.selected == s0.selected)
            },
        }),
        Some(NormalLinkMessage::SwitchDown) => floats1 == Seq::<Float>::empty() && (
        match s0.selected {
            None => d1 == d0 && (st1 matches AppState::Normal(NormalState::Link(s1))
                && s1.folder_state == s0.folder_state && s1.selected == (if links0.len() == 0 {
                s0.selected
            } else {
                Some(0usize)
            })),
            Some(idx) => if idx + 1 < links0.len() {
                d1 == d0.update(
                    from as int,
                    LinkDirView {
                        identifier: d0[from as int].identifier,
                        links: links0.update(idx as int, links0[idx + 1]).update(
                            idx + 1,
                            links0[idx as int],
                        ),
                    },
                ) && (st1 matches AppState::Normal(NormalState::Link(s1)) && s1.folder_state
                    == s0.folder_state && s1.selected == Some(crate::key::normal::spec_step_down(idx)))
            } else {
                d1 == d0 && (st1 matches AppState::Normal(NormalState::Link(s1)) && s1.folder_state
                    == s0.folder_state && s1.selected == s0.selected)
            },
        }),
        Some(NormalLinkMessage::Append) => d1 == d0 && (st1 matches AppState::Normal(
            NormalState::Link(s1),
        ) && s1.folder_state == s0.folder_state && s1.selected == s0.selected) && floats1.len() == 1 && (floats1[0] matches Float::LinkEdit(e) && e.from == from
            && e.selected is None && e.mode == InputMode::Editing && e.part == InputPart::Key
            && crate::input::input_chars(e.input.0) == Seq::<char>::empty()
            && crate::input::input_chars(e.input.1) == Seq::<char>::empty()),
        Some(NormalLinkMessage::Rename) => d1 == d0 && (st1 matches AppState::Normal(
            NormalState::Link(s1),
        ) && s1.folder_state == s0.folder_state && s1.selected == s0.selected) && match s0.selected {
            Some(idx) => if idx < links0.len() {
                floats1.len() == 1 && (floats1[0] matches Float::LinkEdit(e) && e.from == from
                    && e.selected == Some(idx) && e.mode == InputMode::Editing && e.part
                    == InputPart::Key && crate::input::input_chars(e.input.0)
                    == links0[idx as int].identifier && crate::input::input_chars(e.input.1)
                    == links0[idx as int].path)
            } else {
                floats1 == Seq::<Float>::empty()
            },
            None => floats1 == Seq::<Float>::empty(),
        },
        Some(NormalLinkMessage::Remove) => d1 == d0 && (st1 matches AppState::Normal(
            NormalState::Link(s1),
        ) && s1.folder_state == s0.folder_state && s1.selected == s0.selected) && match s0.selected {
            Some(idx) => if idx < links0.len() {
                floats1 == seq![
                    Float::LinkDeleteConfirm(
                        crate::float::confirm::LinkDeleteConfirmState {
                            choice: crate::float::confirm::ConfirmChoice::No,
                            target: idx,
                            dir_idx: from,
                        },
                    ),
                ]
            } else {
                floats1 == Seq::<Float>::empty()
            },
            None => floats1 == Seq::<Float>::empty(),
        },
        _ => true,
    }
}

/// Handles one key event in the base view, with no float present: the key
/// table picks the initial message, the per-kind handlers run to a settled
/// state within three steps, and the resulting state change and float are
/// applied to the application — per [`folder_view_settled`] and
/// [`link_view_settled`]. In the terminal quit state nothing changes.
pub fn handle_key_event_basic(app: &mut App, key: KeyPress)
    requires
        old(app).wf(),
        old(app).spec_floats().len() == 0,
    ensures
        final(app).wf(),
        final(app).option == old(app).option,
        final(app).cache == old(app).cache,
        final(app).spec_floats().len() <= 1,
        old(app).state is Quit ==> *final(app) == *old(app),
        old(app).state matches AppState::Normal(NormalState::Folder(s0)) ==> folder_view_settled(
            key,
            s0,
            old(app).data@,
            final(app).data@,
            final(app).state,
            final(app).spec_floats(),
        ),
        old(app).state matches AppState::Normal(NormalState::Link(s0)) ==> link_view_settled(
            key,
            s0,
            old(app).data@,
            final(app).data@,
            final(app).state,
            final(app).spec_floats(),
        ),
{
    let folder_state_opt: Option<FolderNormalState> = match &app.state {
        AppState::Normal(NormalState::Folder(s)) => Some(*s),
        _ => None,
    };
    let link_state_opt: Option<LinkNormalState> = match &app.state {
        AppState::Normal(NormalState::Link(s)) => Some(*s),
        _ => None,
    };
    if let Some(st0) = folder_state_opt {
        let mut state = st0;
        let mut opt_msg = handle_normal_folder_key_event(key);
        let mut opt_mod: Option<AppState> = None;
        let mut float: Option<Float> = None;
        if opt_msg.is_some() {
            let msg = opt_msg.unwrap();
            let updater = handle_normal_folder_message(&mut state, &mut app.data, msg);
            opt_msg = updater.message;
            opt_mod = updater.state;
            float = updater.float;
        }
        if opt_msg.is_some() {
            let msg = opt_msg.unwrap();
            let updater = handle_normal_folder_message(&mut state, &mut app.data, msg);
            opt_msg = updater.message;
            opt_mod = updater.state;
            float = updater.float;
        }
        if opt_msg.is_some() {
            let msg = opt_msg.unwrap();
            let updater = handle_normal_folder_message(&mut state, &mut app.data, msg);
            opt_msg = updater.message;
            opt_mod = updater.state;
            float = updater.float;
        }
        proof {
            assert(opt_msg is None);
        }
        match opt_mod {
            Some(st) => app.set_state(st),
            None => app.set_state(AppState::Normal(NormalState::Folder(state))),
        }
        if let Some(f) = float {
            let ghost gf = f;
            app.add_float(f);
            proof {
                assert forall|i: int| 0 <= i < app.spec_floats().len() implies float_wf(
                    #[trigger] app.spec_floats()[i],
                    app.data@,
                ) by {
                    assert(app.spec_floats()[i] == gf);
                }
                assert(app.spec_floats() =~= seq![gf]);
            }
        } else {
            proof {
                assert(app.spec_floats() =~= Seq::<Float>::empty());
            }
        }
    } else if let Some(st0) = link_state_opt {
        let mut state = st0;
        let mut opt_msg = handle_normal_link_key_event(key);
        let mut opt_mod: Option<AppState> = None;
        let mut float: Option<Float> = None;
        if opt_msg.is_some() {
            let msg = opt_msg.unwrap();
            let idx = state.folder_index();
            let ghost mid = app.data@;
            let dir = app.data.dir_mut(idx);
            let updater = handle_normal_link_message(&mut state, dir, msg);
            proof {
                assert(app.data.wf()) by {
                    assert forall|i: int|
                        0 <= i < app.data@.len() implies crate::data::dir::dir_view_wf(
                        #[trigger] app.data@[i],
                    ) by {
                        if i != idx as int {
                            assert(app.data@[i] == mid[i]);
                        }
                    }
                    assert forall|i: int, j: int|
                        #![trigger app.data@[i], app.data@[j]]
                        0 <= i < j < app.data@.len() implies app.data@[i].identifier
                        != app.data@[j].identifier by {
                        assert(mid[i].identifier != mid[j].identifier);
                        assert(app.data@[i].identifier == mid[i].identifier);
                        assert(app.data@[j].identifier == mid[j].identifier);
                    }
                }
                assert forall|k: int|
                    0 <= k < old(app).data@.len() && k != state.spec_folder_index() implies app.data@[k]
                    == old(app).data@[k] by {
                    assert(app.data@[k] == mid[k]);
                }
                if app.data@[idx as int] == mid[idx as int] {
                    assert(app.data@ =~= mid);
                }
            }
            opt_msg = updater.message;
            opt_mod = updater.state;
            float = updater.float;
        }
        if opt_msg.is_some() {
            let msg = opt_msg.unwrap();
            let idx = state.folder_index();
            let ghost mid = app.data@;
            let dir = app.data.dir_mut(idx);
            let updater = handle_normal_link_message(&mut state, dir, msg);
            proof {
                assert(app.data.wf()) by {
                    assert forall|i: int|
                        0 <= i < app.data@.len() implies crate::data::dir::dir_view_wf(
                        #[trigger] app.data@[i],
                    ) by {
                        if i != idx as int {
                            assert(app.data@[i] == mid[i]);
                        }
                    }
                    assert forall|i: int, j: int|
                        #![trigger app.data@[i], app.data@[j]]
                        0 <= i < j < app.data@.len() implies app.data@[i].identifier
                        != app.data@[j].identifier by {
                        assert(mid[i].identifier != mid[j].identifier);
                        assert(app.data@[i].identifier == mid[i].identifier);
                        assert(app.data@[j].identifier == mid[j].identifier);
                    }
                }
                assert forall|k: int|
                    0 <= k < old(app).data@.len() && k != state.spec_folder_index() implies app.data@[k]
                    == old(app).data@[k] by {
                    assert(app.data@[k] == mid[k]);
                }
                if app.data@[idx as int] == mid[idx as int] {
                    assert(app.data@ =~= mid);
                }
            }
            opt_msg = updater.message;
            opt_mod = updater.state;
            float = updater.float;
        }
        if opt_msg.is_some() {
            let msg = opt_msg.unwrap();
            let idx = state.folder_index();
            let ghost mid = app.data@;
            let dir = app.data.dir_mut(idx);
            let updater = handle_normal_link_message(&mut state, dir, msg);
            proof {
                assert(app.data.wf()) by {
                    assert forall|i: int|
                        0 <= i < app.data@.len() implies crate::data::dir::dir_view_wf(
                        #[trigger] app.data@[i],
                    ) by {
                        if i != idx as int {
                            assert(app.data@[i] == mid[i]);
                        }
                    }
                    assert forall|i: int, j: int|
                        #![trigger app.data@[i], app.data@[j]]
                        0 <= i < j < app.data@.len() implies app.data@[i].identifier
                        != app.data@[j].identifier by {
                        assert(mid[i].identifier != mid[j].identifier);
                        assert(app.data@[i].identifier == mid[i].identifier);
                        assert(app.data@[j].identifier == mid[j].identifier);
                    }
                }
                assert forall|k: int|
                    0 <= k < old(app).data@.len() && k != state.spec_folder_index() implies app.data@[k]
                    == old(app).data@[k] by {
                    assert(app.data@[k] == mid[k]);
                }
                if app.data@[idx as int] == mid[idx as int] {
                    assert(app.data@ =~= mid);
                }
            }
            opt_msg = updater.message;
            opt_mod = updater.state;
            float = updater.float;
        }
        proof {
            assert(opt_msg is None);
        }
        match opt_mod {
            Some(st) => app.set_state(st),
            None => app.set_state(AppState::Normal(NormalState::Link(state))),
        }
        if let Some(f) = float {
            let ghost gf = f;
            app.add_float(f);
            proof {
                assert forall|i: int| 0 <= i < app.spec_floats().len() implies float_wf(
                    #[trigger] app.spec_floats()[i],
                    app.data@,
                ) by {
                    assert(app.spec_floats()[i] == gf);
                }
                assert(app.spec_floats() =~= seq![gf]);
            }
        } else {
            proof {
                assert(app.spec_floats() =~= Seq::<Float>::empty());
            }
        }
    }
}

/// Applies a float handler's result to the stack: the handled float comes
/// back first, the newly spawned one on top.
fn apply_float_action(app: &mut App, result: FloatActionResult)
    requires
        old(app).wf(),
        result.primary matches Some(f) ==> float_wf(f, old(app).data@),
        result.new matches Some(f) ==> float_wf(f, old(app).data@) && !is_delete_confirm(f),
        forall|i: int|
            0 <= i < old(app).spec_floats().len() ==> !is_delete_confirm(
                #[trigger] old(app).spec_floats()[i],
            ),
        (match result.primary {
            Some(f) => is_delete_confirm(f) ==> old(app).spec_floats().len() == 0 && result.new
                is None,
            None => true,
        }),
    ensures
        final(app).wf(),
        final(app).state == old(app).state,
        final(app).data == old(app).data,
        final(app).option == old(app).option,
        final(app).cache == old(app).cache,
        final(app).spec_floats() == old(app).spec_floats() + crate::app::opt_float_seq(
            result.primary,
        ) + crate::app::opt_float_seq(result.new),
{
    let ghost pre = app.spec_floats();
    let ghost gp = result.primary;
    let ghost gn = result.new;
    app.extend_float(result);
    proof {
        let post = app.spec_floats();
        assert forall|i: int| 0 <= i < post.len() implies float_wf(
            #[trigger] post[i],
            app.data@,
        ) by {
            if i < pre.len() {
                assert(post[i] == pre[i]);
            } else if gp is Some && i == pre.len() {
                assert(post[i] == gp->0);
            } else {
                assert(post[i] == gn->0);
            }
        }
        assert forall|i: int|
            0 <= i < post.len() && is_delete_confirm(#[trigger] post[i]) implies post.len()
            == 1 by {
            if i < pre.len() {
                assert(post[i] == pre[i]);
            } else if gp is Some && i == pre.len() {
                assert(post[i] == gp->0);
            } else {
                assert(post[i] == gn->0);
            }
        }
    }
}

/// The whole effect of one key event dispatched to one float, the sole
/// input consumer: per kind, the application transition its handler
/// guarantees, and the float stack extended by exactly what the handler
/// left behind — the handled float first, a newly spawned float on top.
pub open spec fn float_dispatched(
    key: KeyPress,
    float: Float,
    st0: AppState,
    d0: LinkDirSet,
    save0: bool,
    cache0: crate::app::data::AppData,
    st1: AppState,
    d1: LinkDirSet,
    save1: bool,
    cache1: crate::app::data::AppData,
    floats0: Seq<Float>,
    floats1: Seq<Float>,
) -> bool {
    match float {
        Float::FolderEdit(st) => save1 == save0 && exists|r: FloatActionResult|
            #[trigger] crate::key::edit::folder_edit_key_post(key, st, st0, d0, st1, d1, r)
                && floats1 == floats0 + crate::app::opt_float_seq(r.primary)
                + crate::app::opt_float_seq(r.new),
        Float::LinkEdit(st) => save1 == save0 && exists|r: FloatActionResult|
            #[trigger] crate::key::edit::link_edit_key_post(key, st, st0, d0, st1, d1, r)
                && floats1 == floats0 + crate::app::opt_float_seq(r.primary)
                + crate::app::opt_float_seq(r.new),
        Float::FolderDeleteConfirm(st) => save1 == save0 && cache1 == cache0 && exists|
            r: FloatActionResult,
        |
            #[trigger] crate::key::float::folder_delete_key_post(key, st, st0, d0, st1, d1, r)
                && floats1 == floats0 + crate::app::opt_float_seq(r.primary)
                + crate::app::opt_float_seq(r.new),
        Float::LinkDeleteConfirm(st) => save1 == save0 && cache1 == cache0 && exists|
            r: FloatActionResult,
        |
            #[trigger] crate::key::float::link_delete_key_post(key, st, st0, d0, st1, d1, r)
                && floats1 == floats0 + crate::app::opt_float_seq(r.primary)
                + crate::app::opt_float_seq(r.new),
        Float::FolderSaveConfirm(st) => save1 == save0 && cache1 == cache0 && exists|
            r: FloatActionResult,
        |
            #[trigger] crate::key::float::folder_save_key_post(key, st, st0, d0, st1, d1, r)
                && floats1 == floats0 + crate::app::opt_float_seq(r.primary)
                + crate::app::opt_float_seq(r.new),
        Float::LinkSaveConfirm(st) => save1 == save0 && cache1 == cache0 && exists|
            r: FloatActionResult,
        |
            #[trigger] crate::key::float::link_save_key_post(key, st, st0, d0, st1, d1, r)
                && floats1 == floats0 + crate::app::opt_float_seq(r.primary)
                + crate::app::opt_float_seq(r.new),
        Float::Warning(st) => st1 == st0 && d1 == d0 && save1 == save0 && cache1 == cache0
            && exists|r: FloatActionResult|
            #[trigger] crate::key::float::warning_key_post(key, st, r) && floats1 == floats0
                + crate::app::opt_float_seq(r.primary) + crate::app::opt_float_seq(r.new),
        Float::Help(st) => st1 == st0 && d1 == d0 && save1 == save0 && cache1 == cache0 && exists|
            r: FloatActionResult,
        |
            #[trigger] crate::key::float::help_key_post(key, st, r) && floats1 == floats0
                + crate::app::opt_float_seq(r.primary) + crate::app::opt_float_seq(r.new),
        Float::CorruptDataWarning(st) => cache1 == cache0 && exists|r: FloatActionResult|
            #[trigger] crate::key::float::corrupt_data_key_post(
                key,
                st,
                st0,
                d0,
                st1,
                d1,
                save0,
                save1,
                r,
            ) && floats1 == floats0 + crate::app::opt_float_seq(r.primary)
                + crate::app::opt_float_seq(r.new),
    }
}

/// Handles one key event through the topmost float, which has already been
/// popped from the stack: the float's own loop runs to a settled state,
/// and what it leaves behind is pushed back, per [`float_dispatched`].
pub fn handle_key_event_float(app: &mut App, key: KeyPress, float: Float)
    requires
        old(app).wf(),
        float_wf(float, old(app).data@),
        forall|i: int|
            0 <= i < old(app).spec_floats().len() ==> !is_delete_confirm(
                #[trigger] old(app).spec_floats()[i],
            ),
        is_delete_confirm(float) ==> old(app).spec_floats().len() == 0,
    ensures
        final(app).wf(),
        float_dispatched(
            key,
            float,
            old(app).state,
            old(app).data,
            old(app).option.save,
            old(app).cache,
            final(app).state,
            final(app).data,
            final(app).option.save,
            final(app).cache,
            old(app).spec_floats(),
            final(app).spec_floats(),
        ),
{
    match float {
        Float::FolderEdit(state) => {
            let result = crate::key::edit::handle_edit_folder_key(app, key, state);
            apply_float_action(app, result);
        },
        Float::LinkEdit(state) => {
            let result = crate::key::edit::handle_edit_link_key(app, key, state);
            apply_float_action(app, result);
        },
        Float::FolderDeleteConfirm(state) => {
            let result = crate::key::float::handle_folder_delete_confirm_key(app, key, state);
            apply_float_action(app, result);
        },
        Float::LinkDeleteConfirm(state) => {
            let result = crate::key::float::handle_link_delete_confirm_key(app, key, state);
            apply_float_action(app, result);
        },
        Float::Warning(state) => {
            let result = crate::key::float::handle_warning_key(app, key, state);
            apply_float_action(app, result);
        },
        Float::FolderSaveConfirm(state) => {
            let result = crate::key::float::handle_folder_save_confirm_key(app, key, state);
            apply_float_action(app, result);
        },
        Float::LinkSaveConfirm(state) => {
            let result = crate::key::float::handle_link_save_confirm_key(app, key, state);
            apply_float_action(app, result);
        },
        Float::CorruptDataWarning(state) => {
            let result = crate::key::float::handle_corrupt_data_warning_key(app, key, state);
            apply_float_action(app, result);
        },
        Float::Help(state) => {
            let result = crate::key::float::handle_help_key(app, key, state);
            apply_float_action(app, result);
        },
    }
}

/// Handles one key event: exactly one consumer takes it. When a float is
/// present, the topmost one is popped and handled per [`float_dispatched`]
/// — the rest of the stack sits untouched beneath whatever it leaves
/// behind, and no base-view handler runs. Otherwise the base view takes
/// the key per [`folder_view_settled`] and [`link_view_settled`], and in
/// the terminal quit state nothing changes at all.
pub fn handle_key_event(app: &mut App, key: KeyPress)
    requires
        old(app).wf(),
    ensures
        final(app).wf(),
        old(app).spec_floats().len() == 0 ==> {
            &&& final(app).spec_floats().len() <= 1
            &&& final(app).option == old(app).option
            &&& final(app).cache == old(app).cache
            &&& (old(app).state is Quit ==> final(app).state == old(app).state && final(app).data
                == old(app).data && final(app).spec_floats() == old(app).spec_floats())
            &&& (old(app).state matches AppState::Normal(NormalState::Folder(s0))
                ==> folder_view_settled(
                key,
                s0,
                old(app).data@,
                final(app).data@,
                final(app).state,
                final(app).spec_floats(),
            ))
            &&& (old(app).state matches AppState::Normal(NormalState::Link(s0))
                ==> link_view_settled(
                key,
                s0,
                old(app).data@,
                final(app).data@,
                final(app).state,
                final(app).spec_floats(),
            ))
        },
        old(app).spec_floats().len() > 0 ==> float_dispatched(
            key,
            old(app).spec_floats().last(),
            old(app).state,
            old(app).data,
            old(app).option.save,
            old(app).cache,
            final(app).state,
            final(app).data,
            final(app).option.save,
            final(app).cache,
            old(app).spec_floats().drop_last(),
            final(app).spec_floats(),
        ),
{
    let popped = app.get_float();
    proof {
        if old(app).spec_floats().len() > 0 {
            let pre = old(app).spec_floats();
            assert(float_wf(pre[pre.len() - 1], app.data@));
            assert forall|i: int| 0 <= i < app.spec_floats().len() implies !is_delete_confirm(
                #[trigger] app.spec_floats()[i],
            ) by {
                assert(app.spec_floats()[i] == pre[i]);
                if is_delete_confirm(pre[i]) {
                    assert(pre.len() == 1);
                }
            }
            if is_delete_confirm(pre[pre.len() - 1]) {
                assert(pre.len() == 1);
            }
        }
    }
    match popped {
        None => handle_key_event_basic(app, key),
        Some(float) => handle_key_event_float(app, key, float),
    }
}

} // verus!
