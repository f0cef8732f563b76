//! The library's laws: properties that relate several operations, stated
//! over the spec functions and views the operations' own contracts use.

use vstd::prelude::*;

use crate::data::dir::{dir_view_wf, LinkDirView};
use crate::data::dirset::{dirset_unique, dirset_view_wf};
use crate::float::confirm::{
    folder_save_resolution, link_save_resolution, ConfirmChoice, FolderSaveConfirmState,
    LinkSaveConfirmState,
};
use crate::float::edit::{FolderEditState, LinkEditState};
use crate::float::Float;
use crate::message::{
    choose_msg_rank, confirm_msg_rank, edit_msg_rank, normal_folder_msg_rank,
    normal_link_msg_rank, warning_msg_rank, ChooseMessage, ConfirmMessage, EditMessage,
    NormalFolderMessage, NormalLinkMessage, WarningMessage,
};
use crate::state::common::InputMode;
use crate::state::AppState;

verus! {

/// Law: in a well-formed directory, no two live links share an identifier.
/// Every mutator of `LinkDir` keeps the directory well formed and fails
/// without mutating where success would break this, so the law holds after
/// any sequence of operations.
pub proof fn lemma_dir_identifiers_unique(d: LinkDirView, i: int, j: int)
    requires
        dir_view_wf(d),
        0 <= i < d.links.len(),
        0 <= j < d.links.len(),
        i != j,
    ensures
        d.links[i].identifier != d.links[j].identifier,
{
}

/// Law: in a well-formed collection, no two live directories share an
/// identifier; as above, the mutators of `LinkDirSet` keep this across any
/// sequence of operations.
pub proof fn lemma_dirset_identifiers_unique(dirs: Seq<LinkDirView>, i: int, j: int)
    requires
        dirset_view_wf(dirs),
        0 <= i < dirs.len(),
        0 <= j < dirs.len(),
        i != j,
    ensures
        dirs[i].identifier != dirs[j].identifier,
{
    assert(dirset_unique(dirs));
}

/// Law: exchanging two positions is its own inverse. Applying the update
/// that `swap` performs twice over gives back the original sequence.
pub proof fn lemma_swap_involutive<T>(s: Seq<T>, a: int, b: int)
    requires
        0 <= a < s.len(),
        0 <= b < s.len(),
    ensures
        ({
            let once = s.update(a, s[b]).update(b, s[a]);
            once.update(a, once[b]).update(b, once[a]) == s
        }),
{
    let once = s.update(a, s[b]).update(b, s[a]);
    assert(once.update(a, once[b]).update(b, once[a]) =~= s);
}

/// Law: removing one position keeps every other element and their relative
/// order. Elements before the removed position keep their index; elements
/// after it shift down by one; the order of any two survivors is
/// unchanged.
pub proof fn lemma_remove_preserves_order<T>(s: Seq<T>, x: int, i: int, j: int)
    requires
        0 <= x < s.len(),
        0 <= i < s.len(),
        0 <= j < s.len(),
        i < j,
        i != x,
        j != x,
    ensures
        ({
            let r = s.remove(x);
            let i2 = if i < x { i } else { i - 1 };
            let j2 = if j < x { j } else { j - 1 };
            i2 < j2 && r[i2] == s[i] && r[j2] == s[j]
        }),
{
}

/// Law: every message chain settles within a fixed small bound. Each
/// dispatch loop proves termination by the rank of its pending message —
/// every handler either emits no follow-up or one of strictly smaller rank
/// under the new state, per the handlers' contracts — and no kind's rank
/// exceeds five, so one input event runs at most five handler invocations:
/// four chained messages after the initial translation, and fewer for
/// every kind but the edit dialogs.
pub proof fn lemma_chain_ranks_bounded(
    fm: NormalFolderMessage,
    lm: NormalLinkMessage,
    mode: InputMode,
    em: EditMessage,
    cm: ConfirmMessage,
    chm: ChooseMessage<bool>,
    wm: WarningMessage,
)
    ensures
        normal_folder_msg_rank(fm) <= 3,
        normal_link_msg_rank(lm) <= 3,
        edit_msg_rank(mode, em) <= 5,
        confirm_msg_rank(cm) <= 1,
        choose_msg_rank(chm) <= 2,
        warning_msg_rank(wm) <= 1,
{
}

/// Law: the save-confirm round trip restores the editor exactly. Quitting
/// an edit dialog with unsaved changes moves its whole state into a save
/// confirmation with `No` preselected (per the quit handlers' contracts),
/// and resolving that confirmation with `No` hands the very same state
/// back as the float to re-push, leaving the application otherwise
/// untouched.
pub proof fn lemma_folder_save_confirm_round_trip(e: FolderEditState, select: Option<usize>)
    ensures
        ({
            let spawned = FolderSaveConfirmState {
                choice: ConfirmChoice::No,
                last_state: e,
                select,
            };
            folder_save_resolution(spawned) == (
                Option::<AppState>::None,
                Some(Float::FolderEdit(e)),
            )
        }),
{
}

/// Law: the link editor's save-confirm round trip restores it exactly, as
/// [`lemma_folder_save_confirm_round_trip`] does for the folder editor.
pub proof fn lemma_link_save_confirm_round_trip(e: LinkEditState, select: Option<usize>)
    ensures
        ({
            let spawned = LinkSaveConfirmState { choice: ConfirmChoice::No, last_state: e, select };
            link_save_resolution(spawned) == (
                Option::<AppState>::None,
                Some(Float::LinkEdit(e)),
            )
        }),
{
}

} // verus!
