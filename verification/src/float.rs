//! The float stack's element type: the closed set of modal overlays, and
//! the result a float handler returns to the stack.

pub mod confirm;
pub mod edit;
pub mod help;
pub mod warning;

use vstd::prelude::*;

use crate::data::dir::LinkDirView;
use crate::float::confirm::{
    FolderDeleteConfirmState, FolderSaveConfirmState, LinkDeleteConfirmState, LinkSaveConfirmState,
};
use crate::float::edit::{FolderEditState, LinkEditState};
use crate::float::help::HelpState;
use crate::float::warning::{CorruptDataWarningState, WarningState};

verus! {

/// Marks the local state a float variant owns.
pub trait FloatState {

}

/// One modal overlay. Only the topmost float of the stack receives input.
pub enum Float {
    LinkEdit(LinkEditState),
    FolderEdit(FolderEditState),
    FolderDeleteConfirm(FolderDeleteConfirmState),
    LinkDeleteConfirm(LinkDeleteConfirmState),
    Warning(WarningState),
    FolderSaveConfirm(FolderSaveConfirmState),
    LinkSaveConfirm(LinkSaveConfirmState),
    CorruptDataWarning(CorruptDataWarningState),
    Help(HelpState),
}

/// Whether a folder edit dialog's indices lie within the collection.
pub open spec fn folder_edit_wf(e: FolderEditState, dirs: Seq<LinkDirView>) -> bool {
    e.selected matches Some(i) ==> i < dirs.len()
}

/// Whether a link edit dialog's indices lie within the collection: its
/// folder exists, and the link it renames exists inside that folder.
pub open spec fn link_edit_wf(e: LinkEditState, dirs: Seq<LinkDirView>) -> bool {
    &&& e.from < dirs.len()
    &&& (e.selected matches Some(i) ==> i < dirs[e.from as int].links.len())
}

/// Whether a float's indices lie within the collection it will be resolved
/// against.
pub open spec fn float_wf(f: Float, dirs: Seq<LinkDirView>) -> bool {
    match f {
        Float::FolderEdit(e) => folder_edit_wf(e, dirs),
        Float::LinkEdit(e) => link_edit_wf(e, dirs),
        Float::FolderDeleteConfirm(c) => c.target < dirs.len(),
        Float::LinkDeleteConfirm(c) => c.dir_idx < dirs.len() && c.target < dirs[c.dir_idx as int].links.len(),
        Float::FolderSaveConfirm(c) => folder_edit_wf(c.last_state, dirs),
        Float::LinkSaveConfirm(c) => link_edit_wf(c.last_state, dirs),
        Float::Warning(_) => true,
        Float::CorruptDataWarning(_) => true,
        Float::Help(_) => true,
    }
}

/// A float that fit a collection still fits after the collection has only
/// grown: no folder disappears and no folder's links shrink.
pub proof fn lemma_float_wf_monotonic(f: Float, dirs0: Seq<LinkDirView>, dirs1: Seq<LinkDirView>)
    requires
        float_wf(f, dirs0),
        dirs1.len() >= dirs0.len(),
        forall|k: int|
            0 <= k < dirs0.len() ==> (#[trigger] dirs1[k]).links.len() >= dirs0[k].links.len(),
    ensures
        float_wf(f, dirs1),
{
}

/// Whether a float is one of the delete confirmations, which carry a
/// deferred removal.
pub open spec fn is_delete_confirm(f: Float) -> bool {
    f is FolderDeleteConfirm || f is LinkDeleteConfirm
}

/// What one float handler hands back to the stack: the handled float
/// itself, if its flow goes on, and a newly spawned float to sit on top.
pub struct FloatActionResult {
    pub primary: Option<Float>,
    pub new: Option<Float>,
}

impl FloatActionResult {
    pub fn new() -> (r: Self)
        ensures
            r.primary is None,
            r.new is None,
    {
        Self { primary: None, new: None }
    }

    pub fn with_primary(self, float: Float) -> (r: Self)
        ensures
            r == (FloatActionResult { primary: Some(float), ..self }),
    {
        Self { primary: Some(float), ..self }
    }

    pub fn with_new(self, float: Float) -> (r: Self)
        ensures
            r == (FloatActionResult { new: Some(float), ..self }),
    {
        Self { new: Some(float), ..self }
    }

    pub fn with_optional_primary(self, float: Option<Float>) -> (r: Self)
        ensures
            r == (FloatActionResult { primary: float, ..self }),
    {
        Self { primary: float, ..self }
    }

    pub fn with_optional_new(self, float: Option<Float>) -> (r: Self)
        ensures
            r == (FloatActionResult { new: float, ..self }),
    {
        Self { new: float, ..self }
    }
}

} // verus!
