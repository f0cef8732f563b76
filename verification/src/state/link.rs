//! The base view's right pane: the link list's cursor, scoped to the
//! folder it was entered from.

use vstd::prelude::*;

use crate::state::folder::FolderNormalState;

verus! {

/// The link list's selection cursor, together with the folder view it was
/// entered from. The folder cursor always points at some folder.
#[derive(Debug, Clone, Copy, PartialEq, Eq, Structural)]
pub struct LinkNormalState {
    pub folder_state: FolderNormalState,
    pub selected: Option<usize>,
}

impl LinkNormalState {
    /// The state's own invariant: the folder it is scoped to exists as a
    /// selection.
    pub open spec fn wf(&self) -> bool {
        self.folder_state.selected is Some
    }

    /// The folder this link view is scoped to.
    pub open spec fn spec_folder_index(&self) -> usize {
        self.folder_state.selected->0
    }

    /// A fresh link view inside the given folder, cursor seeded at the top.
    pub fn new(from: usize) -> (r: Self)
        ensures
            r.folder_state.selected == Some(from),
            r.selected == Some(0usize),
            r.wf(),
    {
        Self::with_selected(from, Some(0))
    }

    pub fn with_selected(from: usize, selected: Option<usize>) -> (r: Self)
        ensures
            r.folder_state.selected == Some(from),
            r.selected == selected,
            r.wf(),
    {
        Self { folder_state: FolderNormalState::with_selected(Some(from)), selected }
    }

    pub fn selected(&self) -> (r: Option<usize>)
        ensures
            r == self.selected,
    {
        self.selected
    }

    pub fn select(&mut self, selected: Option<usize>)
        ensures
            *final(self) == (LinkNormalState { selected, ..*old(self) }),
    {
        self.selected = selected;
    }

    pub fn folder_state(&self) -> (r: &FolderNormalState)
        ensures
            *r == self.folder_state,
    {
        &self.folder_state
    }

    pub fn folder_index(&self) -> (r: usize)
        requires
            self.wf(),
        ensures
            r == self.spec_folder_index(),
    {
        match self.folder_state.selected {
            Some(i) => i,
            None => 0,
        }
    }
}

} // verus!
