//! The base view's left pane: the folder list's cursor.

use vstd::prelude::*;

verus! {

/// The folder list's selection cursor. `None` means nothing has ever been
/// selected; the cursor may point past the end of the list, and every
/// operation that reads the data through it checks the bound first.
#[derive(Debug, Clone, Copy, PartialEq, Eq, Structural)]
pub struct FolderNormalState {
    pub selected: Option<usize>,
}

impl FolderNormalState {
    /// A fresh folder view with the cursor seeded at the top.
    pub fn new() -> (r: Self)
        ensures
            r.selected == Some(0usize),
    {
        Self::with_selected(Some(0))
    }

    pub fn with_selected(selected: Option<usize>) -> (r: Self)
        ensures
            r.selected == selected,
    {
        Self { selected }
    }

    pub fn selected(&self) -> (r: Option<usize>)
        ensures
            r == self.selected,
    {
        self.selected
    }

    pub fn select(&mut self, selected: Option<usize>)
        ensures
            final(self).selected == selected,
    {
        self.selected = selected;
    }
}

} // verus!
