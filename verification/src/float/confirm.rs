//! The confirmation floats: destructive deletes carrying a deferred
//! action, and save confirmations that own a suspended edit dialog.

use vstd::prelude::*;

use crate::app::App;
use crate::data::dir::LinkDir;
use crate::data::dirset::LinkDirSet;
use crate::float::edit::{FolderEditState, LinkEditState};
use crate::float::{Float, FloatState};
use crate::state::folder::FolderNormalState;
use crate::state::link::LinkNormalState;
use crate::state::{AppState, NormalState};

verus! {

/// A two-way confirmation choice; the default is the safe `No`.
#[derive(Debug, Clone, Copy, PartialEq, Eq, Structural, Default)]
pub enum ConfirmChoice {
    Yes,
    #[default]
    No,
}

/// A three-way confirmation choice; the default is `Cancel`.
#[derive(Debug, Clone, Copy, PartialEq, Eq, Structural, Default)]
pub enum ConfirmCancelChoice {
    Yes,
    No,
    #[default]
    Cancel,
}

/// Where the cursor lands after a removal: on the removed entry's position,
/// clamped to the new last entry (or the top of an emptied list).
pub open spec fn spec_reclamp(idx: usize, new_len: usize) -> usize {
    if idx < new_len {
        idx
    } else if new_len == 0 {
        0usize
    } else {
        (new_len - 1) as usize
    }
}

/// A confirmation for deleting one folder. It owns the deferred action as
/// a plain command value: the index to remove, interpreted by [`Self::call`]
/// only when the user has decided.
pub struct FolderDeleteConfirmState {
    pub choice: ConfirmChoice,
    pub target: usize,
}

impl FloatState for FolderDeleteConfirmState {

}

impl FolderDeleteConfirmState {
    /// A fresh confirmation for removing the folder at `target`; the
    /// default choice is `No`.
    pub fn new(target: usize) -> (r: Self)
        ensures
            r == (FolderDeleteConfirmState { choice: ConfirmChoice::No, target }),
    {
        Self { choice: ConfirmChoice::No, target }
    }

    pub fn with_choice(self, choice: ConfirmChoice) -> (r: Self)
        ensures
            r == (FolderDeleteConfirmState { choice, ..self }),
    {
        Self { choice, ..self }
    }

    pub fn choice(&self) -> (r: ConfirmChoice)
        ensures
            r == self.choice,
    {
        self.choice
    }

    pub fn switch_chioce(&mut self)
        ensures
            *final(self) == (FolderDeleteConfirmState {
                choice: if old(self).choice == ConfirmChoice::Yes {
                    ConfirmChoice::No
                } else {
                    ConfirmChoice::Yes
                },
                ..*old(self)
            }),
    {
        self.choice = match self.choice {
            ConfirmChoice::Yes => ConfirmChoice::No,
            ConfirmChoice::No => ConfirmChoice::Yes,
        }
    }

    pub fn change_choice(&mut self, choice: ConfirmChoice)
        ensures
            *final(self) == (FolderDeleteConfirmState { choice, ..*old(self) }),
    {
        self.choice = choice;
    }

    /// Interprets the deferred action with the chosen answer: `Yes` removes
    /// the target folder and re-clamps the cursor; `No` changes nothing at
    /// all.
    pub fn call(self, state: &mut FolderNormalState, data: &mut LinkDirSet)
        requires
            old(data).wf(),
            self.target < old(data)@.len(),
        ensures
            final(data).wf(),
            self.choice == ConfirmChoice::No ==> *final(data) == *old(data) && *final(state)
                == *old(state),
            self.choice == ConfirmChoice::Yes ==> final(data)@ == old(data)@.remove(
                self.target as int,
            ) && final(state).selected == Some(
                spec_reclamp(self.target, (old(data)@.len() - 1) as usize),
            ),
    {
        if self.choice == ConfirmChoice::No {
            return;
        }
        data.remove(self.target);
        let len = data.len();
        let new_sel: usize = if self.target < len {
            self.target
        } else if len == 0 {
            0
        } else {
            len - 1
        };
        state.select(Some(new_sel));
    }
}

/// A confirmation for deleting one link inside a folder. Besides the
/// target index it carries the owning folder's index, since the collection
/// it must mutate is nested one level down.
pub struct LinkDeleteConfirmState {
    pub choice: ConfirmChoice,
    pub target: usize,
    pub dir_idx: usize,
}

impl FloatState for LinkDeleteConfirmState {

}

impl LinkDeleteConfirmState {
    /// A fresh confirmation for removing the link at `target` inside the
    /// folder at `dir_idx`; the default choice is `No`.
    pub fn new(target: usize, dir_idx: usize) -> (r: Self)
        ensures
            r == (LinkDeleteConfirmState { choice: ConfirmChoice::No, target, dir_idx }),
    {
        Self { choice: ConfirmChoice::No, target, dir_idx }
    }

    pub fn with_choice(self, choice: ConfirmChoice) -> (r: Self)
        ensures
            r == (LinkDeleteConfirmState { choice, ..self }),
    {
        Self { choice, ..self }
    }

    pub fn choice(&self) -> (r: ConfirmChoice)
        ensures
            r == self.choice,
    {
        self.choice
    }

    pub fn dir_idx(&self) -> (r: usize)
        ensures
            r == self.dir_idx,
    {
        self.dir_idx
    }

    pub fn switch_chioce(&mut self)
        ensures
            *final(self) == (LinkDeleteConfirmState {
                choice: if old(self).choice == ConfirmChoice::Yes {
                    ConfirmChoice::No
                } else {
                    ConfirmChoice::Yes
                },
                ..*old(self)
            }),
    {
        self.choice = match self.choice {
            ConfirmChoice::Yes => ConfirmChoice::No,
            ConfirmChoice::No => ConfirmChoice::Yes,
        }
    }

    pub fn change_choice(&mut self, choice: ConfirmChoice)
        ensures
            *final(self) == (LinkDeleteConfirmState { choice, ..*old(self) }),
    {
        self.choice = choice;
    }

    /// Interprets the deferred action with the chosen answer: `Yes` removes
    /// the target link from the folder and re-clamps the cursor; `No`
    /// changes nothing at all.
    pub fn call(self, state: &mut LinkNormalState, data: &mut LinkDir)
        requires
            old(data).wf(),
            self.target < old(data)@.links.len(),
        ensures
            final(data).wf(),
            final(data)@.identifier == old(data)@.identifier,
            self.choice == ConfirmChoice::No ==> *final(data) == *old(data) && *final(state)
                == *old(state),
            self.choice == ConfirmChoice::Yes ==> final(data)@.links == old(data)@.links.remove(
                self.target as int,
            ) && *final(state) == (LinkNormalState {
                selected: Some(spec_reclamp(self.target, (old(data)@.links.len() - 1) as usize)),
                ..*old(state)
            }),
    {
        if self.choice == ConfirmChoice::No {
            return;
        }
        data.remove(self.target);
        let len = data.len();
        let new_sel: usize = if self.target < len {
            self.target
        } else if len == 0 {
            0
        } else {
            len - 1
        };
        state.select(Some(new_sel));
    }
}

/// What resolving a folder save-confirm dialog yields: `No` hands the
/// suspended editor back unchanged as a float to re-push; `Yes` discards it
/// and restores the base folder view at the pending selection.
pub open spec fn folder_save_resolution(s: FolderSaveConfirmState) -> (Option<AppState>, Option<
    Float,
>) {
    if s.choice == ConfirmChoice::No {
        (None, Some(Float::FolderEdit(s.last_state)))
    } else {
        (
            Some(AppState::Normal(NormalState::Folder(FolderNormalState { selected: s.select }))),
            None,
        )
    }
}

/// What resolving a link save-confirm dialog yields: `No` hands the
/// suspended editor back unchanged as a float to re-push; `Yes` discards it
/// and restores the base link view, in the editor's folder, at the pending
/// selection.
pub open spec fn link_save_resolution(s: LinkSaveConfirmState) -> (Option<AppState>, Option<
    Float,
>) {
    if s.choice == ConfirmChoice::No {
        (None, Some(Float::LinkEdit(s.last_state)))
    } else {
        (
            Some(
                AppState::Normal(
                    NormalState::Link(
                        LinkNormalState {
                            folder_state: FolderNormalState { selected: Some(s.last_state.from) },
                            selected: s.select,
                        },
                    ),
                ),
            ),
            None,
        )
    }
}

/// A save confirmation owning the whole suspended folder edit dialog and
/// the selection to restore if its changes are discarded.
pub struct FolderSaveConfirmState {
    pub choice: ConfirmChoice,
    pub last_state: FolderEditState,
    pub select: Option<usize>,
}

impl FloatState for FolderSaveConfirmState {

}

impl FolderSaveConfirmState {
    /// Takes ownership of the suspended editor; the default choice is `No`,
    /// the one that resumes it.
    pub fn new(state: FolderEditState, select: Option<usize>) -> (r: Self)
        ensures
            r == (FolderSaveConfirmState { choice: ConfirmChoice::No, last_state: state, select }),
    {
        Self { choice: ConfirmChoice::No, last_state: state, select }
    }

    pub fn with_choice(self, choice: ConfirmChoice) -> (r: Self)
        ensures
            r == (FolderSaveConfirmState { choice, ..self }),
    {
        Self { choice, ..self }
    }

    pub fn choice(&self) -> (r: ConfirmChoice)
        ensures
            r == self.choice,
    {
        self.choice
    }

    pub fn switch_chioce(&mut self)
        ensures
            *final(self) == (FolderSaveConfirmState {
                choice: if old(self).choice == ConfirmChoice::Yes {
                    ConfirmChoice::No
                } else {
                    ConfirmChoice::Yes
                },
                ..*old(self)
            }),
    {
        self.choice = match self.choice {
            ConfirmChoice::Yes => ConfirmChoice::No,
            ConfirmChoice::No => ConfirmChoice::Yes,
        }
    }

    pub fn change_choice(&mut self, choice: ConfirmChoice)
        ensures
            *final(self) == (FolderSaveConfirmState { choice, ..*old(self) }),
    {
        self.choice = choice;
    }

    pub fn last_state(&self) -> (r: &FolderEditState)
        ensures
            *r == self.last_state,
    {
        &self.last_state
    }

    pub fn last_state_mut(&mut self) -> (r: &mut FolderEditState)
        ensures
            *r == old(self).last_state,
            *final(self) == (FolderSaveConfirmState { last_state: *final(r), ..*old(self) }),
    {
        &mut self.last_state
    }

    pub fn select(&self) -> (r: Option<usize>)
        ensures
            r == self.select,
    {
        self.select
    }

    /// Resolves the dialog per [`folder_save_resolution`]: the suspended
    /// editor is moved back out on `No`, or dropped and the base view
    /// restored on `Yes`. Nothing else of the application changes.
    pub fn call(self, app: &mut App) -> (r: Option<Float>)
        requires
            old(app).wf(),
        ensures
            final(app).wf(),
            r == folder_save_resolution(self).1,
            final(app).state == (match folder_save_resolution(self).0 {
                Some(st) => st,
                None => old(app).state,
            }),
            final(app).data == old(app).data,
            final(app).option == old(app).option,
            final(app).cache == old(app).cache,
            final(app).spec_floats() == old(app).spec_floats(),
    {
        if self.choice == ConfirmChoice::No {
            return Some(Float::FolderEdit(self.last_state));
        }
        app.set_state(
            AppState::Normal(NormalState::Folder(FolderNormalState::with_selected(self.select))),
        );
        None
    }
}

/// A save confirmation owning the whole suspended link edit dialog and the
/// selection to restore if its changes are discarded.
pub struct LinkSaveConfirmState {
    pub choice: ConfirmChoice,
    pub last_state: LinkEditState,
    pub select: Option<usize>,
}

impl FloatState for LinkSaveConfirmState {

}

impl LinkSaveConfirmState {
    /// Takes ownership of the suspended editor; the default choice is `No`,
    /// the one that resumes it.
    pub fn new(state: LinkEditState, select: Option<usize>) -> (r: Self)
        ensures
            r == (LinkSaveConfirmState { choice: ConfirmChoice::No, last_state: state, select }),
    {
        Self { choice: ConfirmChoice::No, last_state: state, select }
    }

    pub fn with_choice(self, choice: ConfirmChoice) -> (r: Self)
        ensures
            r == (LinkSaveConfirmState { choice, ..self }),
    {
        Self { choice, ..self }
    }

    pub fn choice(&self) -> (r: ConfirmChoice)
        ensures
            r == self.choice,
    {
        self.choice
    }

    pub fn switch_chioce(&mut self)
        ensures
            *final(self) == (LinkSaveConfirmState {
                choice: if old(self).choice == ConfirmChoice::Yes {
                    ConfirmChoice::No
                } else {
                    ConfirmChoice::Yes
                },
                ..*old(self)
            }),
    {
        self.choice = match self.choice {
            ConfirmChoice::Yes => ConfirmChoice::No,
            ConfirmChoice::No => ConfirmChoice::Yes,
        }
    }

    pub fn change_choice(&mut self, choice: ConfirmChoice)
        ensures
            *final(self) == (LinkSaveConfirmState { choice, ..*old(self) }),
    {
        self.choice = choice;
    }

    pub fn last_state(&self) -> (r: &LinkEditState)
        ensures
            *r == self.last_state,
    {
        &self.last_state
    }

    pub fn last_state_mut(&mut self) -> (r: &mut LinkEditState)
        ensures
            *r == old(self).last_state,
            *final(self) == (LinkSaveConfirmState { last_state: *final(r), ..*old(self) }),
    {
        &mut self.last_state
    }

    pub fn select(&self) -> (r: Option<usize>)
        ensures
            r == self.select,
    {
        self.select
    }

    /// Resolves the dialog per [`link_save_resolution`]: the suspended
    /// editor is moved back out on `No`, or dropped and the base view
    /// restored on `Yes`. Nothing else of the application changes.
    pub fn call(self, app: &mut App) -> (r: Option<Float>)
        requires
            old(app).wf(),
            self.last_state.from < old(app).data@.len(),
        ensures
            final(app).wf(),
            r == link_save_resolution(self).1,
            final(app).state == (match link_save_resolution(self).0 {
                Some(st) => st,
                None => old(app).state,
            }),
            final(app).data == old(app).data,
            final(app).option == old(app).option,
            final(app).cache == old(app).cache,
            final(app).spec_floats() == old(app).spec_floats(),
    {
        if self.choice == ConfirmChoice::No {
            return Some(Float::LinkEdit(self.last_state));
        }
        app.set_state(
            AppState::Normal(
                NormalState::Link(
                    LinkNormalState::with_selected(self.last_state.from(), self.select),
                ),
            ),
        );
        None
    }
}

} // verus!
