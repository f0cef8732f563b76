//! The always-present base view beneath any floats, and the terminal quit
//! state.

pub mod common;
pub mod folder;
pub mod link;

use vstd::prelude::*;

use crate::app::data::DataTransfer;
use crate::data::dir::LinkDirView;
use crate::state::folder::FolderNormalState;
use crate::state::link::LinkNormalState;

verus! {

/// Whether a top-level state's indices lie within the collection: an
/// active link view must be scoped to a folder that exists.
pub open spec fn app_state_wf(st: AppState, dirs: Seq<LinkDirView>) -> bool {
    st matches AppState::Normal(NormalState::Link(s)) ==> s.wf() && s.spec_folder_index()
        < dirs.len()
}

/// Which pane of the base view is active.
pub enum NormalState {
    Folder(FolderNormalState),
    Link(LinkNormalState),
}

/// The application's top-level state: the base view, or the terminal quit
/// state carrying what is handed back to the collaborators.
pub enum AppState {
    Normal(NormalState),
    Quit(DataTransfer),
}

impl AppState {
    /// A fresh application state: the folder view with its cursor at the
    /// top.
    pub fn new() -> (r: Self)
        ensures
            r == AppState::Normal(NormalState::Folder(FolderNormalState { selected: Some(0usize) })),
    {
        AppState::Normal(NormalState::Folder(FolderNormalState::new()))
    }

    pub fn is_folder(&self) -> (r: bool)
        ensures
            r == (self matches AppState::Normal(NormalState::Folder(_))),
    {
        match self {
            AppState::Normal(NormalState::Folder(_)) => true,
            _ => false,
        }
    }

    pub fn is_link(&self) -> (r: bool)
        ensures
            r == (self matches AppState::Normal(NormalState::Link(_))),
    {
        match self {
            AppState::Normal(NormalState::Link(_)) => true,
            _ => false,
        }
    }

    /// The folder-pane cursor, wherever the base view is active: the folder
    /// view's own cursor, or the folder the link view is scoped to.
    pub fn folder_selected(&self) -> (r: Option<Option<usize>>)
        ensures
            r == match self {
                AppState::Normal(NormalState::Folder(s)) => Some(s.selected),
                AppState::Normal(NormalState::Link(s)) => Some(s.folder_state.selected),
                AppState::Quit(_) => Option::<Option<usize>>::None,
            },
    {
        match self {
            AppState::Normal(NormalState::Folder(s)) => Some(s.selected()),
            AppState::Normal(NormalState::Link(s)) => Some(s.folder_state().selected()),
            AppState::Quit(_) => None,
        }
    }

    /// The link-pane cursor, when the link view is active.
    pub fn link_selected(&self) -> (r: Option<Option<usize>>)
        ensures
            r == match self {
                AppState::Normal(NormalState::Link(s)) => Some(s.selected),
                _ => Option::<Option<usize>>::None,
            },
    {
        match self {
            AppState::Normal(NormalState::Link(s)) => Some(s.selected()),
            _ => None,
        }
    }
}

} // verus!
