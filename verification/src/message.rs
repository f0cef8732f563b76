//! The kind-scoped messages the dispatch loop folds over, and the update
//! values handlers return.
//!
//! Every message carries a rank, and every handler either emits no next
//! message or one of strictly smaller rank, so each input event settles in
//! a bounded chain (the ranks never exceed five).

use vstd::prelude::*;

use crate::float::{Float, FloatState};
use crate::input::KeyPress;
use crate::state::common::InputMode;
use crate::state::AppState;

verus! {

/// Marks a kind-scoped message type.
pub trait AppMessage {

}

/// Messages of the base folder view.
#[derive(Debug, PartialEq, Eq, Structural)]
pub enum NormalFolderMessage {
    Select,
    MoveUp,
    MoveDown,
    SwitchUp,
    SwitchDown,
    Append,
    Rename,
    Remove,
    Quit,
    Item(usize),
    ToDir(usize),
    Help,
}

impl AppMessage for NormalFolderMessage {

}

/// Messages of the base link view.
#[derive(Debug, PartialEq, Eq, Structural)]
pub enum NormalLinkMessage {
    Back,
    Select,
    MoveUp,
    MoveDown,
    SwitchUp,
    SwitchDown,
    Append,
    Rename,
    Remove,
    Quit,
    Item(usize),
    ToLink(usize),
    Help,
}

impl AppMessage for NormalLinkMessage {

}

/// Messages of the edit dialogs. `Quit` carries the pending selection and
/// whether unsaved changes should raise a save confirmation.
#[derive(Debug, PartialEq)]
pub enum EditMessage {
    Edit,
    HandleInput(KeyPress),
    Confirm,
    Switch,
    SwitchLeft,
    SwitchRight,
    SwitchOrConfirm,
    Quit(Option<usize>, bool),
    Back,
    Help,
}

impl AppMessage for EditMessage {

}

/// Messages of the two-way confirmation dialogs.
#[derive(Debug, PartialEq, Eq, Structural)]
pub enum ConfirmMessage {
    Yes,
    No,
    Quit,
    Switch,
    SwitchLeft,
    SwitchRight,
    Choose,
}

impl AppMessage for ConfirmMessage {

}

/// Messages of the four-direction-navigable choice dialogs; `Quit` carries
/// what quitting means for the dialog's own choice.
#[derive(Debug, PartialEq, Eq, Structural)]
pub enum ChooseMessage<T> {
    Switch,
    SwitchBack,
    SwitchLeft,
    SwitchRight,
    SwitchUp,
    SwitchDown,
    Choose,
    Quit(T),
}

impl<T> AppMessage for ChooseMessage<T> {

}

/// Messages of the plain warning floats.
#[derive(Debug, PartialEq, Eq, Structural)]
pub enum WarningMessage {
    Quit,
}

impl AppMessage for WarningMessage {

}

/// The rank of a base-view folder message: a handler only ever emits a
/// message of smaller rank, and no rank exceeds three.
pub open spec fn normal_folder_msg_rank(m: NormalFolderMessage) -> nat {
    match m {
        NormalFolderMessage::SwitchUp => 3nat,
        NormalFolderMessage::SwitchDown => 3nat,
        NormalFolderMessage::Select => 2nat,
        NormalFolderMessage::MoveUp => 2nat,
        NormalFolderMessage::MoveDown => 2nat,
        _ => 1nat,
    }
}

/// The rank of a base-view link message; no rank exceeds three.
pub open spec fn normal_link_msg_rank(m: NormalLinkMessage) -> nat {
    match m {
        NormalLinkMessage::SwitchUp => 3nat,
        NormalLinkMessage::SwitchDown => 3nat,
        NormalLinkMessage::Select => 2nat,
        NormalLinkMessage::MoveUp => 2nat,
        NormalLinkMessage::MoveDown => 2nat,
        _ => 1nat,
    }
}

/// The rank of an edit message, under the dialog's current mode. `Confirm`
/// and `Quit` re-emit themselves once while leaving editing mode, so their
/// rank is one higher there; no rank exceeds five.
pub open spec fn edit_msg_rank(mode: InputMode, m: EditMessage) -> nat {
    match m {
        EditMessage::HandleInput(_) => 5nat,
        EditMessage::SwitchOrConfirm => 4nat,
        EditMessage::Confirm => if mode == InputMode::Editing {
            3nat
        } else {
            2nat
        },
        EditMessage::Quit(_, _) => if mode == InputMode::Editing {
            2nat
        } else {
            1nat
        },
        _ => 1nat,
    }
}

/// The rank of a confirmation message: every handler settles at once, so
/// all ranks are one.
pub open spec fn confirm_msg_rank(m: ConfirmMessage) -> nat {
    1nat
}

/// The rank of a choice message: `Choose` resolves into one `Quit`; no
/// rank exceeds two.
pub open spec fn choose_msg_rank<T>(m: ChooseMessage<T>) -> nat {
    match m {
        ChooseMessage::Choose => 2nat,
        _ => 1nat,
    }
}

/// The rank of a warning message: dismissal settles at once.
pub open spec fn warning_msg_rank(m: WarningMessage) -> nat {
    1nat
}

/// What one base-view handler invocation produced: an optional chained
/// message, an optional replacement application state, and an optional
/// newly spawned float.
pub struct MessageUpdater<M: AppMessage> {
    pub message: Option<M>,
    pub state: Option<AppState>,
    pub float: Option<Float>,
}

impl<M: AppMessage> MessageUpdater<M> {
    pub fn new() -> (r: Self)
        ensures
            r.message is None,
            r.state is None,
            r.float is None,
    {
        Self { message: None, state: None, float: None }
    }

    pub fn with_message(self, message: M) -> (r: Self)
        ensures
            r == (MessageUpdater { message: Some(message), ..self }),
    {
        Self { message: Some(message), ..self }
    }

    pub fn with_state(self, state: AppState) -> (r: Self)
        ensures
            r == (MessageUpdater { state: Some(state), ..self }),
    {
        Self { state: Some(state), ..self }
    }

    pub fn with_float(self, float: Float) -> (r: Self)
        ensures
            r == (MessageUpdater { float: Some(float), ..self }),
    {
        Self { float: Some(float), ..self }
    }
}

/// What one float handler invocation produced: an optional chained
/// message, the replacement local state (`None` ends the flow and discards
/// it), and an optional newly spawned float.
pub struct FloatUpdater<M: AppMessage, S: FloatState> {
    pub message: Option<M>,
    pub state: Option<S>,
    pub float: Option<Float>,
}

impl<M: AppMessage, S: FloatState> FloatUpdater<M, S> {
    pub fn new() -> (r: Self)
        ensures
            r.message is None,
            r.state is None,
            r.float is None,
    {
        Self { message: None, state: None, float: None }
    }

    pub fn with_message(self, message: M) -> (r: Self)
        ensures
            r == (FloatUpdater { message: Some(message), ..self }),
    {
        Self { message: Some(message), ..self }
    }

    pub fn with_state(self, state: S) -> (r: Self)
        ensures
            r == (FloatUpdater { state: Some(state), ..self }),
    {
        Self { state: Some(state), ..self }
    }

    pub fn with_float(self, float: Float) -> (r: Self)
        ensures
            r == (FloatUpdater { float: Some(float), ..self }),
    {
        Self { float: Some(float), ..self }
    }

    pub fn with_optional_float(self, float: Option<Float>) -> (r: Self)
        ensures
            r == (FloatUpdater { float, ..self }),
    {
        Self { float, ..self }
    }
}

} // verus!
