//! The two small mode machines nested inside the edit dialogs.

use vstd::prelude::*;

verus! {

/// Whether an edit dialog is taking single-key commands or forwarding
/// keystrokes into a text buffer.
#[derive(Debug, Clone, Copy, PartialEq, Eq, Structural)]
pub enum InputMode {
    Normal,
    Editing,
}

/// Which of a link edit dialog's two buffers is active.
#[derive(Debug, Clone, Copy, PartialEq, Eq, Structural)]
pub enum InputPart {
    Key,
    Value,
}

} // verus!
