//! The edit dialogs: a folder's single name buffer, and a link's name and
//! path buffers.

use vstd::prelude::*;

use tui_input::Input;

use crate::float::FloatState;
use crate::input::{input_chars, input_empty, input_value, input_with};
use crate::state::common::{InputMode, InputPart};

verus! {

/// The state of a folder edit dialog: which entry it edits (`None` for a
/// fresh append), its command/editing mode, and its text buffer.
pub struct FolderEditState {
    pub selected: Option<usize>,
    pub mode: InputMode,
    pub input: Input,
}

impl FloatState for FolderEditState {

}

impl FolderEditState {
    /// A fresh dialog, opening directly in editing mode with an empty
    /// buffer.
    pub fn new(selected: Option<usize>) -> (r: Self)
        ensures
            r.selected == selected,
            r.mode == InputMode::Editing,
            input_chars(r.input) == Seq::<char>::empty(),
    {
        Self { selected, mode: InputMode::Editing, input: input_empty() }
    }

    pub fn mode(&self) -> (r: &InputMode)
        ensures
            *r == self.mode,
    {
        &self.mode
    }

    /// Flips between command mode and editing mode.
    pub fn switch_mode(&mut self)
        ensures
            *final(self) == (FolderEditState {
                mode: if old(self).mode == InputMode::Normal {
                    InputMode::Editing
                } else {
                    InputMode::Normal
                },
                ..*old(self)
            }),
    {
        self.mode = match self.mode {
            InputMode::Normal => InputMode::Editing,
            InputMode::Editing => InputMode::Normal,
        }
    }

    /// The buffer's current contents.
    pub fn value(&self) -> (r: &str)
        ensures
            r@ == input_chars(self.input),
    {
        input_value(&self.input)
    }

    pub fn input(&self) -> (r: &Input)
        ensures
            *r == self.input,
    {
        &self.input
    }

    pub fn input_mut(&mut self) -> (r: &mut Input)
        ensures
            *r == old(self).input,
            *final(self) == (FolderEditState { input: *final(r), ..*old(self) }),
    {
        &mut self.input
    }

    pub fn selected(&self) -> (r: Option<usize>)
        ensures
            r == self.selected,
    {
        self.selected
    }

    /// The dialog with its buffer pre-filled, for renaming an existing
    /// entry.
    pub fn with_value(self, value: &str) -> (r: Self)
        ensures
            r == (FolderEditState { input: r.input, ..self }),
            input_chars(r.input) == value@,
    {
        Self { input: input_with(value), ..self }
    }
}

/// The state of a link edit dialog: which entry it edits, the folder it
/// lives in, its mode, which buffer is active, and the two text buffers
/// (name, then path).
pub struct LinkEditState {
    pub selected: Option<usize>,
    pub from: usize,
    pub mode: InputMode,
    pub part: InputPart,
    pub input: (Input, Input),
}

impl FloatState for LinkEditState {

}

impl LinkEditState {
    /// A fresh dialog for the given folder, opening directly in editing
    /// mode on the name buffer, both buffers empty.
    pub fn new(from: usize, selected: Option<usize>) -> (r: Self)
        ensures
            r.selected == selected,
            r.from == from,
            r.mode == InputMode::Editing,
            r.part == InputPart::Key,
            input_chars(r.input.0) == Seq::<char>::empty(),
            input_chars(r.input.1) == Seq::<char>::empty(),
    {
        Self {
            selected,
            from,
            mode: InputMode::Editing,
            part: InputPart::Key,
            input: (input_empty(), input_empty()),
        }
    }

    pub fn mode(&self) -> (r: &InputMode)
        ensures
            *r == self.mode,
    {
        &self.mode
    }

    /// Flips between command mode and editing mode.
    pub fn switch_mode(&mut self)
        ensures
            *final(self) == (LinkEditState {
                mode: if old(self).mode == InputMode::Normal {
                    InputMode::Editing
                } else {
                    InputMode::Normal
                },
                ..*old(self)
            }),
    {
        self.mode = match self.mode {
            InputMode::Normal => InputMode::Editing,
            InputMode::Editing => InputMode::Normal,
        }
    }

    /// Both buffers' current contents: the name, then the path.
    pub fn value(&self) -> (r: (&str, &str))
        ensures
            r.0@ == input_chars(self.input.0),
            r.1@ == input_chars(self.input.1),
    {
        (input_value(&self.input.0), input_value(&self.input.1))
    }

    pub fn key_input(&self) -> (r: &Input)
        ensures
            *r == self.input.0,
    {
        &self.input.0
    }

    pub fn key_input_mut(&mut self) -> (r: &mut Input)
        ensures
            *r == old(self).input.0,
            *final(self) == (LinkEditState {
                input: (*final(r), old(self).input.1),
                ..*old(self)
            }),
    {
        &mut self.input.0
    }

    pub fn value_input(&self) -> (r: &Input)
        ensures
            *r == self.input.1,
    {
        &self.input.1
    }

    pub fn value_input_mut(&mut self) -> (r: &mut Input)
        ensures
            *r == old(self).input.1,
            *final(self) == (LinkEditState {
                input: (old(self).input.0, *final(r)),
                ..*old(self)
            }),
    {
        &mut self.input.1
    }

    pub fn selected(&self) -> (r: Option<usize>)
        ensures
            r == self.selected,
    {
        self.selected
    }

    /// The folder this dialog's link belongs to.
    pub fn from(&self) -> (r: usize)
        ensures
            r == self.from,
    {
        self.from
    }

    pub fn part(&self) -> (r: &InputPart)
        ensures
            *r == self.part,
    {
        &self.part
    }

    /// Flips which buffer is active.
    pub fn switch_part(&mut self)
        ensures
            *final(self) == (LinkEditState {
                part: if old(self).part == InputPart::Key {
                    InputPart::Value
                } else {
                    InputPart::Key
                },
                ..*old(self)
            }),
    {
        self.part = match self.part {
            InputPart::Key => InputPart::Value,
            InputPart::Value => InputPart::Key,
        }
    }

    pub fn set_part(&mut self, part: InputPart)
        ensures
            *final(self) == (LinkEditState { part, ..*old(self) }),
    {
        self.part = part;
    }

    /// The dialog with its buffers pre-filled, for renaming or relinking an
    /// existing entry.
    pub fn with_value(self, key: &str, value: &str) -> (r: Self)
        ensures
            r == (LinkEditState { input: r.input, ..self }),
            input_chars(r.input.0) == key@,
            input_chars(r.input.1) == value@,
    {
        Self { input: (input_with(key), input_with(value)), ..self }
    }
}

} // verus!
