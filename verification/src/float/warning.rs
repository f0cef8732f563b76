//! The informational floats: a dismissable warning, and the startup
//! corrupt-data dialog with its two-way choice.

use vstd::prelude::*;

use crate::float::FloatState;

verus! {

/// A single message, dismissed by the user with no other effect.
pub struct WarningState {
    pub message: String,
}

impl FloatState for WarningState {

}

impl WarningState {
    pub fn new(message: String) -> (r: Self)
        ensures
            r.message == message,
    {
        Self { message }
    }

    pub fn message(&self) -> (r: &str)
        ensures
            r@ == self.message@,
    {
        self.message.as_str()
    }

    pub fn set_message(&mut self, message: String)
        ensures
            final(self).message == message,
    {
        self.message = message;
    }

    /// Consumes the float and hands its message out.
    pub fn get_message(self) -> (r: String)
        ensures
            r == self.message,
    {
        self.message
    }
}

/// What the user decides about corrupted persisted data: leave at once
/// without saving, or continue on an empty collection that will overwrite
/// the corrupt file at the next save.
#[derive(Debug, Clone, Copy, PartialEq, Eq, Structural)]
pub enum CorruptDataWarningChoice {
    Exit,
    NewData,
}

/// The startup dialog shown when the persisted data failed to parse.
pub struct CorruptDataWarningState {
    pub choice: CorruptDataWarningChoice,
    pub message: String,
}

impl FloatState for CorruptDataWarningState {

}

impl CorruptDataWarningState {
    /// A fresh dialog; the default choice is the safe one, `Exit`.
    pub fn new(message: String) -> (r: Self)
        ensures
            r.choice == CorruptDataWarningChoice::Exit,
            r.message == message,
    {
        Self { choice: CorruptDataWarningChoice::Exit, message }
    }

    pub fn choice(&self) -> (r: CorruptDataWarningChoice)
        ensures
            r == self.choice,
    {
        self.choice
    }

    pub fn set_choice(&mut self, choice: CorruptDataWarningChoice)
        ensures
            *final(self) == (CorruptDataWarningState { choice, ..*old(self) }),
    {
        self.choice = choice;
    }

    pub fn message(&self) -> (r: &str)
        ensures
            r@ == self.message@,
    {
        self.message.as_str()
    }

    pub fn switch_left(&mut self)
        ensures
            *final(self) == (CorruptDataWarningState {
                choice: CorruptDataWarningChoice::Exit,
                ..*old(self)
            }),
    {
        self.choice = CorruptDataWarningChoice::Exit;
    }

    pub fn switch_right(&mut self)
        ensures
            *final(self) == (CorruptDataWarningState {
                choice: CorruptDataWarningChoice::NewData,
                ..*old(self)
            }),
    {
        self.choice = CorruptDataWarningChoice::NewData;
    }

    /// Flips the choice.
    pub fn switch(&mut self)
        ensures
            *final(self) == (CorruptDataWarningState {
                choice: if old(self).choice == CorruptDataWarningChoice::Exit {
                    CorruptDataWarningChoice::NewData
                } else {
                    CorruptDataWarningChoice::Exit
                },
                ..*old(self)
            }),
    {
        self.choice = match self.choice {
            CorruptDataWarningChoice::Exit => CorruptDataWarningChoice::NewData,
            CorruptDataWarningChoice::NewData => CorruptDataWarningChoice::Exit,
        }
    }

    /// With only two choices, stepping backwards is the same flip.
    pub fn switch_back(&mut self)
        ensures
            *final(self) == (CorruptDataWarningState {
                choice: if old(self).choice == CorruptDataWarningChoice::Exit {
                    CorruptDataWarningChoice::NewData
                } else {
                    CorruptDataWarningChoice::Exit
                },
                ..*old(self)
            }),
    {
        self.switch();
    }

    /// The choices sit on one row; vertical movement changes nothing.
    pub fn switch_up(&mut self)
        ensures
            *final(self) == *old(self),
    {
    }

    /// The choices sit on one row; vertical movement changes nothing.
    pub fn switch_down(&mut self)
        ensures
            *final(self) == *old(self),
    {
    }
}

} // verus!
