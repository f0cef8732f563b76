//! The library's model of keyboard input, and the text-input buffer the
//! edit dialogs type into.
//!
//! A [`KeyPress`] carries the decoded fields the dispatch logic reads —
//! the key, whether control was held, whether it was a press — together
//! with the raw terminal event, which only the text-input buffer consumes.

use vstd::prelude::*;

use ratatui::crossterm::event::KeyEvent;
use tui_input::backend::crossterm::EventHandler;
use tui_input::Input;

verus! {

#[verifier::external_type_specification]
#[verifier::external_body]
pub struct ExKeyEvent(KeyEvent);

#[verifier::external_type_specification]
#[verifier::external_body]
pub struct ExInput(Input);

/// The characters a text-input buffer holds, in order.
pub uninterp spec fn input_chars(i: Input) -> Seq<char>;

/// The characters the text editor leaves in a buffer after feeding one
/// terminal event into it: a function of the buffer and the event alone.
pub uninterp spec fn feed_chars(i: Input, k: KeyEvent) -> Seq<char>;

/// The keys the dispatch logic distinguishes; any other key is `Other`.
#[derive(Debug, Clone, Copy, PartialEq, Eq)]
pub enum KeyCode {
    Char(char),
    Esc,
    Enter,
    Left,
    Right,
    Up,
    Down,
    Tab,
    BackTab,
    Other,
}

/// One decoded keyboard event.
#[derive(Debug, Clone, Copy, PartialEq)]
pub struct KeyPress {
    /// The key, as far as the dispatch logic cares.
    pub code: KeyCode,
    /// Whether the control modifier — and only it — was held.
    pub ctrl: bool,
    /// Whether this is a key press (not a release or repeat).
    pub press: bool,
    /// The terminal's own event, consumed only by the text-input buffer.
    pub raw: KeyEvent,
}

/// An empty text-input buffer.
///
/// Relies on tui_input::Input::default: the default buffer holds the empty
/// string.
#[verifier::external_body]
pub fn input_empty() -> (r: Input)
    ensures
        input_chars(r) == Seq::<char>::empty(),
{
    Input::default()
}

/// A text-input buffer pre-filled with the given value.
///
/// Relies on tui_input::Input::new: the buffer holds exactly the given
/// string, with the cursor at its end.
#[verifier::external_body]
pub fn input_with(value: &str) -> (r: Input)
    ensures
        input_chars(r) == value@,
{
    Input::new(value.to_owned())
}

/// The buffer's current contents.
///
/// Relies on tui_input::Input::value: it returns the buffer's string.
#[verifier::external_body]
pub fn input_value(input: &Input) -> (r: &str)
    ensures
        r@ == input_chars(*input),
{
    input.value()
}

/// Feeds one keyboard event into the buffer: an insertion, deletion or
/// cursor movement, or nothing, as the editor decides.
///
/// Relies on tui_input's crossterm backend, Input::handle_event: its
/// result depends on the buffer and the event alone, so the new contents
/// carry the name [`feed_chars`] and nothing more is assumed of them.
#[verifier::external_body]
pub fn input_feed(input: &mut Input, key: &KeyPress)
    ensures
        input_chars(*final(input)) == feed_chars(*old(input), key.raw),
{
    input.handle_event(&ratatui::crossterm::event::Event::Key(key.raw));
}

} // verus!
