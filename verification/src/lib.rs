//! An interactive manager for a two-level collection of named link
//! directories, each holding named filesystem links.
//!
//! The crate is the core of a terminal application: the data model with its
//! uniqueness invariants, the modal navigation states, the stack of overlay
//! ("float") dialogs, and the message-chaining dispatch that drives every
//! input event to a settled state. Terminal rendering, raw input decoding
//! and persistence live outside the library.

pub mod app;
pub mod data;
pub mod float;
pub mod input;
pub mod key;
pub mod laws;
pub mod message;
pub mod state;
