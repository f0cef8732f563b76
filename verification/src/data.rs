//! The data model: validated links, link directories, and the ordered,
//! uniqueness-checked collections of them.

pub mod dir;
pub mod dirset;
pub mod err;
pub mod link;
