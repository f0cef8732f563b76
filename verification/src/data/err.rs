//! Typed validation errors raised by the data model's builders and mutators.
//!
//! A duplicate-identifier error arising from a push carries the rejected
//! value, so that the caller can recover it and offer it to the user again.

use vstd::prelude::*;

use crate::data::dir::LinkDir;
use crate::data::link::Link;

verus! {

/// A recoverable validation error with a human-readable message.
#[derive(Debug)]
pub struct Error {
    kind: ErrorKind,
    message: &'static str,
}

/// What went wrong, together with the rejected value where one exists.
#[derive(Debug)]
pub enum ErrorKind {
    InvaildIdentifier,
    InvaildPath,
    DuplicatedLinkIdentifier(Link),
    DuplicatedLinkDirIdentifier(LinkDir),
    DuplicatedIdentifier,
}

impl Error {
    /// The kind stored in this error.
    pub closed spec fn spec_kind(&self) -> ErrorKind {
        self.kind
    }

    /// The message stored in this error.
    pub closed spec fn spec_message(&self) -> Seq<char> {
        self.message@
    }

    pub fn new(kind: ErrorKind, message: &'static str) -> (r: Self)
        ensures
            r.spec_kind() == kind,
            r.spec_message() == message@,
    {
        Self { kind, message }
    }

    pub fn kind(&self) -> (r: &ErrorKind)
        ensures
            *r == self.spec_kind(),
    {
        &self.kind
    }

    pub fn message(&self) -> (r: &str)
        ensures
            r@ == self.spec_message(),
    {
        self.message
    }
}

impl ErrorKind {
    pub fn as_str(&self) -> (r: &'static str)
        ensures
            r@ == match self {
                ErrorKind::InvaildIdentifier => "invaild identifier"@,
                ErrorKind::InvaildPath => "invaild path"@,
                ErrorKind::DuplicatedLinkIdentifier(_) => "duplicated link identifier"@,
                ErrorKind::DuplicatedLinkDirIdentifier(_) => "duplicated link dir identifier"@,
                ErrorKind::DuplicatedIdentifier => "duplicated identifier"@,
            },
    {
        match self {
            ErrorKind::InvaildIdentifier => "invaild identifier",
            ErrorKind::InvaildPath => "invaild path",
            ErrorKind::DuplicatedLinkIdentifier(_) => "duplicated link identifier",
            ErrorKind::DuplicatedLinkDirIdentifier(_) => "duplicated link dir identifier",
            ErrorKind::DuplicatedIdentifier => "duplicated identifier",
        }
    }
}

} // verus!
