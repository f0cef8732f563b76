//! A single named link: a non-empty identifier bound to an absolute
//! filesystem path. Values exist only through the validating builder, and
//! every mutation re-validates its input.

use vstd::prelude::*;

use crate::data::err::{Error, ErrorKind};

verus! {

/// A link identifier is valid when it is non-empty.
pub open spec fn valid_identifier(s: Seq<char>) -> bool {
    s.len() > 0
}

/// The library's model of an absolute path: non-empty and rooted at the
/// path separator, as paths are on Unix.
pub open spec fn absolute_path(s: Seq<char>) -> bool {
    s.len() > 0 && s[0] == '/'
}

/// The mathematical content of a [`Link`].
#[verifier::ext_equal]
pub ghost struct LinkView {
    pub identifier: Seq<char>,
    pub path: Seq<char>,
}

/// A link is well formed when its identifier and path both pass validation.
pub open spec fn link_view_wf(l: LinkView) -> bool {
    valid_identifier(l.identifier) && absolute_path(l.path)
}

/// A named link to an absolute filesystem path.
#[derive(Debug)]
pub struct Link {
    identifier: String,
    path: String,
}

impl View for Link {
    type V = LinkView;

    closed spec fn view(&self) -> LinkView {
        LinkView { identifier: self.identifier@, path: self.path@ }
    }
}

impl DeepView for Link {
    type V = LinkView;

    open spec fn deep_view(&self) -> LinkView {
        self.view()
    }
}

impl Clone for Link {
    fn clone(&self) -> (r: Self)
        ensures
            r@ == self@,
    {
        Link { identifier: self.identifier.clone(), path: self.path.clone() }
    }
}

/// Whether the characters of `path` form an absolute path, per
/// [`absolute_path`].
pub fn check_absolute_path(path: &str) -> (r: bool)
    ensures
        r == absolute_path(path@),
{
    if path.is_empty() {
        false
    } else {
        path.get_char(0) == '/'
    }
}

/// Whether two string slices hold the same characters.
pub fn str_eq(a: &str, b: &str) -> (r: bool)
    ensures
        r == (a@ == b@),
{
    let sa = String::from_str(a);
    let sb = String::from_str(b);
    sa == sb
}

impl Link {
    /// Whether this link passes both validations; an invariant of every
    /// value the module hands out.
    pub open spec fn wf(&self) -> bool {
        link_view_wf(self@)
    }

    /// The validating constructor: fails on an empty identifier or a
    /// non-absolute path, and succeeds exactly otherwise.
    pub fn builder(identifier: &str, path: &str) -> (r: Result<Self, Error>)
        ensures
            r is Ok <==> valid_identifier(identifier@) && absolute_path(path@),
            r matches Ok(l) ==> l@ == (LinkView { identifier: identifier@, path: path@ })
                && l.wf(),
            !valid_identifier(identifier@) ==> (r matches Err(e)
                && e.spec_kind() is InvaildIdentifier
                && e.spec_message() == "Link name is empty"@),
            valid_identifier(identifier@) && !absolute_path(path@) ==> (r matches Err(e)
                && e.spec_kind() is InvaildPath
                && e.spec_message() == "path is not absolute"@),
    {
        if identifier.is_empty() {
            return Err(Error::new(ErrorKind::InvaildIdentifier, "Link name is empty"));
        }
        if !check_absolute_path(path) {
            return Err(Error::new(ErrorKind::InvaildPath, "path is not absolute"));
        }
        Ok(Self { identifier: String::from_str(identifier), path: String::from_str(path) })
    }

    pub fn identifier(&self) -> (r: &str)
        ensures
            r@ == self@.identifier,
    {
        self.identifier.as_str()
    }

    pub fn path(&self) -> (r: &str)
        ensures
            r@ == self@.path,
    {
        self.path.as_str()
    }

    /// Replaces the identifier after re-validating it; an empty identifier
    /// is rejected and leaves the link unchanged.
    pub fn set_identifier(&mut self, identifier: &str) -> (r: Result<(), Error>)
        ensures
            r is Ok <==> valid_identifier(identifier@),
            r is Ok ==> final(self)@ == (LinkView {
                identifier: identifier@,
                path: old(self)@.path,
            }),
            r matches Err(e) ==> final(self)@ == old(self)@
                && e.spec_kind() is InvaildIdentifier
                && e.spec_message() == "Link name is empty"@,
    {
        if identifier.is_empty() {
            return Err(Error::new(ErrorKind::InvaildIdentifier, "Link name is empty"));
        }
        self.identifier = String::from_str(identifier);
        Ok(())
    }

    /// The same re-validating identifier replacement, under the name the
    /// renaming flow uses.
    pub fn change_identifer(&mut self, identifier: &str) -> (r: Result<(), Error>)
        ensures
            r is Ok <==> valid_identifier(identifier@),
            r is Ok ==> final(self)@ == (LinkView {
                identifier: identifier@,
                path: old(self)@.path,
            }),
            r matches Err(e) ==> final(self)@ == old(self)@
                && e.spec_kind() is InvaildIdentifier
                && e.spec_message() == "Link name is empty"@,
    {
        self.set_identifier(identifier)
    }

    /// Replaces the path after re-validating it; a non-absolute path is
    /// rejected and leaves the link unchanged.
    pub fn change_path(&mut self, path: &str) -> (r: Result<(), Error>)
        ensures
            r is Ok <==> absolute_path(path@),
            r is Ok ==> final(self)@ == (LinkView {
                identifier: old(self)@.identifier,
                path: path@,
            }),
            r matches Err(e) ==> final(self)@ == old(self)@
                && e.spec_kind() is InvaildPath
                && e.spec_message() == "path is not absolute"@,
    {
        if !check_absolute_path(path) {
            return Err(Error::new(ErrorKind::InvaildPath, "path is not absolute"));
        }
        self.path = String::from_str(path);
        Ok(())
    }
}

/// Resolves user input to an absolute path through the process's working
/// directory, or reports that no absolute form could be made of it.
///
/// Relies on std::path::absolute: a path it returns is absolute, which on
/// Unix means rooted at the separator; the call fails on an empty input.
#[verifier::external_body]
pub fn get_vaild_path(input: &str) -> (r: Option<String>)
    ensures
        r matches Some(p) ==> absolute_path(p@),
{
    match std::path::absolute(input) {
        Ok(p) => p.to_str().map(|s| s.to_owned()),
        Err(_) => None,
    }
}

} // verus!
