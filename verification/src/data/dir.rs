//! A named, ordered directory of links whose identifiers are unique within
//! the directory. Insertion order is preserved and is the display order.

use vstd::prelude::*;

use crate::data::err::{Error, ErrorKind};
use crate::data::link::{valid_identifier, link_view_wf, Link, LinkView};

verus! {

/// No two links of the sequence share an identifier.
pub open spec fn dir_links_unique(links: Seq<LinkView>) -> bool {
    forall|i: int, j: int|
        #![trigger links[i], links[j]]
        0 <= i < j < links.len() ==> links[i].identifier != links[j].identifier
}

/// Some link of the sequence carries the given identifier.
pub open spec fn dir_contains(links: Seq<LinkView>, id: Seq<char>) -> bool {
    exists|i: int| 0 <= i < links.len() && (#[trigger] links[i]).identifier == id
}

/// The mathematical content of a [`LinkDir`].
#[verifier::ext_equal]
pub ghost struct LinkDirView {
    pub identifier: Seq<char>,
    pub links: Seq<LinkView>,
}

/// A directory is well formed when its own identifier is valid, every link
/// in it is well formed, and no two links share an identifier.
pub open spec fn dir_view_wf(d: LinkDirView) -> bool {
    &&& valid_identifier(d.identifier)
    &&& forall|i: int| 0 <= i < d.links.len() ==> link_view_wf(#[trigger] d.links[i])
    &&& dir_links_unique(d.links)
}

/// A named, ordered collection of links with unique identifiers.
#[derive(Debug)]
pub struct LinkDir {
    map: Vec<Link>,
    identifier: String,
}

impl View for LinkDir {
    type V = LinkDirView;

    closed spec fn view(&self) -> LinkDirView {
        LinkDirView { identifier: self.identifier@, links: self.map.deep_view() }
    }
}

impl DeepView for LinkDir {
    type V = LinkDirView;

    open spec fn deep_view(&self) -> LinkDirView {
        self.view()
    }
}

/// Exchanges the elements of a vector at two indices.
///
/// Relies on Vec::swap (through slices): the two elements trade places and
/// every other element stays where it was.
#[verifier::external_body]
pub(crate) fn vec_swap<T>(v: &mut Vec<T>, a: usize, b: usize)
    requires
        a < old(v)@.len(),
        b < old(v)@.len(),
    ensures
        final(v)@ == old(v)@.update(a as int, old(v)@[b as int]).update(
            b as int,
            old(v)@[a as int],
        ),
{
    v.swap(a, b);
}

impl LinkDir {
    /// The directory's invariant: a valid identifier, well-formed links,
    /// and no duplicate link identifiers.
    pub open spec fn wf(&self) -> bool {
        dir_view_wf(self@)
    }

    /// The validating constructor of an empty directory; fails exactly on
    /// an empty identifier.
    pub fn builder(identifier: &str) -> (r: Result<Self, Error>)
        ensures
            r is Ok <==> valid_identifier(identifier@),
            r matches Ok(d) ==> d@ == (LinkDirView {
                identifier: identifier@,
                links: Seq::<LinkView>::empty(),
            }) && d.wf(),
            r matches Err(e) ==> e.spec_kind() is InvaildIdentifier
                && e.spec_message() == "Link name is empty"@,
    {
        if identifier.is_empty() {
            return Err(Error::new(ErrorKind::InvaildIdentifier, "Link name is empty"));
        }
        let d = Self { map: Vec::new(), identifier: String::from_str(identifier) };
        proof {
            assert(d@.links =~= Seq::<LinkView>::empty());
        }
        Ok(d)
    }

    pub fn identifier(&self) -> (r: &str)
        ensures
            r@ == self@.identifier,
    {
        self.identifier.as_str()
    }

    /// Replaces the directory's own identifier after re-validating it.
    pub fn set_identifier(&mut self, identifier: &str) -> (r: Result<(), Error>)
        ensures
            r is Ok <==> valid_identifier(identifier@),
            r is Ok ==> final(self)@ == (LinkDirView {
                identifier: identifier@,
                links: old(self)@.links,
            }),
            r matches Err(e) ==> final(self)@ == old(self)@
                && e.spec_kind() is InvaildIdentifier
                && e.spec_message() == "Link name is empty"@,
    {
        if identifier.is_empty() {
            return Err(Error::new(ErrorKind::InvaildIdentifier, "Link name is empty"));
        }
        self.identifier = String::from_str(identifier);
        Ok(())
    }

    /// The links in display order.
    pub fn map(&self) -> (r: &Vec<Link>)
        ensures
            r.deep_view() == self@.links,
    {
        &self.map
    }

    /// How many links the directory holds.
    pub fn len(&self) -> (r: usize)
        ensures
            r == self@.links.len(),
    {
        self.map.len()
    }

    pub fn is_empty(&self) -> (r: bool)
        ensures
            r == (self@.links.len() == 0),
    {
        self.map.is_empty()
    }

    /// The link at the given position.
    pub fn get(&self, index: usize) -> (r: &Link)
        requires
            index < self@.links.len(),
        ensures
            r@ == self@.links[index as int],
    {
        &self.map[index]
    }

    /// Whether some link of the directory carries the given identifier.
    pub fn contains_identifier(&self, identifier: &str) -> (r: bool)
        ensures
            r == dir_contains(self@.links, identifier@),
    {
        let n = self.map.len();
        let mut k: usize = 0;
        while k < n
            invariant
                k <= n,
                n == self@.links.len(),
                forall|i: int| 0 <= i < k ==> (#[trigger] self@.links[i]).identifier
                    != identifier@,
            decreases n - k,
        {
            if crate::data::link::str_eq(self.map[k].identifier(), identifier) {
                proof {
                    assert(self@.links[k as int] == self.map@[k as int]@);
                }
                return true;
            }
            k += 1;
        }
        false
    }

    /// Appends a link, or fails without mutating when its identifier is
    /// already taken; the failure hands the rejected link back inside the
    /// error.
    pub fn push(&mut self, link: Link) -> (r: Result<(), Error>)
        requires
            old(self).wf(),
            link.wf(),
        ensures
            final(self).wf(),
            final(self)@.identifier == old(self)@.identifier,
            r is Ok <==> !dir_contains(old(self)@.links, link@.identifier),
            r is Ok ==> final(self)@.links == old(self)@.links.push(link@),
            r matches Err(e) ==> final(self)@ == old(self)@
                && (e.spec_kind() matches ErrorKind::DuplicatedLinkIdentifier(l) && l == link)
                && e.spec_message() == "Same link name already exists"@,
    {
        if self.contains_identifier(link.identifier()) {
            return Err(
                Error::new(ErrorKind::DuplicatedLinkIdentifier(link), "Same link name already exists"),
            );
        }
        let ghost links0 = self@.links;
        let ghost lv = link@;
        self.map.push(link);
        proof {
            assert(self@.links =~= links0.push(lv));
        }
        Ok(())
    }

    /// Removes and returns the link at the given position; every other
    /// link keeps its place and relative order.
    pub fn remove(&mut self, index: usize) -> (r: Link)
        requires
            old(self).wf(),
            index < old(self)@.links.len(),
        ensures
            final(self).wf(),
            final(self)@.identifier == old(self)@.identifier,
            final(self)@.links == old(self)@.links.remove(index as int),
            r@ == old(self)@.links[index as int],
    {
        let ghost links0 = self@.links;
        let item = self.map.remove(index);
        proof {
            assert(self@.links =~= links0.remove(index as int));
        }
        item
    }

    /// Renames the link at the given position, or fails without mutating
    /// when the new identifier is already taken or empty.
    pub fn rename(&mut self, idx: usize, identifier: &str) -> (r: Result<(), Error>)
        requires
            old(self).wf(),
            idx < old(self)@.links.len(),
        ensures
            final(self).wf(),
            final(self)@.identifier == old(self)@.identifier,
            r is Ok <==> !dir_contains(old(self)@.links, identifier@)
                && valid_identifier(identifier@),
            r is Ok ==> final(self)@.links == old(self)@.links.update(
                idx as int,
                LinkView { identifier: identifier@, path: old(self)@.links[idx as int].path },
            ),
            r matches Err(e) ==> final(self)@ == old(self)@ && (if dir_contains(
                old(self)@.links,
                identifier@,
            ) {
                e.spec_kind() is DuplicatedIdentifier
                    && e.spec_message() == "Same link name already exists"@
            } else {
                e.spec_kind() is InvaildIdentifier
                    && e.spec_message() == "Link name is empty"@
            }),
    {
        if self.contains_identifier(identifier) {
            return Err(Error::new(ErrorKind::DuplicatedIdentifier, "Same link name already exists"));
        }
        let ghost links0 = self@.links;
        let link = &mut self.map[idx];
        let res = link.set_identifier(identifier);
        proof {
            if res is Ok {
                assert(self@.links =~= links0.update(
                    idx as int,
                    LinkView { identifier: identifier@, path: links0[idx as int].path },
                ));
            } else {
                assert(self@.links =~= links0);
            }
        }
        res
    }

    /// Replaces the path of the link at the given position, or fails
    /// without mutating when the new path is not absolute.
    pub fn relink(&mut self, idx: usize, path: &str) -> (r: Result<(), Error>)
        requires
            old(self).wf(),
            idx < old(self)@.links.len(),
        ensures
            final(self).wf(),
            final(self)@.identifier == old(self)@.identifier,
            r is Ok <==> crate::data::link::absolute_path(path@),
            r is Ok ==> final(self)@.links == old(self)@.links.update(
                idx as int,
                LinkView {
                    identifier: old(self)@.links[idx as int].identifier,
                    path: path@,
                },
            ),
            r matches Err(e) ==> final(self)@ == old(self)@
                && e.spec_kind() is InvaildPath
                && e.spec_message() == "path is not absolute"@,
    {
        let ghost links0 = self@.links;
        let link = &mut self.map[idx];
        let res = link.change_path(path);
        proof {
            if res is Ok {
                assert(self@.links =~= links0.update(
                    idx as int,
                    LinkView { identifier: links0[idx as int].identifier, path: path@ },
                ));
            } else {
                assert(self@.links =~= links0);
            }
        }
        res
    }

    /// Exchanges the links at two positions without touching identifiers.
    pub fn swap(&mut self, a: usize, b: usize)
        requires
            old(self).wf(),
            a < old(self)@.links.len(),
            b < old(self)@.links.len(),
        ensures
            final(self).wf(),
            final(self)@.identifier == old(self)@.identifier,
            final(self)@.links == old(self)@.links.update(a as int, old(self)@.links[b as int])
                .update(b as int, old(self)@.links[a as int]),
    {
        let ghost links0 = self@.links;
        vec_swap(&mut self.map, a, b);
        proof {
            assert(self@.links =~= links0.update(a as int, links0[b as int]).update(
                b as int,
                links0[a as int],
            ));
        }
    }
}

} // verus!
