//! The top-level ordered collection of link directories, with directory
//! identifiers unique across the collection.

use vstd::prelude::*;

use crate::data::dir::{dir_view_wf, vec_swap, LinkDir, LinkDirView};
use crate::data::err::{Error, ErrorKind};
use crate::data::link::valid_identifier;

verus! {

/// No two directories of the sequence share an identifier.
pub open spec fn dirset_unique(dirs: Seq<LinkDirView>) -> bool {
    forall|i: int, j: int|
        #![trigger dirs[i], dirs[j]]
        0 <= i < j < dirs.len() ==> dirs[i].identifier != dirs[j].identifier
}

/// Some directory of the sequence carries the given identifier.
pub open spec fn dirset_contains(dirs: Seq<LinkDirView>, id: Seq<char>) -> bool {
    exists|i: int| 0 <= i < dirs.len() && (#[trigger] dirs[i]).identifier == id
}

/// The collection is well formed when every directory is and no two of
/// them share an identifier.
pub open spec fn dirset_view_wf(dirs: Seq<LinkDirView>) -> bool {
    &&& forall|i: int| 0 <= i < dirs.len() ==> dir_view_wf(#[trigger] dirs[i])
    &&& dirset_unique(dirs)
}

/// An ordered set of link directories with unique identifiers.
#[derive(Debug)]
pub struct LinkDirSet {
    map: Vec<LinkDir>,
}

impl View for LinkDirSet {
    type V = Seq<LinkDirView>;

    closed spec fn view(&self) -> Seq<LinkDirView> {
        self.map.deep_view()
    }
}

impl LinkDirSet {
    /// The collection's invariant.
    pub open spec fn wf(&self) -> bool {
        dirset_view_wf(self@)
    }

    /// An empty collection.
    pub fn new() -> (r: Self)
        ensures
            r@ == Seq::<LinkDirView>::empty(),
            r.wf(),
    {
        let r = Self { map: Vec::new() };
        proof {
            assert(r@ =~= Seq::<LinkDirView>::empty());
        }
        r
    }

    /// The directories in display order.
    pub fn map(&self) -> (r: &Vec<LinkDir>)
        ensures
            r.deep_view() == self@,
    {
        &self.map
    }

    /// How many directories the collection holds.
    pub fn len(&self) -> (r: usize)
        ensures
            r == self@.len(),
    {
        self.map.len()
    }

    pub fn is_empty(&self) -> (r: bool)
        ensures
            r == (self@.len() == 0),
    {
        self.map.is_empty()
    }

    /// The directory at the given position.
    pub fn get(&self, index: usize) -> (r: &LinkDir)
        requires
            index < self@.len(),
        ensures
            r@ == self@[index as int],
    {
        &self.map[index]
    }

    /// Exclusive access to the directory at the given position; the caller
    /// sees the collection updated with whatever it makes of the borrow.
    pub fn dir_mut(&mut self, index: usize) -> (r: &mut LinkDir)
        requires
            index < old(self)@.len(),
        ensures
            *r == old(self).spec_dir(index as int),
            (*r)@ == old(self)@[index as int],
            final(self)@ =~= old(self)@.update(index as int, (*final(r))@),
    {
        &mut self.map[index]
    }

    /// The directory value at a position, for relating [`Self::dir_mut`]'s
    /// borrow to the collection it came from.
    pub closed spec fn spec_dir(&self, index: int) -> LinkDir {
        self.map@[index]
    }

    /// Whether some directory of the collection carries the given
    /// identifier.
    pub fn contains_identifier(&self, identifier: &str) -> (r: bool)
        ensures
            r == dirset_contains(self@, identifier@),
    {
        let n = self.map.len();
        let mut k: usize = 0;
        while k < n
            invariant
                k <= n,
                n == self@.len(),
                forall|i: int| 0 <= i < k ==> (#[trigger] self@[i]).identifier != identifier@,
            decreases n - k,
        {
            if crate::data::link::str_eq(self.map[k].identifier(), identifier) {
                proof {
                    assert(self@[k as int] == self.map@[k as int]@);
                }
                return true;
            }
            k += 1;
        }
        false
    }

    /// Appends a directory, or fails without mutating when its identifier
    /// is already taken; the failure hands the rejected directory back
    /// inside the error.
    pub fn push(&mut self, dir: LinkDir) -> (r: Result<(), Error>)
        requires
            old(self).wf(),
            dir.wf(),
        ensures
            final(self).wf(),
            r is Ok <==> !dirset_contains(old(self)@, dir@.identifier),
            r is Ok ==> final(self)@ == old(self)@.push(dir@),
            r matches Err(e) ==> final(self)@ == old(self)@
                && (e.spec_kind() matches ErrorKind::DuplicatedLinkDirIdentifier(d) && d == dir)
                && e.spec_message() == "Directory name already exists"@,
    {
        if self.contains_identifier(dir.identifier()) {
            return Err(
                Error::new(
                    ErrorKind::DuplicatedLinkDirIdentifier(dir),
                    "Directory name already exists",
                ),
            );
        }
        let ghost dirs0 = self@;
        let ghost dv = dir@;
        self.map.push(dir);
        proof {
            assert(self@ =~= dirs0.push(dv));
        }
        Ok(())
    }

    /// Removes and returns the directory at the given position; every
    /// other directory keeps its place and relative order.
    pub fn remove(&mut self, index: usize) -> (r: LinkDir)
        requires
            old(self).wf(),
            index < old(self)@.len(),
        ensures
            final(self).wf(),
            final(self)@ == old(self)@.remove(index as int),
            r@ == old(self)@[index as int],
    {
        let ghost dirs0 = self@;
        let item = self.map.remove(index);
        proof {
            assert(self@ =~= dirs0.remove(index as int));
        }
        item
    }

    /// Renames the directory at the given position, or fails without
    /// mutating when the new identifier is already taken or empty.
    pub fn rename(&mut self, idx: usize, identifier: &str) -> (r: Result<(), Error>)
        requires
            old(self).wf(),
            idx < old(self)@.len(),
        ensures
            final(self).wf(),
            r is Ok <==> !dirset_contains(old(self)@, identifier@)
                && valid_identifier(identifier@),
            r is Ok ==> final(self)@ == old(self)@.update(
                idx as int,
                LinkDirView { identifier: identifier@, links: old(self)@[idx as int].links },
            ),
            r matches Err(e) ==> final(self)@ == old(self)@ && (if dirset_contains(
                old(self)@,
                identifier@,
            ) {
                e.spec_kind() is DuplicatedIdentifier
                    && e.spec_message() == "Directory name already exists"@
            } else {
                e.spec_kind() is InvaildIdentifier
                    && e.spec_message() == "Link name is empty"@
            }),
    {
        if self.contains_identifier(identifier) {
            return Err(Error::new(ErrorKind::DuplicatedIdentifier, "Directory name already exists"));
        }
        let ghost dirs0 = self@;
        let dir = &mut self.map[idx];
        let res = dir.set_identifier(identifier);
        proof {
            if res is Ok {
                assert(self@ =~= dirs0.update(
                    idx as int,
                    LinkDirView { identifier: identifier@, links: dirs0[idx as int].links },
                ));
            } else {
                assert(self@ =~= dirs0);
            }
        }
        res
    }

    /// Exchanges the directories at two positions.
    pub fn swap(&mut self, a: usize, b: usize)
        requires
            old(self).wf(),
            a < old(self)@.len(),
            b < old(self)@.len(),
        ensures
            final(self).wf(),
            final(self)@ == old(self)@.update(a as int, old(self)@[b as int]).update(
                b as int,
                old(self)@[a as int],
            ),
    {
        let ghost dirs0 = self@;
        vec_swap(&mut self.map, a, b);
        proof {
            assert(self@ =~= dirs0.update(a as int, dirs0[b as int]).update(
                b as int,
                dirs0[a as int],
            ));
        }
    }
}

} // verus!
