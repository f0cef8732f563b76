//! The help float: a static, ordered list of key/action pairs for whichever
//! dialog spawned it.

use vstd::prelude::*;

use crate::float::FloatState;

verus! {

/// One help line: a key, and what it does.
pub struct HelpEntry {
    pub key: String,
    pub operation: String,
}

impl HelpEntry {
    pub fn new(key: &str, operation: &str) -> (r: Self)
        ensures
            r.key@ == key@,
            r.operation@ == operation@,
    {
        Self { key: String::from_str(key), operation: String::from_str(operation) }
    }

    pub fn key(&self) -> (r: &str)
        ensures
            r@ == self.key@,
    {
        self.key.as_str()
    }

    pub fn value(&self) -> (r: &str)
        ensures
            r@ == self.operation@,
    {
        self.operation.as_str()
    }

    pub fn get_pair(&self) -> (r: (&str, &str))
        ensures
            r.0@ == self.key@,
            r.1@ == self.operation@,
    {
        (self.key.as_str(), self.operation.as_str())
    }
}

/// The ordered help entries of one dialog.
pub struct HelpState {
    pub entries: Vec<HelpEntry>,
}

impl FloatState for HelpState {

}

impl HelpState {
    pub fn new() -> (r: Self)
        ensures
            r.entries@ == Seq::<HelpEntry>::empty(),
    {
        Self { entries: Vec::new() }
    }

    /// Appends one entry; order of addition is display order.
    pub fn add_entry(&mut self, entry: HelpEntry)
        ensures
            final(self).entries@ == old(self).entries@.push(entry),
    {
        self.entries.push(entry);
    }

    pub fn entries(&self) -> (r: &Vec<HelpEntry>)
        ensures
            r@ == self.entries@,
    {
        &self.entries
    }
}

} // verus!
