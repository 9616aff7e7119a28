//! Changes in the file system of a container.

use vstd::prelude::*;

verus! {

/// One change in the file system of a container.
#[derive(Debug)]
pub struct FSChanges {
    /// The path that changed.
    pub path: String,
    /// The kind of change: 0 modified, 1 added, 2 deleted.
    pub kind: i32,
}

impl FSChanges {
    /// The path that changed.
    pub fn path(&self) -> (s: &str)
        ensures
            s@ == self.path@,
    {
        self.path.as_str()
    }

    /// The kind of change.
    pub fn kind(&self) -> (r: i32)
        ensures
            r == self.kind,
    {
        self.kind
    }
}

} // verus!
