//! The answer to a request that creates a network.

use vstd::prelude::*;

verus! {

/// What the engine answers when it has created a network.
#[derive(Debug)]
pub struct CreatedNetwork {
    pub id: String,
    pub warning: String,
}

impl CreatedNetwork {
    /// The id of the network.
    pub fn id(&self) -> (r: String)
        ensures
            r@ == self.id@,
    {
        self.id.clone()
    }

    /// The warning that the engine gave.
    pub fn warning(&self) -> (r: String)
        ensures
            r@ == self.warning@,
    {
        self.warning.clone()
    }
}

} // verus!
