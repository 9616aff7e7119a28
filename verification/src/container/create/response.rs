//! The answer to a request that creates a container.

use vstd::prelude::*;

verus! {

/// What the engine answers when it has created a container.
#[derive(Debug)]
pub struct CreatedContainer {
    pub id: String,
    pub warnings: Vec<String>,
}

impl CreatedContainer {
    /// The id of the container.
    pub fn id(&self) -> (r: &String)
        ensures
            *r == self.id,
    {
        &self.id
    }
}

} // verus!
