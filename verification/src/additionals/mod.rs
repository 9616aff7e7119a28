//! Types shared by several requests and responses.

use vstd::prelude::*;

pub mod host;
pub mod mount;
pub mod network;

verus! {

/// An object without fields: the value of a set-like JSON object.
#[derive(Debug, Clone, Copy, PartialEq, Eq, Structural)]
pub struct EmptyObject;

impl DeepView for EmptyObject {
    type V = EmptyObject;

    open spec fn deep_view(&self) -> EmptyObject {
        *self
    }
}

} // verus!
