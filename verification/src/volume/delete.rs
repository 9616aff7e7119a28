//! Removing unused volumes.

use vstd::prelude::*;

verus! {

/// What the engine answers when it has removed unused volumes.
#[derive(Debug)]
pub struct DeletedInfo {
    pub volumes_deleted: Vec<String>,
    pub space_reclaimed: i64,
}

} // verus!
