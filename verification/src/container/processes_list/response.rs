//! The processes of a container.

use vstd::prelude::*;

verus! {

/// The processes of a container: the titles of the columns, and one row per process.
#[derive(Debug)]
pub struct TopList {
    pub titles: Vec<String>,
    pub processes: Vec<Vec<String>>,
}

} // verus!
