//! Listing volumes.

use crate::volume::info::VolumeInfo;
use vstd::prelude::*;

verus! {

/// The volumes of a list.
#[derive(Debug)]
pub struct VolumesList {
    pub volumes: Vec<VolumeInfo>,
    pub warnings: Vec<String>,
}

} // verus!
