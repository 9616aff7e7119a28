//! What the engine reports of a volume.

use crate::dict::Dict;
use vstd::prelude::*;

verus! {

/// How much a volume is used.
#[derive(Debug)]
pub struct UsageData {
    pub size: i64,
    pub ref_count: i64,
}

/// What the engine knows of a volume.
#[derive(Debug)]
pub struct VolumeInfo {
    pub name: String,
    pub driver: String,
    pub mountpoint: String,
    pub created: String,
    pub status: Dict<String>,
    pub labels: Dict<String>,
    pub scope: String,
    pub options: Dict<String>,
    pub usage_data: Option<UsageData>,
}

} // verus!
