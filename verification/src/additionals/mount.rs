//! The mounts of a container, as the engine reports them.

use crate::dict::Dict;
use vstd::prelude::*;

verus! {

/// The options of a bind mount.
#[derive(Debug)]
pub struct BindOptions {
    pub propagation: String,
    pub non_recursive: bool,
}

/// The volume driver of a mount and its options.
#[derive(Debug)]
pub struct DriverConfig {
    pub name: String,
    pub options: Dict<String>,
}

/// The options of a volume mount.
#[derive(Debug)]
pub struct VolumeOptions {
    pub no_copy: bool,
    pub labels: Dict<String>,
    pub driver_config: DriverConfig,
}

/// The options of a tmpfs mount.
#[derive(Debug)]
pub struct TmpfsOptions {
    pub size_bytes: i64,
    pub mode: i32,
}

/// A mount of a container.
#[derive(Debug)]
pub struct Mount {
    pub target: Option<String>,
    pub source: String,
    pub mount_type: String,
    pub read_only: bool,
    pub consistency: String,
    pub bind_options: Option<BindOptions>,
    pub volume_options: Option<VolumeOptions>,
    pub tmpfs_options: Option<TmpfsOptions>,
}

} // verus!
