//! The containers of a list.

use crate::additionals::mount::Mount;
use crate::additionals::network::network_settings::NetworkSettings;
use crate::dict::Dict;
use vstd::prelude::*;

verus! {

/// A port of a container.
#[derive(Debug)]
pub struct PortInfo {
    pub ip: String,
    pub private_port: u16,
    pub public_port: u16,
    pub port_type: String,
}

/// The host-side settings that a list reports.
#[derive(Debug)]
pub struct HostConfig {
    pub network_mode: String,
}

/// One container of a list.
#[derive(Debug)]
pub struct ShortContainerInfo {
    pub id: String,
    pub names: Vec<String>,
    pub image: String,
    pub image_id: String,
    pub command: String,
    pub created: u64,
    pub ports: Vec<PortInfo>,
    pub size_rw: Option<i64>,
    pub size_root_fs: Option<i64>,
    pub labels: Dict<String>,
    pub state: String,
    pub status: String,
    pub host_config: HostConfig,
    pub network_settings: NetworkSettings,
    pub mounts: Vec<Mount>,
}

impl ShortContainerInfo {
    /// The image of the container.
    pub fn image(&self) -> (s: &str)
        ensures
            s@ == self.image@,
    {
        self.image.as_str()
    }

    /// The labels of the container.
    pub fn labels(&self) -> (r: &Dict<String>)
        ensures
            *r == self.labels,
    {
        &self.labels
    }

    /// The id of the container.
    pub fn id(&self) -> (s: &str)
        ensures
            s@ == self.id@,
    {
        self.id.as_str()
    }
}

} // verus!
