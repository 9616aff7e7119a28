//! What the engine reports of a container.

use crate::additionals::network::network_settings::NetworkSettings;
use crate::container::create::config::Config;
use crate::dict::Dict;
use vstd::prelude::*;

verus! {

/// The outcome of one health check.
#[derive(Debug)]
pub struct HealthCheckResult {
    pub start: String,
    pub end: String,
    pub exit_code: i32,
    pub output: String,
}

/// The health of a container.
#[derive(Debug)]
pub struct Health {
    pub status: String,
    pub failing_streak: i32,
    pub log: Vec<HealthCheckResult>,
}

/// The state of a container.
#[derive(Debug)]
pub struct State {
    pub status: String,
    pub running: bool,
    pub paused: bool,
    pub restarting: bool,
    pub oom_killed: bool,
    pub dead: bool,
    pub pid: i32,
    pub exit_code: i32,
    pub started_at: String,
    pub finished_at: String,
    pub health: Option<Health>,
}

/// The storage driver of a container and its data.
#[derive(Debug)]
pub struct GraphDriverData {
    pub name: String,
    pub data: Dict<String>,
}

/// A mount of a container.
#[derive(Debug)]
pub struct MountPoint {
    pub mount_type: String,
    pub name: String,
    pub source: String,
    pub destination: String,
    pub driver: String,
    pub mode: String,
    pub rw: bool,
    pub propagation: String,
}

/// What the engine knows of a container.
#[derive(Debug)]
pub struct ContainerInfo {
    pub id: String,
    pub created: String,
    pub path: String,
    pub args: Vec<String>,
    pub state: State,
    pub image: String,
    pub resolv_conf_path: String,
    pub hostname_path: String,
    pub hosts_path: String,
    pub log_path: String,
    pub name: String,
    pub restart_count: i32,
    pub driver: String,
    pub platform: String,
    pub mount_label: String,
    pub process_label: String,
    pub app_armor_profile: String,
    pub exec_ids: Vec<String>,
    pub graph_driver: GraphDriverData,
    pub size_rw: Option<i64>,
    pub size_root_fs: Option<i64>,
    pub mounts: Vec<MountPoint>,
    pub config: Config,
    pub network_settings: NetworkSettings,
}

} // verus!
