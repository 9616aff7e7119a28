//! What the engine reports of a container.

use crate::container::config::Config;
use vstd::prelude::*;

verus! {

/// A mount of a container.
#[derive(Debug)]
pub struct Mounts {
    pub mount_type: Option<String>,
    pub name: Option<String>,
    pub source: String,
    pub destination: String,
    pub driver: Option<String>,
    pub mode: String,
    pub rw: bool,
    pub propagation: String,
}

/// The state of a container.
#[derive(Debug)]
pub struct State {
    pub status: String,
    pub running: bool,
    pub paused: bool,
    pub restarting: bool,
    pub oom_killed: bool,
    pub dead: bool,
    pub pid: i32,
    pub exit_code: i32,
    pub error: String,
    pub started: String,
    pub finished: String,
}

/// What the engine knows of a container.
#[derive(Debug)]
pub struct ContainerInfo {
    pub id: String,
    pub created: String,
    pub path: String,
    pub args: Vec<String>,
    pub state: State,
    pub image: String,
    pub resolve_conf_path: String,
    pub hostname_path: String,
    pub hosts_path: String,
    pub log_path: String,
    pub name: String,
    pub restart_count: i32,
    pub driver: String,
    pub mount_label: String,
    pub process_label: String,
    pub app_armor_profile: String,
    pub size_rw: Option<i64>,
    pub size_root_fs: Option<i64>,
    pub config: Config,
}

} // verus!
