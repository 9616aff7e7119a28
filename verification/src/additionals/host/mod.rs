//! Host-side settings.

pub mod host_config;

pub use host_config::{HostConfig, HostConfigBuilder, PortBinding};
