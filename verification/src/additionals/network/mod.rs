//! Network settings.

pub mod ip_am_config;
pub mod network;
pub mod network_settings;

pub use ip_am_config::{IPAMConfig, IPAMConfigBuilder};
pub use network::{Network, NetworkBuilder};
pub use network_settings::{NetworkSettings, NetworkSettingsBuilder};
