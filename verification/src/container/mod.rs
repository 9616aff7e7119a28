//! Requests and responses about containers.

pub mod config;
pub mod create;
pub mod creator;
pub mod fs_changes;
pub mod health_check;
pub mod info;
pub mod inspect;
pub mod kill;
pub mod list;
pub mod processes_list;
pub mod remove;
pub mod wait;

pub use create::{Config, ConfigBuilder, Create, CreateBuilder, CreatedContainer};
pub use fs_changes::FSChanges;
pub use health_check::HealthCheck;
pub use kill::{Killer, KillerBuilder};
pub use list::ShortContainerInfo;
pub use remove::{Remover, RemoverBuilder};
pub use wait::{WaitCondition, WaitStatus};
