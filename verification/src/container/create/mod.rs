//! Creating a container.

pub mod config;
pub mod request;
pub mod response;

pub use config::{Config, ConfigBuilder};
pub use request::{Create, CreateBuilder};
pub use response::CreatedContainer;
