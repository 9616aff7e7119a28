//! Inspecting a container.

pub mod request;
pub mod response;

pub use request::Inspect;
pub use response::ContainerInfo;
