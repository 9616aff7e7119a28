//! Inspecting a network.

pub mod request;

pub use request::{Request, RequestBuilder};
