//! Connecting a container to a network.

pub mod request;

pub use request::{Request, RequestBuilder};
