//! Pulling or importing an image.

pub mod request;

pub use request::{Request, RequestBuilder};
