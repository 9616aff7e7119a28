//! Listing containers.

pub mod filters;
pub mod request;
pub mod response;

pub use filters::{Filters, FiltersBuilder};
pub use request::{Request, RequestBuilder};
pub use response::ShortContainerInfo;
