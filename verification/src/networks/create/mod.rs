//! Creating a network.

pub mod request;
pub mod response;

pub use request::{IPAMBuilder, Request, RequestBuilder, IPAM};
pub use response::CreatedNetwork;
