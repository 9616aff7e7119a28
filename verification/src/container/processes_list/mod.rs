//! Listing the processes of a container.

pub mod request;
pub mod response;

pub use request::ProcessesList;
pub use response::TopList;
