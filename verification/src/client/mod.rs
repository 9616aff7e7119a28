//! What a client of the engine decides: where to connect, what to send
//! for each call, and what each answer means.

pub mod auth;
pub mod dispatch;
pub mod endpoint;
pub mod error;
pub mod paths;
pub mod response;

pub use auth::Auth;
pub use dispatch::{Call, Verdict};
pub use endpoint::Endpoint;
pub use error::{DockerError, ErrorMessage};
pub use response::DockerResponse;
