//! Running commands in a container.

pub mod create;
pub mod inspect;

pub use create::{Exec, Request, RequestBuilder};
pub use inspect::ExecStatus;
