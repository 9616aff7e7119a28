//! Typed requests for the Docker Engine API and a small HTTP/1.1 exchange
//! primitive to carry them over a local socket.

pub mod additionals;
pub mod client;
pub mod container;
pub mod dict;
pub mod exec;
pub mod http;
pub mod image;
pub mod json;
pub mod networks;
pub mod path;
pub mod text;
pub mod volume;

pub use client::{DockerError, DockerResponse};
pub use container::{Config, Killer, Remover};
