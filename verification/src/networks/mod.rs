//! Requests and responses about networks.

pub mod connect;
pub mod create;
pub mod inspect;
