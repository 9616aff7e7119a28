//! Requests and responses about images.

pub mod create;
pub mod short_info;

pub use short_info::ShortImageInfo;
