//! Requests and responses about volumes.

pub mod create;
pub mod delete;
pub mod info;
pub mod list;

pub use create::VolumeCreator;
pub use delete::DeletedInfo;
pub use info::VolumeInfo;
pub use list::VolumesList;
