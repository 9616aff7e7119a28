//! The images of a list.

use crate::dict::Dict;
use vstd::prelude::*;

verus! {

/// One image of a list.
#[derive(Debug)]
pub struct ShortImageInfo {
    pub id: String,
    pub parent_id: String,
    pub repo_tags: Vec<String>,
    pub repo_digests: Vec<String>,
    pub created: i64,
    pub size: i64,
    pub shared_size: i64,
    pub virtual_size: i64,
    pub labels: Dict<String>,
    pub containers: i64,
}

impl ShortImageInfo {
    /// The id of the image.
    pub fn id(&self) -> (s: &str)
        ensures
            s@ == self.id@,
    {
        self.id.as_str()
    }

    /// The id of the parent image.
    pub fn parent_id(&self) -> (s: &str)
        ensures
            s@ == self.parent_id@,
    {
        self.parent_id.as_str()
    }

    /// The tags of the image.
    pub fn repo_tags(&self) -> (r: &Vec<String>)
        ensures
            *r == self.repo_tags,
    {
        &self.repo_tags
    }

    /// The digests of the image.
    pub fn repo_digests(&self) -> (r: &Vec<String>)
        ensures
            *r == self.repo_digests,
    {
        &self.repo_digests
    }

    /// When the image was created, in seconds since the epoch.
    pub fn created(&self) -> (r: i64)
        ensures
            r == self.created,
    {
        self.created
    }

    /// The size of the image, in bytes.
    pub fn size(&self) -> (r: i64)
        ensures
            r == self.size,
    {
        self.size
    }

    /// The size that the image shares with others, in bytes.
    pub fn shared_size(&self) -> (r: i64)
        ensures
            r == self.shared_size,
    {
        self.shared_size
    }

    /// The virtual size of the image, in bytes.
    pub fn virtual_size(&self) -> (r: i64)
        ensures
            r == self.virtual_size,
    {
        self.virtual_size
    }

    /// The labels of the image.
    pub fn labels(&self) -> (r: &Dict<String>)
        ensures
            *r == self.labels,
    {
        &self.labels
    }

    /// The number of containers that use the image.
    pub fn containers(&self) -> (r: i64)
        ensures
            r == self.containers,
    {
        self.containers
    }
}

} // verus!
