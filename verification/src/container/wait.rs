//! Waiting for a container.

use crate::client::error::ErrorMessage;
use vstd::prelude::*;

verus! {

/// The condition that a wait ends on.
#[derive(Debug, Clone, Copy, PartialEq, Eq, Structural)]
pub enum WaitCondition {
    /// The container does not run.
    NotRunning,
    /// The container exits the next time.
    NextExit,
    /// The container is removed.
    Removed,
}

/// The condition as the engine reads it.
pub open spec fn condition_text(c: WaitCondition) -> Seq<char> {
    match c {
        WaitCondition::NotRunning => "not-running"@,
        WaitCondition::NextExit => "next-exit"@,
        WaitCondition::Removed => "removed"@,
    }
}

impl WaitCondition {
    /// The condition as the engine reads it: `not-running`, `next-exit`
    /// or `removed`.
    pub fn to_string(&self) -> (s: String)
        ensures
            s@ == condition_text(*self),
    {
        match self {
            WaitCondition::NotRunning => "not-running".to_owned(),
            WaitCondition::NextExit => "next-exit".to_owned(),
            WaitCondition::Removed => "removed".to_owned(),
        }
    }
}

impl Default for WaitCondition {
    fn default() -> (c: Self)
        ensures
            c == WaitCondition::NotRunning,
    {
        WaitCondition::NotRunning
    }
}

/// What the engine answers when a wait is over.
#[derive(Debug)]
pub struct WaitStatus {
    /// The exit code of the container.
    pub status_code: i32,
    /// What went wrong while waiting, if anything did.
    pub error: Option<ErrorMessage>,
}

impl WaitStatus {
    /// The exit code of the container.
    pub fn status_code(&self) -> (r: i32)
        ensures
            r == self.status_code,
    {
        self.status_code
    }

    /// What went wrong while waiting, if anything did.
    pub fn error(&self) -> (r: Option<ErrorMessage>)
        ensures
            r.deep_view() == self.error.deep_view(),
    {
        match &self.error {
            Some(e) => Some(e.clone()),
            None => None,
        }
    }
}

} // verus!
