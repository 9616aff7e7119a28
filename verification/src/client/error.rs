//! The errors of a call to the engine.

use vstd::prelude::*;

verus! {

/// The message of an error that the engine reports.
#[derive(Debug)]
pub struct ErrorMessage {
    /// The message, as the engine gave it.
    pub message: String,
}

/// What a [`ErrorMessage`] holds.
pub struct ErrorMessageModel {
    pub message: Seq<char>,
}

impl View for ErrorMessage {
    type V = ErrorMessageModel;

    open spec fn view(&self) -> ErrorMessageModel {
        ErrorMessageModel {
            message: self.message.deep_view(),
        }
    }
}

impl DeepView for ErrorMessage {
    type V = ErrorMessageModel;

    open spec fn deep_view(&self) -> ErrorMessageModel {
        self@
    }
}

impl Clone for ErrorMessage {
    fn clone(&self) -> (res: Self)
        ensures
            res@ == self@,
    {
        let message = self.message.clone();
        ErrorMessage {
            message,
        }
    }
}

/// Why a call to the engine failed.
#[derive(Debug)]
pub enum DockerError {
    /// The request was malformed (status 400).
    BadParameters(ErrorMessage),
    /// The engine failed (status 500).
    ServerError(ErrorMessage),
    /// There is no such object (status 404).
    NotFound(ErrorMessage),
    /// The container does not run (status 409).
    NotRunning(ErrorMessage),
    /// The container runs already (status 304).
    AlreadyStarted(ErrorMessage),
    /// A container of this name exists (status 409).
    ContainerExists(ErrorMessage),
    /// A network of this name exists (status 409).
    NetworkExists(ErrorMessage),
    /// The object is in use (status 409).
    Busy(ErrorMessage),
    /// The container is paused.
    ContainerPaused(ErrorMessage),
    /// The engine answered with a status that the call does not know.
    UnknownStatus,
    /// The connection was closed before an answer came.
    ClosedConnection,
}

/// The message that an error carries, if it carries one.
pub open spec fn message_of(e: DockerError) -> Option<Seq<char>> {
    match e {
        DockerError::BadParameters(m) => Some(m.message@),
        DockerError::ServerError(m) => Some(m.message@),
        DockerError::NotFound(m) => Some(m.message@),
        DockerError::NotRunning(m) => Some(m.message@),
        DockerError::AlreadyStarted(m) => Some(m.message@),
        DockerError::ContainerExists(m) => Some(m.message@),
        DockerError::NetworkExists(m) => Some(m.message@),
        DockerError::Busy(m) => Some(m.message@),
        DockerError::ContainerPaused(m) => Some(m.message@),
        DockerError::UnknownStatus => None,
        DockerError::ClosedConnection => None,
    }
}

impl DockerError {
    /// The message that the error carries: none for an unknown status
    /// and for a closed connection.
    pub fn get_error_message(&self) -> (r: Option<String>)
        ensures
            r.deep_view() == message_of(*self),
    {
        match self {
            DockerError::BadParameters(msg) => Some(msg.message.clone()),
            DockerError::ServerError(msg) => Some(msg.message.clone()),
            DockerError::NotFound(msg) => Some(msg.message.clone()),
            DockerError::NotRunning(msg) => Some(msg.message.clone()),
            DockerError::AlreadyStarted(msg) => Some(msg.message.clone()),
            DockerError::ContainerExists(msg) => Some(msg.message.clone()),
            DockerError::NetworkExists(msg) => Some(msg.message.clone()),
            DockerError::Busy(msg) => Some(msg.message.clone()),
            DockerError::ContainerPaused(msg) => Some(msg.message.clone()),
            DockerError::UnknownStatus => None,
            DockerError::ClosedConnection => None,
        }
    }
}

} // verus!
