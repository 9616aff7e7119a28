//! What each call to the engine sends, and what each status of its answer
//! means.

use crate::client::error::{DockerError, ErrorMessage};
use crate::http::request::{HTTPMethod, Request};
use crate::http::url::URI;
use vstd::prelude::*;

verus! {

/// The calls to the engine.
#[derive(Debug, Clone, Copy, PartialEq, Eq, Structural)]
pub enum Call {
    Top,
    ContainersList,
    CreateContainer,
    GetFsChanges,
    StartContainer,
    StopContainer,
    PauseContainer,
    UnpauseContainer,
    RenameContainer,
    KillContainer,
    RemoveContainer,
    InspectContainer,
    GetContainerLog,
    WaitContainer,
    ExportContainer,
    GetImageList,
    CreateVolume,
    InspectVolume,
    RemoveVolume,
    DeleteUnusedVolumes,
    GetVolumesList,
    PullImage,
    CreateNetwork,
    InspectNetwork,
    ConnectContainerToNetwork,
    CreateExecInstance,
    StartExec,
    InspectExec,
}

/// What a status means for a call.
#[derive(Debug, Clone, Copy, PartialEq, Eq, Structural)]
pub enum Verdict {
    /// The call succeeded.
    Success,
    BadParameters,
    ServerError,
    NotFound,
    NotRunning,
    ContainerExists,
    NetworkExists,
    Busy,
    ContainerPaused,
    /// The call does not know this status.
    UnknownStatus,
}

/// The method that a call is sent with.
pub open spec fn method_of(call: Call) -> HTTPMethod {
    match call {
        Call::Top
        | Call::ContainersList
        | Call::GetFsChanges
        | Call::InspectContainer
        | Call::GetContainerLog
        | Call::ExportContainer
        | Call::GetImageList
        | Call::InspectVolume
        | Call::GetVolumesList
        | Call::InspectNetwork
        | Call::InspectExec => HTTPMethod::GET,
        Call::RemoveContainer | Call::RemoveVolume => HTTPMethod::DELETE,
        _ => HTTPMethod::POST,
    }
}

/// The status with which a call succeeds other than 200: 201 for the
/// calls that create, 204 for those that act on a container or remove a
/// volume; none for the rest.
pub open spec fn success_status(call: Call) -> Option<u16> {
    match call {
        Call::CreateContainer
        | Call::CreateVolume
        | Call::CreateNetwork
        | Call::CreateExecInstance => Some(201),
        Call::StartContainer
        | Call::StopContainer
        | Call::PauseContainer
        | Call::UnpauseContainer
        | Call::RenameContainer
        | Call::KillContainer
        | Call::RemoveContainer
        | Call::RemoveVolume => Some(204),
        _ => None,
    }
}

/// Whether the status `status` means success for `call`: 200 where the
/// call has no status of its own, else that status; 304 too where a
/// container is started or stopped that runs or rests already.
pub open spec fn succeeds(call: Call, status: u16) -> bool {
    match success_status(call) {
        Some(s) => status == s || (status == 304 && (call == Call::StartContainer || call
            == Call::StopContainer)),
        None => status == 200,
    }
}

/// Whether a call reports malformed parameters with status 400.
pub open spec fn knows_bad_parameters(call: Call) -> bool {
    match call {
        Call::ContainersList
        | Call::CreateContainer
        | Call::KillContainer
        | Call::RemoveContainer
        | Call::CreateVolume
        | Call::InspectVolume
        | Call::RemoveVolume
        | Call::DeleteUnusedVolumes
        | Call::GetVolumesList
        | Call::StartExec => true,
        _ => false,
    }
}

/// Whether a call reports a missing object with status 404.
pub open spec fn knows_not_found(call: Call) -> bool {
    match call {
        Call::ContainersList
        | Call::GetImageList
        | Call::CreateVolume
        | Call::DeleteUnusedVolumes
        | Call::GetVolumesList => false,
        _ => true,
    }
}

/// What status 409 means for a call, where it means anything.
pub open spec fn conflict_of(call: Call) -> Option<Verdict> {
    match call {
        Call::CreateContainer | Call::RenameContainer => Some(Verdict::ContainerExists),
        Call::KillContainer | Call::RemoveContainer => Some(Verdict::NotRunning),
        Call::RemoveVolume => Some(Verdict::Busy),
        Call::CreateNetwork => Some(Verdict::NetworkExists),
        Call::CreateExecInstance | Call::StartExec => Some(Verdict::ContainerPaused),
        _ => None,
    }
}

/// What the status `status` means for `call`.
pub open spec fn verdict_of(call: Call, status: u16) -> Verdict {
    if succeeds(call, status) {
        Verdict::Success
    } else if status == 400 && knows_bad_parameters(call) {
        Verdict::BadParameters
    } else if status == 404 && knows_not_found(call) {
        Verdict::NotFound
    } else if status == 409 && conflict_of(call) is Some {
        conflict_of(call)->Some_0
    } else if status == 500 {
        Verdict::ServerError
    } else {
        Verdict::UnknownStatus
    }
}

/// The method that `call` is sent with.
pub fn method_for(call: Call) -> (m: HTTPMethod)
    ensures
        m == method_of(call),
{
    match call {
        Call::Top
        | Call::ContainersList
        | Call::GetFsChanges
        | Call::InspectContainer
        | Call::GetContainerLog
        | Call::ExportContainer
        | Call::GetImageList
        | Call::InspectVolume
        | Call::GetVolumesList
        | Call::InspectNetwork
        | Call::InspectExec => HTTPMethod::GET,
        Call::RemoveContainer | Call::RemoveVolume => HTTPMethod::DELETE,
        _ => HTTPMethod::POST,
    }
}

fn conflict_for(call: Call) -> (v: Option<Verdict>)
    ensures
        v == conflict_of(call),
{
    match call {
        Call::CreateContainer | Call::RenameContainer => Some(Verdict::ContainerExists),
        Call::KillContainer | Call::RemoveContainer => Some(Verdict::NotRunning),
        Call::RemoveVolume => Some(Verdict::Busy),
        Call::CreateNetwork => Some(Verdict::NetworkExists),
        Call::CreateExecInstance | Call::StartExec => Some(Verdict::ContainerPaused),
        _ => None,
    }
}

/// What the status `status` of the answer means for `call`.
pub fn judge(call: Call, status: u16) -> (v: Verdict)
    ensures
        v == verdict_of(call, status),
{
    match (call, status) {
        (Call::Top, 200) => Verdict::Success,
        (Call::Top, 404) => Verdict::NotFound,
        (Call::ContainersList, 200) => Verdict::Success,
        (Call::ContainersList, 400) => Verdict::BadParameters,
        (Call::CreateContainer, 201) => Verdict::Success,
        (Call::CreateContainer, 400) => Verdict::BadParameters,
        (Call::CreateContainer, 404) => Verdict::NotFound,
        (Call::GetFsChanges, 200) => Verdict::Success,
        (Call::GetFsChanges, 404) => Verdict::NotFound,
        (Call::StartContainer, 204) | (Call::StartContainer, 304) => Verdict::Success,
        (Call::StartContainer, 404) => Verdict::NotFound,
        (Call::StopContainer, 204) | (Call::StopContainer, 304) => Verdict::Success,
        (Call::StopContainer, 404) => Verdict::NotFound,
        (Call::PauseContainer, 204) => Verdict::Success,
        (Call::PauseContainer, 404) => Verdict::NotFound,
        (Call::UnpauseContainer, 204) => Verdict::Success,
        (Call::UnpauseContainer, 404) => Verdict::NotFound,
        (Call::RenameContainer, 204) => Verdict::Success,
        (Call::RenameContainer, 404) => Verdict::NotFound,
        (Call::KillContainer, 204) => Verdict::Success,
        (Call::KillContainer, 400) => Verdict::BadParameters,
        (Call::KillContainer, 404) => Verdict::NotFound,
        (Call::RemoveContainer, 204) => Verdict::Success,
        (Call::RemoveContainer, 400) => Verdict::BadParameters,
        (Call::RemoveContainer, 404) => Verdict::NotFound,
        (Call::InspectContainer, 200) => Verdict::Success,
        (Call::InspectContainer, 404) => Verdict::NotFound,
        (Call::GetContainerLog, 200) => Verdict::Success,
        (Call::GetContainerLog, 404) => Verdict::NotFound,
        (Call::WaitContainer, 200) => Verdict::Success,
        (Call::WaitContainer, 404) => Verdict::NotFound,
        (Call::ExportContainer, 200) => Verdict::Success,
        (Call::ExportContainer, 404) => Verdict::NotFound,
        (Call::GetImageList, 200) => Verdict::Success,
        (Call::CreateVolume, 201) => Verdict::Success,
        (Call::CreateVolume, 400) => Verdict::BadParameters,
        (Call::InspectVolume, 200) => Verdict::Success,
        (Call::InspectVolume, 400) => Verdict::BadParameters,
        (Call::InspectVolume, 404) => Verdict::NotFound,
        (Call::RemoveVolume, 204) => Verdict::Success,
        (Call::RemoveVolume, 400) => Verdict::BadParameters,
        (Call::RemoveVolume, 404) => Verdict::NotFound,
        (Call::DeleteUnusedVolumes, 200) => Verdict::Success,
        (Call::DeleteUnusedVolumes, 400) => Verdict::BadParameters,
        (Call::GetVolumesList, 200) => Verdict::Success,
        (Call::GetVolumesList, 400) => Verdict::BadParameters,
        (Call::PullImage, 200) => Verdict::Success,
        (Call::PullImage, 404) => Verdict::NotFound,
        (Call::CreateNetwork, 201) => Verdict::Success,
        (Call::CreateNetwork, 404) => Verdict::NotFound,
        (Call::InspectNetwork, 200) => Verdict::Success,
        (Call::InspectNetwork, 404) => Verdict::NotFound,
        (Call::ConnectContainerToNetwork, 200) => Verdict::Success,
        (Call::ConnectContainerToNetwork, 404) => Verdict::NotFound,
        (Call::CreateExecInstance, 201) => Verdict::Success,
        (Call::CreateExecInstance, 404) => Verdict::NotFound,
        (Call::StartExec, 200) => Verdict::Success,
        (Call::StartExec, 400) => Verdict::BadParameters,
        (Call::StartExec, 404) => Verdict::NotFound,
        (Call::InspectExec, 200) => Verdict::Success,
        (Call::InspectExec, 404) => Verdict::NotFound,
        (_, 409) => match conflict_for(call) {
            Some(v) => v,
            None => Verdict::UnknownStatus,
        },
        (_, 500) => Verdict::ServerError,
        _ => Verdict::UnknownStatus,
    }
}

/// The outcome that the verdict `v` stands for, with `message` as the
/// message of an error.
pub open spec fn outcome_of(v: Verdict, message: ErrorMessage) -> Result<(), DockerError> {
    match v {
        Verdict::Success => Ok(()),
        Verdict::BadParameters => Err(DockerError::BadParameters(message)),
        Verdict::ServerError => Err(DockerError::ServerError(message)),
        Verdict::NotFound => Err(DockerError::NotFound(message)),
        Verdict::NotRunning => Err(DockerError::NotRunning(message)),
        Verdict::ContainerExists => Err(DockerError::ContainerExists(message)),
        Verdict::NetworkExists => Err(DockerError::NetworkExists(message)),
        Verdict::Busy => Err(DockerError::Busy(message)),
        Verdict::ContainerPaused => Err(DockerError::ContainerPaused(message)),
        Verdict::UnknownStatus => Err(DockerError::UnknownStatus),
    }
}

/// Whether the answer's body is read as an error message under the
/// verdict `v`.
pub open spec fn carries_message(v: Verdict) -> bool {
    v != Verdict::Success && v != Verdict::UnknownStatus
}

/// Whether the answer's body is to be read as an error message.
pub fn needs_message(v: Verdict) -> (b: bool)
    ensures
        b == carries_message(v),
{
    match v {
        Verdict::Success | Verdict::UnknownStatus => false,
        _ => true,
    }
}

/// The outcome of a call under the verdict `v`, where `message` is what
/// the answer's body says.
pub fn outcome(v: Verdict, message: ErrorMessage) -> (r: Result<(), DockerError>)
    ensures
        r == outcome_of(v, message),
{
    match v {
        Verdict::Success => Ok(()),
        Verdict::BadParameters => Err(DockerError::BadParameters(message)),
        Verdict::ServerError => Err(DockerError::ServerError(message)),
        Verdict::NotFound => Err(DockerError::NotFound(message)),
        Verdict::NotRunning => Err(DockerError::NotRunning(message)),
        Verdict::ContainerExists => Err(DockerError::ContainerExists(message)),
        Verdict::NetworkExists => Err(DockerError::NetworkExists(message)),
        Verdict::Busy => Err(DockerError::Busy(message)),
        Verdict::ContainerPaused => Err(DockerError::ContainerPaused(message)),
        Verdict::UnknownStatus => Err(DockerError::UnknownStatus),
    }
}

/// The headers of a call: `X-Registry-Auth` where credentials are given.
pub open spec fn call_headers(auth: Option<Seq<char>>) -> Seq<(Seq<char>, Seq<char>)> {
    match auth {
        Some(a) => seq![("X-Registry-Auth"@, a)],
        None => Seq::empty(),
    }
}

/// The request of `call`: its method, the target `target`, the body
/// `body`, and the encoded credentials `auth` where there are any. The
/// encoder adds the headers that describe the body.
pub fn request_for(call: Call, target: &str, body: &str, auth: Option<&str>) -> (r: Request)
    ensures
        r.method() == method_of(call),
        r.target() == target@,
        r.headers() == call_headers(auth.deep_view()),
        r.body() == body@,
        r.wf(),
{
    let uri = URI::with_path(target).build();
    let mut builder = Request::new();
    builder.method(method_for(call)).url(uri).content(body);
    match auth {
        Some(a) => {
            builder.header("X-Registry-Auth", a);
            proof {
                let none = Seq::<(Seq<char>, Seq<char>)>::empty();
                assert(!crate::dict::has_key(none, "X-Registry-Auth"@));
                assert(crate::dict::put(none, "X-Registry-Auth"@, a@) =~= call_headers(
                    auth.deep_view(),
                ));
            }
        },
        None => {},
    }
    builder.build()
}

} // verus!
