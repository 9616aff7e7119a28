use docker_client::client::auth::registry_auth;
use docker_client::client::dispatch::{judge, method_for, needs_message, outcome, request_for};
use docker_client::client::endpoint::{endpoint_for, strip_prefix};
use docker_client::client::paths;
use docker_client::client::{Call, DockerError, DockerResponse, Endpoint, ErrorMessage, Verdict};
use docker_client::container::create::CreatedContainer;
use docker_client::container::{FSChanges, WaitCondition, WaitStatus};
use docker_client::http::HTTPMethod;
use docker_client::networks::create::CreatedNetwork;

fn message(text: &str) -> ErrorMessage {
    ErrorMessage { message: text.to_string() }
}

#[test]
fn statuses_mean_what_each_call_says() {
    assert_eq!(judge(Call::Top, 200), Verdict::Success);
    assert_eq!(judge(Call::Top, 400), Verdict::UnknownStatus);
    assert_eq!(judge(Call::Top, 404), Verdict::NotFound);
    assert_eq!(judge(Call::Top, 500), Verdict::ServerError);
    assert_eq!(judge(Call::ContainersList, 400), Verdict::BadParameters);
    assert_eq!(judge(Call::ContainersList, 404), Verdict::UnknownStatus);
    assert_eq!(judge(Call::CreateContainer, 201), Verdict::Success);
    assert_eq!(judge(Call::CreateContainer, 200), Verdict::UnknownStatus);
    assert_eq!(judge(Call::CreateContainer, 409), Verdict::ContainerExists);
    assert_eq!(judge(Call::StartContainer, 204), Verdict::Success);
    assert_eq!(judge(Call::StartContainer, 304), Verdict::Success);
    assert_eq!(judge(Call::StopContainer, 304), Verdict::Success);
    assert_eq!(judge(Call::PauseContainer, 304), Verdict::UnknownStatus);
    assert_eq!(judge(Call::RenameContainer, 409), Verdict::ContainerExists);
    assert_eq!(judge(Call::KillContainer, 409), Verdict::NotRunning);
    assert_eq!(judge(Call::KillContainer, 400), Verdict::BadParameters);
    assert_eq!(judge(Call::RemoveContainer, 409), Verdict::NotRunning);
    assert_eq!(judge(Call::RemoveVolume, 409), Verdict::Busy);
    assert_eq!(judge(Call::RemoveVolume, 204), Verdict::Success);
    assert_eq!(judge(Call::CreateNetwork, 409), Verdict::NetworkExists);
    assert_eq!(judge(Call::CreateNetwork, 400), Verdict::UnknownStatus);
    assert_eq!(judge(Call::CreateExecInstance, 409), Verdict::ContainerPaused);
    assert_eq!(judge(Call::StartExec, 409), Verdict::ContainerPaused);
    assert_eq!(judge(Call::StartExec, 200), Verdict::Success);
    assert_eq!(judge(Call::InspectExec, 409), Verdict::UnknownStatus);
    assert_eq!(judge(Call::GetImageList, 404), Verdict::UnknownStatus);
    assert_eq!(judge(Call::GetImageList, 500), Verdict::ServerError);
    assert_eq!(judge(Call::CreateVolume, 201), Verdict::Success);
    assert_eq!(judge(Call::CreateVolume, 404), Verdict::UnknownStatus);
    assert_eq!(judge(Call::PullImage, 200), Verdict::Success);
    assert_eq!(judge(Call::PullImage, 0), Verdict::UnknownStatus);
    assert_eq!(judge(Call::WaitContainer, 200), Verdict::Success);
    assert_eq!(judge(Call::ConnectContainerToNetwork, 404), Verdict::NotFound);
}

#[test]
fn every_call_knows_a_server_error() {
    let calls = [
        Call::Top,
        Call::ContainersList,
        Call::CreateContainer,
        Call::GetFsChanges,
        Call::StartContainer,
        Call::StopContainer,
        Call::PauseContainer,
        Call::UnpauseContainer,
        Call::RenameContainer,
        Call::KillContainer,
        Call::RemoveContainer,
        Call::InspectContainer,
        Call::GetContainerLog,
        Call::WaitContainer,
        Call::ExportContainer,
        Call::GetImageList,
        Call::CreateVolume,
        Call::InspectVolume,
        Call::RemoveVolume,
        Call::DeleteUnusedVolumes,
        Call::GetVolumesList,
        Call::PullImage,
        Call::CreateNetwork,
        Call::InspectNetwork,
        Call::ConnectContainerToNetwork,
        Call::CreateExecInstance,
        Call::StartExec,
        Call::InspectExec,
    ];
    for call in calls {
        assert_eq!(judge(call, 500), Verdict::ServerError);
        assert_eq!(judge(call, 418), Verdict::UnknownStatus);
        let successes = [200u16, 201, 204, 304].iter().filter(|s| judge(call, **s) == Verdict::Success).count();
        assert!(successes >= 1 && successes <= 2);
    }
}

#[test]
fn calls_have_their_methods() {
    assert_eq!(method_for(Call::Top), HTTPMethod::GET);
    assert_eq!(method_for(Call::InspectExec), HTTPMethod::GET);
    assert_eq!(method_for(Call::RemoveContainer), HTTPMethod::DELETE);
    assert_eq!(method_for(Call::RemoveVolume), HTTPMethod::DELETE);
    assert_eq!(method_for(Call::CreateContainer), HTTPMethod::POST);
    assert_eq!(method_for(Call::WaitContainer), HTTPMethod::POST);
    assert_eq!(method_for(Call::DeleteUnusedVolumes), HTTPMethod::POST);
}

#[test]
fn verdicts_become_errors() {
    assert!(matches!(outcome(Verdict::Success, message("m")), Ok(())));
    assert!(matches!(outcome(Verdict::BadParameters, message("m")), Err(DockerError::BadParameters(m)) if m.message == "m"));
    assert!(matches!(outcome(Verdict::ServerError, message("m")), Err(DockerError::ServerError(m)) if m.message == "m"));
    assert!(matches!(outcome(Verdict::NotFound, message("m")), Err(DockerError::NotFound(m)) if m.message == "m"));
    assert!(matches!(outcome(Verdict::NotRunning, message("m")), Err(DockerError::NotRunning(m)) if m.message == "m"));
    assert!(matches!(outcome(Verdict::ContainerExists, message("m")), Err(DockerError::ContainerExists(m)) if m.message == "m"));
    assert!(matches!(outcome(Verdict::NetworkExists, message("m")), Err(DockerError::NetworkExists(m)) if m.message == "m"));
    assert!(matches!(outcome(Verdict::Busy, message("m")), Err(DockerError::Busy(m)) if m.message == "m"));
    assert!(matches!(outcome(Verdict::ContainerPaused, message("m")), Err(DockerError::ContainerPaused(m)) if m.message == "m"));
    assert!(matches!(outcome(Verdict::UnknownStatus, message("m")), Err(DockerError::UnknownStatus)));
    assert!(!needs_message(Verdict::Success));
    assert!(!needs_message(Verdict::UnknownStatus));
    assert!(needs_message(Verdict::NotFound));
    assert!(needs_message(Verdict::Busy));
}

#[test]
fn errors_carry_their_messages() {
    let errors = vec![
        DockerError::BadParameters(message("a")),
        DockerError::ServerError(message("a")),
        DockerError::NotFound(message("a")),
        DockerError::NotRunning(message("a")),
        DockerError::AlreadyStarted(message("a")),
        DockerError::ContainerExists(message("a")),
        DockerError::NetworkExists(message("a")),
        DockerError::Busy(message("a")),
        DockerError::ContainerPaused(message("a")),
    ];
    for error in errors {
        assert_eq!(error.get_error_message().as_deref(), Some("a"));
    }
    assert_eq!(DockerError::UnknownStatus.get_error_message(), None);
    assert_eq!(DockerError::ClosedConnection.get_error_message(), None);
    assert_eq!(message("x").clone().message, "x");
}

#[test]
fn credentials_are_encoded_in_base64() {
    assert_eq!(registry_auth("{}").as_deref(), Some("e30="));
    assert_eq!(registry_auth("").as_deref(), Some(""));
    assert_eq!(
        registry_auth("{\"username\":\"u\",\"password\":\"p\"}").as_deref(),
        Some("eyJ1c2VybmFtZSI6InUiLCJwYXNzd29yZCI6InAifQ==")
    );
}

#[test]
fn requests_of_calls_carry_method_target_and_credentials() {
    let request = request_for(Call::PullImage, "/images/create?fromImage=a", "", Some("e30="));
    assert_eq!(
        request.to_string(),
        "POST /images/create?fromImage=a HTTP/1.1\r\nX-Registry-Auth: e30=\r\nHost: 127.0.0.1\r\n\r\n"
    );
    let request = request_for(Call::CreateVolume, "/volumes/create", "{\"Name\":\"v\"}", None);
    assert_eq!(
        request.to_string(),
        "POST /volumes/create HTTP/1.1\r\nHost: 127.0.0.1\r\nContent-Length: 12\r\n\
         Content-Type: application/json\r\n\r\n{\"Name\":\"v\"}"
    );
    let request = request_for(Call::RemoveVolume, "/volumes/v?force=true", "", None);
    assert_eq!(request.to_string(), "DELETE /volumes/v?force=true HTTP/1.1\r\nHost: 127.0.0.1\r\n\r\n");
    let request = request_for(Call::GetVolumesList, "/volumes", "", None);
    assert_eq!(request.to_string(), "GET /volumes HTTP/1.1\r\nHost: 127.0.0.1\r\n\r\n");
}

#[test]
fn engine_address_follows_docker_host() {
    assert!(matches!(endpoint_for(None), Some(Endpoint::Unix(p)) if p == "/var/run/docker.sock"));
    assert!(matches!(endpoint_for(Some("unix:///run/d.sock")), Some(Endpoint::Unix(p)) if p == "/run/d.sock"));
    assert!(matches!(endpoint_for(Some("tcp://localhost:2375")), Some(Endpoint::Tcp(h)) if h == "localhost:2375"));
    assert!(matches!(endpoint_for(Some("tcp://")), Some(Endpoint::Tcp(h)) if h.is_empty()));
    assert!(endpoint_for(Some("localhost:2375")).is_none());
    assert!(endpoint_for(Some("")).is_none());
    assert!(endpoint_for(Some("unix:/")).is_none());
    assert_eq!(strip_prefix("\u{e9}t\u{e9}", "\u{e9}"), Some("t\u{e9}"));
    assert_eq!(strip_prefix("abc", ""), Some("abc"));
    assert_eq!(strip_prefix("ab", "abc"), None);
    assert_eq!(strip_prefix("abc", "abc"), Some(""));
}

#[test]
fn calls_without_a_request_have_their_targets() {
    assert_eq!(paths::fs_changes_path("purge"), "/containers/purge/changes");
    assert_eq!(paths::start_path("c"), "/containers/c/start");
    assert_eq!(paths::stop_path("123"), "/containers/123/stop");
    assert_eq!(paths::pause_path("123"), "/containers/123/pause");
    assert_eq!(paths::unpause_path("123"), "/containers/123/unpause");
    assert_eq!(paths::rename_path("purge", "purge1"), "/containers/purge/rename?name=purge1");
    assert_eq!(paths::logs_path("psql"), "/containers/psql/logs?stdout=true");
    assert_eq!(
        paths::wait_path("test", WaitCondition::NextExit),
        "/containers/test/wait?condition=next-exit"
    );
    assert_eq!(paths::export_path("c"), "/containers/c/export");
    assert_eq!(paths::volume_path("volume-test"), "/volumes/volume-test");
    assert_eq!(paths::remove_volume_path("v", true), "/volumes/v?force=true");
    assert_eq!(paths::remove_volume_path("v", false), "/volumes/v?force=false");
    assert_eq!(paths::exec_start_path("e"), "/exec/e/start");
    assert_eq!(paths::exec_inspect_path("e"), "/exec/e/json");
    assert_eq!(paths::between("a", "b", "c"), "abc");
}

#[test]
fn answers_are_read_as_text_where_they_are_text() {
    let answer = DockerResponse { status: 200, body: b"[{\"Id\":\"a\"}]".to_vec() };
    assert_eq!(answer.body_as_string().as_deref(), Some("[{\"Id\":\"a\"}]"));
    let answer = DockerResponse { status: 200, body: vec![0xff, 0xfe] };
    assert_eq!(answer.body_as_string(), None);
    let answer = DockerResponse { status: 204, body: Vec::new() };
    assert_eq!(answer.body_as_string().as_deref(), Some(""));
}

#[test]
fn answers_give_their_fields() {
    let created = CreatedContainer { id: "abc".to_string(), warnings: vec!["w".to_string()] };
    assert_eq!(created.id(), "abc");
    let created = docker_client::container::config::CreatedContainer {
        id: "abc".to_string(),
        warnings: vec!["w".to_string()],
    };
    assert_eq!(created.id(), "abc");
    assert_eq!(created.warnings(), vec!["w"]);
    let change = FSChanges { path: "/etc".to_string(), kind: 1 };
    assert_eq!(change.path(), "/etc");
    assert_eq!(change.kind(), 1);
    let status = WaitStatus { status_code: 3, error: Some(message("boom")) };
    assert_eq!(status.status_code(), 3);
    assert_eq!(status.error().unwrap().message, "boom");
    let status = WaitStatus { status_code: 0, error: None };
    assert!(status.error().is_none());
    let network = CreatedNetwork { id: "n".to_string(), warning: "w".to_string() };
    assert_eq!(network.id(), "n");
    assert_eq!(network.warning(), "w");
}
