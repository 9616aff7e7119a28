//! The targets of the calls that take no request of their own.

use crate::container::wait::{condition_text, WaitCondition};
use crate::path::{bool_str, bool_text};
use vstd::prelude::*;

verus! {

/// `prefix`, `name` and `suffix` in a row.
pub fn between(prefix: &str, name: &str, suffix: &str) -> (s: String)
    ensures
        s@ == prefix@ + name@ + suffix@,
{
    let mut s = prefix.to_owned();
    s.append(name);
    s.append(suffix);
    s
}

/// The target that lists the changes in the file system of a container.
pub fn fs_changes_path(id: &str) -> (s: String)
    ensures
        s@ == "/containers/"@ + id@ + "/changes"@,
{
    between("/containers/", id, "/changes")
}

/// The target that starts a container.
pub fn start_path(id: &str) -> (s: String)
    ensures
        s@ == "/containers/"@ + id@ + "/start"@,
{
    between("/containers/", id, "/start")
}

/// The target that stops a container.
pub fn stop_path(id: &str) -> (s: String)
    ensures
        s@ == "/containers/"@ + id@ + "/stop"@,
{
    between("/containers/", id, "/stop")
}

/// The target that pauses a container.
pub fn pause_path(id: &str) -> (s: String)
    ensures
        s@ == "/containers/"@ + id@ + "/pause"@,
{
    between("/containers/", id, "/pause")
}

/// The target that resumes a paused container.
pub fn unpause_path(id: &str) -> (s: String)
    ensures
        s@ == "/containers/"@ + id@ + "/unpause"@,
{
    between("/containers/", id, "/unpause")
}

/// The target that renames a container.
pub fn rename_path(id: &str, new_name: &str) -> (s: String)
    ensures
        s@ == "/containers/"@ + id@ + "/rename?name="@ + new_name@,
{
    let mut s = between("/containers/", id, "/rename?name=");
    s.append(new_name);
    s
}

/// The target that reads what a container wrote to standard output.
pub fn logs_path(id: &str) -> (s: String)
    ensures
        s@ == "/containers/"@ + id@ + "/logs?stdout=true"@,
{
    between("/containers/", id, "/logs?stdout=true")
}

/// The target that waits for a container.
pub fn wait_path(id: &str, condition: WaitCondition) -> (s: String)
    ensures
        s@ == "/containers/"@ + id@ + "/wait?condition="@ + condition_text(condition),
{
    let mut s = between("/containers/", id, "/wait?condition=");
    s.append(condition.to_string().as_str());
    s
}

/// The target that exports a container as an archive.
pub fn export_path(id: &str) -> (s: String)
    ensures
        s@ == "/containers/"@ + id@ + "/export"@,
{
    between("/containers/", id, "/export")
}

/// The target that inspects a volume.
pub fn volume_path(name: &str) -> (s: String)
    ensures
        s@ == "/volumes/"@ + name@,
{
    let mut s = "/volumes/".to_owned();
    s.append(name);
    s
}

/// The target that removes a volume.
pub fn remove_volume_path(name: &str, force: bool) -> (s: String)
    ensures
        s@ == "/volumes/"@ + name@ + "?force="@ + bool_text(force),
{
    let mut s = between("/volumes/", name, "?force=");
    s.append(bool_str(force));
    s
}

/// The target that starts an exec instance.
pub fn exec_start_path(id: &str) -> (s: String)
    ensures
        s@ == "/exec/"@ + id@ + "/start"@,
{
    between("/exec/", id, "/start")
}

/// The target that inspects an exec instance.
pub fn exec_inspect_path(id: &str) -> (s: String)
    ensures
        s@ == "/exec/"@ + id@ + "/json"@,
{
    between("/exec/", id, "/json")
}

} // verus!
