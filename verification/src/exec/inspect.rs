//! The state of an exec instance.

use vstd::prelude::*;

verus! {

/// The state of an exec instance.
#[derive(Debug, Clone)]
pub struct ExecStatus {
    pub can_remove: bool,
    pub detach_keys: String,
    pub id: String,
    pub running: bool,
    pub exit_code: i32,
    pub open_stdin: bool,
    pub open_stderr: bool,
    pub open_stdout: bool,
    pub container_id: String,
    pub pid: i32,
}

} // verus!
