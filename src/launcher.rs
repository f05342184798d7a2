//! Decisions of the launcher that reuses or creates the editor instance for
//! a directory: when to keep waiting, when to give up and with which exit
//! status, and when to start over.
use vstd::prelude::*;
use crate::model::HealthStatus;

verus! {

/// Readiness checks of a freshly started editor before giving up.
pub const READY_ATTEMPTS: u32 = 30;

/// Lookups while waiting for a registered instance to turn healthy.
pub const HEALTHY_ATTEMPTS: u32 = 60;

/// Pause between two checks of any wait loop, in milliseconds.
pub const POLL_DELAY_MS: u64 = 500;

/// Exit status when the registry refused the new instance.
pub const EXIT_REGISTRATION_FAILED: i32 = 2;

/// Exit status when the editor never became ready.
pub const EXIT_NOT_READY: i32 = 3;

/// Exit status when the instance vanished right after it was registered.
pub const EXIT_NOT_REGISTERED: i32 = 4;

/// Exit status when the instance vanished while waiting for it to turn healthy.
pub const EXIT_VANISHED: i32 = 5;

/// Exit status when the instance never turned healthy.
pub const EXIT_NOT_HEALTHY: i32 = 6;

/// Exit status of the editor that asks for a restart.
pub const RESTART_REQUEST: i32 = 2;

/// What a wait loop does next.
#[derive(Clone, Copy, Debug, PartialEq, Eq, Structural)]
pub enum WaitStep {
    /// What was waited for has happened.
    Proceed,
    /// Pause, then check again.
    Wait,
    /// Give up and exit with this status.
    Fail(i32),
}

/// After readiness check number `attempts` (from 1) of a new editor.
pub fn ready_step(attempts: u32, ready: bool) -> (r: WaitStep)
    ensures
        ready ==> r == WaitStep::Proceed,
        !ready && attempts < READY_ATTEMPTS ==> r == WaitStep::Wait,
        !ready && attempts >= READY_ATTEMPTS ==> r == WaitStep::Fail(EXIT_NOT_READY),
{
    if ready {
        WaitStep::Proceed
    } else if attempts < READY_ATTEMPTS {
        WaitStep::Wait
    } else {
        WaitStep::Fail(EXIT_NOT_READY)
    }
}

/// After lookup number `attempts` (from 1) while waiting for a registered
/// instance to turn healthy; `status` is its status, or `None` if the
/// registry no longer knows it.
pub fn healthy_step(attempts: u32, status: Option<HealthStatus>) -> (r: WaitStep)
    ensures
        status == Some(HealthStatus::Healthy) ==> r == WaitStep::Proceed,
        status is None ==> r == WaitStep::Fail(EXIT_VANISHED),
        status == Some(HealthStatus::Unknown) && attempts < HEALTHY_ATTEMPTS ==> r
            == WaitStep::Wait,
        status == Some(HealthStatus::Unknown) && attempts >= HEALTHY_ATTEMPTS ==> r
            == WaitStep::Fail(EXIT_NOT_HEALTHY),
{
    match status {
        Some(HealthStatus::Healthy) => WaitStep::Proceed,
        None => WaitStep::Fail(EXIT_VANISHED),
        Some(HealthStatus::Unknown) => if attempts < HEALTHY_ATTEMPTS {
            WaitStep::Wait
        } else {
            WaitStep::Fail(EXIT_NOT_HEALTHY)
        },
    }
}

/// What a lookup of the watched instance answered.
#[derive(Clone, Copy, Debug, PartialEq, Eq, Structural)]
pub enum Lookup {
    Found,
    Absent,
    Failed,
}

/// Whether to keep watching an instance after a lookup: until the registry
/// no longer knows it. A failed lookup is retried.
pub fn keep_watching(lookup: Lookup) -> (r: bool)
    ensures
        r == (lookup != Lookup::Absent),
{
    match lookup {
        Lookup::Absent => false,
        _ => true,
    }
}

/// Whether an editor that exited with `code` is started again.
pub fn restarts_after(code: i32) -> (r: bool)
    ensures
        r == (code == RESTART_REQUEST),
{
    code == RESTART_REQUEST
}

/// The arguments of a headless editor serving at `server_address`: it opens
/// `target_file` when given, else `target_dir`, else the current directory.
pub fn server_args(
    server_address: String,
    target_dir: Option<String>,
    target_file: Option<String>,
) -> (r: Vec<String>)
    ensures
        r@.len() == 4,
        r@[0]@ == "--listen"@,
        r@[1] == server_address,
        r@[2]@ == "--headless"@,
        match (target_file, target_dir) {
            (Some(f), _) => r@[3] == f,
            (None, Some(d)) => r@[3] == d,
            (None, None) => r@[3]@ == "."@,
        },
{
    let mut r: Vec<String> = Vec::new();
    r.push("--listen".to_string());
    r.push(server_address);
    r.push("--headless".to_string());
    let last = match target_file {
        Some(f) => f,
        None => match target_dir {
            Some(d) => d,
            None => ".".to_string(),
        },
    };
    r.push(last);
    r
}

} // verus!
