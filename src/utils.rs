//! Helpers around the editor processes.
use vstd::prelude::*;

verus! {

/// The editor client binary to start: the Windows build when running on
/// Windows or under WSL.
pub fn get_neovide_command(windows_host: bool) -> (r: &'static str)
    ensures
        r@ == (if windows_host {
            "neovide.exe"@
        } else {
            "neovide"@
        }),
{
    if windows_host {
        "neovide.exe"
    } else {
        "neovide"
    }
}

/// What to do after one attempt to make an instance quit.
#[derive(Clone, Copy, Debug, PartialEq, Eq, Structural)]
pub enum QuitStep {
    /// The instance accepted the request.
    Done,
    /// Wait, then try again.
    RetryAfterPause,
    /// Every attempt failed.
    GiveUp,
}

/// The decision after attempt number `attempt` (counting from 1) of at most
/// `max_retries` quit requests, given whether it succeeded.
pub fn quit_step(attempt: u32, max_retries: u32, succeeded: bool) -> (r: QuitStep)
    ensures
        succeeded ==> r == QuitStep::Done,
        !succeeded && attempt < max_retries ==> r == QuitStep::RetryAfterPause,
        !succeeded && attempt >= max_retries ==> r == QuitStep::GiveUp,
{
    if succeeded {
        QuitStep::Done
    } else if attempt < max_retries {
        QuitStep::RetryAfterPause
    } else {
        QuitStep::GiveUp
    }
}

} // verus!
