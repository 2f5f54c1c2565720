//! Running as a Windows service: what each control request is answered,
//! and the states reported to the service control manager.
use vstd::prelude::*;

verus! {

/// A control request of the service control manager.
#[derive(Debug, Clone, Copy, PartialEq, Eq, Structural)]
pub enum ScmControl {
    /// Stop.
    Stop,
    /// System shutdown.
    Shutdown,
    /// Status query.
    Interrogate,
    /// Anything else.
    Other,
}

/// How a control request is handled: whether it asks the service to shut
/// down, and whether it is handled (else "not implemented").
pub fn control_reply(c: ScmControl) -> (r: (bool, bool))
    ensures
        r.0 == (c == ScmControl::Stop || c == ScmControl::Shutdown),
        r.1 == (c != ScmControl::Other),
{
    match c {
        ScmControl::Stop | ScmControl::Shutdown => (true, true),
        ScmControl::Interrogate => (false, true),
        ScmControl::Other => (false, false),
    }
}

/// A state reported to the service control manager.
#[derive(Debug, Clone, Copy, PartialEq, Eq, Structural)]
pub enum HostState {
    /// Starting.
    StartPending,
    /// Running.
    Running,
    /// Stopped.
    Stopped,
}

/// A status report (own-process service).
#[derive(Debug, Clone, Copy, PartialEq, Eq, Structural)]
pub struct HostStatus {
    /// State.
    pub state: HostState,
    /// Stop and shutdown requests are accepted.
    pub accepts_stop: bool,
    /// Win32 exit code.
    pub exit_code: u32,
    /// Progress checkpoint.
    pub checkpoint: u32,
    /// Expected time to the next report (milliseconds).
    pub wait_hint_ms: u64,
}

/// Reported first: starting, checkpoint 1, up to 30 s.
pub fn start_pending_status() -> (s: HostStatus)
    ensures
        s == (HostStatus {
            state: HostState::StartPending,
            accepts_stop: false,
            exit_code: 0,
            checkpoint: 1,
            wait_hint_ms: 30000,
        }),
{
    HostStatus {
        state: HostState::StartPending,
        accepts_stop: false,
        exit_code: 0,
        checkpoint: 1,
        wait_hint_ms: 30000,
    }
}

/// Reported once the daemon is up: running, accepting stop and shutdown.
pub fn running_status() -> (s: HostStatus)
    ensures
        s == (HostStatus {
            state: HostState::Running,
            accepts_stop: true,
            exit_code: 0,
            checkpoint: 0,
            wait_hint_ms: 0,
        }),
{
    HostStatus {
        state: HostState::Running,
        accepts_stop: true,
        exit_code: 0,
        checkpoint: 0,
        wait_hint_ms: 0,
    }
}

/// Reported last: stopped, exit code 0 after a clean run and 1 after a
/// failed start or run.
pub fn stopped_status(ok: bool) -> (s: HostStatus)
    ensures
        s == (HostStatus {
            state: HostState::Stopped,
            accepts_stop: false,
            exit_code: if ok {
                0
            } else {
                1
            },
            checkpoint: 0,
            wait_hint_ms: 0,
        }),
{
    HostStatus {
        state: HostState::Stopped,
        accepts_stop: false,
        exit_code: if ok {
            0
        } else {
            1
        },
        checkpoint: 0,
        wait_hint_ms: 0,
    }
}

} // verus!
