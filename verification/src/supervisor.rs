//! The backend supervisor: one slot for the process that is tracked, and the
//! transitions that `start`, `stop`, `status` and the window-close hook make
//! on it.
//!
//! The slot records the process id of the tracked child. The shell owns the
//! operating-system handle, holds the lock around every call, and hands in
//! what the operating system answered; the functions here decide what is
//! tracked afterwards and what the caller is told.

use vstd::prelude::*;

use crate::message::with_detail;

verus! {

/// What the user interface is told about the backend.
#[derive(Debug, Clone, Copy, PartialEq, Eq)]
pub struct BackendStatus {
    pub running: bool,
    pub pid: Option<u32>,
}

/// The status of a backend that is not running.
pub open spec fn stopped() -> BackendStatus {
    BackendStatus { running: false, pid: None }
}

/// The status of a backend that runs as process `pid`.
pub open spec fn running(pid: u32) -> BackendStatus {
    BackendStatus { running: true, pid: Some(pid) }
}

/// The supervisor's state: at most one tracked child process.
#[derive(Debug)]
pub struct NeoNodeState {
    slot: Option<u32>,
}

impl View for NeoNodeState {
    type V = Option<u32>;

    /// The process id of the tracked child, if one is tracked.
    closed spec fn view(&self) -> Option<u32> {
        self.slot
    }
}

/// What the shell found when it carried out a launch plan.
#[derive(Debug)]
pub enum LaunchReport {
    /// The resource directory could not be resolved; the reason.
    NoResourceDir(String),
    /// No file exists where the executable is expected; the path as shown
    /// to the user.
    ExecutableMissing(String),
    /// The operating system refused to spawn the process; the reason.
    SpawnFailed(String),
    /// The process runs under this id.
    Spawned(u32),
}

/// The outcome of one non-blocking liveness check of the tracked process.
#[derive(Debug)]
pub enum Liveness {
    /// The process has not exited.
    Running,
    /// The process has exited.
    Exited,
    /// The check itself failed; the reason.
    Unknown(String),
}

/// A reply with its error text taken as a sequence of characters.
pub open spec fn reply_view(reply: Result<BackendStatus, String>) -> Result<
    BackendStatus,
    Seq<char>,
> {
    match reply {
        Ok(status) => Ok(status),
        Err(text) => Err(text@),
    }
}

/// The process tracked after a start that ended with `report`: the spawned
/// one, and none after any failure.
pub open spec fn tracked_after_start(report: LaunchReport) -> Option<u32> {
    match report {
        LaunchReport::Spawned(pid) => Some(pid),
        _ => None,
    }
}

/// The reply to a start that ended with `report`.
pub open spec fn start_reply(report: LaunchReport) -> Result<BackendStatus, Seq<char>> {
    match report {
        LaunchReport::NoResourceDir(reason) => Err(reason@),
        LaunchReport::ExecutableMissing(path) => Err("Backend executable not found: "@ + path@),
        LaunchReport::SpawnFailed(reason) => Err("Failed to start backend: "@ + reason@),
        LaunchReport::Spawned(pid) => Ok(running(pid)),
    }
}

/// The process tracked after a stop: a tracked process stays tracked exactly
/// when its termination failed.
pub open spec fn tracked_after_stop(held: Option<u32>, kill: Result<(), String>) -> Option<u32> {
    if held is Some && kill is Err {
        held
    } else {
        None
    }
}

/// The reply to a stop: the failure of the termination where a process was
/// tracked and could not be terminated, and the stopped status otherwise.
pub open spec fn stop_reply(held: Option<u32>, kill: Result<(), String>) -> Result<
    BackendStatus,
    Seq<char>,
> {
    match (held, kill) {
        (Some(_), Err(reason)) => Err("Failed to kill backend: "@ + reason@),
        _ => Ok(stopped()),
    }
}

/// The process tracked after a status query: a tracked process is dropped
/// exactly when the check found that it has exited.
pub open spec fn tracked_after_status(held: Option<u32>, probe: Liveness) -> Option<u32> {
    if probe is Exited {
        None
    } else {
        held
    }
}

/// The reply to a status query.
pub open spec fn status_reply(held: Option<u32>, probe: Liveness) -> Result<
    BackendStatus,
    Seq<char>,
> {
    match (held, probe) {
        (None, _) => Ok(stopped()),
        (Some(_), Liveness::Exited) => Ok(stopped()),
        (Some(pid), Liveness::Running) => Ok(running(pid)),
        (Some(_), Liveness::Unknown(reason)) => Err(
            "Failed to check backend status: "@ + reason@,
        ),
    }
}

impl BackendStatus {
    /// The status of a backend that is not running.
    pub fn stopped() -> (status: BackendStatus)
        ensures
            status == stopped(),
    {
        BackendStatus { running: false, pid: None }
    }

    /// The status of a backend that runs as process `pid`.
    pub fn running(pid: u32) -> (status: BackendStatus)
        ensures
            status == running(pid),
    {
        BackendStatus { running: true, pid: Some(pid) }
    }
}

impl NeoNodeState {
    /// A supervisor that tracks nothing.
    pub fn new() -> (state: NeoNodeState)
        ensures
            state@ is None,
    {
        NeoNodeState { slot: None }
    }

    /// The process id of the tracked child, if one is tracked.
    pub fn pid(&self) -> (pid: Option<u32>)
        ensures
            pid == self@,
    {
        self.slot
    }

    /// Gives up the tracked process: returns its id, which the caller must
    /// force-terminate without regard to the outcome, and tracks nothing
    /// afterwards. A start calls this before it launches anything, and the
    /// window-close hook calls it once when the main window is asked to
    /// close.
    pub fn release(&mut self) -> (pid: Option<u32>)
        ensures
            pid == old(self)@,
            final(self)@ is None,
    {
        let pid = self.slot;
        self.slot = None;
        pid
    }
}

/// Completes a start: `report` is what the shell found when it carried out
/// the launch plan, after it released and terminated any process tracked
/// before. A spawned process becomes the tracked one and is reported as
/// running; after any failure nothing is tracked and the failure is
/// returned.
pub fn start_backend(state: &mut NeoNodeState, report: LaunchReport) -> (reply: Result<
    BackendStatus,
    String,
>)
    ensures
        final(state)@ == tracked_after_start(report),
        reply_view(reply) == start_reply(report),
{
    match report {
        LaunchReport::NoResourceDir(reason) => {
            state.slot = None;
            Err(reason)
        },
        LaunchReport::ExecutableMissing(path) => {
            state.slot = None;
            Err(with_detail("Backend executable not found: ", path.as_str()))
        },
        LaunchReport::SpawnFailed(reason) => {
            state.slot = None;
            Err(with_detail("Failed to start backend: ", reason.as_str()))
        },
        LaunchReport::Spawned(pid) => {
            state.slot = Some(pid);
            Ok(BackendStatus::running(pid))
        },
    }
}

/// Completes a stop. Where a process is tracked, `kill` is the outcome of
/// terminating it: on success it is no longer tracked, on failure it stays
/// tracked and the failure is returned. Where nothing is tracked, `kill` is
/// not looked at and the call succeeds without any effect.
pub fn stop_backend(state: &mut NeoNodeState, kill: Result<(), String>) -> (reply: Result<
    BackendStatus,
    String,
>)
    ensures
        final(state)@ == tracked_after_stop(old(state)@, kill),
        reply_view(reply) == stop_reply(old(state)@, kill),
{
    match state.slot {
        None => Ok(BackendStatus::stopped()),
        Some(_) => match kill {
            Ok(()) => {
                state.slot = None;
                Ok(BackendStatus::stopped())
            },
            Err(reason) => Err(with_detail("Failed to kill backend: ", reason.as_str())),
        },
    }
}

/// Answers a status query. Where a process is tracked, `probe` is the
/// outcome of one non-blocking liveness check of it: a process that has
/// exited is no longer tracked. Where nothing is tracked, `probe` is not
/// looked at.
pub fn get_backend_status(state: &mut NeoNodeState, probe: Liveness) -> (reply: Result<
    BackendStatus,
    String,
>)
    ensures
        final(state)@ == tracked_after_status(old(state)@, probe),
        reply_view(reply) == status_reply(old(state)@, probe),
{
    match state.slot {
        None => Ok(BackendStatus::stopped()),
        Some(pid) => match probe {
            Liveness::Exited => {
                state.slot = None;
                Ok(BackendStatus::stopped())
            },
            Liveness::Running => Ok(BackendStatus::running(pid)),
            Liveness::Unknown(reason) => Err(
                with_detail("Failed to check backend status: ", reason.as_str()),
            ),
        },
    }
}

/// The process tracked after a run of stop calls whose terminations had the
/// outcomes `kills`, in that order.
pub open spec fn tracked_after_stops(held: Option<u32>, kills: Seq<Result<(), String>>) -> Option<
    u32,
>
    decreases kills.len(),
{
    if kills.len() == 0 {
        held
    } else {
        tracked_after_stop(tracked_after_stops(held, kills.drop_last()), kills.last())
    }
}

/// The process tracked after a run of status queries whose liveness checks
/// had the outcomes `probes`, in that order.
pub open spec fn tracked_after_queries(held: Option<u32>, probes: Seq<Liveness>) -> Option<u32>
    decreases probes.len(),
{
    if probes.len() == 0 {
        held
    } else {
        tracked_after_status(tracked_after_queries(held, probes.drop_last()), probes.last())
    }
}

/// Stopping a supervisor that tracks nothing is idempotent: after any
/// number of stop calls it still tracks nothing, and one more stop call
/// replies that the backend is stopped, without error.
pub proof fn stop_of_nothing_is_idempotent(kills: Seq<Result<(), String>>, kill: Result<(), String>)
    ensures
        tracked_after_stops(None, kills) is None,
        tracked_after_stop(tracked_after_stops(None, kills), kill) is None,
        stop_reply(tracked_after_stops(None, kills), kill) == Ok::<BackendStatus, Seq<char>>(
            stopped(),
        ),
    decreases kills.len(),
{
    if kills.len() > 0 {
        stop_of_nothing_is_idempotent(kills.drop_last(), kills.last());
    }
}

/// After a start that spawned process `pid`, and for as long as no liveness
/// check finds that the process has exited and no stop is called, the
/// process stays tracked and a status query that finds it alive reports it
/// as running under the pid that the start returned.
pub proof fn started_backend_is_reported(pid: u32, probes: Seq<Liveness>)
    requires
        forall|i: int| 0 <= i < probes.len() ==> !(probes[i] is Exited),
    ensures
        start_reply(LaunchReport::Spawned(pid)) == Ok::<BackendStatus, Seq<char>>(running(pid)),
        tracked_after_queries(tracked_after_start(LaunchReport::Spawned(pid)), probes) == Some(
            pid,
        ),
        status_reply(
            tracked_after_queries(tracked_after_start(LaunchReport::Spawned(pid)), probes),
            Liveness::Running,
        ) == Ok::<BackendStatus, Seq<char>>(running(pid)),
    decreases probes.len(),
{
    if probes.len() > 0 {
        started_backend_is_reported(pid, probes.drop_last());
    }
}

/// An exit is detected once: the status query that finds the tracked
/// process exited reports the backend as stopped and tracks nothing
/// afterwards, and every later status query, whatever its liveness check
/// would say, reports the backend as stopped without error.
pub proof fn exit_is_detected_once(held: Option<u32>, probes: Seq<Liveness>, probe: Liveness)
    ensures
        status_reply(held, Liveness::Exited) == Ok::<BackendStatus, Seq<char>>(stopped()),
        tracked_after_status(held, Liveness::Exited) is None,
        tracked_after_queries(tracked_after_status(held, Liveness::Exited), probes) is None,
        status_reply(
            tracked_after_queries(tracked_after_status(held, Liveness::Exited), probes),
            probe,
        ) == Ok::<BackendStatus, Seq<char>>(stopped()),
    decreases probes.len(),
{
    if probes.len() > 0 {
        exit_is_detected_once(held, probes.drop_last(), probes.last());
    }
}

/// A start replaces the tracked process. The start first releases what was
/// tracked, which hands the old process over for termination; when it then
/// spawned process `pid`, exactly that process is tracked, whatever was
/// tracked before, and a status query that finds it alive reports `pid`
/// and no other.
pub proof fn start_replaces_tracked_process(pid: u32)
    ensures
        tracked_after_start(LaunchReport::Spawned(pid)) == Some(pid),
        status_reply(tracked_after_start(LaunchReport::Spawned(pid)), Liveness::Running) == Ok::<
            BackendStatus,
            Seq<char>,
        >(running(pid)),
        tracked_after_status(tracked_after_start(LaunchReport::Spawned(pid)), Liveness::Running)
            == Some(pid),
{
}

} // verus!
