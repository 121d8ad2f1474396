//! One subscription's wait, and the answers a wait set gives about it.

use vstd::prelude::*;

verus! {

/// The reserved `park_generation` meaning "the sender knows of no confirmed park".
///
/// Quiescence generations start at 1, so this cannot collide with a real one.
pub const UNPARKED_WAKE_GENERATION: u64 = 0;

/// Where one subscription's wait sits in the retention/park lifecycle.
///
/// Only `BlockedWftOpen`, `Ready`, and `Parking` retain the Workflow Task. A `Parked` wait is
/// still logically pending, since the subscription has not gone away, but it no longer holds the
/// task open, which is the whole point of parking.
#[derive(Debug, Clone, Copy, PartialEq, Eq, Structural)]
pub enum ExternalWaitStatus {
    /// Blocked, with the Workflow Task retained on its behalf.
    BlockedWftOpen,
    /// Readiness was accepted for this wait and an activation is owed to lang.
    Ready,
    /// A park handshake is in flight for the set this wait belongs to.
    Parking,
    /// The park was confirmed through the backend. No longer retains the task.
    Parked,
}

impl ExternalWaitStatus {
    /// A status holds the task open unless the park was confirmed.
    pub open spec fn holds_task(self) -> bool {
        self != ExternalWaitStatus::Parked
    }

    /// Whether a wait in this state holds the current Workflow Task open.
    pub fn retains_wft(self) -> (res: bool)
        ensures
            res == self.holds_task(),
    {
        match self {
            ExternalWaitStatus::BlockedWftOpen
            | ExternalWaitStatus::Ready
            | ExternalWaitStatus::Parking => true,
            ExternalWaitStatus::Parked => false,
        }
    }
}

/// One subscription's wait, as the wait set tracks it.
#[derive(Debug, Clone, Copy, PartialEq, Eq, Structural)]
pub struct ExternalWaitState {
    pub wait_id: u32,
    /// Increments each time this wait re-enters the blocked state. A readiness notification
    /// naming an older value refers to a block that has already been resolved.
    pub wait_generation: u64,
    pub status: ExternalWaitStatus,
    /// Normally set after a write fence. One fenced stream does not park the Workflow Task.
    pub immediately_parkable: bool,
}

impl ExternalWaitState {
    /// A wait that has just blocked.
    pub fn new(wait_id: u32, wait_generation: u64, immediately_parkable: bool) -> (res: Self)
        ensures
            res == (ExternalWaitState {
                wait_id,
                wait_generation,
                status: ExternalWaitStatus::BlockedWftOpen,
                immediately_parkable,
            }),
    {
        ExternalWaitState {
            wait_id,
            wait_generation,
            status: ExternalWaitStatus::BlockedWftOpen,
            immediately_parkable,
        }
    }
}

/// What a readiness notification did, and what the caller must do about it.
///
/// This is the answer of a Run that is cached. A watcher is told one thing more, that there is no
/// such Run: see [`ExternalStreamReadyResult`].
#[derive(Debug, Clone, Copy, PartialEq, Eq, Structural)]
pub enum ReadinessOutcome {
    /// Readiness was serialized while the Workflow Task was still open. The caller cancels the
    /// idle timer, aborts any in-flight park, and issues or augments a resolve activation.
    Accepted,
    /// The wait exists but its `wait_generation` moved on. Re-probe; do not signal.
    Stale,
    /// A confirmed `park_generation` exists for this wait. The watcher sends the wake Signal.
    Parked,
    /// The Run is cached and its waits are registered, but no Workflow Task is open.
    NoOpenWorkflowTask,
}

/// What a watcher is told of its readiness notification.
///
/// The five variants are not cosmetic: `NoOpenWorkflowTask` is the healthy state between Workflow
/// Tasks after a command-producing completion or a rollover, and reporting it as a missing Run
/// would both corrupt the metric and tell the watcher to tear itself down while it is still
/// needed.
#[derive(Debug, Clone, Copy, PartialEq, Eq, Structural)]
pub enum ExternalStreamReadyResult {
    Accepted,
    Stale,
    Parked,
    NoOpenWorkflowTask,
    /// The Run is not cached.
    RunNotFound,
}

impl ExternalStreamReadyResult {
    /// The wait set's own answer, or `RunNotFound` where there is no Run to give one.
    pub open spec fn of_run(answer: Option<ReadinessOutcome>) -> Self {
        match answer {
            Some(ReadinessOutcome::Accepted) => ExternalStreamReadyResult::Accepted,
            Some(ReadinessOutcome::Stale) => ExternalStreamReadyResult::Stale,
            Some(ReadinessOutcome::Parked) => ExternalStreamReadyResult::Parked,
            Some(ReadinessOutcome::NoOpenWorkflowTask) =>
                ExternalStreamReadyResult::NoOpenWorkflowTask,
            None => ExternalStreamReadyResult::RunNotFound,
        }
    }

    /// What the watcher is told, given the answer of its Run if that is cached.
    pub fn from_run(answer: Option<ReadinessOutcome>) -> (res: Self)
        ensures
            res == Self::of_run(answer),
    {
        match answer {
            Some(ReadinessOutcome::Accepted) => ExternalStreamReadyResult::Accepted,
            Some(ReadinessOutcome::Stale) => ExternalStreamReadyResult::Stale,
            Some(ReadinessOutcome::Parked) => ExternalStreamReadyResult::Parked,
            Some(ReadinessOutcome::NoOpenWorkflowTask) =>
                ExternalStreamReadyResult::NoOpenWorkflowTask,
            None => ExternalStreamReadyResult::RunNotFound,
        }
    }
}

/// The read-only answer to "what state is this Run's wait set in?".
///
/// Deliberately *not* the readiness call: readiness means "a record is buffered", so probing with
/// it would assert something false and manufacture a spurious activation during shutdown.
#[derive(Debug, Clone, Copy, PartialEq, Eq, Structural)]
pub enum RunStreamStatus {
    /// A Workflow Task is open and retained by this wait set.
    WftOpen,
    /// The complete set is parked; a confirmed park generation exists.
    Parked,
    /// Waits are registered but no Workflow Task is open.
    NoOpenWorkflowTask,
}

/// What a status probe is told of a Run.
#[derive(Debug, Clone, Copy, PartialEq, Eq, Structural)]
pub enum ExternalStreamRunStatus {
    WftOpen,
    Parked,
    NoOpenWorkflowTask,
    /// The Run is not cached.
    RunNotFound,
}

impl ExternalStreamRunStatus {
    /// The wait set's own answer, or `RunNotFound` where there is no Run to give one.
    pub open spec fn of_run(answer: Option<RunStreamStatus>) -> Self {
        match answer {
            Some(RunStreamStatus::WftOpen) => ExternalStreamRunStatus::WftOpen,
            Some(RunStreamStatus::Parked) => ExternalStreamRunStatus::Parked,
            Some(RunStreamStatus::NoOpenWorkflowTask) =>
                ExternalStreamRunStatus::NoOpenWorkflowTask,
            None => ExternalStreamRunStatus::RunNotFound,
        }
    }

    /// What the probe is told, given the answer of its Run if that is cached.
    pub fn from_run(answer: Option<RunStreamStatus>) -> (res: Self)
        ensures
            res == Self::of_run(answer),
    {
        match answer {
            Some(RunStreamStatus::WftOpen) => ExternalStreamRunStatus::WftOpen,
            Some(RunStreamStatus::Parked) => ExternalStreamRunStatus::Parked,
            Some(RunStreamStatus::NoOpenWorkflowTask) =>
                ExternalStreamRunStatus::NoOpenWorkflowTask,
            None => ExternalStreamRunStatus::RunNotFound,
        }
    }
}

/// Why a set of waits is being parked.
#[derive(Debug, Clone, Copy, PartialEq, Eq, Structural)]
pub enum ParkTrigger {
    /// The global quiescence timer expired.
    IdleTimeout,
    /// Every wait in the quiescent snapshot is `immediately_parkable`.
    AllWriteFenced,
}

/// The result of asking the set to begin parking.
#[derive(Debug, Clone, Copy, PartialEq, Eq, Structural)]
pub enum ParkStartOutcome {
    /// Every wait moved to `Parking`; issue `PrepareExternalStreamPark`.
    Started(ParkTrigger),
    /// The generation named is not the current one, so nothing was done.
    StaleGeneration,
    /// At least one wait is `Ready`, so parking would race a readiness already accepted.
    AlreadyReady,
}

/// The result of applying lang's `ExternalStreamParkResult`.
#[derive(Debug, Clone, Copy, PartialEq, Eq, Structural)]
pub enum ParkResolution {
    /// The park stands. The caller writes the marker and completes the Workflow Task.
    Confirmed,
    /// A recheck found records. The caller issues a normal resolve activation instead of running
    /// user code from inside the park path.
    Aborted,
    /// The confirmation named a generation that is no longer parking: readiness beat it, or a
    /// later quiescent snapshot replaced it. Discarded with no effect.
    StaleGeneration,
}

} // verus!
