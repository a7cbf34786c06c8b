//! Jobs: the processes peinit runs, and what it learns when one exits.
use vstd::prelude::*;

verus! {

/// Where a job is.
#[derive(Debug, Clone, Copy, PartialEq, Eq)]
pub enum JobState {
    Created,
    Running,
    Completed,
    Failed,
    Cancelled,
}

/// A job's change of state, as the supervisor records it.
#[derive(Debug, Clone, PartialEq, Eq)]
pub struct JobEvent {
    pub job_id: u64,
    /// The service the job belongs to; `None` for a submitted job.
    pub service: Option<String>,
    pub state: JobState,
    /// Why a launch or a run failed, where that is known.
    pub failure_cause: Option<String>,
    pub ended_at_ns: Option<u64>,
}

/// How a reaped child ended.
#[derive(Debug, Clone, Copy, PartialEq, Eq)]
pub enum ChildExitStatus {
    Exited { code: i32 },
    Signaled { signal: i32, core_dumped: bool },
}

/// A child the PID 1 reaper collected.
#[derive(Debug, Clone, Copy, PartialEq, Eq)]
pub struct ChildReap {
    pub pid: u32,
    pub status: ChildExitStatus,
}

} // verus!
