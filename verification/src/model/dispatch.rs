//! What the supervisor reports back to the runtime after it applies an
//! event: the transitions it made, the jobs and operations it touched, and
//! the starts its reactions released.
use vstd::prelude::*;
use crate::model::job::{JobEvent};
use crate::model::operation::{GraphExecutionEvent, OnDemandStartDispatch, OperationEvent};
use crate::model::service::{LeakedCgroupKind, ServiceState, ServiceTableTransition};

verus! {

/// A start the graph released: the service's transition, the operation it
/// serves, and the job created for it.
#[derive(Debug, Clone, PartialEq, Eq)]
pub struct StartExecutionDispatch {
    /// A `Skipped` state cleared on the way, where there was one.
    pub cleared_skipped: Option<ServiceTableTransition>,
    pub service_transition: ServiceTableTransition,
    pub operation_event: OperationEvent,
    pub job_event: JobEvent,
}

/// A start released by a restart policy.
#[derive(Debug, Clone, PartialEq, Eq)]
pub struct RestartStartExecutionDispatch {
    pub service_transition: ServiceTableTransition,
    pub job_event: JobEvent,
}

/// A start that failed, and what the failure did.
#[derive(Debug, Clone, PartialEq, Eq)]
pub struct StartFailureDispatch {
    pub service_transitions: Vec<ServiceTableTransition>,
    pub operation_events: Vec<OperationEvent>,
    pub graph_events: Vec<GraphExecutionEvent>,
}

/// A job created by a launch.
#[derive(Debug, Clone, PartialEq, Eq)]
pub struct LaunchCreatedJobDispatch {
    pub job_event: JobEvent,
}

/// A service main that started running.
#[derive(Debug, Clone, PartialEq, Eq)]
pub struct ServiceMainJobStartedDispatch {
    pub job_event: JobEvent,
    pub operation_events: Vec<OperationEvent>,
    pub graph_events: Vec<GraphExecutionEvent>,
    /// The post-start hook job this start created, where it did.
    pub post_start_hook: Option<JobEvent>,
}

/// A service main that ended.
#[derive(Debug, Clone, PartialEq, Eq)]
pub struct ServiceMainJobTerminalDispatch {
    pub job_event: JobEvent,
    pub operation_events: Vec<OperationEvent>,
    pub service_transitions: Vec<ServiceTableTransition>,
    pub graph_events: Vec<GraphExecutionEvent>,
    pub post_start_hook: Option<JobEvent>,
    /// The state the service was in when a main it no longer expected
    /// exited; no transition follows such an exit.
    pub late_exit: Option<ServiceState>,
}

/// A pre-start or post-start hook that ended.
#[derive(Debug, Clone, PartialEq, Eq)]
pub struct HookTerminalDispatch {
    pub job_event: JobEvent,
    /// The next hook started in its place, where there was one.
    pub next_job_event: Option<JobEvent>,
    pub operation_events: Vec<OperationEvent>,
    pub service_transitions: Vec<ServiceTableTransition>,
    pub graph_events: Vec<GraphExecutionEvent>,
}

/// A pre-start check that completed or ran out of time.
#[derive(Debug, Clone, PartialEq, Eq)]
pub struct PreStartCheckCompletionDispatch {
    pub job_event: Option<JobEvent>,
    pub operation_events: Vec<OperationEvent>,
    pub service_transitions: Vec<ServiceTableTransition>,
    pub graph_events: Vec<GraphExecutionEvent>,
}

/// A hook or a service main that ran out of time, and what that did.
#[derive(Debug, Clone, PartialEq, Eq)]
pub struct JobTimeoutDispatch {
    pub job_event: JobEvent,
    pub operation_events: Vec<OperationEvent>,
    pub service_transitions: Vec<ServiceTableTransition>,
    pub graph_events: Vec<GraphExecutionEvent>,
}

/// A readiness wait that ran out of time.
#[derive(Debug, Clone, PartialEq, Eq)]
pub struct ReadinessTimeoutDispatch {
    pub operation_events: Vec<OperationEvent>,
    pub service_transitions: Vec<ServiceTableTransition>,
    pub graph_events: Vec<GraphExecutionEvent>,
}

/// A reload command that ended or ran out of time.
#[derive(Debug, Clone, PartialEq, Eq)]
pub struct ReloadCommandDispatch {
    pub job_event: JobEvent,
    pub operation_event: OperationEvent,
    pub service_transition: ServiceTableTransition,
}

/// How a reload detection ended: the window for `RELOADING=1` expired, or
/// the service announced a reload and never finished it.
#[derive(Debug, Clone, Copy, PartialEq, Eq)]
pub enum ReloadDetectionPhase {
    DetectionWindow,
    ExtendedWait,
}

#[derive(Debug, Clone, PartialEq, Eq)]
pub struct ReloadDetectionCompletion {
    pub operation_event: OperationEvent,
    pub service_transition: ServiceTableTransition,
    pub phase: ReloadDetectionPhase,
}

/// What a control operation carried out.
#[derive(Debug, Clone, PartialEq, Eq)]
pub enum ControlExecutionDetail {
    ReloadCommand { job_event: JobEvent },
    Signal,
    Immediate,
}

#[derive(Debug, Clone, PartialEq, Eq)]
pub struct ControlExecution {
    pub operation_event: OperationEvent,
    pub detail: ControlExecutionDetail,
    pub cancelled_reload_jobs: Vec<JobEvent>,
}

/// A relaunch a restart policy admitted.
#[derive(Debug, Clone, PartialEq, Eq)]
pub struct RestartPolicyRelaunchDispatch {
    pub admission: OnDemandStartDispatch,
    pub start_dispatches: Vec<StartExecutionDispatch>,
}

/// An internal error contained to one service: the step peinit could not
/// carry out, and what it did instead.
#[derive(Debug, Clone, PartialEq, Eq)]
pub struct SupervisorInternalErrorDispatch {
    pub step: String,
    pub service: Option<String>,
    pub job_id: Option<u64>,
    pub error: String,
    pub observed_at_ns: u64,
    pub job_event: Option<JobEvent>,
    pub service_job_event: Option<JobEvent>,
    pub operation_event: Option<OperationEvent>,
    pub service_transition: Option<ServiceTableTransition>,
    pub start_dispatches: Vec<StartExecutionDispatch>,
}

/// A cgroup the kernel would not let go of.
#[derive(Debug, Clone, PartialEq, Eq)]
pub struct SupervisorLeakedCgroupDispatch {
    pub service: String,
    pub path: String,
    pub kind: LeakedCgroupKind,
    pub detected_at_ns: u64,
}

} // verus!
