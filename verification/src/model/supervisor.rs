//! The supervisor's dispatches: one per kind of event it applied, each
//! carrying what the runtime has to report about it.
use vstd::prelude::*;
use crate::model::dispatch::{ControlExecution, HookTerminalDispatch, LaunchCreatedJobDispatch, RestartStartExecutionDispatch, ServiceMainJobStartedDispatch, ServiceMainJobTerminalDispatch, StartExecutionDispatch, StartFailureDispatch};
use crate::model::job::{JobEvent};
use crate::model::operation::{GraphExecutionEvent, OperationType};
use crate::model::service::{ServiceTableTransition};
use crate::model::shutdown::{SupervisorShutdownFinalizationDispatch};

verus! {

/// A service main launched and running.
#[derive(Debug, Clone, PartialEq, Eq)]
pub struct SupervisorLaunchDispatch {
    pub launch: LaunchCreatedJobDispatch,
    pub started: ServiceMainJobStartedDispatch,
    pub start_dispatches: Vec<StartExecutionDispatch>,
}

/// A launch (of a service main or a start hook) that failed before exec.
#[derive(Debug, Clone, PartialEq, Eq)]
pub struct SupervisorLaunchFailureDispatch {
    pub job_event: JobEvent,
    pub failure: StartFailureDispatch,
    pub start_dispatches: Vec<StartExecutionDispatch>,
}

/// A hook, control or health-check job launched.
#[derive(Debug, Clone, PartialEq, Eq)]
pub struct SupervisorJobLaunchDispatch {
    pub launch: LaunchCreatedJobDispatch,
}

/// A post-start hook that ended, by exit or by a failed launch.
#[derive(Debug, Clone, PartialEq, Eq)]
pub struct SupervisorPostStartHookTerminalDispatch {
    pub terminal: HookTerminalDispatch,
    pub start_dispatches: Vec<StartExecutionDispatch>,
}

/// A pre-start hook that ended.
#[derive(Debug, Clone, PartialEq, Eq)]
pub struct SupervisorPreStartHookTerminalDispatch {
    pub terminal: HookTerminalDispatch,
    pub start_dispatches: Vec<StartExecutionDispatch>,
}

/// A health check that ended, and the Critical reboot its failure raised.
#[derive(Debug, Clone, PartialEq, Eq)]
pub struct SupervisorHealthCheckTerminalDispatch {
    pub job_event: JobEvent,
    pub service_job_event: Option<JobEvent>,
    pub service_transitions: Vec<ServiceTableTransition>,
    pub critical_reboot: Option<SupervisorShutdownFinalizationDispatch>,
}

/// A health-check launch that failed, reported as its terminal.
#[derive(Debug, Clone, PartialEq, Eq)]
pub struct SupervisorHealthCheckLaunchFailureDispatch {
    pub terminal: SupervisorHealthCheckTerminalDispatch,
}

/// A health-check launch cancelled before it ran.
#[derive(Debug, Clone, PartialEq, Eq)]
pub struct SupervisorHealthCheckLaunchCancelledDispatch {
    pub job_event: JobEvent,
}

/// A service main that ended, and everything that followed from it.
#[derive(Debug, Clone, PartialEq, Eq)]
pub struct SupervisorTerminalDispatch {
    pub terminal: ServiceMainJobTerminalDispatch,
    pub cleanup_job_events: Vec<JobEvent>,
    pub start_dispatches: Vec<StartExecutionDispatch>,
    pub restart_start_dispatches: Vec<RestartStartExecutionDispatch>,
    pub critical_reboot: Option<SupervisorShutdownFinalizationDispatch>,
}

/// A control operation carried out by the work pump.
#[derive(Debug, Clone, PartialEq, Eq)]
pub struct SupervisorControlDispatch {
    pub execution: ControlExecution,
}

/// A control operation that failed before it began; the service kept its
/// state.
#[derive(Debug, Clone, PartialEq, Eq)]
pub struct SupervisorControlOperationFailureDispatch {
    pub service: String,
    pub operation_type: OperationType,
    pub operation_id: u64,
    pub error: String,
}

/// Why a restart that held its dependents was abandoned.
#[derive(Debug, Clone, Copy, PartialEq, Eq)]
pub enum SupervisorHeldRestartAbandonReason {
    Stopped,
    Withdrawn,
    Failed,
}

#[derive(Debug, Clone, Copy, PartialEq, Eq)]
pub enum SupervisorHeldRestartOutcome {
    Released,
    Abandoned(SupervisorHeldRestartAbandonReason),
}

/// The dependents held for a service's restart, released or failed.
#[derive(Debug, Clone, PartialEq, Eq)]
pub struct SupervisorHeldRestartSettlement {
    pub target: String,
    pub outcome: SupervisorHeldRestartOutcome,
    pub graph_events: Vec<GraphExecutionEvent>,
    pub service_transitions: Vec<ServiceTableTransition>,
    pub start_dispatches: Vec<StartExecutionDispatch>,
}

/// A submitted job launched, or failed to.
#[derive(Debug, Clone, PartialEq, Eq)]
pub struct SupervisorSubmittedJobDispatch {
    pub job_event: JobEvent,
}

/// What a deadline did to a submitted job.
#[derive(Debug, Clone, PartialEq, Eq)]
pub enum SupervisorSubmittedDeadlineDispatch {
    Stop { job_id: u64 },
    Killed { job_id: u64 },
    Abandoned { job_event: JobEvent, cgroup_id: String },
    CgroupCleanup { job_id: u64, leaked: bool },
}

/// A submitted job's notify message.
#[derive(Debug, Clone, PartialEq, Eq)]
pub struct SupervisorSubmittedNotifyDispatch {
    pub job_id: u64,
    pub status_event_due: bool,
}

/// Who was refused what.
#[derive(Debug, Clone, PartialEq, Eq)]
pub struct ServiceAccessDenied {
    pub caller: String,
    pub service: String,
}

#[derive(Debug, Clone, PartialEq, Eq)]
pub struct SystemAccessDenied {
    pub caller: String,
}

#[derive(Debug, Clone, PartialEq, Eq)]
pub struct JobAccessDenied {
    pub caller: String,
    pub job_id: u64,
}

/// A command on the jobs channel, applied.
#[derive(Debug, Clone, PartialEq, Eq)]
pub enum SupervisorJobsCommandDispatch {
    Submit { job_event: JobEvent },
    Cancelled { job_event: JobEvent },
    Stop { job_id: u64 },
    Signal { job_id: u64, signal: i32 },
}

/// One jobs connection's turn, as the supervisor saw it.
#[derive(Debug, Clone, PartialEq, Eq)]
pub struct SupervisorJobsConnectionTurn {
    pub access_denial: Option<JobAccessDenied>,
    pub dispatch: Option<SupervisorJobsCommandDispatch>,
    pub close_connection: bool,
}

} // verus!
