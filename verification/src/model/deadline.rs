//! What the lifecycle deadline timer, operation maintenance and calendar
//! timers drove.
use vstd::prelude::*;
use crate::model::dispatch::{JobTimeoutDispatch, PreStartCheckCompletionDispatch, ReadinessTimeoutDispatch, ReloadCommandDispatch, ReloadDetectionCompletion, RestartPolicyRelaunchDispatch, StartExecutionDispatch, SupervisorInternalErrorDispatch, SupervisorLeakedCgroupDispatch};
use crate::model::job::{JobEvent};
use crate::model::operation::{GraphExecutionEvent, OnDemandStartDispatch, OperationEvent};
use crate::model::service::{ServiceTableTransition};
use crate::model::shutdown::{SupervisorShutdownFinalizationDispatch};
use crate::model::supervisor::{SupervisorHealthCheckTerminalDispatch, SupervisorSubmittedDeadlineDispatch};

verus! {

/// A timeout of a pre-start check, hook or readiness wait, and the starts
/// its reactions released.
#[derive(Debug, Clone, PartialEq, Eq)]
pub struct SupervisorPreStartCheckTimeoutDispatch {
    pub completion: PreStartCheckCompletionDispatch,
    pub start_dispatches: Vec<StartExecutionDispatch>,
}

#[derive(Debug, Clone, PartialEq, Eq)]
pub struct SupervisorHookTimeoutDispatch {
    pub timeout: JobTimeoutDispatch,
    pub start_dispatches: Vec<StartExecutionDispatch>,
}

#[derive(Debug, Clone, PartialEq, Eq)]
pub struct SupervisorReadinessTimeoutDispatch {
    pub timeout: ReadinessTimeoutDispatch,
    pub start_dispatches: Vec<StartExecutionDispatch>,
}

/// A restart whose backoff elapsed.
#[derive(Debug, Clone, PartialEq, Eq)]
pub struct SupervisorRestartBackoffDispatch {
    pub relaunch: RestartPolicyRelaunchDispatch,
}

/// A restart whose backoff elapsed but could not relaunch.
#[derive(Debug, Clone, PartialEq, Eq)]
pub struct SupervisorRestartBackoffFailureDispatch {
    pub operation_event: Option<OperationEvent>,
}

#[derive(Debug, Clone, PartialEq, Eq)]
pub enum SupervisorHealthCheckIntervalAction {
    Created { job_event: JobEvent },
    Skipped,
}

#[derive(Debug, Clone, PartialEq, Eq)]
pub struct SupervisorHealthCheckIntervalDispatch {
    pub action: SupervisorHealthCheckIntervalAction,
}

/// A watchdog that was not fed in time.
#[derive(Debug, Clone, PartialEq, Eq)]
pub struct SupervisorWatchdogTimeoutDispatch {
    pub service: String,
    pub job_event: Option<JobEvent>,
    pub service_transitions: Vec<super::service::ServiceTableTransition>,
    pub critical_reboot: Option<super::shutdown::SupervisorShutdownFinalizationDispatch>,
    pub timed_out_at_ns: u64,
}

/// A deferred service started when the boot settled.
#[derive(Debug, Clone, PartialEq, Eq)]
pub struct SupervisorBootSettleStart {
    pub start_dispatches: Vec<StartExecutionDispatch>,
}

/// A deferred service that could not be started.
#[derive(Debug, Clone, PartialEq, Eq)]
pub struct SupervisorBootSettleFailure {
    pub service: String,
    pub error: String,
}

/// The deferred services released when the boot settled, or when the wait
/// for it timed out.
#[derive(Debug, Clone, PartialEq, Eq)]
pub struct SupervisorBootSettleDispatch {
    pub timed_out: bool,
    pub started: Vec<SupervisorBootSettleStart>,
    pub failed: Vec<SupervisorBootSettleFailure>,
}

/// Everything the lifecycle deadline timer drove in one firing.
#[derive(Debug, Clone, PartialEq, Eq, Default)]
pub struct SupervisorLifecycleDeadlineDispatch {
    pub pre_start_check_timeouts: Vec<SupervisorPreStartCheckTimeoutDispatch>,
    pub pre_start_hook_timeouts: Vec<SupervisorHookTimeoutDispatch>,
    pub post_start_hook_timeouts: Vec<SupervisorHookTimeoutDispatch>,
    pub readiness_timeouts: Vec<SupervisorReadinessTimeoutDispatch>,
    pub reload_detections: Vec<ReloadDetectionCompletion>,
    pub reload_command_timeouts: Vec<ReloadCommandDispatch>,
    pub restart_backoffs: Vec<SupervisorRestartBackoffDispatch>,
    pub restart_backoff_failures: Vec<SupervisorRestartBackoffFailureDispatch>,
    pub health_check_intervals: Vec<SupervisorHealthCheckIntervalDispatch>,
    pub health_check_timeouts: Vec<SupervisorHealthCheckTerminalDispatch>,
    pub watchdog_timeouts: Vec<SupervisorWatchdogTimeoutDispatch>,
    pub cgroup_leaks: Vec<SupervisorLeakedCgroupDispatch>,
    pub boot_settles: Vec<SupervisorBootSettleDispatch>,
    pub submitted_jobs: Vec<SupervisorSubmittedDeadlineDispatch>,
    pub internal_errors: Vec<SupervisorInternalErrorDispatch>,
}

/// A relationship the supervisor refused to follow because it would loop.
#[derive(Debug, Clone, Copy, PartialEq, Eq)]
pub enum SupervisorOnFailureLoopSuppressionReason {
    Cycle,
    DepthLimit,
}

#[derive(Debug, Clone, PartialEq, Eq)]
pub struct SupervisorOnFailureLoopSuppressedDispatch {
    pub failed_service: String,
    pub attempted_handler: String,
    pub chain: Vec<String>,
    pub reason: SupervisorOnFailureLoopSuppressionReason,
}

/// What operation maintenance did when its deadline came.
#[derive(Debug, Clone, PartialEq, Eq, Default)]
pub struct SupervisorOperationMaintenanceTurn {
    pub operation_timeouts: Vec<OperationEvent>,
    pub service_main_start_timeouts: Vec<JobTimeoutDispatch>,
    pub graph_events: Vec<GraphExecutionEvent>,
    pub relationship_audit_events: Vec<SupervisorOnFailureLoopSuppressedDispatch>,
    pub start_dispatches: Vec<StartExecutionDispatch>,
}

impl SupervisorOperationMaintenanceTurn {
    /// Whether maintenance did nothing.
    pub open spec fn spec_is_empty(self) -> bool {
        &&& self.operation_timeouts@.len() == 0
        &&& self.service_main_start_timeouts@.len() == 0
        &&& self.graph_events@.len() == 0
        &&& self.relationship_audit_events@.len() == 0
        &&& self.start_dispatches@.len() == 0
    }

    /// Maintenance that did nothing.
    pub fn empty() -> (t: Self)
        ensures
            t.spec_is_empty(),
    {
        SupervisorOperationMaintenanceTurn {
            operation_timeouts: Vec::new(),
            service_main_start_timeouts: Vec::new(),
            graph_events: Vec::new(),
            relationship_audit_events: Vec::new(),
            start_dispatches: Vec::new(),
        }
    }
}

#[derive(Debug, Clone, PartialEq, Eq)]
pub enum SupervisorTimerAction {
    Start { outcome: OnDemandStartDispatch, start_dispatches: Vec<StartExecutionDispatch> },
    Skipped,
}

/// A calendar timer's firing, applied.
#[derive(Debug, Clone, PartialEq, Eq)]
pub struct SupervisorTimerDispatch {
    pub service: String,
    pub schedule: String,
    pub action: SupervisorTimerAction,
}

} // verus!
