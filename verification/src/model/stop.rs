//! The supervisor's shutdown dispatches: a shutdown begun, driven by its
//! deadlines, and finalized.
use vstd::prelude::*;
use crate::model::job::{JobEvent};
use crate::model::operation::{OperationEvent};
use crate::model::service::{ServiceTableTransition};
use crate::model::shutdown::{ShutdownFinalizationState, ShutdownKind, SupervisorShutdownFinalizationDispatch};
use crate::model::supervisor::{SupervisorSubmittedDeadlineDispatch};

verus! {

/// A service asked to stop in a shutdown wave.
#[derive(Debug, Clone, PartialEq, Eq)]
pub struct SupervisorShutdownStopDispatch {
    pub service: String,
    /// The service was already stopping; the shutdown only waits for it.
    pub already_stopping: bool,
    /// Why no stop timeout could be substantiated, where it could not; the
    /// service is then killed without a graceful period.
    pub unsubstantiated_deadline: Option<String>,
}

/// A starting service killed when the shutdown began.
#[derive(Debug, Clone, PartialEq, Eq)]
pub struct SupervisorShutdownKillDispatch {
    pub service: String,
}

/// A service's cgroup killed by a forced shutdown or a deadline.
#[derive(Debug, Clone, PartialEq, Eq)]
pub struct SupervisorShutdownCgroupKillDispatch {
    pub service: String,
}

/// A service the shutdown gave up on.
#[derive(Debug, Clone, PartialEq, Eq)]
pub struct SupervisorShutdownAbandonedDispatch {
    pub service: String,
    pub cgroup_id: String,
    pub service_transition: ServiceTableTransition,
}

/// The state of a shutdown in progress.
#[derive(Debug, Clone, PartialEq, Eq)]
pub struct ShutdownRuntime {
    pub kind: ShutdownKind,
    pub finalization: ShutdownFinalizationState,
}

/// A graceful shutdown begun.
#[derive(Debug, Clone, PartialEq, Eq)]
pub struct SupervisorShutdownDispatch {
    pub runtime: ShutdownRuntime,
    pub killed_starting: Vec<SupervisorShutdownKillDispatch>,
    pub first_wave: Vec<SupervisorShutdownStopDispatch>,
    pub startup_operation_events: Vec<OperationEvent>,
    pub startup_job_events: Vec<JobEvent>,
}

/// A forced shutdown: every service killed, then the final action.
#[derive(Debug, Clone, PartialEq, Eq)]
pub struct SupervisorImmediateShutdownDispatch {
    pub killed_services: Vec<SupervisorShutdownCgroupKillDispatch>,
    pub finalization: SupervisorShutdownFinalizationDispatch,
}

#[derive(Debug, Clone, PartialEq, Eq)]
pub enum SupervisorShutdownSignalAction {
    Graceful(SupervisorShutdownDispatch),
    Forced(SupervisorImmediateShutdownDispatch),
    AlreadyInProgress { kind: ShutdownKind },
}

/// A shutdown signal delivered to PID 1.
#[derive(Debug, Clone, PartialEq, Eq)]
pub struct SupervisorShutdownSignalDispatch {
    pub action: SupervisorShutdownSignalAction,
}

/// What PID 1's signalfd delivered.
#[derive(Debug, Clone, PartialEq, Eq)]
pub enum SupervisorPid1SignalFdTurn {
    Shutdown(Box<SupervisorShutdownSignalDispatch>),
    Other { signal: i32 },
}

#[derive(Debug, Clone, PartialEq, Eq)]
pub enum SupervisorPowerButtonAction {
    Graceful(SupervisorShutdownDispatch),
    AlreadyInProgress { kind: ShutdownKind },
}

#[derive(Debug, Clone, PartialEq, Eq)]
pub struct SupervisorPowerButtonDispatch {
    pub action: SupervisorPowerButtonAction,
}

/// A shutdown requested over the control socket.
#[derive(Debug, Clone, PartialEq, Eq)]
pub struct SupervisorSystemShutdownDispatch {
    pub shutdown: SupervisorShutdownDispatch,
}

/// A shutdown deadline that passed.
#[derive(Debug, Clone, PartialEq, Eq)]
pub struct SupervisorShutdownTimeoutDispatch {
    pub global_timeout: bool,
    pub cgroup_kills: Vec<SupervisorShutdownCgroupKillDispatch>,
    pub job_events: Vec<JobEvent>,
    pub abandoned: Vec<SupervisorShutdownAbandonedDispatch>,
    pub next_wave: Vec<SupervisorShutdownStopDispatch>,
    pub submitted: Vec<SupervisorSubmittedDeadlineDispatch>,
    pub finalization: ShutdownFinalizationState,
}

/// What the shutdown deadline timer drove.
#[derive(Debug, Clone, PartialEq, Eq)]
pub struct SupervisorShutdownDriveDispatch {
    pub timeout: Option<SupervisorShutdownTimeoutDispatch>,
    pub finalization: Option<SupervisorShutdownFinalizationDispatch>,
}

/// A service exited during shutdown.
#[derive(Debug, Clone, PartialEq, Eq)]
pub struct SupervisorShutdownTerminalDispatch {
    pub job_event: JobEvent,
    pub next_wave: Vec<SupervisorShutdownStopDispatch>,
    pub finalization: ShutdownFinalizationState,
}

} // verus!
