//! The runtime's turns: what one event source, the work pump, or a calendar
//! timer produced in one pass of the loop.
use vstd::prelude::*;
use crate::model::control::{ReloadConfigOutcome, SupervisorControlConnectionTableTurn};
use crate::model::deadline::{SupervisorLifecycleDeadlineDispatch, SupervisorTimerDispatch};
use crate::model::dispatch::{PreStartCheckCompletionDispatch, ReloadCommandDispatch, StartExecutionDispatch, SupervisorInternalErrorDispatch};
use crate::model::job::{ChildReap, JobEvent};
use crate::model::operation::{GraphExecutionEvent, OperationEvent};
use crate::model::stop::{SupervisorPid1SignalFdTurn, SupervisorPowerButtonDispatch, SupervisorShutdownDriveDispatch, SupervisorShutdownTerminalDispatch};
use crate::model::supervisor::{SupervisorControlDispatch, SupervisorControlOperationFailureDispatch, SupervisorHealthCheckLaunchCancelledDispatch, SupervisorHealthCheckLaunchFailureDispatch, SupervisorHealthCheckTerminalDispatch, SupervisorHeldRestartSettlement, SupervisorJobLaunchDispatch, SupervisorJobsConnectionTurn, SupervisorLaunchDispatch, SupervisorLaunchFailureDispatch, SupervisorPostStartHookTerminalDispatch, SupervisorPreStartHookTerminalDispatch, SupervisorSubmittedJobDispatch, SupervisorTerminalDispatch};

verus! {

/// What the work pump drained before or after the wait.
#[derive(Debug, Clone, PartialEq, Eq, Default)]
pub struct RuntimeWorkPumpTurn {
    pub control_operations: Vec<SupervisorControlDispatch>,
    pub control_operation_failures: Vec<SupervisorControlOperationFailureDispatch>,
    pub held_restart_settlements: Vec<SupervisorHeldRestartSettlement>,
    pub start_hook_launches: Vec<SupervisorJobLaunchDispatch>,
    pub start_hook_launch_failures: Vec<SupervisorLaunchFailureDispatch>,
    pub post_hook_launches: Vec<SupervisorJobLaunchDispatch>,
    pub post_hook_launch_failures: Vec<SupervisorPostStartHookTerminalDispatch>,
    pub control_launches: Vec<SupervisorJobLaunchDispatch>,
    pub health_check_launches: Vec<SupervisorJobLaunchDispatch>,
    pub health_check_launch_failures: Vec<SupervisorHealthCheckLaunchFailureDispatch>,
    pub health_check_launch_cancellations: Vec<SupervisorHealthCheckLaunchCancelledDispatch>,
    pub service_launches: Vec<SupervisorLaunchDispatch>,
    pub service_launch_failures: Vec<SupervisorLaunchFailureDispatch>,
}

impl RuntimeWorkPumpTurn {
    /// Whether the pump drained nothing.
    pub open spec fn spec_is_empty(self) -> bool {
        &&& self.control_operations@.len() == 0
        &&& self.control_operation_failures@.len() == 0
        &&& self.held_restart_settlements@.len() == 0
        &&& self.start_hook_launches@.len() == 0
        &&& self.start_hook_launch_failures@.len() == 0
        &&& self.post_hook_launches@.len() == 0
        &&& self.post_hook_launch_failures@.len() == 0
        &&& self.control_launches@.len() == 0
        &&& self.health_check_launches@.len() == 0
        &&& self.health_check_launch_failures@.len() == 0
        &&& self.health_check_launch_cancellations@.len() == 0
        &&& self.service_launches@.len() == 0
        &&& self.service_launch_failures@.len() == 0
    }

    /// A pump turn that drained nothing.
    pub fn empty() -> (t: Self)
        ensures
            t.spec_is_empty(),
    {
        RuntimeWorkPumpTurn {
            control_operations: Vec::new(),
            control_operation_failures: Vec::new(),
            held_restart_settlements: Vec::new(),
            start_hook_launches: Vec::new(),
            start_hook_launch_failures: Vec::new(),
            post_hook_launches: Vec::new(),
            post_hook_launch_failures: Vec::new(),
            control_launches: Vec::new(),
            health_check_launches: Vec::new(),
            health_check_launch_failures: Vec::new(),
            health_check_launch_cancellations: Vec::new(),
            service_launches: Vec::new(),
            service_launch_failures: Vec::new(),
        }
    }
}

/// The service and job a notify message was authenticated as.
#[derive(Debug, Clone, PartialEq, Eq)]
pub struct AuthenticatedNotifySender {
    pub service: String,
    pub job_id: u64,
}

/// What the notify socket gave up.
#[derive(Debug, Clone, Copy, PartialEq, Eq)]
pub enum RuntimeNotifyRead {
    Datagram { sender_pid: u32 },
    WouldBlock,
}

/// Why a notify message was refused.
#[derive(Debug, Clone, PartialEq, Eq)]
pub enum RuntimeNotifyRejection {
    Parse { error: String, attribution: Option<AuthenticatedNotifySender> },
    Apply { error: String, attribution: Option<AuthenticatedNotifySender> },
    Shutdown(String),
    Truncated { payload: u64, control: u64 },
}

/// A notify message applied to its service.
#[derive(Debug, Clone, PartialEq, Eq)]
pub struct NotifyApplication {
    pub sender: AuthenticatedNotifySender,
    pub applied_fields: Vec<String>,
    pub operation_events: Vec<OperationEvent>,
    pub graph_events: Vec<GraphExecutionEvent>,
    pub post_start_hook: Option<JobEvent>,
}

#[derive(Debug, Clone, PartialEq, Eq)]
pub struct SupervisorNotifyDispatch {
    pub notify: NotifyApplication,
    /// File descriptors the store refused, by name.
    pub fd_store_rejections: Vec<String>,
    pub start_dispatches: Vec<StartExecutionDispatch>,
}

#[derive(Debug, Clone, PartialEq, Eq)]
pub enum RuntimeNotifySupervisorTurn {
    Applied(Box<SupervisorNotifyDispatch>),
    Rejected(RuntimeNotifyRejection),
}

/// A filesystem check helper that reported.
#[derive(Debug, Clone, PartialEq, Eq)]
pub struct SupervisorFilesystemCheckCompletionDispatch {
    pub completion: PreStartCheckCompletionDispatch,
    pub start_dispatches: Vec<StartExecutionDispatch>,
}

#[derive(Debug, Clone, PartialEq, Eq)]
pub enum RuntimeFilesystemCheckHelperTurn {
    Completed { completion: SupervisorFilesystemCheckCompletionDispatch },
    ReadFailedClosed { completion: SupervisorFilesystemCheckCompletionDispatch, error: String },
    WouldBlock,
    Stale,
}

/// What a launched child's setup status came to.
#[derive(Debug, Clone, PartialEq, Eq)]
pub enum SupervisorProcessSetupDispatch {
    ServiceMainLaunched(SupervisorLaunchDispatch),
    ServiceMainFailed(SupervisorLaunchFailureDispatch),
    StartHookLaunched(SupervisorJobLaunchDispatch),
    StartHookFailed(SupervisorLaunchFailureDispatch),
    PostHookLaunched(SupervisorJobLaunchDispatch),
    PostHookFailed(SupervisorPostStartHookTerminalDispatch),
    ControlLaunched(SupervisorJobLaunchDispatch),
    HealthCheckLaunched(SupervisorJobLaunchDispatch),
    HealthCheckFailed(SupervisorHealthCheckLaunchFailureDispatch),
    ControlTimeout,
    Pending,
    Stale { fd: i32 },
}

#[derive(Debug, Clone, PartialEq, Eq)]
pub enum RuntimeProcessSetupTurn {
    Completed { supervisor: Box<SupervisorProcessSetupDispatch> },
    WouldBlock,
}

#[derive(Debug, Clone, PartialEq, Eq)]
pub enum RuntimePowerButtonTurn {
    Shutdown { supervisor: SupervisorPowerButtonDispatch },
    Ignored,
}

/// What asking for a timer's last-run write came to.
#[derive(Debug, Clone, Copy, PartialEq, Eq)]
pub enum TimerLastRunWriteOutcome {
    /// A child was forked to write it.
    Queued { pid: u32 },
    /// The timer is not persistent, so nothing is written.
    Skipped,
}

/// A calendar timer's read, and the firing it carried where it fired.
#[derive(Debug, PartialEq, Eq)]
pub struct RuntimeCalendarTimerTurn {
    pub supervisor: Option<Box<SupervisorTimerDispatch>>,
    pub last_run_write: Option<Result<TimerLastRunWriteOutcome, String>>,
    pub next_scheduled_ns: Option<u64>,
}

/// What a reaped child was, and what its exit did.
#[derive(Debug, Clone, PartialEq, Eq)]
pub enum SupervisorChildReapDispatch {
    Runtime(Box<SupervisorTerminalDispatch>),
    PreStartHook(Box<SupervisorPreStartHookTerminalDispatch>),
    PostStartHook(Box<SupervisorPostStartHookTerminalDispatch>),
    ReloadCommand(ReloadCommandDispatch),
    HealthCheck(Box<SupervisorHealthCheckTerminalDispatch>),
    Shutdown(Box<SupervisorShutdownTerminalDispatch>),
    Submitted(SupervisorSubmittedJobDispatch),
}

#[derive(Debug, Clone, PartialEq, Eq)]
pub enum SupervisorChildReapTurn {
    Supervised { child: ChildReap, job_id: u64, dispatch: SupervisorChildReapDispatch },
    /// A child no job claims: every other fork of PID 1.
    Untracked { child: ChildReap },
    /// Applying the exit failed inside one service and was contained there.
    InternalError { child: ChildReap, dispatch: Box<SupervisorInternalErrorDispatch> },
}

/// The one reload that the boot window deferred, run once the plan drained.
#[derive(Debug, PartialEq, Eq)]
pub struct RuntimeDeferredRegistryReloadTurn {
    pub deferred_services: Vec<String>,
    pub outcome: Result<ReloadConfigOutcome, String>,
}

/// One jobs connection's turn in the runtime.
#[derive(Debug, Clone, PartialEq, Eq)]
pub enum RuntimeJobsConnectionTurn {
    Processed {
        supervisor: Box<SupervisorJobsConnectionTurn>,
        removed: bool,
        active_connections: usize,
    },
    Stale,
}

/// What one event source produced in one turn.
#[derive(Debug, PartialEq, Eq)]
pub enum RuntimeShutdownEventTurn {
    Pid1Signal {
        supervisor: SupervisorPid1SignalFdTurn,
        child_reaps: Vec<SupervisorChildReapTurn>,
        drive: Option<Box<SupervisorShutdownDriveDispatch>>,
    },
    ControlListener { accepted: Option<i32> },
    ControlConnection { fd: i32, supervisor: Box<SupervisorControlConnectionTableTurn> },
    IdleControlConnectionsClosed { fds: Vec<i32> },
    IdleJobsConnectionsClosed { fds: Vec<i32> },
    StaleControlConnection { fd: i32 },
    ShutdownDeadlineTimer { drive: Option<Box<SupervisorShutdownDriveDispatch>> },
    LifecycleDeadlineTimer { drive: Option<Box<SupervisorLifecycleDeadlineDispatch>> },
    Notify { read: RuntimeNotifyRead, supervisor: Option<RuntimeNotifySupervisorTurn> },
    CalendarTimer { fd: i32, turn: RuntimeCalendarTimerTurn },
    FilesystemCheckHelper { turn: RuntimeFilesystemCheckHelperTurn },
    FilesystemCheckHelperExit { turn: RuntimeFilesystemCheckHelperTurn },
    ProcessSetup { turn: RuntimeProcessSetupTurn },
    PowerButton { fd: i32, turn: RuntimePowerButtonTurn },
    ServiceLogPipe { fd: i32 },
    JfsDevice { fd: i32 },
    RegistryWatch { fd: i32, reload: Option<Result<ReloadConfigOutcome, String>> },
    DeferredRegistryReload { turn: RuntimeDeferredRegistryReloadTurn },
    DeferredChildReaps { child_reaps: Vec<SupervisorChildReapTurn>, ended_at_ns: u64 },
    JobsConnection { fd: i32, turn: RuntimeJobsConnectionTurn },
}

} // verus!
