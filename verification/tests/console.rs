use peinit_runtime::console::message::{ConsoleMessage, ConsoleSeverity, ConsoleTag};
use peinit_runtime::console::service::{
    collect_shutdown_finalization_turn_console_messages, push_pending_shutdown_finalization_messages,
    push_service_launch_failed,
};
use peinit_runtime::console::turn::collect_runtime_loop_console_messages;
use peinit_runtime::model::control::{
    LifecycleCommandOutcome, ReloadConfigOutcome, ServiceReloadSummary,
    SupervisorControlCommandDispatch, SupervisorControlConnectionTableTurn,
    SupervisorControlFrameTurn, SupervisorLifecycleDispatch,
};
use peinit_runtime::model::deadline::SupervisorLifecycleDeadlineDispatch;
use peinit_runtime::model::dispatch::{
    LaunchCreatedJobDispatch, ReloadDetectionCompletion, ReloadDetectionPhase,
    ServiceMainJobStartedDispatch, ServiceMainJobTerminalDispatch, SupervisorInternalErrorDispatch,
    SupervisorLeakedCgroupDispatch,
};
use peinit_runtime::model::job::{ChildExitStatus, ChildReap, JobEvent, JobState};
use peinit_runtime::model::operation::{OperationEvent, OperationEventKind, OperationType};
use peinit_runtime::model::service::{
    LeakedCgroupKind, ServiceState, ServiceTableTransition, ServiceTransitionEvent,
    TransitionCause, UndecodableService,
};
use peinit_runtime::model::shutdown::{
    CleanupActionResult, CriticalRebootOwed, CriticalRebootTrigger,
    RuntimePendingShutdownFinalization, RuntimeShutdownFinalizationTurn, ShutdownFinalizationReport,
    ShutdownFinalizationState, ShutdownKind, SupervisorCriticalBudgetRebootDispatch,
    SupervisorShutdownFinalizationDispatch,
};
use peinit_runtime::model::stop::{
    ShutdownRuntime, SupervisorPid1SignalFdTurn, SupervisorShutdownDispatch,
    SupervisorShutdownSignalAction, SupervisorShutdownSignalDispatch,
    SupervisorShutdownStopDispatch,
};
use peinit_runtime::model::supervisor::{SupervisorLaunchDispatch, SupervisorTerminalDispatch};
use peinit_runtime::model::turn::{
    RuntimeShutdownEventTurn, RuntimeWorkPumpTurn, SupervisorChildReapDispatch,
    SupervisorChildReapTurn,
};

/// SIGCHLD on Linux.
const SIGCHLD: i32 = 17;

fn collect_all(
    pre_work: &RuntimeWorkPumpTurn,
    turns: Vec<RuntimeShutdownEventTurn>,
    post_work: &RuntimeWorkPumpTurn,
) -> Vec<ConsoleMessage> {
    let mut messages = Vec::new();
    collect_runtime_loop_console_messages(pre_work, &turns, post_work, &Vec::new(), &mut messages);
    messages
}

fn collect_messages(
    pre_work: &RuntimeWorkPumpTurn,
    turns: Vec<RuntimeShutdownEventTurn>,
    post_work: &RuntimeWorkPumpTurn,
) -> Vec<String> {
    collect_all(pre_work, turns, post_work)
        .into_iter()
        .map(|message| message.text)
        .collect()
}

fn control_dispatch_turn(dispatch: SupervisorControlCommandDispatch) -> RuntimeShutdownEventTurn {
    RuntimeShutdownEventTurn::ControlConnection {
        fd: 44,
        supervisor: Box::new(SupervisorControlConnectionTableTurn {
            fd: 44,
            frames: vec![SupervisorControlFrameTurn::CommandAccepted {
                dispatch: Some(Box::new(dispatch)),
                access_denials: Vec::new(),
                job_access_denials: Vec::new(),
            }],
            removed: false,
            active_connections: 1,
        }),
    }
}

fn transition(
    service: &str,
    from: ServiceState,
    to: ServiceState,
    cause: TransitionCause,
) -> ServiceTableTransition {
    ServiceTableTransition {
        event: ServiceTransitionEvent {
            service: service.to_string(),
            from,
            to,
            cause,
            generation: 1,
        },
    }
}

fn job_event(service: &str, id: u64, state: JobState, ended_at_ns: Option<u64>) -> JobEvent {
    JobEvent {
        job_id: id,
        service: Some(service.to_string()),
        state,
        failure_cause: if state == JobState::Failed {
            Some("exit 1".to_string())
        } else {
            None
        },
        ended_at_ns,
    }
}

fn created_job(service: &str, id: u64) -> JobEvent {
    job_event(service, id, JobState::Created, None)
}

fn running_job(service: &str, id: u64) -> JobEvent {
    job_event(service, id, JobState::Running, None)
}

fn failed_job(service: &str, id: u64) -> JobEvent {
    job_event(service, id, JobState::Failed, Some(30))
}

fn finalization_dispatch() -> SupervisorShutdownFinalizationDispatch {
    SupervisorShutdownFinalizationDispatch {
        report: ShutdownFinalizationReport {
            random_seed: CleanupActionResult::Succeeded,
            sync_result: CleanupActionResult::Succeeded,
            reboot_result: CleanupActionResult::Succeeded,
        },
        finalization: ShutdownFinalizationState::Completed,
    }
}

fn sigchld_turn(child_reaps: Vec<SupervisorChildReapTurn>) -> RuntimeShutdownEventTurn {
    RuntimeShutdownEventTurn::Pid1Signal {
        supervisor: SupervisorPid1SignalFdTurn::Other { signal: SIGCHLD },
        child_reaps,
        drive: None,
    }
}

fn terminal_reap(
    pid: u32,
    code: i32,
    job_id: u64,
    terminal: ServiceMainJobTerminalDispatch,
    critical_reboot: Option<SupervisorShutdownFinalizationDispatch>,
) -> SupervisorChildReapTurn {
    SupervisorChildReapTurn::Supervised {
        child: ChildReap {
            pid,
            status: ChildExitStatus::Exited { code },
        },
        job_id,
        dispatch: SupervisorChildReapDispatch::Runtime(Box::new(SupervisorTerminalDispatch {
            terminal,
            cleanup_job_events: Vec::new(),
            start_dispatches: Vec::new(),
            restart_start_dispatches: Vec::new(),
            critical_reboot,
        })),
    }
}

fn reload_detection_turn(phase: ReloadDetectionPhase) -> RuntimeShutdownEventTurn {
    RuntimeShutdownEventTurn::LifecycleDeadlineTimer {
        drive: Some(Box::new(SupervisorLifecycleDeadlineDispatch {
            reload_detections: vec![ReloadDetectionCompletion {
                operation_event: OperationEvent {
                    operation_id: 1,
                    operation_type: OperationType::Reload,
                    service: "app".to_string(),
                    kind: OperationEventKind::Completed,
                },
                service_transition: transition(
                    "app",
                    ServiceState::Reloading,
                    ServiceState::Active,
                    TransitionCause::ExplicitReload,
                ),
                phase,
            }],
            ..SupervisorLifecycleDeadlineDispatch::default()
        })),
    }
}

#[test]
fn a_reset_that_leaves_the_abandoned_cgroup_leaked_warns_on_the_console() {
    let dispatch = SupervisorLifecycleDispatch {
        outcome: LifecycleCommandOutcome::Noop {
            service: "task".to_string(),
        },
        lifecycle_warnings: vec![
            "abandoned main cgroup for service task is still populated after reset -- cgroup remains leaked; underlying D-state process requires investigation"
                .to_string(),
        ],
        start_dispatches: Vec::new(),
    };
    let turn = control_dispatch_turn(SupervisorControlCommandDispatch::Lifecycle(Box::new(dispatch)));

    let messages = collect_all(&RuntimeWorkPumpTurn::default(), vec![turn], &RuntimeWorkPumpTurn::default());

    assert_eq!(
        messages,
        vec![ConsoleMessage::error(
            "peinit warning: abandoned main cgroup for service task is still populated after reset -- cgroup remains leaked; underlying D-state process requires investigation\n"
        )],
    );
}

#[test]
fn a_reload_that_fails_an_undecodable_service_says_so_on_the_console() {
    let outcome = ReloadConfigOutcome {
        summary: ServiceReloadSummary {
            added: Vec::new(),
            updated: Vec::new(),
            restored: Vec::new(),
            marked_removed: Vec::new(),
            discarded: Vec::new(),
            undecodable: vec!["broken".to_string()],
            deferred: Vec::new(),
        },
        warnings: Vec::new(),
        undecodable: vec![UndecodableService {
            name: "broken".to_string(),
            field: Some("ImagePath".to_string()),
            message: "MissingTerminator".to_string(),
        }],
    };
    let turn = control_dispatch_turn(SupervisorControlCommandDispatch::ReloadConfig(Box::new(outcome)));

    let messages = collect_messages(&RuntimeWorkPumpTurn::default(), vec![turn], &RuntimeWorkPumpTurn::default());

    assert_eq!(
        messages,
        vec![
            "peinit: service broken failed: ValidationError (Service definition failed to decode: MissingTerminator)\n"
        ],
    );
}

#[test]
fn an_unconfirmed_reload_is_reported_on_the_console() {
    let turn = reload_detection_turn(ReloadDetectionPhase::ExtendedWait);

    let messages = collect_all(&RuntimeWorkPumpTurn::default(), vec![turn], &RuntimeWorkPumpTurn::default());

    assert_eq!(
        messages,
        vec![ConsoleMessage::error(
            "peinit: service app signalled RELOADING=1 but never completed reload\n"
        )],
    );
}

#[test]
fn an_expired_reload_detection_window_says_nothing() {
    let turn = reload_detection_turn(ReloadDetectionPhase::DetectionWindow);

    let messages = collect_all(&RuntimeWorkPumpTurn::default(), vec![turn], &RuntimeWorkPumpTurn::default());

    assert!(messages.is_empty());
}

#[test]
fn a_leaked_cgroup_is_announced_on_the_console() {
    let turn = RuntimeShutdownEventTurn::LifecycleDeadlineTimer {
        drive: Some(Box::new(SupervisorLifecycleDeadlineDispatch {
            cgroup_leaks: vec![SupervisorLeakedCgroupDispatch {
                service: "jellyfin".to_string(),
                path: "/sys/fs/cgroup/peinit/jellyfin/health".to_string(),
                kind: LeakedCgroupKind::Health,
                detected_at_ns: 1_000,
            }],
            ..SupervisorLifecycleDeadlineDispatch::default()
        })),
    };

    let messages = collect_all(&RuntimeWorkPumpTurn::default(), vec![turn], &RuntimeWorkPumpTurn::default());

    assert_eq!(
        messages,
        vec![ConsoleMessage::error(
            "peinit: service jellyfin leaked its health cgroup /sys/fs/cgroup/peinit/jellyfin/health; underlying process is not responding to the kernel\n"
        )],
    );
}

#[test]
fn service_launch_emits_console_progress() {
    let work = RuntimeWorkPumpTurn {
        service_launches: vec![SupervisorLaunchDispatch {
            launch: LaunchCreatedJobDispatch {
                job_event: created_job("app", 1),
            },
            started: ServiceMainJobStartedDispatch {
                job_event: running_job("app", 1),
                operation_events: Vec::new(),
                graph_events: Vec::new(),
                post_start_hook: None,
            },
            start_dispatches: Vec::new(),
        }],
        ..RuntimeWorkPumpTurn::default()
    };

    let messages = collect_messages(&work, Vec::new(), &RuntimeWorkPumpTurn::default());

    assert_eq!(messages, vec!["peinit: service app started\n"]);
}

#[test]
fn service_log_pipe_turn_does_not_echo_output_to_console() {
    let turn = RuntimeShutdownEventTurn::ServiceLogPipe { fd: 9 };

    let messages = collect_messages(&RuntimeWorkPumpTurn::default(), vec![turn], &RuntimeWorkPumpTurn::default());

    assert!(messages.is_empty());
}

#[test]
fn critical_service_failure_emits_failure_and_critical_messages() {
    let service = "database";
    let turn = sigchld_turn(vec![terminal_reap(
        800,
        1,
        2,
        ServiceMainJobTerminalDispatch {
            job_event: failed_job(service, 2),
            operation_events: Vec::new(),
            service_transitions: vec![transition(
                service,
                ServiceState::Active,
                ServiceState::Failed,
                TransitionCause::ProcessCrash,
            )],
            graph_events: Vec::new(),
            post_start_hook: None,
            late_exit: None,
        },
        Some(finalization_dispatch()),
    )]);

    let messages = collect_messages(&RuntimeWorkPumpTurn::default(), vec![turn], &RuntimeWorkPumpTurn::default());

    assert_eq!(
        messages,
        vec![
            "peinit: service database failed: ProcessCrash\n",
            "peinit: critical service database failed: service main exited\n",
        ],
    );
}

#[test]
fn a_late_service_exit_is_reported_to_the_console() {
    let service = "atriumd";
    let turn = sigchld_turn(vec![terminal_reap(
        801,
        0,
        3,
        ServiceMainJobTerminalDispatch {
            job_event: failed_job(service, 3),
            operation_events: Vec::new(),
            service_transitions: Vec::new(),
            graph_events: Vec::new(),
            post_start_hook: None,
            late_exit: Some(ServiceState::Backoff),
        },
        None,
    )]);

    let messages = collect_messages(&RuntimeWorkPumpTurn::default(), vec![turn], &RuntimeWorkPumpTurn::default());

    assert_eq!(
        messages,
        vec!["peinit: service atriumd main process exited in state Backoff; no action taken\n"],
    );
}

#[test]
fn shutdown_signal_emits_shutdown_progress() {
    let turn = RuntimeShutdownEventTurn::Pid1Signal {
        supervisor: SupervisorPid1SignalFdTurn::Shutdown(Box::new(SupervisorShutdownSignalDispatch {
            action: SupervisorShutdownSignalAction::Graceful(SupervisorShutdownDispatch {
                runtime: ShutdownRuntime {
                    kind: ShutdownKind::Poweroff,
                    finalization: ShutdownFinalizationState::WaitingForServices,
                },
                killed_starting: Vec::new(),
                first_wave: vec![SupervisorShutdownStopDispatch {
                    service: "app".to_string(),
                    already_stopping: false,
                    unsubstantiated_deadline: None,
                }],
                startup_operation_events: Vec::new(),
                startup_job_events: Vec::new(),
            }),
        })),
        child_reaps: Vec::new(),
        drive: None,
    };

    let messages = collect_messages(&RuntimeWorkPumpTurn::default(), vec![turn], &RuntimeWorkPumpTurn::default());

    assert_eq!(
        messages,
        vec![
            "peinit: shutdown Poweroff started\n",
            "peinit: shutdown stopping app\n",
        ],
    );
}

#[test]
fn a_pending_final_action_is_announced_before_it_and_its_outcome_reported_after() {
    let mut before = Vec::new();
    push_pending_shutdown_finalization_messages(
        &mut before,
        &RuntimePendingShutdownFinalization::CriticalBudgetReboot(CriticalRebootOwed {
            service: "authd".to_string(),
            trigger: CriticalRebootTrigger::ServiceMainTerminal,
        }),
    );
    push_pending_shutdown_finalization_messages(&mut before, &RuntimePendingShutdownFinalization::FinalAction);
    assert_eq!(
        before
            .iter()
            .map(|message| (message.text.as_str(), message.severity))
            .collect::<Vec<_>>(),
        vec![
            (
                "peinit: critical service authd failed: service main exited\n",
                ConsoleSeverity::Critical,
            ),
            (
                "peinit: critical service authd exhausted its restart budget; rebooting\n",
                ConsoleSeverity::Critical,
            ),
            ("peinit: shutdown finalizing\n", ConsoleSeverity::Status),
        ],
    );

    let failed = SupervisorShutdownFinalizationDispatch {
        report: ShutdownFinalizationReport {
            random_seed: CleanupActionResult::Failed("seed".to_string()),
            ..finalization_dispatch().report
        },
        finalization: ShutdownFinalizationState::Failed {
            message: "reboot returned".to_string(),
            next_retry_at_ns: 2,
        },
    };
    let mut after = Vec::new();
    collect_shutdown_finalization_turn_console_messages(
        &RuntimeShutdownFinalizationTurn {
            critical_budget_reboot: Some(SupervisorCriticalBudgetRebootDispatch {
                service: "authd".to_string(),
                trigger: CriticalRebootTrigger::ServiceMainTerminal,
                observed_at_ns: Some(1),
                finalization: failed.clone(),
            }),
            finalization: Some(failed),
        },
        &mut after,
    );
    assert_eq!(
        after
            .iter()
            .map(|message| message.text.as_str())
            .collect::<Vec<_>>(),
        vec![
            "peinit: shutdown final action failed: reboot returned\n",
            "peinit warning: shutdown random seed save failed: seed\n",
            "peinit: shutdown final action failed: reboot returned\n",
        ],
        "nothing announced beforehand is said again; only the outcome is",
    );
}

#[test]
fn launch_failure_console_message_carries_the_cause() {
    let mut out = Vec::new();
    let mut event = created_job("lpsd", 1);
    event.failure_cause = Some("provision runtime directories for lpsd failed".to_string());

    push_service_launch_failed(&mut out, &event);

    assert_eq!(
        out,
        vec![ConsoleMessage::error(
            "peinit: service lpsd failed to launch: provision runtime directories for lpsd failed\n"
        )],
    );
}

#[test]
fn launch_failure_console_message_without_a_cause_still_reports_the_failure() {
    let mut out = Vec::new();
    let mut event = created_job("lpsd", 1);
    event.failure_cause = None;

    push_service_launch_failed(&mut out, &event);

    assert_eq!(
        out,
        vec![ConsoleMessage::error("peinit: service lpsd failed to launch\n")],
    );
}

#[test]
fn a_contained_internal_error_names_the_service_the_step_and_the_error() {
    let dispatch = SupervisorInternalErrorDispatch {
        step: "job terminal".to_string(),
        service: Some("app".to_string()),
        job_id: Some(1),
        error: "JobStore(Transition(..))".to_string(),
        observed_at_ns: 30,
        job_event: Some(failed_job("app", 1)),
        service_job_event: None,
        operation_event: None,
        service_transition: Some(transition(
            "app",
            ServiceState::Active,
            ServiceState::Failed,
            TransitionCause::InternalError,
        )),
        start_dispatches: Vec::new(),
    };
    let turn = sigchld_turn(vec![SupervisorChildReapTurn::InternalError {
        child: ChildReap {
            pid: 800,
            status: ChildExitStatus::Exited { code: 0 },
        },
        dispatch: Box::new(dispatch),
    }]);

    let messages = collect_messages(&RuntimeWorkPumpTurn::default(), vec![turn], &RuntimeWorkPumpTurn::default());

    assert_eq!(
        messages,
        vec![
            "peinit: service app: internal error at job terminal: JobStore(Transition(..)); the service is failed\n",
            "peinit: service app failed: InternalError\n",
        ],
    );
}

#[test]
fn console_messages_carry_their_severity_and_tag() {
    assert_eq!(ConsoleMessage::status("x").severity, ConsoleSeverity::Status);
    assert_eq!(ConsoleMessage::ok("x").tag, ConsoleTag::Okay);
    assert_eq!(ConsoleMessage::skip("x").tag, ConsoleTag::Skip);
    assert_eq!(ConsoleMessage::warn("x").severity, ConsoleSeverity::Error);
    assert_eq!(ConsoleMessage::warn("x").tag, ConsoleTag::Warn);
    assert_eq!(ConsoleMessage::error("x").tag, ConsoleTag::Failed);
    assert_eq!(ConsoleMessage::critical("x").tag, ConsoleTag::Crit);
    assert_eq!(ConsoleMessage::critical("x").severity, ConsoleSeverity::Critical);
    assert_eq!(ConsoleMessage::status("x").tag, ConsoleTag::Untagged);
}

#[test]
fn an_untracked_child_says_nothing() {
    let turn = sigchld_turn(vec![SupervisorChildReapTurn::Untracked {
        child: ChildReap {
            pid: 5,
            status: ChildExitStatus::Exited { code: 0 },
        },
    }]);
    assert!(collect_messages(&RuntimeWorkPumpTurn::default(), vec![turn], &RuntimeWorkPumpTurn::default()).is_empty());
}

#[test]
fn an_internal_error_contained_by_the_deadline_timer_says_nothing_on_the_console() {
    let dispatch = SupervisorInternalErrorDispatch {
        step: "deadline".to_string(),
        service: Some("app".to_string()),
        job_id: None,
        error: "JobStore(Transition(..))".to_string(),
        observed_at_ns: 30,
        job_event: None,
        service_job_event: None,
        operation_event: None,
        service_transition: Some(transition(
            "app",
            ServiceState::Active,
            ServiceState::Failed,
            TransitionCause::InternalError,
        )),
        start_dispatches: Vec::new(),
    };
    let turn = RuntimeShutdownEventTurn::LifecycleDeadlineTimer {
        drive: Some(Box::new(SupervisorLifecycleDeadlineDispatch {
            internal_errors: vec![dispatch],
            ..SupervisorLifecycleDeadlineDispatch::default()
        })),
    };

    let messages = collect_messages(&RuntimeWorkPumpTurn::default(), vec![turn], &RuntimeWorkPumpTurn::default());

    assert!(messages.is_empty(), "{messages:?}");
}
