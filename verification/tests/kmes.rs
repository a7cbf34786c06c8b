use peinit_runtime::boundary::BoundaryError;
use peinit_runtime::event_loop::model::RuntimeShutdownLoopError;
use peinit_runtime::kmes::emit::{
    contain_kmes_refusal, emit_kmes_events_contained, emit_runtime_loop_kmes_events,
    DroppedKmesEvent, KmesEventSink,
};
use peinit_runtime::kmes::event::KmesEvent;
use peinit_runtime::kmes::turn::collect_runtime_loop_kmes_events;
use peinit_runtime::model::control::{
    SupervisorControlCommandBodyError, SupervisorControlConnectionTableTurn,
    SupervisorControlFrameTurn,
};
use peinit_runtime::model::deadline::{
    SupervisorLifecycleDeadlineDispatch, SupervisorOnFailureLoopSuppressedDispatch,
    SupervisorOnFailureLoopSuppressionReason, SupervisorOperationMaintenanceTurn,
    SupervisorTimerAction, SupervisorTimerDispatch,
};
use peinit_runtime::model::dispatch::SupervisorLeakedCgroupDispatch;
use peinit_runtime::model::operation::{
    OnDemandStartDispatch, OperationEvent, OperationEventKind, OperationType,
};
use peinit_runtime::model::service::{
    LeakedCgroupKind, ServiceState, ServiceTableTransition, ServiceTransitionEvent,
    TransitionCause,
};
use peinit_runtime::model::shutdown::ShutdownFinalizationState;
use peinit_runtime::model::stop::{
    SupervisorShutdownAbandonedDispatch, SupervisorShutdownDriveDispatch,
    SupervisorShutdownTimeoutDispatch,
};
use peinit_runtime::model::supervisor::ServiceAccessDenied;
use peinit_runtime::model::turn::{
    RuntimeCalendarTimerTurn, RuntimeShutdownEventTurn, RuntimeWorkPumpTurn,
};

fn event_types(events: &[KmesEvent]) -> Vec<&str> {
    events.iter().map(|event| event.event_type.as_str()).collect()
}

fn completed_operation(id: u64, service: &str) -> OperationEvent {
    OperationEvent {
        operation_id: id,
        operation_type: OperationType::Start,
        service: service.to_string(),
        kind: OperationEventKind::Completed,
    }
}

fn requested_operation(id: u64, service: &str) -> OperationEvent {
    OperationEvent {
        operation_id: id,
        operation_type: OperationType::Start,
        service: service.to_string(),
        kind: OperationEventKind::Requested,
    }
}

fn abandoned_dispatch(service: &str) -> SupervisorShutdownAbandonedDispatch {
    SupervisorShutdownAbandonedDispatch {
        service: service.to_string(),
        cgroup_id: format!("system.slice/{service}"),
        service_transition: ServiceTableTransition {
            event: ServiceTransitionEvent {
                service: service.to_string(),
                from: ServiceState::Stopping,
                to: ServiceState::Abandoned,
                cause: TransitionCause::ProcessUnkillable,
                generation: 4,
            },
        },
    }
}

fn timer_start_dispatch(operation_id: u64, service: &str) -> SupervisorTimerDispatch {
    SupervisorTimerDispatch {
        service: service.to_string(),
        schedule: "daily".to_string(),
        action: SupervisorTimerAction::Start {
            outcome: OnDemandStartDispatch {
                requested: service.to_string(),
                events: vec![requested_operation(operation_id, service)],
            },
            start_dispatches: Vec::new(),
        },
    }
}

fn collect(
    maintenance_before_wait: &SupervisorOperationMaintenanceTurn,
    turns: Vec<RuntimeShutdownEventTurn>,
    maintenance_after_sources: &SupervisorOperationMaintenanceTurn,
    calendar_turns: Vec<(i32, RuntimeCalendarTimerTurn)>,
) -> Vec<KmesEvent> {
    let mut events = Vec::new();
    collect_runtime_loop_kmes_events(
        &RuntimeWorkPumpTurn::default(),
        maintenance_before_wait,
        &turns,
        &RuntimeWorkPumpTurn::default(),
        maintenance_after_sources,
        &calendar_turns,
        &mut events,
    );
    events
}

#[test]
fn runtime_loop_collector_pushes_a_leaked_cgroup_as_an_audit_event() {
    let turn = RuntimeShutdownEventTurn::LifecycleDeadlineTimer {
        drive: Some(Box::new(SupervisorLifecycleDeadlineDispatch {
            cgroup_leaks: vec![SupervisorLeakedCgroupDispatch {
                service: "jellyfin".to_string(),
                path: "/sys/fs/cgroup/peinit/jellyfin/health".to_string(),
                kind: LeakedCgroupKind::Health,
                detected_at_ns: 1_000,
            }],
            ..SupervisorLifecycleDeadlineDispatch::default()
        })),
    };

    let events = collect(
        &SupervisorOperationMaintenanceTurn::default(),
        vec![turn],
        &SupervisorOperationMaintenanceTurn::default(),
        Vec::new(),
    );

    assert_eq!(event_types(&events), vec!["cgroup.leaked"], "collected KMES events");
    assert_eq!(events[0].service.as_deref(), Some("jellyfin"));
}

#[test]
fn runtime_loop_collector_preserves_phase_order_for_maintenance_events_and_calendar_timers() {
    let maintenance_before_wait = SupervisorOperationMaintenanceTurn {
        operation_timeouts: vec![completed_operation(1, "before_wait")],
        ..SupervisorOperationMaintenanceTurn::default()
    };
    let shutdown_turn = RuntimeShutdownEventTurn::ShutdownDeadlineTimer {
        drive: Some(Box::new(SupervisorShutdownDriveDispatch {
            timeout: Some(SupervisorShutdownTimeoutDispatch {
                submitted: Vec::new(),
                global_timeout: false,
                cgroup_kills: Vec::new(),
                job_events: Vec::new(),
                abandoned: vec![abandoned_dispatch("abandoned")],
                next_wave: Vec::new(),
                finalization: ShutdownFinalizationState::WaitingForServices,
            }),
            finalization: None,
        })),
    };
    let maintenance_after_sources = SupervisorOperationMaintenanceTurn {
        operation_timeouts: vec![completed_operation(2, "after_sources")],
        relationship_audit_events: vec![SupervisorOnFailureLoopSuppressedDispatch {
            failed_service: "a".to_string(),
            attempted_handler: "b".to_string(),
            chain: vec!["b".to_string(), "a".to_string(), "b".to_string()],
            reason: SupervisorOnFailureLoopSuppressionReason::Cycle,
        }],
        ..SupervisorOperationMaintenanceTurn::default()
    };
    let calendar_turn = RuntimeCalendarTimerTurn {
        supervisor: Some(Box::new(timer_start_dispatch(3, "calendar"))),
        last_run_write: None,
        next_scheduled_ns: None,
    };

    let events = collect(
        &maintenance_before_wait,
        vec![shutdown_turn],
        &maintenance_after_sources,
        vec![(17, calendar_turn)],
    );

    assert_eq!(
        event_types(&events),
        vec![
            "operation.completed",
            "shutdown.abandoned",
            "operation.completed",
            "on_failure.loop_suppressed",
            "operation.requested",
        ],
        "collected KMES events",
    );
}

#[test]
fn runtime_loop_collector_emits_access_denial_audit_events() {
    let control_turn = RuntimeShutdownEventTurn::ControlConnection {
        fd: 44,
        supervisor: Box::new(SupervisorControlConnectionTableTurn {
            fd: 44,
            frames: vec![SupervisorControlFrameTurn::CommandRejected {
                error: SupervisorControlCommandBodyError::ServiceAccessDenied(ServiceAccessDenied {
                    caller: "S-1-5-21-client".to_string(),
                    service: "secret".to_string(),
                }),
            }],
            removed: false,
            active_connections: 1,
        }),
    };

    let events = collect(
        &SupervisorOperationMaintenanceTurn::default(),
        vec![control_turn],
        &SupervisorOperationMaintenanceTurn::default(),
        Vec::new(),
    );

    assert_eq!(events.len(), 1, "collected KMES events");
    assert_eq!(events[0].event_type, "access.denied");
}

#[derive(Debug, Default)]
struct RecordingKmesSink {
    emitted: Vec<KmesEvent>,
    /// Refuse every event.
    error: Option<BoundaryError>,
    /// Refuse events naming this service, with this error.
    refuse_service: Option<(String, String)>,
}

impl RecordingKmesSink {
    fn refusing_everything(error: BoundaryError) -> Self {
        Self {
            emitted: Vec::new(),
            error: Some(error),
            refuse_service: None,
        }
    }

    fn refusing_service(service: &str, error: &str) -> Self {
        Self {
            emitted: Vec::new(),
            error: None,
            refuse_service: Some((service.to_string(), error.to_string())),
        }
    }

    fn event_types(&self) -> Vec<&str> {
        event_types(&self.emitted)
    }
}

impl KmesEventSink for RecordingKmesSink {
    fn emit_kmes_event(&mut self, event: &KmesEvent) -> Result<(), BoundaryError> {
        if let Some(error) = &self.error {
            return Err(error.clone());
        }
        if let Some((service, error)) = &self.refuse_service {
            if event.event_type != "event.oversized" && event.service.as_deref() == Some(service) {
                return Err(BoundaryError::Kmes(error.clone()));
            }
        }
        self.emitted.push(event.clone());
        Ok(())
    }
}

fn emit(
    sink: &mut RecordingKmesSink,
    dropped_events: &mut u64,
    maintenance: &SupervisorOperationMaintenanceTurn,
) -> Result<Vec<peinit_runtime::kmes::emit::DroppedKmesEvent>, RuntimeShutdownLoopError> {
    emit_runtime_loop_kmes_events(
        sink,
        dropped_events,
        &RuntimeWorkPumpTurn::default(),
        maintenance,
        &Vec::new(),
        &RuntimeWorkPumpTurn::default(),
        &SupervisorOperationMaintenanceTurn::default(),
        &Vec::new(),
    )
}

#[test]
fn runtime_loop_kmes_emission_sends_collected_events_to_sink() {
    let maintenance = SupervisorOperationMaintenanceTurn {
        operation_timeouts: vec![completed_operation(1, "app")],
        ..SupervisorOperationMaintenanceTurn::default()
    };
    let mut sink = RecordingKmesSink::default();
    let mut dropped_events = 0;

    let dropped = emit(&mut sink, &mut dropped_events, &maintenance).expect("emit KMES events");

    assert_eq!(sink.event_types(), vec!["operation.completed"]);
    assert!(dropped.is_empty());
    assert_eq!(dropped_events, 0);
}

#[test]
fn runtime_loop_kmes_emission_drops_a_refused_event_and_records_the_gap() {
    let maintenance = SupervisorOperationMaintenanceTurn {
        operation_timeouts: vec![completed_operation(1, "app"), completed_operation(2, "db")],
        ..SupervisorOperationMaintenanceTurn::default()
    };
    let mut sink = RecordingKmesSink::refusing_service("app", "No space left on device");
    let mut dropped_events = 0;

    let dropped = emit(&mut sink, &mut dropped_events, &maintenance)
        .expect("a refused event is not a loop error");

    assert_eq!(sink.event_types(), vec!["event.oversized", "operation.completed"]);
    assert_eq!(dropped_events, 1);
    assert_eq!(dropped.len(), 1);
    assert_eq!(dropped[0].event_type, "operation.completed");
    assert_eq!(dropped[0].service.as_deref(), Some("app"));
    assert_eq!(dropped[0].dropped_total, 1);
    assert!(dropped[0].error.contains("No space left on device"));
    assert_eq!(
        sink.emitted[0].service.as_deref(),
        Some("app"),
        "the gap record names the service the dropped event was about",
    );
    assert!(
        dropped[0]
            .console_message()
            .contains("event operation.completed for service app"),
        "{}",
        dropped[0].console_message(),
    );
}

#[test]
fn runtime_loop_kmes_emission_maps_an_unusable_ring_to_loop_error() {
    let maintenance = SupervisorOperationMaintenanceTurn {
        operation_timeouts: vec![completed_operation(1, "app")],
        ..SupervisorOperationMaintenanceTurn::default()
    };
    let mut sink =
        RecordingKmesSink::refusing_everything(BoundaryError::Kmes("device full".to_string()));
    let mut dropped_events = 0;

    let error = emit(&mut sink, &mut dropped_events, &maintenance).expect_err("sink failure");

    assert!(matches!(
        error,
        RuntimeShutdownLoopError::Kmes(BoundaryError::Kmes(message))
            if message == "device full"
    ));
    assert!(sink.emitted.is_empty());
}

#[test]
fn the_drop_count_runs_on_across_turns() {
    let mut sink = RecordingKmesSink::refusing_service("app", "too large");
    let mut dropped_events = 5;
    let events = vec![
        KmesEvent {
            event_type: "job.created".to_string(),
            service: Some("app".to_string()),
            job_id: Some(9),
            detail: String::new(),
        },
        KmesEvent {
            event_type: "job.started".to_string(),
            service: Some("app".to_string()),
            job_id: Some(9),
            detail: String::new(),
        },
    ];

    let dropped = emit_kmes_events_contained(&mut sink, &mut dropped_events, &events).expect("contained");

    assert_eq!(dropped_events, 7);
    assert_eq!(dropped.iter().map(|d| d.dropped_total).collect::<Vec<_>>(), vec![6, 7]);
    assert_eq!(dropped[1].job_id, Some(9));
    assert_eq!(sink.event_types(), vec!["event.oversized", "event.oversized"]);
    assert_eq!(
        sink.emitted[1].detail,
        "dropped event job.started for service app (job 9): Kmes(\"too large\") (7 dropped this boot)"
    );
    assert_eq!(
        dropped[0].console_message(),
        "peinit warning: dropped event job.created for service app (job 9): Kmes(\"too large\") (6 dropped this boot)\n"
    );
}

fn job_event(event_type: &str) -> KmesEvent {
    KmesEvent {
        event_type: event_type.to_string(),
        service: Some("app".to_string()),
        job_id: Some(9),
        detail: "detail".to_string(),
    }
}

#[test]
fn an_accepted_event_is_not_dropped() {
    assert_eq!(contain_kmes_refusal(&job_event("job.created"), &Ok(()), 3), None);
}

#[test]
fn a_refused_event_becomes_a_drop_record_with_the_sink_error() {
    let refusal = Err(BoundaryError::Kmes("device full".to_string()));

    assert_eq!(
        contain_kmes_refusal(&job_event("job.created"), &refusal, 3),
        Some(DroppedKmesEvent {
            event_type: "job.created".to_string(),
            service: Some("app".to_string()),
            job_id: Some(9),
            error: "Kmes(\"device full\")".to_string(),
            dropped_total: 4,
        })
    );
}

#[test]
fn a_refused_gap_record_ends_the_emission_with_the_sink_error() {
    let mut sink = RecordingKmesSink::refusing_everything(BoundaryError::Io("EIO".to_string()));
    let mut dropped_events = 0;

    let error = emit_kmes_events_contained(&mut sink, &mut dropped_events, &vec![job_event("job.created")])
        .expect_err("the gap record was refused too");

    assert_eq!(error, RuntimeShutdownLoopError::Kmes(BoundaryError::Io("EIO".to_string())));
    assert_eq!(dropped_events, 1);
    assert!(sink.emitted.is_empty());
}

#[test]
fn a_drop_record_shows_the_error_as_debug_does() {
    let refusal = BoundaryError::Io("said \"no\"\n".to_string());

    let dropped = contain_kmes_refusal(&job_event("job.created"), &Err(refusal.clone()), 0)
        .expect("refused");

    assert_eq!(dropped.error, format!("{refusal:?}"));
    assert_eq!(dropped.error, "Io(\"said \\\"no\\\"\\n\")");
}
