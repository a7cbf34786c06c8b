use peinit_runtime::connections::{ConnectionRecord, ConnectionTable};
use peinit_runtime::console::message::{ConsoleMessage, ConsoleSeverity};
use peinit_runtime::console::policy::{QuietLevel, QuietPolicy, CONSOLE_PATH};
use peinit_runtime::event_loop::model::{
    RuntimeShutdownLoopError, RuntimeControlLimits, RuntimeEventRegistrar, RuntimeEventRegistrationError,
    RuntimeJobsChannelError, RuntimeShutdownLoopTurn, DEFAULT_CONNECTION_TIMEOUT_SECS,
    DEFAULT_MAX_CONTROL_READ_BYTES, DEFAULT_MAX_REQUEST_SIZE_BYTES,
};
use peinit_runtime::event_loop::source::{RuntimeEventSource, RuntimeEventSourceDecodeError};
use peinit_runtime::event_loop::timing::NANOS_PER_SEC;
use peinit_runtime::jobs::{NoJobsChannel, RuntimeJobsChannel, RuntimeJobsChannelTable};
use peinit_runtime::linux::calendar::{
    LinuxCalendarTimerEntry, LinuxCalendarTimerReloadError, LinuxCalendarTimerTable,
};
use peinit_runtime::linux::config::{
    ControlSecurityDescriptor, JobsSocketLimits, LinuxRuntimeConfig, RuntimeWorkPumpConfig,
    SupervisorControlLimits, SupervisorSettings, CONTROL_SOCKET_PATH,
    DEFAULT_JOBS_CONNECTION_TIMEOUT_SECS, DEFAULT_MAX_CONTROL_CONNECTIONS,
    DEFAULT_MAX_JOBS_CONNECTIONS, DEFAULT_MAX_RUNTIME_EVENTS, DEFAULT_NOTIFY_SOCKET_PATH,
    JOBS_SOCKET_PATH,
};
use peinit_runtime::linux::runtime::{
    messages_allowed_by, push_timer_last_run_write_failures, untracked_child_reaps, BoundSocket,
    LinuxShutdownRuntime,
};
use peinit_runtime::linux::timer_last_run::FailedTimerLastRunWrite;
use peinit_runtime::linux::turn::{
    append_idle_closure_turn, append_idle_jobs_closure_turn, attach_calendar_turns,
    partition_calendar_sources, prepend_idle_closure_turn, prepend_idle_jobs_closure_turn,
    push_deferred_child_reaps_turn, reload_config_succeeded,
};
use peinit_runtime::model::job::{ChildExitStatus, ChildReap};
use peinit_runtime::model::service::{ServiceEntry, ServiceState, ServiceTable};
use peinit_runtime::model::stop::SupervisorPid1SignalFdTurn;
use peinit_runtime::model::turn::{
    RuntimeCalendarTimerTurn, RuntimeShutdownEventTurn, RuntimeWorkPumpTurn,
    SupervisorChildReapTurn, TimerLastRunWriteOutcome,
};

use peinit_runtime::linux::calendar::{
        boot_catch_up_turn, calendar_timer_step, CalendarTimerStep, LinuxCalendarTimerError, LinuxTimerFdRead,
    };
use peinit_runtime::event_loop::source::eventd_active;
use peinit_runtime::model::deadline::{SupervisorTimerAction, SupervisorTimerDispatch};
use peinit_runtime::model::operation::{
        OnDemandStartDispatch, OperationEvent, OperationEventKind, OperationType,
    };
use peinit_runtime::jfs::{jfs_device_from_registration, register_phase1_jfs_device};
use peinit_runtime::linux::runtime::wait_flush_stamp;
use peinit_runtime::linux::runtime::Phase1JfsRegistration;
use peinit_runtime::boundary::{BoundaryError, Clock, RealtimeClock};
#[derive(Default)]
struct Registrar {
    registered: Vec<(i32, RuntimeEventSource)>,
    unregistered: Vec<i32>,
    refuse: bool,
}

impl RuntimeEventRegistrar for Registrar {
    fn register_source(
        &mut self,
        fd: i32,
        source: RuntimeEventSource,
    ) -> Result<(), RuntimeEventRegistrationError> {
        if self.refuse {
            return Err(RuntimeEventRegistrationError::Register {
                fd,
                source,
                message: "EBADF".to_string(),
            });
        }
        self.registered.push((fd, source));
        Ok(())
    }

    fn unregister_source(&mut self, fd: i32) -> Result<(), RuntimeEventRegistrationError> {
        self.unregistered.push(fd);
        Ok(())
    }
}

fn socket(fd: i32, path: &str) -> BoundSocket {
    BoundSocket {
        fd,
        path: path.to_string(),
    }
}

fn runtime() -> LinuxShutdownRuntime {
    LinuxShutdownRuntime::with_listeners(
        LinuxRuntimeConfig::default(),
        socket(3, CONTROL_SOCKET_PATH),
        4,
        socket(5, JOBS_SOCKET_PATH),
    )
}

fn empty_turn() -> RuntimeShutdownLoopTurn {
    RuntimeShutdownLoopTurn {
        pre_work: RuntimeWorkPumpTurn::default(),
        sources: Vec::new(),
        turns: Vec::new(),
        post_work: RuntimeWorkPumpTurn::default(),
        eventd_forwarding: false,
    }
}

fn untracked_reap_turn(pid: u32, status: ChildExitStatus) -> RuntimeShutdownEventTurn {
    RuntimeShutdownEventTurn::Pid1Signal {
        supervisor: SupervisorPid1SignalFdTurn::Other { signal: 17 },
        child_reaps: vec![SupervisorChildReapTurn::Untracked {
            child: ChildReap { pid, status },
        }],
        drive: None,
    }
}

fn queued(pid: u32) -> RuntimeCalendarTimerTurn {
    RuntimeCalendarTimerTurn {
        supervisor: None,
        last_run_write: Some(Ok(TimerLastRunWriteOutcome::Queued { pid })),
        next_scheduled_ns: None,
    }
}

fn timer(fd: i32, service: &str, schedule: &str) -> LinuxCalendarTimerEntry {
    LinuxCalendarTimerEntry {
        fd,
        service: service.to_string(),
        schedule: schedule.to_string(),
        persistent: true,
        next_scheduled_ns: 100,
        armed_deadline_ns: 100,
        jitter_secs: 0,
    }
}

/// `peios.notifysocket=` reaches the runtime: the socket the runtime binds
/// is the one Phase 1 bound and services were told about.
#[test]
fn linux_runtime_config_for_settings_carries_the_notify_socket_and_quiet_level() {
    let mut settings = SupervisorSettings::default();
    settings.notify_socket_path = "/run/alt/notify.sock".to_string();
    settings.quiet = QuietLevel::Blackout;

    let config = LinuxRuntimeConfig::for_settings(&settings);

    assert_eq!(config.notify_socket_path, "/run/alt/notify.sock".to_string());
    assert_eq!(config.quiet, QuietLevel::Blackout);
    assert_eq!(config.control_socket_path, CONTROL_SOCKET_PATH.to_string());
    assert_eq!(config.max_events, DEFAULT_MAX_RUNTIME_EVENTS);
}

#[test]
fn linux_runtime_config_defaults_match_control_limits() {
    let config = LinuxRuntimeConfig::default();

    assert_eq!(config.control_socket_path, CONTROL_SOCKET_PATH.to_string());
    assert_eq!(
        config.notify_socket_path,
        DEFAULT_NOTIFY_SOCKET_PATH.to_string()
    );
    assert_eq!(config.max_events, DEFAULT_MAX_RUNTIME_EVENTS);
    assert_eq!(config.max_control_connections, DEFAULT_MAX_CONTROL_CONNECTIONS);
    assert_eq!(config.control_limits.max_read_bytes, DEFAULT_MAX_CONTROL_READ_BYTES);
    assert_eq!(
        config.control_limits.max_request_bytes,
        DEFAULT_MAX_REQUEST_SIZE_BYTES,
    );
    assert_eq!(
        config.control_limits.connection_timeout_secs,
        DEFAULT_CONNECTION_TIMEOUT_SECS,
    );
    assert_eq!(config.control_security, ControlSecurityDescriptor::Default);
    assert_eq!(config.work_pump, RuntimeWorkPumpConfig::default());
}

#[test]
fn the_default_configuration_binds_the_default_sockets() {
    let config = LinuxRuntimeConfig::default();
    assert_eq!(config.jobs_socket_path, JOBS_SOCKET_PATH.to_string());
    assert_eq!(config.max_jobs_connections, DEFAULT_MAX_JOBS_CONNECTIONS);
    assert_eq!(config.quiet, QuietLevel::Standard);
    assert_eq!(
        RuntimeControlLimits::new(1, 2, 3),
        RuntimeControlLimits {
            max_read_bytes: 1,
            max_request_bytes: 2,
            connection_timeout_secs: 3,
        }
    );
}

#[test]
fn a_new_runtime_reports_its_sockets_and_no_connections() {
    let runtime = runtime();
    assert_eq!(runtime.control_socket_path(), &CONTROL_SOCKET_PATH.to_string());
    assert_eq!(runtime.notify_socket_path(), &DEFAULT_NOTIFY_SOCKET_PATH.to_string());
    assert_eq!(runtime.jobs_socket_path(), &JOBS_SOCKET_PATH.to_string());
    assert_eq!(runtime.active_control_connections(), 0);
    assert_eq!(runtime.active_jobs_connections(), 0);
    assert_eq!(runtime.quiet_policy(), QuietPolicy::new(QuietLevel::Standard, false));
    assert_eq!(runtime.dropped_kmes_events(), 0);
}

#[test]
fn control_connections_are_admitted_up_to_the_cap_and_close_when_idle() {
    let mut config = LinuxRuntimeConfig::default();
    config.max_control_connections = 2;
    let mut runtime = LinuxShutdownRuntime::with_listeners(
        config,
        socket(3, CONTROL_SOCKET_PATH),
        4,
        socket(5, JOBS_SOCKET_PATH),
    );
    let mut registrar = Registrar::default();

    assert_eq!(
        runtime.admit_control_connection(&mut registrar, 10, 0),
        Ok(Some(RuntimeEventSource::ControlConnection { fd: 10 }))
    );
    assert_eq!(runtime.admit_control_connection(&mut registrar, 10, 0), Ok(None));
    assert_eq!(
        runtime.admit_control_connection(&mut registrar, 11, 5 * NANOS_PER_SEC),
        Ok(Some(RuntimeEventSource::ControlConnection { fd: 11 }))
    );
    assert_eq!(runtime.admit_control_connection(&mut registrar, 12, 0), Ok(None));
    assert_eq!(runtime.active_control_connections(), 2);
    assert_eq!(
        registrar.registered,
        vec![
            (10, RuntimeEventSource::ControlConnection { fd: 10 }),
            (11, RuntimeEventSource::ControlConnection { fd: 11 }),
        ]
    );

    // The earlier connection goes idle first.
    let timeout = DEFAULT_CONNECTION_TIMEOUT_SECS * NANOS_PER_SEC;
    assert_eq!(runtime.next_control_idle_deadline_ns(), Some(timeout));
    assert_eq!(runtime.runtime_wait_timeout_ms(None, 0), (timeout / 1_000_000) as i32);
    assert_eq!(runtime.runtime_wait_timeout_ms(Some(3_000_000), 0), 3);

    assert_eq!(runtime.close_idle_control_connections(&mut registrar, timeout - 1), Vec::<i32>::new());
    assert_eq!(runtime.close_idle_control_connections(&mut registrar, timeout), vec![10]);
    assert_eq!(registrar.unregistered, vec![10]);
    assert_eq!(runtime.active_control_connections(), 1);

    // A connection parked on a wait does not go idle.
    runtime.record_control_activity(11, 5 * NANOS_PER_SEC, true);
    assert_eq!(runtime.next_control_idle_deadline_ns(), None);
    assert_eq!(runtime.close_idle_control_connections(&mut registrar, u64::MAX), Vec::<i32>::new());
    assert!(runtime.remove_control_connection(11));
    assert!(!runtime.remove_control_connection(11));
}

#[test]
fn a_refused_registration_takes_the_connection_out_again() {
    let mut runtime = runtime();
    let mut registrar = Registrar {
        refuse: true,
        ..Registrar::default()
    };

    assert_eq!(
        runtime.admit_control_connection(&mut registrar, 10, 0),
        Err(RuntimeEventRegistrationError::Register {
            fd: 10,
            source: RuntimeEventSource::ControlConnection { fd: 10 },
            message: "EBADF".to_string(),
        })
    );
    assert_eq!(runtime.active_control_connections(), 0);
    assert!(matches!(
        runtime.admit_jobs_connection(&mut registrar, 20, 0),
        Err(RuntimeJobsChannelError::Registration(_))
    ));
    assert_eq!(runtime.active_jobs_connections(), 0);
}

#[test]
fn jobs_connections_follow_the_jobs_timeout() {
    let mut runtime = runtime();
    let mut registrar = Registrar::default();
    assert_eq!(
        runtime.admit_jobs_connection(&mut registrar, 20, 0),
        Ok(Some(RuntimeEventSource::JobsConnection { fd: 20 }))
    );
    assert_eq!(registrar.registered, vec![(20, RuntimeEventSource::JobsConnection { fd: 20 })]);
    assert!(!runtime.has_pending_jobs_waits());
    runtime.record_jobs_activity(20, 0, true);
    assert!(runtime.has_pending_jobs_waits());
    runtime.record_jobs_activity(20, 0, false);

    runtime.sync_reloadable_config(
        &SupervisorControlLimits {
            max_connections: 8,
            max_request_bytes: 1024,
            connection_timeout_secs: 5,
        },
        &ControlSecurityDescriptor::Custom("D:(A;;GA;;;SY)".to_string()),
        &JobsSocketLimits {
            max_connections: 4,
            max_message_bytes: 4096,
            connection_timeout_secs: 2,
        },
    );
    assert_eq!(runtime.config().max_control_connections, 8);
    assert_eq!(runtime.config().max_jobs_connections, 4);
    assert_eq!(
        runtime.config().control_security,
        ControlSecurityDescriptor::Custom("D:(A;;GA;;;SY)".to_string())
    );
    assert_eq!(
        runtime.runtime_control_limits(&SupervisorControlLimits {
            max_connections: 8,
            max_request_bytes: 1024,
            connection_timeout_secs: 5,
        }),
        RuntimeControlLimits::new(DEFAULT_MAX_CONTROL_READ_BYTES, 1024, 5)
    );

    assert_eq!(runtime.close_idle_jobs_connections(&mut registrar, NANOS_PER_SEC), Vec::<i32>::new());
    assert_eq!(runtime.close_idle_jobs_connections(&mut registrar, 2 * NANOS_PER_SEC), vec![20]);
    assert_eq!(runtime.active_jobs_connections(), 0);
    assert_eq!(DEFAULT_JOBS_CONNECTION_TIMEOUT_SECS, 30);
}

#[test]
fn the_jobs_channel_table_knows_its_listener() {
    let mut channel = RuntimeJobsChannelTable::new(socket(5, JOBS_SOCKET_PATH), 1);
    let mut registrar = Registrar::default();
    assert_eq!(channel.listener(), &socket(5, JOBS_SOCKET_PATH));
    assert_eq!(channel.active_connections(), 0);
    assert_eq!(
        channel.admit_jobs_connection(&mut registrar, -4, 0),
        Err(RuntimeJobsChannelError::Registration(
            RuntimeEventRegistrationError::Register {
                fd: -4,
                source: RuntimeEventSource::JobsListener,
                message: "NegativeDescriptor { fd: -4 }".to_string(),
            }
        ))
    );
    channel.set_max_jobs_connections(2);
    assert_eq!(channel.next_jobs_idle_deadline_ns(1), Some(NANOS_PER_SEC));
    assert!(channel.remove_jobs_connection(-4));
    assert_eq!(channel.next_jobs_idle_deadline_ns(1), None);

    let mut none = NoJobsChannel::default();
    assert!(!none.has_pending_jobs_waits());
    assert_eq!(none.next_jobs_idle_deadline_ns(1), None);
    assert_eq!(none.close_idle_jobs_connections(&mut registrar, u64::MAX, 0), Vec::<i32>::new());
    none.set_max_jobs_connections(3);
}

#[test]
fn the_connection_table_saturates_its_idle_deadline() {
    let mut table = ConnectionTable::new(4);
    assert!(table.accept(1, u64::MAX - 5));
    assert_eq!(table.next_idle_deadline_ns(u64::MAX), Some(u64::MAX));
    assert_eq!(table.idle_fds(u64::MAX, 1), vec![1]);
    assert!(table.contains(1));
    assert_eq!(table.max_connections(), 4);
    assert_eq!(
        peinit_runtime::connections::idle_deadline_ns(
            ConnectionRecord {
                fd: 1,
                last_activity_ns: 10,
                pending_wait: false
            },
            2
        ),
        10 + 2 * NANOS_PER_SEC
    );
    assert_eq!(table.close_idle(u64::MAX, 1), vec![1]);
    assert_eq!(table.len(), 0);
}

#[test]
fn a_calendar_timer_is_named_by_its_fd() {
    let mut table = LinuxCalendarTimerTable::new();
    table.insert(timer(30, "backup", "daily UTC"));
    table.insert(timer(31, "scrub", "weekly UTC"));
    table.insert(timer(30, "backup", "hourly UTC"));
    assert_eq!(table.len(), 2);
    assert_eq!(
        table.identity_for(30),
        Some(("backup".to_string(), "hourly UTC".to_string()))
    );
    assert_eq!(table.identity_for(32), None);
    assert_eq!(table.remove(31).map(|e| e.service), Some("scrub".to_string()));
    assert_eq!(table.identity_for(31), None);
    assert_eq!(table.remove(31), None);
}

#[test]
fn a_failed_last_run_write_is_reported_through_the_turn() {
    let mut runtime = runtime();
    runtime.insert_calendar_timer(timer(30, "backup", "daily UTC"));
    let calendar_turns = vec![(30, queued(4242)), (31, queued(4343))];

    runtime.record_queued_timer_last_run_writes(&calendar_turns);
    let failed = runtime.claim_timer_last_run_write_exits(&vec![
        untracked_reap_turn(4343, ChildExitStatus::Exited { code: 1 }),
        untracked_reap_turn(4242, ChildExitStatus::Exited { code: 1 }),
    ]);

    // Only the armed timer's write was recorded, so only it is reported.
    assert_eq!(
        failed,
        vec![FailedTimerLastRunWrite {
            service: "backup".to_string(),
            schedule: "daily UTC".to_string(),
        }]
    );
}

#[test]
fn the_turn_says_a_failed_last_run_write_on_the_console() {
    let mut runtime = runtime();
    runtime.insert_calendar_timer(timer(30, "backup", "daily UTC"));
    let calendar_turns = vec![(30, queued(4242))];
    let turns = vec![untracked_reap_turn(4242, ChildExitStatus::Signaled {
        signal: 9,
        core_dumped: false,
    })];

    let messages = runtime.turn_console_messages(
        &RuntimeWorkPumpTurn::default(),
        &turns,
        &RuntimeWorkPumpTurn::default(),
        &calendar_turns,
        &None,
    );

    assert_eq!(
        messages,
        vec![ConsoleMessage::error(
            "peinit warning: recording the last run of timer daily UTC for service backup failed; it will run catch-up again after a reboot\n"
        )]
    );
}

#[test]
fn an_owned_console_drops_the_warning_but_not_critical_messages() {
    let mut runtime = runtime();
    let mut service = ServiceEntry::defined("login".to_string());
    service.console_path = Some(CONSOLE_PATH.to_string());
    service.state = ServiceState::Active;
    runtime.refresh_quiet_policy(&ServiceTable::from_definitions(vec![service]));
    assert_eq!(runtime.quiet_policy(), QuietPolicy::new(QuietLevel::Standard, true));

    let messages = vec![
        ConsoleMessage::status("a\n"),
        ConsoleMessage::error("b\n"),
        ConsoleMessage::critical("c\n"),
    ];
    assert_eq!(
        messages_allowed_by(runtime.quiet_policy(), &messages),
        vec![ConsoleMessage::critical("c\n")]
    );
    assert_eq!(
        messages_allowed_by(QuietPolicy::new(QuietLevel::Blackout, false), &messages),
        vec![ConsoleMessage::error("b\n"), ConsoleMessage::critical("c\n")]
    );
    assert_eq!(
        messages_allowed_by(QuietPolicy::new(QuietLevel::Verbose, false), &messages)[0].severity,
        ConsoleSeverity::Status
    );
}

#[test]
fn last_run_failures_are_warnings_in_order() {
    let mut out = Vec::new();
    push_timer_last_run_write_failures(
        &mut out,
        &vec![
            FailedTimerLastRunWrite {
                service: "a".to_string(),
                schedule: "s".to_string(),
            },
            FailedTimerLastRunWrite {
                service: "b".to_string(),
                schedule: "t".to_string(),
            },
        ],
    );
    assert_eq!(out.len(), 2);
    assert_eq!(
        out[1].text,
        "peinit warning: recording the last run of timer t for service b failed; it will run catch-up again after a reboot\n"
    );
}

#[test]
fn untracked_reaps_come_in_the_order_they_were_reaped() {
    let turns = vec![
        untracked_reap_turn(1, ChildExitStatus::Exited { code: 0 }),
        RuntimeShutdownEventTurn::ServiceLogPipe { fd: 3 },
        untracked_reap_turn(2, ChildExitStatus::Exited { code: 2 }),
    ];
    assert_eq!(
        untracked_child_reaps(&turns),
        vec![
            ChildReap {
                pid: 1,
                status: ChildExitStatus::Exited { code: 0 }
            },
            ChildReap {
                pid: 2,
                status: ChildExitStatus::Exited { code: 2 }
            },
        ]
    );
}

#[test]
fn idle_closures_bracket_the_turn_and_calendar_turns_come_last() {
    let mut turn = empty_turn();
    turn.turns.push(RuntimeShutdownEventTurn::ServiceLogPipe { fd: 9 });
    prepend_idle_closure_turn(&mut turn, vec![1]);
    prepend_idle_jobs_closure_turn(&mut turn, vec![2]);
    prepend_idle_closure_turn(&mut turn, Vec::new());
    append_idle_closure_turn(&mut turn, vec![3]);
    append_idle_jobs_closure_turn(&mut turn, vec![4]);
    append_idle_jobs_closure_turn(&mut turn, Vec::new());
    push_deferred_child_reaps_turn(&mut turn, Vec::new(), 7);
    attach_calendar_turns(
        &mut turn,
        vec![RuntimeEventSource::CalendarTimer { fd: 30 }],
        vec![(30, queued(1))],
    );

    assert_eq!(
        turn.turns,
        vec![
            RuntimeShutdownEventTurn::IdleJobsConnectionsClosed { fds: vec![2] },
            RuntimeShutdownEventTurn::IdleControlConnectionsClosed { fds: vec![1] },
            RuntimeShutdownEventTurn::ServiceLogPipe { fd: 9 },
            RuntimeShutdownEventTurn::IdleControlConnectionsClosed { fds: vec![3] },
            RuntimeShutdownEventTurn::IdleJobsConnectionsClosed { fds: vec![4] },
            RuntimeShutdownEventTurn::CalendarTimer {
                fd: 30,
                turn: queued(1)
            },
        ]
    );
    assert_eq!(turn.sources, vec![RuntimeEventSource::CalendarTimer { fd: 30 }]);
}

#[test]
fn calendar_sources_are_split_from_the_rest_in_order() {
    let (calendar, other) = partition_calendar_sources(vec![
        RuntimeEventSource::CalendarTimer { fd: 1 },
        RuntimeEventSource::Pid1Signal,
        RuntimeEventSource::CalendarTimer { fd: 2 },
        RuntimeEventSource::NotifySocket,
    ]);
    assert_eq!(
        calendar,
        vec![
            RuntimeEventSource::CalendarTimer { fd: 1 },
            RuntimeEventSource::CalendarTimer { fd: 2 }
        ]
    );
    assert_eq!(
        other,
        vec![RuntimeEventSource::Pid1Signal, RuntimeEventSource::NotifySocket]
    );
}

#[test]
fn only_a_successful_reload_rebuilds_the_calendar_timers() {
    assert!(!reload_config_succeeded(&vec![RuntimeShutdownEventTurn::RegistryWatch {
        fd: 5,
        reload: None
    }]));
    assert!(!reload_config_succeeded(&vec![RuntimeShutdownEventTurn::RegistryWatch {
        fd: 5,
        reload: Some(Err("registry unavailable".to_string()))
    }]));
    assert!(!reload_config_succeeded(&Vec::new()));
}

#[test]
fn a_timer_read_calls_for_firing_or_rearming() {
    let minute = 60 * NANOS_PER_SEC;
    let mut entry = timer(30, "app", "*-*-* *:*:00 UTC");
    entry.next_scheduled_ns = 10 * minute;
    entry.jitter_secs = 600;

    assert_eq!(calendar_timer_step(LinuxTimerFdRead::WouldBlock, &entry, 0), CalendarTimerStep::Nothing);
    // A firing delayed to the end of its jitter window still rearms from the
    // occurrence that fired.
    assert_eq!(
        calendar_timer_step(LinuxTimerFdRead::Expired { expirations: 1 }, &entry, 20 * minute),
        CalendarTimerStep::Fire { rearm_after_ns: 10 * minute }
    );
    // A clock step past the occurrence fires it.
    assert_eq!(
        calendar_timer_step(LinuxTimerFdRead::Canceled, &entry, 25 * minute),
        CalendarTimerStep::Fire { rearm_after_ns: 15 * minute }
    );
    // A clock step short of it only rearms.
    assert_eq!(
        calendar_timer_step(LinuxTimerFdRead::Canceled, &entry, 5 * minute),
        CalendarTimerStep::Rearm { after_ns: 5 * minute }
    );

    let mut runtime = runtime();
    assert_eq!(
        runtime.calendar_timer_step(30, LinuxTimerFdRead::Canceled, 0),
        Err(LinuxCalendarTimerError::UnknownTimer { fd: 30 })
    );
    runtime.insert_calendar_timer(entry);
    assert_eq!(
        runtime.calendar_timer_step(30, LinuxTimerFdRead::Expired { expirations: 2 }, 11 * minute),
        Ok(CalendarTimerStep::Fire { rearm_after_ns: 10 * minute })
    );
    assert_eq!(runtime.rearm_calendar_timer(30, 11 * minute, 7), Ok(11 * minute + 7));
    assert_eq!(
        runtime.rearm_calendar_timer(31, 11 * minute, 7),
        Err(LinuxCalendarTimerError::UnknownTimer { fd: 31 })
    );
    let rearmed = runtime.remove_calendar_timer(30).expect("armed timer");
    assert_eq!(rearmed.next_scheduled_ns, 11 * minute);
    assert_eq!(rearmed.armed_deadline_ns, 11 * minute + 7);
    assert_eq!(rearmed.service, "app");
}

#[test]
fn logs_are_forwarded_only_to_an_active_eventd() {
    let mut eventd = ServiceEntry::defined("eventd".to_string());
    assert!(!eventd_active(&ServiceTable::from_definitions(vec![eventd.clone()])));
    eventd.state = ServiceState::Active;
    assert!(eventd_active(&ServiceTable::from_definitions(vec![
        ServiceEntry::defined("app".to_string()),
        eventd
    ])));
    assert!(!eventd_active(&ServiceTable::from_definitions(Vec::new())));
}

#[derive(Default)]
struct CountingSink {
    emitted: Vec<String>,
}

impl peinit_runtime::kmes::emit::KmesEventSink for CountingSink {
    fn emit_kmes_event(
        &mut self,
        event: &peinit_runtime::kmes::event::KmesEvent,
    ) -> Result<(), peinit_runtime::boundary::BoundaryError> {
        self.emitted.push(event.event_type.clone());
        Ok(())
    }
}

#[test]
fn boot_calendar_turns_are_audited_and_nothing_is_done_for_none() {
    let mut runtime = runtime();
    let mut sink = CountingSink::default();

    assert_eq!(runtime.emit_boot_calendar_timer_turns(&mut sink, &Vec::new()), Ok(Vec::new()));
    assert!(sink.emitted.is_empty());

    let turn = RuntimeCalendarTimerTurn {
        supervisor: Some(Box::new(SupervisorTimerDispatch {
            service: "app".to_string(),
            schedule: "daily".to_string(),
            action: SupervisorTimerAction::Start {
                outcome: OnDemandStartDispatch {
                    requested: "app".to_string(),
                    events: vec![OperationEvent {
                        operation_id: 1,
                        operation_type: OperationType::Start,
                        service: "app".to_string(),
                        kind: OperationEventKind::Requested,
                    }],
                },
                start_dispatches: Vec::new(),
            },
        })),
        last_run_write: None,
        next_scheduled_ns: None,
    };
    let messages = runtime
        .emit_boot_calendar_timer_turns(&mut sink, &vec![(30, turn)])
        .expect("audited");
    assert_eq!(sink.emitted, vec!["operation.requested".to_string()]);
    assert_eq!(runtime.dropped_kmes_events(), 0);
    let _ = messages;
}

/// The first minute boundary strictly after `after_ns`: where the every-minute
/// schedule's next occurrence lies.
fn next_minute_after(after_ns: u64) -> u64 {
    let minute = 60 * NANOS_PER_SEC;
    (after_ns / minute + 1) * minute
}

/// A per-minute schedule with a ten-minute jitter: every firing is delayed
/// by up to the whole window, and each one must still be followed by the
/// next occurrence, not the first occurrence after the delayed firing.
#[test]
fn a_jittered_firing_rearms_for_the_occurrence_after_the_one_that_fired() {
    let jitter_secs = 600;
    let minute = 60 * NANOS_PER_SEC;
    let first_ns = 1_714_737_600 * NANOS_PER_SEC;
    let mut runtime = runtime();
    let fd = 30;
    let mut entry = timer(fd, "app", "*-*-* *:*:00 UTC");
    entry.jitter_secs = jitter_secs;
    entry.next_scheduled_ns = first_ns;
    entry.armed_deadline_ns = first_ns;
    runtime.insert_calendar_timer(entry);
    runtime
        .rearm_calendar_timer(fd, first_ns, 10_000)
        .expect("jitter");

    let mut scheduled_ns = first_ns;
    for occurrence in 0..5u64 {
        let armed = runtime.remove_calendar_timer(fd).expect("armed timer");
        let armed_ns = armed.armed_deadline_ns;
        runtime.insert_calendar_timer(armed);
        assert!(
            (scheduled_ns..=scheduled_ns + jitter_secs * NANOS_PER_SEC).contains(&armed_ns),
            "occurrence {occurrence} is armed outside its jitter window",
        );
        // The firing lands at the far end of the window: later than the next
        // few occurrences, which jitter delays but must not drop.
        let fired_at_ns = scheduled_ns + jitter_secs * NANOS_PER_SEC;

        let step = runtime
            .calendar_timer_step(fd, LinuxTimerFdRead::Expired { expirations: 1 }, fired_at_ns)
            .expect("fire and rearm");
        let CalendarTimerStep::Fire { rearm_after_ns } = step else {
            panic!("expected a timer read turn");
        };
        let next_scheduled_ns = next_minute_after(rearm_after_ns);
        runtime
            .rearm_calendar_timer(fd, next_scheduled_ns, 10_000 + occurrence)
            .expect("fire and rearm");
        assert_eq!(
            next_scheduled_ns,
            scheduled_ns + minute,
            "occurrence {} was skipped after a jittered firing",
            occurrence + 1,
        );
        let current = runtime.remove_calendar_timer(fd).expect("armed timer");
        assert_eq!(current.next_scheduled_ns, next_scheduled_ns);
        runtime.insert_calendar_timer(current);
        scheduled_ns = next_scheduled_ns;
    }
}

#[test]
fn registers_phase1_jfs_fd_as_runtime_source() {
    let mut registrar = Registrar::default();

    let registered =
        register_phase1_jfs_device(40, "/dev/jfs".to_string(), &mut registrar).expect("register jfs");

    assert_eq!(registered.fd(), 40);
    assert_eq!(registered.path(), &"/dev/jfs".to_string());
    assert_eq!(registrar.registered, vec![(40, RuntimeEventSource::JfsDevice { fd: 40 })]);
}

#[test]
fn registration_failure_returns_error_and_drops_fd() {
    let mut registrar = Registrar {
        refuse: true,
        ..Registrar::default()
    };

    let error = register_phase1_jfs_device(40, "/dev/jfs".to_string(), &mut registrar)
        .expect_err("registration failure");

    assert!(matches!(
        error,
        RuntimeEventRegistrationError::Register { fd, .. } if fd == 40
    ));
}

#[test]
fn phase1_infrastructure_registers_the_jfs_device_when_there_is_one() {
    let mut runtime = runtime();
    let mut registrar = Registrar::default();
    assert_eq!(
        runtime.register_phase1_infrastructure(&mut registrar, None).jfs,
        Phase1JfsRegistration::Unavailable
    );
    assert_eq!(
        runtime
            .register_phase1_infrastructure(&mut registrar, Some((41, "/dev/jfs".to_string())))
            .jfs,
        Phase1JfsRegistration::Registered {
            fd: 41,
            path: "/dev/jfs".to_string()
        }
    );
    let mut refusing = Registrar {
        refuse: true,
        ..Registrar::default()
    };
    assert!(matches!(
        runtime
            .register_phase1_infrastructure(&mut refusing, Some((42, "/dev/jfs".to_string())))
            .jfs,
        Phase1JfsRegistration::RegisterFailed { fd: 42, .. }
    ));
}

struct FixedClock {
    monotonic_ns: u64,
    realtime_ns: u64,
    reads: usize,
    broken: bool,
}

impl Clock for FixedClock {
    fn monotonic_ns(&mut self) -> Result<u64, BoundaryError> {
        self.reads += 1;
        if self.broken {
            return Err(BoundaryError::Clock("EINVAL".to_string()));
        }
        Ok(self.monotonic_ns)
    }
}

impl RealtimeClock for FixedClock {
    fn realtime_ns(&mut self) -> Result<u64, BoundaryError> {
        self.reads += 1;
        Ok(self.realtime_ns)
    }
}

#[test]
fn the_clocks_are_read_for_a_wait_flush_only_when_something_waits() {
    let mut runtime = runtime();
    let mut registrar = Registrar::default();
    let mut clock = FixedClock {
        monotonic_ns: 5,
        realtime_ns: 7,
        reads: 0,
        broken: false,
    };

    assert_eq!(runtime.control_wait_flush_times(&mut clock), Ok((0, 0)));
    assert_eq!(runtime.jobs_wait_flush_times(&mut clock), Ok(None));
    assert_eq!(clock.reads, 0);

    runtime.admit_control_connection(&mut registrar, 10, 0).expect("admitted");
    runtime.record_control_activity(10, 1, true);
    runtime.admit_jobs_connection(&mut registrar, 20, 0).expect("admitted");
    runtime.record_jobs_activity(20, 1, true);
    assert_eq!(runtime.control_wait_flush_times(&mut clock), Ok((5, 7)));
    assert_eq!(runtime.jobs_wait_flush_times(&mut clock), Ok(Some((5, 7))));
    assert_eq!(clock.reads, 4);

    clock.broken = true;
    assert_eq!(
        runtime.control_wait_flush_times(&mut clock),
        Err(RuntimeShutdownLoopError::Clock(BoundaryError::Clock("EINVAL".to_string())))
    );
}

#[test]
fn a_wait_flush_stamp_is_both_readings_or_the_first_failure() {
    assert_eq!(wait_flush_stamp(Ok(5), Ok(7)), Ok((5, 7)));
    assert_eq!(
        wait_flush_stamp(Err(BoundaryError::Clock("a".to_string())), Err(BoundaryError::Clock("b".to_string()))),
        Err(RuntimeShutdownLoopError::Clock(BoundaryError::Clock("a".to_string())))
    );
    assert_eq!(
        wait_flush_stamp(Ok(5), Err(BoundaryError::Clock("b".to_string()))),
        Err(RuntimeShutdownLoopError::Clock(BoundaryError::Clock("b".to_string())))
    );
}

#[test]
fn a_jfs_registration_outcome_keeps_the_registrar_error() {
    let device = jfs_device_from_registration(9, "/dev/jfs".to_string(), Ok(())).expect("registered");
    assert_eq!(device.fd(), 9);
    let refused = RuntimeEventRegistrationError::Unregister {
        fd: 9,
        message: "EBADF".to_string(),
    };
    assert_eq!(
        jfs_device_from_registration(9, "/dev/jfs".to_string(), Err(refused.clone())),
        Err(refused)
    );
}

#[test]
fn the_runtime_keeps_the_notify_socket_bound_at_the_configured_path() {
    let mut config = LinuxRuntimeConfig::default();
    config.notify_socket_path = "/run/alt/notify.sock".to_string();

    let runtime = LinuxShutdownRuntime::with_listeners(
        config,
        socket(3, CONTROL_SOCKET_PATH),
        4,
        socket(5, JOBS_SOCKET_PATH),
    );

    assert_eq!(runtime.notify_socket_path(), "/run/alt/notify.sock");
}

fn skipped_firing(service: &str) -> SupervisorTimerDispatch {
    SupervisorTimerDispatch {
        service: service.to_string(),
        schedule: "daily UTC".to_string(),
        action: SupervisorTimerAction::Skipped,
    }
}

#[test]
fn a_missed_firing_at_boot_becomes_a_catch_up_turn() {
    let turn = boot_catch_up_turn(
        RuntimeEventSource::CalendarTimer { fd: 30 },
        7_000,
        skipped_firing("backup"),
        Ok(TimerLastRunWriteOutcome::Queued { pid: 4242 }),
    );

    assert_eq!(
        turn,
        Some((
            30,
            RuntimeCalendarTimerTurn {
                supervisor: Some(Box::new(skipped_firing("backup"))),
                last_run_write: Some(Ok(TimerLastRunWriteOutcome::Queued { pid: 4242 })),
                next_scheduled_ns: Some(7_000),
            },
        ))
    );
}

#[test]
fn only_a_calendar_timer_source_gets_a_catch_up_turn() {
    let turn = boot_catch_up_turn(
        RuntimeEventSource::NotifySocket,
        7_000,
        skipped_firing("backup"),
        Err("fork failed".to_string()),
    );

    assert_eq!(turn, None);
}

#[test]
fn a_write_queued_turns_earlier_is_reported_once_when_its_child_fails() {
    let mut runtime = runtime();
    runtime.insert_calendar_timer(timer(30, "backup", "daily UTC"));
    runtime.insert_calendar_timer(timer(31, "rotate", "hourly"));
    let idle = RuntimeWorkPumpTurn::default();

    let first = runtime.turn_console_messages(&idle, &Vec::new(), &idle, &vec![(30, queued(4242))], &None);
    assert_eq!(first, Vec::<ConsoleMessage>::new());
    for pid in 5000..5003 {
        let later = runtime.turn_console_messages(&idle, &Vec::new(), &idle, &vec![(31, queued(pid))], &None);
        assert_eq!(later, Vec::<ConsoleMessage>::new());
    }

    let failed = vec![untracked_reap_turn(4242, ChildExitStatus::Exited { code: 1 })];
    let reported = runtime.turn_console_messages(&idle, &failed, &idle, &Vec::new(), &None);
    assert_eq!(
        reported,
        vec![ConsoleMessage::error(
            "peinit warning: recording the last run of timer daily UTC for service backup failed; it will run catch-up again after a reboot\n"
        )]
    );

    let again = runtime.turn_console_messages(&idle, &failed, &idle, &Vec::new(), &None);
    assert_eq!(again, Vec::<ConsoleMessage>::new());
}

#[derive(Debug, Clone, PartialEq, Eq)]
enum Call {
    Register(i32),
    Unregister(i32),
}

#[derive(Default)]
struct ReloadRegistrar {
    calls: Vec<Call>,
    refuse_register: Option<i32>,
    refuse_unregister: Option<i32>,
}

impl RuntimeEventRegistrar for ReloadRegistrar {
    fn register_source(
        &mut self,
        fd: i32,
        source: RuntimeEventSource,
    ) -> Result<(), RuntimeEventRegistrationError> {
        assert_eq!(source, RuntimeEventSource::CalendarTimer { fd });
        self.calls.push(Call::Register(fd));
        if self.refuse_register == Some(fd) {
            return Err(RuntimeEventRegistrationError::Register {
                fd,
                source,
                message: "ENOSPC".to_string(),
            });
        }
        Ok(())
    }

    fn unregister_source(&mut self, fd: i32) -> Result<(), RuntimeEventRegistrationError> {
        self.calls.push(Call::Unregister(fd));
        if self.refuse_unregister == Some(fd) {
            return Err(RuntimeEventRegistrationError::Unregister {
                fd,
                message: "EBADF".to_string(),
            });
        }
        Ok(())
    }
}

fn armed_table() -> LinuxCalendarTimerTable {
    let mut table = LinuxCalendarTimerTable::new();
    table.insert(timer(30, "backup", "daily UTC"));
    table.insert(timer(31, "scrub", "weekly UTC"));
    table
}

fn reload_timers() -> Vec<LinuxCalendarTimerEntry> {
    vec![timer(40, "backup", "hourly UTC"), timer(41, "rotate", "daily UTC")]
}

#[test]
fn a_reload_replaces_every_armed_timer() {
    let mut table = armed_table();
    let mut registrar = ReloadRegistrar::default();

    let sources = table.reconfigure_timers(reload_timers(), &mut registrar).expect("reload");

    assert_eq!(
        sources,
        vec![
            RuntimeEventSource::CalendarTimer { fd: 40 },
            RuntimeEventSource::CalendarTimer { fd: 41 },
        ]
    );
    assert_eq!(
        registrar.calls,
        vec![Call::Register(40), Call::Register(41), Call::Unregister(30), Call::Unregister(31)]
    );
    assert_eq!(table.len(), 2);
    assert_eq!(table.identity_for(30), None);
    assert_eq!(
        table.identity_for(40),
        Some(("backup".to_string(), "hourly UTC".to_string()))
    );
}

#[test]
fn a_refused_replacement_keeps_the_armed_timers() {
    let mut table = armed_table();
    let mut registrar = ReloadRegistrar {
        refuse_register: Some(41),
        ..ReloadRegistrar::default()
    };

    let error = table.reconfigure_timers(reload_timers(), &mut registrar).expect_err("refused");

    assert_eq!(
        error,
        LinuxCalendarTimerReloadError::Register(RuntimeEventRegistrationError::Register {
            fd: 41,
            source: RuntimeEventSource::CalendarTimer { fd: 41 },
            message: "ENOSPC".to_string(),
        })
    );
    assert_eq!(
        registrar.calls,
        vec![Call::Register(40), Call::Register(41), Call::Unregister(40)]
    );
    assert_eq!(table.len(), 2);
    assert_eq!(
        table.identity_for(30),
        Some(("backup".to_string(), "daily UTC".to_string()))
    );
}

#[test]
fn an_armed_timer_that_cannot_be_dropped_rolls_the_reload_back() {
    let mut table = armed_table();
    let mut registrar = ReloadRegistrar {
        refuse_unregister: Some(30),
        ..ReloadRegistrar::default()
    };

    let error = table.reconfigure_timers(reload_timers(), &mut registrar).expect_err("refused");

    assert_eq!(
        error,
        LinuxCalendarTimerReloadError::Register(RuntimeEventRegistrationError::Unregister {
            fd: 30,
            message: "EBADF".to_string(),
        })
    );
    assert_eq!(
        registrar.calls,
        vec![
            Call::Register(40),
            Call::Register(41),
            Call::Unregister(30),
            Call::Unregister(40),
            Call::Unregister(41),
        ]
    );
    assert_eq!(
        table.identity_for(31),
        Some(("scrub".to_string(), "weekly UTC".to_string()))
    );
    assert_eq!(table.identity_for(40), None);
}

#[test]
fn a_replacement_without_a_descriptor_is_not_registered() {
    let mut table = armed_table();
    let mut registrar = ReloadRegistrar::default();

    let error = table
        .reconfigure_timers(vec![timer(40, "backup", "hourly UTC"), timer(-1, "rotate", "daily UTC")], &mut registrar)
        .expect_err("no descriptor");

    assert_eq!(
        error,
        LinuxCalendarTimerReloadError::Source(RuntimeEventSourceDecodeError::NegativeDescriptor { fd: -1 })
    );
    assert_eq!(registrar.calls, vec![Call::Register(40), Call::Unregister(40)]);
    assert_eq!(table.len(), 2);
}
