use peinit_runtime::boundary::LinuxEpollEvent;
use peinit_runtime::event_loop::model::{decode_runtime_epoll_events, RuntimeEventWaitError};
use peinit_runtime::event_loop::source::{
    prioritize_runtime_sources, runtime_source_priority, RuntimeEventSource,
    RuntimeEventSourceDecodeError,
};
use peinit_runtime::event_loop::timing::{
    calendar_timer_maintenance_steps, deadline_wait_timeout_ms, earliest_deadline,
    jittered_deadline_ns, rearm_anchor_ns, CalendarTimerMaintenanceStep, NANOS_PER_SEC,
};

const MINUTE_NS: u64 = 60 * NANOS_PER_SEC;

/// 2024-05-03 12:00:00 UTC.
const MAY_3_NOON_NS: u64 = 1_714_737_600 * NANOS_PER_SEC;

#[test]
fn source_priority_keeps_signals_ahead_of_log_pipe_load() {
    let sources = vec![
        RuntimeEventSource::ServiceLogPipe { fd: 10 },
        RuntimeEventSource::ControlConnection { fd: 11 },
        RuntimeEventSource::ShutdownDeadlineTimer,
        RuntimeEventSource::ServiceLogPipe { fd: 12 },
        RuntimeEventSource::Pid1Signal,
        RuntimeEventSource::PowerButton { fd: 13 },
        RuntimeEventSource::NotifySocket,
    ];

    assert_eq!(
        prioritize_runtime_sources(sources),
        vec![
            RuntimeEventSource::Pid1Signal,
            RuntimeEventSource::PowerButton { fd: 13 },
            RuntimeEventSource::ShutdownDeadlineTimer,
            RuntimeEventSource::ServiceLogPipe { fd: 10 },
            RuntimeEventSource::ControlConnection { fd: 11 },
            RuntimeEventSource::ServiceLogPipe { fd: 12 },
            RuntimeEventSource::NotifySocket,
        ],
    );
}

#[test]
fn epoll_events_decode_to_runtime_sources() {
    let events = vec![
        LinuxEpollEvent::read(RuntimeEventSource::Pid1Signal.token()),
        LinuxEpollEvent::read(RuntimeEventSource::ControlConnection { fd: 42 }.token()),
        LinuxEpollEvent::read(RuntimeEventSource::ShutdownDeadlineTimer.token()),
        LinuxEpollEvent::read(RuntimeEventSource::NotifySocket.token()),
        LinuxEpollEvent::read(RuntimeEventSource::LifecycleDeadlineTimer.token()),
        LinuxEpollEvent::read(RuntimeEventSource::JfsDevice { fd: 44 }.token()),
        LinuxEpollEvent::read(RuntimeEventSource::FilesystemCheckHelper { result_fd: 45 }.token()),
        LinuxEpollEvent::read(RuntimeEventSource::FilesystemCheckHelperExit { pidfd: 46 }.token()),
    ];

    assert_eq!(
        decode_runtime_epoll_events(events).expect("decode"),
        vec![
            RuntimeEventSource::Pid1Signal,
            RuntimeEventSource::ControlConnection { fd: 42 },
            RuntimeEventSource::ShutdownDeadlineTimer,
            RuntimeEventSource::NotifySocket,
            RuntimeEventSource::LifecycleDeadlineTimer,
            RuntimeEventSource::JfsDevice { fd: 44 },
            RuntimeEventSource::FilesystemCheckHelper { result_fd: 45 },
            RuntimeEventSource::FilesystemCheckHelperExit { pidfd: 46 },
        ],
    );
}

#[test]
fn epoll_decode_error_keeps_original_event() {
    let event = LinuxEpollEvent::read(0xFFFF);
    let err = decode_runtime_epoll_events(vec![event]).expect_err("decode error");

    assert!(matches!(
        err,
        RuntimeEventWaitError::Decode {
            event: returned,
            ..
        } if returned == event
    ));
}

#[test]
fn every_source_token_decodes_back_to_its_source() {
    let sources = [
        RuntimeEventSource::Pid1Signal,
        RuntimeEventSource::ControlListener,
        RuntimeEventSource::ControlConnection { fd: 7 },
        RuntimeEventSource::NotifySocket,
        RuntimeEventSource::ShutdownDeadlineTimer,
        RuntimeEventSource::LifecycleDeadlineTimer,
        RuntimeEventSource::ServiceLogPipe { fd: 8 },
        RuntimeEventSource::JfsDevice { fd: 9 },
        RuntimeEventSource::FilesystemCheckHelper { result_fd: 10 },
        RuntimeEventSource::FilesystemCheckHelperExit { pidfd: 11 },
        RuntimeEventSource::ProcessSetup { fd: 12 },
        RuntimeEventSource::PowerButton { fd: 13 },
        RuntimeEventSource::CalendarTimer { fd: 14 },
        RuntimeEventSource::RegistryWatch { fd: 15 },
        RuntimeEventSource::JobsListener,
        RuntimeEventSource::JobsConnection { fd: i32::MAX },
    ];
    for source in sources {
        assert_eq!(RuntimeEventSource::from_token(source.token()), Ok(source));
    }
}

#[test]
fn a_negative_descriptor_names_no_source() {
    assert_eq!(
        RuntimeEventSource::calendar_timer(-1),
        Err(RuntimeEventSourceDecodeError::NegativeDescriptor { fd: -1 }),
    );
    assert_eq!(
        RuntimeEventSource::jobs_connection(5),
        Ok(RuntimeEventSource::JobsConnection { fd: 5 }),
    );
}

#[test]
fn signals_outrank_timers_and_timers_outrank_the_rest() {
    assert!(runtime_source_priority(RuntimeEventSource::Pid1Signal) < runtime_source_priority(RuntimeEventSource::ShutdownDeadlineTimer));
    assert!(
        runtime_source_priority(RuntimeEventSource::ShutdownDeadlineTimer)
            < runtime_source_priority(RuntimeEventSource::ServiceLogPipe { fd: 3 })
    );
}

#[test]
fn an_occurrence_outside_the_jitter_window_is_not_replayed() {
    let scheduled_ns = MAY_3_NOON_NS;

    // No jitter: the search starts from now.
    assert_eq!(
        rearm_anchor_ns(scheduled_ns, 0, scheduled_ns + 7 * MINUTE_NS),
        scheduled_ns + 7 * MINUTE_NS,
    );
    // Jitter covers the delay: the search starts from the occurrence.
    assert_eq!(
        rearm_anchor_ns(scheduled_ns, 600, scheduled_ns + 7 * MINUTE_NS),
        scheduled_ns,
    );
    // Jitter does not cover the delay: only occurrences still inside a
    // jitter window are eligible.
    assert_eq!(
        rearm_anchor_ns(scheduled_ns, 120, scheduled_ns + 7 * MINUTE_NS),
        scheduled_ns + 5 * MINUTE_NS,
    );
    // A firing handled before its occurrence is never anchored earlier.
    assert_eq!(
        rearm_anchor_ns(scheduled_ns, 120, scheduled_ns - 1),
        scheduled_ns,
    );
}

#[test]
fn a_huge_jitter_anchors_on_the_occurrence() {
    assert_eq!(rearm_anchor_ns(5, u64::MAX, 1_000), 5);
}

#[test]
fn a_wait_is_rounded_up_to_reach_its_deadline() {
    assert_eq!(deadline_wait_timeout_ms(None, 10), -1);
    assert_eq!(deadline_wait_timeout_ms(Some(10), 10), 0);
    assert_eq!(deadline_wait_timeout_ms(Some(5), 10), 0);
    assert_eq!(deadline_wait_timeout_ms(Some(1_000_001), 0), 2);
    assert_eq!(deadline_wait_timeout_ms(Some(2_000_000), 0), 2);
    assert_eq!(deadline_wait_timeout_ms(Some(1), 0), 1);
    assert_eq!(deadline_wait_timeout_ms(Some(u64::MAX), 0), i32::MAX);
}

#[test]
fn the_earliest_deadline_ignores_the_unset() {
    assert_eq!(earliest_deadline(None, None), None);
    assert_eq!(earliest_deadline(Some(4), None), Some(4));
    assert_eq!(earliest_deadline(None, Some(9)), Some(9));
    assert_eq!(earliest_deadline(Some(9), Some(4)), Some(4));
}

#[test]
fn a_jittered_deadline_lies_in_its_window() {
    let scheduled = MAY_3_NOON_NS;
    assert_eq!(jittered_deadline_ns(scheduled, 0, 12345), Ok(scheduled));
    for random in [0, 1, 599_999_999_999, u64::MAX] {
        let armed = jittered_deadline_ns(scheduled, 600, random).expect("jitter");
        assert!(scheduled <= armed && armed <= scheduled + 600 * NANOS_PER_SEC);
    }
    assert_eq!(
        jittered_deadline_ns(scheduled, 600, 7),
        Ok(scheduled + 7 % (600 * NANOS_PER_SEC + 1)),
    );
}

#[test]
fn calendar_timer_reconfiguration_follows_ready_timer_processing_after_reload() {
    assert_eq!(
        calendar_timer_maintenance_steps(true),
        vec![
            CalendarTimerMaintenanceStep::ProcessReadyTimers,
            CalendarTimerMaintenanceStep::ReconfigureAfterReload,
        ],
    );
}

#[test]
fn calendar_timer_processing_still_runs_without_reload_reconfiguration() {
    assert_eq!(
        calendar_timer_maintenance_steps(false),
        vec![CalendarTimerMaintenanceStep::ProcessReadyTimers],
    );
}

#[test]
fn a_batch_fails_on_its_first_undecodable_event() {
    let first_bad = LinuxEpollEvent::read(0xFFFF);
    let events = vec![
        LinuxEpollEvent::read(RuntimeEventSource::NotifySocket.token()),
        first_bad,
        LinuxEpollEvent::read(0xFFFE),
    ];

    let err = decode_runtime_epoll_events(events).expect_err("decode error");

    assert!(matches!(
        err,
        RuntimeEventWaitError::Decode {
            event: returned,
            ..
        } if returned == first_bad
    ));
}
