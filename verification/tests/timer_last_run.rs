use peinit_runtime::linux::timer_last_run::{
    FailedTimerLastRunWrite, TimerLastRunWrites, MAX_OUTSTANDING,
};
use peinit_runtime::model::job::ChildExitStatus;

#[test]
fn a_clean_exit_is_claimed_and_says_nothing() {
    let mut writes = TimerLastRunWrites::default();
    writes.record(4242, "backup".to_string(), "daily UTC".to_string());

    assert_eq!(writes.claim(4242, ChildExitStatus::Exited { code: 0 }), None);
    // Claimed, so a pid is never matched twice.
    assert_eq!(writes.claim(4242, ChildExitStatus::Exited { code: 0 }), None);
}

#[test]
fn a_failed_write_names_the_timer_it_belonged_to() {
    let mut writes = TimerLastRunWrites::default();
    writes.record(4242, "backup".to_string(), "daily UTC".to_string());

    assert_eq!(
        writes.claim(4242, ChildExitStatus::Exited { code: 1 }),
        Some(FailedTimerLastRunWrite {
            service: "backup".to_string(),
            schedule: "daily UTC".to_string(),
        }),
    );
}

/// A child killed by a signal did not complete the write either.
#[test]
fn a_signalled_child_counts_as_a_failed_write() {
    let mut writes = TimerLastRunWrites::default();
    writes.record(4242, "backup".to_string(), "daily UTC".to_string());

    assert!(writes
        .claim(
            4242,
            ChildExitStatus::Signaled {
                signal: 9,
                core_dumped: false,
            },
        )
        .is_some());
}

/// Every other untracked child passes straight through.
#[test]
fn an_unknown_pid_is_not_claimed() {
    let mut writes = TimerLastRunWrites::default();
    writes.record(4242, "backup".to_string(), "daily UTC".to_string());

    assert_eq!(writes.claim(9999, ChildExitStatus::Exited { code: 1 }), None);
}

/// A child that somehow never gets reaped must not grow the ring.
#[test]
fn outstanding_writes_are_bounded() {
    let mut writes = TimerLastRunWrites::default();
    for pid in 0..(MAX_OUTSTANDING as u32 * 2) {
        writes.record(pid, "backup".to_string(), "daily UTC".to_string());
    }

    assert_eq!(writes.len(), MAX_OUTSTANDING);
    // The oldest are the ones dropped.
    assert_eq!(writes.claim(0, ChildExitStatus::Exited { code: 1 }), None);
    assert!(writes
        .claim(MAX_OUTSTANDING as u32 * 2 - 1, ChildExitStatus::Exited { code: 1 })
        .is_some());
}

#[test]
fn a_failed_claim_is_gone_afterwards() {
    let mut writes = TimerLastRunWrites::new();
    writes.record(10, "a".to_string(), "hourly".to_string());
    writes.record(11, "b".to_string(), "daily".to_string());
    assert_eq!(writes.len(), 2);

    assert_eq!(
        writes.claim(11, ChildExitStatus::Exited { code: 3 }),
        Some(FailedTimerLastRunWrite {
            service: "b".to_string(),
            schedule: "daily".to_string(),
        }),
    );
    assert_eq!(writes.len(), 1);
    assert_eq!(writes.claim(11, ChildExitStatus::Exited { code: 3 }), None);
    assert_eq!(writes.len(), 1);
}

#[test]
fn the_first_write_for_a_pid_is_the_one_claimed() {
    let mut writes = TimerLastRunWrites::new();
    writes.record(7, "first".to_string(), "s1".to_string());
    writes.record(7, "second".to_string(), "s2".to_string());

    assert_eq!(
        writes.claim(7, ChildExitStatus::Exited { code: 1 }),
        Some(FailedTimerLastRunWrite {
            service: "first".to_string(),
            schedule: "s1".to_string(),
        }),
    );
    assert_eq!(
        writes.claim(7, ChildExitStatus::Exited { code: 1 }),
        Some(FailedTimerLastRunWrite {
            service: "second".to_string(),
            schedule: "s2".to_string(),
        }),
    );
}
