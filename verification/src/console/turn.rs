//! What one turn of the runtime loop says on the console.
use vstd::prelude::*;
use crate::seqs::{flat_map, lemma_flat_map_step, lemma_flat_map_all};
use crate::console::message::{ConsoleMessage, ConsoleMessageView, messages_view};
use crate::console::service::{transitions_msgs, starts_msgs, service_started_msgs, launch_failed_msgs, collect_service_transitions_console_messages, collect_start_dispatches_console_messages, push_service_started, push_service_launch_failed};
use crate::console::shutdown::{pid1_signal_msgs, shutdown_drive_msgs, power_button_dispatch_msgs, collect_pid1_signal_turn_console_messages, collect_shutdown_drive_dispatch_console_messages, collect_power_button_dispatch_console_messages};
use crate::console::job::{child_reaps_msgs, lifecycle_deadline_msgs, post_start_hook_terminal_msgs, health_check_terminal_msgs, collect_child_reap_turns_console_messages, collect_lifecycle_deadline_dispatch_console_messages, collect_post_start_hook_terminal_dispatch_console_messages, collect_health_check_terminal_console_messages};
use crate::console::control::{control_frames_msgs, calendar_timer_msgs, filesystem_check_helper_msgs, deferred_reload_msgs, collect_control_connection_table_turn_console_messages, collect_notify_dispatch_console_messages, collect_runtime_calendar_timer_console_messages, collect_filesystem_check_helper_turn_console_messages, collect_deferred_registry_reload_console_messages};
use crate::console::work::{work_pump_msgs, collect_runtime_work_pump_console_messages};
use crate::model::turn::{RuntimeShutdownEventTurn, RuntimeWorkPumpTurn, RuntimeCalendarTimerTurn, RuntimeNotifySupervisorTurn, RuntimeProcessSetupTurn, SupervisorProcessSetupDispatch, RuntimePowerButtonTurn};

verus! {

/// What a launched child's setup status says: a service main that started
/// or failed to launch, or a hook or health check whose launch failed.
pub open spec fn process_setup_msgs(t: RuntimeProcessSetupTurn) -> Seq<ConsoleMessageView> {
    match t {
        RuntimeProcessSetupTurn::Completed { supervisor } => match *supervisor {
            SupervisorProcessSetupDispatch::ServiceMainLaunched(d) => service_started_msgs(d.started.job_event)
                + starts_msgs(d.start_dispatches@),
            SupervisorProcessSetupDispatch::ServiceMainFailed(d) => launch_failed_msgs(d.job_event)
                + transitions_msgs(d.failure.service_transitions@) + starts_msgs(d.start_dispatches@),
            SupervisorProcessSetupDispatch::StartHookFailed(d) => transitions_msgs(d.failure.service_transitions@)
                + starts_msgs(d.start_dispatches@),
            SupervisorProcessSetupDispatch::PostHookFailed(d) => post_start_hook_terminal_msgs(d),
            SupervisorProcessSetupDispatch::HealthCheckFailed(d) => health_check_terminal_msgs(d.terminal),
            _ => Seq::empty(),
        },
        RuntimeProcessSetupTurn::WouldBlock => Seq::empty(),
    }
}

fn collect_process_setup_turn_console_messages(t: &RuntimeProcessSetupTurn, out: &mut Vec<ConsoleMessage>)
    ensures
        messages_view(final(out)@) == messages_view(old(out)@) + process_setup_msgs(*t),
{
    let ghost start = messages_view(out@);
    match t {
        RuntimeProcessSetupTurn::Completed { supervisor } => match &**supervisor {
            SupervisorProcessSetupDispatch::ServiceMainLaunched(d) => {
                push_service_started(out, &d.started.job_event);
                collect_start_dispatches_console_messages(&d.start_dispatches, out);
            },
            SupervisorProcessSetupDispatch::ServiceMainFailed(d) => {
                push_service_launch_failed(out, &d.job_event);
                collect_service_transitions_console_messages(&d.failure.service_transitions, out);
                collect_start_dispatches_console_messages(&d.start_dispatches, out);
            },
            SupervisorProcessSetupDispatch::StartHookFailed(d) => {
                collect_service_transitions_console_messages(&d.failure.service_transitions, out);
                collect_start_dispatches_console_messages(&d.start_dispatches, out);
            },
            SupervisorProcessSetupDispatch::PostHookFailed(d) => collect_post_start_hook_terminal_dispatch_console_messages(d, out),
            SupervisorProcessSetupDispatch::HealthCheckFailed(d) => collect_health_check_terminal_console_messages(&d.terminal, out),
            _ => {},
        },
        RuntimeProcessSetupTurn::WouldBlock => {},
    }
    assert(messages_view(out@) == start + process_setup_msgs(*t));
}

pub open spec fn power_button_msgs(t: RuntimePowerButtonTurn) -> Seq<ConsoleMessageView> {
    match t {
        RuntimePowerButtonTurn::Shutdown { supervisor } => power_button_dispatch_msgs(supervisor),
        RuntimePowerButtonTurn::Ignored => Seq::empty(),
    }
}

/// What one event source's turn says. Log pipes, listeners, stale or idle
/// connections, registry watches and the jfs device say nothing here: a
/// service's output is never echoed to the console.
pub open spec fn event_turn_msgs(t: RuntimeShutdownEventTurn) -> Seq<ConsoleMessageView> {
    match t {
        RuntimeShutdownEventTurn::Pid1Signal { supervisor, child_reaps, drive } => pid1_signal_msgs(supervisor)
            + child_reaps_msgs(child_reaps@) + (match drive {
            Some(d) => shutdown_drive_msgs(*d),
            None => Seq::empty(),
        }),
        RuntimeShutdownEventTurn::ControlConnection { supervisor, .. } => control_frames_msgs(supervisor.frames@),
        RuntimeShutdownEventTurn::ShutdownDeadlineTimer { drive: Some(d) } => shutdown_drive_msgs(*d),
        RuntimeShutdownEventTurn::LifecycleDeadlineTimer { drive: Some(d) } => lifecycle_deadline_msgs(*d),
        RuntimeShutdownEventTurn::Notify { supervisor: Some(RuntimeNotifySupervisorTurn::Applied(d)), .. } => starts_msgs(
            d.start_dispatches@,
        ),
        RuntimeShutdownEventTurn::CalendarTimer { turn, .. } => calendar_timer_msgs(turn),
        RuntimeShutdownEventTurn::FilesystemCheckHelper { turn }
        | RuntimeShutdownEventTurn::FilesystemCheckHelperExit { turn } => filesystem_check_helper_msgs(turn),
        RuntimeShutdownEventTurn::ProcessSetup { turn } => process_setup_msgs(turn),
        RuntimeShutdownEventTurn::PowerButton { turn, .. } => power_button_msgs(turn),
        RuntimeShutdownEventTurn::DeferredRegistryReload { turn } => deferred_reload_msgs(turn),
        RuntimeShutdownEventTurn::DeferredChildReaps { child_reaps, .. } => child_reaps_msgs(child_reaps@),
        _ => Seq::empty(),
    }
}

pub fn collect_runtime_shutdown_turn_console_messages(t: &RuntimeShutdownEventTurn, out: &mut Vec<ConsoleMessage>)
    ensures
        messages_view(final(out)@) == messages_view(old(out)@) + event_turn_msgs(*t),
{
    let ghost start = messages_view(out@);
    match t {
        RuntimeShutdownEventTurn::Pid1Signal { supervisor, child_reaps, drive } => {
            collect_pid1_signal_turn_console_messages(supervisor, out);
            collect_child_reap_turns_console_messages(child_reaps, out);
            match drive {
                Some(d) => collect_shutdown_drive_dispatch_console_messages(d, out),
                None => {},
            }
        },
        RuntimeShutdownEventTurn::ControlConnection { supervisor, .. } => {
            collect_control_connection_table_turn_console_messages(supervisor, out);
        },
        RuntimeShutdownEventTurn::ShutdownDeadlineTimer { drive: Some(d) } => {
            collect_shutdown_drive_dispatch_console_messages(d, out);
        },
        RuntimeShutdownEventTurn::LifecycleDeadlineTimer { drive: Some(d) } => {
            collect_lifecycle_deadline_dispatch_console_messages(d, out);
        },
        RuntimeShutdownEventTurn::Notify { supervisor: Some(RuntimeNotifySupervisorTurn::Applied(d)), .. } => {
            collect_notify_dispatch_console_messages(d, out);
        },
        RuntimeShutdownEventTurn::CalendarTimer { turn, .. } => {
            collect_runtime_calendar_timer_console_messages(turn, out);
        },
        RuntimeShutdownEventTurn::FilesystemCheckHelper { turn }
        | RuntimeShutdownEventTurn::FilesystemCheckHelperExit { turn } => {
            collect_filesystem_check_helper_turn_console_messages(turn, out);
        },
        RuntimeShutdownEventTurn::ProcessSetup { turn } => {
            collect_process_setup_turn_console_messages(turn, out);
        },
        RuntimeShutdownEventTurn::PowerButton { turn, .. } => {
            match turn {
                RuntimePowerButtonTurn::Shutdown { supervisor } => collect_power_button_dispatch_console_messages(supervisor, out),
                RuntimePowerButtonTurn::Ignored => {},
            }
        },
        RuntimeShutdownEventTurn::DeferredRegistryReload { turn } => {
            collect_deferred_registry_reload_console_messages(turn, out);
        },
        RuntimeShutdownEventTurn::DeferredChildReaps { child_reaps, .. } => {
            collect_child_reap_turns_console_messages(child_reaps, out);
        },
        _ => {},
    }
    assert(messages_view(out@) == start + event_turn_msgs(*t));
}

pub open spec fn event_turns_msgs(s: Seq<RuntimeShutdownEventTurn>) -> Seq<ConsoleMessageView> {
    flat_map(s, |d: RuntimeShutdownEventTurn| event_turn_msgs(d))
}

fn collect_event_turns(ds: &Vec<RuntimeShutdownEventTurn>, out: &mut Vec<ConsoleMessage>)
    ensures
        messages_view(final(out)@) == messages_view(old(out)@) + event_turns_msgs(ds@),
{
    let ghost start = messages_view(out@);
    let n = ds.len();
    let mut i: usize = 0;
    while i < n
        invariant
            n == ds@.len(),
            0 <= i <= n,
            messages_view(out@) == start + event_turns_msgs(ds@.take(i as int)),
        decreases n - i,
    {
        let d = &ds[i];
        collect_runtime_shutdown_turn_console_messages(d, out);
        proof {
            lemma_flat_map_step(ds@, |d: RuntimeShutdownEventTurn| event_turn_msgs(d), i as int);
        }
        i += 1;
    }
    proof {
        lemma_flat_map_all(ds@, |d: RuntimeShutdownEventTurn| event_turn_msgs(d));
    }
}


pub open spec fn calendar_turns_msgs(s: Seq<(i32, RuntimeCalendarTimerTurn)>) -> Seq<ConsoleMessageView> {
    flat_map(s, |d: (i32, RuntimeCalendarTimerTurn)| calendar_timer_msgs(d.1))
}

fn collect_calendar_turns(ds: &Vec<(i32, RuntimeCalendarTimerTurn)>, out: &mut Vec<ConsoleMessage>)
    ensures
        messages_view(final(out)@) == messages_view(old(out)@) + calendar_turns_msgs(ds@),
{
    let ghost start = messages_view(out@);
    let n = ds.len();
    let mut i: usize = 0;
    while i < n
        invariant
            n == ds@.len(),
            0 <= i <= n,
            messages_view(out@) == start + calendar_turns_msgs(ds@.take(i as int)),
        decreases n - i,
    {
        let d = &ds[i];
        collect_runtime_calendar_timer_console_messages(&d.1, out);
        proof {
            lemma_flat_map_step(ds@, |d: (i32, RuntimeCalendarTimerTurn)| calendar_timer_msgs(d.1), i as int);
        }
        i += 1;
    }
    proof {
        lemma_flat_map_all(ds@, |d: (i32, RuntimeCalendarTimerTurn)| calendar_timer_msgs(d.1));
    }
}


/// Everything a loop turn says, in the order it happened: the work drained
/// before the wait, each event source's turn, the work drained after, then
/// the calendar timers.
pub open spec fn runtime_loop_msgs(
    pre_work: RuntimeWorkPumpTurn,
    event_turns: Seq<RuntimeShutdownEventTurn>,
    post_work: RuntimeWorkPumpTurn,
    calendar_turns: Seq<(i32, RuntimeCalendarTimerTurn)>,
) -> Seq<ConsoleMessageView> {
    work_pump_msgs(pre_work) + event_turns_msgs(event_turns) + work_pump_msgs(post_work) + calendar_turns_msgs(calendar_turns)
}

pub fn collect_runtime_loop_console_messages(
    pre_work: &RuntimeWorkPumpTurn,
    event_turns: &Vec<RuntimeShutdownEventTurn>,
    post_work: &RuntimeWorkPumpTurn,
    calendar_turns: &Vec<(i32, RuntimeCalendarTimerTurn)>,
    out: &mut Vec<ConsoleMessage>,
)
    ensures
        messages_view(final(out)@) == messages_view(old(out)@) + runtime_loop_msgs(*pre_work, event_turns@, *post_work, calendar_turns@),
{
    let ghost start = messages_view(out@);
    collect_runtime_work_pump_console_messages(pre_work, out);
    collect_event_turns(event_turns, out);
    collect_runtime_work_pump_console_messages(post_work, out);
    collect_calendar_turns(calendar_turns, out);
    assert(messages_view(out@) == start + runtime_loop_msgs(*pre_work, event_turns@, *post_work, calendar_turns@));
}

} // verus!
