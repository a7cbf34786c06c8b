//! What the console says about a shutdown: it began, which services it is
//! stopping or killing, what its deadlines did, and how its final action went.
use vstd::prelude::*;
use vstd::string::*;
use crate::seqs::{flat_map, lemma_flat_map_step, lemma_flat_map_all};
use crate::text::append_string;
use crate::console::message::{ConsoleMessage, ConsoleMessageView, messages_view, msg_status, msg_error, push_message, push_error};
use crate::console::service::{finalization_state_msgs, finalization_dispatch_msgs, collect_shutdown_finalization_state_console_message, collect_shutdown_finalization_dispatch_console_messages};
use crate::model::stop::{SupervisorShutdownStopDispatch, SupervisorShutdownKillDispatch, SupervisorShutdownCgroupKillDispatch, SupervisorShutdownAbandonedDispatch, SupervisorShutdownDispatch, SupervisorShutdownSignalAction, SupervisorShutdownSignalDispatch, SupervisorPid1SignalFdTurn, SupervisorPowerButtonAction, SupervisorPowerButtonDispatch, SupervisorShutdownTimeoutDispatch, SupervisorShutdownDriveDispatch, SupervisorShutdownTerminalDispatch};
use crate::model::shutdown::{ShutdownKind};

verus! {

/// A stop in a shutdown wave: killed outright when no stop timeout can be
/// substantiated, else waited for or asked.
pub open spec fn stop_msgs(d: SupervisorShutdownStopDispatch) -> Seq<ConsoleMessageView> {
    match d.unsubstantiated_deadline {
        Some(reason) => msg_error(
            "peinit: shutdown cannot substantiate a stop timeout for "@ + d.service@ + " ("@ + reason@
                + "); killing it without a graceful period\n"@,
        ),
        None => if d.already_stopping {
            msg_status("peinit: shutdown waiting for "@ + d.service@ + "\n"@)
        } else {
            msg_status("peinit: shutdown stopping "@ + d.service@ + "\n"@)
        },
    }
}

pub open spec fn stops_msgs(s: Seq<SupervisorShutdownStopDispatch>) -> Seq<ConsoleMessageView> {
    flat_map(s, |d: SupervisorShutdownStopDispatch| stop_msgs(d))
}

pub open spec fn killing_msgs(service: Seq<char>) -> Seq<ConsoleMessageView> {
    msg_status("peinit: shutdown killing "@ + service + "\n"@)
}

pub open spec fn kills_msgs(s: Seq<SupervisorShutdownKillDispatch>) -> Seq<ConsoleMessageView> {
    flat_map(s, |d: SupervisorShutdownKillDispatch| killing_msgs(d.service@))
}

pub open spec fn cgroup_kills_msgs(s: Seq<SupervisorShutdownCgroupKillDispatch>) -> Seq<ConsoleMessageView> {
    flat_map(s, |d: SupervisorShutdownCgroupKillDispatch| killing_msgs(d.service@))
}

pub open spec fn abandoned_msgs(s: Seq<SupervisorShutdownAbandonedDispatch>) -> Seq<ConsoleMessageView> {
    flat_map(s, |d: SupervisorShutdownAbandonedDispatch| msg_status("peinit: shutdown abandoned "@ + d.service@ + "\n"@))
}

fn collect_shutdown_stop_console_message(d: &SupervisorShutdownStopDispatch, out: &mut Vec<ConsoleMessage>)
    ensures
        messages_view(final(out)@) == messages_view(old(out)@) + stop_msgs(*d),
{
    match &d.unsubstantiated_deadline {
        Some(reason) => {
            let mut s = String::from_str("peinit: shutdown cannot substantiate a stop timeout for ");
            append_string(&mut s, &d.service);
            s.append(" (");
            append_string(&mut s, reason);
            s.append("); killing it without a graceful period\n");
            push_error(out, s);
        },
        None => {
            if d.already_stopping {
                let mut s = String::from_str("peinit: shutdown waiting for ");
                append_string(&mut s, &d.service);
                s.append("\n");
                push_message(out, s);
            } else {
                let mut s = String::from_str("peinit: shutdown stopping ");
                append_string(&mut s, &d.service);
                s.append("\n");
                push_message(out, s);
            }
        },
    }
}

fn collect_shutdown_stops_console_messages(ds: &Vec<SupervisorShutdownStopDispatch>, out: &mut Vec<ConsoleMessage>)
    ensures
        messages_view(final(out)@) == messages_view(old(out)@) + stops_msgs(ds@),
{
    let ghost start = messages_view(out@);
    let n = ds.len();
    let mut i: usize = 0;
    while i < n
        invariant
            n == ds@.len(),
            0 <= i <= n,
            messages_view(out@) == start + stops_msgs(ds@.take(i as int)),
        decreases n - i,
    {
        collect_shutdown_stop_console_message(&ds[i], out);
        proof {
            lemma_flat_map_step(ds@, |d: SupervisorShutdownStopDispatch| stop_msgs(d), i as int);
        }
        i += 1;
    }
    proof {
        lemma_flat_map_all(ds@, |d: SupervisorShutdownStopDispatch| stop_msgs(d));
    }
}

fn push_killing(out: &mut Vec<ConsoleMessage>, service: &String)
    ensures
        messages_view(final(out)@) == messages_view(old(out)@) + killing_msgs(service@),
{
    let mut s = String::from_str("peinit: shutdown killing ");
    append_string(&mut s, service);
    s.append("\n");
    push_message(out, s);
}

fn collect_shutdown_kill_console_messages(ds: &Vec<SupervisorShutdownKillDispatch>, out: &mut Vec<ConsoleMessage>)
    ensures
        messages_view(final(out)@) == messages_view(old(out)@) + kills_msgs(ds@),
{
    let ghost start = messages_view(out@);
    let n = ds.len();
    let mut i: usize = 0;
    while i < n
        invariant
            n == ds@.len(),
            0 <= i <= n,
            messages_view(out@) == start + kills_msgs(ds@.take(i as int)),
        decreases n - i,
    {
        push_killing(out, &ds[i].service);
        proof {
            lemma_flat_map_step(ds@, |d: SupervisorShutdownKillDispatch| killing_msgs(d.service@), i as int);
        }
        i += 1;
    }
    proof {
        lemma_flat_map_all(ds@, |d: SupervisorShutdownKillDispatch| killing_msgs(d.service@));
    }
}

fn collect_shutdown_cgroup_kill_console_messages(ds: &Vec<SupervisorShutdownCgroupKillDispatch>, out: &mut Vec<ConsoleMessage>)
    ensures
        messages_view(final(out)@) == messages_view(old(out)@) + cgroup_kills_msgs(ds@),
{
    let ghost start = messages_view(out@);
    let n = ds.len();
    let mut i: usize = 0;
    while i < n
        invariant
            n == ds@.len(),
            0 <= i <= n,
            messages_view(out@) == start + cgroup_kills_msgs(ds@.take(i as int)),
        decreases n - i,
    {
        push_killing(out, &ds[i].service);
        proof {
            lemma_flat_map_step(ds@, |d: SupervisorShutdownCgroupKillDispatch| killing_msgs(d.service@), i as int);
        }
        i += 1;
    }
    proof {
        lemma_flat_map_all(ds@, |d: SupervisorShutdownCgroupKillDispatch| killing_msgs(d.service@));
    }
}

fn collect_shutdown_abandoned_console_messages(ds: &Vec<SupervisorShutdownAbandonedDispatch>, out: &mut Vec<ConsoleMessage>)
    ensures
        messages_view(final(out)@) == messages_view(old(out)@) + abandoned_msgs(ds@),
{
    let ghost start = messages_view(out@);
    let n = ds.len();
    let mut i: usize = 0;
    while i < n
        invariant
            n == ds@.len(),
            0 <= i <= n,
            messages_view(out@) == start + abandoned_msgs(ds@.take(i as int)),
        decreases n - i,
    {
        let mut s = String::from_str("peinit: shutdown abandoned ");
        append_string(&mut s, &ds[i].service);
        s.append("\n");
        push_message(out, s);
        proof {
            lemma_flat_map_step(ds@, |d: SupervisorShutdownAbandonedDispatch| msg_status("peinit: shutdown abandoned "@ + d.service@ + "\n"@), i as int);
        }
        i += 1;
    }
    proof {
        lemma_flat_map_all(ds@, |d: SupervisorShutdownAbandonedDispatch| msg_status("peinit: shutdown abandoned "@ + d.service@ + "\n"@));
    }
}

/// A graceful shutdown begun: its kind, the starting services it killed, the
/// first wave of stops, and where its final action stands.
pub open spec fn shutdown_dispatch_msgs(d: SupervisorShutdownDispatch) -> Seq<ConsoleMessageView> {
    msg_status("peinit: shutdown "@ + d.runtime.kind.spec_name() + " started\n"@) + kills_msgs(d.killed_starting@)
        + stops_msgs(d.first_wave@) + finalization_state_msgs(d.runtime.finalization)
}

pub fn collect_shutdown_dispatch_console_messages(d: &SupervisorShutdownDispatch, out: &mut Vec<ConsoleMessage>)
    ensures
        messages_view(final(out)@) == messages_view(old(out)@) + shutdown_dispatch_msgs(*d),
{
    let ghost start = messages_view(out@);
    let mut s = String::from_str("peinit: shutdown ");
    s.append(d.runtime.kind.name());
    s.append(" started\n");
    push_message(out, s);
    collect_shutdown_kill_console_messages(&d.killed_starting, out);
    collect_shutdown_stops_console_messages(&d.first_wave, out);
    collect_shutdown_finalization_state_console_message(&d.runtime.finalization, out);
    assert(messages_view(out@) == start + shutdown_dispatch_msgs(*d));
}

pub open spec fn in_progress_msgs(kind: ShutdownKind) -> Seq<ConsoleMessageView> {
    msg_status("peinit: shutdown "@ + kind.spec_name() + " already in progress\n"@)
}

fn push_in_progress(out: &mut Vec<ConsoleMessage>, kind: ShutdownKind)
    ensures
        messages_view(final(out)@) == messages_view(old(out)@) + in_progress_msgs(kind),
{
    let mut s = String::from_str("peinit: shutdown ");
    s.append(kind.name());
    s.append(" already in progress\n");
    push_message(out, s);
}

pub open spec fn power_button_dispatch_msgs(d: SupervisorPowerButtonDispatch) -> Seq<ConsoleMessageView> {
    match d.action {
        SupervisorPowerButtonAction::Graceful(s) => shutdown_dispatch_msgs(s),
        SupervisorPowerButtonAction::AlreadyInProgress { kind } => in_progress_msgs(kind),
    }
}

pub fn collect_power_button_dispatch_console_messages(d: &SupervisorPowerButtonDispatch, out: &mut Vec<ConsoleMessage>)
    ensures
        messages_view(final(out)@) == messages_view(old(out)@) + power_button_dispatch_msgs(*d),
{
    match &d.action {
        SupervisorPowerButtonAction::Graceful(s) => collect_shutdown_dispatch_console_messages(s, out),
        SupervisorPowerButtonAction::AlreadyInProgress { kind } => push_in_progress(out, *kind),
    }
}

pub open spec fn shutdown_timeout_msgs(d: SupervisorShutdownTimeoutDispatch) -> Seq<ConsoleMessageView> {
    (if d.global_timeout { msg_status("peinit: shutdown global timeout expired\n"@) } else { Seq::empty() })
        + cgroup_kills_msgs(d.cgroup_kills@) + abandoned_msgs(d.abandoned@) + stops_msgs(d.next_wave@)
        + finalization_state_msgs(d.finalization)
}

fn collect_shutdown_timeout_console_messages(d: &SupervisorShutdownTimeoutDispatch, out: &mut Vec<ConsoleMessage>)
    ensures
        messages_view(final(out)@) == messages_view(old(out)@) + shutdown_timeout_msgs(*d),
{
    let ghost start = messages_view(out@);
    if d.global_timeout {
        push_message(out, String::from_str("peinit: shutdown global timeout expired\n"));
    }
    collect_shutdown_cgroup_kill_console_messages(&d.cgroup_kills, out);
    collect_shutdown_abandoned_console_messages(&d.abandoned, out);
    collect_shutdown_stops_console_messages(&d.next_wave, out);
    collect_shutdown_finalization_state_console_message(&d.finalization, out);
    assert(messages_view(out@) == start + shutdown_timeout_msgs(*d));
}

pub open spec fn shutdown_drive_msgs(d: SupervisorShutdownDriveDispatch) -> Seq<ConsoleMessageView> {
    (match d.timeout {
        Some(t) => shutdown_timeout_msgs(t),
        None => Seq::empty(),
    }) + (match d.finalization {
        Some(f) => finalization_dispatch_msgs(f),
        None => Seq::empty(),
    })
}

pub fn collect_shutdown_drive_dispatch_console_messages(d: &SupervisorShutdownDriveDispatch, out: &mut Vec<ConsoleMessage>)
    ensures
        messages_view(final(out)@) == messages_view(old(out)@) + shutdown_drive_msgs(*d),
{
    let ghost start = messages_view(out@);
    match &d.timeout {
        Some(t) => collect_shutdown_timeout_console_messages(t, out),
        None => {},
    }
    match &d.finalization {
        Some(f) => collect_shutdown_finalization_dispatch_console_messages(f, out),
        None => {},
    }
    assert(messages_view(out@) == start + shutdown_drive_msgs(*d));
}

pub open spec fn shutdown_terminal_msgs(d: SupervisorShutdownTerminalDispatch) -> Seq<ConsoleMessageView> {
    (match d.job_event.service {
        Some(service) => msg_status("peinit: shutdown service "@ + service@ + " exited\n"@),
        None => Seq::empty(),
    }) + stops_msgs(d.next_wave@) + finalization_state_msgs(d.finalization)
}

pub fn collect_shutdown_terminal_dispatch_console_messages(d: &SupervisorShutdownTerminalDispatch, out: &mut Vec<ConsoleMessage>)
    ensures
        messages_view(final(out)@) == messages_view(old(out)@) + shutdown_terminal_msgs(*d),
{
    let ghost start = messages_view(out@);
    match &d.job_event.service {
        Some(service) => {
            let mut s = String::from_str("peinit: shutdown service ");
            append_string(&mut s, service);
            s.append(" exited\n");
            push_message(out, s);
        },
        None => {},
    }
    collect_shutdown_stops_console_messages(&d.next_wave, out);
    collect_shutdown_finalization_state_console_message(&d.finalization, out);
    assert(messages_view(out@) == start + shutdown_terminal_msgs(*d));
}

pub open spec fn shutdown_signal_msgs(d: SupervisorShutdownSignalDispatch) -> Seq<ConsoleMessageView> {
    match d.action {
        SupervisorShutdownSignalAction::Graceful(s) => shutdown_dispatch_msgs(s),
        SupervisorShutdownSignalAction::Forced(immediate) => msg_status("peinit: shutdown forced reboot requested\n"@)
            + cgroup_kills_msgs(immediate.killed_services@) + finalization_dispatch_msgs(immediate.finalization),
        SupervisorShutdownSignalAction::AlreadyInProgress { kind } => in_progress_msgs(kind),
    }
}

fn collect_shutdown_signal_dispatch_console_messages(d: &SupervisorShutdownSignalDispatch, out: &mut Vec<ConsoleMessage>)
    ensures
        messages_view(final(out)@) == messages_view(old(out)@) + shutdown_signal_msgs(*d),
{
    let ghost start = messages_view(out@);
    match &d.action {
        SupervisorShutdownSignalAction::Graceful(s) => collect_shutdown_dispatch_console_messages(s, out),
        SupervisorShutdownSignalAction::Forced(immediate) => {
            push_message(out, String::from_str("peinit: shutdown forced reboot requested\n"));
            collect_shutdown_cgroup_kill_console_messages(&immediate.killed_services, out);
            collect_shutdown_finalization_dispatch_console_messages(&immediate.finalization, out);
        },
        SupervisorShutdownSignalAction::AlreadyInProgress { kind } => push_in_progress(out, *kind),
    }
    assert(messages_view(out@) == start + shutdown_signal_msgs(*d));
}

pub open spec fn pid1_signal_msgs(t: SupervisorPid1SignalFdTurn) -> Seq<ConsoleMessageView> {
    match t {
        SupervisorPid1SignalFdTurn::Shutdown(d) => shutdown_signal_msgs(*d),
        SupervisorPid1SignalFdTurn::Other { .. } => Seq::empty(),
    }
}

pub fn collect_pid1_signal_turn_console_messages(t: &SupervisorPid1SignalFdTurn, out: &mut Vec<ConsoleMessage>)
    ensures
        messages_view(final(out)@) == messages_view(old(out)@) + pid1_signal_msgs(*t),
{
    match t {
        SupervisorPid1SignalFdTurn::Shutdown(d) => collect_shutdown_signal_dispatch_console_messages(d, out),
        SupervisorPid1SignalFdTurn::Other { .. } => {
            assert(messages_view(out@) == messages_view(old(out)@) + Seq::<ConsoleMessageView>::empty());
        },
    }
}

} // verus!
