//! What the console says about control commands, notify messages, calendar
//! timers, filesystem checks and configuration reloads.
use vstd::prelude::*;
use vstd::string::*;
use crate::seqs::{flat_map, lemma_flat_map_step, lemma_flat_map_all};
use crate::text::{append_string, append_decimal, append_joined, decimal, joined};
use crate::console::message::{ConsoleMessage, ConsoleMessageView, messages_view, msg_status, msg_ok, msg_error, push_message, push_ok, push_error};
use crate::console::service::{transitions_msgs, transition_msgs, starts_msgs, collect_service_transitions_console_messages, collect_service_transition_console_message, collect_start_dispatches_console_messages};
use crate::console::shutdown::{shutdown_dispatch_msgs, collect_shutdown_dispatch_console_messages};
use crate::model::service::{UndecodableService};
use crate::model::control::{LifecycleCommandOutcome, SupervisorLifecycleDispatch, ReloadConfigOutcome, SupervisorControlCommandDispatch, SupervisorControlFrameTurn, SupervisorControlConnectionTableTurn};
use crate::model::deadline::{SupervisorTimerAction, SupervisorTimerDispatch};
use crate::model::turn::{SupervisorNotifyDispatch, RuntimeFilesystemCheckHelperTurn, RuntimeCalendarTimerTurn, RuntimeDeferredRegistryReloadTurn};

verus! {

pub open spec fn timer_dispatch_msgs(d: SupervisorTimerDispatch) -> Seq<ConsoleMessageView> {
    match d.action {
        SupervisorTimerAction::Start { start_dispatches, .. } => starts_msgs(start_dispatches@),
        SupervisorTimerAction::Skipped => Seq::empty(),
    }
}

pub open spec fn calendar_timer_msgs(t: RuntimeCalendarTimerTurn) -> Seq<ConsoleMessageView> {
    match t.supervisor {
        Some(d) => timer_dispatch_msgs(*d),
        None => Seq::empty(),
    }
}

pub fn collect_runtime_calendar_timer_console_messages(t: &RuntimeCalendarTimerTurn, out: &mut Vec<ConsoleMessage>)
    ensures
        messages_view(final(out)@) == messages_view(old(out)@) + calendar_timer_msgs(*t),
{
    match &t.supervisor {
        Some(d) => match &d.action {
            SupervisorTimerAction::Start { start_dispatches, .. } => collect_start_dispatches_console_messages(start_dispatches, out),
            SupervisorTimerAction::Skipped => {
                assert(messages_view(out@) == messages_view(old(out)@) + Seq::<ConsoleMessageView>::empty());
            },
        },
        None => {
            assert(messages_view(out@) == messages_view(old(out)@) + Seq::<ConsoleMessageView>::empty());
        },
    }
}

pub fn collect_notify_dispatch_console_messages(d: &SupervisorNotifyDispatch, out: &mut Vec<ConsoleMessage>)
    ensures
        messages_view(final(out)@) == messages_view(old(out)@) + starts_msgs(d.start_dispatches@),
{
    collect_start_dispatches_console_messages(&d.start_dispatches, out);
}

pub open spec fn filesystem_check_helper_msgs(t: RuntimeFilesystemCheckHelperTurn) -> Seq<ConsoleMessageView> {
    match t {
        RuntimeFilesystemCheckHelperTurn::Completed { completion }
        | RuntimeFilesystemCheckHelperTurn::ReadFailedClosed { completion, .. } => transitions_msgs(
            completion.completion.service_transitions@,
        ) + starts_msgs(completion.start_dispatches@),
        _ => Seq::empty(),
    }
}

pub fn collect_filesystem_check_helper_turn_console_messages(t: &RuntimeFilesystemCheckHelperTurn, out: &mut Vec<ConsoleMessage>)
    ensures
        messages_view(final(out)@) == messages_view(old(out)@) + filesystem_check_helper_msgs(*t),
{
    let ghost start = messages_view(out@);
    match t {
        RuntimeFilesystemCheckHelperTurn::Completed { completion }
        | RuntimeFilesystemCheckHelperTurn::ReadFailedClosed { completion, .. } => {
            collect_service_transitions_console_messages(&completion.completion.service_transitions, out);
            collect_start_dispatches_console_messages(&completion.start_dispatches, out);
        },
        _ => {},
    }
    assert(messages_view(out@) == start + filesystem_check_helper_msgs(*t));
}

/// What a configuration reload says about a service whose definition would
/// not decode.
pub open spec fn undecodable_msgs(u: UndecodableService) -> Seq<ConsoleMessageView> {
    msg_error(
        "peinit: service "@ + u.name@ + " failed: ValidationError ("@ + "Service definition failed to decode: "@
            + u.message@ + ")\n"@,
    )
}

fn push_undecodable(u: &UndecodableService, out: &mut Vec<ConsoleMessage>)
    ensures
        messages_view(final(out)@) == messages_view(old(out)@) + undecodable_msgs(*u),
{
    let mut s = String::from_str("peinit: service ");
    append_string(&mut s, &u.name);
    s.append(" failed: ValidationError (");
    s.append("Service definition failed to decode: ");
    append_string(&mut s, &u.message);
    s.append(")\n");
    push_error(out, s);
}

pub open spec fn undecodables_msgs(s: Seq<UndecodableService>) -> Seq<ConsoleMessageView> {
    flat_map(s, |d: UndecodableService| undecodable_msgs(d))
}

fn collect_undecodable(ds: &Vec<UndecodableService>, out: &mut Vec<ConsoleMessage>)
    ensures
        messages_view(final(out)@) == messages_view(old(out)@) + undecodables_msgs(ds@),
{
    let ghost start = messages_view(out@);
    let n = ds.len();
    let mut i: usize = 0;
    while i < n
        invariant
            n == ds@.len(),
            0 <= i <= n,
            messages_view(out@) == start + undecodables_msgs(ds@.take(i as int)),
        decreases n - i,
    {
        let d = &ds[i];
        push_undecodable(d, out);
        proof {
            lemma_flat_map_step(ds@, |d: UndecodableService| undecodable_msgs(d), i as int);
        }
        i += 1;
    }
    proof {
        lemma_flat_map_all(ds@, |d: UndecodableService| undecodable_msgs(d));
    }
}


/// What a reload has to say beyond its answer to one caller: the boot-plan
/// members it deferred, and each service it failed over a key that would not
/// decode.
pub open spec fn reload_config_msgs(o: ReloadConfigOutcome) -> Seq<ConsoleMessageView> {
    (if o.summary.deferred@.len() > 0 {
        msg_status(
            "peinit: registry changed during the boot window; "@ + decimal(o.summary.deferred@.len())
                + " definition(s) deferred until the boot plan drains: "@ + joined(o.summary.deferred@, ", "@) + "\n"@,
        )
    } else {
        Seq::empty()
    }) + undecodables_msgs(o.undecodable@)
}

pub fn collect_reload_config_console_messages(o: &ReloadConfigOutcome, out: &mut Vec<ConsoleMessage>)
    ensures
        messages_view(final(out)@) == messages_view(old(out)@) + reload_config_msgs(*o),
{
    let ghost start = messages_view(out@);
    if o.summary.deferred.len() > 0 {
        let mut s = String::from_str("peinit: registry changed during the boot window; ");
        append_decimal(&mut s, o.summary.deferred.len() as u64);
        s.append(" definition(s) deferred until the boot plan drains: ");
        append_joined(&mut s, &o.summary.deferred, ", ");
        s.append("\n");
        push_message(out, s);
    }
    collect_undecodable(&o.undecodable, out);
    assert(messages_view(out@) == start + reload_config_msgs(*o));
}

pub open spec fn lifecycle_outcome_msgs(o: LifecycleCommandOutcome) -> Seq<ConsoleMessageView> {
    match o {
        LifecycleCommandOutcome::SynchronousClear(clear) => transition_msgs(clear.service_transition),
        _ => Seq::empty(),
    }
}

pub open spec fn warning_msgs(w: String) -> Seq<ConsoleMessageView> {
    msg_error("peinit warning: "@ + w@ + "\n"@)
}

fn push_lifecycle_warning(w: &String, out: &mut Vec<ConsoleMessage>)
    ensures
        messages_view(final(out)@) == messages_view(old(out)@) + warning_msgs(*w),
{
    let mut s = String::from_str("peinit warning: ");
    append_string(&mut s, w);
    s.append("\n");
    push_error(out, s);
}

pub open spec fn warnings_msgs(s: Seq<String>) -> Seq<ConsoleMessageView> {
    flat_map(s, |d: String| warning_msgs(d))
}

fn collect_lifecycle_warnings(ds: &Vec<String>, out: &mut Vec<ConsoleMessage>)
    ensures
        messages_view(final(out)@) == messages_view(old(out)@) + warnings_msgs(ds@),
{
    let ghost start = messages_view(out@);
    let n = ds.len();
    let mut i: usize = 0;
    while i < n
        invariant
            n == ds@.len(),
            0 <= i <= n,
            messages_view(out@) == start + warnings_msgs(ds@.take(i as int)),
        decreases n - i,
    {
        let d = &ds[i];
        push_lifecycle_warning(d, out);
        proof {
            lemma_flat_map_step(ds@, |d: String| warning_msgs(d), i as int);
        }
        i += 1;
    }
    proof {
        lemma_flat_map_all(ds@, |d: String| warning_msgs(d));
    }
}


/// A lifecycle command: the transition a synchronous clear made, the warnings
/// it succeeded with (a reset that left a cgroup leaked), and its starts.
pub open spec fn lifecycle_dispatch_msgs(d: SupervisorLifecycleDispatch) -> Seq<ConsoleMessageView> {
    lifecycle_outcome_msgs(d.outcome) + warnings_msgs(d.lifecycle_warnings@) + starts_msgs(d.start_dispatches@)
}

fn collect_lifecycle_dispatch_console_messages(d: &SupervisorLifecycleDispatch, out: &mut Vec<ConsoleMessage>)
    ensures
        messages_view(final(out)@) == messages_view(old(out)@) + lifecycle_dispatch_msgs(*d),
{
    let ghost start = messages_view(out@);
    match &d.outcome {
        LifecycleCommandOutcome::SynchronousClear(clear) => collect_service_transition_console_message(&clear.service_transition, out),
        _ => {},
    }
    collect_lifecycle_warnings(&d.lifecycle_warnings, out);
    collect_start_dispatches_console_messages(&d.start_dispatches, out);
    assert(messages_view(out@) == start + lifecycle_dispatch_msgs(*d));
}

pub open spec fn control_command_msgs(d: SupervisorControlCommandDispatch) -> Seq<ConsoleMessageView> {
    match d {
        SupervisorControlCommandDispatch::Shutdown(s) => shutdown_dispatch_msgs(s.shutdown),
        SupervisorControlCommandDispatch::Lifecycle(l) => lifecycle_dispatch_msgs(*l),
        SupervisorControlCommandDispatch::ReloadConfig(o) => reload_config_msgs(*o),
        SupervisorControlCommandDispatch::Job(_) => Seq::empty(),
    }
}

fn collect_control_command_dispatch_console_messages(d: &SupervisorControlCommandDispatch, out: &mut Vec<ConsoleMessage>)
    ensures
        messages_view(final(out)@) == messages_view(old(out)@) + control_command_msgs(*d),
{
    match d {
        SupervisorControlCommandDispatch::Shutdown(s) => collect_shutdown_dispatch_console_messages(&s.shutdown, out),
        SupervisorControlCommandDispatch::Lifecycle(l) => collect_lifecycle_dispatch_console_messages(l, out),
        SupervisorControlCommandDispatch::ReloadConfig(o) => collect_reload_config_console_messages(o, out),
        SupervisorControlCommandDispatch::Job(_) => {
            assert(messages_view(out@) == messages_view(old(out)@) + Seq::<ConsoleMessageView>::empty());
        },
    }
}

pub open spec fn control_frame_msgs(f: SupervisorControlFrameTurn) -> Seq<ConsoleMessageView> {
    match f {
        SupervisorControlFrameTurn::ShutdownAccepted { dispatch } => shutdown_dispatch_msgs(dispatch.shutdown),
        SupervisorControlFrameTurn::CommandAccepted { dispatch: Some(d), .. } => control_command_msgs(*d),
        _ => Seq::empty(),
    }
}

fn collect_control_frame_turn_console_messages(f: &SupervisorControlFrameTurn, out: &mut Vec<ConsoleMessage>)
    ensures
        messages_view(final(out)@) == messages_view(old(out)@) + control_frame_msgs(*f),
{
    match f {
        SupervisorControlFrameTurn::ShutdownAccepted { dispatch } => collect_shutdown_dispatch_console_messages(&dispatch.shutdown, out),
        SupervisorControlFrameTurn::CommandAccepted { dispatch: Some(d), .. } => collect_control_command_dispatch_console_messages(d, out),
        _ => {
            assert(messages_view(out@) == messages_view(old(out)@) + Seq::<ConsoleMessageView>::empty());
        },
    }
}

pub open spec fn control_frames_msgs(s: Seq<SupervisorControlFrameTurn>) -> Seq<ConsoleMessageView> {
    flat_map(s, |d: SupervisorControlFrameTurn| control_frame_msgs(d))
}

fn collect_control_frames(ds: &Vec<SupervisorControlFrameTurn>, out: &mut Vec<ConsoleMessage>)
    ensures
        messages_view(final(out)@) == messages_view(old(out)@) + control_frames_msgs(ds@),
{
    let ghost start = messages_view(out@);
    let n = ds.len();
    let mut i: usize = 0;
    while i < n
        invariant
            n == ds@.len(),
            0 <= i <= n,
            messages_view(out@) == start + control_frames_msgs(ds@.take(i as int)),
        decreases n - i,
    {
        let d = &ds[i];
        collect_control_frame_turn_console_messages(d, out);
        proof {
            lemma_flat_map_step(ds@, |d: SupervisorControlFrameTurn| control_frame_msgs(d), i as int);
        }
        i += 1;
    }
    proof {
        lemma_flat_map_all(ds@, |d: SupervisorControlFrameTurn| control_frame_msgs(d));
    }
}


pub fn collect_control_connection_table_turn_console_messages(t: &SupervisorControlConnectionTableTurn, out: &mut Vec<ConsoleMessage>)
    ensures
        messages_view(final(out)@) == messages_view(old(out)@) + control_frames_msgs(t.frames@),
{
    collect_control_frames(&t.frames, out);
}

/// The reload that followed the boot window: what it did, so the operator who
/// saw the deferral sees it land; or that it failed.
pub open spec fn deferred_reload_msgs(t: RuntimeDeferredRegistryReloadTurn) -> Seq<ConsoleMessageView> {
    match t.outcome {
        Ok(o) => msg_ok(
            "peinit: configuration reloaded after the boot plan drained ("@ + decimal(t.deferred_services@.len())
                + " definition(s) deferred): added "@ + decimal(o.summary.added@.len()) + ", updated "@
                + decimal(o.summary.updated@.len()) + ", restored "@ + decimal(o.summary.restored@.len())
                + ", marked removed "@ + decimal(o.summary.marked_removed@.len()) + ", discarded "@
                + decimal(o.summary.discarded@.len()) + ", undecodable "@ + decimal(o.summary.undecodable@.len())
                + "\n"@,
        ) + reload_config_msgs(o),
        Err(e) => msg_error(
            "peinit warning: the configuration reload deferred by the boot window failed: "@ + e@ + "\n"@,
        ),
    }
}

pub fn collect_deferred_registry_reload_console_messages(t: &RuntimeDeferredRegistryReloadTurn, out: &mut Vec<ConsoleMessage>)
    ensures
        messages_view(final(out)@) == messages_view(old(out)@) + deferred_reload_msgs(*t),
{
    let ghost start = messages_view(out@);
    match &t.outcome {
        Ok(o) => {
            let mut s = String::from_str("peinit: configuration reloaded after the boot plan drained (");
            append_decimal(&mut s, t.deferred_services.len() as u64);
            s.append(" definition(s) deferred): added ");
            append_decimal(&mut s, o.summary.added.len() as u64);
            s.append(", updated ");
            append_decimal(&mut s, o.summary.updated.len() as u64);
            s.append(", restored ");
            append_decimal(&mut s, o.summary.restored.len() as u64);
            s.append(", marked removed ");
            append_decimal(&mut s, o.summary.marked_removed.len() as u64);
            s.append(", discarded ");
            append_decimal(&mut s, o.summary.discarded.len() as u64);
            s.append(", undecodable ");
            append_decimal(&mut s, o.summary.undecodable.len() as u64);
            s.append("\n");
            push_ok(out, s);
            collect_reload_config_console_messages(o, out);
        },
        Err(e) => {
            let mut s = String::from_str("peinit warning: the configuration reload deferred by the boot window failed: ");
            append_string(&mut s, e);
            s.append("\n");
            push_error(out, s);
        },
    }
    assert(messages_view(out@) == start + deferred_reload_msgs(*t));
}

} // verus!
