//! Deciding whether a console message may be written.
//!
//! Two gates, applied in order: whether a live service owns the console, and
//! the quiet level the kernel command line asked for. They stack rather than
//! form a scale.
use vstd::prelude::*;
use vstd::string::*;
use crate::console::message::{ConsoleSeverity};
use crate::model::service::{ServiceEntry, ServiceState, ServiceTable};

verus! {

/// The terminal peinit writes to.
pub const CONSOLE_PATH: &'static str = "/dev/console";

/// `peios.quiet`: how much peinit may write to the console.
#[derive(Debug, Clone, Copy, PartialEq, Eq)]
pub enum QuietLevel {
    /// `peios.quiet=0`: everything, even into a terminal a service owns.
    Verbose,
    /// The default: everything, but never into a terminal a service owns.
    Standard,
    /// `peios.quiet=2`: only what went wrong.
    Blackout,
}

impl QuietLevel {
    /// The level when the command line names none.
    pub fn default_level() -> (l: Self)
        ensures
            l == QuietLevel::Standard,
    {
        QuietLevel::Standard
    }

    pub open spec fn spec_respects_terminal_ownership(self) -> bool {
        !(self is Verbose)
    }

    /// Whether a service owning the console silences peinit.
    pub fn respects_terminal_ownership(&self) -> (r: bool)
        ensures
            r == self.spec_respects_terminal_ownership(),
    {
        match self {
            QuietLevel::Verbose => false,
            _ => true,
        }
    }

    pub open spec fn spec_suppresses_status(self) -> bool {
        self is Blackout
    }

    /// Whether ordinary progress is dropped.
    pub fn suppresses_status(&self) -> (r: bool)
        ensures
            r == self.spec_suppresses_status(),
    {
        match self {
            QuietLevel::Blackout => true,
            _ => false,
        }
    }
}

/// The two gates as they stand for one turn.
#[derive(Debug, Clone, Copy, PartialEq, Eq)]
pub struct QuietPolicy {
    pub level: QuietLevel,
    /// A live service holds the console as its controlling terminal.
    pub console_is_owned: bool,
}

/// Whether a message of `severity` passes both gates.
pub open spec fn policy_allows(level: QuietLevel, owned: bool, severity: ConsoleSeverity) -> bool {
    &&& !(owned && severity.spec_rank() < 2)
    &&& !(level.spec_suppresses_status() && severity.spec_rank() < 1)
}

/// Whether a service's terminal is the one peinit writes to: the same path,
/// or the same device where both could be read.
pub open spec fn names_peinit_console(tty_path: Seq<char>, tty_device: Option<u64>, console_device: Option<u64>) -> bool {
    ||| tty_path == CONSOLE_PATH@
    ||| (tty_device is Some && console_device is Some && tty_device == console_device)
}

/// Whether this service, as it stands, holds peinit's console.
pub open spec fn holds_console(entry: ServiceEntry, console_device: Option<u64>) -> bool {
    &&& entry.state.spec_has_process()
    &&& entry.console_path is Some
    &&& names_peinit_console(entry.console_path.unwrap()@, entry.console_device, console_device)
}

/// Whether any service with a process holds peinit's console.
pub open spec fn console_owned(table: ServiceTable) -> bool {
    exists|i: int| 0 <= i < table.services@.len() && #[trigger] holds_console(table.services@[i], table.console_device)
}

impl QuietPolicy {
    pub fn new(level: QuietLevel, console_is_owned: bool) -> (p: Self)
        ensures
            p.level == level,
            p.console_is_owned == console_is_owned,
    {
        QuietPolicy { level, console_is_owned }
    }

    /// Evaluate against the current service table. Ownership counts only
    /// where the level respects it.
    pub fn evaluate(level: QuietLevel, services: &ServiceTable) -> (p: Self)
        ensures
            p.level == level,
            p.console_is_owned == (level.spec_respects_terminal_ownership() && console_owned(*services)),
    {
        let owned = level.respects_terminal_ownership() && console_owned_by_a_live_service(services);
        Self::new(level, owned)
    }

    /// Ownership first, and it is the stricter gate: an error is worth
    /// overriding a preference for silence, not worth writing into the
    /// middle of someone's login prompt. Only losing the machine is.
    pub fn allows(self, severity: ConsoleSeverity) -> (r: bool)
        ensures
            r == policy_allows(self.level, self.console_is_owned, severity),
    {
        if self.console_is_owned && severity.rank() < 2 {
            return false;
        }
        if self.level.suppresses_status() && severity.rank() < 1 {
            return false;
        }
        true
    }
}

/// Whether a service's `TTYPath` names the terminal peinit writes to.
/// Compared by device as well as by name: two names for one terminal are
/// one terminal. An unreadable device refuses the match.
pub fn is_peinit_console(tty_path: &String, tty_device: Option<u64>, console_device: Option<u64>) -> (r: bool)
    ensures
        r == names_peinit_console(tty_path@, tty_device, console_device),
{
    let console = String::from_str(CONSOLE_PATH);
    if *tty_path == console {
        return true;
    }
    match (tty_device, console_device) {
        (Some(a), Some(b)) => a == b,
        _ => false,
    }
}

/// Whether any service that has a process holds peinit's console. "Has a
/// process" rather than "is Active": a `Starting` service already has the
/// terminal on its standard streams.
pub fn console_owned_by_a_live_service(services: &ServiceTable) -> (r: bool)
    ensures
        r == console_owned(*services),
{
    let n = services.services.len();
    let mut i: usize = 0;
    while i < n
        invariant
            n == services.services@.len(),
            0 <= i <= n,
            forall|j: int| 0 <= j < i ==> !#[trigger] holds_console(services.services@[j], services.console_device),
        decreases n - i,
    {
        let entry = &services.services[i];
        if entry.state.has_process() {
            match &entry.console_path {
                Some(path) => {
                    if is_peinit_console(path, entry.console_device, services.console_device) {
                        assert(holds_console(services.services@[i as int], services.console_device));
                        return true;
                    }
                },
                None => {},
            }
        }
        i += 1;
    }
    false
}

/// Blackout silences the narrative, not the news: whatever Blackout lets
/// through, Standard lets through too, whether or not the console is owned.
pub proof fn law_blackout_never_quieter_than_standard(owned: bool, severity: ConsoleSeverity)
    ensures
        policy_allows(QuietLevel::Blackout, owned, severity) ==> policy_allows(QuietLevel::Standard, owned, severity),
{
}

/// A Critical message passes every policy.
pub proof fn law_critical_always_passes(level: QuietLevel, owned: bool)
    ensures
        policy_allows(level, owned, ConsoleSeverity::Critical),
{
}

/// A policy that lets a message through lets through anything at least as
/// severe.
pub proof fn law_allows_is_monotone_in_severity(level: QuietLevel, owned: bool, a: ConsoleSeverity, b: ConsoleSeverity)
    requires
        a.spec_rank() <= b.spec_rank(),
        policy_allows(level, owned, a),
    ensures
        policy_allows(level, owned, b),
{
}

/// An owned console carries Critical messages and nothing else.
pub proof fn law_owned_console_keeps_only_critical(level: QuietLevel, severity: ConsoleSeverity)
    ensures
        policy_allows(level, true, severity) <==> severity is Critical,
{
}

/// An unowned console below Blackout carries everything.
pub proof fn law_unowned_console_below_blackout_carries_everything(level: QuietLevel, severity: ConsoleSeverity)
    requires
        !(level is Blackout),
    ensures
        policy_allows(level, false, severity),
{
}

/// `peios.quiet=0` never counts the console as owned, whatever the services.
pub proof fn law_verbose_ignores_ownership(services: ServiceTable, severity: ConsoleSeverity)
    ensures
        policy_allows(QuietLevel::Verbose, QuietLevel::Verbose.spec_respects_terminal_ownership() && console_owned(services), severity),
{
}

/// A service on peinit's console owns it from the moment it has a process:
/// one that is starting (already exec'd with the terminal on its streams),
/// active, reloading, stopping, or abandoned with a process left behind. At
/// any level but Verbose, peinit then writes neither status nor errors.
pub proof fn law_a_live_console_service_owns_the_console(table: ServiceTable, i: int, level: QuietLevel)
    requires
        0 <= i < table.services@.len(),
        table.services@[i].console_path matches Some(p) && p@ == "/dev/console"@,
        ({
            let st = table.services@[i].state;
            ||| st == ServiceState::Starting
            ||| st == ServiceState::Active
            ||| st == ServiceState::Reloading
            ||| st == ServiceState::Stopping
            ||| st == ServiceState::Abandoned
        }),
        !(level is Verbose),
    ensures
        console_owned(table),
        !policy_allows(level, level.spec_respects_terminal_ownership() && console_owned(table), ConsoleSeverity::Status),
        !policy_allows(level, level.spec_respects_terminal_ownership() && console_owned(table), ConsoleSeverity::Error),
{
    assert(CONSOLE_PATH@ == "/dev/console"@);
    assert(holds_console(table.services@[i], table.console_device));
}

/// A service with no process owns nothing: a table whose services are all
/// inactive, backing off, failed, skipped or completed leaves the console to
/// peinit, whatever their terminals.
pub proof fn law_a_service_without_a_process_owns_nothing(table: ServiceTable)
    requires
        forall|i: int| 0 <= i < table.services@.len() ==> {
            let st = (#[trigger] table.services@[i]).state;
            ||| st == ServiceState::Inactive
            ||| st == ServiceState::Backoff
            ||| st == ServiceState::Failed
            ||| st == ServiceState::Skipped
            ||| st == ServiceState::Completed
        },
    ensures
        !console_owned(table),
{
}

} // verus!
