use peinit_runtime::console::message::ConsoleSeverity;
use peinit_runtime::console::policy::{
    console_owned_by_a_live_service, is_peinit_console, QuietLevel, QuietPolicy, CONSOLE_PATH,
};
use peinit_runtime::model::service::{ServiceEntry, ServiceState, ServiceTable};

fn policy(level: QuietLevel, owned: bool) -> QuietPolicy {
    QuietPolicy::new(level, owned)
}

fn console_service(name: &str) -> ServiceEntry {
    let mut entry = ServiceEntry::defined(name.to_string());
    entry.console_path = Some(CONSOLE_PATH.to_string());
    entry
}

/// Nothing owns the console: every severity is written at both the default
/// and the verbose level.
#[test]
fn an_unowned_console_carries_everything_below_blackout() {
    for level in [QuietLevel::Verbose, QuietLevel::Standard] {
        let policy = policy(level, false);
        assert!(policy.allows(ConsoleSeverity::Status), "{level:?}");
        assert!(policy.allows(ConsoleSeverity::Error), "{level:?}");
        assert!(policy.allows(ConsoleSeverity::Critical), "{level:?}");
    }
}

/// Blackout silences the narrative, not the news.
#[test]
fn blackout_drops_status_and_keeps_errors() {
    let policy = policy(QuietLevel::Blackout, false);

    assert!(!policy.allows(ConsoleSeverity::Status));
    assert!(policy.allows(ConsoleSeverity::Error));
    assert!(policy.allows(ConsoleSeverity::Critical));
}

/// Ownership is the stricter gate.
#[test]
fn an_owned_console_keeps_only_critical_messages() {
    let policy = policy(QuietLevel::Standard, true);

    assert!(!policy.allows(ConsoleSeverity::Status));
    assert!(!policy.allows(ConsoleSeverity::Error));
    assert!(policy.allows(ConsoleSeverity::Critical));
}

/// The two rules stack, so errors are never less visible at Blackout than at
/// Standard.
#[test]
fn blackout_is_never_quieter_about_errors_than_standard() {
    for owned in [false, true] {
        let standard = policy(QuietLevel::Standard, owned);
        let blackout = policy(QuietLevel::Blackout, owned);
        for severity in [
            ConsoleSeverity::Status,
            ConsoleSeverity::Error,
            ConsoleSeverity::Critical,
        ] {
            if blackout.allows(severity) {
                assert!(
                    standard.allows(severity),
                    "{severity:?} at owned={owned} passes Blackout but not Standard",
                );
            }
        }
    }
}

/// `peios.quiet=0` turns the ownership rule off.
#[test]
fn verbose_writes_into_an_owned_console() {
    assert!(!QuietLevel::Verbose.respects_terminal_ownership());

    let services = ServiceTable::from_definitions(vec![console_service("login-console")]);
    let policy = QuietPolicy::evaluate(QuietLevel::Verbose, &services);

    assert!(policy.allows(ConsoleSeverity::Status));
}

/// A service that declares no terminal cannot silence peinit.
#[test]
fn a_service_without_a_terminal_does_not_own_the_console() {
    let services = ServiceTable::from_definitions(vec![ServiceEntry::defined("app".to_string())]);

    let policy = QuietPolicy::evaluate(QuietLevel::Standard, &services);

    assert!(policy.allows(ConsoleSeverity::Status));
}

/// A defined but not-yet-running terminal service holds nothing.
#[test]
fn an_inactive_terminal_service_does_not_own_the_console() {
    let services = ServiceTable::from_definitions(vec![console_service("login-console")]);

    let policy = QuietPolicy::evaluate(QuietLevel::Standard, &services);

    assert!(policy.allows(ConsoleSeverity::Status));
}

#[test]
fn verbose_ignores_a_live_terminal_service() {
    let mut service = console_service("login-console");
    service.state = ServiceState::Active;
    let services = ServiceTable::from_definitions(vec![service]);
    assert!(console_owned_by_a_live_service(&services));

    let policy = QuietPolicy::evaluate(QuietLevel::Verbose, &services);

    assert!(!policy.console_is_owned);
    assert!(policy.allows(ConsoleSeverity::Status));
}

#[test]
fn a_live_terminal_service_silences_standard_status_but_not_critical() {
    let mut service = console_service("login-console");
    service.state = ServiceState::Active;
    let services = ServiceTable::from_definitions(vec![service]);

    let policy = QuietPolicy::evaluate(QuietLevel::Standard, &services);

    assert!(policy.console_is_owned);
    assert!(!policy.allows(ConsoleSeverity::Status));
    assert!(!policy.allows(ConsoleSeverity::Error));
    assert!(policy.allows(ConsoleSeverity::Critical));
}

#[test]
fn a_terminal_is_the_console_by_name_or_by_device() {
    assert!(is_peinit_console(&"/dev/console".to_string(), None, None));
    assert!(is_peinit_console(&"/dev/tty1".to_string(), Some(0x501), Some(0x501)));
    assert!(!is_peinit_console(&"/dev/tty1".to_string(), Some(0x401), Some(0x501)));
    assert!(!is_peinit_console(&"/dev/tty1".to_string(), None, Some(0x501)));
}

#[test]
fn the_default_quiet_level_is_standard() {
    assert_eq!(QuietLevel::default_level(), QuietLevel::Standard);
    assert!(QuietLevel::Standard.respects_terminal_ownership());
    assert!(!QuietLevel::Standard.suppresses_status());
    assert!(QuietLevel::Blackout.suppresses_status());
}
