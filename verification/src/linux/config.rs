//! The Linux runtime's configuration, and how setting it up can fail.
use vstd::prelude::*;
use crate::console::policy::QuietLevel;
use crate::event_loop::model::{RuntimeControlLimits, RuntimeEventRegistrationError};
use crate::boundary::BoundaryError;

verus! {

/// How many epoll events one wait takes.
pub const DEFAULT_MAX_RUNTIME_EVENTS: usize = 32;

/// Where the control socket is bound.
pub const CONTROL_SOCKET_PATH: &'static str = "/run/peinit/control.sock";

/// Where the jobs socket is bound.
pub const JOBS_SOCKET_PATH: &'static str = "/run/peinit/jobs.sock";

/// How many control connections may be open at once.
pub const DEFAULT_MAX_CONTROL_CONNECTIONS: usize = 64;

/// How many jobs connections may be open at once.
pub const DEFAULT_MAX_JOBS_CONNECTIONS: usize = 64;

/// How long a jobs connection may sit idle.
pub const DEFAULT_JOBS_CONNECTION_TIMEOUT_SECS: u64 = 30;

/// Who may connect to the control socket.
#[derive(Debug, Clone, PartialEq, Eq)]
pub enum ControlSecurityDescriptor {
    /// The built-in descriptor.
    Default,
    /// One the registry configured, as its SDDL text.
    Custom(String),
}

/// The work pump's configuration, carried through the runtime unchanged.
#[derive(Debug, Clone, Copy, PartialEq, Eq)]
pub struct RuntimeWorkPumpConfig {}

impl Default for RuntimeWorkPumpConfig {
    fn default() -> (c: Self)
        ensures
            c == (RuntimeWorkPumpConfig {}),
    {
        RuntimeWorkPumpConfig {}
    }
}

/// The control socket's limits as the registry configures them, reloaded
/// with the configuration.
#[derive(Debug, Clone, Copy, PartialEq, Eq)]
pub struct SupervisorControlLimits {
    pub max_connections: usize,
    pub max_request_bytes: usize,
    pub connection_timeout_secs: u64,
}

/// The jobs socket's limits as the registry configures them.
#[derive(Debug, Clone, Copy, PartialEq, Eq)]
pub struct JobsSocketLimits {
    pub max_connections: usize,
    pub max_message_bytes: usize,
    pub connection_timeout_secs: u64,
}

/// The per-boot values the supervisor carries from the command line.
#[derive(Debug, Clone, PartialEq, Eq)]
pub struct SupervisorSettings {
    /// `peios.notifysocket=`: the socket Phase 1 bound and every service's
    /// `NOTIFY_SOCKET` names.
    pub notify_socket_path: String,
    /// `peios.quiet`.
    pub quiet: QuietLevel,
}

/// Where the notify socket is bound when the command line names none.
pub const DEFAULT_NOTIFY_SOCKET_PATH: &'static str = "/run/peinit/notify.sock";

impl Default for SupervisorSettings {
    fn default() -> (s: Self)
        ensures
            s.notify_socket_path@ == DEFAULT_NOTIFY_SOCKET_PATH@,
            s.quiet == QuietLevel::Standard,
    {
        SupervisorSettings {
            notify_socket_path: String::from_str(DEFAULT_NOTIFY_SOCKET_PATH),
            quiet: QuietLevel::default_level(),
        }
    }
}

#[derive(Debug, Clone, PartialEq, Eq)]
pub struct LinuxRuntimeConfig {
    pub control_socket_path: String,
    pub jobs_socket_path: String,
    pub notify_socket_path: String,
    pub max_events: usize,
    pub max_control_connections: usize,
    pub max_jobs_connections: usize,
    pub control_limits: RuntimeControlLimits,
    pub control_security: ControlSecurityDescriptor,
    pub work_pump: RuntimeWorkPumpConfig,
    /// `peios.quiet`: how much peinit may write to the console.
    pub quiet: QuietLevel,
}

impl LinuxRuntimeConfig {
    /// Whether a configuration holds the defaults in everything but the
    /// notify socket and the quiet level.
    pub open spec fn spec_is_default_but_notify_and_quiet(self) -> bool {
        &&& self.control_socket_path@ == CONTROL_SOCKET_PATH@
        &&& self.jobs_socket_path@ == JOBS_SOCKET_PATH@
        &&& self.max_events == DEFAULT_MAX_RUNTIME_EVENTS
        &&& self.max_control_connections == DEFAULT_MAX_CONTROL_CONNECTIONS
        &&& self.max_jobs_connections == DEFAULT_MAX_JOBS_CONNECTIONS
        &&& self.control_limits == RuntimeControlLimits::spec_default()
        &&& self.control_security == ControlSecurityDescriptor::Default
        &&& self.work_pump == (RuntimeWorkPumpConfig {})
    }

    /// The runtime configuration for the supervisor Phase 1 hands over.
    ///
    /// The per-boot command-line values the supervisor carries apply to the
    /// runtime too: `peios.quiet`, and the notify socket path, which Phase 1
    /// bound and every service's `NOTIFY_SOCKET` names. The runtime rebinds
    /// that path, so it has to be the same one, or nothing listens where
    /// services were told to write.
    pub fn for_settings(settings: &SupervisorSettings) -> (c: Self)
        ensures
            c.spec_is_default_but_notify_and_quiet(),
            c.notify_socket_path@ == settings.notify_socket_path@,
            c.quiet == settings.quiet,
    {
        let defaults = Self::default();
        LinuxRuntimeConfig {
            notify_socket_path: settings.notify_socket_path.clone(),
            quiet: settings.quiet,
            ..defaults
        }
    }
}

impl Default for LinuxRuntimeConfig {
    fn default() -> (c: Self)
        ensures
            c.spec_is_default_but_notify_and_quiet(),
            c.notify_socket_path@ == DEFAULT_NOTIFY_SOCKET_PATH@,
            c.quiet == QuietLevel::Standard,
    {
        LinuxRuntimeConfig {
            control_socket_path: String::from_str(CONTROL_SOCKET_PATH),
            jobs_socket_path: String::from_str(JOBS_SOCKET_PATH),
            notify_socket_path: String::from_str(DEFAULT_NOTIFY_SOCKET_PATH),
            max_events: DEFAULT_MAX_RUNTIME_EVENTS,
            max_control_connections: DEFAULT_MAX_CONTROL_CONNECTIONS,
            max_jobs_connections: DEFAULT_MAX_JOBS_CONNECTIONS,
            control_limits: RuntimeControlLimits::default(),
            control_security: ControlSecurityDescriptor::Default,
            work_pump: RuntimeWorkPumpConfig::default(),
            quiet: QuietLevel::default_level(),
        }
    }
}

/// Why the runtime could not be set up. The socket and descriptor failures
/// carry what the system said.
#[derive(Debug, Clone, PartialEq, Eq)]
pub enum LinuxRuntimeSetupError {
    MissingControlSocket,
    MissingJobsSocket,
    JobsSocket(String),
    Epoll(String),
    Signal(String),
    ControlSocket(String),
    NotifySocket(String),
    Register(RuntimeEventRegistrationError),
    Timer(String),
    RegistryWatch(BoundaryError),
}

} // verus!
