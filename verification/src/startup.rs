//! The decisions taken once, when the shell starts.

use vstd::prelude::*;

verus! {

/// The verbosity cap asked of the logger.
#[derive(Debug, Clone, Copy, PartialEq, Eq)]
pub enum LogLevel {
    ErrorOnly,
    Warn,
    Info,
    Debug,
    Trace,
}

/// What the shell does at startup.
#[derive(Debug, Clone, Copy, PartialEq, Eq)]
pub struct StartupPlan {
    /// Whether a logger is wired up (only in debug builds).
    pub enable_debug_logging: bool,
    /// The verbosity the logger is capped at when enabled.
    pub logging_level: LogLevel,
    /// Whether an update check is kicked off in the background.
    pub check_updates_at_startup: bool,
}

/// Plans startup: debug builds log at the `Info` level, release builds
/// log nothing, and every build checks for updates once in the
/// background.
pub fn startup_plan(debug_build: bool) -> (p: StartupPlan)
    ensures
        p.enable_debug_logging == debug_build,
        p.logging_level is Info,
        p.check_updates_at_startup,
{
    StartupPlan {
        enable_debug_logging: debug_build,
        logging_level: LogLevel::Info,
        check_updates_at_startup: true,
    }
}

} // verus!
