//! What the supervisor reports to its observer, and where process output goes.
use vstd::prelude::*;

verus! {

/// The state of the backend as published to the observer, on each transition.
#[derive(Debug)]
pub enum BackendStatus {
    Starting,
    Healthy,
    Unhealthy,
    Crashed { error: String },
    Restarting,
}

/// A channel of process output.
#[derive(PartialEq, Eq, Structural, Clone, Copy, Debug)]
pub enum OutputKind {
    Stdout,
    Stderr,
    Error,
}

/// The severity at which a piece of process output is logged.
#[derive(PartialEq, Eq, Structural, Clone, Copy, Debug)]
pub enum LogLevel {
    Info,
    Warn,
    Error,
}

/// Standard output is logged at info level, standard error at warning level,
/// and errors of the process machinery at error level.
pub fn log_level(kind: OutputKind) -> (r: LogLevel)
    ensures
        kind == OutputKind::Stdout ==> r == LogLevel::Info,
        kind == OutputKind::Stderr ==> r == LogLevel::Warn,
        kind == OutputKind::Error ==> r == LogLevel::Error,
{
    match kind {
        OutputKind::Stdout => LogLevel::Info,
        OutputKind::Stderr => LogLevel::Warn,
        OutputKind::Error => LogLevel::Error,
    }
}

} // verus!
