//! The messages the privileged helper streams to the GUI, one per line.
use vstd::prelude::*;

verus! {

/// Severity of a log line.
#[derive(Debug, Clone, Copy, PartialEq, Eq, Structural)]
pub enum LogLevel {
    Info,
    Warn,
    Error,
}

/// A single message from the helper to the GUI.
#[derive(Debug, Clone, PartialEq, Eq)]
pub enum ProgressMsg {
    /// A human-readable log line for the GUI's log view.
    Log { level: LogLevel, text: String },
    /// The helper has entered a new named phase (e.g. `Writing`, `Verifying`).
    Phase { name: String },
    /// Fine-grained progress within the current phase.
    Progress { phase: String, done: u64, total: u64 },
    /// The job finished successfully.
    Done,
    /// The job failed; `text` explains why.
    Error { text: String },
}

impl ProgressMsg {
    /// Convenience constructor for an info-level log line.
    pub fn info(text: String) -> (r: Self)
        ensures
            r matches ProgressMsg::Log { level, text: t } && level == LogLevel::Info && t@ == text@,
    {
        ProgressMsg::Log { level: LogLevel::Info, text }
    }

    /// Convenience constructor for a warning log line.
    pub fn warn(text: String) -> (r: Self)
        ensures
            r matches ProgressMsg::Log { level, text: t } && level == LogLevel::Warn && t@ == text@,
    {
        ProgressMsg::Log { level: LogLevel::Warn, text }
    }
}

} // verus!
