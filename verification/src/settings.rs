//! The preferences remembered between runs. Where they are stored, and how,
//! is the application's business; this is the record and its defaults.
use vstd::prelude::*;

verus! {

/// Everything the application remembers across launches.
#[derive(Clone, Copy, Debug, PartialEq, Eq, Structural)]
pub struct Settings {
    /// Keep the interface in English whatever the system locale.
    pub force_english: bool,
    /// Keep the activity-log column visible even while the log is empty.
    pub show_logs_always: bool,
    /// Name every copied file in the activity log, not just the large ones.
    pub log_all_files: bool,
}

impl Default for Settings {
    /// Every preference off.
    fn default() -> (r: Self)
        ensures
            !r.force_english,
            !r.show_logs_always,
            !r.log_all_files,
    {
        Settings { force_english: false, show_logs_always: false, log_all_files: false }
    }
}

} // verus!
