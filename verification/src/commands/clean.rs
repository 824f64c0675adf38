//! `a2a clean`: remove stale consultation records and temp mirrors.
use vstd::prelude::*;

verus! {

pub struct CleanArgs {
    /// The project root; defaults to the project around the working
    /// directory.
    pub project: Option<String>,
    /// Only clean entries older than this duration (e.g. `30d`, `7d`,
    /// `1h`).
    pub older_than: Option<String>,
    /// Skip the confirmation prompt.
    pub yes: bool,
}

} // verus!
