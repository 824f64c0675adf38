//! Build-time runtime defaults. There is no override flag or variable.
use vstd::prelude::*;

verus! {

/// Run multiple model aliases concurrently.
pub const PARALLEL: bool = true;

/// Project-relative directory where every consultation run drops its
/// `<ts>-<topic>-<uuid>/` subdirectory.
pub const OUTPUT_ROOT: &'static str = "consultations";

/// Seconds between successive model spawns when running in parallel.
pub const STAGGER_SECS: u64 = 3;

/// Prompt bodies longer than this many bytes are written to
/// `.a2a/_prompt.md` and replaced on the command line by a redirect.
pub const INLINE_PROMPT_MAX_BYTES: u64 = 24000;

/// Consultation directories older than this many days are pruned.
pub const RETAIN_DAYS: u64 = 7;

} // verus!
