//! The records a consultation run leaves in `meta.toml`: one
//! `[[models]]` row per alias, each with one attempt per profile tried.
use vstd::prelude::*;

verus! {

/// One row per profile attempted. `error_class` is the lowercase class
/// name (`keydead` / `modelunavailable` / `transient` / `unknown`, or
/// `not_found`) on failure and `None` on success; `error_excerpt` holds
/// the last lines of stderr.
#[derive(Debug, Clone)]
pub struct FallbackAttempt {
    pub profile: String,
    pub success: bool,
    pub error_class: Option<String>,
    pub error_excerpt: Option<String>,
    pub elapsed_ms: u64,
    pub session_id: Option<String>,
}

/// The plain meaning of a [`FallbackAttempt`].
pub struct AttemptView {
    pub profile: Seq<char>,
    pub success: bool,
    pub error_class: Option<Seq<char>>,
    pub error_excerpt: Option<Seq<char>>,
    pub elapsed_ms: u64,
    pub session_id: Option<Seq<char>>,
}

pub open spec fn opt_view(o: Option<String>) -> Option<Seq<char>> {
    match o {
        Some(s) => Some(s@),
        None => None,
    }
}

impl View for FallbackAttempt {
    type V = AttemptView;

    open spec fn view(&self) -> AttemptView {
        AttemptView {
            profile: self.profile@,
            success: self.success,
            error_class: opt_view(self.error_class),
            error_excerpt: opt_view(self.error_excerpt),
            elapsed_ms: self.elapsed_ms,
            session_id: opt_view(self.session_id),
        }
    }
}

/// Per-model character counts (a token proxy), recorded on request.
#[derive(Debug, Clone)]
pub struct BudgetInfo {
    pub prompt_chars: usize,
    pub context_chars: usize,
    pub always_chars: usize,
    pub answer_chars: usize,
}

/// One `[[models]]` row of `meta.toml`.
#[derive(Debug, Clone)]
pub struct ModelMeta {
    pub alias: String,
    pub cursor_model: String,
    pub mode: String,
    pub profile_used: String,
    pub fallback_chain: Vec<String>,
    pub fallback_attempts: Vec<FallbackAttempt>,
    pub success: bool,
    pub elapsed_ms: u64,
    pub answer_path: String,
    pub session_ids: Vec<String>,
    pub last_session_id: Option<String>,
    pub budget: Option<BudgetInfo>,
}

} // verus!
