//! The per-alias profile fallback run as a state machine.
//!
//! The program drives a [`FallbackRun`]: it performs each
//! [`FallbackAction`] (look a profile up, build the workspace mirror, write
//! the prompt, spawn `cursor-agent`, sleep, delete a dead profile) and hands
//! back what happened as a [`FallbackEvent`]. Every decision — which
//! profile comes next, whether a failure is retried, resumed, skipped or
//! ends the run, what prompt each call sends — is made here.
use vstd::prelude::*;
use vstd::utf8::is_ascii_chars;
use crate::{A2aError, ErrView, other_err, user_err};
use crate::defaults::INLINE_PROMPT_MAX_BYTES;
use crate::fallback::{
    build_prompt_for_state, byte_len, call_view, class_name, class_of, class_tag,
    error_class_name, error_class_tag, excerpt_spec, full_prompt, full_prompt_spec,
    phase_tag_of_view, prompt_for_state_spec, resume_of_view, stderr_excerpt,
    suppress_readonly, suppress_readonly_spec, use_indirect_prompt, use_indirect_spec, CallState,
    CallView, ErrorClass, INDIRECT_PROMPT_REDIRECT, STORE_DRAINED_MSG, classify,
    READONLY_DIRECTIVE, RESUME_CONTINUATION_PROMPT, STEP2_ORIGINAL_PROMPT_BANNER,
};
use crate::runner::meta::{AttemptView, FallbackAttempt, opt_view};
use crate::text::{contains_seq, occurs_at, push_str_chars, str_lowercase};

verus! {

/// Transient failures are retried at most this many times per profile.
pub const MAX_TRANSIENT_RETRIES: usize = 3;

/// Lines of stderr kept in the failure excerpt.
pub const EXCERPT_LINES: usize = 8;

/// Back-off before the `retries`-th transient retry: 1 s, 3 s, 10 s.
pub open spec fn backoff_ms(retries: int) -> u64 {
    if retries == 0 {
        1000
    } else if retries == 1 {
        3000
    } else {
        10000
    }
}

/// Where a run stands.
#[derive(Debug, Clone, Copy, PartialEq, Eq, Structural)]
pub enum Phase {
    /// Nothing done yet; waiting for [`FallbackEvent::Begin`].
    Start,
    /// The current chain entry is being looked up.
    Lookup,
    /// The read-only workspace mirror is being built.
    Mirror,
    /// The prompt for the next call is being written.
    Prompt,
    /// `cursor-agent` is running.
    Calling,
    /// Sleeping before a transient retry.
    Backoff,
    /// The current (dead) profile is being deleted.
    Deleting,
    /// The run is over.
    Done,
}

/// What the program reports back after performing an action.
pub enum FallbackEvent {
    /// At the start: was the credentials store already drained by a peer
    /// alias, and is it empty?
    Begin { store_drained: bool, store_empty: bool },
    /// The current chain entry was looked up (`store_drained` is the
    /// drain flag seen just before the lookup).
    ProfileLooked { store_drained: bool, found: bool },
    /// The workspace mirror is ready.
    MirrorReady { store_drained: bool },
    /// The prompt was written (and, in indirect mode, saved to the
    /// workspace).
    PromptWritten { store_drained: bool },
    /// `cursor-agent` returned. `success` means exit code 0 and no error
    /// result in the stream.
    CallFinished {
        success: bool,
        stderr: String,
        session_id: Option<String>,
        elapsed_ms: u64,
    },
    /// The back-off sleep ended (`store_drained`: drain seen while sleeping).
    Slept { store_drained: bool },
    /// The dead profile was deleted; `became_empty` when no profile is left
    /// (false when the delete itself failed).
    ProfileDeleted { became_empty: bool },
}

pub enum EventView {
    Begin { store_drained: bool, store_empty: bool },
    ProfileLooked { store_drained: bool, found: bool },
    MirrorReady { store_drained: bool },
    PromptWritten { store_drained: bool },
    CallFinished {
        success: bool,
        stderr: Seq<char>,
        session_id: Option<Seq<char>>,
        elapsed_ms: u64,
    },
    Slept { store_drained: bool },
    ProfileDeleted { became_empty: bool },
}

impl View for FallbackEvent {
    type V = EventView;

    open spec fn view(&self) -> EventView {
        match self {
            FallbackEvent::Begin { store_drained, store_empty } => EventView::Begin {
                store_drained: *store_drained,
                store_empty: *store_empty,
            },
            FallbackEvent::ProfileLooked { store_drained, found } => EventView::ProfileLooked {
                store_drained: *store_drained,
                found: *found,
            },
            FallbackEvent::MirrorReady { store_drained } => EventView::MirrorReady {
                store_drained: *store_drained,
            },
            FallbackEvent::PromptWritten { store_drained } => EventView::PromptWritten {
                store_drained: *store_drained,
            },
            FallbackEvent::CallFinished { success, stderr, session_id, elapsed_ms } =>
                EventView::CallFinished {
                success: *success,
                stderr: stderr@,
                session_id: opt_view(*session_id),
                elapsed_ms: *elapsed_ms,
            },
            FallbackEvent::Slept { store_drained } => EventView::Slept {
                store_drained: *store_drained,
            },
            FallbackEvent::ProfileDeleted { became_empty } => EventView::ProfileDeleted {
                became_empty: *became_empty,
            },
        }
    }
}

/// How a run ended.
pub enum FallbackOutcome {
    /// `cursor-agent` answered on `profile`.
    Succeeded { profile: String },
    /// Dry run: the command for `profile` is previewed instead of run.
    DryRun { profile: String, found: bool },
    /// The alias failed. `write_meta`: record a failure row in
    /// `meta.toml`; `signal_drained`: tell the peer aliases that the
    /// credentials store is now empty.
    Failed { error: A2aError, write_meta: bool, signal_drained: bool },
}

/// What the program must do next.
pub enum FallbackAction {
    /// Check the drain flag, then look `profile` up in the store.
    LookupProfile { profile: String },
    /// Build the read-only workspace mirror for this profile attempt.
    PrepareMirror { profile: String },
    /// Write the prompt body; in indirect mode save it as
    /// `.a2a/_prompt.md` in the workspace.
    WritePrompt { body: String, indirect: bool },
    /// Run `cursor-agent` with `prompt` on the command line and
    /// `--resume <id>` when `resume` is set.
    Call {
        profile: String,
        prompt: String,
        resume: Option<String>,
        phase_tag: &'static str,
    },
    /// Sleep `ms` milliseconds (polling the drain flag) before transient
    /// retry number `attempt`.
    Sleep { ms: u64, attempt: usize },
    /// Delete the dead `profile` (and clear it as default).
    DeleteProfile { profile: String, excerpt: String },
    /// The run is over.
    Finish { outcome: FallbackOutcome },
}

pub enum OutcomeView {
    Succeeded { profile: Seq<char> },
    DryRun { profile: Seq<char>, found: bool },
    Failed { error: ErrView, write_meta: bool, signal_drained: bool },
}

pub enum ActionView {
    LookupProfile { profile: Seq<char> },
    PrepareMirror { profile: Seq<char> },
    WritePrompt { body: Seq<char>, indirect: bool },
    Call {
        profile: Seq<char>,
        prompt: Seq<char>,
        resume: Option<Seq<char>>,
        phase_tag: Seq<char>,
    },
    Sleep { ms: u64, attempt: int },
    DeleteProfile { profile: Seq<char>, excerpt: Seq<char> },
    Finish { outcome: OutcomeView },
}

impl View for FallbackAction {
    type V = ActionView;

    open spec fn view(&self) -> ActionView {
        match self {
            FallbackAction::LookupProfile { profile } => ActionView::LookupProfile {
                profile: profile@,
            },
            FallbackAction::PrepareMirror { profile } => ActionView::PrepareMirror {
                profile: profile@,
            },
            FallbackAction::WritePrompt { body, indirect } => ActionView::WritePrompt {
                body: body@,
                indirect: *indirect,
            },
            FallbackAction::Call { profile, prompt, resume, phase_tag } => ActionView::Call {
                profile: profile@,
                prompt: prompt@,
                resume: opt_view(*resume),
                phase_tag: phase_tag@,
            },
            FallbackAction::Sleep { ms, attempt } => ActionView::Sleep {
                ms: *ms,
                attempt: *attempt as int,
            },
            FallbackAction::DeleteProfile { profile, excerpt } => ActionView::DeleteProfile {
                profile: profile@,
                excerpt: excerpt@,
            },
            FallbackAction::Finish { outcome } => ActionView::Finish {
                outcome: match outcome {
                    FallbackOutcome::Succeeded { profile } => OutcomeView::Succeeded {
                        profile: profile@,
                    },
                    FallbackOutcome::DryRun { profile, found } => OutcomeView::DryRun {
                        profile: profile@,
                        found: *found,
                    },
                    FallbackOutcome::Failed { error, write_meta, signal_drained } =>
                        OutcomeView::Failed {
                        error: error@,
                        write_meta: *write_meta,
                        signal_drained: *signal_drained,
                    },
                },
            },
        }
    }
}

/// The plain meaning of a [`FallbackRun`].
pub struct RunView {
    pub alias: Seq<char>,
    pub chain: Seq<Seq<char>>,
    pub dry_run: bool,
    pub windows: bool,
    pub user_prompt: Seq<char>,
    pub full_prompt: Seq<char>,
    pub suppress: bool,
    pub phase: Phase,
    pub idx: int,
    pub call: CallView,
    pub retries: int,
    pub profile_sid: Option<Seq<char>>,
    pub last_sid: Option<Seq<char>>,
    pub sids: Seq<Seq<char>>,
    pub attempts: Seq<AttemptView>,
    pub pending_prompt: Seq<char>,
    pub pending_indirect: bool,
}

// ---------------------------------------------------------------------
// Messages
// ---------------------------------------------------------------------

pub open spec fn drained_msg(cause: Seq<char>) -> Seq<char> {
    "aborted: "@ + STORE_DRAINED_MSG@ + " ("@ + cause + ")"@
}

pub open spec fn no_profiles_msg() -> Seq<char> {
    "no profiles registered in `~/.a2a/credentials.db`; run `a2a auth add <name> [--from-stdin]` first"@
}

pub open spec fn chain_failed_msg(alias: Seq<char>) -> Seq<char> {
    "all profiles in chain failed for model alias '"@ + alias + "'"@
}

pub open spec fn chain_failed_key_dead_msg(alias: Seq<char>) -> Seq<char> {
    "all profiles in chain failed for model alias '"@ + alias + "' (last: KeyDead)"@
}

pub open spec fn skipped_msg(c: ErrorClass, profile: Seq<char>) -> Seq<char> {
    "skipped: "@ + class_name(c) + " on profile '"@ + profile + "'"@
}

pub open spec fn transient_exhausted_msg(profile: Seq<char>) -> Seq<char> {
    "skipped: Transient retries exhausted on profile '"@ + profile + "'"@
}

pub open spec fn last_key_dead_cause(profile: Seq<char>) -> Seq<char> {
    "last KeyDead deleted the only remaining profile '"@ + profile + "'"@
}

pub open spec fn not_found_msg(profile: Seq<char>) -> Seq<char> {
    "profile '"@ + profile + "' not found"@
}

pub open spec fn peer_cause() -> Seq<char> {
    "deleted by a peer alias's KeyDead handler"@
}

pub open spec fn mirror_cause() -> Seq<char> {
    "peer alias drained the store while building the readonly mirror"@
}

pub open spec fn prompt_cause() -> Seq<char> {
    "peer alias drained the store while preparing the prompt"@
}

pub open spec fn backoff_cause() -> Seq<char> {
    "peer alias signalled drain during transient backoff"@
}

// ---------------------------------------------------------------------
// The transition relation
// ---------------------------------------------------------------------

/// The event that the run waits for in its current phase.
pub open spec fn expects(p: Phase, e: EventView) -> bool {
    match e {
        EventView::Begin { .. } => p == Phase::Start,
        EventView::ProfileLooked { .. } => p == Phase::Lookup,
        EventView::MirrorReady { .. } => p == Phase::Mirror,
        EventView::PromptWritten { .. } => p == Phase::Prompt,
        EventView::CallFinished { .. } => p == Phase::Calling,
        EventView::Slept { .. } => p == Phase::Backoff,
        EventView::ProfileDeleted { .. } => p == Phase::Deleting,
    }
}

pub open spec fn fail(r: RunView, error: ErrView, write_meta: bool, signal_drained: bool) -> (
    RunView,
    ActionView,
) {
    (
        RunView { phase: Phase::Done, ..r },
        ActionView::Finish {
            outcome: OutcomeView::Failed { error, write_meta, signal_drained },
        },
    )
}

/// Move on to the next chain entry, or fail when the chain is used up.
pub open spec fn advance(r: RunView) -> (RunView, ActionView) {
    if r.idx + 1 < r.chain.len() {
        (
            RunView { phase: Phase::Lookup, idx: r.idx + 1, retries: 0, ..r },
            ActionView::LookupProfile { profile: r.chain[r.idx + 1] },
        )
    } else {
        fail(r, ErrView::Other(chain_failed_msg(r.alias)), true, false)
    }
}

/// The previous chain entry really called `cursor-agent` (it was not a
/// missing profile).
pub open spec fn prev_was_real(attempts: Seq<AttemptView>) -> bool {
    attempts.len() > 0 && attempts.last().error_class != Some("not_found"@)
}

/// The first call on a profile: fresh, with a continuation prefix when a
/// previous profile really ran. Never a resume.
pub open spec fn initial_call(idx: int, attempts: Seq<AttemptView>) -> CallView {
    if idx == 0 || !prev_was_real(attempts) {
        CallView::Fresh
    } else {
        CallView::Prefix
    }
}

pub open spec fn indirect_for(r: RunView, body: Seq<char>) -> bool {
    use_indirect_spec(
        r.dry_run,
        byte_len(body),
        INLINE_PROMPT_MAX_BYTES as nat,
        r.windows,
        is_ascii_chars(body),
    )
}

/// Write the prompt of the call in state `call`.
pub open spec fn issue_prompt(r: RunView, call: CallView) -> (RunView, ActionView) {
    let body = prompt_for_state_spec(call, r.suppress, r.user_prompt, r.full_prompt);
    let ind = indirect_for(r, body);
    (
        RunView {
            phase: Phase::Prompt,
            call,
            pending_prompt: body,
            pending_indirect: ind,
            ..r
        },
        ActionView::WritePrompt { body, indirect: ind },
    )
}

/// The session ledger after a call reported `sid`.
pub open spec fn capture_sid(r: RunView, sid: Option<Seq<char>>) -> RunView {
    match sid {
        Some(s) => if s.len() > 0 {
            RunView {
                profile_sid: Some(s),
                last_sid: Some(s),
                sids: if r.sids.contains(s) {
                    r.sids
                } else {
                    r.sids.push(s)
                },
                ..r
            }
        } else {
            r
        },
        None => r,
    }
}

pub open spec fn on_begin(r: RunView, drained: bool, empty: bool) -> (RunView, ActionView) {
    if drained {
        fail(r, ErrView::Other(drained_msg(peer_cause())), false, false)
    } else if !r.dry_run && empty {
        fail(r, ErrView::Other(no_profiles_msg()), false, false)
    } else if r.chain.len() == 0 {
        fail(r, ErrView::Other(chain_failed_msg(r.alias)), true, false)
    } else {
        (
            RunView { phase: Phase::Lookup, idx: 0, retries: 0, ..r },
            ActionView::LookupProfile { profile: r.chain[0] },
        )
    }
}

pub open spec fn on_looked(r: RunView, drained: bool, found: bool) -> (RunView, ActionView) {
    let p = r.chain[r.idx];
    if drained {
        fail(r, ErrView::Other(drained_msg(peer_cause())), true, false)
    } else if r.dry_run {
        let a = AttemptView {
            profile: p,
            success: true,
            error_class: None,
            error_excerpt: None,
            elapsed_ms: 0,
            session_id: None,
        };
        (
            RunView { phase: Phase::Done, attempts: r.attempts.push(a), ..r },
            ActionView::Finish { outcome: OutcomeView::DryRun { profile: p, found } },
        )
    } else if !found {
        let a = AttemptView {
            profile: p,
            success: false,
            error_class: Some("not_found"@),
            error_excerpt: Some(not_found_msg(p)),
            elapsed_ms: 0,
            session_id: None,
        };
        advance(RunView { attempts: r.attempts.push(a), ..r })
    } else {
        (
            RunView { phase: Phase::Mirror, retries: 0, profile_sid: None, ..r },
            ActionView::PrepareMirror { profile: p },
        )
    }
}

pub open spec fn on_mirror(r: RunView, drained: bool) -> (RunView, ActionView) {
    if drained {
        fail(r, ErrView::Other(drained_msg(mirror_cause())), true, false)
    } else {
        issue_prompt(r, initial_call(r.idx, r.attempts))
    }
}

pub open spec fn on_prompt(r: RunView, drained: bool) -> (RunView, ActionView) {
    if drained {
        fail(r, ErrView::Other(drained_msg(prompt_cause())), true, false)
    } else {
        (
            RunView { phase: Phase::Calling, ..r },
            ActionView::Call {
                profile: r.chain[r.idx],
                prompt: if r.pending_indirect {
                    INDIRECT_PROMPT_REDIRECT@
                } else {
                    r.pending_prompt
                },
                resume: resume_of_view(r.call),
                phase_tag: phase_tag_of_view(r.call),
            },
        )
    }
}

pub open spec fn on_call(
    r0: RunView,
    success: bool,
    stderr: Seq<char>,
    sid: Option<Seq<char>>,
    elapsed_ms: u64,
) -> (RunView, ActionView) {
    let r = capture_sid(r0, sid);
    let p = r.chain[r.idx];
    if success {
        let a = AttemptView {
            profile: p,
            success: true,
            error_class: None,
            error_excerpt: None,
            elapsed_ms,
            session_id: r.profile_sid,
        };
        (
            RunView { phase: Phase::Done, attempts: r.attempts.push(a), ..r },
            ActionView::Finish { outcome: OutcomeView::Succeeded { profile: p } },
        )
    } else {
        let c = class_of(str_lowercase(stderr));
        if c == ErrorClass::Transient && r.retries < MAX_TRANSIENT_RETRIES {
            (
                RunView { phase: Phase::Backoff, ..r },
                ActionView::Sleep { ms: backoff_ms(r.retries), attempt: r.retries + 1 },
            )
        } else {
            let ex = excerpt_spec(stderr, EXCERPT_LINES as nat);
            let a = AttemptView {
                profile: p,
                success: false,
                error_class: Some(class_tag(c)),
                error_excerpt: Some(ex),
                elapsed_ms,
                session_id: r.profile_sid,
            };
            let r2 = RunView { attempts: r.attempts.push(a), ..r };
            match c {
                ErrorClass::KeyDead => (
                    RunView { phase: Phase::Deleting, ..r2 },
                    ActionView::DeleteProfile { profile: p, excerpt: ex },
                ),
                ErrorClass::Transient => fail(
                    r2,
                    ErrView::User(transient_exhausted_msg(p)),
                    true,
                    false,
                ),
                _ => fail(r2, ErrView::User(skipped_msg(c, p)), true, false),
            }
        }
    }
}

pub open spec fn on_slept(r: RunView, drained: bool) -> (RunView, ActionView) {
    if drained {
        fail(r, ErrView::Other(drained_msg(backoff_cause())), true, false)
    } else {
        let r2 = RunView { retries: r.retries + 1, ..r };
        issue_prompt(
            r2,
            match r.profile_sid {
                Some(s) => CallView::Resume(s),
                None => r.call,
            },
        )
    }
}

pub open spec fn on_deleted(r: RunView, became_empty: bool) -> (RunView, ActionView) {
    let p = r.chain[r.idx];
    if became_empty {
        fail(r, ErrView::Other(drained_msg(last_key_dead_cause(p))), true, true)
    } else if r.idx + 1 >= r.chain.len() {
        fail(r, ErrView::Other(chain_failed_key_dead_msg(r.alias)), true, false)
    } else {
        (
            RunView { phase: Phase::Lookup, idx: r.idx + 1, retries: 0, ..r },
            ActionView::LookupProfile { profile: r.chain[r.idx + 1] },
        )
    }
}

/// One transition of the run.
pub open spec fn next(r: RunView, e: EventView) -> (RunView, ActionView) {
    match e {
        EventView::Begin { store_drained, store_empty } => on_begin(r, store_drained, store_empty),
        EventView::ProfileLooked { store_drained, found } => on_looked(r, store_drained, found),
        EventView::MirrorReady { store_drained } => on_mirror(r, store_drained),
        EventView::PromptWritten { store_drained } => on_prompt(r, store_drained),
        EventView::CallFinished { success, stderr, session_id, elapsed_ms } => on_call(
            r,
            success,
            stderr,
            session_id,
            elapsed_ms,
        ),
        EventView::Slept { store_drained } => on_slept(r, store_drained),
        EventView::ProfileDeleted { became_empty } => on_deleted(r, became_empty),
    }
}

/// The invariant every reachable run satisfies.
pub open spec fn run_wf(r: RunView) -> bool {
    &&& r.phase != Phase::Start && r.phase != Phase::Done ==> 0 <= r.idx < r.chain.len()
    &&& r.phase == Phase::Start ==> r.idx == 0 && r.retries == 0
    &&& 0 <= r.retries <= MAX_TRANSIENT_RETRIES
    &&& r.phase == Phase::Backoff ==> r.retries < MAX_TRANSIENT_RETRIES
    &&& (r.phase == Phase::Lookup || r.phase == Phase::Mirror) ==> r.retries == 0
    &&& r.phase == Phase::Mirror ==> r.profile_sid is None
    &&& ((r.phase == Phase::Prompt || r.phase == Phase::Calling) ==> (r.call matches CallView::Resume(s)
        ==> r.profile_sid == Some(s)))
    &&& (r.phase == Phase::Backoff && r.call is Resume ==> r.profile_sid is Some)
    &&& r.sids.no_duplicates()
    &&& (r.last_sid matches Some(s) ==> r.sids.contains(s))
    &&& r.full_prompt == full_prompt_spec(r.user_prompt, r.suppress)
}

pub open spec fn phase_rank(p: Phase) -> nat {
    match p {
        Phase::Start => 9,
        Phase::Lookup => 8,
        Phase::Mirror => 7,
        Phase::Prompt => 6,
        Phase::Calling => 5,
        Phase::Backoff => 4,
        Phase::Deleting => 3,
        Phase::Done => 0,
    }
}

/// A bound on the number of steps left.
pub open spec fn measure(r: RunView) -> nat {
    if r.phase == Phase::Done {
        0
    } else {
        ((r.chain.len() - r.idx) * 100 + (MAX_TRANSIENT_RETRIES - r.retries) * 10 + phase_rank(
            r.phase,
        )) as nat
    }
}

// ---------------------------------------------------------------------
// Laws
// ---------------------------------------------------------------------

/// Every step keeps the invariant and strictly decreases the measure, so a
/// run ends after at most `100 * chain length + 39` steps whatever the
/// program reports back.
pub proof fn law_step_progress(r: RunView, e: EventView)
    requires
        run_wf(r),
        expects(r.phase, e),
    ensures
        run_wf(next(r, e).0),
        measure(next(r, e).0) < measure(r),
{
    let (r2, a) = next(r, e);
    match e {
        EventView::CallFinished { success, stderr, session_id, elapsed_ms } => {
            let rc = capture_sid(r, session_id);
            assert(rc.sids.no_duplicates()) by {
                if let Some(s) = session_id {
                    if s.len() > 0 && !r.sids.contains(s) {
                        assert(forall|i: int| 0 <= i < r.sids.len() ==> r.sids[i] != s);
                        assert forall|i: int, j: int|
                            0 <= i < rc.sids.len() && 0 <= j < rc.sids.len() && i != j implies rc.sids[i]
                            != rc.sids[j] by {
                            if i < r.sids.len() && j < r.sids.len() {
                            } else if i == r.sids.len() {
                                assert(rc.sids[i] == s);
                                assert(rc.sids[j] == r.sids[j]);
                            } else {
                                assert(rc.sids[j] == s);
                                assert(rc.sids[i] == r.sids[i]);
                            }
                        }
                    }
                }
            }
            assert(rc.last_sid matches Some(s) ==> rc.sids.contains(s)) by {
                if let Some(s) = session_id {
                    if s.len() > 0 && !r.sids.contains(s) {
                        assert(rc.sids[rc.sids.len() - 1] == s);
                        if let Some(t) = r.last_sid {
                        }
                    }
                }
                if let Some(t) = r.last_sid {
                    if r.sids.contains(t) {
                        let k = choose|k: int| 0 <= k < r.sids.len() && r.sids[k] == t;
                        if let Some(s) = session_id {
                            if s.len() > 0 && !r.sids.contains(s) {
                                assert(rc.sids[k] == t);
                            }
                        }
                    }
                }
            }
        },
        _ => {},
    }
}

/// A profile's first call never resumes a session: after the workspace
/// mirror of a new profile is ready, the call state is fresh (with or
/// without a continuation prefix), so the `Call` that follows carries no
/// `--resume`. Sessions never cross accounts.
pub proof fn law_new_profile_never_resumes(r: RunView, drained: bool)
    requires
        run_wf(r),
        r.phase == Phase::Mirror,
    ensures
        (!drained ==> resume_of_view(next(r, EventView::MirrorReady { store_drained: drained }).0.call)
            is None),
        (!drained ==> (next(
            next(r, EventView::MirrorReady { store_drained: drained }).0,
            EventView::PromptWritten { store_drained: false },
        ).1 matches ActionView::Call { resume, .. } && resume is None)),
{
}

/// What the first call on a profile sends, by what the previous chain
/// step recorded. On the first chain entry, and right after an entry that
/// named no stored profile (its attempt is recorded as `not_found`, so no
/// session ran), the prompt is the plain one: the user's prompt behind the
/// directive as set up for the run. After an entry that really ran and
/// failed, the prompt carries the continuation notice and the original
/// prompt banner instead.
pub proof fn law_first_prompt_after_previous_step(r: RunView)
    requires
        run_wf(r),
        r.phase == Phase::Mirror,
    ensures
        (r.idx == 0 || (r.attempts.len() > 0 && r.attempts.last().error_class == Some(
            "not_found"@,
        ))) ==> (next(r, EventView::MirrorReady { store_drained: false }).0.call == CallView::Fresh
            && (next(r, EventView::MirrorReady { store_drained: false }).1 matches ActionView::WritePrompt {
            body,
            ..
        } && body == r.full_prompt)),
        (r.idx > 0 && r.attempts.len() > 0 && r.attempts.last().error_class != Some("not_found"@))
            ==> (next(r, EventView::MirrorReady { store_drained: false }).0.call == CallView::Prefix
            && (next(r, EventView::MirrorReady { store_drained: false }).1 matches ActionView::WritePrompt {
            body,
            ..
        } && body == prompt_for_state_spec(
            CallView::Prefix,
            r.suppress,
            r.user_prompt,
            r.full_prompt,
        ) && contains_seq(body, RESUME_CONTINUATION_PROMPT@))),
{
    if r.idx > 0 && r.attempts.len() > 0 && r.attempts.last().error_class != Some("not_found"@) {
        let tail = RESUME_CONTINUATION_PROMPT@ + "\n\n"@ + STEP2_ORIGINAL_PROMPT_BANNER@ + "\n\n"@
            + r.user_prompt;
        let body = prompt_for_state_spec(CallView::Prefix, r.suppress, r.user_prompt, r.full_prompt);
        if r.suppress {
            assert(body.subrange(0, RESUME_CONTINUATION_PROMPT@.len() as int) =~= RESUME_CONTINUATION_PROMPT@);
            assert(occurs_at(body, RESUME_CONTINUATION_PROMPT@, 0));
        } else {
            let k = READONLY_DIRECTIVE@.len() + 2;
            let pre = READONLY_DIRECTIVE@ + "\n\n"@;
            reveal_strlit("\n\n");
            assert(pre.len() == k);
            assert(body =~= pre + tail);
            assert(body.subrange(k as int, (k + RESUME_CONTINUATION_PROMPT@.len()) as int) =~= RESUME_CONTINUATION_PROMPT@);
            assert(occurs_at(body, RESUME_CONTINUATION_PROMPT@, k as int));
        }
    }
}

/// A resumed call resumes the session captured from a call made on the
/// same profile attempt: the resume target is always this attempt's own
/// captured session id.
pub proof fn law_resume_is_own_session(r: RunView, drained: bool)
    requires
        run_wf(r),
        r.phase == Phase::Prompt,
    ensures
        (next(r, EventView::PromptWritten { store_drained: drained }).1 matches ActionView::Call {
            resume: Some(s),
            ..
        } ==> r.profile_sid == Some(s)),
{
}

/// Transient failures are retried at most three times per profile, after
/// 1 s, 3 s and 10 s; a transient failure once the budget is spent skips
/// the alias.
pub proof fn law_transient_backoff(
    r: RunView,
    stderr: Seq<char>,
    sid: Option<Seq<char>>,
    elapsed_ms: u64,
)
    requires
        run_wf(r),
        r.phase == Phase::Calling,
        class_of(str_lowercase(stderr)) == ErrorClass::Transient,
    ensures
        ({
            let a = next(
                r,
                EventView::CallFinished { success: false, stderr, session_id: sid, elapsed_ms },
            ).1;
            &&& r.retries < MAX_TRANSIENT_RETRIES ==> a == ActionView::Sleep {
                ms: backoff_ms(r.retries),
                attempt: r.retries + 1,
            }
            &&& r.retries >= MAX_TRANSIENT_RETRIES ==> a == ActionView::Finish {
                outcome: OutcomeView::Failed {
                    error: ErrView::User(transient_exhausted_msg(r.chain[r.idx])),
                    write_meta: true,
                    signal_drained: false,
                },
            }
        }),
{
}

/// A KeyDead failure deletes exactly the profile that failed; after the
/// delete the run either moves to the next chain entry (with the retry
/// budget reset) or ends.
pub proof fn law_key_dead_deletes_and_advances(
    r: RunView,
    stderr: Seq<char>,
    sid: Option<Seq<char>>,
    elapsed_ms: u64,
    became_empty: bool,
)
    requires
        run_wf(r),
        r.phase == Phase::Calling,
        class_of(str_lowercase(stderr)) == ErrorClass::KeyDead,
    ensures
        ({
            let (r2, a) = next(
                r,
                EventView::CallFinished { success: false, stderr, session_id: sid, elapsed_ms },
            );
            let (r3, a3) = next(r2, EventView::ProfileDeleted { became_empty });
            &&& (a matches ActionView::DeleteProfile { profile, .. } && profile == r.chain[r.idx])
            &&& (became_empty ==> a3 matches ActionView::Finish {
                outcome: OutcomeView::Failed { signal_drained: true, .. },
            })
            &&& !became_empty && r.idx + 1 < r.chain.len() ==> r3.idx == r.idx + 1 && r3.retries
                == 0 && a3 == ActionView::LookupProfile { profile: r.chain[r.idx + 1] }
        }),
{
}

/// A model that is unavailable on the account, or an unrecognised error,
/// skips the alias at once: no further profile is tried.
pub proof fn law_model_unavailable_skips(
    r: RunView,
    stderr: Seq<char>,
    sid: Option<Seq<char>>,
    elapsed_ms: u64,
)
    requires
        run_wf(r),
        r.phase == Phase::Calling,
        class_of(str_lowercase(stderr)) == ErrorClass::ModelUnavailable || class_of(
            str_lowercase(stderr),
        ) == ErrorClass::Unknown,
    ensures
        (next(r, EventView::CallFinished { success: false, stderr, session_id: sid, elapsed_ms }).1
            matches ActionView::Finish { outcome: OutcomeView::Failed { error: ErrView::User(_), .. } }),
{
}

/// A dry run never spawns `cursor-agent`, builds no mirror and deletes no
/// profile: it previews the first chain entry and ends.
pub proof fn law_dry_run_previews_only(r: RunView, found: bool)
    requires
        run_wf(r),
        r.dry_run,
        r.phase == Phase::Lookup,
    ensures
        (next(r, EventView::ProfileLooked { store_drained: false, found }).1 == ActionView::Finish {
            outcome: OutcomeView::DryRun { profile: r.chain[r.idx], found },
        }),
{
}

/// Once a peer alias has drained the credentials store, the next event
/// that reports it ends the run without any further call.
pub proof fn law_drained_stops(r: RunView, e: EventView)
    requires
        run_wf(r),
        expects(r.phase, e),
        (match e {
            EventView::Begin { store_drained, .. } => store_drained,
            EventView::ProfileLooked { store_drained, .. } => store_drained,
            EventView::MirrorReady { store_drained } => store_drained,
            EventView::PromptWritten { store_drained } => store_drained,
            EventView::Slept { store_drained } => store_drained,
            _ => false,
        }),
    ensures
        next(r, e).0.phase == Phase::Done,
        (next(r, e).1 matches ActionView::Finish { outcome: OutcomeView::Failed { .. } }),
{
}

// ---------------------------------------------------------------------
// The executable run
// ---------------------------------------------------------------------

/// One alias's walk over its profile chain.
pub struct FallbackRun {
    alias: String,
    chain: Vec<String>,
    dry_run: bool,
    windows: bool,
    user_prompt: String,
    full_prompt: String,
    suppress: bool,
    phase: Phase,
    idx: usize,
    call: CallState,
    retries: usize,
    profile_sid: Option<String>,
    last_sid: Option<String>,
    sids: Vec<String>,
    attempts: Vec<FallbackAttempt>,
    pending_prompt: String,
    pending_indirect: bool,
}

pub open spec fn strings_view(v: Seq<String>) -> Seq<Seq<char>> {
    v.map_values(|s: String| s@)
}

pub open spec fn attempts_view(v: Seq<FallbackAttempt>) -> Seq<AttemptView> {
    v.map_values(|a: FallbackAttempt| a@)
}

impl View for FallbackRun {
    type V = RunView;

    closed spec fn view(&self) -> RunView {
        RunView {
            alias: self.alias@,
            chain: strings_view(self.chain@),
            dry_run: self.dry_run,
            windows: self.windows,
            user_prompt: self.user_prompt@,
            full_prompt: self.full_prompt@,
            suppress: self.suppress,
            phase: self.phase,
            idx: self.idx as int,
            call: call_view(self.call),
            retries: self.retries as int,
            profile_sid: opt_view(self.profile_sid),
            last_sid: opt_view(self.last_sid),
            sids: strings_view(self.sids@),
            attempts: attempts_view(self.attempts@),
            pending_prompt: self.pending_prompt@,
            pending_indirect: self.pending_indirect,
        }
    }
}

fn copy_call(c: &CallState) -> (r: CallState)
    ensures
        call_view(r) == call_view(*c),
{
    match c {
        CallState::Fresh => CallState::Fresh,
        CallState::FreshWithContinuationPrefix => CallState::FreshWithContinuationPrefix,
        CallState::TransientResume(s) => CallState::TransientResume(s.clone()),
    }
}

fn clone_opt(o: &Option<String>) -> (r: Option<String>)
    ensures
        opt_view(r) == opt_view(*o),
{
    match o {
        Some(s) => Some(s.clone()),
        None => None,
    }
}

fn contains_string(v: &Vec<String>, s: &String) -> (b: bool)
    ensures
        b == strings_view(v@).contains(s@),
{
    let mut i: usize = 0;
    while i < v.len()
        invariant
            i <= v@.len(),
            forall|j: int| 0 <= j < i ==> v@[j]@ != s@,
        decreases v@.len() - i,
    {
        if v[i] == *s {
            assert(strings_view(v@)[i as int] == s@);
            return true;
        }
        i += 1;
    }
    assert forall|j: int| 0 <= j < strings_view(v@).len() implies strings_view(v@)[j] != s@ by {
        assert(strings_view(v@)[j] == v@[j]@);
    }
    false
}

fn cat3(a: &str, b: &str, c: &str) -> (r: String)
    ensures
        r@ == a@ + b@ + c@,
{
    let mut r = String::from_str(a);
    r.append(b);
    r.append(c);
    r
}

fn drained_error(cause: &str) -> (e: A2aError)
    ensures
        e@ == ErrView::Other(drained_msg(cause@)),
{
    let mut m = String::from_str("aborted: ");
    m.append(STORE_DRAINED_MSG);
    m.append(" (");
    m.append(cause);
    m.append(")");
    other_err(m)
}

impl FallbackRun {
    pub open spec fn wf(&self) -> bool {
        run_wf(self@)
    }

    /// A run for `alias` over `chain` with the user's prompt text. The
    /// read-only directive is prepended unless `no_readonly_prefix` is set
    /// or `mode` is `plan`.
    pub fn new(
        alias: String,
        chain: Vec<String>,
        dry_run: bool,
        windows: bool,
        user_prompt: String,
        no_readonly_prefix: bool,
        mode: &str,
    ) -> (r: FallbackRun)
        ensures
            r.wf(),
            r@.phase == Phase::Start,
            r@.alias == alias@,
            r@.chain == strings_view(chain@),
            r@.dry_run == dry_run,
            r@.windows == windows,
            r@.user_prompt == user_prompt@,
            r@.suppress == suppress_readonly_spec(no_readonly_prefix, mode@),
            r@.attempts.len() == 0,
            r@.sids.len() == 0,
            (r@.last_sid is None),
            (r@.call == CallView::Fresh),
    {
        let suppress = suppress_readonly(no_readonly_prefix, mode);
        let full = full_prompt(user_prompt.as_str(), suppress);
        let r = FallbackRun {
            alias,
            chain,
            dry_run,
            windows,
            user_prompt,
            full_prompt: full,
            suppress,
            phase: Phase::Start,
            idx: 0,
            call: CallState::Fresh,
            retries: 0,
            profile_sid: None,
            last_sid: None,
            sids: Vec::new(),
            attempts: Vec::new(),
            pending_prompt: String::new(),
            pending_indirect: false,
        };
        assert(strings_view(r.sids@) =~= Seq::<Seq<char>>::empty());
        r
    }

    /// Does the run wait for this event now?
    pub fn expects(&self, e: &FallbackEvent) -> (b: bool)
        ensures
            b == expects(self@.phase, e@),
    {
        match e {
            FallbackEvent::Begin { .. } => self.phase == Phase::Start,
            FallbackEvent::ProfileLooked { .. } => self.phase == Phase::Lookup,
            FallbackEvent::MirrorReady { .. } => self.phase == Phase::Mirror,
            FallbackEvent::PromptWritten { .. } => self.phase == Phase::Prompt,
            FallbackEvent::CallFinished { .. } => self.phase == Phase::Calling,
            FallbackEvent::Slept { .. } => self.phase == Phase::Backoff,
            FallbackEvent::ProfileDeleted { .. } => self.phase == Phase::Deleting,
        }
    }

    /// The attempts recorded so far (one per profile tried).
    pub fn attempts(&self) -> (a: &Vec<FallbackAttempt>)
        ensures
            attempts_view(a@) == self@.attempts,
    {
        &self.attempts
    }

    /// Every distinct session id seen, in order.
    pub fn session_ids(&self) -> (s: &Vec<String>)
        ensures
            strings_view(s@) == self@.sids,
    {
        &self.sids
    }

    /// The most recent session id.
    pub fn last_session_id(&self) -> (s: &Option<String>)
        ensures
            opt_view(*s) == self@.last_sid,
    {
        &self.last_sid
    }

    /// The profile chain.
    pub fn chain(&self) -> (c: &Vec<String>)
        ensures
            strings_view(c@) == self@.chain,
    {
        &self.chain
    }

    /// The phase the run is in.
    pub fn phase(&self) -> (p: Phase)
        ensures
            p == self@.phase,
    {
        self.phase
    }

    /// The prompt as the user wrote it, behind the directive unless
    /// suppressed (what a dry run previews).
    pub fn full_prompt(&self) -> (s: &String)
        ensures
            s@ == self@.full_prompt,
    {
        &self.full_prompt
    }

    fn finish_failed(&mut self, error: A2aError, write_meta: bool, signal_drained: bool) -> (a:
        FallbackAction)
        ensures
            (final(self)@, a@) == fail(old(self)@, error@, write_meta, signal_drained),
    {
        self.phase = Phase::Done;
        FallbackAction::Finish { outcome: FallbackOutcome::Failed { error, write_meta, signal_drained } }
    }

    fn push_attempt(&mut self, a: FallbackAttempt)
        ensures
            (final(self)@ == (RunView { attempts: old(self)@.attempts.push(a@), ..old(self)@ })),
    {
        self.attempts.push(a);
        assert(attempts_view(self.attempts@) =~= attempts_view(old(self).attempts@).push(a@));
    }

    fn advance(&mut self) -> (a: FallbackAction)
        requires
            old(self).wf(),
            old(self)@.phase != Phase::Start && old(self)@.phase != Phase::Done,
        ensures
            (final(self)@, a@) == advance(old(self)@),
    {
        assert(self@.idx < self@.chain.len());
        assert(strings_view(self.chain@).len() == self.chain@.len());
        let n = self.chain.len();
        if self.idx + 1 < n {
            self.phase = Phase::Lookup;
            self.idx = self.idx + 1;
            self.retries = 0;
            FallbackAction::LookupProfile { profile: self.chain[self.idx].clone() }
        } else {
            let mut m = String::from_str("all profiles in chain failed for model alias '");
            m.append(self.alias.as_str());
            m.append("'");
            self.phase = Phase::Done;
            FallbackAction::Finish {
                outcome: FallbackOutcome::Failed {
                    error: other_err(m),
                    write_meta: true,
                    signal_drained: false,
                },
            }
        }
    }

    fn issue_prompt(&mut self, call: CallState) -> (a: FallbackAction)
        ensures
            (final(self)@, a@) == issue_prompt(old(self)@, call_view(call)),
    {
        let body = build_prompt_for_state(
            &call,
            self.suppress,
            self.user_prompt.as_str(),
            self.full_prompt.as_str(),
        );
        let ind = use_indirect_prompt(
            self.dry_run,
            body.as_str(),
            INLINE_PROMPT_MAX_BYTES,
            self.windows,
        );
        self.phase = Phase::Prompt;
        self.call = call;
        self.pending_prompt = body.clone();
        self.pending_indirect = ind;
        FallbackAction::WritePrompt { body, indirect: ind }
    }

    fn capture_sid(&mut self, sid: &Option<String>)
        requires
            old(self).wf(),
        ensures
            final(self)@ == capture_sid(old(self)@, opt_view(*sid)),
    {
        match sid {
            Some(s) => {
                if !s.as_str().is_empty() {
                    self.profile_sid = Some(s.clone());
                    self.last_sid = Some(s.clone());
                    if !contains_string(&self.sids, s) {
                        self.sids.push(s.clone());
                        assert(strings_view(self.sids@) =~= strings_view(old(self).sids@).push(s@));
                    }
                }
            },
            None => {},
        }
    }

    fn on_begin(&mut self, store_drained: bool, store_empty: bool) -> (a: FallbackAction)
        requires
            old(self).wf(),
            old(self)@.phase == Phase::Start,
        ensures
            (final(self)@, a@) == on_begin(old(self)@, store_drained, store_empty),
    {
        if store_drained {
            let err = drained_error("deleted by a peer alias's KeyDead handler");
            self.finish_failed(err, false, false)
        } else if !self.dry_run && store_empty {
            let err = other_err(
                String::from_str(
                    "no profiles registered in `~/.a2a/credentials.db`; run `a2a auth add <name> [--from-stdin]` first",
                ),
            );
            self.finish_failed(err, false, false)
        } else if self.chain.len() == 0 {
            let m = cat3("all profiles in chain failed for model alias '", self.alias.as_str(), "'");
            self.finish_failed(other_err(m), true, false)
        } else {
            self.phase = Phase::Lookup;
            self.idx = 0;
            self.retries = 0;
            FallbackAction::LookupProfile { profile: self.chain[0].clone() }
        }
    }

    fn on_looked(&mut self, store_drained: bool, found: bool) -> (a: FallbackAction)
        requires
            old(self).wf(),
            old(self)@.phase == Phase::Lookup,
        ensures
            (final(self)@, a@) == on_looked(old(self)@, store_drained, found),
    {
        assert(self@.idx < self@.chain.len());
        assert(strings_view(self.chain@).len() == self.chain@.len());
        let p = self.chain[self.idx].clone();
        if store_drained {
            let err = drained_error("deleted by a peer alias's KeyDead handler");
            self.finish_failed(err, true, false)
        } else if self.dry_run {
            self.push_attempt(
                FallbackAttempt {
                    profile: p.clone(),
                    success: true,
                    error_class: None,
                    error_excerpt: None,
                    elapsed_ms: 0,
                    session_id: None,
                },
            );
            self.phase = Phase::Done;
            FallbackAction::Finish { outcome: FallbackOutcome::DryRun { profile: p, found } }
        } else if !found {
            let msg = cat3("profile '", p.as_str(), "' not found");
            self.push_attempt(
                FallbackAttempt {
                    profile: p,
                    success: false,
                    error_class: Some(String::from_str("not_found")),
                    error_excerpt: Some(msg),
                    elapsed_ms: 0,
                    session_id: None,
                },
            );
            self.advance()
        } else {
            self.phase = Phase::Mirror;
            self.retries = 0;
            self.profile_sid = None;
            FallbackAction::PrepareMirror { profile: p }
        }
    }

    fn on_mirror(&mut self, store_drained: bool) -> (a: FallbackAction)
        requires
            old(self).wf(),
            old(self)@.phase == Phase::Mirror,
        ensures
            (final(self)@, a@) == on_mirror(old(self)@, store_drained),
    {
        if store_drained {
            let err = drained_error("peer alias drained the store while building the readonly mirror");
            self.finish_failed(err, true, false)
        } else {
            let prev_real = if self.attempts.len() > 0 {
                let last = &self.attempts[self.attempts.len() - 1];
                match &last.error_class {
                    Some(c) => {
                        let nf = String::from_str("not_found");
                        !(*c == nf)
                    },
                    None => true,
                }
            } else {
                false
            };
            proof {
                if self.attempts@.len() > 0 {
                    assert(self@.attempts.last() == self.attempts@.last()@);
                }
            }
            let call = if self.idx == 0 || !prev_real {
                CallState::Fresh
            } else {
                CallState::FreshWithContinuationPrefix
            };
            self.issue_prompt(call)
        }
    }

    fn on_prompt(&mut self, store_drained: bool) -> (a: FallbackAction)
        requires
            old(self).wf(),
            old(self)@.phase == Phase::Prompt,
        ensures
            (final(self)@, a@) == on_prompt(old(self)@, store_drained),
    {
        if store_drained {
            let err = drained_error("peer alias drained the store while preparing the prompt");
            self.finish_failed(err, true, false)
        } else {
            assert(self@.idx < self@.chain.len());
        assert(strings_view(self.chain@).len() == self.chain@.len());
            self.phase = Phase::Calling;
            let prompt = if self.pending_indirect {
                String::from_str(INDIRECT_PROMPT_REDIRECT)
            } else {
                self.pending_prompt.clone()
            };
            FallbackAction::Call {
                profile: self.chain[self.idx].clone(),
                prompt,
                resume: self.call.resume_session_id(),
                phase_tag: self.call.phase_tag(),
            }
        }
    }

    #[verifier::rlimit(50)]
    fn on_call(&mut self, success: bool, stderr: String, session_id: Option<String>, elapsed_ms: u64) -> (a: FallbackAction)
        requires
            old(self).wf(),
            old(self)@.phase == Phase::Calling,
        ensures
            (final(self)@, a@) == on_call(old(self)@, success, stderr@, opt_view(session_id), elapsed_ms),
    {
        self.capture_sid(&session_id);
        assert(self@.idx < self@.chain.len());
        assert(strings_view(self.chain@).len() == self.chain@.len());
        let p = self.chain[self.idx].clone();
        if success {
            let sid = clone_opt(&self.profile_sid);
            self.push_attempt(
                FallbackAttempt {
                    profile: p.clone(),
                    success: true,
                    error_class: None,
                    error_excerpt: None,
                    elapsed_ms,
                    session_id: sid,
                },
            );
            self.phase = Phase::Done;
            FallbackAction::Finish { outcome: FallbackOutcome::Succeeded { profile: p } }
        } else {
            let c = classify(stderr.as_str());
            if c == ErrorClass::Transient && self.retries < MAX_TRANSIENT_RETRIES {
                let ms: u64 = if self.retries == 0 {
                    1000
                } else if self.retries == 1 {
                    3000
                } else {
                    10000
                };
                self.phase = Phase::Backoff;
                FallbackAction::Sleep { ms, attempt: self.retries + 1 }
            } else {
                let ex = stderr_excerpt(stderr.as_str(), EXCERPT_LINES);
                let sid = clone_opt(&self.profile_sid);
                self.push_attempt(
                    FallbackAttempt {
                        profile: p.clone(),
                        success: false,
                        error_class: Some(error_class_tag(c)),
                        error_excerpt: Some(ex.clone()),
                        elapsed_ms,
                        session_id: sid,
                    },
                );
                match c {
                    ErrorClass::KeyDead => {
                        self.phase = Phase::Deleting;
                        FallbackAction::DeleteProfile { profile: p, excerpt: ex }
                    },
                    ErrorClass::Transient => {
                        let m = cat3(
                            "skipped: Transient retries exhausted on profile '",
                            p.as_str(),
                            "'",
                        );
                        self.finish_failed(user_err(m), true, false)
                    },
                    _ => {
                        let mut m = String::from_str("skipped: ");
                        m.append(error_class_name(c));
                        m.append(" on profile '");
                        m.append(p.as_str());
                        m.append("'");
                        self.finish_failed(user_err(m), true, false)
                    },
                }
            }
        }
    }

    fn on_slept(&mut self, store_drained: bool) -> (a: FallbackAction)
        requires
            old(self).wf(),
            old(self)@.phase == Phase::Backoff,
        ensures
            (final(self)@, a@) == on_slept(old(self)@, store_drained),
    {
        if store_drained {
            let err = drained_error("peer alias signalled drain during transient backoff");
            self.finish_failed(err, true, false)
        } else {
            self.retries = self.retries + 1;
            let call = match &self.profile_sid {
                Some(s) => CallState::TransientResume(s.clone()),
                None => copy_call(&self.call),
            };
            self.issue_prompt(call)
        }
    }

    fn on_deleted(&mut self, became_empty: bool) -> (a: FallbackAction)
        requires
            old(self).wf(),
            old(self)@.phase == Phase::Deleting,
        ensures
            (final(self)@, a@) == on_deleted(old(self)@, became_empty),
    {
        assert(self@.idx < self@.chain.len());
        assert(strings_view(self.chain@).len() == self.chain@.len());
        let n = self.chain.len();
        let p = self.chain[self.idx].clone();
        if became_empty {
            let cause = cat3("last KeyDead deleted the only remaining profile '", p.as_str(), "'");
            let err = drained_error(cause.as_str());
            self.finish_failed(err, true, true)
        } else if self.idx + 1 >= n {
            let m = cat3(
                "all profiles in chain failed for model alias '",
                self.alias.as_str(),
                "' (last: KeyDead)",
            );
            self.finish_failed(other_err(m), true, false)
        } else {
            self.phase = Phase::Lookup;
            self.idx = self.idx + 1;
            self.retries = 0;
            FallbackAction::LookupProfile { profile: self.chain[self.idx].clone() }
        }
    }

    /// Take one step: apply what happened and say what to do next.
    pub fn step(&mut self, e: FallbackEvent) -> (a: FallbackAction)
        requires
            old(self).wf(),
            expects(old(self)@.phase, e@),
        ensures
            (final(self)@, a@) == next(old(self)@, e@),
            final(self).wf(),
            measure(final(self)@) < measure(old(self)@),
    {
        proof {
            law_step_progress(self@, e@);
        }
        match e {
            FallbackEvent::Begin { store_drained, store_empty } => self.on_begin(store_drained, store_empty),
            FallbackEvent::ProfileLooked { store_drained, found } => self.on_looked(store_drained, found),
            FallbackEvent::MirrorReady { store_drained } => self.on_mirror(store_drained),
            FallbackEvent::PromptWritten { store_drained } => self.on_prompt(store_drained),
            FallbackEvent::CallFinished { success, stderr, session_id, elapsed_ms } => self.on_call(
                success,
                stderr,
                session_id,
                elapsed_ms,
            ),
            FallbackEvent::Slept { store_drained } => self.on_slept(store_drained),
            FallbackEvent::ProfileDeleted { became_empty } => self.on_deleted(became_empty),
        }
    }
}

/// The profile recorded as used in a failure row: the last profile
/// attempted, else the chain's last entry, else empty.
pub open spec fn failure_profile_used_spec(
    attempts: Seq<AttemptView>,
    chain: Seq<Seq<char>>,
) -> Seq<char> {
    if attempts.len() > 0 {
        attempts.last().profile
    } else if chain.len() > 0 {
        chain.last()
    } else {
        seq![]
    }
}

pub fn failure_profile_used(attempts: &Vec<FallbackAttempt>, chain: &Vec<String>) -> (s: String)
    ensures
        s@ == failure_profile_used_spec(attempts_view(attempts@), strings_view(chain@)),
{
    if attempts.len() > 0 {
        attempts[attempts.len() - 1].profile.clone()
    } else if chain.len() > 0 {
        chain[chain.len() - 1].clone()
    } else {
        String::new()
    }
}

} // verus!
