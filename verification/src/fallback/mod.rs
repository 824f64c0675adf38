//! Profile fallback chain and three-class error routing.
//!
//! A `cursor-agent` failure is classified from its stderr by a fixed
//! keyword table (case-insensitive):
//!   - `KeyDead`: account-level failure (401, billing, quota) — the
//!     profile is deleted and the next one in the chain is tried;
//!   - `ModelUnavailable`: the model is not available on this account —
//!     the alias is skipped;
//!   - `Transient`: network / rate-limit — the same profile is retried up
//!     to three times;
//!   - `Unknown`: treated like `ModelUnavailable`.
//!
//! The per-alias run itself is the state machine in [`machine`].
use vstd::prelude::*;
use vstd::string::is_ascii;
use vstd::utf8::{encode_utf8, is_ascii_chars};
use crate::text::{
    ascii_alnum, chars_of, occurs_at, occurs_at_range, contains_seq, eq_range, find_range, is_ascii_alnum,
    line_bounds, lines_seq, push_char, push_range, str_lowercase, to_lowercase,
    trim_at, trim_seq,
};

pub mod machine;
pub mod report;

verus! {

/// Sentinel message used when an alias bails because the credentials
/// store became empty mid-run.
pub const STORE_DRAINED_MSG: &'static str = "credentials store is empty";

/// Short continuation sentence sent when continuing an interrupted session.
pub const RESUME_CONTINUATION_PROMPT: &'static str =
    "Sorry, the previous session was interrupted unexpectedly. Please continue your work.";

/// Separator placed above the original prompt when a fresh prompt is
/// rebuilt with a continuation notice.
pub const STEP2_ORIGINAL_PROMPT_BANNER: &'static str =
    "====================  Original prompt below  ====================";

/// Prepended to every prompt unless suppressed.
pub const READONLY_DIRECTIVE: &'static str = "\
====================  a2a read-only directive  ====================
You are running inside an isolated workspace mirror provided by a2a.
You MUST follow these constraints (please respect them so the user's
project source stays untouched):

1. DO NOT modify any existing file in this workspace.
2. **Your final answer / synthesis / report MUST be printed to stdout
   as your normal model response.**  This is how a2a captures the
   deliverable and shows it to the user.  Do not try to defer the
   answer into a file — your stdout reply IS the deliverable.
3. If your environment also lets you create files, you may
   ADDITIONALLY drop supporting artifacts inside `.a2a/`
   (e.g. `.a2a/notes.md`). The stdout answer is still primary;
   the `.a2a/` files are optional context.
4. NEVER write outside the workspace root. NEVER touch paths starting
   with `..` or absolute paths to system locations.

If your task is a code review and you considered a fix you did not
apply, describe the diff inline in your stdout reply (it is a markdown
response — code blocks are fine).

====================  user prompt below  ==========================
";

/// Redirect text put on the command line when the real prompt was
/// written to `.a2a/_prompt.md`.
pub const INDIRECT_PROMPT_REDIRECT: &'static str = "\
====================  a2a indirect-prompt mode  ====================
The actual task description for this run was too large (or used
non-ASCII characters) to fit safely in the operating-system command
line, so a2a wrote it to a file in your workspace instead.

YOUR FIRST ACTION MUST BE: read the file `.a2a/_prompt.md` (relative
to your workspace root) using your file-read tool. That file is the
canonical, authoritative prompt.

Constraints (also restated inside `_prompt.md`):
- Do NOT edit `.a2a/_prompt.md`.
- Print your final answer to stdout as your normal model response.
  Do not write the answer to any file under `.a2a/`.

After reading `.a2a/_prompt.md`, follow its instructions exactly as
if it had been the original prompt. Begin now by reading the file.
====================================================================
";

/// Three-way classification of a `cursor-agent` failure (plus `Unknown`).
#[derive(Debug, Clone, Copy, PartialEq, Eq, Structural)]
pub enum ErrorClass {
    /// API key-level problem: 401, billing required, quota exceeded.
    KeyDead,
    /// This specific model is not available on this account.
    ModelUnavailable,
    /// Network / rate-limit.
    Transient,
    /// Unrecognised.
    Unknown,
}

// ---------------------------------------------------------------------
// Independent tokens
// ---------------------------------------------------------------------

/// The occurrence of a `len`-long token at `i` is not glued to an ASCII
/// letter or digit on either side (any other character is a boundary).
pub open spec fn token_boundary(s: Seq<char>, i: int, len: int) -> bool {
    &&& (i == 0 || !is_ascii_alnum(s[i - 1]))
    &&& (i + len == s.len() || !is_ascii_alnum(s[i + len]))
}

/// `tok` appears in `s` as an independent token: at some position it
/// occurs surrounded by characters that are not ASCII alphanumeric, or by
/// the string boundary. Every position counts, also one overlapping an
/// occurrence that is glued to a letter or digit.
pub open spec fn has_token(s: Seq<char>, tok: Seq<char>) -> bool {
    exists|i: int| occurs_at(s, tok, i) && #[trigger] token_boundary(s, i, tok.len() as int)
}

/// Returns `true` iff `tok` appears in `s` as an independent token, so
/// that `401` matches in `"status 401"` or `"(401)"` but not in `"4019"`.
pub fn contains_token(s: &str, tok: &str) -> (b: bool)
    ensures
        b == has_token(s@, tok@),
{
    let v = chars_of(s);
    let t = chars_of(tok);
    token_in(&v, &t)
}

fn token_in(v: &Vec<char>, t: &Vec<char>) -> (b: bool)
    ensures
        b == has_token(v@, t@),
{
    let n = v.len();
    if t.len() > n {
        return false;
    }
    let last = n - t.len();
    let mut i: usize = 0;
    loop
        invariant
            n == v@.len(),
            last + t@.len() == n,
            i <= last,
            forall|j: int|
                0 <= j < i ==> !(occurs_at(v@, t@, j) && #[trigger] token_boundary(
                    v@,
                    j,
                    t@.len() as int,
                )),
        decreases last - i,
    {
        assert(v@.subrange(0, n as int) =~= v@);
        if occurs_at_range(v, 0, n, t, i) {
            let left_ok = i == 0 || !ascii_alnum(v[i - 1]);
            let right_ok = i + t.len() == n || !ascii_alnum(v[i + t.len()]);
            if left_ok && right_ok {
                assert(token_boundary(v@, i as int, t@.len() as int));
                return true;
            }
        }
        if i == last {
            assert forall|j: int| occurs_at(v@, t@, j) implies !#[trigger] token_boundary(
                v@,
                j,
                t@.len() as int,
            ) by {
                assert(j <= last);
            }
            return false;
        }
        i += 1;
    }
}

// ---------------------------------------------------------------------
// Classification
// ---------------------------------------------------------------------

pub open spec fn key_dead_words() -> Seq<Seq<char>> {
    seq![
        "unauthorized"@,
        "invalid api key"@,
        "authentication failed"@,
        "billing required"@,
        "payment required"@,
        "payment overdue"@,
        "subscription expired"@,
        "unpaid invoice"@,
        "quota exceeded"@,
        "out of credits"@,
        "monthly limit"@,
        "usage limit"@,
        "insufficient credits"@,
    ]
}

pub open spec fn model_unavailable_words() -> Seq<Seq<char>> {
    seq![
        "model not available"@,
        "no access to model"@,
        "cannot use this model"@,
        "model access denied"@,
    ]
}

pub open spec fn transient_words() -> Seq<Seq<char>> {
    seq![
        "rate limit"@,
        "too many requests"@,
        "timed out"@,
        "timeout"@,
        "connection refused"@,
        "connection reset"@,
        "tls"@,
        "dns"@,
        "failed to reach the cursor api"@,
    ]
}

/// Some word of `words` occurs in `s`.
pub open spec fn mentions_any(s: Seq<char>, words: Seq<Seq<char>>) -> bool {
    exists|k: int| 0 <= k < words.len() && contains_seq(s, #[trigger] words[k])
}

/// Classification of already lower-cased stderr text. KeyDead is checked
/// first, then ModelUnavailable, then Transient.
pub open spec fn class_of(s: Seq<char>) -> ErrorClass {
    if mentions_any(s, key_dead_words()) || has_token(s, "401"@) {
        ErrorClass::KeyDead
    } else if mentions_any(s, model_unavailable_words()) {
        ErrorClass::ModelUnavailable
    } else if mentions_any(s, transient_words()) || has_token(s, "429"@) {
        ErrorClass::Transient
    } else {
        ErrorClass::Unknown
    }
}

fn mentions(v: &Vec<char>, words: &Vec<&str>) -> (b: bool)
    ensures
        b == mentions_any(v@, words@.map_values(|w: &str| w@)),
{
    let ghost ws = words@.map_values(|w: &str| w@);
    let mut k: usize = 0;
    while k < words.len()
        invariant
            ws == words@.map_values(|w: &str| w@),
            k <= words@.len(),
            forall|j: int| 0 <= j < k ==> !contains_seq(v@, #[trigger] ws[j]),
        decreases words@.len() - k,
    {
        let w = chars_of(words[k]);
        if find_range(v, 0, v.len(), &w).is_some() {
            assert(v@.subrange(0, v@.len() as int) =~= v@);
            assert(contains_seq(v@, ws[k as int]));
            return true;
        }
        assert(v@.subrange(0, v@.len() as int) =~= v@);
        k += 1;
    }
    false
}

/// Classify already lower-cased stderr text.
pub fn classify_lowered(s: &str) -> (c: ErrorClass)
    ensures
        c == class_of(s@),
{
    let v = chars_of(s);
    let key_dead: Vec<&str> = vec![
        "unauthorized",
        "invalid api key",
        "authentication failed",
        "billing required",
        "payment required",
        "payment overdue",
        "subscription expired",
        "unpaid invoice",
        "quota exceeded",
        "out of credits",
        "monthly limit",
        "usage limit",
        "insufficient credits",
    ];
    assert(key_dead@.map_values(|w: &str| w@) =~= key_dead_words());
    let t401 = chars_of("401");
    if mentions(&v, &key_dead) || token_in(&v, &t401) {
        return ErrorClass::KeyDead;
    }
    let model_unavailable: Vec<&str> = vec![
        "model not available",
        "no access to model",
        "cannot use this model",
        "model access denied",
    ];
    assert(model_unavailable@.map_values(|w: &str| w@) =~= model_unavailable_words());
    if mentions(&v, &model_unavailable) {
        return ErrorClass::ModelUnavailable;
    }
    let transient: Vec<&str> = vec![
        "rate limit",
        "too many requests",
        "timed out",
        "timeout",
        "connection refused",
        "connection reset",
        "tls",
        "dns",
        "failed to reach the cursor api",
    ];
    assert(transient@.map_values(|w: &str| w@) =~= transient_words());
    let t429 = chars_of("429");
    if mentions(&v, &transient) || token_in(&v, &t429) {
        return ErrorClass::Transient;
    }
    ErrorClass::Unknown
}

/// Classify `cursor-agent` stderr (case-insensitive keyword match).
/// Stdout is never consulted, so model output cannot steer routing.
pub fn classify(stderr: &str) -> (c: ErrorClass)
    ensures
        c == class_of(str_lowercase(stderr@)),
{
    let lowered = to_lowercase(stderr);
    classify_lowered(lowered.as_str())
}

/// `tok` stands at `i` in `s` with no ASCII letter or digit right before
/// or right after it.
pub open spec fn stands_alone(s: Seq<char>, tok: Seq<char>, i: int) -> bool {
    &&& occurs_at(s, tok, i)
    &&& (i == 0 || !is_ascii_alnum(s[i - 1]))
    &&& (i + tok.len() == s.len() || !is_ascii_alnum(s[i + tok.len()]))
}

/// A token counts exactly where it occurs with no ASCII letter or digit
/// glued to it on either side: `401` counts in `status 401` and `(401)`,
/// never in `1401` or `4019`.
pub proof fn law_token_stands_alone(s: Seq<char>, tok: Seq<char>)
    ensures
        has_token(s, tok) <==> exists|i: int| #[trigger] stands_alone(s, tok, i),
{
    if has_token(s, tok) {
        let i = choose|i: int| occurs_at(s, tok, i) && #[trigger] token_boundary(s, i, tok.len() as int);
        assert(stands_alone(s, tok, i));
    }
    if exists|i: int| #[trigger] stands_alone(s, tok, i) {
        let i = choose|i: int| #[trigger] stands_alone(s, tok, i);
        assert(occurs_at(s, tok, i) && token_boundary(s, i, tok.len() as int));
    }
}

/// The account-level failures: any of these phrases, or `401` standing
/// alone, in the lower-cased stderr.
pub open spec fn says_key_dead(s: Seq<char>) -> bool {
    contains_seq(s, "unauthorized"@)
            || contains_seq(s, "invalid api key"@)
            || contains_seq(s, "authentication failed"@)
            || contains_seq(s, "billing required"@)
            || contains_seq(s, "payment required"@)
            || contains_seq(s, "payment overdue"@)
            || contains_seq(s, "subscription expired"@)
            || contains_seq(s, "unpaid invoice"@)
            || contains_seq(s, "quota exceeded"@)
            || contains_seq(s, "out of credits"@)
            || contains_seq(s, "monthly limit"@)
            || contains_seq(s, "usage limit"@)
            || contains_seq(s, "insufficient credits"@)
            || (exists|i: int| #[trigger] stands_alone(s, "401"@, i))
}

pub open spec fn says_model_unavailable(s: Seq<char>) -> bool {
    contains_seq(s, "model not available"@)
            || contains_seq(s, "no access to model"@)
            || contains_seq(s, "cannot use this model"@)
            || contains_seq(s, "model access denied"@)
}

pub open spec fn says_transient(s: Seq<char>) -> bool {
    contains_seq(s, "rate limit"@)
            || contains_seq(s, "too many requests"@)
            || contains_seq(s, "timed out"@)
            || contains_seq(s, "timeout"@)
            || contains_seq(s, "connection refused"@)
            || contains_seq(s, "connection reset"@)
            || contains_seq(s, "tls"@)
            || contains_seq(s, "dns"@)
            || contains_seq(s, "failed to reach the cursor api"@)
            || (exists|i: int| #[trigger] stands_alone(s, "429"@, i))
}

/// How lower-cased stderr is routed, in terms of the phrases themselves:
/// an account-level phrase (or a lone `401`) makes it KeyDead whatever
/// else it says; otherwise a model-access phrase makes it
/// ModelUnavailable; otherwise a network or rate-limit phrase (or a lone
/// `429`) makes it Transient; anything else is Unknown.
pub proof fn law_classification_by_phrases(s: Seq<char>)
    ensures
        says_key_dead(s) ==> class_of(s) == ErrorClass::KeyDead,
        !says_key_dead(s) && says_model_unavailable(s) ==> class_of(s) == ErrorClass::ModelUnavailable,
        !says_key_dead(s) && !says_model_unavailable(s) && says_transient(s) ==> class_of(s)
            == ErrorClass::Transient,
        !says_key_dead(s) && !says_model_unavailable(s) && !says_transient(s) ==> class_of(s)
            == ErrorClass::Unknown,
{
    law_token_stands_alone(s, "401"@);
    law_token_stands_alone(s, "429"@);
    if contains_seq(s, "unauthorized"@) { assert(key_dead_words()[0] == "unauthorized"@); assert(contains_seq(s, key_dead_words()[0])); }
    if contains_seq(s, "invalid api key"@) { assert(key_dead_words()[1] == "invalid api key"@); assert(contains_seq(s, key_dead_words()[1])); }
    if contains_seq(s, "authentication failed"@) { assert(key_dead_words()[2] == "authentication failed"@); assert(contains_seq(s, key_dead_words()[2])); }
    if contains_seq(s, "billing required"@) { assert(key_dead_words()[3] == "billing required"@); assert(contains_seq(s, key_dead_words()[3])); }
    if contains_seq(s, "payment required"@) { assert(key_dead_words()[4] == "payment required"@); assert(contains_seq(s, key_dead_words()[4])); }
    if contains_seq(s, "payment overdue"@) { assert(key_dead_words()[5] == "payment overdue"@); assert(contains_seq(s, key_dead_words()[5])); }
    if contains_seq(s, "subscription expired"@) { assert(key_dead_words()[6] == "subscription expired"@); assert(contains_seq(s, key_dead_words()[6])); }
    if contains_seq(s, "unpaid invoice"@) { assert(key_dead_words()[7] == "unpaid invoice"@); assert(contains_seq(s, key_dead_words()[7])); }
    if contains_seq(s, "quota exceeded"@) { assert(key_dead_words()[8] == "quota exceeded"@); assert(contains_seq(s, key_dead_words()[8])); }
    if contains_seq(s, "out of credits"@) { assert(key_dead_words()[9] == "out of credits"@); assert(contains_seq(s, key_dead_words()[9])); }
    if contains_seq(s, "monthly limit"@) { assert(key_dead_words()[10] == "monthly limit"@); assert(contains_seq(s, key_dead_words()[10])); }
    if contains_seq(s, "usage limit"@) { assert(key_dead_words()[11] == "usage limit"@); assert(contains_seq(s, key_dead_words()[11])); }
    if contains_seq(s, "insufficient credits"@) { assert(key_dead_words()[12] == "insufficient credits"@); assert(contains_seq(s, key_dead_words()[12])); }
    if contains_seq(s, "model not available"@) { assert(model_unavailable_words()[0] == "model not available"@); assert(contains_seq(s, model_unavailable_words()[0])); }
    if contains_seq(s, "no access to model"@) { assert(model_unavailable_words()[1] == "no access to model"@); assert(contains_seq(s, model_unavailable_words()[1])); }
    if contains_seq(s, "cannot use this model"@) { assert(model_unavailable_words()[2] == "cannot use this model"@); assert(contains_seq(s, model_unavailable_words()[2])); }
    if contains_seq(s, "model access denied"@) { assert(model_unavailable_words()[3] == "model access denied"@); assert(contains_seq(s, model_unavailable_words()[3])); }
    if contains_seq(s, "rate limit"@) { assert(transient_words()[0] == "rate limit"@); assert(contains_seq(s, transient_words()[0])); }
    if contains_seq(s, "too many requests"@) { assert(transient_words()[1] == "too many requests"@); assert(contains_seq(s, transient_words()[1])); }
    if contains_seq(s, "timed out"@) { assert(transient_words()[2] == "timed out"@); assert(contains_seq(s, transient_words()[2])); }
    if contains_seq(s, "timeout"@) { assert(transient_words()[3] == "timeout"@); assert(contains_seq(s, transient_words()[3])); }
    if contains_seq(s, "connection refused"@) { assert(transient_words()[4] == "connection refused"@); assert(contains_seq(s, transient_words()[4])); }
    if contains_seq(s, "connection reset"@) { assert(transient_words()[5] == "connection reset"@); assert(contains_seq(s, transient_words()[5])); }
    if contains_seq(s, "tls"@) { assert(transient_words()[6] == "tls"@); assert(contains_seq(s, transient_words()[6])); }
    if contains_seq(s, "dns"@) { assert(transient_words()[7] == "dns"@); assert(contains_seq(s, transient_words()[7])); }
    if contains_seq(s, "failed to reach the cursor api"@) { assert(transient_words()[8] == "failed to reach the cursor api"@); assert(contains_seq(s, transient_words()[8])); }
    if mentions_any(s, key_dead_words()) {
        let k = choose|k: int| 0 <= k < key_dead_words().len() && contains_seq(s, #[trigger] key_dead_words()[k]);
        if k == 0 { assert(key_dead_words()[0] == "unauthorized"@); }
        if k == 1 { assert(key_dead_words()[1] == "invalid api key"@); }
        if k == 2 { assert(key_dead_words()[2] == "authentication failed"@); }
        if k == 3 { assert(key_dead_words()[3] == "billing required"@); }
        if k == 4 { assert(key_dead_words()[4] == "payment required"@); }
        if k == 5 { assert(key_dead_words()[5] == "payment overdue"@); }
        if k == 6 { assert(key_dead_words()[6] == "subscription expired"@); }
        if k == 7 { assert(key_dead_words()[7] == "unpaid invoice"@); }
        if k == 8 { assert(key_dead_words()[8] == "quota exceeded"@); }
        if k == 9 { assert(key_dead_words()[9] == "out of credits"@); }
        if k == 10 { assert(key_dead_words()[10] == "monthly limit"@); }
        if k == 11 { assert(key_dead_words()[11] == "usage limit"@); }
        if k == 12 { assert(key_dead_words()[12] == "insufficient credits"@); }
    }
    if mentions_any(s, model_unavailable_words()) {
        let k = choose|k: int| 0 <= k < model_unavailable_words().len() && contains_seq(s, #[trigger] model_unavailable_words()[k]);
        if k == 0 { assert(model_unavailable_words()[0] == "model not available"@); }
        if k == 1 { assert(model_unavailable_words()[1] == "no access to model"@); }
        if k == 2 { assert(model_unavailable_words()[2] == "cannot use this model"@); }
        if k == 3 { assert(model_unavailable_words()[3] == "model access denied"@); }
    }
    if mentions_any(s, transient_words()) {
        let k = choose|k: int| 0 <= k < transient_words().len() && contains_seq(s, #[trigger] transient_words()[k]);
        if k == 0 { assert(transient_words()[0] == "rate limit"@); }
        if k == 1 { assert(transient_words()[1] == "too many requests"@); }
        if k == 2 { assert(transient_words()[2] == "timed out"@); }
        if k == 3 { assert(transient_words()[3] == "timeout"@); }
        if k == 4 { assert(transient_words()[4] == "connection refused"@); }
        if k == 5 { assert(transient_words()[5] == "connection reset"@); }
        if k == 6 { assert(transient_words()[6] == "tls"@); }
        if k == 7 { assert(transient_words()[7] == "dns"@); }
        if k == 8 { assert(transient_words()[8] == "failed to reach the cursor api"@); }
    }
}

/// The same routing for raw stderr, which is lower-cased first: for
/// instance any stderr whose lower-cased text contains `unauthorized`
/// is KeyDead.
pub proof fn law_classify_raw_stderr(stderr: Seq<char>)
    ensures
        says_key_dead(str_lowercase(stderr)) ==> class_of(str_lowercase(stderr))
            == ErrorClass::KeyDead,
        contains_seq(str_lowercase(stderr), "unauthorized"@) ==> class_of(str_lowercase(stderr))
            == ErrorClass::KeyDead,
{
    law_classification_by_phrases(str_lowercase(stderr));
}

/// The lowercase name of a class as recorded in `meta.toml`.
pub open spec fn class_tag(c: ErrorClass) -> Seq<char> {
    match c {
        ErrorClass::KeyDead => "keydead"@,
        ErrorClass::ModelUnavailable => "modelunavailable"@,
        ErrorClass::Transient => "transient"@,
        ErrorClass::Unknown => "unknown"@,
    }
}

pub fn error_class_tag(c: ErrorClass) -> (s: String)
    ensures
        s@ == class_tag(c),
{
    match c {
        ErrorClass::KeyDead => String::from_str("keydead"),
        ErrorClass::ModelUnavailable => String::from_str("modelunavailable"),
        ErrorClass::Transient => String::from_str("transient"),
        ErrorClass::Unknown => String::from_str("unknown"),
    }
}

/// The class name as `{:?}` prints it.
pub open spec fn class_name(c: ErrorClass) -> Seq<char> {
    match c {
        ErrorClass::KeyDead => "KeyDead"@,
        ErrorClass::ModelUnavailable => "ModelUnavailable"@,
        ErrorClass::Transient => "Transient"@,
        ErrorClass::Unknown => "Unknown"@,
    }
}

pub fn error_class_name(c: ErrorClass) -> (s: &'static str)
    ensures
        s@ == class_name(c),
{
    match c {
        ErrorClass::KeyDead => "KeyDead",
        ErrorClass::ModelUnavailable => "ModelUnavailable",
        ErrorClass::Transient => "Transient",
        ErrorClass::Unknown => "Unknown",
    }
}

// ---------------------------------------------------------------------
// Call states and prompt bodies
// ---------------------------------------------------------------------

/// What the next `cursor-agent` call within one profile attempt sends.
#[derive(Debug)]
pub enum CallState {
    /// First call for this profile; full prompt, no resume.
    Fresh,
    /// The previous profile died (a different account): fresh prompt with
    /// a continuation prefix, never a cross-account resume.
    FreshWithContinuationPrefix,
    /// Transient retry on the same profile: resume the session captured
    /// from this profile's own previous call.
    TransientResume(String),
}

/// The plain meaning of a [`CallState`].
pub enum CallView {
    Fresh,
    Prefix,
    Resume(Seq<char>),
}

pub open spec fn call_view(s: CallState) -> CallView {
    match s {
        CallState::Fresh => CallView::Fresh,
        CallState::FreshWithContinuationPrefix => CallView::Prefix,
        CallState::TransientResume(id) => CallView::Resume(id@),
    }
}

pub open spec fn resume_of_view(c: CallView) -> Option<Seq<char>> {
    match c {
        CallView::Resume(id) => Some(id),
        _ => None,
    }
}

pub open spec fn phase_tag_of_view(c: CallView) -> Seq<char> {
    match c {
        CallView::Fresh => "fresh"@,
        CallView::Prefix => "fresh with continuation prefix"@,
        CallView::Resume(_) => "resume after transient"@,
    }
}

pub open spec fn resume_of(s: CallState) -> Option<Seq<char>> {
    match s {
        CallState::TransientResume(id) => Some(id@),
        _ => None,
    }
}

pub open spec fn phase_tag_of(s: CallState) -> Seq<char> {
    match s {
        CallState::Fresh => "fresh"@,
        CallState::FreshWithContinuationPrefix => "fresh with continuation prefix"@,
        CallState::TransientResume(_) => "resume after transient"@,
    }
}

impl CallState {
    /// The session to `--resume`, if any.
    pub fn resume_session_id(&self) -> (r: Option<String>)
        ensures
            match r {
                Some(id) => resume_of(*self) == Some(id@),
                None => resume_of(*self) is None,
            },
    {
        match self {
            CallState::TransientResume(s) => Some(s.clone()),
            _ => None,
        }
    }

    /// Human-readable phase tag for progress logging.
    pub fn phase_tag(&self) -> (t: &'static str)
        ensures
            t@ == phase_tag_of(*self),
    {
        match self {
            CallState::Fresh => "fresh",
            CallState::FreshWithContinuationPrefix => "fresh with continuation prefix",
            CallState::TransientResume(_) => "resume after transient",
        }
    }
}

/// The prompt sent to every fresh call: the user's prompt, behind the
/// read-only directive unless it is suppressed.
pub open spec fn full_prompt_spec(user_prompt: Seq<char>, suppress_readonly: bool) -> Seq<char> {
    if suppress_readonly {
        user_prompt
    } else {
        READONLY_DIRECTIVE@ + "\n\n"@ + user_prompt
    }
}

pub fn full_prompt(user_prompt: &str, suppress_readonly: bool) -> (r: String)
    ensures
        r@ == full_prompt_spec(user_prompt@, suppress_readonly),
{
    if suppress_readonly {
        String::from_str(user_prompt)
    } else {
        let mut r = String::from_str(READONLY_DIRECTIVE);
        r.append("\n\n");
        r.append(user_prompt);
        r
    }
}

/// The read-only directive is suppressed when the user asked for it, or
/// when the mode is `plan` (already read-only in `cursor-agent`).
pub open spec fn suppress_readonly_spec(no_readonly_prefix: bool, mode: Seq<char>) -> bool {
    no_readonly_prefix || mode == "plan"@
}

pub fn suppress_readonly(no_readonly_prefix: bool, mode: &str) -> (b: bool)
    ensures
        b == suppress_readonly_spec(no_readonly_prefix, mode@),
{
    if no_readonly_prefix {
        return true;
    }
    let m = chars_of(mode);
    let plan = chars_of("plan");
    assert(m@.subrange(0, m@.len() as int) =~= m@);
    eq_range(&m, 0, m.len(), &plan)
}

/// The prompt body for a call in state `state`.
pub open spec fn prompt_for_state_spec(
    state: CallView,
    suppress_readonly: bool,
    user_prompt: Seq<char>,
    full: Seq<char>,
) -> Seq<char> {
    match state {
        CallView::Fresh => full,
        CallView::Resume(_) => RESUME_CONTINUATION_PROMPT@,
        CallView::Prefix => {
            let tail = RESUME_CONTINUATION_PROMPT@ + "\n\n"@ + STEP2_ORIGINAL_PROMPT_BANNER@
                + "\n\n"@ + user_prompt;
            if suppress_readonly {
                tail
            } else {
                READONLY_DIRECTIVE@ + "\n\n"@ + tail
            }
        },
    }
}

/// Build the prompt body for a given call state.
pub fn build_prompt_for_state(
    state: &CallState,
    suppress_readonly: bool,
    user_prompt: &str,
    full_prompt_with_directive: &str,
) -> (r: String)
    ensures
        r@ == prompt_for_state_spec(
            call_view(*state),
            suppress_readonly,
            user_prompt@,
            full_prompt_with_directive@,
        ),
{
    match state {
        CallState::Fresh => String::from_str(full_prompt_with_directive),
        CallState::TransientResume(_) => String::from_str(RESUME_CONTINUATION_PROMPT),
        CallState::FreshWithContinuationPrefix => {
            let mut r = String::new();
            if !suppress_readonly {
                r.append(READONLY_DIRECTIVE);
                r.append("\n\n");
            }
            r.append(RESUME_CONTINUATION_PROMPT);
            r.append("\n\n");
            r.append(STEP2_ORIGINAL_PROMPT_BANNER);
            r.append("\n\n");
            r.append(user_prompt);
            proof {
                let tail = RESUME_CONTINUATION_PROMPT@ + "\n\n"@ + STEP2_ORIGINAL_PROMPT_BANNER@
                    + "\n\n"@ + user_prompt@;
                if suppress_readonly {
                    assert(r@ =~= tail);
                } else {
                    assert(r@ =~= READONLY_DIRECTIVE@ + "\n\n"@ + tail);
                }
            }
            r
        },
    }
}

/// Indirect-prompt mode triggers on size, or on Windows when the body
/// holds a non-ASCII byte; never in a dry run.
pub open spec fn use_indirect_spec(
    dry_run: bool,
    body_bytes: nat,
    max_bytes: nat,
    windows: bool,
    body_ascii: bool,
) -> bool {
    !dry_run && (body_bytes > max_bytes || (windows && !body_ascii))
}

/// The UTF-8 length of `s` as `str::len` reports it.
pub open spec fn byte_len(s: Seq<char>) -> nat {
    (encode_utf8(s).len() as usize) as nat
}

pub fn use_indirect_prompt(dry_run: bool, body: &str, max_bytes: u64, windows: bool) -> (b: bool)
    ensures
        b == use_indirect_spec(
            dry_run,
            byte_len(body@),
            max_bytes as nat,
            windows,
            is_ascii_chars(body@),
        ),
{
    if dry_run {
        return false;
    }
    let len = body.len();
    if len as u64 > max_bytes {
        return true;
    }
    let ascii = body.is_ascii();
    assert(ascii == is_ascii(body));
    windows && !ascii
}

// ---------------------------------------------------------------------
// stderr excerpt
// ---------------------------------------------------------------------

pub open spec fn is_blank(l: Seq<char>) -> bool {
    trim_seq(l).len() == 0
}

/// Lines of `s` that are not blank.
pub open spec fn nonblank_lines(s: Seq<char>) -> Seq<Seq<char>> {
    lines_seq(s).filter(nonblank())
}

pub open spec fn nonblank() -> spec_fn(Seq<char>) -> bool {
    |l: Seq<char>| !is_blank(l)
}

/// Lines joined with `\n` between them.
pub open spec fn join_lines(ls: Seq<Seq<char>>) -> Seq<char>
    decreases ls.len(),
{
    if ls.len() == 0 {
        seq![]
    } else if ls.len() == 1 {
        ls[0]
    } else {
        join_lines(ls.drop_last()) + seq!['\n'] + ls.last()
    }
}

/// The last `n` non-blank lines of `s`, joined with `\n`.
pub open spec fn excerpt_spec(s: Seq<char>, n: nat) -> Seq<char> {
    let ls = nonblank_lines(s);
    let keep = if n < ls.len() { n } else { ls.len() };
    join_lines(ls.skip(ls.len() - keep))
}

/// Take the last `n` non-empty lines of stderr for display.
pub fn stderr_excerpt(stderr: &str, n: usize) -> (r: String)
    ensures
        r@ == excerpt_spec(stderr@, n as nat),
{
    let v = chars_of(stderr);
    let bounds = line_bounds(&v, 0, v.len());
    assert(v@.subrange(0, v@.len() as int) =~= v@);
    let ghost ls = lines_seq(v@);
    // Keep the non-blank lines.
    let mut kept: Vec<(usize, usize)> = Vec::new();
    let mut k: usize = 0;
    while k < bounds.len()
        invariant
            ls == lines_seq(v@),
            bounds@.len() == ls.len(),
            forall|j: int|
                0 <= j < bounds@.len() ==> (#[trigger] bounds@[j]).0 <= bounds@[j].1 <= v@.len()
                    && v@.subrange(bounds@[j].0 as int, bounds@[j].1 as int) == ls[j],
            k <= bounds@.len(),
            forall|j: int| 0 <= j < kept@.len() ==> (#[trigger] kept@[j]).0 <= kept@[j].1 <= v@.len(),
            kept@.map_values(|x: (usize, usize)| v@.subrange(x.0 as int, x.1 as int)) == ls.take(
                k as int,
            ).filter(nonblank()),
        decreases bounds@.len() - k,
    {
        let (a, b) = bounds[k];
        let (ta, tb) = trim_at(&v, a, b);
        let ghost old_kept = kept@;
        if ta < tb {
            kept.push((a, b));
        }
        proof {
            assert(ls.take(k + 1).drop_last() =~= ls.take(k as int));
            assert(ls.take(k + 1).last() == ls[k as int]);
            assert(nonblank()(ls[k as int]) == (ta < tb));
            let t1 = ls.take(k + 1);
            assert(t1.len() > 0);
            reveal(Seq::filter);
            assert(t1.filter(nonblank()) == if nonblank()(t1.last()) {
                t1.drop_last().filter(nonblank()).push(t1.last())
            } else {
                t1.drop_last().filter(nonblank())
            });
            if ta < tb {
                assert(kept@.map_values(|x: (usize, usize)| v@.subrange(x.0 as int, x.1 as int))
                    =~= old_kept.map_values(|x: (usize, usize)| v@.subrange(x.0 as int, x.1 as int)).push(
                    ls[k as int],
                ));
            }
        }
        k += 1;
    }
    assert(ls.take(bounds@.len() as int) =~= ls);
    let ghost nb = nonblank_lines(v@);
    let total = kept.len();
    let keep = if n < total { n } else { total };
    let start = total - keep;
    let mut out = String::new();
    let mut i = start;
    while i < total
        invariant
            total == kept@.len(),
            start <= i <= total,
            nb == kept@.map_values(|x: (usize, usize)| v@.subrange(x.0 as int, x.1 as int)),
            forall|j: int| 0 <= j < kept@.len() ==> (#[trigger] kept@[j]).0 <= kept@[j].1 <= v@.len(),
            out@ == join_lines(nb.subrange(start as int, i as int)),
        decreases total - i,
    {
        let (a, b) = kept[i];
        let ghost before = out@;
        if i > start {
            push_char(&mut out, '\n');
        }
        push_range(&mut out, &v, a, b);
        proof {
            let sub = nb.subrange(start as int, i + 1);
            assert(sub.drop_last() =~= nb.subrange(start as int, i as int));
            assert(sub.last() == nb[i as int]);
            if i > start {
                assert(out@ =~= join_lines(sub.drop_last()) + seq!['\n'] + sub.last());
            } else {
                assert(sub.len() == 1);
                assert(out@ =~= sub[0]);
            }
        }
        i += 1;
    }
    assert(nb.subrange(start as int, total as int) =~= nb.skip(nb.len() - keep));
    out
}

} // verus!
