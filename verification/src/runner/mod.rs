//! Orchestration rules of `a2a ask`: which aliases and profiles run,
//! in what mode, where the answers go, what the budget estimate says and
//! how the run's outcome is reported.
use vstd::prelude::*;
use crate::{A2aError, ErrView, other_err, user_err};
use crate::auth::store::{ModelAlias, Profile};
use crate::paths::{PathComponent, has_parent_segment, path_components, path_is_absolute, rooted, simple_path};
use crate::text::{
    chars_of, contains_str, decimal, is_ascii_alnum, ascii_alnum, push_decimal, push_string,
    str_eq, strings_view, trim_at, trim_seq,
};

pub mod cursor_agent;
pub mod doctor;
pub mod history;
pub mod meta;

verus! {

/// One `a2a ask` invocation.
pub struct AskRequest {
    pub project_root: String,
    pub topic: String,
    pub prompt_file: String,
    /// `--models`; `None` runs the first-added alias.
    pub models: Option<Vec<String>>,
    /// `--profiles`: the profile chain; `None` uses the default profile.
    pub profiles: Option<Vec<String>>,
    pub dry_run: bool,
    pub budget_only: bool,
    /// Do not prepend the read-only directive.
    pub no_readonly_prefix: bool,
    /// `--mode agent|plan` for every alias; `None` uses each alias's
    /// `default_mode`.
    pub mode: Option<String>,
    /// `--sandbox enabled|disabled` passthrough.
    pub sandbox: Option<String>,
    /// Record character counts in `meta.toml`.
    pub log_budget: bool,
}

// ---------------------------------------------------------------------
// Names
// ---------------------------------------------------------------------

pub open spec fn is_topic_char(c: char) -> bool {
    is_ascii_alnum(c) || c == '-' || c == '_' || c == '(' || c == ')'
}

/// Topic slugs become a directory-name fragment; `( )` are allowed so
/// topics can mirror profile naming.
pub open spec fn topic_slug_ok(s: Seq<char>) -> bool {
    s.len() > 0 && forall|i: int| 0 <= i < s.len() ==> is_topic_char(#[trigger] s[i])
}

pub open spec fn is_alias_char(c: char) -> bool {
    is_ascii_alnum(c) || c == '-' || c == '_'
}

/// Model aliases must round-trip through `a2a models add`, which
/// rejects `( )`.
pub open spec fn alias_strict_ok(s: Seq<char>) -> bool {
    s.len() > 0 && forall|i: int| 0 <= i < s.len() ==> is_alias_char(#[trigger] s[i])
}

pub fn validate_topic_slug(slug: &str) -> (b: bool)
    ensures
        b == topic_slug_ok(slug@),
{
    let v = chars_of(slug);
    if v.len() == 0 {
        return false;
    }
    let mut i: usize = 0;
    while i < v.len()
        invariant
            i <= v@.len(),
            v@ == slug@,
            forall|j: int| 0 <= j < i ==> is_topic_char(#[trigger] v@[j]),
        decreases v@.len() - i,
    {
        let c = v[i];
        if !(ascii_alnum(c) || c == '-' || c == '_' || c == '(' || c == ')') {
            assert(!is_topic_char(v@[i as int]));
            return false;
        }
        i += 1;
    }
    true
}

pub fn validate_alias_strict(alias: &str) -> (b: bool)
    ensures
        b == alias_strict_ok(alias@),
{
    let v = chars_of(alias);
    if v.len() == 0 {
        return false;
    }
    let mut i: usize = 0;
    while i < v.len()
        invariant
            i <= v@.len(),
            v@ == alias@,
            forall|j: int| 0 <= j < i ==> is_alias_char(#[trigger] v@[j]),
        decreases v@.len() - i,
    {
        let c = v[i];
        if !(ascii_alnum(c) || c == '-' || c == '_') {
            assert(!is_alias_char(v@[i as int]));
            return false;
        }
        i += 1;
    }
    true
}

// ---------------------------------------------------------------------
// Lists without repeats
// ---------------------------------------------------------------------

/// The list with every repeat of an earlier entry dropped.
pub open spec fn dedup_spec(s: Seq<Seq<char>>) -> Seq<Seq<char>>
    decreases s.len(),
{
    if s.len() == 0 {
        seq![]
    } else {
        let d = dedup_spec(s.drop_last());
        if d.contains(s.last()) {
            d
        } else {
            d.push(s.last())
        }
    }
}

/// Dropping repeats keeps one copy of every entry and nothing else.
pub proof fn law_dedup_keeps_each_once(s: Seq<Seq<char>>)
    ensures
        dedup_spec(s).no_duplicates(),
        forall|x: Seq<char>| #[trigger] dedup_spec(s).contains(x) <==> s.contains(x),
    decreases s.len(),
{
    if s.len() > 0 {
        let s0 = s.drop_last();
        law_dedup_keeps_each_once(s0);
        let d = dedup_spec(s0);
        assert forall|x: Seq<char>| #[trigger] dedup_spec(s).contains(x) <==> s.contains(x) by {
            if s.contains(x) {
                let k = choose|k: int| 0 <= k < s.len() && s[k] == x;
                if k < s.len() - 1 {
                    assert(s0[k] == x);
                    assert(s0.contains(x));
                }
            }
            if s0.contains(x) {
                let k = choose|k: int| 0 <= k < s0.len() && s0[k] == x;
                assert(s[k] == x);
            }
            if !d.contains(s.last()) {
                let dp = d.push(s.last());
                assert(dp[dp.len() - 1] == s.last());
                if d.contains(x) {
                    let k = choose|k: int| 0 <= k < d.len() && d[k] == x;
                    assert(dp[k] == x);
                }
                if dp.contains(x) {
                    let k = choose|k: int| 0 <= k < dp.len() && dp[k] == x;
                    if k < d.len() {
                        assert(d[k] == x);
                    }
                }
            }
            assert(s[s.len() - 1] == s.last());
        }
        if !d.contains(s.last()) {
            let dp = d.push(s.last());
            assert forall|i: int, j: int| 0 <= i < dp.len() && 0 <= j < dp.len() && i != j implies dp[i]
                != dp[j] by {
                if i == dp.len() - 1 && j < d.len() {
                    assert(d[j] == dp[j]);
                }
                if j == dp.len() - 1 && i < d.len() {
                    assert(d[i] == dp[i]);
                }
            }
        }
    }
}

/// `list` with repeats dropped, first occurrences kept in order.
pub fn dedup_names(list: &Vec<String>) -> (r: Vec<String>)
    ensures
        strings_view(r@) == dedup_spec(strings_view(list@)),
{
    let mut r: Vec<String> = Vec::new();
    let mut i: usize = 0;
    while i < list.len()
        invariant
            i <= list@.len(),
            strings_view(r@) == dedup_spec(strings_view(list@).take(i as int)),
        decreases list@.len() - i,
    {
        let m = list[i].as_str();
        proof {
            let t = strings_view(list@).take(i + 1);
            assert(t.drop_last() =~= strings_view(list@).take(i as int));
            assert(t.last() == m@);
        }
        if !contains_str(&r, m) {
            push_string(&mut r, m);
        }
        i += 1;
    }
    assert(strings_view(list@).take(list@.len() as int) =~= strings_view(list@));
    r
}

// ---------------------------------------------------------------------
// Which aliases run
// ---------------------------------------------------------------------

pub open spec fn no_alias_msg() -> Seq<char> {
    "no model aliases configured. Run `a2a models add <alias> --model <cursor-id>` to register one, then re-run this command (with or without `--models`)."@
}

pub open spec fn bad_alias_msg(m: Seq<char>) -> Seq<char> {
    "model alias must be alphanumeric / '-' / '_' (got '"@ + m
        + "'). Run `a2a models list` to see configured aliases."@
}

pub open spec fn bad_topic_msg(t: Seq<char>) -> Seq<char> {
    "topic slug must be alphanumeric / '-' / '_' / '(' / ')': "@ + t
}

/// `--models` when given and not empty.
pub open spec fn requested_spec(models: Option<Seq<Seq<char>>>) -> Option<Seq<Seq<char>>> {
    match models {
        Some(v) => if v.len() > 0 {
            Some(v)
        } else {
            None
        },
        None => None,
    }
}

pub open spec fn opt_strings_view(o: Option<Vec<String>>) -> Option<Seq<Seq<char>>> {
    match o {
        Some(v) => Some(strings_view(v@)),
        None => None,
    }
}

/// The `--models` list, when one was given with at least one alias.
/// Otherwise the caller looks up the first-added alias.
pub fn requested_models(models: &Option<Vec<String>>) -> (r: Option<Vec<String>>)
    ensures
        opt_strings_view(r) == requested_spec(opt_strings_view(*models)),
{
    match models {
        Some(v) => if v.len() > 0 {
            Some(v.clone())
        } else {
            None
        },
        None => None,
    }
}

/// Without `--models`, only the first-added alias runs; with no alias
/// registered at all the user is told how to add one.
pub fn default_models(first_alias: Option<String>) -> (r: Result<Vec<String>, A2aError>)
    ensures
        match first_alias {
            Some(a) => r matches Ok(v) && strings_view(v@) == seq![a@],
            None => r matches Err(e) && e@ == ErrView::User(no_alias_msg()),
        },
{
    match first_alias {
        Some(a) => {
            let mut v: Vec<String> = Vec::new();
            v.push(a);
            assert(strings_view(v@) =~= seq![first_alias->0@]);
            Ok(v)
        },
        None => Err(
            user_err(
                String::from_str(
                    "no model aliases configured. Run `a2a models add <alias> --model <cursor-id>` to register one, then re-run this command (with or without `--models`).",
                ),
            ),
        ),
    }
}

/// The first alias, in order, that fails the strict rule.
pub open spec fn first_invalid_alias(s: Seq<Seq<char>>) -> Option<Seq<char>>
    decreases s.len(),
{
    if s.len() == 0 {
        None
    } else {
        match first_invalid_alias(s.drop_last()) {
            Some(x) => Some(x),
            None => if alias_strict_ok(s.last()) {
                None
            } else {
                Some(s.last())
            },
        }
    }
}

/// The aliases that run: each is checked in order, repeats are dropped,
/// then the topic is checked.
pub open spec fn checked_models_spec(raw: Seq<Seq<char>>, topic: Seq<char>) -> Result<
    Seq<Seq<char>>,
    ErrView,
> {
    match first_invalid_alias(raw) {
        Some(m) => Err(ErrView::User(bad_alias_msg(m))),
        None => if !topic_slug_ok(topic) {
            Err(ErrView::User(bad_topic_msg(topic)))
        } else {
            Ok(dedup_spec(raw))
        },
    }
}

pub fn check_models(raw: &Vec<String>, topic: &str) -> (r: Result<Vec<String>, A2aError>)
    ensures
        match checked_models_spec(strings_view(raw@), topic@) {
            Ok(v) => r matches Ok(x) && strings_view(x@) == v,
            Err(e) => r matches Err(x) && x@ == e,
        },
{
    let mut i: usize = 0;
    while i < raw.len()
        invariant
            i <= raw@.len(),
            first_invalid_alias(strings_view(raw@).take(i as int)) is None,
        decreases raw@.len() - i,
    {
        let m = raw[i].as_str();
        proof {
            let t = strings_view(raw@).take(i + 1);
            assert(t.drop_last() =~= strings_view(raw@).take(i as int));
            assert(t.last() == m@);
        }
        if !validate_alias_strict(m) {
            let mut msg = String::from_str("model alias must be alphanumeric / '-' / '_' (got '");
            msg.append(m);
            msg.append("'). Run `a2a models list` to see configured aliases.");
            proof {
                let t = strings_view(raw@).take(i + 1);
                let n = raw@.len() as int;
                lemma_first_invalid_sticks(strings_view(raw@), i + 1, n);
                assert(strings_view(raw@).take(n) =~= strings_view(raw@));
            }
            return Err(user_err(msg));
        }
        i += 1;
    }
    assert(strings_view(raw@).take(raw@.len() as int) =~= strings_view(raw@));
    if !validate_topic_slug(topic) {
        let mut msg = String::from_str("topic slug must be alphanumeric / '-' / '_' / '(' / ')': ");
        msg.append(topic);
        return Err(user_err(msg));
    }
    Ok(dedup_names(raw))
}

/// Once a prefix has an invalid alias, every longer prefix reports the
/// same one.
proof fn lemma_first_invalid_sticks(s: Seq<Seq<char>>, m: int, n: int)
    requires
        0 <= m <= n <= s.len(),
        first_invalid_alias(s.take(m)) is Some,
    ensures
        first_invalid_alias(s.take(n)) == first_invalid_alias(s.take(m)),
    decreases n - m,
{
    if m < n {
        lemma_first_invalid_sticks(s, m, n - 1);
        assert(s.take(n).drop_last() =~= s.take(n - 1));
    }
}

proof fn lemma_first_invalid_none(s: Seq<Seq<char>>)
    requires
        first_invalid_alias(s) is None,
    ensures
        forall|i: int| 0 <= i < s.len() ==> alias_strict_ok(#[trigger] s[i]),
    decreases s.len(),
{
    if s.len() > 0 {
        lemma_first_invalid_none(s.drop_last());
        assert forall|i: int| 0 <= i < s.len() implies alias_strict_ok(#[trigger] s[i]) by {
            if i < s.len() - 1 {
                assert(s.drop_last()[i] == s[i]);
            }
        }
    }
}

/// The aliases a run uses are all valid names, each taken from the
/// request, each used once.
pub proof fn law_checked_models_valid_and_distinct(raw: Seq<Seq<char>>, topic: Seq<char>)
    ensures
        checked_models_spec(raw, topic) matches Ok(v) ==> {
            &&& v.no_duplicates()
            &&& forall|i: int| 0 <= i < v.len() ==> alias_strict_ok(#[trigger] v[i]) && raw.contains(v[i])
        },
{
    if first_invalid_alias(raw) is None {
        lemma_first_invalid_none(raw);
        law_dedup_keeps_each_once(raw);
        let v = dedup_spec(raw);
        assert forall|i: int| 0 <= i < v.len() implies alias_strict_ok(#[trigger] v[i]) && raw.contains(
            v[i],
        ) by {
            assert(v.contains(v[i]));
            assert(raw.contains(v[i]));
            let k = choose|k: int| 0 <= k < raw.len() && raw[k] == v[i];
            assert(alias_strict_ok(raw[k]));
        }
    }
}

/// The default profile, when one is found, is a registered profile.
pub proof fn law_default_profile_is_registered(meta_default: Option<Seq<char>>, ps: Seq<Profile>)
    ensures
        default_profile_spec(meta_default, ps) matches Ok(n) ==> profile_names(ps).contains(n),
{
    if !(meta_default is Some && profile_names(ps).contains(meta_default->0)) && !profile_names(
        ps,
    ).contains("default"@) && ps.len() > 0 {
        lemma_earliest_in_range(ps);
        let k = earliest_index(ps);
        assert(profile_names(ps)[k] == ps[k].name@);
    }
}

/// How a run ends: a drained credential store is a business failure
/// whatever else happened; otherwise one success makes the run succeed
/// (missing answers are only warned about), and all-failed is a
/// business failure.
pub proof fn law_run_outcome(
    succeeded: nat,
    failed: nat,
    drained: bool,
    dry_run: bool,
    consult_dir: Seq<char>,
)
    ensures
        drained ==> ask_summary_spec(succeeded, failed, drained, dry_run, consult_dir).1 == Err::<(), ErrView>(
            ErrView::Business(drained_msg()),
        ),
        !drained && succeeded > 0 ==> ask_summary_spec(succeeded, failed, drained, dry_run, consult_dir).1 is Ok,
        !drained && succeeded == 0 && failed > 0 ==> ask_summary_spec(
            succeeded,
            failed,
            drained,
            dry_run,
            consult_dir,
        ).1 == Err::<(), ErrView>(ErrView::Business(all_failed_msg(failed, consult_dir))),
{
}

// ---------------------------------------------------------------------
// Which profiles run
// ---------------------------------------------------------------------

/// `--profiles` with repeats dropped, when it names at least one
/// profile; `None` means the default profile is used alone.
pub fn explicit_chain(profiles: &Option<Vec<String>>) -> (r: Option<Vec<String>>)
    ensures
        opt_strings_view(r) == match requested_spec(opt_strings_view(*profiles)) {
            Some(v) => Some(dedup_spec(v)),
            None => None,
        },
{
    match profiles {
        Some(v) => if v.len() > 0 {
            Some(dedup_names(v))
        } else {
            None
        },
        None => None,
    }
}

pub open spec fn profile_names(ps: Seq<Profile>) -> Seq<Seq<char>> {
    ps.map_values(|p: Profile| p.name@)
}

/// Index of the earliest-created profile; among equal times the first
/// in list order.
pub open spec fn earliest_index(ps: Seq<Profile>) -> int
    decreases ps.len(),
{
    if ps.len() <= 1 {
        0
    } else {
        let k = earliest_index(ps.drop_last());
        if ps.last().created_at < ps[k].created_at {
            ps.len() - 1
        } else {
            k
        }
    }
}

proof fn lemma_earliest_in_range(ps: Seq<Profile>)
    requires
        ps.len() > 0,
    ensures
        0 <= earliest_index(ps) < ps.len(),
        forall|j: int|
            0 <= j < ps.len() ==> ps[earliest_index(ps)].created_at <= #[trigger] ps[j].created_at,
        forall|j: int|
            0 <= j < earliest_index(ps) ==> ps[earliest_index(ps)].created_at < #[trigger] ps[j].created_at,
    decreases ps.len(),
{
    if ps.len() > 1 {
        let p0 = ps.drop_last();
        lemma_earliest_in_range(p0);
        let k = earliest_index(p0);
        assert forall|j: int| 0 <= j < p0.len() implies #[trigger] ps[j] == p0[j] by {}
        assert(ps[k] == p0[k]);
    }
}

pub open spec fn no_profiles_msg() -> Seq<char> {
    "no profiles registered in `~/.a2a/credentials.db`. Run `a2a auth add` to register an API key first."@
}

/// The profile used when `--profiles` is omitted: the stored default
/// when it names an existing profile, else a profile named `default`,
/// else the earliest-registered profile; none at all is a user error.
pub open spec fn default_profile_spec(meta_default: Option<Seq<char>>, ps: Seq<Profile>) -> Result<
    Seq<char>,
    ErrView,
> {
    if meta_default is Some && profile_names(ps).contains(meta_default->0) {
        Ok(meta_default->0)
    } else if profile_names(ps).contains("default"@) {
        Ok("default"@)
    } else if ps.len() == 0 {
        Err(ErrView::User(no_profiles_msg()))
    } else {
        Ok(ps[earliest_index(ps)].name@)
    }
}

fn has_profile(ps: &Vec<Profile>, name: &str) -> (b: bool)
    ensures
        b == profile_names(ps@).contains(name@),
{
    let mut i: usize = 0;
    while i < ps.len()
        invariant
            i <= ps@.len(),
            forall|j: int| 0 <= j < i ==> ps@[j].name@ != name@,
        decreases ps@.len() - i,
    {
        if str_eq(ps[i].name.as_str(), name) {
            assert(profile_names(ps@)[i as int] == name@);
            return true;
        }
        i += 1;
    }
    assert(!profile_names(ps@).contains(name@)) by {
        if profile_names(ps@).contains(name@) {
            let k = choose|k: int| 0 <= k < profile_names(ps@).len() && profile_names(ps@)[k] == name@;
            assert(ps@[k].name@ == name@);
        }
    }
    false
}

/// Resolve the default profile from the stored `default_profile` and
/// the registered profiles.
pub fn resolve_default_profile(meta_default: Option<String>, profiles: &Vec<Profile>) -> (r: Result<
    String,
    A2aError,
>)
    ensures
        match default_profile_spec(
            match meta_default {
                Some(s) => Some(s@),
                None => None,
            },
            profiles@,
        ) {
            Ok(n) => r matches Ok(x) && x@ == n,
            Err(e) => r matches Err(x) && x@ == e,
        },
{
    match &meta_default {
        Some(p) => {
            if has_profile(profiles, p.as_str()) {
                return Ok(p.clone());
            }
        },
        None => {},
    }
    proof {
        reveal_strlit("default");
    }
    if has_profile(profiles, "default") {
        return Ok(String::from_str("default"));
    }
    if profiles.len() == 0 {
        return Err(
            user_err(
                String::from_str(
                    "no profiles registered in `~/.a2a/credentials.db`. Run `a2a auth add` to register an API key first.",
                ),
            ),
        );
    }
    let mut k: usize = 0;
    let mut i: usize = 1;
    while i < profiles.len()
        invariant
            1 <= i <= profiles@.len(),
            k == earliest_index(profiles@.take(i as int)),
            k < i,
        decreases profiles@.len() - i,
    {
        proof {
            let t = profiles@.take(i + 1);
            assert(t.drop_last() =~= profiles@.take(i as int));
            assert(t.last() == profiles@[i as int]);
            assert(t[k as int] == profiles@[k as int]);
        }
        if profiles[i].created_at < profiles[k].created_at {
            k = i;
        }
        i += 1;
    }
    assert(profiles@.take(profiles@.len() as int) =~= profiles@);
    Ok(profiles[k].name.clone())
}

// ---------------------------------------------------------------------
// Mode and alias rows
// ---------------------------------------------------------------------

/// The mode an alias runs in: `--mode` when given and not empty, else
/// the alias's trimmed `default_mode` when not empty, else `agent`.
pub open spec fn effective_mode_spec(cli_mode: Option<Seq<char>>, default_mode: Seq<char>) -> Seq<char> {
    match cli_mode {
        Some(m) if m.len() > 0 => m,
        _ => if trim_seq(default_mode).len() > 0 {
            trim_seq(default_mode)
        } else {
            "agent"@
        },
    }
}

pub fn effective_mode(cli_mode: &Option<String>, default_mode: &str) -> (r: String)
    ensures
        r@ == effective_mode_spec(
            match cli_mode {
                Some(m) => Some(m@),
                None => None,
            },
            default_mode@,
        ),
{
    match cli_mode {
        Some(m) => {
            if m.as_str().unicode_len() > 0 {
                return m.clone();
            }
        },
        None => {},
    }
    let v = chars_of(default_mode);
    let (a, b) = trim_at(&v, 0, v.len());
    assert(v@.subrange(0, v@.len() as int) =~= default_mode@);
    if a < b {
        crate::text::string_of(&v, a, b)
    } else {
        String::from_str("agent")
    }
}

pub open spec fn unknown_alias_msg(a: Seq<char>) -> Seq<char> {
    "unknown model alias: "@ + a
        + " (run `a2a models list` to see registered aliases; run `a2a models add "@ + a
        + " --model <cursor-id>` to register one)"@
}

pub open spec fn empty_model_msg(a: Seq<char>) -> Seq<char> {
    "model alias '"@ + a + "' has empty cursor_model \u{2014} re-add it with `a2a models add "@ + a
        + " --model <cursor-id> --force`"@
}

/// The stored row of an alias that is about to run: an unknown alias or
/// one with a blank `cursor_model` is refused.
pub fn check_alias_row(alias: &str, row: Option<ModelAlias>) -> (r: Result<ModelAlias, A2aError>)
    ensures
        match row {
            None => r matches Err(e) && e@ == ErrView::User(unknown_alias_msg(alias@)),
            Some(m) => if trim_seq(m.cursor_model@).len() == 0 {
                r matches Err(e) && e@ == ErrView::User(empty_model_msg(alias@))
            } else {
                r == Ok::<ModelAlias, A2aError>(m)
            },
        },
{
    match row {
        None => {
            let mut msg = String::from_str("unknown model alias: ");
            msg.append(alias);
            msg.append(" (run `a2a models list` to see registered aliases; run `a2a models add ");
            msg.append(alias);
            msg.append(" --model <cursor-id>` to register one)");
            Err(user_err(msg))
        },
        Some(m) => {
            let v = chars_of(m.cursor_model.as_str());
            let (a, b) = trim_at(&v, 0, v.len());
            assert(v@.subrange(0, v@.len() as int) =~= m.cursor_model@);
            if a == b {
                let mut msg = String::from_str("model alias '");
                msg.append(alias);
                msg.append("' has empty cursor_model \u{2014} re-add it with `a2a models add ");
                msg.append(alias);
                msg.append(" --model <cursor-id> --force`");
                Err(user_err(msg))
            } else {
                Ok(m)
            }
        },
    }
}

// ---------------------------------------------------------------------
// Path checks
// ---------------------------------------------------------------------

pub open spec fn empty_path_msg(what: Seq<char>) -> Seq<char> {
    what + " cannot be empty"@
}

pub open spec fn absolute_path_msg(what: Seq<char>, value: Seq<char>) -> Seq<char> {
    what + " must be a project-relative path (got absolute: '"@ + value + "')"@
}

pub open spec fn parent_path_msg(what: Seq<char>, value: Seq<char>) -> Seq<char> {
    what + " must not contain parent-directory traversal (got '"@ + value + "')"@
}

pub open spec fn rooted_path_msg(what: Seq<char>, value: Seq<char>) -> Seq<char> {
    what + " must be a project-relative path (got '"@ + value + "')"@
}

/// The first component, in order, that is `..`, a prefix or a root.
pub open spec fn first_bad_component(cs: Seq<PathComponent>) -> Option<PathComponent>
    decreases cs.len(),
{
    if cs.len() == 0 {
        None
    } else {
        match first_bad_component(cs.drop_last()) {
            Some(c) => Some(c),
            None => match cs.last() {
                PathComponent::ParentDir | PathComponent::Prefix | PathComponent::RootDir => Some(
                    cs.last(),
                ),
                _ => None,
            },
        }
    }
}

/// A path-shaped setting must stay inside the project: not empty, not
/// absolute, and no `..`, prefix or root component. `is_absolute` and
/// `components` describe `value` as the platform parses it.
pub open spec fn path_shape_spec(
    value: Seq<char>,
    what: Seq<char>,
    is_absolute: bool,
    components: Seq<PathComponent>,
) -> Result<(), ErrView> {
    if value.len() == 0 {
        Err(ErrView::User(empty_path_msg(what)))
    } else if is_absolute {
        Err(ErrView::User(absolute_path_msg(what, value)))
    } else {
        match first_bad_component(components) {
            Some(PathComponent::ParentDir) => Err(ErrView::User(parent_path_msg(what, value))),
            Some(_) => Err(ErrView::User(rooted_path_msg(what, value))),
            None => Ok(()),
        }
    }
}

pub fn check_path_shape(
    value: &str,
    what: &str,
    is_absolute: bool,
    components: &Vec<PathComponent>,
) -> (r: Result<(), A2aError>)
    ensures
        match path_shape_spec(value@, what@, is_absolute, components@) {
            Ok(()) => r is Ok,
            Err(e) => r matches Err(x) && x@ == e,
        },
{
    if value.unicode_len() == 0 {
        let mut m = String::from_str(what);
        m.append(" cannot be empty");
        return Err(user_err(m));
    }
    if is_absolute {
        let mut m = String::from_str(what);
        m.append(" must be a project-relative path (got absolute: '");
        m.append(value);
        m.append("')");
        return Err(user_err(m));
    }
    let mut i: usize = 0;
    while i < components.len()
        invariant
            i <= components@.len(),
            value@.len() != 0,
            !is_absolute,
            first_bad_component(components@.take(i as int)) is None,
        decreases components@.len() - i,
    {
        let c = components[i];
        proof {
            let t = components@.take(i + 1);
            assert(t.drop_last() =~= components@.take(i as int));
            assert(t.last() == c);
        }
        match c {
            PathComponent::ParentDir => {
                proof {
                    lemma_first_bad_sticks(components@, i + 1, components@.len() as int);
                    assert(components@.take(components@.len() as int) =~= components@);
                }
                let mut m = String::from_str(what);
                m.append(" must not contain parent-directory traversal (got '");
                m.append(value);
                m.append("')");
                return Err(user_err(m));
            },
            PathComponent::Prefix | PathComponent::RootDir => {
                proof {
                    lemma_first_bad_sticks(components@, i + 1, components@.len() as int);
                    assert(components@.take(components@.len() as int) =~= components@);
                }
                let mut m = String::from_str(what);
                m.append(" must be a project-relative path (got '");
                m.append(value);
                m.append("')");
                return Err(user_err(m));
            },
            _ => {},
        }
        i += 1;
    }
    assert(components@.take(components@.len() as int) =~= components@);
    Ok(())
}

proof fn lemma_first_bad_sticks(s: Seq<PathComponent>, m: int, n: int)
    requires
        0 <= m <= n <= s.len(),
        first_bad_component(s.take(m)) is Some,
    ensures
        first_bad_component(s.take(n)) == first_bad_component(s.take(m)),
    decreases n - m,
{
    if m < n {
        lemma_first_bad_sticks(s, m, n - 1);
        assert(s.take(n).drop_last() =~= s.take(n - 1));
    }
}

/// No component is `..`, a prefix or the root exactly when
/// [`first_bad_component`] finds none.
proof fn lemma_first_bad_none(cs: Seq<PathComponent>)
    ensures
        (first_bad_component(cs) is None) <==> (!cs.contains(PathComponent::ParentDir)
            && !cs.contains(PathComponent::Prefix) && !cs.contains(PathComponent::RootDir)),
    decreases cs.len(),
{
    if cs.len() > 0 {
        let d = cs.drop_last();
        lemma_first_bad_none(d);
        assert(cs =~= d.push(cs.last()));
        assert forall|c: PathComponent| cs.contains(c) <==> (d.contains(c) || c == cs.last()) by {
            if cs.contains(c) {
                let k = choose|k: int| 0 <= k < cs.len() && cs[k] == c;
                if k < d.len() {
                    assert(d[k] == c);
                }
            }
            if d.contains(c) {
                let k = choose|k: int| 0 <= k < d.len() && d[k] == c;
                assert(cs[k] == c);
            }
            if c == cs.last() {
                assert(cs[cs.len() - 1] == c);
            }
        }
    }
}

/// Refuse a path-shaped setting that could leave the project. The shape
/// of `value` comes from the platform's path parser. For a simple path
/// (no `\\`, no `:`, not starting with `//`), which every platform
/// splits at `/` alone, the setting is accepted exactly when it does not
/// start with `/` and none of its segments is `..`.
pub fn validate_project_relative(value: &str, what: &str) -> (r: Result<(), A2aError>)
    ensures
        value@.len() == 0 ==> (r matches Err(e) && e@ == ErrView::User(empty_path_msg(what@))),
        value@.len() > 0 && simple_path(value@) ==> (r is Ok <==> (!rooted(value@)
            && !has_parent_segment(value@))),
        exists|a: bool, cs: Seq<PathComponent>|
            match #[trigger] path_shape_spec(value@, what@, a, cs) {
                Ok(()) => r is Ok,
                Err(e) => r matches Err(x) && x@ == e,
            },
{
    let a = path_is_absolute(value);
    let cs = path_components(value);
    let r = check_path_shape(value, what, a, &cs);
    assert(match path_shape_spec(value@, what@, a, cs@) {
        Ok(()) => r is Ok,
        Err(e) => r matches Err(x) && x@ == e,
    });
    proof {
        lemma_first_bad_none(cs@);
    }
    r
}

/// A context entry may be read only when it is relative and has no `..`
/// component.
pub open spec fn entry_syntax_ok_spec(is_absolute: bool, components: Seq<PathComponent>) -> bool {
    !is_absolute && !components.contains(PathComponent::ParentDir)
}

pub fn entry_shape_ok(is_absolute: bool, components: &Vec<PathComponent>) -> (b: bool)
    ensures
        b == entry_syntax_ok_spec(is_absolute, components@),
{
    if is_absolute {
        return false;
    }
    let mut i: usize = 0;
    while i < components.len()
        invariant
            i <= components@.len(),
            forall|j: int| 0 <= j < i ==> components@[j] != PathComponent::ParentDir,
        decreases components@.len() - i,
    {
        if components[i] == PathComponent::ParentDir {
            assert(components@[i as int] == PathComponent::ParentDir);
            return false;
        }
        i += 1;
    }
    true
}

/// Whether a declared context entry is syntactically acceptable, as
/// the platform parses it. For a simple path (no `\\`, no `:`, not
/// starting with `//`) an entry with a `..` segment is refused and one
/// that neither starts with `/` nor has a `..` segment is accepted, on
/// every platform. An entry starting with `/` is absolute on Unix only,
/// so its fate is the platform's.
pub fn entry_syntax_ok(entry: &str) -> (b: bool)
    ensures
        simple_path(entry@) && has_parent_segment(entry@) ==> !b,
        simple_path(entry@) && !rooted(entry@) && !has_parent_segment(entry@) ==> b,
{
    let a = path_is_absolute(entry);
    let cs = path_components(entry);
    entry_shape_ok(a, &cs)
}

/// The directory names never walked into when mirroring or counting a
/// declared directory.
pub open spec fn skip_dir_spec(name: Seq<char>) -> bool {
    name == "target"@ || name == "node_modules"@ || name == ".git"@ || name == ".a2a"@ || name
        == "consultations"@
}

pub fn is_skipped_dir(name: &str) -> (b: bool)
    ensures
        b == skip_dir_spec(name@),
{
    str_eq(name, "target") || str_eq(name, "node_modules") || str_eq(name, ".git") || str_eq(
        name,
        ".a2a",
    ) || str_eq(name, "consultations")
}

/// A file larger than this is left out of the budget estimate.
pub const MAX_BUDGET_FILE_BYTES: u64 = 4194304;

/// The characters a file adds to the budget estimate: none when its size
/// is known and over the cap, or when it could not be read.
pub fn budget_file_chars(size: Option<u64>, chars: Option<u64>) -> (r: u64)
    ensures
        r == match size {
            Some(n) if n > MAX_BUDGET_FILE_BYTES => 0,
            _ => match chars {
                Some(c) => c,
                None => 0,
            },
        },
{
    match size {
        Some(n) => if n > MAX_BUDGET_FILE_BYTES {
            return 0;
        },
        None => {},
    }
    match chars {
        Some(c) => c,
        None => 0,
    }
}

/// The first canonical ancestor: `canon[i]` is the canonical form of
/// the `i`-th path on the walk from the leaf up to the root, when it
/// could be formed.
pub open spec fn deepest_spec(canon: Seq<Option<Seq<char>>>, display: Seq<char>) -> Result<
    Seq<char>,
    ErrView,
>
    decreases canon.len(),
{
    if canon.len() == 0 {
        Err(
            ErrView::User(
                "could not canonicalize any ancestor of "@ + display
                    + " (filesystem in unexpected state)"@,
            ),
        )
    } else {
        match canon[0] {
            Some(c) => Ok(c),
            None => deepest_spec(canon.drop_first(), display),
        }
    }
}

/// Pick the deepest ancestor that exists, walking from the leaf toward
/// the root.
pub fn deepest_canonical_ancestor(canon: &Vec<Option<String>>, display: &str) -> (r: Result<
    String,
    A2aError,
>)
    ensures
        match deepest_spec(canon@.map_values(|o: Option<String>| crate::runner::meta::opt_view(o)), display@) {
            Ok(c) => r matches Ok(x) && x@ == c,
            Err(e) => r matches Err(x) && x@ == e,
        },
{
    let ghost cv = canon@.map_values(|o: Option<String>| crate::runner::meta::opt_view(o));
    assert(cv.skip(0) =~= cv);
    let mut i: usize = 0;
    while i < canon.len()
        invariant
            i <= canon@.len(),
            cv == canon@.map_values(|o: Option<String>| crate::runner::meta::opt_view(o)),
            deepest_spec(cv, display@) == deepest_spec(cv.skip(i as int), display@),
        decreases canon@.len() - i,
    {
        proof {
            assert(cv.skip(i as int).drop_first() =~= cv.skip(i + 1));
            assert(cv.skip(i as int)[0] == cv[i as int]);
        }
        match &canon[i] {
            Some(c) => {
                return Ok(c.clone());
            },
            None => {},
        }
        i += 1;
    }
    let mut m = String::from_str("could not canonicalize any ancestor of ");
    m.append(display);
    m.append(" (filesystem in unexpected state)");
    Err(user_err(m))
}

pub open spec fn output_escapes_msg(anchor: Seq<char>, project: Seq<char>) -> Seq<char> {
    "consultations output root resolves to "@ + anchor + " which escapes the project root "@
        + project
        + " (an existing ancestor is a symlink/junction pointing outside the project). Refusing to write outside the project."@
}

/// `ask` refuses to write answers when the deepest existing ancestor of
/// the consultations directory (`anchor`) resolves outside the canonical
/// project root; `inside` says whether it lies under it.
pub fn check_output_inside(inside: bool, anchor: &str, project: &str) -> (r: Result<(), A2aError>)
    ensures
        inside ==> r is Ok,
        !inside ==> (r matches Err(e) && e@ == ErrView::User(output_escapes_msg(anchor@, project@))),
{
    if inside {
        return Ok(());
    }
    let mut m = String::from_str("consultations output root resolves to ");
    m.append(anchor);
    m.append(" which escapes the project root ");
    m.append(project);
    m.append(
        " (an existing ancestor is a symlink/junction pointing outside the project). Refusing to write outside the project.",
    );
    Err(user_err(m))
}

// ---------------------------------------------------------------------
// The consultation directory
// ---------------------------------------------------------------------

/// `std::time::UNIX_EPOCH.elapsed()`: the whole seconds and the
/// nanoseconds past them since the Unix epoch, read from the system
/// clock; `None` when the clock reads before the epoch. The clock
/// decides the value; `Duration::subsec_nanos` is always below one
/// billion.
#[verifier::external_body]
fn unix_time_now() -> (r: Option<(u64, u32)>)
    ensures
        r matches Some(t) ==> t.1 < 1_000_000_000,
{
    std::time::UNIX_EPOCH.elapsed().ok().map(|d| (d.as_secs(), d.subsec_nanos()))
}

/// `DateTime::<Utc>::from_timestamp(secs, nanos)` rendered as
/// `%Y%m%d-%H%M%S`; `None` outside chrono's range.
pub uninterp spec fn utc_stamp_text(secs: int, nanos: int) -> Option<Seq<char>>;

/// `chrono::DateTime::<Utc>::from_timestamp(secs, nanos)` formatted with
/// `%Y%m%d-%H%M%S`. The rendering is a function of the arguments alone
/// (UTC, no local zone); `None` when they are outside chrono's range.
#[verifier::external_body]
fn format_utc_stamp(secs: i64, nanos: u32) -> (r: Option<String>)
    ensures
        crate::runner::meta::opt_view(r) == utc_stamp_text(secs as int, nanos as int),
{
    chrono::DateTime::<chrono::Utc>::from_timestamp(secs, nanos).map(
        |d| d.format("%Y%m%d-%H%M%S").to_string(),
    )
}

/// The current time as its `%Y%m%d-%H%M%S` UTC rendering and the
/// milliseconds past the second; `None` when the clock reads before the
/// epoch or beyond what the rendering covers.
fn utc_now_stamp() -> (r: Option<(String, u32)>)
    ensures
        r matches Some(t) ==> exists|secs: int, nanos: int|
            0 <= nanos < 1_000_000_000 && t.1 == nanos / 1_000_000 && #[trigger] utc_stamp_text(
                secs,
                nanos,
            ) == Some(t.0@),
{
    match unix_time_now() {
        None => None,
        Some((secs, nanos)) => {
            if secs > i64::MAX as u64 {
                return None;
            }
            match format_utc_stamp(secs as i64, nanos) {
                Some(stamp) => {
                    let millis = nanos / 1_000_000;
                    assert(utc_stamp_text(secs as i64 as int, nanos as int) == Some(stamp@));
                    Some((stamp, millis))
                },
                None => None,
            }
        },
    }
}

pub open spec fn is_lower_hex(c: char) -> bool {
    ('0' <= c && c <= '9') || ('a' <= c && c <= 'f')
}

/// `getrandom::fill` on sixteen bytes, read as a `u128`; `None` when the
/// operating system's random source fails. Nothing is known of the
/// value.
#[verifier::external_body]
fn random_u128() -> (r: Option<u128>) {
    let mut bytes = [0u8; 16];
    match getrandom::fill(&mut bytes) {
        Ok(()) => Some(u128::from_be_bytes(bytes)),
        Err(_) => None,
    }
}

/// The value of a version-4 UUID built from the random bits `random`:
/// the version nibble (bits 76..80) set to 4, the variant bits (62..64)
/// set to `10`.
pub open spec fn uuid_v4_value(random: u128) -> u128 {
    (random & 0xFFFF_FFFF_FFFF_0FFF_3FFF_FFFF_FFFF_FFFFu128) | 0x0000_0000_0000_4000_8000_0000_0000_0000u128
}

pub open spec fn lower_hex_digits() -> Seq<char> {
    seq!['0', '1', '2', '3', '4', '5', '6', '7', '8', '9', 'a', 'b', 'c', 'd', 'e', 'f']
}

/// `uuid::Builder::from_random_bytes(random.to_be_bytes())` in its simple
/// form: the 32 lowercase hexadecimal digits of [`uuid_v4_value`], most
/// significant first.
#[verifier::external_body]
fn uuid_v4_simple(random: u128) -> (r: String)
    ensures
        r@.len() == 32,
        forall|i: int|
            0 <= i < 32 ==> #[trigger] r@[i] == lower_hex_digits()[((uuid_v4_value(random) >> ((124
                - 4 * i) as u128)) & 15u128) as int],
        forall|i: int| 0 <= i < 32 ==> is_lower_hex(#[trigger] r@[i]),
{
    uuid::Builder::from_random_bytes(random.to_be_bytes()).into_uuid().simple().to_string()
}

/// A fresh random id: a version-4 UUID in its simple form, 32 lowercase
/// hexadecimal digits; `None` when the random source fails.
pub(crate) fn new_uuid_simple() -> (r: Option<String>)
    ensures
        r matches Some(s) ==> s@.len() == 32 && forall|i: int|
            0 <= i < 32 ==> is_lower_hex(#[trigger] s@[i]),
{
    match random_u128() {
        Some(x) => Some(uuid_v4_simple(x)),
        None => None,
    }
}

/// `{:03}`: at least three digits, zero-padded.
pub open spec fn pad3(n: nat) -> Seq<char> {
    if n < 10 {
        "00"@ + decimal(n)
    } else if n < 100 {
        "0"@ + decimal(n)
    } else {
        decimal(n)
    }
}

/// `<stamp>-<millis>-<topic>-<first six characters of the id>`.
pub open spec fn consult_dir_name_spec(stamp: Seq<char>, millis: nat, topic: Seq<char>, id: Seq<char>) -> Seq<
    char,
> {
    stamp + "-"@ + pad3(millis) + "-"@ + topic + "-"@ + id.take(
        if id.len() < 6 {
            id.len() as int
        } else {
            6
        },
    )
}

pub fn consult_dir_name(stamp: &str, millis: u32, topic: &str, id: &str) -> (r: String)
    ensures
        r@ == consult_dir_name_spec(stamp@, millis as nat, topic@, id@),
{
    let mut s = String::from_str(stamp);
    s.append("-");
    if millis < 10 {
        s.append("00");
    } else if millis < 100 {
        s.append("0");
    }
    push_decimal(&mut s, millis as u64);
    s.append("-");
    s.append(topic);
    s.append("-");
    let v = chars_of(id);
    let n = if v.len() < 6 { v.len() } else { 6 };
    crate::text::push_range(&mut s, &v, 0, n);
    proof {
        assert(v@.subrange(0, n as int) =~= id@.take(n as int));
        assert(s@ =~= consult_dir_name_spec(stamp@, millis as nat, topic@, id@));
    }
    s
}

pub open spec fn clock_msg() -> Seq<char> {
    "the system clock reads before 1970 or beyond the calendar; cannot name the consultation directory"@
}

pub open spec fn random_msg() -> Seq<char> {
    "could not read random bytes from the operating system for a fresh id"@
}

/// A fresh directory name for a run on `topic`: the UTC time of the
/// clock as `%Y%m%d-%H%M%S`, its milliseconds, the topic and the first
/// six digits of a random id. Fails when the clock reads before the
/// epoch (or beyond the calendar) or the random source fails.
pub fn new_consult_dir_name(topic: &str) -> (r: Result<String, A2aError>)
    ensures
        r matches Ok(s) ==> exists|secs: int, nanos: int, stamp: Seq<char>, millis: nat, id: Seq<char>|
            #![trigger utc_stamp_text(secs, nanos), consult_dir_name_spec(stamp, millis, topic@, id)]
            0 <= nanos < 1_000_000_000 && millis == nanos / 1_000_000 && utc_stamp_text(secs, nanos)
                == Some(stamp) && id.len() == 32 && (forall|i: int|
                0 <= i < 32 ==> is_lower_hex(#[trigger] id[i])) && s@ == consult_dir_name_spec(
                stamp,
                millis,
                topic@,
                id,
            ),
        r matches Err(e) ==> (e@ == ErrView::Other(clock_msg()) || e@ == ErrView::Other(
            random_msg(),
        )),
{
    let (stamp, millis) = match utc_now_stamp() {
        Some(t) => t,
        None => {
            return Err(
                other_err(
                    String::from_str(
                        "the system clock reads before 1970 or beyond the calendar; cannot name the consultation directory",
                    ),
                ),
            );
        },
    };
    let id = match new_uuid_simple() {
        Some(id) => id,
        None => {
            return Err(
                other_err(
                    String::from_str(
                        "could not read random bytes from the operating system for a fresh id",
                    ),
                ),
            );
        },
    };
    let r = consult_dir_name(stamp.as_str(), millis, topic, id.as_str());
    proof {
        let (secs, nanos) = choose|secs: int, nanos: int|
            0 <= nanos < 1_000_000_000 && millis == nanos / 1_000_000 && #[trigger] utc_stamp_text(
                secs,
                nanos,
            ) == Some(stamp@);
        assert(utc_stamp_text(secs, nanos) == Some(stamp@));
        assert(r@ == consult_dir_name_spec(stamp@, millis as nat, topic@, id@));
    }
    Ok(r)
}

/// Answers are written to disk (and old runs pruned) unless the run is
/// a dry run or a budget estimate.
pub fn persists_answers(dry_run: bool, budget_only: bool) -> (b: bool)
    ensures
        b == (!dry_run && !budget_only),
{
    !dry_run && !budget_only
}

// ---------------------------------------------------------------------
// What `ask` prints
// ---------------------------------------------------------------------

/// `{:?}` of a list of strings that need no escaping.
pub open spec fn debug_list_body(ms: Seq<Seq<char>>) -> Seq<char>
    decreases ms.len(),
{
    if ms.len() == 0 {
        seq![]
    } else if ms.len() == 1 {
        "\""@ + ms[0] + "\""@
    } else {
        debug_list_body(ms.drop_last()) + ", \""@ + ms.last() + "\""@
    }
}

pub open spec fn debug_list(ms: Seq<Seq<char>>) -> Seq<char> {
    "["@ + debug_list_body(ms) + "]"@
}

pub fn push_debug_list(out: &mut String, ms: &Vec<String>)
    ensures
        final(out)@ == old(out)@ + debug_list(strings_view(ms@)),
{
    out.append("[");
    let ghost head = out@;
    let mut i: usize = 0;
    while i < ms.len()
        invariant
            i <= ms@.len(),
            out@ == head + debug_list_body(strings_view(ms@).take(i as int)),
        decreases ms@.len() - i,
    {
        proof {
            let t = strings_view(ms@).take(i + 1);
            assert(t.drop_last() =~= strings_view(ms@).take(i as int));
            assert(t.last() == ms@[i as int]@);
            if i == 0 {
                assert(t[0] == ms@[0]@);
            }
        }
        if i == 0 {
            out.append("\"");
        } else {
            out.append(", \"");
        }
        out.append(ms[i].as_str());
        out.append("\"");
        proof {
            let t = strings_view(ms@).take(i + 1);
            assert(out@ =~= head + debug_list_body(t));
        }
        i += 1;
    }
    assert(strings_view(ms@).take(ms@.len() as int) =~= strings_view(ms@));
    out.append("]");
    assert(out@ =~= old(out)@ + debug_list(strings_view(ms@)));
}

/// The header `ask` prints before running.
pub open spec fn ask_header_spec(
    topic: Seq<char>,
    models: Seq<Seq<char>>,
    mode: Option<Seq<char>>,
    prompt: Seq<char>,
    dry_run: bool,
    budget_only: bool,
    consult_dir: Seq<char>,
) -> Seq<Seq<char>> {
    seq![
        "Topic:      "@ + topic,
        "Models:     "@ + debug_list(models),
        "Mode:       "@ + match mode {
            Some(m) => m,
            None => "(per-alias default_mode)"@,
        },
        "Prompt:     "@ + prompt,
        if dry_run {
            "Output dir: <dry-run; no files written>"@
        } else if budget_only {
            "Output dir: <budget-only; no files written>"@
        } else {
            "Output dir: "@ + consult_dir
        },
        seq![],
    ]
}

pub fn ask_header(
    topic: &str,
    models: &Vec<String>,
    mode: Option<&str>,
    prompt: &str,
    dry_run: bool,
    budget_only: bool,
    consult_dir: &str,
) -> (r: Vec<String>)
    ensures
        strings_view(r@) == ask_header_spec(
            topic@,
            strings_view(models@),
            match mode {
                Some(m) => Some(m@),
                None => None,
            },
            prompt@,
            dry_run,
            budget_only,
            consult_dir@,
        ),
{
    let mut r: Vec<String> = Vec::new();
    let mut l1 = String::from_str("Topic:      ");
    l1.append(topic);
    push_string(&mut r, l1.as_str());
    let mut l2 = String::from_str("Models:     ");
    push_debug_list(&mut l2, models);
    push_string(&mut r, l2.as_str());
    let mut l3 = String::from_str("Mode:       ");
    match mode {
        Some(m) => l3.append(m),
        None => l3.append("(per-alias default_mode)"),
    }
    push_string(&mut r, l3.as_str());
    let mut l4 = String::from_str("Prompt:     ");
    l4.append(prompt);
    push_string(&mut r, l4.as_str());
    let l5 = if dry_run {
        String::from_str("Output dir: <dry-run; no files written>")
    } else if budget_only {
        String::from_str("Output dir: <budget-only; no files written>")
    } else {
        let mut l = String::from_str("Output dir: ");
        l.append(consult_dir);
        l
    };
    push_string(&mut r, l5.as_str());
    proof {
        reveal_strlit("");
    }
    push_string(&mut r, "");
    proof {
        let sp = ask_header_spec(
            topic@,
            strings_view(models@),
            match mode {
                Some(m) => Some(m@),
                None => None,
            },
            prompt@,
            dry_run,
            budget_only,
            consult_dir@,
        );
        assert(strings_view(r@).len() == sp.len());
        assert(strings_view(r@)[0] == sp[0]);
        assert(strings_view(r@)[1] == sp[1]);
        assert(strings_view(r@)[2] == sp[2]);
        assert(strings_view(r@)[3] == sp[3]);
        assert(strings_view(r@)[4] == sp[4]);
        assert(strings_view(r@)[5] == sp[5]);
        assert(strings_view(r@) =~= ask_header_spec(
            topic@,
            strings_view(models@),
            match mode {
                Some(m) => Some(m@),
                None => None,
            },
            prompt@,
            dry_run,
            budget_only,
            consult_dir@,
        ));
    }
    r
}

/// The line printed when an alias's task ends: `ok`, or `failed:` with
/// the error.
pub open spec fn task_line_spec(alias: Seq<char>, failure: Option<Seq<char>>) -> Seq<char> {
    match failure {
        None => "["@ + alias + "] ok"@,
        Some(e) => "["@ + alias + "] failed: "@ + e,
    }
}

pub fn task_line(alias: &str, failure: Option<&str>) -> (r: String)
    ensures
        r@ == task_line_spec(
            alias@,
            match failure {
                Some(e) => Some(e@),
                None => None,
            },
        ),
{
    let mut s = String::from_str("[");
    s.append(alias);
    match failure {
        None => s.append("] ok"),
        Some(e) => {
            s.append("] failed: ");
            s.append(e);
        },
    }
    s
}

pub open spec fn drained_banner() -> Seq<Seq<char>> {
    seq![
        seq![],
        "=============================================================="@,
        "  No credentials left."@,
        seq![],
        "  At least one model alias deleted its profile via the fallback"@,
        "  KeyDead path (e.g. 401 / unpaid invoice / quota exceeded), and"@,
        "  no profiles remain in `~/.a2a/credentials.db`. The rest of the"@,
        "  alias tasks were aborted instead of issuing more cursor-agent"@,
        "  calls that cannot authenticate."@,
        seq![],
        "  To recover:"@,
        "    1. Resolve the upstream account problem reported above"@,
        "       (pay invoice / restore account / etc)."@,
        "    2. `a2a auth add <name> [--from-stdin]` to register an API key."@,
        "    3. `a2a auth use <name>` to set it as default."@,
        "    4. Re-run your `a2a ask ...` command."@,
        "=============================================================="@,
    ]
}

fn drained_banner_lines() -> (r: Vec<String>)
    ensures
        strings_view(r@) == drained_banner(),
{
    let mut v: Vec<String> = Vec::new();
    proof {
        reveal_strlit("");
    }
    push_string(&mut v, "");
    push_string(&mut v, "==============================================================");
    push_string(&mut v, "  No credentials left.");
    push_string(&mut v, "");
    push_string(&mut v, "  At least one model alias deleted its profile via the fallback");
    push_string(&mut v, "  KeyDead path (e.g. 401 / unpaid invoice / quota exceeded), and");
    push_string(&mut v, "  no profiles remain in `~/.a2a/credentials.db`. The rest of the");
    push_string(&mut v, "  alias tasks were aborted instead of issuing more cursor-agent");
    push_string(&mut v, "  calls that cannot authenticate.");
    push_string(&mut v, "");
    push_string(&mut v, "  To recover:");
    push_string(&mut v, "    1. Resolve the upstream account problem reported above");
    push_string(&mut v, "       (pay invoice / restore account / etc).");
    push_string(&mut v, "    2. `a2a auth add <name> [--from-stdin]` to register an API key.");
    push_string(&mut v, "    3. `a2a auth use <name>` to set it as default.");
    push_string(&mut v, "    4. Re-run your `a2a ask ...` command.");
    push_string(&mut v, "==============================================================");
    assert(strings_view(v@).len() == drained_banner().len());
    assert(strings_view(v@)[0] == drained_banner()[0]);
    assert(strings_view(v@)[1] == drained_banner()[1]);
    assert(strings_view(v@)[4] == drained_banner()[4]);
    assert(strings_view(v@)[5] == drained_banner()[5]);
    assert(strings_view(v@) =~= drained_banner());
    v
}

pub open spec fn drained_msg() -> Seq<char> {
    "credentials store drained mid-run; no profiles remain. Re-add a profile and re-run."@
}

pub open spec fn all_failed_msg(failed: nat, consult_dir: Seq<char>) -> Seq<char> {
    "all "@ + decimal(failed) + " model task(s) failed; see "@ + consult_dir + " for details"@
}

/// The closing lines of a run and its outcome. A drained credential
/// store is reported first; then a run where every task failed is a
/// business failure; a partial failure only warns.
pub open spec fn ask_summary_spec(
    succeeded: nat,
    failed: nat,
    drained: bool,
    dry_run: bool,
    consult_dir: Seq<char>,
) -> (Seq<Seq<char>>, Result<(), ErrView>) {
    let head = seq![
        seq![],
        "Done. "@ + decimal(succeeded) + " succeeded / "@ + decimal(failed) + " failed."@,
    ] + if dry_run {
        seq![]
    } else {
        seq!["Inspect raw answers in: "@ + consult_dir]
    };
    if drained {
        (head + drained_banner(), Err(ErrView::Business(drained_msg())))
    } else if failed > 0 && succeeded == 0 {
        (head, Err(ErrView::Business(all_failed_msg(failed, consult_dir))))
    } else if failed > 0 {
        (
            head.push(
                "warning: "@ + decimal(failed) + " of "@ + decimal(succeeded + failed)
                    + " model task(s) failed; synthesis should note missing answers"@,
            ),
            Ok(()),
        )
    } else {
        (head, Ok(()))
    }
}

pub fn ask_summary(succeeded: u64, failed: u64, drained: bool, dry_run: bool, consult_dir: &str) -> (r: (
    Vec<String>,
    Result<(), A2aError>,
))
    requires
        succeeded + failed <= u64::MAX,
    ensures
        strings_view(r.0@) == ask_summary_spec(
            succeeded as nat,
            failed as nat,
            drained,
            dry_run,
            consult_dir@,
        ).0,
        match ask_summary_spec(succeeded as nat, failed as nat, drained, dry_run, consult_dir@).1 {
            Ok(()) => r.1 is Ok,
            Err(e) => r.1 matches Err(x) && x@ == e,
        },
{
    let mut lines: Vec<String> = Vec::new();
    lines.push(String::new());
    let mut done = String::from_str("Done. ");
    push_decimal(&mut done, succeeded);
    done.append(" succeeded / ");
    push_decimal(&mut done, failed);
    done.append(" failed.");
    lines.push(done);
    if !dry_run {
        let mut l = String::from_str("Inspect raw answers in: ");
        l.append(consult_dir);
        lines.push(l);
    }
    let ghost head = strings_view(lines@);
    proof {
        let h = seq![
            seq![],
            "Done. "@ + decimal(succeeded as nat) + " succeeded / "@ + decimal(failed as nat)
                + " failed."@,
        ] + if dry_run {
            seq![]
        } else {
            seq!["Inspect raw answers in: "@ + consult_dir@]
        };
        assert(head =~= h);
    }
    if drained {
        let banner = drained_banner_lines();
        let ghost before = strings_view(lines@);
        let mut k: usize = 0;
        while k < banner.len()
            invariant
                k <= banner@.len(),
                strings_view(lines@) == before + strings_view(banner@).take(k as int),
            decreases banner@.len() - k,
        {
            push_string(&mut lines, banner[k].as_str());
            assert(strings_view(banner@).take(k + 1) =~= strings_view(banner@).take(k as int).push(
                banner@[k as int]@,
            ));
            assert(strings_view(lines@) =~= before + strings_view(banner@).take(k + 1));
            k += 1;
        }
        assert(strings_view(banner@).take(banner@.len() as int) =~= strings_view(banner@));
        let e = crate::business_failure(
            String::from_str(
                "credentials store drained mid-run; no profiles remain. Re-add a profile and re-run.",
            ),
        );
        return (lines, Err(e));
    }
    if failed > 0 && succeeded == 0 {
        let mut m = String::from_str("all ");
        push_decimal(&mut m, failed);
        m.append(" model task(s) failed; see ");
        m.append(consult_dir);
        m.append(" for details");
        return (lines, Err(crate::business_failure(m)));
    }
    if failed > 0 {
        let mut w = String::from_str("warning: ");
        push_decimal(&mut w, failed);
        w.append(" of ");
        push_decimal(&mut w, succeeded + failed);
        w.append(" model task(s) failed; synthesis should note missing answers");
        lines.push(w);
        assert(strings_view(lines@) =~= head.push(
            "warning: "@ + decimal(failed as nat) + " of "@ + decimal((succeeded + failed) as nat)
                + " model task(s) failed; synthesis should note missing answers"@,
        ));
    }
    (lines, Ok(()))
}

// ---------------------------------------------------------------------
// `--budget-only`
// ---------------------------------------------------------------------

/// Characters the read-only directive adds (with its blank line).
pub open spec fn directive_full() -> nat {
    crate::fallback::READONLY_DIRECTIVE@.len() + 2
}

pub open spec fn cli_mode_view(m: Option<String>) -> Option<Seq<char>> {
    match m {
        Some(s) => Some(s@),
        None => None,
    }
}

/// Whether the directive would be prepended for `row`: not suppressed
/// and the alias not running in `plan` mode.
pub open spec fn injects(no_readonly_prefix: bool, cli_mode: Option<Seq<char>>, row: ModelAlias) -> bool {
    !no_readonly_prefix && effective_mode_spec(cli_mode, row.default_mode@) != "plan"@
}

pub open spec fn budget_total(
    prompt: nat,
    context: nat,
    no_readonly_prefix: bool,
    cli_mode: Option<Seq<char>>,
    rows: Seq<ModelAlias>,
) -> nat
    decreases rows.len(),
{
    if rows.len() == 0 {
        0
    } else {
        budget_total(prompt, context, no_readonly_prefix, cli_mode, rows.drop_last()) + prompt + (
        if injects(no_readonly_prefix, cli_mode, rows.last()) {
            directive_full()
        } else {
            0
        }) + context
    }
}

pub open spec fn any_injects(no_ro: bool, cli_mode: Option<Seq<char>>, rows: Seq<ModelAlias>) -> bool {
    exists|i: int| 0 <= i < rows.len() && #[trigger] injects(no_ro, cli_mode, rows[i])
}

pub open spec fn all_inject(no_ro: bool, cli_mode: Option<Seq<char>>, rows: Seq<ModelAlias>) -> bool {
    forall|i: int| 0 <= i < rows.len() ==> #[trigger] injects(no_ro, cli_mode, rows[i])
}

pub open spec fn directive_note(any: bool, all: bool) -> Seq<char> {
    if any && all {
        decimal(directive_full()) + " chars (auto-prepended for every alias)"@
    } else if any {
        decimal(directive_full())
            + " chars (auto-prepended only for alias(es) running in `agent` mode)"@
    } else {
        "0 chars (suppressed: --no-readonly-prefix or all aliases run in `plan` mode)"@
    }
}

pub open spec fn alias_names(rows: Seq<ModelAlias>) -> Seq<Seq<char>> {
    rows.map_values(|r: ModelAlias| r.alias@)
}

/// The `--budget-only` report: character counts standing in for
/// tokens, summed over the aliases that would run.
pub open spec fn budget_report_spec(
    prompt: nat,
    context: nat,
    no_ro: bool,
    cli_mode: Option<Seq<char>>,
    rows: Seq<ModelAlias>,
) -> Seq<Seq<char>> {
    seq![
        "--budget-only (character counts as a token proxy):"@,
        "  prompt body         = "@ + decimal(prompt) + " chars"@,
        "  readonly directive  = "@ + directive_note(
            any_injects(no_ro, cli_mode, rows),
            all_inject(no_ro, cli_mode, rows),
        ),
        "  declared context    = "@ + decimal(context) + " chars"@,
        "  models to spawn     = "@ + decimal(rows.len()) + " ("@ + debug_list(alias_names(rows))
            + ")"@,
        "  total input \u{2248}         "@ + decimal(
            budget_total(prompt, context, no_ro, cli_mode, rows),
        ) + " chars across all models"@,
        seq![],
        "(This is a static estimate. Actual cursor-agent quota use may differ.)"@,
    ]
}

proof fn lemma_budget_total_mono(
    prompt: nat,
    context: nat,
    no_ro: bool,
    cli_mode: Option<Seq<char>>,
    rows: Seq<ModelAlias>,
    n: int,
)
    requires
        0 <= n <= rows.len(),
    ensures
        budget_total(prompt, context, no_ro, cli_mode, rows.take(n)) <= n * (prompt + directive_full()
            + context),
    decreases n,
{
    if n > 0 {
        lemma_budget_total_mono(prompt, context, no_ro, cli_mode, rows, n - 1);
        assert(rows.take(n).drop_last() =~= rows.take(n - 1));
        assert((n - 1) * (prompt + directive_full() + context) + (prompt + directive_full() + context)
            == n * (prompt + directive_full() + context)) by (nonlinear_arith);
    }
}

pub fn budget_report(
    prompt_chars: u64,
    context_chars: u64,
    no_readonly_prefix: bool,
    cli_mode: &Option<String>,
    rows: &Vec<ModelAlias>,
) -> (r: Vec<String>)
    requires
        directive_full() <= u64::MAX,
        rows@.len() * (prompt_chars + directive_full() + context_chars) <= u64::MAX,
    ensures
        strings_view(r@) == budget_report_spec(
            prompt_chars as nat,
            context_chars as nat,
            no_readonly_prefix,
            cli_mode_view(*cli_mode),
            rows@,
        ),
{
    let ghost cm = cli_mode_view(*cli_mode);
    let dfull: u64 = crate::fallback::READONLY_DIRECTIVE.unicode_len() as u64 + 2;
    let mut total: u64 = 0;
    let mut any = false;
    let mut all = true;
    let mut names: Vec<String> = Vec::new();
    let mut i: usize = 0;
    while i < rows.len()
        invariant
            i <= rows@.len(),
            dfull == directive_full(),
            cm == cli_mode_view(*cli_mode),
            rows@.len() * (prompt_chars + directive_full() + context_chars) <= u64::MAX,
            total == budget_total(
                prompt_chars as nat,
                context_chars as nat,
                no_readonly_prefix,
                cm,
                rows@.take(i as int),
            ),
            any == any_injects(no_readonly_prefix, cm, rows@.take(i as int)),
            all == all_inject(no_readonly_prefix, cm, rows@.take(i as int)),
            strings_view(names@) == alias_names(rows@.take(i as int)),
        decreases rows@.len() - i,
    {
        let row = &rows[i];
        let mode = effective_mode(cli_mode, row.default_mode.as_str());
        proof {
            reveal_strlit("plan");
        }
        let inject = !no_readonly_prefix && !str_eq(mode.as_str(), "plan");
        let ghost t = rows@.take(i + 1);
        proof {
            assert(t.drop_last() =~= rows@.take(i as int));
            assert(t.last() == rows@[i as int]);
            lemma_budget_total_mono(
                prompt_chars as nat,
                context_chars as nat,
                no_readonly_prefix,
                cm,
                rows@,
                i + 1,
            );
            assert((i + 1) * (prompt_chars + directive_full() + context_chars) <= rows@.len() * (
            prompt_chars + directive_full() + context_chars)) by (nonlinear_arith)
                requires
                    i + 1 <= rows@.len(),
            ;
        }
        let d = if inject { dfull } else { 0 };
        total = total + prompt_chars + d + context_chars;
        proof {
            assert forall|j: int| 0 <= j < t.len() implies #[trigger] t[j] == rows@[j] by {}
            if inject {
                assert(injects(no_readonly_prefix, cm, t[i as int]));
            } else {
                assert(!injects(no_readonly_prefix, cm, t[i as int]));
            }
            assert forall|j: int| 0 <= j < i implies #[trigger] rows@.take(i as int)[j] == t[j] by {}
        }
        if inject {
            any = true;
        } else {
            all = false;
        }
        push_string(&mut names, row.alias.as_str());
        proof {
            assert(strings_view(names@) =~= alias_names(t));
            if any {
                if !inject {
                    let k = choose|k: int|
                        0 <= k < rows@.take(i as int).len() && #[trigger] injects(
                            no_readonly_prefix,
                            cm,
                            rows@.take(i as int)[k],
                        );
                    assert(t[k] == rows@.take(i as int)[k]);
                }
                assert(any_injects(no_readonly_prefix, cm, t));
            } else {
                assert(!any_injects(no_readonly_prefix, cm, t)) by {
                    if any_injects(no_readonly_prefix, cm, t) {
                        let k = choose|k: int|
                            0 <= k < t.len() && #[trigger] injects(no_readonly_prefix, cm, t[k]);
                        if k < i {
                            assert(rows@.take(i as int)[k] == t[k]);
                        }
                    }
                }
            }
            if all {
                assert(all_inject(no_readonly_prefix, cm, t)) by {
                    assert forall|k: int| 0 <= k < t.len() implies #[trigger] injects(
                        no_readonly_prefix,
                        cm,
                        t[k],
                    ) by {
                        if k < i {
                            assert(rows@.take(i as int)[k] == t[k]);
                        }
                    }
                }
            } else {
                assert(!all_inject(no_readonly_prefix, cm, t)) by {
                    if inject {
                        let k = choose|k: int|
                            0 <= k < rows@.take(i as int).len() && !#[trigger] injects(
                                no_readonly_prefix,
                                cm,
                                rows@.take(i as int)[k],
                            );
                        assert(t[k] == rows@.take(i as int)[k]);
                    }
                }
            }
        }
        i += 1;
    }
    assert(rows@.take(rows@.len() as int) =~= rows@);
    let mut r: Vec<String> = Vec::new();
    push_string(&mut r, "--budget-only (character counts as a token proxy):");
    let mut l1 = String::from_str("  prompt body         = ");
    push_decimal(&mut l1, prompt_chars);
    l1.append(" chars");
    push_string(&mut r, l1.as_str());
    let mut l2 = String::from_str("  readonly directive  = ");
    if any && all {
        push_decimal(&mut l2, dfull);
        l2.append(" chars (auto-prepended for every alias)");
    } else if any {
        push_decimal(&mut l2, dfull);
        l2.append(" chars (auto-prepended only for alias(es) running in `agent` mode)");
    } else {
        l2.append("0 chars (suppressed: --no-readonly-prefix or all aliases run in `plan` mode)");
    }
    push_string(&mut r, l2.as_str());
    let mut l3 = String::from_str("  declared context    = ");
    push_decimal(&mut l3, context_chars);
    l3.append(" chars");
    push_string(&mut r, l3.as_str());
    let mut l4 = String::from_str("  models to spawn     = ");
    push_decimal(&mut l4, rows.len() as u64);
    l4.append(" (");
    push_debug_list(&mut l4, &names);
    l4.append(")");
    push_string(&mut r, l4.as_str());
    let mut l5 = String::from_str("  total input \u{2248}         ");
    push_decimal(&mut l5, total);
    l5.append(" chars across all models");
    push_string(&mut r, l5.as_str());
    proof {
        reveal_strlit("");
    }
    push_string(&mut r, "");
    push_string(&mut r, "(This is a static estimate. Actual cursor-agent quota use may differ.)");
    proof {
        let sp = budget_report_spec(
            prompt_chars as nat,
            context_chars as nat,
            no_readonly_prefix,
            cm,
            rows@,
        );
        assert(strings_view(r@).len() == sp.len());
        assert(strings_view(r@)[0] == sp[0]);
        assert(strings_view(r@)[1] == sp[1]);
        assert(strings_view(r@)[2] == sp[2]);
        assert(strings_view(r@)[3] == sp[3]);
        assert(strings_view(r@)[4] == sp[4]);
        assert(strings_view(r@)[5] == sp[5]);
        assert(strings_view(r@)[6] == sp[6]);
        assert(strings_view(r@)[7] == sp[7]);
        assert(strings_view(r@) =~= budget_report_spec(
            prompt_chars as nat,
            context_chars as nat,
            no_readonly_prefix,
            cm,
            rows@,
        ));
    }
    r
}

} // verus!
