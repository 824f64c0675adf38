//! Profiles: naming, key shape, masking and the rules of `a2a auth`.
//!
//! Keys are stored in plaintext; a profile's name is either given or
//! derived from the key's last six characters, with `(1)`, `(2)`, ...
//! appended on collision.
use vstd::prelude::*;
use crate::{A2aError, ErrView, user_err};
use crate::fallback::byte_len;
use crate::runner::{is_topic_char, topic_slug_ok};
use crate::text::{
    chars_of, decimal, push_decimal, push_range, push_string, starts_with, strings_view, strip_boms,
    trim_at, trim_seq,
};

pub mod store;

use store::Profile;

verus! {

// ---------------------------------------------------------------------
// Names
// ---------------------------------------------------------------------

pub open spec fn empty_name_msg() -> Seq<char> {
    "profile name cannot be empty"@
}

pub open spec fn bad_name_msg(name: Seq<char>) -> Seq<char> {
    "profile name must be alphanumeric / '-' / '_' / '(' / ')': "@ + name
}

/// Profile names are ASCII alphanumeric, `-`, `_`, and `( )` for the
/// `(1)` collision suffix: the same alphabet as topic slugs.
pub open spec fn profile_name_spec(name: Seq<char>) -> Result<(), ErrView> {
    if name.len() == 0 {
        Err(ErrView::User(empty_name_msg()))
    } else if !topic_slug_ok(name) {
        Err(ErrView::User(bad_name_msg(name)))
    } else {
        Ok(())
    }
}

pub fn validate_profile_name(name: &str) -> (r: Result<(), A2aError>)
    ensures
        match profile_name_spec(name@) {
            Ok(()) => r is Ok,
            Err(e) => r matches Err(x) && x@ == e,
        },
{
    if name.unicode_len() == 0 {
        return Err(user_err(String::from_str("profile name cannot be empty")));
    }
    if !crate::runner::validate_topic_slug(name) {
        let mut m = String::from_str("profile name must be alphanumeric / '-' / '_' / '(' / ')': ");
        m.append(name);
        return Err(user_err(m));
    }
    Ok(())
}

pub open spec fn short_key_msg() -> Seq<char> {
    "API key is shorter than 6 characters; please provide an explicit profile name: `a2a auth add <name> [--from-stdin]`"@
}

pub open spec fn bad_tail_msg(tail: Seq<char>) -> Seq<char> {
    "cannot auto-derive profile name from key tail '"@ + tail + "' ("@ + bad_name_msg(tail)
        + "); please provide an explicit name: `a2a auth add <name> [--from-stdin]`"@
}

pub open spec fn exhausted_msg(tail: Seq<char>) -> Seq<char> {
    "tried 1000 candidate names with suffix from key tail '"@ + tail
        + "'; please specify a name explicitly"@
}

/// The `n`-th candidate: the tail itself, then `tail(1)`, `tail(2)`, ...
pub open spec fn candidate(tail: Seq<char>, n: nat) -> Seq<char> {
    if n == 0 {
        tail
    } else {
        tail + "("@ + decimal(n) + ")"@
    }
}

/// The first candidate from the `n`-th on (below 1000) that no profile
/// uses.
pub open spec fn first_free(tail: Seq<char>, taken: Seq<Seq<char>>, n: nat) -> Option<Seq<char>>
    decreases 1000 - n,
{
    if n >= 1000 {
        None
    } else if !taken.contains(candidate(tail, n)) {
        Some(candidate(tail, n))
    } else {
        first_free(tail, taken, n + 1)
    }
}

/// The name given to a key added without one.
pub open spec fn auto_name_spec(key: Seq<char>, taken: Seq<Seq<char>>) -> Result<Seq<char>, ErrView> {
    if key.len() < 6 {
        Err(ErrView::User(short_key_msg()))
    } else {
        let tail = key.skip(key.len() - 6);
        if !topic_slug_ok(tail) {
            Err(ErrView::User(bad_tail_msg(tail)))
        } else {
            match first_free(tail, taken, 0) {
                Some(c) => Ok(c),
                None => Err(ErrView::User(exhausted_msg(tail))),
            }
        }
    }
}

proof fn lemma_first_free_not_taken(tail: Seq<char>, taken: Seq<Seq<char>>, n: nat)
    ensures
        first_free(tail, taken, n) matches Some(c) ==> !taken.contains(c),
    decreases 1000 - n,
{
    if n < 1000 && taken.contains(candidate(tail, n)) {
        lemma_first_free_not_taken(tail, taken, n + 1);
    }
}

/// A derived name is never one already in use.
pub proof fn law_auto_name_is_free(key: Seq<char>, taken: Seq<Seq<char>>)
    ensures
        auto_name_spec(key, taken) matches Ok(c) ==> !taken.contains(c),
{
    if key.len() >= 6 {
        lemma_first_free_not_taken(key.skip(key.len() - 6), taken, 0);
    }
}

/// Derive a profile name from the key's last six characters, avoiding
/// the names in `taken` (the registered profiles).
pub fn auto_pick_name(taken: &Vec<String>, key: &str) -> (r: Result<String, A2aError>)
    ensures
        match auto_name_spec(key@, strings_view(taken@)) {
            Ok(c) => r matches Ok(x) && x@ == c,
            Err(e) => r matches Err(x) && x@ == e,
        },
{
    let v = chars_of(key);
    if v.len() < 6 {
        return Err(
            user_err(
                String::from_str(
                    "API key is shorter than 6 characters; please provide an explicit profile name: `a2a auth add <name> [--from-stdin]`",
                ),
            ),
        );
    }
    let tail = crate::text::string_of(&v, v.len() - 6, v.len());
    assert(v@.subrange(v@.len() - 6, v@.len() as int) =~= key@.skip(key@.len() - 6));
    if crate::runner::validate_topic_slug(tail.as_str()) == false {
        let mut m = String::from_str("cannot auto-derive profile name from key tail '");
        m.append(tail.as_str());
        m.append("' (");
        m.append("profile name must be alphanumeric / '-' / '_' / '(' / ')': ");
        m.append(tail.as_str());
        m.append("); please provide an explicit name: `a2a auth add <name> [--from-stdin]`");
        assert(m@ =~= bad_tail_msg(tail@));
        return Err(user_err(m));
    }
    let ghost tv = strings_view(taken@);
    if !crate::text::contains_str(taken, tail.as_str()) {
        return Ok(tail);
    }
    let mut n: u64 = 1;
    while n < 1000
        invariant
            1 <= n <= 1000,
            key@.len() >= 6,
            tail@ == key@.skip(key@.len() - 6),
            topic_slug_ok(tail@),
            tv == strings_view(taken@),
            first_free(tail@, tv, 0) == first_free(tail@, tv, n as nat),
        decreases 1000 - n,
    {
        let mut c = String::new();
        c.append(tail.as_str());
        c.append("(");
        push_decimal(&mut c, n);
        c.append(")");
        assert(c@ == candidate(tail@, n as nat));
        if !crate::text::contains_str(taken, c.as_str()) {
            return Ok(c);
        }
        n += 1;
    }
    let mut m = String::from_str("tried 1000 candidate names with suffix from key tail '");
    m.append(tail.as_str());
    m.append("'; please specify a name explicitly");
    Err(user_err(m))
}

pub open spec fn name_taken_msg(n: Seq<char>) -> Seq<char> {
    "profile name '"@ + n + "' is already in use. To overwrite the stored key, run `a2a auth update "@
        + n
        + " --from-stdin`. To keep the existing profile and store the new key separately, re-run with a different name."@
}

/// The name a new profile is stored under: the given one when valid and
/// free, else derived from the key.
pub open spec fn new_profile_name_spec(
    name: Option<Seq<char>>,
    taken: Seq<Seq<char>>,
    key: Seq<char>,
) -> Result<Seq<char>, ErrView> {
    match name {
        Some(n) => match profile_name_spec(n) {
            Err(e) => Err(e),
            Ok(()) => if taken.contains(n) {
                Err(ErrView::User(name_taken_msg(n)))
            } else {
                Ok(n)
            },
        },
        None => auto_name_spec(key, taken),
    }
}

pub fn new_profile_name(name: Option<&str>, taken: &Vec<String>, key: &str) -> (r: Result<
    String,
    A2aError,
>)
    ensures
        match new_profile_name_spec(
            match name {
                Some(n) => Some(n@),
                None => None,
            },
            strings_view(taken@),
            key@,
        ) {
            Ok(c) => r matches Ok(x) && x@ == c,
            Err(e) => r matches Err(x) && x@ == e,
        },
{
    match name {
        Some(n) => {
            validate_profile_name(n)?;
            if crate::text::contains_str(taken, n) {
                let mut m = String::from_str("profile name '");
                m.append(n);
                m.append("' is already in use. To overwrite the stored key, run `a2a auth update ");
                m.append(n);
                m.append(
                    " --from-stdin`. To keep the existing profile and store the new key separately, re-run with a different name.",
                );
                return Err(user_err(m));
            }
            Ok(String::from_str(n))
        },
        None => auto_pick_name(taken, key),
    }
}

// ---------------------------------------------------------------------
// Keys
// ---------------------------------------------------------------------

/// A Cursor token is at least 16 bytes and starts with `key_`, `crsr_`
/// or `sk_`. Other keys are accepted with a warning.
pub open spec fn cursor_key_shape(s: Seq<char>) -> bool {
    byte_len(s) >= 16 && (starts_with(s, "key_"@) || starts_with(s, "crsr_"@) || starts_with(
        s,
        "sk_"@,
    ))
}

pub fn looks_like_cursor_key(s: &str) -> (b: bool)
    ensures
        b == cursor_key_shape(s@),
{
    if s.len() < 16 {
        return false;
    }
    let v = chars_of(s);
    let p1 = chars_of("key_");
    let p2 = chars_of("crsr_");
    let p3 = chars_of("sk_");
    let r = crate::text::starts_with_range(&v, 0, v.len(), &p1) || crate::text::starts_with_range(
        &v,
        0,
        v.len(),
        &p2,
    ) || crate::text::starts_with_range(&v, 0, v.len(), &p3);
    assert(v@.subrange(0, v@.len() as int) =~= s@);
    r
}

pub open spec fn empty_key_msg() -> Seq<char> {
    "empty API key"@
}

pub open spec fn key_warning() -> Seq<char> {
    "warning: key does not match expected Cursor token prefixes (key_ / crsr_); accepting anyway"@
}

/// A key about to be stored: an empty key is refused; otherwise whether
/// the shape warning is due.
pub fn check_new_key(key: &str) -> (r: Result<bool, A2aError>)
    ensures
        key@.len() == 0 ==> (r matches Err(e) && e@ == ErrView::User(empty_key_msg())),
        key@.len() != 0 ==> r == Ok::<bool, A2aError>(!cursor_key_shape(key@)),
{
    if key.unicode_len() == 0 {
        return Err(user_err(String::from_str("empty API key")));
    }
    Ok(!looks_like_cursor_key(key))
}

/// `****` for a short key; otherwise the first and last four characters
/// around `****`.
pub open spec fn mask_spec(key: Seq<char>) -> Seq<char> {
    if key.len() <= 8 {
        "****"@
    } else {
        key.take(4) + "****"@ + key.skip(key.len() - 4)
    }
}

pub fn mask_key(key: &str) -> (r: String)
    ensures
        r@ == mask_spec(key@),
{
    let v = chars_of(key);
    if v.len() <= 8 {
        return String::from_str("****");
    }
    let mut s = String::new();
    push_range(&mut s, &v, 0, 4);
    s.append("****");
    push_range(&mut s, &v, v.len() - 4, v.len());
    assert(s@ =~= mask_spec(key@));
    s
}

/// One stdin line as a key: leading byte-order marks (PowerShell pipes
/// add one) removed, then white space trimmed.
pub fn clean_stdin_line(line: &str) -> (r: String)
    ensures
        r@ == trim_seq(strip_boms(line@)),
{
    let v = chars_of(line);
    assert(v@.subrange(0, v@.len() as int) =~= line@);
    let mut a: usize = 0;
    while a < v.len() && v[a] == '\u{feff}'
        invariant
            a <= v@.len(),
            v@ == line@,
            strip_boms(v@.subrange(a as int, v@.len() as int)) == strip_boms(line@),
        decreases v@.len() - a,
    {
        assert(v@.subrange(a as int, v@.len() as int).drop_first() =~= v@.subrange(
            a + 1,
            v@.len() as int,
        ));
        a += 1;
    }
    assert(v@.subrange(0, v@.len() as int) =~= line@);
    let (x, y) = trim_at(&v, a, v.len());
    crate::text::string_of(&v, x, y)
}

pub open spec fn stdin_closed_msg() -> Seq<char> {
    "stdin closed before any non-empty line was read"@
}

// ---------------------------------------------------------------------
// Reading a profile
// ---------------------------------------------------------------------

pub open spec fn not_found_msg(name: Seq<char>) -> Seq<char> {
    "profile not found: "@ + name
}

/// The stored key of `name`, given the profile row looked up by that
/// name.
pub fn read_api_key(profile: Option<Profile>, name: &str) -> (r: Result<String, A2aError>)
    ensures
        match profile {
            Some(p) => r matches Ok(k) && k@ == p.api_key@,
            None => r matches Err(e) && e@ == ErrView::User(not_found_msg(name@)),
        },
{
    match profile {
        Some(p) => Ok(p.api_key),
        None => {
            let mut m = String::from_str("profile not found: ");
            m.append(name);
            Err(user_err(m))
        },
    }
}

/// After a profile is deleted (its key went dead, or `auth remove`),
/// the stored default is cleared exactly when it named that profile.
/// `default_after_delete` is the stored default read after the delete.
/// The deletion itself is the credential store's; this decides only
/// whether the default setting goes with it.
pub fn delete_profile_on_key_dead(name: &str, default_after_delete: Option<&str>) -> (clear: bool)
    ensures
        clear == (default_after_delete matches Some(d) && d@ == name@),
{
    match default_after_delete {
        Some(d) => crate::text::str_eq(d, name),
        None => false,
    }
}

// ---------------------------------------------------------------------
// `auth list` / `auth show`
// ---------------------------------------------------------------------

/// `{:<w}`: padded on the right with spaces to `w` characters.
pub open spec fn pad_right(s: Seq<char>, w: nat) -> Seq<char> {
    if s.len() >= w {
        s
    } else {
        s + Seq::new((w - s.len()) as nat, |i: int| ' ')
    }
}

pub fn push_padded(out: &mut String, s: &str, w: usize)
    ensures
        final(out)@ == old(out)@ + pad_right(s@, w as nat),
{
    out.append(s);
    let n = s.unicode_len();
    let pad: usize = if n < w { w - n } else { 0 };
    let mut j: usize = 0;
    assert(Seq::new(0, |i: int| ' ') =~= Seq::<char>::empty());
    while j < pad
        invariant
            j <= pad,
            out@ == old(out)@ + s@ + Seq::new(j as nat, |i: int| ' '),
        decreases pad - j,
    {
        crate::text::push_char(out, ' ');
        assert(Seq::new((j + 1) as nat, |i: int| ' ') =~= Seq::new(j as nat, |i: int| ' ').push(' '));
        assert(out@ =~= old(out)@ + s@ + Seq::new((j + 1) as nat, |i: int| ' '));
        j += 1;
    }
    proof {
        if n >= w {
            assert(out@ =~= old(out)@ + s@);
        }
    }
}

/// `DateTime::<Utc>::from_timestamp(secs, 0)` rendered as
/// `%Y-%m-%d %H:%M`; `None` outside chrono's range.
pub uninterp spec fn unix_minutes_text(secs: int) -> Option<Seq<char>>;

/// `chrono::DateTime::<Utc>::from_timestamp(secs, 0)` formatted with
/// `%Y-%m-%d %H:%M`. The rendering is a function of `secs` alone (UTC,
/// no local zone); `None` when `secs` is outside chrono's range.
#[verifier::external_body]
fn format_unix_minutes(secs: i64) -> (r: Option<String>)
    ensures
        crate::runner::meta::opt_view(r) == unix_minutes_text(secs as int),
{
    chrono::DateTime::<chrono::Utc>::from_timestamp(secs, 0).map(
        |d| d.format("%Y-%m-%d %H:%M").to_string(),
    )
}

/// What `auth list` shows as a profile's last use.
pub open spec fn last_used_spec(t: Option<i64>) -> Seq<char> {
    match t {
        Some(s) => match unix_minutes_text(s as int) {
            Some(x) => x,
            None => "never"@,
        },
        None => "never"@,
    }
}

pub fn last_used_text(t: Option<i64>) -> (r: String)
    ensures
        r@ == last_used_spec(t),
{
    match t {
        Some(s) => match format_unix_minutes(s) {
            Some(x) => x,
            None => String::from_str("never"),
        },
        None => String::from_str("never"),
    }
}

/// One `auth list` row: `*` marks the default profile.
pub open spec fn profile_line_spec(
    name: Seq<char>,
    is_default: bool,
    last_used: Seq<char>,
    note: Option<Seq<char>>,
) -> Seq<char> {
    (if is_default {
        "*"@
    } else {
        " "@
    }) + " "@ + pad_right(name, 14) + "  last_used="@ + pad_right(last_used, 16) + match note {
        Some(n) => "  -- "@ + n,
        None => seq![],
    }
}

pub fn profile_line(name: &str, is_default: bool, last_used: &str, note: Option<&str>) -> (r: String)
    ensures
        r@ == profile_line_spec(
            name@,
            is_default,
            last_used@,
            match note {
                Some(n) => Some(n@),
                None => None,
            },
        ),
{
    let mut s = if is_default {
        String::from_str("*")
    } else {
        String::from_str(" ")
    };
    s.append(" ");
    push_padded(&mut s, name, 14);
    s.append("  last_used=");
    push_padded(&mut s, last_used, 16);
    match note {
        Some(n) => {
            s.append("  -- ");
            s.append(n);
        },
        None => {},
    }
    s
}

/// The output of `auth list`, given where the store lives, its profiles
/// (by name) and the stored default.
pub open spec fn list_lines_spec(
    db_path: Seq<char>,
    ps: Seq<Profile>,
    default: Option<Seq<char>>,
) -> Seq<Seq<char>> {
    let head = seq!["Profiles in "@ + db_path + ":"@];
    if ps.len() == 0 {
        head.push("  (no profiles configured; run `a2a auth add` to add one)"@)
    } else {
        head + Seq::new(
            ps.len(),
            |i: int|
                profile_line_spec(
                    ps[i].name@,
                    default == Some(ps[i].name@),
                    last_used_spec(ps[i].last_used_at),
                    crate::runner::meta::opt_view(ps[i].note),
                ),
        ) + seq![seq![], "(* = default profile; set with `a2a auth use <name>`)"@]
    }
}

pub fn list_lines(db_path: &str, profiles: &Vec<Profile>, default: Option<&str>) -> (r: Vec<String>)
    ensures
        strings_view(r@) == list_lines_spec(
            db_path@,
            profiles@,
            match default {
                Some(d) => Some(d@),
                None => None,
            },
        ),
{
    let ghost dv: Option<Seq<char>> = match default {
        Some(d) => Some(d@),
        None => None,
    };
    let mut r: Vec<String> = Vec::new();
    let mut h = String::from_str("Profiles in ");
    h.append(db_path);
    h.append(":");
    push_string(&mut r, h.as_str());
    if profiles.len() == 0 {
        push_string(&mut r, "  (no profiles configured; run `a2a auth add` to add one)");
        assert(strings_view(r@) =~= list_lines_spec(db_path@, profiles@, dv));
        return r;
    }
    let ghost head = strings_view(r@);
    let ghost rows = Seq::new(
        profiles@.len(),
        |i: int|
            profile_line_spec(
                profiles@[i].name@,
                dv == Some(profiles@[i].name@),
                last_used_spec(profiles@[i].last_used_at),
                crate::runner::meta::opt_view(profiles@[i].note),
            ),
    );
    let mut i: usize = 0;
    while i < profiles.len()
        invariant
            i <= profiles@.len(),
            rows.len() == profiles@.len(),
            forall|k: int| 0 <= k < profiles@.len() ==> #[trigger] rows[k] == profile_line_spec(
                profiles@[k].name@,
                dv == Some(profiles@[k].name@),
                last_used_spec(profiles@[k].last_used_at),
                crate::runner::meta::opt_view(profiles@[k].note),
            ),
            dv == match default {
                Some(d) => Some(d@),
                None => None,
            },
            strings_view(r@) == head + rows.take(i as int),
        decreases profiles@.len() - i,
    {
        let p = &profiles[i];
        let is_default = match default {
            Some(d) => crate::text::str_eq(d, p.name.as_str()),
            None => false,
        };
        let lu = last_used_text(p.last_used_at);
        let note = match &p.note {
            Some(n) => Some(n.as_str()),
            None => None,
        };
        let line = profile_line(p.name.as_str(), is_default, lu.as_str(), note);
        proof {
            assert(line@ == rows[i as int]);
        }
        push_string(&mut r, line.as_str());
        assert(rows.take(i + 1) =~= rows.take(i as int).push(rows[i as int]));
        assert(strings_view(r@) =~= head + rows.take(i + 1));
        i += 1;
    }
    proof {
        reveal_strlit("");
    }
    assert(rows.take(profiles@.len() as int) =~= rows);
    let ghost mid = strings_view(r@);
    assert(mid == head + rows);
    push_string(&mut r, "");
    assert(""@ =~= Seq::<char>::empty());
    assert(strings_view(r@) =~= mid.push(Seq::<char>::empty()));
    push_string(&mut r, "(* = default profile; set with `a2a auth use <name>`)");
    proof {
        assert(head =~= seq!["Profiles in "@ + db_path@ + ":"@]);
        let foot: Seq<Seq<char>> = seq![seq![], "(* = default profile; set with `a2a auth use <name>`)"@];
        assert(strings_view(r@) =~= mid + foot);
        assert(list_lines_spec(db_path@, profiles@, dv) == head + rows + foot);
    }
    assert(strings_view(r@) =~= list_lines_spec(db_path@, profiles@, dv));
    r
}

/// `auth show`: the name and the masked key.
pub fn show_line(name: &str, key: &str) -> (r: String)
    ensures
        r@ == name@ + " -> "@ + mask_spec(key@),
{
    let mut s = String::from_str(name);
    s.append(" -> ");
    let m = mask_key(key);
    s.append(m.as_str());
    s
}

/// `profile not found: <name>`, for `use`, `show`, `remove` and
/// `update` on an unknown name.
pub fn profile_not_found(name: &str) -> (e: A2aError)
    ensures
        e@ == ErrView::User(not_found_msg(name@)),
{
    let mut m = String::from_str("profile not found: ");
    m.append(name);
    user_err(m)
}

} // verus!
