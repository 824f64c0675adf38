//! Rules of `a2a list` / `a2a clean` and of the automatic pruning of old
//! consultation directories.
use vstd::prelude::*;
use crate::{A2aError, ErrView, other_err};
use crate::text::{
    ascii_hex, chars_of, decimal, is_ascii_hex, push_char, push_decimal, push_range,
    push_str_chars, string_of, strings_view, trim_at, trim_seq,
};

verus! {

// ---------------------------------------------------------------------
// Integer parsing as `i64::from_str` does it
// ---------------------------------------------------------------------

/// Why `i64::from_str` rejected a string.
#[derive(Debug, Clone, Copy, PartialEq, Eq, Structural)]
pub enum IntErrorKind {
    Empty,
    InvalidDigit,
    PosOverflow,
    NegOverflow,
}

pub open spec fn is_digit(c: char) -> bool {
    '0' <= c && c <= '9'
}

pub open spec fn digit_value(c: char) -> int {
    (c as int) - ('0' as int)
}

/// The number the decimal digits `s` denote.
pub open spec fn digits_value(s: Seq<char>) -> int
    decreases s.len(),
{
    if s.len() == 0 {
        0
    } else {
        digits_value(s.drop_last()) * 10 + digit_value(s.last())
    }
}

/// The largest magnitude a parse may reach: `2^63` for a negative number,
/// `2^63 - 1` otherwise.
pub open spec fn magnitude_limit(neg: bool) -> int {
    if neg {
        9223372036854775808
    } else {
        9223372036854775807
    }
}

/// Digits are consumed left to right; the first non-digit, or the first
/// digit that takes the magnitude past the limit, stops the parse with
/// its error. Otherwise the magnitude the digits denote.
pub open spec fn scan_digits(body: Seq<char>, neg: bool) -> Result<int, IntErrorKind>
    decreases body.len(),
{
    if body.len() == 0 {
        Ok(0)
    } else {
        match scan_digits(body.drop_last(), neg) {
            Err(e) => Err(e),
            Ok(m) => if !is_digit(body.last()) {
                Err(IntErrorKind::InvalidDigit)
            } else if m * 10 + digit_value(body.last()) > magnitude_limit(neg) {
                if neg {
                    Err(IntErrorKind::NegOverflow)
                } else {
                    Err(IntErrorKind::PosOverflow)
                }
            } else {
                Ok(m * 10 + digit_value(body.last()))
            },
        }
    }
}

/// The digits after an optional sign.
pub open spec fn sign_body(s: Seq<char>) -> Seq<char> {
    if s[0] == '-' || s[0] == '+' {
        s.drop_first()
    } else {
        s
    }
}

/// `i64::from_str`: an optional `+` or `-`, then decimal digits.
pub open spec fn parse_i64_spec(s: Seq<char>) -> Result<int, IntErrorKind> {
    if s.len() == 0 {
        Err(IntErrorKind::Empty)
    } else if sign_body(s).len() == 0 {
        Err(IntErrorKind::InvalidDigit)
    } else {
        match scan_digits(sign_body(s), s[0] == '-') {
            Err(e) => Err(e),
            Ok(m) => if s[0] == '-' {
                Ok(-m)
            } else {
                Ok(m)
            },
        }
    }
}

pub open spec fn int_error_text(k: IntErrorKind) -> Seq<char> {
    match k {
        IntErrorKind::Empty => "cannot parse integer from empty string"@,
        IntErrorKind::InvalidDigit => "invalid digit found in string"@,
        IntErrorKind::PosOverflow => "number too large to fit in target type"@,
        IntErrorKind::NegOverflow => "number too small to fit in target type"@,
    }
}

/// A successful scan stays within the limit.
proof fn lemma_scan_bounded(body: Seq<char>, neg: bool)
    ensures
        scan_digits(body, neg) matches Ok(m) ==> 0 <= m <= magnitude_limit(neg),
    decreases body.len(),
{
    if body.len() > 0 {
        lemma_scan_bounded(body.drop_last(), neg);
    }
}

/// Once a prefix fails, every longer prefix fails with the same error.
proof fn lemma_scan_err_sticks(body: Seq<char>, neg: bool, m: int, n: int)
    requires
        0 <= m <= n <= body.len(),
        scan_digits(body.take(m), neg) is Err,
    ensures
        scan_digits(body.take(n), neg) == scan_digits(body.take(m), neg),
    decreases n - m,
{
    if m < n {
        lemma_scan_err_sticks(body, neg, m, n - 1);
        assert(body.take(n).drop_last() =~= body.take(n - 1));
    }
}

/// Parse the characters `v[a..b]` as `i64::from_str` does.
pub fn parse_i64_at(v: &Vec<char>, a: usize, b: usize) -> (r: Result<i64, IntErrorKind>)
    requires
        a <= b <= v@.len(),
    ensures
        match parse_i64_spec(v@.subrange(a as int, b as int)) {
            Ok(n) => r == Ok::<i64, IntErrorKind>(n as i64) && i64::MIN <= n <= i64::MAX,
            Err(k) => r == Err::<i64, IntErrorKind>(k),
        },
{
    let ghost s = v@.subrange(a as int, b as int);
    if a == b {
        return Err(IntErrorKind::Empty);
    }
    assert(s[0] == v@[a as int]);
    let neg = v[a] == '-';
    let start = if v[a] == '-' || v[a] == '+' { a + 1 } else { a };
    let ghost body = v@.subrange(start as int, b as int);
    assert(body =~= sign_body(s));
    if start == b {
        return Err(IntErrorKind::InvalidDigit);
    }
    // The magnitude is accumulated as a u64, which holds both limits.
    let lim: u64 = if neg { 9223372036854775808 } else { 9223372036854775807 };
    let mut acc: u64 = 0;
    let mut k = start;
    assert(body.take(0) =~= Seq::<char>::empty());
    while k < b
        invariant
            start <= k <= b <= v@.len(),
            body == v@.subrange(start as int, b as int),
            s == v@.subrange(a as int, b as int),
            s.len() > 0,
            body == sign_body(s),
            neg == (s[0] == '-'),
            lim as int == magnitude_limit(neg),
            scan_digits(body.take(k - start), neg) == Ok::<int, IntErrorKind>(acc as int),
        decreases b - k,
    {
        let c = v[k];
        let ghost j = k - start;
        assert(body[j] == c);
        assert(body.take(j + 1).drop_last() =~= body.take(j));
        assert(body.take(j + 1).last() == c);
        proof {
            lemma_scan_bounded(body.take(j), neg);
        }
        if !('0' <= c && c <= '9') {
            proof {
                lemma_scan_err_sticks(body, neg, j + 1, body.len() as int);
                assert(body.take(body.len() as int) =~= body);
            }
            return Err(IntErrorKind::InvalidDigit);
        }
        let d = (c as u32 - '0' as u32) as u64;
        assert(d as int == digit_value(c));
        if acc > (lim - d) / 10 {
            proof {
                assert(acc * 10 + d > lim) by (nonlinear_arith)
                    requires
                        acc > (lim - d) / 10,
                        d <= 9,
                        lim >= 9,
                ;
                lemma_scan_err_sticks(body, neg, j + 1, body.len() as int);
                assert(body.take(body.len() as int) =~= body);
            }
            if neg {
                return Err(IntErrorKind::NegOverflow);
            } else {
                return Err(IntErrorKind::PosOverflow);
            }
        }
        proof {
            assert(acc * 10 + d <= lim) by (nonlinear_arith)
                requires
                    acc <= (lim - d) / 10,
                    d <= 9,
                    lim >= 9,
            ;
        }
        acc = acc * 10 + d;
        k += 1;
    }
    assert(body.take(body.len() as int) =~= body);
    if neg {
        if acc == 9223372036854775808 {
            Ok(i64::MIN)
        } else {
            Ok(-(acc as i64))
        }
    } else {
        Ok(acc as i64)
    }
}

// ---------------------------------------------------------------------
// `--older-than`
// ---------------------------------------------------------------------

/// Seconds per unit suffix.
pub open spec fn unit_secs(c: char) -> int {
    if c == 's' {
        1
    } else if c == 'm' {
        60
    } else if c == 'h' {
        3600
    } else if c == 'd' {
        86400
    } else if c == 'w' {
        604800
    } else {
        0
    }
}

pub open spec fn is_unit(c: char) -> bool {
    c == 's' || c == 'm' || c == 'h' || c == 'd' || c == 'w'
}

pub open spec fn empty_spec_msg() -> Seq<char> {
    "empty --older-than spec"@
}

pub open spec fn no_suffix_msg() -> Seq<char> {
    "expected a relative duration like '30d', '7d', '1h' (suffix s|m|h|d|w); absolute dates / RFC-3339 are not supported here"@
}

pub open spec fn bad_number_msg(num: Seq<char>, k: IntErrorKind) -> Seq<char> {
    "could not parse '"@ + num + "' as a non-negative integer: "@ + int_error_text(k)
}

pub open spec fn negative_msg(spec: Seq<char>) -> Seq<char> {
    "negative duration not allowed: "@ + spec
}

/// The meaning of an `--older-than` value: a non-negative whole number
/// followed by one lowercase unit `s|m|h|d|w`, in seconds — or the
/// message that rejects it.
pub open spec fn older_than_spec(spec: Seq<char>) -> Result<int, Seq<char>> {
    let t = trim_seq(spec);
    if t.len() == 0 {
        Err(empty_spec_msg())
    } else if !is_unit(t.last()) {
        Err(no_suffix_msg())
    } else {
        let num = t.drop_last();
        match parse_i64_spec(num) {
            Err(k) => Err(bad_number_msg(num, k)),
            Ok(n) => if n < 0 {
                Err(negative_msg(spec))
            } else {
                Ok(n * unit_secs(t.last()))
            },
        }
    }
}

/// The number times its unit fits in `i64` (otherwise the multiplication
/// overflows).
pub open spec fn older_than_fits(spec: Seq<char>) -> bool {
    older_than_spec(spec) matches Ok(d) ==> d <= i64::MAX
}

fn msg_err(m: String) -> (e: A2aError)
    ensures
        e@ == ErrView::Other(m@),
{
    other_err(m)
}

/// Check ahead of [`parse_older_than_duration`] that the duration's
/// seconds fit in `i64`.
pub fn older_than_in_range(spec: &str) -> (b: bool)
    ensures
        b == older_than_fits(spec@),
{
    let v = chars_of(spec);
    let (ta, tb) = trim_at(&v, 0, v.len());
    assert(v@.subrange(0, v@.len() as int) =~= spec@);
    if ta == tb {
        return true;
    }
    let u = v[tb - 1];
    let ghost t = v@.subrange(ta as int, tb as int);
    assert(t.last() == u);
    assert(t.drop_last() =~= v@.subrange(ta as int, tb - 1));
    let mult: i64 = if u == 's' {
        1
    } else if u == 'm' {
        60
    } else if u == 'h' {
        3600
    } else if u == 'd' {
        86400
    } else if u == 'w' {
        604800
    } else {
        return true;
    };
    match parse_i64_at(&v, ta, tb - 1) {
        Err(_) => true,
        Ok(n) => n < 0 || n <= i64::MAX / mult,
    }
}

/// Parse a relative duration like `30d`, `7d`, `1h` into seconds. The
/// suffix is one of lowercase `s|m|h|d|w`; absolute dates, negative
/// numbers and other suffixes are rejected.
pub fn parse_older_than_duration(spec: &str) -> (r: Result<i64, A2aError>)
    requires
        older_than_fits(spec@),
    ensures
        match older_than_spec(spec@) {
            Ok(d) => r matches Ok(x) && x == d,
            Err(m) => r matches Err(e) && e@ == ErrView::Other(m),
        },
{
    let v = chars_of(spec);
    let (ta, tb) = trim_at(&v, 0, v.len());
    assert(v@.subrange(0, v@.len() as int) =~= spec@);
    if ta == tb {
        return Err(msg_err(String::from_str("empty --older-than spec")));
    }
    let u = v[tb - 1];
    let ghost t = v@.subrange(ta as int, tb as int);
    assert(t.last() == u);
    assert(t.drop_last() =~= v@.subrange(ta as int, tb - 1));
    let mult: i64 = if u == 's' {
        1
    } else if u == 'm' {
        60
    } else if u == 'h' {
        3600
    } else if u == 'd' {
        86400
    } else if u == 'w' {
        604800
    } else {
        return Err(
            msg_err(
                String::from_str(
                    "expected a relative duration like '30d', '7d', '1h' (suffix s|m|h|d|w); absolute dates / RFC-3339 are not supported here",
                ),
            ),
        );
    };
    match parse_i64_at(&v, ta, tb - 1) {
        Err(k) => {
            let mut m = String::from_str("could not parse '");
            push_range(&mut m, &v, ta, tb - 1);
            m.append("' as a non-negative integer: ");
            let text = match k {
                IntErrorKind::Empty => "cannot parse integer from empty string",
                IntErrorKind::InvalidDigit => "invalid digit found in string",
                IntErrorKind::PosOverflow => "number too large to fit in target type",
                IntErrorKind::NegOverflow => "number too small to fit in target type",
            };
            m.append(text);
            Err(msg_err(m))
        },
        Ok(n) => {
            if n < 0 {
                let mut m = String::from_str("negative duration not allowed: ");
                m.append(spec);
                return Err(msg_err(m));
            }
            assert(n * mult <= i64::MAX);
            Ok(n * mult)
        },
    }
}

/// The cut-off time for `a2a clean --older-than`: `None` without the
/// flag; otherwise `now - duration`, refusing a zero duration.
pub open spec fn clean_cutoff_spec(older_than: Option<Seq<char>>, now: int) -> Result<
    Option<int>,
    Seq<char>,
> {
    match older_than {
        None => Ok(None),
        Some(spec) => match older_than_spec(spec) {
            Err(m) => Err("invalid --older-than spec: "@ + spec + ": "@ + m),
            Ok(d) => if d <= 0 {
                Err(
                    "--older-than '"@ + spec
                        + "' resolves to a past or zero duration; use e.g. '30d', '7d', '1h'"@,
                )
            } else {
                Ok(Some(now - d))
            },
        },
    }
}

pub fn clean_cutoff(older_than: Option<&str>, now: i64) -> (r: Result<Option<i64>, A2aError>)
    requires
        older_than matches Some(s) ==> older_than_fits(s@),
        older_than matches Some(s) ==> (older_than_spec(s@) matches Ok(d) ==> now - d
            >= i64::MIN),
    ensures
        match clean_cutoff_spec(
            match older_than {
                Some(s) => Some(s@),
                None => None,
            },
            now as int,
        ) {
            Ok(Some(c)) => r matches Ok(Some(x)) && x == c,
            Ok(None) => r matches Ok(None),
            Err(m) => r matches Err(e) && e@ == ErrView::Other(m),
        },
{
    match older_than {
        None => Ok(None),
        Some(spec) => match parse_older_than_duration(spec) {
            Err(e) => {
                let mut m = String::from_str("invalid --older-than spec: ");
                m.append(spec);
                m.append(": ");
                match e {
                    A2aError::Other(inner) => {
                        m.append(inner.as_str());
                    },
                    A2aError::User(inner) => {
                        m.append(inner.0.as_str());
                    },
                    A2aError::Business(inner) => {
                        m.append(inner.0.as_str());
                    },
                }
                Err(msg_err(m))
            },
            Ok(d) => {
                if d <= 0 {
                    let mut m = String::from_str("--older-than '");
                    m.append(spec);
                    m.append("' resolves to a past or zero duration; use e.g. '30d', '7d', '1h'");
                    return Err(msg_err(m));
                }
                Ok(Some(now - d))
            },
        },
    }
}

// ---------------------------------------------------------------------
// Which directories `clean` and the pruning remove
// ---------------------------------------------------------------------

/// Match only directory names a2a itself produces: `a2a-` and 32
/// hexadecimal digits.
pub open spec fn is_a2a_temp_name_spec(name: Seq<char>) -> bool {
    name.len() == 36 && name.take(4) == "a2a-"@ && forall|i: int|
        4 <= i < 36 ==> is_ascii_hex(#[trigger] name[i])
}

pub fn is_a2a_temp_name(name: &str) -> (b: bool)
    ensures
        b == is_a2a_temp_name_spec(name@),
{
    let v = chars_of(name);
    let pre = chars_of("a2a-");
    proof {
        reveal_strlit("a2a-");
    }
    if v.len() != 36 {
        return false;
    }
    if !crate::text::starts_with_range(&v, 0, 36, &pre) {
        assert(v@.subrange(0, 36) =~= v@);
        return false;
    }
    assert(v@.subrange(0, 36) =~= v@);
    let mut i: usize = 4;
    while i < 36
        invariant
            4 <= i <= 36,
            v@.len() == 36,
            v@ == name@,
            forall|j: int| 4 <= j < i ==> is_ascii_hex(#[trigger] v@[j]),
        decreases 36 - i,
    {
        if !ascii_hex(v[i]) {
            assert(!is_ascii_hex(v@[i as int]));
            return false;
        }
        i += 1;
    }
    true
}

/// A directory entry as the program observed it.
pub struct DirEntryInfo {
    /// The entry's full path.
    pub path: String,
    /// The entry's file name.
    pub name: String,
    /// The entry is a directory.
    pub is_dir: bool,
    /// The directory holds a `meta.toml` file.
    pub has_meta: bool,
    /// Modification time in Unix seconds, when it could be read.
    pub mtime: Option<i64>,
}

pub open spec fn old_enough(e: DirEntryInfo, cutoff: Option<i64>) -> bool {
    match cutoff {
        None => true,
        Some(c) => e.mtime matches Some(t) && t < c,
    }
}

/// A consultation directory `clean` removes: a directory holding a
/// `meta.toml` (so it is verifiably an a2a consultation), older than the
/// cut-off when there is one.
pub open spec fn is_consult_victim(e: DirEntryInfo, cutoff: Option<i64>) -> bool {
    e.is_dir && e.has_meta && old_enough(e, cutoff)
}

/// A temp-dir entry `clean` removes: a directory named `a2a-<32 hex>`,
/// older than the cut-off when there is one.
pub open spec fn is_temp_victim(e: DirEntryInfo, cutoff: Option<i64>) -> bool {
    is_a2a_temp_name_spec(e.name@) && e.is_dir && old_enough(e, cutoff)
}

pub open spec fn victim_paths(
    es: Seq<DirEntryInfo>,
    cutoff: Option<i64>,
    temp: bool,
) -> Seq<Seq<char>>
    decreases es.len(),
{
    if es.len() == 0 {
        seq![]
    } else {
        let e = es.last();
        let keep = if temp {
            is_temp_victim(e, cutoff)
        } else {
            is_consult_victim(e, cutoff)
        };
        let rest = victim_paths(es.drop_last(), cutoff, temp);
        if keep {
            rest.push(e.path@)
        } else {
            rest
        }
    }
}

/// `clean` removes only what it can vouch for: every path it selects
/// is that of a listed entry meeting the rule (a directory with a
/// `meta.toml`, or an `a2a-<32 hex>` directory in the temp dir), old
/// enough when a cut-off is given.
pub proof fn law_clean_only_marked(es: Seq<DirEntryInfo>, cutoff: Option<i64>, temp: bool)
    ensures
        forall|p: Seq<char>| #[trigger] victim_paths(es, cutoff, temp).contains(p) ==> exists|i: int|
            0 <= i < es.len() && (#[trigger] es[i]).path@ == p && (if temp {
                is_temp_victim(es[i], cutoff)
            } else {
                is_consult_victim(es[i], cutoff)
            }),
    decreases es.len(),
{
    if es.len() > 0 {
        let e0 = es.drop_last();
        law_clean_only_marked(e0, cutoff, temp);
        let rest = victim_paths(e0, cutoff, temp);
        assert forall|p: Seq<char>| #[trigger] victim_paths(es, cutoff, temp).contains(p) implies exists|i: int|
            0 <= i < es.len() && (#[trigger] es[i]).path@ == p && (if temp {
                is_temp_victim(es[i], cutoff)
            } else {
                is_consult_victim(es[i], cutoff)
            }) by {
            let v = victim_paths(es, cutoff, temp);
            let k = choose|k: int| 0 <= k < v.len() && v[k] == p;
            if k < rest.len() {
                assert(rest[k] == p);
                assert(rest.contains(p));
                let i = choose|i: int|
                    0 <= i < e0.len() && (#[trigger] e0[i]).path@ == p && (if temp {
                        is_temp_victim(e0[i], cutoff)
                    } else {
                        is_consult_victim(e0[i], cutoff)
                    });
                assert(es[i] == e0[i]);
            } else {
                assert(es[es.len() - 1] == es.last());
            }
        }
    }
}

/// With a cut-off, `clean` removes only what is older than it: every
/// selected path, consultation or temp mirror, is that of a listed entry
/// whose modification time is known and earlier than the cut-off. A
/// consultation it removes is a directory holding `meta.toml`; a temp
/// entry it removes is a directory named `a2a-` and 32 hex digits.
pub proof fn law_clean_respects_cutoff(es: Seq<DirEntryInfo>, c: i64, temp: bool, p: Seq<char>)
    requires
        victim_paths(es, Some(c), temp).contains(p),
    ensures
        exists|i: int|
            0 <= i < es.len() && (#[trigger] es[i]).path@ == p && es[i].is_dir && (es[i].mtime matches Some(
                t,
            ) && t < c) && (if temp {
                es[i].name@.len() == 36 && es[i].name@.take(4) == "a2a-"@ && forall|j: int|
                    4 <= j < 36 ==> is_ascii_hex(#[trigger] es[i].name@[j])
            } else {
                es[i].has_meta
            }),
{
    law_clean_only_marked(es, Some(c), temp);
    let i = choose|i: int|
        0 <= i < es.len() && (#[trigger] es[i]).path@ == p && (if temp {
            is_temp_victim(es[i], Some(c))
        } else {
            is_consult_victim(es[i], Some(c))
        });
    if temp {
        reveal_strlit("a2a-");
        let n = es[i].name@;
        assert(n.take(4) =~= "a2a-"@) by {
            assert(n.take(4)[0] == 'a' && n.take(4)[1] == '2' && n.take(4)[2] == 'a' && n.take(4)[3] == '-');
        }
    }
}

/// The paths to remove among `entries`, in order: consultation
/// directories, or (`temp`) leftover workspace mirrors in the OS temp dir.
pub fn select_victims(entries: &Vec<DirEntryInfo>, cutoff: Option<i64>, temp: bool) -> (r: Vec<
    String,
>)
    ensures
        r@.map_values(|s: String| s@) == victim_paths(entries@, cutoff, temp),
{
    let mut r: Vec<String> = Vec::new();
    let mut i: usize = 0;
    while i < entries.len()
        invariant
            i <= entries@.len(),
            r@.map_values(|s: String| s@) == victim_paths(entries@.take(i as int), cutoff, temp),
        decreases entries@.len() - i,
    {
        let e = &entries[i];
        let old_enough = match cutoff {
            None => true,
            Some(c) => match e.mtime {
                Some(t) => t < c,
                None => false,
            },
        };
        let keep = if temp {
            is_a2a_temp_name(e.name.as_str()) && e.is_dir && old_enough
        } else {
            e.is_dir && e.has_meta && old_enough
        };
        let ghost before = r@.map_values(|s: String| s@);
        if keep {
            r.push(e.path.clone());
        }
        proof {
            let t1 = entries@.take(i + 1);
            assert(t1.drop_last() =~= entries@.take(i as int));
            assert(t1.last() == entries@[i as int]);
            if keep {
                assert(r@.map_values(|s: String| s@) =~= before.push(entries@[i as int].path@));
            } else {
                assert(r@.map_values(|s: String| s@) =~= before);
            }
        }
        i += 1;
    }
    assert(entries@.take(entries@.len() as int) =~= entries@);
    r
}

/// Cut-off of the automatic pruning: `retain_days` days before `now`.
pub fn housekeep_cutoff(now: i64, retain_days: u64) -> (c: i64)
    requires
        retain_days * 86400 <= i64::MAX,
        now - retain_days * 86400 >= i64::MIN,
    ensures
        c == now - retain_days * 86400,
{
    now - (retain_days as i64) * 86400
}

/// The confirmation question of `a2a clean`, which warns about OS temp
/// directories when some are among the victims.
pub open spec fn clean_prompt_spec(total: nat, temp_count: nat) -> Seq<char> {
    if temp_count > 0 {
        "Confirm no other `a2a` process is currently running, then remove "@ + decimal(total)
            + " entry(ies)?"@
    } else {
        "Remove "@ + decimal(total) + " entry(ies)?"@
    }
}

pub fn clean_prompt(total: u64, temp_count: u64) -> (s: String)
    ensures
        s@ == clean_prompt_spec(total as nat, temp_count as nat),
{
    let mut s = if temp_count > 0 {
        String::from_str("Confirm no other `a2a` process is currently running, then remove ")
    } else {
        String::from_str("Remove ")
    };
    push_decimal(&mut s, total);
    s.append(" entry(ies)?");
    s
}

/// `list` and `clean` refuse a consultations directory whose deepest
/// existing ancestor resolves outside the project (a symlink or junction
/// on the way out).
pub open spec fn escapes_msg(value: Seq<char>, anchor: Seq<char>, root: Seq<char>) -> Seq<char> {
    "consultations output root '"@ + value + "' resolves under "@ + anchor
        + " which escapes the project root "@ + root
        + " (an existing ancestor is a symlink/junction). Refusing to operate outside the project."@
}

/// `inside`: the resolved ancestor `anchor` lies under the canonical
/// project root `root`.
pub fn check_consultations_inside(inside: bool, value: &str, anchor: &str, root: &str) -> (r: Result<
    (),
    A2aError,
>)
    ensures
        inside ==> r is Ok,
        !inside ==> (r matches Err(e) && e@ == ErrView::Other(escapes_msg(value@, anchor@, root@))),
{
    if inside {
        return Ok(());
    }
    let mut m = String::from_str("consultations output root '");
    m.append(value);
    m.append("' resolves under ");
    m.append(anchor);
    m.append(" which escapes the project root ");
    m.append(root);
    m.append(
        " (an existing ancestor is a symlink/junction). Refusing to operate outside the project.",
    );
    Err(other_err(m))
}

pub open spec fn indent_all(names: Seq<Seq<char>>) -> Seq<Seq<char>> {
    names.map_values(|n: Seq<char>| "  "@ + n)
}

/// What `a2a list` prints: a note when there is no consultations
/// directory or it holds none, else its path and one indented line per
/// consultation, in the order given.
pub open spec fn list_lines_spec(project: Seq<char>, dir: Seq<char>, dir_exists: bool, names: Seq<
    Seq<char>,
>) -> Seq<Seq<char>> {
    if !dir_exists {
        seq!["(no consultations directory in "@ + project + ")"@]
    } else if names.len() == 0 {
        seq!["(no past consultations)"@]
    } else {
        seq!["Consultations under "@ + dir + ":"@] + indent_all(names)
    }
}

fn push_indented_all(out: &mut Vec<String>, names: &Vec<String>)
    ensures
        strings_view(final(out)@) == strings_view(old(out)@) + indent_all(strings_view(names@)),
{
    let ghost start = strings_view(out@);
    let mut i: usize = 0;
    while i < names.len()
        invariant
            i <= names@.len(),
            strings_view(out@) == start + indent_all(strings_view(names@).take(i as int)),
        decreases names@.len() - i,
    {
        let mut l = String::from_str("  ");
        l.append(names[i].as_str());
        let ghost before = strings_view(out@);
        out.push(l);
        proof {
            let t1 = strings_view(names@).take(i + 1);
            assert(t1 =~= strings_view(names@).take(i as int).push(names@[i as int]@));
            assert(indent_all(t1) =~= indent_all(strings_view(names@).take(i as int)).push(
                "  "@ + names@[i as int]@,
            ));
            assert(strings_view(out@) =~= before.push(l@));
        }
        i += 1;
    }
    assert(strings_view(names@).take(names@.len() as int) =~= strings_view(names@));
}

pub fn list_lines(project: &str, dir: &str, dir_exists: bool, names: &Vec<String>) -> (r: Vec<String>)
    ensures
        strings_view(r@) == list_lines_spec(project@, dir@, dir_exists, strings_view(names@)),
{
    let mut r: Vec<String> = Vec::new();
    if !dir_exists {
        let mut l = String::from_str("(no consultations directory in ");
        l.append(project);
        l.append(")");
        r.push(l);
        assert(strings_view(r@) =~= list_lines_spec(project@, dir@, dir_exists, strings_view(names@)));
        return r;
    }
    if names.len() == 0 {
        r.push(String::from_str("(no past consultations)"));
        assert(strings_view(r@) =~= list_lines_spec(project@, dir@, dir_exists, strings_view(names@)));
        return r;
    }
    let mut h = String::from_str("Consultations under ");
    h.append(dir);
    h.append(":");
    r.push(h);
    assert(strings_view(r@) =~= seq![h@]);
    push_indented_all(&mut r, names);
    r
}

pub open spec fn temp_warning(temp_count: nat) -> Seq<char> {
    "WARNING: "@ + decimal(temp_count)
        + " of the entries above are OS tempdir directories (`a2a-<uuid>`). These are workspace mirrors of crashed runs \u{2014} but if any other `a2a ask` is currently running, its workspace tempdir may be among them and removing it will cause that run to abort with a 'workspace deleted mid-run' error."@
}

/// What `a2a clean` shows before asking: the paths it would remove, and
/// a warning when some are OS temp directories, which a running `ask`
/// may still be using.
pub open spec fn clean_preview_spec(victims: Seq<Seq<char>>, temp_count: nat) -> Seq<Seq<char>> {
    seq!["would remove:"@] + indent_all(victims) + seq![seq![]] + if temp_count > 0 {
        seq![temp_warning(temp_count), seq![]]
    } else {
        seq![]
    }
}

pub fn clean_preview(victims: &Vec<String>, temp_count: u64) -> (r: Vec<String>)
    ensures
        strings_view(r@) == clean_preview_spec(strings_view(victims@), temp_count as nat),
{
    let mut r: Vec<String> = Vec::new();
    r.push(String::from_str("would remove:"));
    assert(strings_view(r@) =~= seq!["would remove:"@]);
    push_indented_all(&mut r, victims);
    let ghost mid = strings_view(r@);
    r.push(String::new());
    assert(strings_view(r@) =~= mid + seq![seq![]]);
    if temp_count > 0 {
        let mut w = String::from_str("WARNING: ");
        push_decimal(&mut w, temp_count);
        w.append(
            " of the entries above are OS tempdir directories (`a2a-<uuid>`). These are workspace mirrors of crashed runs \u{2014} but if any other `a2a ask` is currently running, its workspace tempdir may be among them and removing it will cause that run to abort with a 'workspace deleted mid-run' error.",
        );
        let ghost m2 = strings_view(r@);
        r.push(w);
        r.push(String::new());
        assert(strings_view(r@) =~= m2 + seq![temp_warning(temp_count as nat), seq![]]);
    }
    assert(strings_view(r@) =~= clean_preview_spec(strings_view(victims@), temp_count as nat));
    r
}

} // verus!
