//! Character-level string utilities with their mathematical meaning.
//!
//! Every routine here works on `Vec<char>` index ranges and is specified
//! over `Seq<char>`: trimming by Unicode white space, pattern search,
//! line splitting in the manner of `str::lines`, and decimal rendering.
use vstd::prelude::*;

verus! {

// ---------------------------------------------------------------------
// Character classes
// ---------------------------------------------------------------------

/// ASCII letters and digits (`char::is_ascii_alphanumeric`).
pub open spec fn is_ascii_alnum(c: char) -> bool {
    ('0' <= c && c <= '9') || ('a' <= c && c <= 'z') || ('A' <= c && c <= 'Z')
}

/// ASCII hexadecimal digits (`char::is_ascii_hexdigit`).
pub open spec fn is_ascii_hex(c: char) -> bool {
    ('0' <= c && c <= '9') || ('a' <= c && c <= 'f') || ('A' <= c && c <= 'F')
}

/// The Unicode `White_Space` property, which `char::is_whitespace`
/// and therefore `str::trim` use.
pub open spec fn is_ws(c: char) -> bool {
    ||| ('\u{9}' <= c && c <= '\u{d}')
    ||| c == ' '
    ||| c == '\u{85}'
    ||| c == '\u{a0}'
    ||| c == '\u{1680}'
    ||| ('\u{2000}' <= c && c <= '\u{200a}')
    ||| c == '\u{2028}'
    ||| c == '\u{2029}'
    ||| c == '\u{202f}'
    ||| c == '\u{205f}'
    ||| c == '\u{3000}'
}

pub fn ascii_alnum(c: char) -> (b: bool)
    ensures
        b == is_ascii_alnum(c),
{
    ('0' <= c && c <= '9') || ('a' <= c && c <= 'z') || ('A' <= c && c <= 'Z')
}

pub fn ascii_hex(c: char) -> (b: bool)
    ensures
        b == is_ascii_hex(c),
{
    ('0' <= c && c <= '9') || ('a' <= c && c <= 'f') || ('A' <= c && c <= 'F')
}

pub fn white_space(c: char) -> (b: bool)
    ensures
        b == is_ws(c),
{
    ('\u{9}' <= c && c <= '\u{d}') || c == ' ' || c == '\u{85}' || c == '\u{a0}' || c
        == '\u{1680}' || ('\u{2000}' <= c && c <= '\u{200a}') || c == '\u{2028}' || c
        == '\u{2029}' || c == '\u{202f}' || c == '\u{205f}' || c == '\u{3000}'
}

// ---------------------------------------------------------------------
// Conversions between `str` / `String` and `Vec<char>`
// ---------------------------------------------------------------------

/// The characters of `s`.
pub fn chars_of(s: &str) -> (out: Vec<char>)
    ensures
        out@ == s@,
{
    let mut out: Vec<char> = Vec::new();
    for c in it: s.chars()
        invariant
            out@ == it.seq().take(it.index() as int),
    {
        out.push(c);
    }
    out
}

/// `String::push`.
#[verifier::external_body]
pub(crate) fn push_char(s: &mut String, c: char)
    ensures
        final(s)@ == old(s)@.push(c),
{
    s.push(c);
}

/// The string made of the characters `v[a..b]`.
pub fn string_of(v: &Vec<char>, a: usize, b: usize) -> (out: String)
    requires
        a <= b <= v@.len(),
    ensures
        out@ == v@.subrange(a as int, b as int),
{
    let mut out = String::new();
    let mut i = a;
    while i < b
        invariant
            a <= i <= b <= v@.len(),
            out@ == v@.subrange(a as int, i as int),
        decreases b - i,
    {
        push_char(&mut out, v[i]);
        assert(v@.subrange(a as int, i + 1) =~= v@.subrange(a as int, i as int).push(v@[i as int]));
        i += 1;
    }
    out
}

/// Appends the characters of `v[a..b]` to `out`.
pub fn push_range(out: &mut String, v: &Vec<char>, a: usize, b: usize)
    requires
        a <= b <= v@.len(),
    ensures
        final(out)@ == old(out)@ + v@.subrange(a as int, b as int),
{
    let mut i = a;
    while i < b
        invariant
            a <= i <= b <= v@.len(),
            out@ == old(out)@ + v@.subrange(a as int, i as int),
        decreases b - i,
    {
        push_char(out, v[i]);
        assert(old(out)@ + v@.subrange(a as int, i + 1) =~= (old(out)@ + v@.subrange(
            a as int,
            i as int,
        )).push(v@[i as int]));
        i += 1;
    }
}

/// Appends the characters of `s` to `out`.
pub fn push_str_chars(out: &mut String, s: &str)
    ensures
        final(out)@ == old(out)@ + s@,
{
    let v = chars_of(s);
    push_range(out, &v, 0, v.len());
    assert(v@.subrange(0, v@.len() as int) =~= v@);
}

/// The Unicode lowercase mapping that `str::to_lowercase` applies.
pub uninterp spec fn str_lowercase(s: Seq<char>) -> Seq<char>;

/// `str::to_lowercase`: the Unicode lowercase of `s`. Its result is a
/// function of `s` alone; the mapping table itself is not restated here.
#[verifier::external_body]
pub(crate) fn to_lowercase(s: &str) -> (r: String)
    ensures
        r@ == str_lowercase(s@),
{
    s.to_lowercase()
}

// ---------------------------------------------------------------------
// Trimming
// ---------------------------------------------------------------------

pub open spec fn trim_start_seq(s: Seq<char>) -> Seq<char>
    decreases s.len(),
{
    if s.len() > 0 && is_ws(s[0]) {
        trim_start_seq(s.drop_first())
    } else {
        s
    }
}

pub open spec fn trim_end_seq(s: Seq<char>) -> Seq<char>
    decreases s.len(),
{
    if s.len() > 0 && is_ws(s.last()) {
        trim_end_seq(s.drop_last())
    } else {
        s
    }
}

/// `str::trim`: both ends stripped of Unicode white space.
pub open spec fn trim_seq(s: Seq<char>) -> Seq<char> {
    trim_end_seq(trim_start_seq(s))
}

/// Index of the first character of `v[lo..hi]` that is not white space.
pub fn trim_start_at(v: &Vec<char>, lo: usize, hi: usize) -> (a: usize)
    requires
        lo <= hi <= v@.len(),
    ensures
        lo <= a <= hi,
        v@.subrange(a as int, hi as int) == trim_start_seq(v@.subrange(lo as int, hi as int)),
{
    let mut a = lo;
    while a < hi && white_space(v[a])
        invariant
            lo <= a <= hi <= v@.len(),
            trim_start_seq(v@.subrange(a as int, hi as int)) == trim_start_seq(
                v@.subrange(lo as int, hi as int),
            ),
        decreases hi - a,
    {
        assert(v@.subrange(a as int, hi as int).drop_first() =~= v@.subrange(a + 1, hi as int));
        a += 1;
    }
    a
}

/// One past the last character of `v[lo..hi]` that is not white space.
pub fn trim_end_at(v: &Vec<char>, lo: usize, hi: usize) -> (b: usize)
    requires
        lo <= hi <= v@.len(),
    ensures
        lo <= b <= hi,
        v@.subrange(lo as int, b as int) == trim_end_seq(v@.subrange(lo as int, hi as int)),
{
    let mut b = hi;
    while b > lo && white_space(v[b - 1])
        invariant
            lo <= b <= hi <= v@.len(),
            trim_end_seq(v@.subrange(lo as int, b as int)) == trim_end_seq(
                v@.subrange(lo as int, hi as int),
            ),
        decreases b - lo,
    {
        assert(v@.subrange(lo as int, b as int).drop_last() =~= v@.subrange(lo as int, b - 1));
        b -= 1;
    }
    b
}

/// Bounds of `trim(v[lo..hi])`.
pub fn trim_at(v: &Vec<char>, lo: usize, hi: usize) -> (r: (usize, usize))
    requires
        lo <= hi <= v@.len(),
    ensures
        lo <= r.0 <= r.1 <= hi,
        v@.subrange(r.0 as int, r.1 as int) == trim_seq(v@.subrange(lo as int, hi as int)),
{
    let a = trim_start_at(v, lo, hi);
    let b = trim_end_at(v, a, hi);
    (a, b)
}

/// The characters of `trim(s)`.
pub fn trimmed_chars(s: &str) -> (out: Vec<char>)
    ensures
        out@ == trim_seq(s@),
{
    let v = chars_of(s);
    let (a, b) = trim_at(&v, 0, v.len());
    assert(v@.subrange(0, v@.len() as int) =~= v@);
    let mut out: Vec<char> = Vec::new();
    let mut i = a;
    while i < b
        invariant
            a <= i <= b <= v@.len(),
            out@ == v@.subrange(a as int, i as int),
        decreases b - i,
    {
        out.push(v[i]);
        assert(v@.subrange(a as int, i + 1) =~= v@.subrange(a as int, i as int).push(v@[i as int]));
        i += 1;
    }
    out
}

// ---------------------------------------------------------------------
// Prefixes, suffixes and pattern search
// ---------------------------------------------------------------------

pub open spec fn starts_with(s: Seq<char>, p: Seq<char>) -> bool {
    p.len() <= s.len() && s.take(p.len() as int) == p
}

pub open spec fn ends_with(s: Seq<char>, p: Seq<char>) -> bool {
    p.len() <= s.len() && s.skip(s.len() - p.len()) == p
}

/// `p` occurs in `s` at position `i`.
pub open spec fn occurs_at(s: Seq<char>, p: Seq<char>, i: int) -> bool {
    0 <= i && i + p.len() <= s.len() && s.subrange(i, i + p.len()) == p
}

pub open spec fn contains_seq(s: Seq<char>, p: Seq<char>) -> bool {
    exists|i: int| occurs_at(s, p, i)
}

/// `i` is the leftmost position where `p` occurs in `s`.
pub open spec fn is_first_occ(s: Seq<char>, p: Seq<char>, i: int) -> bool {
    occurs_at(s, p, i) && forall|j: int| 0 <= j < i ==> !occurs_at(s, p, j)
}

/// The leftmost occurrence of `p` in `s` (`str::find`).
pub open spec fn find_seq(s: Seq<char>, p: Seq<char>) -> Option<int> {
    if contains_seq(s, p) {
        Some(choose|i: int| is_first_occ(s, p, i))
    } else {
        None
    }
}

pub proof fn lemma_first_occ_exists(s: Seq<char>, p: Seq<char>, i: int)
    requires
        occurs_at(s, p, i),
    ensures
        exists|k: int| is_first_occ(s, p, k),
    decreases i,
{
    if forall|j: int| 0 <= j < i ==> !occurs_at(s, p, j) {
        assert(is_first_occ(s, p, i));
    } else {
        let j = choose|j: int| 0 <= j < i && occurs_at(s, p, j);
        lemma_first_occ_exists(s, p, j);
    }
}

pub proof fn lemma_find_is_first(s: Seq<char>, p: Seq<char>, i: int)
    requires
        is_first_occ(s, p, i),
    ensures
        find_seq(s, p) == Some(i),
{
    let k = choose|k: int| is_first_occ(s, p, k);
    assert(is_first_occ(s, p, k));
    if k < i {
        assert(!occurs_at(s, p, k));
    }
    if i < k {
        assert(!occurs_at(s, p, i));
    }
}

pub proof fn lemma_find_some(s: Seq<char>, p: Seq<char>)
    requires
        contains_seq(s, p),
    ensures
        find_seq(s, p) matches Some(i) && is_first_occ(s, p, i),
{
    let i = choose|i: int| occurs_at(s, p, i);
    lemma_first_occ_exists(s, p, i);
}

/// Does `p` occur in `v[lo..hi]` at offset `i` (relative to `lo`)?
pub fn occurs_at_range(v: &Vec<char>, lo: usize, hi: usize, p: &Vec<char>, i: usize) -> (b: bool)
    requires
        lo <= hi <= v@.len(),
    ensures
        b == occurs_at(v@.subrange(lo as int, hi as int), p@, i as int),
{
    let ghost s = v@.subrange(lo as int, hi as int);
    if i > hi - lo || p.len() > hi - lo - i {
        return false;
    }
    let mut k: usize = 0;
    while k < p.len()
        invariant
            lo <= hi <= v@.len(),
            s == v@.subrange(lo as int, hi as int),
            i + p@.len() <= hi - lo,
            0 <= k <= p@.len(),
            forall|j: int| 0 <= j < k ==> v@[lo + i + j] == p@[j],
        decreases p@.len() - k,
    {
        if v[lo + i + k] != p[k] {
            assert(s.subrange(i as int, i + p@.len())[k as int] != p@[k as int]);
            return false;
        }
        k += 1;
    }
    assert(s.subrange(i as int, i + p@.len()) =~= p@);
    true
}

/// Leftmost occurrence of `p` in `v[lo..hi]`, as an offset from `lo`.
pub fn find_range(v: &Vec<char>, lo: usize, hi: usize, p: &Vec<char>) -> (r: Option<usize>)
    requires
        lo <= hi <= v@.len(),
    ensures
        match r {
            Some(i) => find_seq(v@.subrange(lo as int, hi as int), p@) == Some(i as int),
            None => find_seq(v@.subrange(lo as int, hi as int), p@) is None,
        },
        r is Some <==> contains_seq(v@.subrange(lo as int, hi as int), p@),
{
    let ghost s = v@.subrange(lo as int, hi as int);
    let mut i: usize = 0;
    while i < hi - lo
        invariant
            lo <= hi <= v@.len(),
            s == v@.subrange(lo as int, hi as int),
            0 <= i <= hi - lo,
            forall|j: int| 0 <= j < i ==> !occurs_at(s, p@, j),
        decreases hi - lo - i,
    {
        if occurs_at_range(v, lo, hi, p, i) {
            proof {
                lemma_find_is_first(s, p@, i as int);
            }
            return Some(i);
        }
        i += 1;
    }
    if occurs_at_range(v, lo, hi, p, i) {
        proof {
            lemma_find_is_first(s, p@, i as int);
        }
        return Some(i);
    }
    assert forall|j: int| !occurs_at(s, p@, j) by {
        if 0 <= j && j <= i {
        }
    }
    None
}

/// Does `v[lo..hi]` start with `p`?
pub fn starts_with_range(v: &Vec<char>, lo: usize, hi: usize, p: &Vec<char>) -> (b: bool)
    requires
        lo <= hi <= v@.len(),
    ensures
        b == starts_with(v@.subrange(lo as int, hi as int), p@),
{
    let b = occurs_at_range(v, lo, hi, p, 0);
    proof {
        let s = v@.subrange(lo as int, hi as int);
        if p@.len() <= s.len() {
            assert(s.subrange(0, p@.len() as int) =~= s.take(p@.len() as int));
        }
    }
    b
}

/// Does `v[lo..hi]` end with `p`?
pub fn ends_with_range(v: &Vec<char>, lo: usize, hi: usize, p: &Vec<char>) -> (b: bool)
    requires
        lo <= hi <= v@.len(),
    ensures
        b == ends_with(v@.subrange(lo as int, hi as int), p@),
{
    if p.len() > hi - lo {
        return false;
    }
    let b = occurs_at_range(v, lo, hi, p, hi - lo - p.len());
    proof {
        let s = v@.subrange(lo as int, hi as int);
        assert(s.subrange(s.len() - p@.len(), s.len() as int) =~= s.skip(s.len() - p@.len()));
    }
    b
}

/// Is `v[lo..hi]` exactly `p`?
pub fn eq_range(v: &Vec<char>, lo: usize, hi: usize, p: &Vec<char>) -> (b: bool)
    requires
        lo <= hi <= v@.len(),
    ensures
        b == (v@.subrange(lo as int, hi as int) == p@),
{
    if p.len() != hi - lo {
        proof {
            if v@.subrange(lo as int, hi as int) == p@ {
                assert(v@.subrange(lo as int, hi as int).len() == p@.len());
            }
        }
        return false;
    }
    let b = starts_with_range(v, lo, hi, p);
    proof {
        let s = v@.subrange(lo as int, hi as int);
        assert(s.take(p@.len() as int) =~= s);
    }
    b
}

// ---------------------------------------------------------------------
// Lines
// ---------------------------------------------------------------------

pub open spec fn strip_cr(s: Seq<char>) -> Seq<char> {
    if s.len() > 0 && s.last() == '\r' {
        s.drop_last()
    } else {
        s
    }
}

/// `str::lines`: split at `\n`, a `\r` right before the `\n` dropped,
/// and no empty line after a final `\n`.
pub open spec fn lines_seq(s: Seq<char>) -> Seq<Seq<char>>
    decreases s.len(),
{
    if s.len() == 0 {
        seq![]
    } else {
        match find_seq(s, seq!['\n']) {
            Some(q) => if 0 <= q < s.len() {
                seq![strip_cr(s.take(q))] + lines_seq(s.skip(q + 1))
            } else {
                seq![]
            },
            None => seq![s],
        }
    }
}

/// Bounds of the lines of `v[lo..hi]`.
pub fn line_bounds(v: &Vec<char>, lo: usize, hi: usize) -> (r: Vec<(usize, usize)>)
    requires
        lo <= hi <= v@.len(),
    ensures
        r@.len() == lines_seq(v@.subrange(lo as int, hi as int)).len(),
        forall|k: int|
            0 <= k < r@.len() ==> (#[trigger] r@[k]).0 <= r@[k].1 <= v@.len() && v@.subrange(
                r@[k].0 as int,
                r@[k].1 as int,
            ) == lines_seq(v@.subrange(lo as int, hi as int))[k],
{
    let ghost whole = lines_seq(v@.subrange(lo as int, hi as int));
    let nl: Vec<char> = vec!['\n'];
    let mut r: Vec<(usize, usize)> = Vec::new();
    let mut p = lo;
    while p < hi
        invariant
            lo <= p <= hi <= v@.len(),
            nl@ == seq!['\n'],
            whole == lines_seq(v@.subrange(lo as int, hi as int)),
            whole == r@.map_values(|x: (usize, usize)| v@.subrange(x.0 as int, x.1 as int)) + lines_seq(
                v@.subrange(p as int, hi as int),
            ),
            forall|k: int| 0 <= k < r@.len() ==> (#[trigger] r@[k]).0 <= r@[k].1 <= v@.len(),
        decreases hi - p,
    {
        let ghost s = v@.subrange(p as int, hi as int);
        let ghost old_r = r@;
        match find_range(v, p, hi, &nl) {
            Some(q) => {
                proof {
                    lemma_find_some(s, nl@);
                    assert(occurs_at(s, nl@, q as int));
                }
                let mut e = p + q;
                if e > p && v[e - 1] == '\r' {
                    e = e - 1;
                }
                r.push((p, e));
                proof {
                    assert(s.take(q as int).len() == q);
                    assert(v@.subrange(p as int, e as int) =~= strip_cr(s.take(q as int)));
                    assert(s.skip(q + 1) =~= v@.subrange(p + q + 1, hi as int));
                    assert(lines_seq(s) == seq![strip_cr(s.take(q as int))] + lines_seq(s.skip(q + 1)));
                    assert(r@.map_values(|x: (usize, usize)| v@.subrange(x.0 as int, x.1 as int))
                        =~= old_r.map_values(|x: (usize, usize)| v@.subrange(x.0 as int, x.1 as int)).push(
                        v@.subrange(p as int, e as int),
                    ));
                }
                p = p + q + 1;
            },
            None => {
                r.push((p, hi));
                proof {
                    assert(lines_seq(s) == seq![s]);
                    assert(v@.subrange(p as int, hi as int).skip(hi - p) =~= seq![]);
                    assert(r@.map_values(|x: (usize, usize)| v@.subrange(x.0 as int, x.1 as int))
                        =~= old_r.map_values(|x: (usize, usize)| v@.subrange(x.0 as int, x.1 as int)).push(
                        s,
                    ));
                    assert(lines_seq(v@.subrange(hi as int, hi as int)) == Seq::<Seq<char>>::empty());
                }
                p = hi;
            },
        }
    }
    proof {
        assert(lines_seq(v@.subrange(p as int, hi as int)) == Seq::<Seq<char>>::empty());
        assert(whole =~= r@.map_values(|x: (usize, usize)| v@.subrange(x.0 as int, x.1 as int)));
        assert forall|k: int| 0 <= k < r@.len() implies v@.subrange(
            (#[trigger] r@[k]).0 as int,
            r@[k].1 as int,
        ) == whole[k] by {
            assert(whole[k] == r@.map_values(
                |x: (usize, usize)| v@.subrange(x.0 as int, x.1 as int),
            )[k]);
        }
    }
    r
}

// ---------------------------------------------------------------------
// Byte-order marks, splitting and joining
// ---------------------------------------------------------------------

/// Leading byte-order marks removed.
pub open spec fn strip_boms(s: Seq<char>) -> Seq<char>
    decreases s.len(),
{
    if s.len() > 0 && s[0] == '\u{feff}' {
        strip_boms(s.drop_first())
    } else {
        s
    }
}

/// `str::split` on one character.
pub open spec fn split_char(s: Seq<char>, c: char) -> Seq<Seq<char>>
    decreases s.len(),
{
    match find_seq(s, seq![c]) {
        Some(q) => if 0 <= q < s.len() {
            seq![s.take(q)] + split_char(s.skip(q + 1), c)
        } else {
            seq![s]
        },
        None => seq![s],
    }
}

/// Joining the pieces of a split with the separator gives the string back.
pub proof fn lemma_split_join(s: Seq<char>, c: char)
    ensures
        split_char(s, c).len() >= 1,
        join_seq(split_char(s, c), seq![c]) == s,
    decreases s.len(),
{
    match find_seq(s, seq![c]) {
        Some(q) => {
            if 0 <= q < s.len() {
                let rest = s.skip(q + 1);
                lemma_split_join(rest, c);
                lemma_find_some(s, seq![c]);
                assert(s.subrange(q, q + 1) == seq![c]);
                assert(s[q] == c) by {
                    assert(s.subrange(q, q + 1)[0] == s[q]);
                }
                lemma_join_front(s.take(q), split_char(rest, c), seq![c]);
                assert(split_char(s, c) == seq![s.take(q)] + split_char(rest, c));
                assert(s.take(q) + seq![c] + rest =~= s);
            }
        },
        None => {},
    }
}

/// Joining `a` in front of a non-empty list puts `a` and the separator
/// in front of the joined list.
pub proof fn lemma_join_front(a: Seq<char>, rest: Seq<Seq<char>>, sep: Seq<char>)
    requires
        rest.len() >= 1,
    ensures
        join_seq(seq![a] + rest, sep) == a + sep + join_seq(rest, sep),
    decreases rest.len(),
{
    let all = seq![a] + rest;
    if rest.len() == 1 {
        assert(all.drop_last() =~= seq![a]);
        assert(all.last() == rest[0]);
        assert(join_seq(seq![a], sep) == a);
        assert(join_seq(rest, sep) == rest[0]);
        assert(join_seq(all, sep) == join_seq(all.drop_last(), sep) + sep + all.last());
    } else {
        lemma_join_front(a, rest.drop_last(), sep);
        assert(all.drop_last() =~= seq![a] + rest.drop_last());
        assert(all.last() == rest.last());
        assert(join_seq(all, sep) == join_seq(all.drop_last(), sep) + sep + all.last());
        assert(join_seq(rest, sep) == join_seq(rest.drop_last(), sep) + sep + rest.last());
        assert(a + sep + join_seq(rest.drop_last(), sep) + sep + rest.last() =~= a + sep + (
        join_seq(rest.drop_last(), sep) + sep + rest.last()));
    }
}

/// `str::split(c)`, each piece a new string.
pub fn split_by(s: &str, c: char) -> (r: Vec<String>)
    ensures
        strings_view(r@) == split_char(s@, c),
{
    let v = chars_of(s);
    let mut sep: Vec<char> = Vec::new();
    sep.push(c);
    assert(sep@ =~= seq![c]);
    let mut out: Vec<String> = Vec::new();
    let mut p: usize = 0;
    assert(v@.subrange(0, v@.len() as int) =~= s@);
    loop
        invariant
            p <= v@.len(),
            v@ == s@,
            sep@ == seq![c],
            strings_view(out@) + split_char(v@.subrange(p as int, v@.len() as int), c) == split_char(
                s@,
                c,
            ),
        decreases v@.len() - p,
    {
        let ghost rest = v@.subrange(p as int, v@.len() as int);
        match find_range(&v, p, v.len(), &sep) {
            Some(q) => {
                proof {
                    lemma_find_some(rest, seq![c]);
                    assert(rest.take(q as int) =~= v@.subrange(p as int, p + q));
                    assert(rest.skip(q + 1) =~= v@.subrange(p + q + 1, v@.len() as int));
                }
                let piece = string_of(&v, p, p + q);
                let ghost before = strings_view(out@);
                out.push(piece);
                proof {
                    assert(strings_view(out@) =~= before.push(piece@));
                    assert(split_char(rest, c) == seq![rest.take(q as int)] + split_char(
                        rest.skip(q + 1),
                        c,
                    ));
                    assert(strings_view(out@) + split_char(v@.subrange(p + q + 1, v@.len() as int), c)
                        =~= before + split_char(rest, c));
                }
                p = p + q + 1;
            },
            None => {
                let piece = string_of(&v, p, v.len());
                let ghost before = strings_view(out@);
                out.push(piece);
                proof {
                    assert(strings_view(out@) =~= before.push(piece@));
                    assert(split_char(rest, c) == seq![rest]);
                    assert(strings_view(out@) =~= before + split_char(rest, c));
                }
                return out;
            },
        }
    }
}

/// The pieces joined with `sep` between them (`[..].join(sep)`).
pub open spec fn join_seq(parts: Seq<Seq<char>>, sep: Seq<char>) -> Seq<char>
    decreases parts.len(),
{
    if parts.len() == 0 {
        seq![]
    } else if parts.len() == 1 {
        parts[0]
    } else {
        join_seq(parts.drop_last(), sep) + sep + parts.last()
    }
}

pub fn join_strings(parts: &Vec<String>, sep: &str) -> (r: String)
    ensures
        r@ == join_seq(strings_view(parts@), sep@),
{
    let mut out = String::new();
    let mut i: usize = 0;
    while i < parts.len()
        invariant
            i <= parts@.len(),
            out@ == join_seq(strings_view(parts@).take(i as int), sep@),
        decreases parts@.len() - i,
    {
        proof {
            let t = strings_view(parts@).take(i + 1);
            assert(t.drop_last() =~= strings_view(parts@).take(i as int));
            assert(t.last() == parts@[i as int]@);
            if i == 0 {
                assert(t[0] == parts@[0]@);
            }
        }
        if i > 0 {
            out.append(sep);
        }
        out.append(parts[i].as_str());
        proof {
            let t = strings_view(parts@).take(i + 1);
            if i == 0 {
                assert(out@ =~= join_seq(t, sep@));
            } else {
                assert(out@ =~= join_seq(t, sep@));
            }
        }
        i += 1;
    }
    assert(strings_view(parts@).take(parts@.len() as int) =~= strings_view(parts@));
    out
}

// ---------------------------------------------------------------------
// Lists of strings
// ---------------------------------------------------------------------

/// The character sequences of a list of strings.
pub open spec fn strings_view(v: Seq<String>) -> Seq<Seq<char>> {
    v.map_values(|s: String| s@)
}

/// Exact string equality.
pub fn str_eq(a: &str, b: &str) -> (r: bool)
    ensures
        r == (a@ == b@),
{
    let va = chars_of(a);
    let vb = chars_of(b);
    let r = eq_range(&va, 0, va.len(), &vb);
    assert(va@.subrange(0, va@.len() as int) =~= va@);
    r
}

/// Appends a copy of `a` to `v`.
pub fn push_string(v: &mut Vec<String>, a: &str)
    ensures
        strings_view(final(v)@) == strings_view(old(v)@).push(a@),
{
    let s = String::from_str(a);
    v.push(s);
    assert(strings_view(v@) =~= strings_view(old(v)@).push(a@));
}

/// Whether `s` is among the strings of `v`.
pub fn contains_str(v: &Vec<String>, s: &str) -> (b: bool)
    ensures
        b == strings_view(v@).contains(s@),
{
    let mut i: usize = 0;
    while i < v.len()
        invariant
            i <= v@.len(),
            forall|j: int| 0 <= j < i ==> v@[j]@ != s@,
        decreases v@.len() - i,
    {
        if str_eq(v[i].as_str(), s) {
            assert(strings_view(v@)[i as int] == s@);
            return true;
        }
        i += 1;
    }
    assert(!strings_view(v@).contains(s@)) by {
        if strings_view(v@).contains(s@) {
            let k = choose|k: int| 0 <= k < strings_view(v@).len() && strings_view(v@)[k] == s@;
            assert(v@[k]@ == s@);
        }
    }
    false
}

// ---------------------------------------------------------------------
// Decimal numbers
// ---------------------------------------------------------------------

pub open spec fn digit_char(d: nat) -> char {
    if d == 0 { '0' }
    else if d == 1 { '1' }
    else if d == 2 { '2' }
    else if d == 3 { '3' }
    else if d == 4 { '4' }
    else if d == 5 { '5' }
    else if d == 6 { '6' }
    else if d == 7 { '7' }
    else if d == 8 { '8' }
    else { '9' }
}

/// Decimal rendering of `n`, as `u64::to_string` writes it.
pub open spec fn decimal(n: nat) -> Seq<char>
    decreases n,
{
    if n < 10 {
        seq![digit_char(n)]
    } else {
        decimal(n / 10).push(digit_char(n % 10))
    }
}

fn digit(d: u64) -> (c: char)
    requires
        d < 10,
    ensures
        c == digit_char(d as nat),
{
    if d == 0 { '0' }
    else if d == 1 { '1' }
    else if d == 2 { '2' }
    else if d == 3 { '3' }
    else if d == 4 { '4' }
    else if d == 5 { '5' }
    else if d == 6 { '6' }
    else if d == 7 { '7' }
    else if d == 8 { '8' }
    else { '9' }
}

/// Appends the decimal rendering of `n` to `out`.
pub fn push_decimal(out: &mut String, n: u64)
    ensures
        final(out)@ == old(out)@ + decimal(n as nat),
    decreases n,
{
    if n < 10 {
        push_char(out, digit(n));
        assert(old(out)@.push(digit_char(n as nat)) =~= old(out)@ + seq![digit_char(n as nat)]);
    } else {
        push_decimal(out, n / 10);
        push_char(out, digit(n % 10));
        assert((old(out)@ + decimal((n / 10) as nat)).push(digit_char((n % 10) as nat)) =~= old(
            out,
        )@ + decimal((n / 10) as nat).push(digit_char((n % 10) as nat)));
    }
}

} // verus!
