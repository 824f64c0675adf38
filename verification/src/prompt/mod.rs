//! Prompt frontmatter: an optional YAML-like block at the top of a prompt
//! file, of which only `context_files` is read.
//!
//! The block starts with a line `---` (after any byte-order marks) and ends
//! at the next `\n---`. `context_files` is either an inline list
//! `[a, "b"]`, a single value, or a `- item` list on the following lines.
use vstd::prelude::*;
use crate::{A2aError, ErrView, other_err};
use crate::text::{
    chars_of, find_range, find_seq, line_bounds, lines_seq, starts_with, starts_with_range,
    split_char, string_of, strip_boms, trim_at, trim_seq, trim_start_at, trim_start_seq, eq_range,
    lemma_find_some, contains_seq,
};

verus! {

/// What a prompt's frontmatter declares.
pub struct Frontmatter {
    pub context_files: Vec<String>,
}

impl View for Frontmatter {
    type V = Seq<Seq<char>>;

    open spec fn view(&self) -> Seq<Seq<char>> {
        self.context_files@.map_values(|s: String| s@)
    }
}

impl Frontmatter {
    /// No context files.
    pub fn empty() -> (f: Frontmatter)
        ensures
            f@ == Seq::<Seq<char>>::empty(),
    {
        let f = Frontmatter { context_files: Vec::new() };
        assert(f@ =~= Seq::<Seq<char>>::empty());
        f
    }
}

/// `"x"` or `'x'` loses its quotes (after trimming); anything else is
/// only trimmed.
pub open spec fn unquote_spec(s0: Seq<char>) -> Seq<char> {
    let s = trim_seq(s0);
    if s.len() >= 2 && ((s[0] == '"' && s.last() == '"') || (s[0] == '\'' && s.last() == '\'')) {
        s.subrange(1, s.len() - 1)
    } else {
        s
    }
}

/// The non-empty unquoted pieces.
pub open spec fn nonempty_unquoted(pieces: Seq<Seq<char>>) -> Seq<Seq<char>>
    decreases pieces.len(),
{
    if pieces.len() == 0 {
        seq![]
    } else {
        let u = unquote_spec(pieces[0]);
        (if u.len() > 0 {
            seq![u]
        } else {
            seq![]
        }) + nonempty_unquoted(pieces.drop_first())
    }
}

/// Items of an inline list's inside (between the brackets).
pub open spec fn inline_items(inner: Seq<char>) -> Seq<Seq<char>> {
    nonempty_unquoted(split_char(inner, ','))
}

/// A `- item` list starting at line `j`: its items and the index of the
/// first line after it. Blank lines inside the list are skipped.
pub open spec fn list_from(lines: Seq<Seq<char>>, j: int) -> (Seq<Seq<char>>, int)
    decreases lines.len() - j,
{
    if j < 0 || j >= lines.len() {
        (seq![], j)
    } else {
        let nt = trim_start_seq(lines[j]);
        if starts_with(nt, "- "@) {
            let rest = list_from(lines, j + 1);
            (seq![unquote_spec(nt.skip(2))] + rest.0, rest.1)
        } else if nt.len() == 0 {
            list_from(lines, j + 1)
        } else {
            (seq![], j)
        }
    }
}

/// The `context_files` entries declared from line `i` on.
pub open spec fn parse_from(lines: Seq<Seq<char>>, i: int) -> Seq<Seq<char>>
    decreases lines.len() - i, 0int,
{
    if i < 0 || i >= lines.len() {
        seq![]
    } else {
        let t = trim_seq(lines[i]);
        if t.len() == 0 || t[0] == '#' {
            parse_from(lines, i + 1)
        } else {
            match find_seq(t, ":"@) {
                Some(c) => if 0 <= c < t.len() && trim_seq(t.take(c)) == "context_files"@ {
                    let v = trim_seq(t.skip(c + 1));
                    if v.len() == 0 || v[0] == '[' {
                        if v.len() > 0 && v[0] == '[' && v.last() == ']' {
                            inline_items(v.subrange(1, v.len() - 1)) + parse_from(lines, i + 1)
                        } else {
                            let l = list_from(lines, i + 1);
                            if i < l.1 <= lines.len() {
                                l.0 + parse_from(lines, l.1)
                            } else {
                                l.0
                            }
                        }
                    } else {
                        seq![unquote_spec(v)] + parse_from(lines, i + 1)
                    }
                } else {
                    parse_from(lines, i + 1)
                },
                None => parse_from(lines, i + 1),
            }
        }
    }
}

/// Frontmatter present: `---` followed by a line break, or exactly `---`.
pub open spec fn has_frontmatter(t: Seq<char>) -> bool {
    starts_with(t, "---\n"@) || starts_with(t, "---\r\n"@) || t == "---"@
}

/// The `context_files` a prompt declares, or `Err` when the frontmatter
/// is not closed.
pub open spec fn frontmatter_spec(raw: Seq<char>) -> Result<Seq<Seq<char>>, ()> {
    let t = strip_boms(raw);
    if !has_frontmatter(t) {
        Ok(seq![])
    } else {
        let after = t.skip(3);
        match find_seq(after, "\n---"@) {
            Some(end) => Ok(parse_from(lines_seq(after.take(end)), 0)),
            None => Err(()),
        }
    }
}

pub open spec fn not_closed_msg() -> Seq<char> {
    "frontmatter not closed (missing trailing `---`)"@
}

proof fn lemma_list_end(lines: Seq<Seq<char>>, j: int)
    requires
        0 <= j <= lines.len(),
    ensures
        j <= list_from(lines, j).1 <= lines.len(),
    decreases lines.len() - j,
{
    if j < lines.len() {
        let nt = trim_start_seq(lines[j]);
        if starts_with(nt, "- "@) || nt.len() == 0 {
            lemma_list_end(lines, j + 1);
        }
    }
}

/// `unquote` on the characters `v[a..b]`, as a sub-range.
fn unquote_at(v: &Vec<char>, a: usize, b: usize) -> (r: (usize, usize))
    requires
        a <= b <= v@.len(),
    ensures
        r.0 <= r.1 <= v@.len(),
        v@.subrange(r.0 as int, r.1 as int) == unquote_spec(v@.subrange(a as int, b as int)),
{
    let (ta, tb) = trim_at(v, a, b);
    proof {
        let s = v@.subrange(ta as int, tb as int);
        assert(s.len() == tb - ta);
        if s.len() >= 2 {
            assert(s[0] == v@[ta as int]);
            assert(s.last() == v@[tb - 1]);
            assert(s.subrange(1, s.len() - 1) =~= v@.subrange(ta + 1, tb - 1));
        }
    }
    if tb - ta >= 2 && ((v[ta] == '"' && v[tb - 1] == '"') || (v[ta] == '\'' && v[tb - 1] == '\'')) {
        (ta + 1, tb - 1)
    } else {
        (ta, tb)
    }
}

/// Items of the inline list `v[a..b]` (the inside of the brackets).
fn inline_list(v: &Vec<char>, a: usize, b: usize, out: &mut Vec<String>)
    requires
        a <= b <= v@.len(),
    ensures
        final(out)@.map_values(|s: String| s@) == old(out)@.map_values(|s: String| s@)
            + inline_items(v@.subrange(a as int, b as int)),
{
    let comma: Vec<char> = vec![','];
    let mut p = a;
    let ghost whole = inline_items(v@.subrange(a as int, b as int));
    loop
        invariant
            a <= p <= b <= v@.len(),
            comma@ == seq![','],
            whole == inline_items(v@.subrange(a as int, b as int)),
            old(out)@.map_values(|s: String| s@) + whole == out@.map_values(|s: String| s@)
                + nonempty_unquoted(split_char(v@.subrange(p as int, b as int), ',')),
        decreases b - p,
    {
        let ghost s = v@.subrange(p as int, b as int);
        let ghost before = out@.map_values(|s: String| s@);
        let (end, last) = match find_range(v, p, b, &comma) {
            Some(q) => {
                proof {
                    lemma_find_some(s, comma@);
                    assert(s.subrange(q as int, q + 1)[0] == s[q as int]);
                }
                (p + q, false)
            },
            None => (b, true),
        };
        let (ua, ub) = unquote_at(v, p, end);
        proof {
            let pieces = split_char(s, ',');
            if last {
                assert(pieces == seq![s]);
            } else {
                assert(s.take((end - p) as int) =~= v@.subrange(p as int, end as int));
                assert(s.skip((end - p) + 1) =~= v@.subrange(end + 1, b as int));
            }
            assert(pieces[0] =~= v@.subrange(p as int, end as int));
        }
        if ua < ub {
            let item = string_of(v, ua, ub);
            out.push(item);
        }
        proof {
            let pieces = split_char(s, ',');
            assert(pieces.drop_first() == if last {
                Seq::<Seq<char>>::empty()
            } else {
                split_char(v@.subrange(end + 1, b as int), ',')
            }) by {
                if last {
                    assert(pieces.drop_first() =~= Seq::<Seq<char>>::empty());
                } else {
                    assert(pieces.drop_first() =~= split_char(v@.subrange(end + 1, b as int), ','));
                }
            }
            if ua < ub {
                assert(out@.map_values(|s: String| s@) =~= before.push(
                    v@.subrange(ua as int, ub as int),
                ));
            } else {
                assert(out@.map_values(|s: String| s@) =~= before);
            }
        }
        if last {
            proof {
                assert(nonempty_unquoted(Seq::<Seq<char>>::empty()) == Seq::<Seq<char>>::empty());
                assert(old(out)@.map_values(|s: String| s@) + whole =~= out@.map_values(
                    |s: String| s@,
                ));
            }
            return;
        }
        proof {
            let rest = nonempty_unquoted(split_char(v@.subrange(end + 1, b as int), ','));
            let u = unquote_spec(v@.subrange(p as int, end as int));
            if ua < ub {
                assert(before + (seq![u] + rest) =~= before.push(u) + rest);
            } else {
                assert(before + (Seq::<Seq<char>>::empty() + rest) =~= before + rest);
            }
        }
        p = end + 1;
    }
}

/// `parse_frontmatter_str`: the declared `context_files` of a prompt.
pub fn parse_frontmatter_str(raw: &str) -> (r: Result<Frontmatter, A2aError>)
    ensures
        match frontmatter_spec(raw@) {
            Ok(files) => r matches Ok(f) && f@ == files,
            Err(()) => r matches Err(e) && e@ == ErrView::Other(not_closed_msg()),
        },
{
    let v = chars_of(raw);
    let n = v.len();
    let mut s: usize = 0;
    proof {
        assert(v@.subrange(0, n as int) =~= raw@);
    }
    while s < n && v[s] == '\u{feff}'
        invariant
            s <= n == v@.len(),
            strip_boms(v@.subrange(s as int, n as int)) == strip_boms(raw@),
        decreases n - s,
    {
        assert(v@.subrange(s as int, n as int).drop_first() =~= v@.subrange(s + 1, n as int));
        s += 1;
    }
    proof {
        assert(v@.subrange(0, n as int) =~= raw@);
    }
    let ghost t = v@.subrange(s as int, n as int);
    assert(strip_boms(t) == t);
    assert(strip_boms(raw@) == t);
    let p1 = chars_of("---\n");
    let p2 = chars_of("---\r\n");
    let p3 = chars_of("---");
    let opens = starts_with_range(&v, s, n, &p1) || starts_with_range(&v, s, n, &p2) || eq_range(
        &v,
        s,
        n,
        &p3,
    );
    if !opens {
        return Ok(Frontmatter::empty());
    }
    proof {
        reveal_strlit("---\n");
        reveal_strlit("---\r\n");
        reveal_strlit("---");
        assert(t.len() >= 3);
    }
    let a = s + 3;
    let marker = chars_of("\n---");
    let ghost after = t.skip(3);
    assert(after =~= v@.subrange(a as int, n as int));
    let end = match find_range(&v, a, n, &marker) {
        None => {
            return Err(other_err(String::from_str("frontmatter not closed (missing trailing `---`)")));
        },
        Some(q) => {
            proof {
                lemma_find_some(after, marker@);
            }
            q
        },
    };
    let ye = a + end;
    assert(after.take(end as int) =~= v@.subrange(a as int, ye as int));
    let f = parse_yaml_range(&v, a, ye);
    Ok(f)
}

/// The frontmatter YAML `v[a..ye]` read line by line: `context_files:`
/// with an inline `[..]` list, a `- item` list on the following lines,
/// or a single value. Every other line is ignored, so this never fails.
fn parse_yaml_range(v: &Vec<char>, a: usize, ye: usize) -> (f: Frontmatter)
    requires
        a <= ye <= v@.len(),
    ensures
        f@ == parse_from(lines_seq(v@.subrange(a as int, ye as int)), 0),
{
    let bounds = line_bounds(&v, a, ye);
    let ghost lines = lines_seq(v@.subrange(a as int, ye as int));
    let mut files: Vec<String> = Vec::new();
    let colon = chars_of(":");
    let key = chars_of("context_files");
    let dash = chars_of("- ");
    proof {
        reveal_strlit(":");
        reveal_strlit("- ");
    }
    let mut i: usize = 0;
    while i < bounds.len()
        invariant
            bounds@.len() == lines.len(),
            forall|k: int|
                0 <= k < bounds@.len() ==> (#[trigger] bounds@[k]).0 <= bounds@[k].1 <= v@.len()
                    && v@.subrange(bounds@[k].0 as int, bounds@[k].1 as int) == lines[k],
            i <= bounds@.len(),
            colon@ == ":"@,
            colon@.len() == 1,
            key@ == "context_files"@,
            dash@ == "- "@,
            dash@.len() == 2,
            files@.map_values(|s: String| s@) + parse_from(lines, i as int) == parse_from(lines, 0),
        decreases bounds@.len() - i,
    {
        let ghost before = files@.map_values(|s: String| s@);
        let (la, lb) = bounds[i];
        let (ta, tb) = trim_at(&v, la, lb);
        let ghost tl = v@.subrange(ta as int, tb as int);
        assert(tl == trim_seq(lines[i as int]));
        if ta == tb || v[ta] == '#' {
            proof {
                if ta < tb {
                    assert(tl[0] == v@[ta as int]);
                }
            }
            i += 1;
            continue;
        }
        assert(tl[0] == v@[ta as int]);
        let c = match find_range(&v, ta, tb, &colon) {
            None => {
                i += 1;
                continue;
            },
            Some(c) => {
                proof {
                    lemma_find_some(tl, colon@);
                }
                c
            },
        };
        let (ka, kb) = trim_at(&v, ta, ta + c);
        assert(tl.take(c as int) =~= v@.subrange(ta as int, ta + c));
        if !eq_range(&v, ka, kb, &key) {
            i += 1;
            continue;
        }
        let (va, vb) = trim_at(&v, ta + c + 1, tb);
        assert(tl.skip(c + 1) =~= v@.subrange(ta + c + 1, tb as int));
        let ghost val = v@.subrange(va as int, vb as int);
        proof {
            if va < vb {
                assert(val[0] == v@[va as int]);
                assert(val.last() == v@[vb - 1]);
            }
        }
        if va == vb || v[va] == '[' {
            if va < vb && v[va] == '[' && v[vb - 1] == ']' && vb - va >= 2 {
                proof {
                    assert(val.subrange(1, val.len() - 1) =~= v@.subrange(va + 1, vb - 1));
                }
                inline_list(&v, va + 1, vb - 1, &mut files);
                proof {
                    let items = inline_items(val.subrange(1, val.len() - 1));
                    assert(parse_from(lines, i as int) == items + parse_from(lines, i + 1));
                    assert(before + (items + parse_from(lines, i + 1)) =~= (before + items)
                        + parse_from(lines, i + 1));
                }
                i += 1;
            } else {
                proof {
                    if va < vb && v@[va as int] == '[' && v@[vb - 1] == ']' {
                        assert(vb - va >= 2);
                    }
                    lemma_list_end(lines, i + 1);
                }
                let ghost full_list = list_from(lines, i + 1);
                let mut j = i + 1;
                while j < bounds.len()
                    invariant
                        bounds@.len() == lines.len(),
                        forall|k: int|
                            0 <= k < bounds@.len() ==> (#[trigger] bounds@[k]).0 <= bounds@[k].1
                                <= v@.len() && v@.subrange(bounds@[k].0 as int, bounds@[k].1 as int)
                                == lines[k],
                        i + 1 <= j <= bounds@.len(),
                        dash@ == "- "@,
                        dash@.len() == 2,
                        full_list == list_from(lines, i + 1),
                        list_from(lines, j as int).1 == full_list.1,
                        before + full_list.0 == files@.map_values(|s: String| s@) + list_from(
                            lines,
                            j as int,
                        ).0,
                    ensures
                        i + 1 <= j <= bounds@.len(),
                        list_from(lines, j as int).1 == full_list.1,
                        before + full_list.0 == files@.map_values(|s: String| s@) + list_from(
                            lines,
                            j as int,
                        ).0,
                        list_from(lines, j as int).0 == Seq::<Seq<char>>::empty(),
                        list_from(lines, j as int).1 == j as int,
                    decreases bounds@.len() - j,
                {
                    let ghost before_j = files@.map_values(|s: String| s@);
                    let (ja, jb) = bounds[j];
                    let na = trim_start_at(&v, ja, jb);
                    let ghost nt = v@.subrange(na as int, jb as int);
                    if starts_with_range(&v, na, jb, &dash) {
                        let (ua, ub) = unquote_at(&v, na + 2, jb);
                        assert(nt.skip(2) =~= v@.subrange(na + 2, jb as int));
                        let item = string_of(&v, ua, ub);
                        files.push(item);
                        proof {
                            let rest = list_from(lines, j + 1);
                            assert(list_from(lines, j as int).0 == seq![unquote_spec(nt.skip(2))]
                                + rest.0);
                            assert(files@.map_values(|s: String| s@) =~= before_j.push(
                                unquote_spec(nt.skip(2)),
                            ));
                            assert(before_j + (seq![unquote_spec(nt.skip(2))] + rest.0) =~= before_j.push(
                                unquote_spec(nt.skip(2)),
                            ) + rest.0);
                        }
                        j += 1;
                    } else if na == jb {
                        j += 1;
                    } else {
                        break;
                    }
                }
                proof {
                    if j >= bounds.len() {
                        assert(list_from(lines, j as int).0 == Seq::<Seq<char>>::empty());
                    }
                    assert(list_from(lines, j as int).0 =~= Seq::<Seq<char>>::empty());
                    assert(full_list.1 == j);
                    assert(files@.map_values(|s: String| s@) =~= before + full_list.0);
                    assert(parse_from(lines, i as int) == full_list.0 + parse_from(lines, j as int));
                    assert(before + (full_list.0 + parse_from(lines, j as int)) =~= (before
                        + full_list.0) + parse_from(lines, j as int));
                }
                i = j;
            }
        } else {
            let (ua, ub) = unquote_at(&v, va, vb);
            let item = string_of(&v, ua, ub);
            files.push(item);
            proof {
                let u = unquote_spec(val);
                assert(files@.map_values(|s: String| s@) =~= before.push(u));
                assert(before + (seq![u] + parse_from(lines, i + 1)) =~= before.push(u)
                    + parse_from(lines, i + 1));
            }
            i += 1;
        }
    }
    assert(parse_from(lines, i as int) == Seq::<Seq<char>>::empty());
    assert(files@.map_values(|s: String| s@) + Seq::<Seq<char>>::empty() =~= files@.map_values(
        |s: String| s@,
    ));
    Frontmatter { context_files: files }
}

/// The minimal YAML reader of a frontmatter block: the declared
/// `context_files`, from an inline `[a, b]` list, a `- item` list on the
/// lines that follow, or a single value. Blank lines, `#` comments, lines
/// without `:` and other keys add nothing; it never fails.
pub fn parse_minimal_frontmatter_yaml(yaml: &str) -> (f: Frontmatter)
    ensures
        f@ == parse_from(lines_seq(yaml@), 0),
{
    let v = chars_of(yaml);
    assert(v@.subrange(0, v@.len() as int) =~= yaml@);
    parse_yaml_range(&v, 0, v.len())
}

/// Only an unclosed frontmatter fails: a prompt without frontmatter, or
/// with one closed by a `\n---` line, always yields its context files.
pub proof fn law_frontmatter_fails_only_unclosed(raw: Seq<char>)
    ensures
        (frontmatter_spec(raw) is Err) <==> (has_frontmatter(strip_boms(raw)) && !contains_seq(
            strip_boms(raw).skip(3),
            "\n---"@,
        )),
{
}

/// A line the reader ignores: blank, a `#` comment, without `:`, or with
/// a key other than `context_files`.
pub open spec fn ignored_line(line: Seq<char>) -> bool {
    let t = trim_seq(line);
    t.len() == 0 || t[0] == '#' || match find_seq(t, ":"@) {
        Some(c) => trim_seq(t.take(c)) != "context_files"@,
        None => true,
    }
}

/// Ignored lines add nothing to the declared files.
pub proof fn law_ignored_lines_add_nothing(lines: Seq<Seq<char>>, i: int)
    requires
        0 <= i < lines.len(),
        ignored_line(lines[i]),
    ensures
        parse_from(lines, i) == parse_from(lines, i + 1),
{
    let t = trim_seq(lines[i]);
    if !(t.len() == 0 || t[0] == '#') {
        if contains_seq(t, ":"@) {
            lemma_find_some(t, ":"@);
        }
    }
}


} // verus!
