//! Bundled templates and the version stamp written into them.
//!
//! Each template body carries a `{{A2A_VERSION}}` placeholder that is
//! replaced by [`crate::A2A_VERSION`] when it is installed, so every
//! installed file names the binary that wrote it.
use vstd::prelude::*;
use vstd::utf8::encode_utf8;
use crate::text::{
    chars_of, contains_seq, find_range, find_seq, lemma_find_some, occurs_at, push_range,
};

verus! {

/// One bundled template file.
pub struct TemplateAsset {
    pub label: &'static str,
    /// Where the materialised copy is staged, under
    /// `<project>/.a2a/template/`.
    pub stage_rel: &'static str,
    /// Where the live copy goes, relative to the project root.
    pub dst_rel: &'static str,
    /// The body with its placeholders; what is installed is
    /// [`TemplateAsset::materialised`].
    pub raw: &'static str,
}

/// Every occurrence of `pat` (left to right, not overlapping) replaced
/// by `rep`, as `str::replace` does.
pub open spec fn replace_all(s: Seq<char>, pat: Seq<char>, rep: Seq<char>) -> Seq<char>
    recommends
        pat.len() > 0,
    decreases s.len(),
{
    match find_seq(s, pat) {
        Some(i) => if 0 <= i && pat.len() > 0 && i + pat.len() <= s.len() {
            s.take(i) + rep + replace_all(s.skip(i + pat.len()), pat, rep)
        } else {
            s
        },
        None => s,
    }
}

pub open spec fn version_placeholder() -> Seq<char> {
    "{{A2A_VERSION}}"@
}

/// The template body with every `{{A2A_VERSION}}` replaced by the
/// crate version.
pub fn materialise_template(raw: &str) -> (r: String)
    ensures
        r@ == replace_all(raw@, version_placeholder(), crate::A2A_VERSION@),
{
    let v = chars_of(raw);
    let pat = chars_of("{{A2A_VERSION}}");
    proof {
        reveal_strlit("{{A2A_VERSION}}");
    }
    let mut out = String::new();
    let mut p: usize = 0;
    assert(v@.subrange(0, v@.len() as int) =~= raw@);
    loop
        invariant
            p <= v@.len(),
            v@ == raw@,
            pat@ == version_placeholder(),
            pat@.len() == 15,
            out@ + replace_all(v@.subrange(p as int, v@.len() as int), pat@, crate::A2A_VERSION@)
                == replace_all(raw@, pat@, crate::A2A_VERSION@),
        decreases v@.len() - p,
    {
        let ghost rest = v@.subrange(p as int, v@.len() as int);
        match find_range(&v, p, v.len(), &pat) {
            Some(i) => {
                proof {
                    lemma_find_some(rest, pat@);
                }
                let ghost before = out@;
                push_range(&mut out, &v, p, p + i);
                out.append(crate::A2A_VERSION);
                proof {
                    assert(rest.take(i as int) =~= v@.subrange(p as int, p + i));
                    assert(rest.skip(i + 15) =~= v@.subrange(p + i + 15, v@.len() as int));
                    assert(out@ + replace_all(v@.subrange(p + i + 15, v@.len() as int), pat@, crate::A2A_VERSION@)
                        =~= before + replace_all(rest, pat@, crate::A2A_VERSION@));
                }
                p = p + i + 15;
            },
            None => {
                let ghost before = out@;
                push_range(&mut out, &v, p, v.len());
                assert(out@ =~= before + replace_all(rest, pat@, crate::A2A_VERSION@));
                return out;
            },
        }
    }
}

/// A pattern occurrence in `x + r + y` that is in neither part needs a
/// character of `r` that the pattern contains.
proof fn lemma_no_occ_concat(x: Seq<char>, r: Seq<char>, y: Seq<char>, p: Seq<char>)
    requires
        p.len() > 0,
        r.len() > 0,
        !contains_seq(x, p),
        !contains_seq(y, p),
        forall|a: int, b: int| 0 <= a < r.len() && 0 <= b < p.len() ==> r[a] != p[b],
    ensures
        !contains_seq(x + r + y, p),
{
    let s = x + r + y;
    if contains_seq(s, p) {
        let k = choose|k: int| occurs_at(s, p, k);
        if k + p.len() <= x.len() {
            assert(x.subrange(k, k + p.len()) =~= s.subrange(k, k + p.len()));
            assert(occurs_at(x, p, k));
        } else if k >= x.len() + r.len() {
            let k2 = k - x.len() - r.len();
            assert(y.subrange(k2, k2 + p.len()) =~= s.subrange(k, k + p.len()));
            assert(occurs_at(y, p, k2));
        } else {
            // The window meets `r`.
            let j = if k >= x.len() {
                k
            } else {
                x.len() as int
            };
            assert(x.len() <= j < x.len() + r.len());
            assert(k <= j < k + p.len());
            assert(s.subrange(k, k + p.len())[j - k] == s[j]);
            assert(s[j] == r[j - x.len()]);
            assert(r[j - x.len()] == p[j - k]);
        }
    }
}

proof fn lemma_replace_leaves_none(s: Seq<char>, p: Seq<char>, rep: Seq<char>)
    requires
        p.len() > 0,
        rep.len() > 0,
        forall|a: int, b: int| 0 <= a < rep.len() && 0 <= b < p.len() ==> rep[a] != p[b],
    ensures
        !contains_seq(replace_all(s, p, rep), p),
    decreases s.len(),
{
    match find_seq(s, p) {
        Some(i) => {
            if 0 <= i && i + p.len() <= s.len() {
                lemma_replace_leaves_none(s.skip(i + p.len()), p, rep);
                lemma_find_some(s, p);
                assert(!contains_seq(s.take(i), p)) by {
                    if contains_seq(s.take(i), p) {
                        let k = choose|k: int| occurs_at(s.take(i), p, k);
                        assert(s.subrange(k, k + p.len()) =~= s.take(i).subrange(k, k + p.len()));
                        assert(occurs_at(s, p, k));
                    }
                }
                lemma_no_occ_concat(s.take(i), rep, replace_all(s.skip(i + p.len()), p, rep), p);
            } else {
                lemma_find_some(s, p);
            }
        },
        None => {},
    }
}

/// An installed template holds no version placeholder: every
/// `{{A2A_VERSION}}` is replaced, and the version text cannot form a new
/// one.
pub proof fn law_materialised_has_no_placeholder(raw: Seq<char>)
    ensures
        !contains_seq(replace_all(raw, version_placeholder(), crate::A2A_VERSION@), version_placeholder()),
{
    reveal_strlit("{{A2A_VERSION}}");
    reveal_strlit("0.1.0");
    let p = version_placeholder();
    let rep = crate::A2A_VERSION@;
    assert(rep =~= seq!['0', '.', '1', '.', '0']);
    assert(p =~= seq!['{', '{', 'A', '2', 'A', '_', 'V', 'E', 'R', 'S', 'I', 'O', 'N', '}', '}']);
    assert forall|a: int, b: int| 0 <= a < rep.len() && 0 <= b < p.len() implies rep[a] != p[b] by {}
    lemma_replace_leaves_none(raw, p, rep);
}

impl TemplateAsset {
    pub fn new(label: &'static str, stage_rel: &'static str, dst_rel: &'static str, raw: &'static str) -> (t: Self)
        ensures
            t.label == label,
            t.stage_rel == stage_rel,
            t.dst_rel == dst_rel,
            t.raw == raw,
    {
        TemplateAsset { label, stage_rel, dst_rel, raw }
    }

    /// The body as installed: placeholders replaced. The raw form is
    /// never written to disk.
    pub fn materialised(&self) -> (r: String)
        ensures
            r@ == replace_all(self.raw@, version_placeholder(), crate::A2A_VERSION@),
    {
        materialise_template(self.raw)
    }
}

/// The templates `a2a init` installs, as `(label, stage_rel, dst_rel)`:
/// the prompt template, the consultation protocol rule and the three
/// skills. Each is staged under `<project>/.a2a/template/<stage_rel>`
/// and installed live at `<project>/<dst_rel>`.
pub open spec fn manifest_spec() -> Seq<(Seq<char>, Seq<char>, Seq<char>)> {
    seq![
        ("prompt template"@, "prompt-template.md"@, ".cursor/templates/a2a-prompt-template.md"@),
        ("consultation protocol rule"@, "rules/40-a2a-protocol.mdc"@, ".cursor/rules/40-a2a-protocol.mdc"@),
        ("a2a consultation skill"@, "skill/a2a/SKILL.md"@, ".cursor/skills/a2a/SKILL.md"@),
        ("a2a operator skill"@, "skill/a2a-operator/SKILL.md"@, ".cursor/skills/a2a-operator/SKILL.md"@),
        ("a2a setup-guide skill"@, "skill/a2a-setup-guide/SKILL.md"@, ".cursor/skills/a2a-setup-guide/SKILL.md"@),
    ]
}

pub fn template_manifest() -> (r: Vec<(&'static str, &'static str, &'static str)>)
    ensures
        r@.map_values(|t: (&'static str, &'static str, &'static str)| (t.0@, t.1@, t.2@))
            == manifest_spec(),
{
    let mut r: Vec<(&'static str, &'static str, &'static str)> = Vec::new();
    r.push(("prompt template", "prompt-template.md", ".cursor/templates/a2a-prompt-template.md"));
    r.push(("consultation protocol rule", "rules/40-a2a-protocol.mdc", ".cursor/rules/40-a2a-protocol.mdc"));
    r.push(("a2a consultation skill", "skill/a2a/SKILL.md", ".cursor/skills/a2a/SKILL.md"));
    r.push(("a2a operator skill", "skill/a2a-operator/SKILL.md", ".cursor/skills/a2a-operator/SKILL.md"));
    r.push(("a2a setup-guide skill", "skill/a2a-setup-guide/SKILL.md", ".cursor/skills/a2a-setup-guide/SKILL.md"));
    assert(r@.map_values(|t: (&'static str, &'static str, &'static str)| (t.0@, t.1@, t.2@))
        =~= manifest_spec());
    r
}

/// Whether bytes read from an installed file equal the template body.
pub fn same_content(existing: &Vec<u8>, body: &str) -> (b: bool)
    ensures
        b == (existing@ == encode_utf8(body@)),
{
    let bytes = body.as_bytes();
    if existing.len() != bytes.len() {
        return false;
    }
    let mut i: usize = 0;
    while i < existing.len()
        invariant
            i <= existing@.len(),
            existing@.len() == bytes@.len(),
            bytes@ == encode_utf8(body@),
            forall|j: int| 0 <= j < i ==> existing@[j] == bytes@[j],
        decreases existing@.len() - i,
    {
        if existing[i] != bytes[i] {
            return false;
        }
        i += 1;
    }
    assert(existing@ =~= bytes@);
    true
}

/// What installing a template does at a path: write it when it is
/// missing or `--force` is given; otherwise leave the file and report
/// whether it still matches.
#[derive(Debug, Clone, Copy, PartialEq, Eq, Structural)]
pub enum TemplateWrite {
    Write,
    Compare,
}

pub fn template_write_plan(exists: bool, force: bool) -> (w: TemplateWrite)
    ensures
        w == (if exists && !force {
            TemplateWrite::Compare
        } else {
            TemplateWrite::Write
        }),
{
    if exists && !force {
        TemplateWrite::Compare
    } else {
        TemplateWrite::Write
    }
}

/// The line reported for a template path: written, unchanged, or kept
/// because it was edited locally.
pub open spec fn template_line_spec(dst: Seq<char>, written: bool, same: bool) -> Seq<char> {
    if written {
        "wrote  "@ + dst
    } else if same {
        "ok     "@ + dst + " (matches template)"@
    } else {
        "kept   "@ + dst + " (locally modified; re-run with --force to overwrite)"@
    }
}

pub fn template_line(dst: &str, written: bool, same: bool) -> (r: String)
    ensures
        r@ == template_line_spec(dst@, written, same),
{
    let mut s = if written {
        String::from_str("wrote  ")
    } else if same {
        String::from_str("ok     ")
    } else {
        String::from_str("kept   ")
    };
    s.append(dst);
    if !written {
        if same {
            s.append(" (matches template)");
        } else {
            s.append(" (locally modified; re-run with --force to overwrite)");
        }
    }
    s
}

/// The `.gitignore` written into `consultations/`.
pub const CONSULT_GITIGNORE: &'static str =
    "# auto-generated by a2a init\n# consult dirs (timestamped) are user-private; ignore everything\n*\n";

/// The block printed at the end of `a2a init`, worded for an AI agent to
/// relay: restart Cursor, open a new chat, type `a2a_guide`.
pub open spec fn post_init_lines_spec() -> Seq<Seq<char>> {
    seq![
        seq![],
        "a2a templates installed."@,
        seq![],
        "================================================================"@,
        "  NEXT STEP \u{2014} restart required for skill activation"@,
        "================================================================"@,
        seq![],
        "If you are an AI agent: tell the user to do these 4 things, in order:"@,
        seq![],
        "  1. Close Cursor completely (every window, including the welcome screen)."@,
        "  2. Reopen Cursor on this project."@,
        "  3. Open a NEW chat in this project."@,
        "  4. Type the single word, exactly: a2a_guide"@,
        seq![],
        "That triggers the freshly-installed `a2a-setup-guide` skill, which"@,
        "walks the user through registering a Cursor API key and registering"@,
        "at least one model alias. After that, `a2a ask <topic> --prompt-file"@,
        "<path>` is ready to use."@,
        seq![],
        "Restart is REQUIRED \u{2014} Cursor only loads new skills under .cursor/skills/"@,
        "on startup; without a restart the skill won't be visible to the agent"@,
        "in the current session."@,
    ]
}

pub fn post_init_lines() -> (r: Vec<String>)
    ensures
        crate::text::strings_view(r@) == post_init_lines_spec(),
{
    let mut r: Vec<String> = Vec::new();
    proof {
        reveal_strlit("");
    }
    crate::text::push_string(&mut r, "");
    crate::text::push_string(&mut r, "a2a templates installed.");
    crate::text::push_string(&mut r, "");
    crate::text::push_string(&mut r, "================================================================");
    crate::text::push_string(&mut r, "  NEXT STEP \u{2014} restart required for skill activation");
    crate::text::push_string(&mut r, "================================================================");
    crate::text::push_string(&mut r, "");
    crate::text::push_string(&mut r, "If you are an AI agent: tell the user to do these 4 things, in order:");
    crate::text::push_string(&mut r, "");
    crate::text::push_string(&mut r, "  1. Close Cursor completely (every window, including the welcome screen).");
    crate::text::push_string(&mut r, "  2. Reopen Cursor on this project.");
    crate::text::push_string(&mut r, "  3. Open a NEW chat in this project.");
    crate::text::push_string(&mut r, "  4. Type the single word, exactly: a2a_guide");
    crate::text::push_string(&mut r, "");
    crate::text::push_string(&mut r, "That triggers the freshly-installed `a2a-setup-guide` skill, which");
    crate::text::push_string(&mut r, "walks the user through registering a Cursor API key and registering");
    crate::text::push_string(&mut r, "at least one model alias. After that, `a2a ask <topic> --prompt-file");
    crate::text::push_string(&mut r, "<path>` is ready to use.");
    crate::text::push_string(&mut r, "");
    crate::text::push_string(&mut r, "Restart is REQUIRED \u{2014} Cursor only loads new skills under .cursor/skills/");
    crate::text::push_string(&mut r, "on startup; without a restart the skill won't be visible to the agent");
    crate::text::push_string(&mut r, "in the current session.");
    proof {
        let sv = crate::text::strings_view(r@);
        let sp = post_init_lines_spec();
        assert(""@ =~= Seq::<char>::empty());
        assert(sv.len() == sp.len());
        assert forall|i: int| 0 <= i < sv.len() implies sv[i] == sp[i] by {}
        assert(sv =~= sp);
    }
    r
}

} // verus!
