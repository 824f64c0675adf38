//! `a2a` with no subcommand (the welcome wizard) and `a2a --agent` (the
//! agent-mode health report): what they conclude from the facts the
//! program gathers, and what they print about it.
use vstd::prelude::*;
use crate::text::{
    chars_of, decimal, push_decimal, push_range, push_string, starts_with, str_eq, str_lowercase,
    strings_view, to_lowercase, trim_at, trim_seq,
};

verus! {

// ---------------------------------------------------------------------
// The user-level PATH
// ---------------------------------------------------------------------

/// Trailing `\` and `/` removed.
pub open spec fn strip_trailing_seps(s: Seq<char>) -> Seq<char>
    decreases s.len(),
{
    if s.len() > 0 && (s.last() == '\\' || s.last() == '/') {
        strip_trailing_seps(s.drop_last())
    } else {
        s
    }
}

/// The form in which PATH entries are compared: trimmed, without
/// trailing separators, lowercased.
pub open spec fn normalize_spec(p: Seq<char>) -> Seq<char> {
    str_lowercase(strip_trailing_seps(trim_seq(p)))
}

pub fn normalize(p: &str) -> (r: String)
    ensures
        r@ == normalize_spec(p@),
{
    let v = chars_of(p);
    let (a, b0) = trim_at(&v, 0, v.len());
    assert(v@.subrange(0, v@.len() as int) =~= p@);
    let mut b = b0;
    while b > a && (v[b - 1] == '\\' || v[b - 1] == '/')
        invariant
            a <= b <= b0 <= v@.len(),
            strip_trailing_seps(v@.subrange(a as int, b as int)) == strip_trailing_seps(
                v@.subrange(a as int, b0 as int),
            ),
        decreases b - a,
    {
        assert(v@.subrange(a as int, b as int).drop_last() =~= v@.subrange(a as int, b - 1));
        b -= 1;
    }
    let s = crate::text::string_of(&v, a, b);
    to_lowercase(s.as_str())
}

/// One entry of the user-level PATH, with whether the directory holds
/// an a2a binary (`a2a.exe` or `a2a`).
pub struct PathEntry {
    pub text: String,
    pub has_a2a_binary: bool,
}

/// Whether the running binary's directory is on the user PATH, and the
/// other entries that hold an a2a binary (left over from an earlier
/// install location).
pub struct UserPathState {
    pub current_dir_present: bool,
    pub stale_a2a_entries: Vec<String>,
}

pub open spec fn analyze_spec(target: Seq<char>, es: Seq<PathEntry>) -> (bool, Seq<Seq<char>>)
    decreases es.len(),
{
    if es.len() == 0 {
        (false, seq![])
    } else {
        let prev = analyze_spec(target, es.drop_last());
        let t = trim_seq(es.last().text@);
        if t.len() == 0 {
            prev
        } else if normalize_spec(t) == normalize_spec(target) {
            (true, prev.1)
        } else if es.last().has_a2a_binary {
            (prev.0, prev.1.push(t))
        } else {
            prev
        }
    }
}

/// Compare every non-blank PATH entry with the running binary's
/// directory; entries naming another directory with an a2a binary are
/// stale.
pub fn analyze_user_path(exe_dir: &str, entries: &Vec<PathEntry>) -> (r: UserPathState)
    ensures
        r.current_dir_present == analyze_spec(exe_dir@, entries@).0,
        strings_view(r.stale_a2a_entries@) == analyze_spec(exe_dir@, entries@).1,
{
    let target = normalize(exe_dir);
    let mut present = false;
    let mut stale: Vec<String> = Vec::new();
    let mut i: usize = 0;
    while i < entries.len()
        invariant
            i <= entries@.len(),
            target@ == normalize_spec(exe_dir@),
            present == analyze_spec(exe_dir@, entries@.take(i as int)).0,
            strings_view(stale@) == analyze_spec(exe_dir@, entries@.take(i as int)).1,
        decreases entries@.len() - i,
    {
        let e = &entries[i];
        proof {
            let t = entries@.take(i + 1);
            assert(t.drop_last() =~= entries@.take(i as int));
            assert(t.last() == entries@[i as int]);
        }
        let v = chars_of(e.text.as_str());
        let (a, b) = trim_at(&v, 0, v.len());
        assert(v@.subrange(0, v@.len() as int) =~= e.text@);
        if a < b {
            let t = crate::text::string_of(&v, a, b);
            let n = normalize(t.as_str());
            if str_eq(n.as_str(), target.as_str()) {
                present = true;
            } else if e.has_a2a_binary {
                push_string(&mut stale, t.as_str());
            }
        }
        i += 1;
    }
    assert(entries@.take(entries@.len() as int) =~= entries@);
    UserPathState { current_dir_present: present, stale_a2a_entries: stale }
}

/// A Y/n answer: empty (the default), `y` or `yes`, in any case.
pub open spec fn is_yes_spec(answer: Seq<char>) -> bool {
    let s = str_lowercase(trim_seq(answer));
    s.len() == 0 || s == "y"@ || s == "yes"@
}

pub fn is_yes(answer: &str) -> (b: bool)
    ensures
        b == is_yes_spec(answer@),
{
    let v = chars_of(answer);
    let (a, b) = trim_at(&v, 0, v.len());
    assert(v@.subrange(0, v@.len() as int) =~= answer@);
    let t = crate::text::string_of(&v, a, b);
    let s = to_lowercase(t.as_str());
    s.as_str().unicode_len() == 0 || str_eq(s.as_str(), "y") || str_eq(s.as_str(), "yes")
}

/// A Windows verbatim prefix `\\?\` removed from a displayed path.
pub open spec fn strip_verbatim_spec(s: Seq<char>) -> Seq<char> {
    if starts_with(s, "\\\\?\\"@) {
        s.skip(4)
    } else {
        s
    }
}

pub fn strip_verbatim_prefix(s: &str) -> (r: String)
    ensures
        r@ == strip_verbatim_spec(s@),
{
    let v = chars_of(s);
    let p = chars_of("\\\\?\\");
    proof {
        reveal_strlit("\\\\?\\");
    }
    assert(v@.subrange(0, v@.len() as int) =~= s@);
    if crate::text::starts_with_range(&v, 0, v.len(), &p) {
        crate::text::string_of(&v, 4, v.len())
    } else {
        String::from_str(s)
    }
}

// ---------------------------------------------------------------------
// Wizard step 1: the PATH plan
// ---------------------------------------------------------------------

/// What step 1 offers, by whether the binary's directory is on PATH and
/// whether stale entries exist.
#[derive(Debug, Clone, Copy, PartialEq, Eq, Structural)]
pub enum PathPlan {
    /// On PATH, nothing stale: nothing to do.
    Clean,
    /// On PATH, stale entries to remove.
    RemoveStale,
    /// Not on PATH, nothing stale: add it.
    Add,
    /// Not on PATH and stale entries: add it and remove them.
    AddAndRemove,
}

pub open spec fn path_plan_spec(present: bool, stale_empty: bool) -> PathPlan {
    if present && stale_empty {
        PathPlan::Clean
    } else if present {
        PathPlan::RemoveStale
    } else if stale_empty {
        PathPlan::Add
    } else {
        PathPlan::AddAndRemove
    }
}

pub fn path_plan(state: &UserPathState) -> (p: PathPlan)
    ensures
        p == path_plan_spec(state.current_dir_present, state.stale_a2a_entries@.len() == 0),
{
    let empty = state.stale_a2a_entries.len() == 0;
    if state.current_dir_present && empty {
        PathPlan::Clean
    } else if state.current_dir_present {
        PathPlan::RemoveStale
    } else if empty {
        PathPlan::Add
    } else {
        PathPlan::AddAndRemove
    }
}

pub open spec fn bullet_list(prefix: Seq<char>, xs: Seq<Seq<char>>) -> Seq<Seq<char>> {
    Seq::new(xs.len(), |i: int| prefix + xs[i])
}

/// The lines step 1 prints before its question.
pub open spec fn path_report_spec(dir: Seq<char>, plan: PathPlan, stale: Seq<Seq<char>>) -> Seq<Seq<char>> {
    match plan {
        PathPlan::Clean => seq!["  [ok] "@ + dir + " is on your user PATH."@],
        PathPlan::RemoveStale => seq![
            "  [ok] "@ + dir + " is on your user PATH."@,
            "  [!!] But "@ + decimal(stale.len())
                + " OTHER PATH entry(ies) also contain an a2a.exe (likely"@,
            "       stale \u{2014} leftover from a previous install location):"@,
        ] + bullet_list("         - "@, stale) + seq![
            "       Removing them keeps a single canonical a2a binary on PATH so"@,
            "       `a2a` always resolves to the one you just double-clicked."@,
        ],
        PathPlan::Add => seq![
            "  [!!] "@ + dir + " is NOT on your user PATH."@,
            "       Adding it lets you type `a2a ...` from any directory"@,
            "       in a new terminal, instead of the full path to a2a.exe."@,
        ],
        PathPlan::AddAndRemove => seq![
            "  [!!] "@ + dir + " is NOT on your user PATH."@,
            "  [!!] "@ + decimal(stale.len())
                + " OTHER PATH entry(ies) also contain an a2a.exe (likely stale):"@,
        ] + bullet_list("         - "@, stale) + seq![
            seq![],
            "       Plan:"@,
            "         + add    "@ + dir,
        ] + bullet_list("         - remove "@, stale),
    }
}

/// The Y/n question of step 1, when there is something to do.
pub open spec fn path_question_spec(plan: PathPlan) -> Option<Seq<char>> {
    match plan {
        PathPlan::Clean => None,
        PathPlan::RemoveStale => Some("       Remove the stale entry(ies) now? [Y/n]:"@),
        PathPlan::Add => Some("       Add it now? [Y/n]:"@),
        PathPlan::AddAndRemove => Some("       Apply this plan now? [Y/n]:"@),
    }
}

fn push_bullets(out: &mut Vec<String>, prefix: &str, xs: &Vec<String>)
    ensures
        strings_view(final(out)@) == strings_view(old(out)@) + bullet_list(prefix@, strings_view(xs@)),
{
    let ghost before = strings_view(out@);
    let mut i: usize = 0;
    while i < xs.len()
        invariant
            i <= xs@.len(),
            strings_view(out@) == before + bullet_list(prefix@, strings_view(xs@).take(i as int)),
        decreases xs@.len() - i,
    {
        let mut l = String::from_str(prefix);
        l.append(xs[i].as_str());
        push_string(out, l.as_str());
        assert(bullet_list(prefix@, strings_view(xs@).take(i + 1)) =~= bullet_list(
            prefix@,
            strings_view(xs@).take(i as int),
        ).push(prefix@ + xs@[i as int]@));
        assert(strings_view(out@) =~= before + bullet_list(prefix@, strings_view(xs@).take(i + 1)));
        i += 1;
    }
    assert(strings_view(xs@).take(xs@.len() as int) =~= strings_view(xs@));
}

fn push_line2(out: &mut Vec<String>, a: &str, b: &str)
    ensures
        strings_view(final(out)@) == strings_view(old(out)@).push(a@ + b@),
{
    let mut l = String::from_str(a);
    l.append(b);
    push_string(out, l.as_str());
}

fn push_line3(out: &mut Vec<String>, a: &str, b: &str, c: &str)
    ensures
        strings_view(final(out)@) == strings_view(old(out)@).push(a@ + b@ + c@),
{
    let mut l = String::from_str(a);
    l.append(b);
    l.append(c);
    push_string(out, l.as_str());
}

fn push_count_line(out: &mut Vec<String>, a: &str, n: u64, c: &str)
    ensures
        strings_view(final(out)@) == strings_view(old(out)@).push(a@ + decimal(n as nat) + c@),
{
    let mut l = String::from_str(a);
    push_decimal(&mut l, n);
    l.append(c);
    push_string(out, l.as_str());
}

/// Step 1's report and question for the binary's directory `dir`.
pub fn path_report(dir: &str, state: &UserPathState) -> (r: (Vec<String>, Option<String>))
    ensures
        strings_view(r.0@) == path_report_spec(
            dir@,
            path_plan_spec(state.current_dir_present, state.stale_a2a_entries@.len() == 0),
            strings_view(state.stale_a2a_entries@),
        ),
        crate::runner::meta::opt_view(r.1) == path_question_spec(
            path_plan_spec(state.current_dir_present, state.stale_a2a_entries@.len() == 0),
        ),
{
    let plan = path_plan(state);
    let stale = &state.stale_a2a_entries;
    let ghost sv = strings_view(stale@);
    let mut out: Vec<String> = Vec::new();
    let q = match plan {
        PathPlan::Clean => {
            push_line3(&mut out, "  [ok] ", dir, " is on your user PATH.");
            assert(strings_view(out@) =~= path_report_spec(dir@, plan, sv));
            None
        },
        PathPlan::RemoveStale => {
            push_line3(&mut out, "  [ok] ", dir, " is on your user PATH.");
            push_count_line(
                &mut out,
                "  [!!] But ",
                stale.len() as u64,
                " OTHER PATH entry(ies) also contain an a2a.exe (likely",
            );
            push_string(&mut out, "       stale \u{2014} leftover from a previous install location):");
            let ghost a = strings_view(out@);
            push_bullets(&mut out, "         - ", stale);
            let ghost b = strings_view(out@);
            push_string(&mut out, "       Removing them keeps a single canonical a2a binary on PATH so");
            push_string(&mut out, "       `a2a` always resolves to the one you just double-clicked.");
            proof {
                let head = seq![
                    "  [ok] "@ + dir@ + " is on your user PATH."@,
                    "  [!!] But "@ + decimal(sv.len())
                        + " OTHER PATH entry(ies) also contain an a2a.exe (likely"@,
                    "       stale \u{2014} leftover from a previous install location):"@,
                ];
                assert(a =~= head);
                assert(b == head + bullet_list("         - "@, sv));
                assert(strings_view(out@) =~= path_report_spec(dir@, plan, sv));
            }
            Some(String::from_str("       Remove the stale entry(ies) now? [Y/n]:"))
        },
        PathPlan::Add => {
            push_line3(&mut out, "  [!!] ", dir, " is NOT on your user PATH.");
            push_string(&mut out, "       Adding it lets you type `a2a ...` from any directory");
            push_string(&mut out, "       in a new terminal, instead of the full path to a2a.exe.");
            assert(strings_view(out@) =~= path_report_spec(dir@, plan, sv));
            Some(String::from_str("       Add it now? [Y/n]:"))
        },
        PathPlan::AddAndRemove => {
            push_line3(&mut out, "  [!!] ", dir, " is NOT on your user PATH.");
            push_count_line(
                &mut out,
                "  [!!] ",
                stale.len() as u64,
                " OTHER PATH entry(ies) also contain an a2a.exe (likely stale):",
            );
            let ghost a = strings_view(out@);
            push_bullets(&mut out, "         - ", stale);
            let ghost b = strings_view(out@);
            proof {
                reveal_strlit("");
            }
            push_string(&mut out, "");
            push_string(&mut out, "       Plan:");
            push_line2(&mut out, "         + add    ", dir);
            let ghost c = strings_view(out@);
            push_bullets(&mut out, "         - remove ", stale);
            proof {
                let head = seq![
                    "  [!!] "@ + dir@ + " is NOT on your user PATH."@,
                    "  [!!] "@ + decimal(sv.len())
                        + " OTHER PATH entry(ies) also contain an a2a.exe (likely stale):"@,
                ];
                let mid = seq![seq![], "       Plan:"@, "         + add    "@ + dir@];
                assert(""@ =~= Seq::<char>::empty());
                assert(a =~= head);
                assert(c =~= head + bullet_list("         - "@, sv) + mid);
                assert(strings_view(out@) =~= path_report_spec(dir@, plan, sv));
            }
            Some(String::from_str("       Apply this plan now? [Y/n]:"))
        },
    };
    (out, q)
}

/// Which PATH changes a confirmed plan makes: (add the directory,
/// remove the stale entries). Nothing changes without a yes.
pub fn path_actions(plan: PathPlan, confirmed: bool) -> (r: (bool, bool))
    ensures
        r.0 == (confirmed && (plan == PathPlan::Add || plan == PathPlan::AddAndRemove)),
        r.1 == (confirmed && (plan == PathPlan::RemoveStale || plan == PathPlan::AddAndRemove)),
{
    if !confirmed {
        return (false, false);
    }
    match plan {
        PathPlan::Clean => (false, false),
        PathPlan::RemoveStale => (false, true),
        PathPlan::Add => (true, false),
        PathPlan::AddAndRemove => (true, true),
    }
}

pub open spec fn manual_edit_lines() -> Seq<Seq<char>> {
    seq![
        "         Win key \u{2192} \"Edit the system environment variables\""@,
        "         \u{2192} Environment Variables \u{2192} User variables \u{2192} Path \u{2192} Edit"@,
    ]
}

/// What step 1 prints after the answer, given the errors of the changes
/// it made (`None`: succeeded or not attempted).
pub open spec fn path_outcome_spec(
    plan: PathPlan,
    dir: Seq<char>,
    confirmed: bool,
    add_err: Option<Seq<char>>,
    remove_err: Option<Seq<char>>,
) -> Seq<Seq<char>> {
    match plan {
        PathPlan::Clean => seq![],
        PathPlan::RemoveStale => if !confirmed {
            seq!["  [skip] Stale entries left in place. Re-run a2a (no args) anytime."@]
        } else {
            match remove_err {
                None => seq!["  [ok] Removed. Open a NEW terminal for the change to take effect."@],
                Some(e) => seq![
                    "  [!!] Could not modify user PATH: "@ + e,
                    "       You can remove them manually via:"@,
                ] + manual_edit_lines(),
            }
        },
        PathPlan::Add => if !confirmed {
            seq!["  [skip] You can re-run a2a (no args) anytime to add it later."@]
        } else {
            match add_err {
                None => seq![
                    "  [ok] Added. Open a NEW terminal for the change"@,
                    "       to take effect (existing terminals keep their old PATH)."@,
                ],
                Some(e) => seq![
                    "  [!!] Could not modify user PATH: "@ + e,
                    "       You can add it manually:"@,
                ] + manual_edit_lines() + seq!["         \u{2192} New \u{2192} paste "@ + dir],
            }
        },
        PathPlan::AddAndRemove => if !confirmed {
            seq!["  [skip] No changes made. Re-run a2a (no args) anytime to apply."@]
        } else if add_err is None && remove_err is None {
            seq!["  [ok] Applied. Open a NEW terminal for the change to take effect."@]
        } else {
            (match add_err {
                Some(e) => seq!["  [!!] add  "@ + dir + ": "@ + e],
                None => seq![],
            }) + (match remove_err {
                Some(e) => seq!["  [!!] remove stale: "@ + e],
                None => seq![],
            }) + seq![
                "       You can adjust user PATH manually:"@,
                "         Win key \u{2192} \"Edit the system environment variables\""@,
                "         \u{2192} Environment Variables \u{2192} User variables \u{2192} Path"@,
            ]
        },
    }
}

fn push_manual_edit(out: &mut Vec<String>)
    ensures
        strings_view(final(out)@) == strings_view(old(out)@) + manual_edit_lines(),
{
    push_string(out, "         Win key \u{2192} \"Edit the system environment variables\"");
    push_string(out, "         \u{2192} Environment Variables \u{2192} User variables \u{2192} Path \u{2192} Edit");
    assert(strings_view(out@) =~= strings_view(old(out)@) + manual_edit_lines());
}

pub fn path_outcome(
    plan: PathPlan,
    dir: &str,
    confirmed: bool,
    add_err: Option<&str>,
    remove_err: Option<&str>,
) -> (r: Vec<String>)
    ensures
        strings_view(r@) == path_outcome_spec(
            plan,
            dir@,
            confirmed,
            match add_err {
                Some(e) => Some(e@),
                None => None,
            },
            match remove_err {
                Some(e) => Some(e@),
                None => None,
            },
        ),
{
    let ghost ae: Option<Seq<char>> = match add_err {
        Some(e) => Some(e@),
        None => None,
    };
    let ghost re: Option<Seq<char>> = match remove_err {
        Some(e) => Some(e@),
        None => None,
    };
    let mut out: Vec<String> = Vec::new();
    match plan {
        PathPlan::Clean => {},
        PathPlan::RemoveStale => {
            if !confirmed {
                push_string(&mut out, "  [skip] Stale entries left in place. Re-run a2a (no args) anytime.");
            } else {
                match remove_err {
                    None => push_string(
                        &mut out,
                        "  [ok] Removed. Open a NEW terminal for the change to take effect.",
                    ),
                    Some(e) => {
                        push_line2(&mut out, "  [!!] Could not modify user PATH: ", e);
                        push_string(&mut out, "       You can remove them manually via:");
                        push_manual_edit(&mut out);
                    },
                }
            }
        },
        PathPlan::Add => {
            if !confirmed {
                push_string(&mut out, "  [skip] You can re-run a2a (no args) anytime to add it later.");
            } else {
                match add_err {
                    None => {
                        push_string(&mut out, "  [ok] Added. Open a NEW terminal for the change");
                        push_string(
                            &mut out,
                            "       to take effect (existing terminals keep their old PATH).",
                        );
                    },
                    Some(e) => {
                        push_line2(&mut out, "  [!!] Could not modify user PATH: ", e);
                        push_string(&mut out, "       You can add it manually:");
                        push_manual_edit(&mut out);
                        push_line2(&mut out, "         \u{2192} New \u{2192} paste ", dir);
                    },
                }
            }
        },
        PathPlan::AddAndRemove => {
            if !confirmed {
                push_string(&mut out, "  [skip] No changes made. Re-run a2a (no args) anytime to apply.");
            } else if add_err.is_none() && remove_err.is_none() {
                push_string(
                    &mut out,
                    "  [ok] Applied. Open a NEW terminal for the change to take effect.",
                );
            } else {
                match add_err {
                    Some(e) => {
                        let mut l = String::from_str("  [!!] add  ");
                        l.append(dir);
                        l.append(": ");
                        l.append(e);
                        push_string(&mut out, l.as_str());
                    },
                    None => {},
                }
                match remove_err {
                    Some(e) => push_line2(&mut out, "  [!!] remove stale: ", e),
                    None => {},
                }
                push_string(&mut out, "       You can adjust user PATH manually:");
                push_string(&mut out, "         Win key \u{2192} \"Edit the system environment variables\"");
                push_string(
                    &mut out,
                    "         \u{2192} Environment Variables \u{2192} User variables \u{2192} Path",
                );
            }
        },
    }
    assert(strings_view(out@) =~= path_outcome_spec(plan, dir@, confirmed, ae, re));
    out
}

/// On Unix the PATH is not edited in place; the wizard prints the line
/// to add to the shell's rc file.
pub open spec fn unix_add_recipe_spec(dir: Seq<char>) -> Seq<Seq<char>> {
    seq![
        seq![],
        "       Manual step (Unix): append to your shell rc"@,
        "       (~/.bashrc / ~/.zshrc / ~/.config/fish/config.fish):"@,
        seq![],
        "           export PATH=\""@ + dir + ":$PATH\""@,
        seq![],
        "       Then `source` it or open a new terminal."@,
    ]
}

pub fn unix_add_recipe(dir: &str) -> (r: Vec<String>)
    ensures
        strings_view(r@) == unix_add_recipe_spec(dir@),
{
    let mut out: Vec<String> = Vec::new();
    proof {
        reveal_strlit("");
    }
    push_string(&mut out, "");
    push_string(&mut out, "       Manual step (Unix): append to your shell rc");
    push_string(&mut out, "       (~/.bashrc / ~/.zshrc / ~/.config/fish/config.fish):");
    push_string(&mut out, "");
    push_line3(&mut out, "           export PATH=\"", dir, ":$PATH\"");
    push_string(&mut out, "");
    push_string(&mut out, "       Then `source` it or open a new terminal.");
    assert(""@ =~= Seq::<char>::empty());
    assert(strings_view(out@) =~= unix_add_recipe_spec(dir@));
    out
}

/// The Unix counterpart for removing entries: nothing when there are
/// none, else the entries to delete from the rc file.
pub open spec fn unix_remove_recipe_spec(entries: Seq<Seq<char>>) -> Seq<Seq<char>> {
    if entries.len() == 0 {
        seq![]
    } else {
        seq![
            seq![],
            "       Manual step (Unix): remove these entries from your shell rc"@,
            "       (~/.bashrc / ~/.zshrc / ~/.config/fish/config.fish):"@,
        ] + bullet_list("         "@, entries) + seq!["       Then `source` it or open a new terminal."@]
    }
}

pub fn unix_remove_recipe(entries: &Vec<String>) -> (r: Vec<String>)
    ensures
        strings_view(r@) == unix_remove_recipe_spec(strings_view(entries@)),
{
    let mut out: Vec<String> = Vec::new();
    if entries.len() == 0 {
        assert(strings_view(out@) =~= unix_remove_recipe_spec(strings_view(entries@)));
        return out;
    }
    proof {
        reveal_strlit("");
    }
    push_string(&mut out, "");
    push_string(&mut out, "       Manual step (Unix): remove these entries from your shell rc");
    push_string(&mut out, "       (~/.bashrc / ~/.zshrc / ~/.config/fish/config.fish):");
    let ghost a = strings_view(out@);
    push_bullets(&mut out, "         ", entries);
    push_string(&mut out, "       Then `source` it or open a new terminal.");
    proof {
        assert(""@ =~= Seq::<char>::empty());
        assert(a =~= seq![
            seq![],
            "       Manual step (Unix): remove these entries from your shell rc"@,
            "       (~/.bashrc / ~/.zshrc / ~/.config/fish/config.fish):"@,
        ]);
    }
    assert(strings_view(out@) =~= unix_remove_recipe_spec(strings_view(entries@)));
    out
}

// ---------------------------------------------------------------------
// Wizard step 2: the Cursor CLI
// ---------------------------------------------------------------------

pub open spec fn cursor_check_spec(found: Option<Seq<char>>, windows: bool) -> Seq<Seq<char>> {
    match found {
        Some(p) => seq!["  [ok] cursor-agent found: "@ + p],
        None => seq![
            "  [!!] cursor-agent is NOT on your PATH and not in the"@,
            "       canonical install dir. a2a needs it to talk to the"@,
            "       Cursor backend; without it `a2a ask` and"@,
            "       `a2a models available` cannot run."@,
            seq![],
            "       Install Cursor CLI:"@,
        ] + if windows {
            seq![
                "         Open https://cursor.com/cli and run the Windows installer."@,
                "         Then open a new terminal and re-run a2a (no args) to verify."@,
            ]
        } else {
            seq!["         curl -fsSL https://cursor.com/install | sh"@]
        },
    }
}

pub fn cursor_check_lines(found: Option<&str>, windows: bool) -> (r: Vec<String>)
    ensures
        strings_view(r@) == cursor_check_spec(
            match found {
                Some(p) => Some(p@),
                None => None,
            },
            windows,
        ),
{
    let mut out: Vec<String> = Vec::new();
    match found {
        Some(p) => push_line2(&mut out, "  [ok] cursor-agent found: ", p),
        None => {
            proof {
                reveal_strlit("");
            }
            push_string(&mut out, "  [!!] cursor-agent is NOT on your PATH and not in the");
            push_string(&mut out, "       canonical install dir. a2a needs it to talk to the");
            push_string(&mut out, "       Cursor backend; without it `a2a ask` and");
            push_string(&mut out, "       `a2a models available` cannot run.");
            push_string(&mut out, "");
            push_string(&mut out, "       Install Cursor CLI:");
            if windows {
                push_string(&mut out, "         Open https://cursor.com/cli and run the Windows installer.");
                push_string(&mut out, "         Then open a new terminal and re-run a2a (no args) to verify.");
            } else {
                push_string(&mut out, "         curl -fsSL https://cursor.com/install | sh");
            }
            assert(""@ =~= Seq::<char>::empty());
        },
    }
    assert(strings_view(out@) =~= cursor_check_spec(
        match found {
            Some(p) => Some(p@),
            None => None,
        },
        windows,
    ));
    out
}

// ---------------------------------------------------------------------
// `a2a --agent`
// ---------------------------------------------------------------------

/// What agent mode found out about this machine.
pub struct AgentFacts {
    /// The PATH analysis; `None` when the binary's directory is unknown.
    pub path: Option<UserPathState>,
    /// Where cursor-agent was found.
    pub cursor_agent: Option<String>,
    /// The project around the working directory, when initialised.
    pub project_root: Option<String>,
    /// The working directory, when it could be read.
    pub cwd: Option<String>,
    /// Registered (profiles, aliases), or why the store could not be
    /// opened.
    pub store: Result<(u64, u64), String>,
}

/// What agent mode tells the agent to do next.
pub enum AgentNext {
    /// cursor-agent is missing: nothing can run.
    InstallCursorAgent,
    /// The credential store cannot be opened.
    StoreBroken(String),
    /// The project is not initialised: run `a2a init --path <path>`.
    InitProject(String),
    /// Profiles or aliases are missing: run the setup-guide skill.
    RegisterCredentials,
    /// Ready; `stale_note` when the running binary is off PATH while
    /// other a2a entries are on it.
    Ready { stale_note: bool },
}

pub open spec fn facts_store(f: AgentFacts) -> Result<(u64, u64), Seq<char>> {
    match f.store {
        Ok(c) => Ok(c),
        Err(e) => Err(e@),
    }
}

pub open spec fn agent_next_spec(f: AgentFacts) -> (u8, Seq<char>, bool) {
    if f.cursor_agent is None {
        (0, seq![], false)
    } else if facts_store(f) is Err {
        (1, facts_store(f)->Err_0, false)
    } else if f.project_root is None {
        (
            2,
            match f.cwd {
                Some(c) => c@,
                None => "<absolute_workspace_path>"@,
            },
            false,
        )
    } else if facts_store(f)->Ok_0.0 == 0 || facts_store(f)->Ok_0.1 == 0 {
        (3, seq![], false)
    } else {
        (
            4,
            seq![],
            match f.path {
                Some(p) => !p.current_dir_present && p.stale_a2a_entries@.len() > 0,
                None => false,
            },
        )
    }
}

pub open spec fn next_code(n: AgentNext) -> (u8, Seq<char>, bool) {
    match n {
        AgentNext::InstallCursorAgent => (0, seq![], false),
        AgentNext::StoreBroken(e) => (1, e@, false),
        AgentNext::InitProject(p) => (2, p@, false),
        AgentNext::RegisterCredentials => (3, seq![], false),
        AgentNext::Ready { stale_note } => (4, seq![], stale_note),
    }
}

/// The first problem found, in order: cursor-agent, the store, the
/// project, the credentials; else ready.
pub fn agent_next(f: &AgentFacts) -> (n: AgentNext)
    ensures
        next_code(n) == agent_next_spec(*f),
{
    if f.cursor_agent.is_none() {
        return AgentNext::InstallCursorAgent;
    }
    match &f.store {
        Err(e) => {
            return AgentNext::StoreBroken(e.clone());
        },
        Ok(counts) => {
            if f.project_root.is_none() {
                let p = match &f.cwd {
                    Some(c) => c.clone(),
                    None => String::from_str("<absolute_workspace_path>"),
                };
                return AgentNext::InitProject(p);
            }
            if counts.0 == 0 || counts.1 == 0 {
                return AgentNext::RegisterCredentials;
            }
            let note = match &f.path {
                Some(p) => !p.current_dir_present && p.stale_a2a_entries.len() > 0,
                None => false,
            };
            AgentNext::Ready { stale_note: note }
        },
    }
}

/// The `[health]` block of agent mode.
pub open spec fn health_spec(f: AgentFacts) -> Seq<Seq<char>> {
    let path_state: Seq<char> = match f.path {
        Some(p) => if p.current_dir_present {
            "yes"@
        } else {
            "no"@
        },
        None => "unknown"@,
    };
    let head = seq![
        seq![],
        "[health]"@,
        "  path_installed:       "@ + path_state,
        match f.cursor_agent {
            Some(p) => "  cursor_agent:         found ("@ + p@ + ")"@,
            None => "  cursor_agent:         NOT FOUND"@,
        },
    ];
    let store = match facts_store(f) {
        Err(e) => seq![
            "  registered_profiles:  unknown   (credentials_store ERROR)"@,
            "  registered_aliases:   unknown   (credentials_store ERROR)"@,
            "  credentials_store:    ERROR ("@ + e + ")"@,
        ],
        Ok(c) => seq![
            "  registered_profiles:  "@ + decimal(c.0 as nat),
            "  registered_aliases:   "@ + decimal(c.1 as nat),
        ],
    };
    let project = match f.project_root {
        Some(r) => "  current_project:      "@ + r@ + "  (initialised: yes)"@,
        None => match f.cwd {
            Some(c) => "  current_project:      "@ + c@ + "  (initialised: no)"@,
            None => "  current_project:      <unknown cwd>  (initialised: unknown)"@,
        },
    };
    let stale = match f.path {
        Some(p) => if p.stale_a2a_entries@.len() > 0 {
            seq![
                "  stale_a2a_path_entries: "@ + decimal(p.stale_a2a_entries@.len())
                    + "    (cleanable via `a2a` no-args wizard)"@,
            ] + bullet_list("                          - "@, strings_view(p.stale_a2a_entries@))
        } else {
            seq![]
        },
        None => seq![],
    };
    head + store + seq![project] + stale
}

pub fn health_lines(f: &AgentFacts) -> (r: Vec<String>)
    ensures
        strings_view(r@) == health_spec(*f),
{
    let mut out: Vec<String> = Vec::new();
    proof {
        reveal_strlit("");
    }
    push_string(&mut out, "");
    push_string(&mut out, "[health]");
    let st = match &f.path {
        Some(p) => if p.current_dir_present { "yes" } else { "no" },
        None => "unknown",
    };
    push_line2(&mut out, "  path_installed:       ", st);
    match &f.cursor_agent {
        Some(p) => push_line3(&mut out, "  cursor_agent:         found (", p.as_str(), ")"),
        None => push_string(&mut out, "  cursor_agent:         NOT FOUND"),
    }
    let ghost h = strings_view(out@);
    match &f.store {
        Err(e) => {
            push_string(&mut out, "  registered_profiles:  unknown   (credentials_store ERROR)");
            push_string(&mut out, "  registered_aliases:   unknown   (credentials_store ERROR)");
            push_line3(&mut out, "  credentials_store:    ERROR (", e.as_str(), ")");
        },
        Ok(c) => {
            push_count_line(&mut out, "  registered_profiles:  ", c.0, "");
            push_count_line(&mut out, "  registered_aliases:   ", c.1, "");
        },
    }
    let ghost h2 = strings_view(out@);
    match &f.project_root {
        Some(r) => push_line3(&mut out, "  current_project:      ", r.as_str(), "  (initialised: yes)"),
        None => match &f.cwd {
            Some(c) => push_line3(&mut out, "  current_project:      ", c.as_str(), "  (initialised: no)"),
            None => push_string(
                &mut out,
                "  current_project:      <unknown cwd>  (initialised: unknown)",
            ),
        },
    }
    let ghost h3 = strings_view(out@);
    match &f.path {
        Some(p) => {
            if p.stale_a2a_entries.len() > 0 {
                push_count_line(
                    &mut out,
                    "  stale_a2a_path_entries: ",
                    p.stale_a2a_entries.len() as u64,
                    "    (cleanable via `a2a` no-args wizard)",
                );
                push_bullets(&mut out, "                          - ", &p.stale_a2a_entries);
            }
        },
        None => {},
    }
    proof {
        assert(""@ =~= Seq::<char>::empty());
        let v = *f;
        let path_state: Seq<char> = match v.path {
            Some(p) => if p.current_dir_present {
                "yes"@
            } else {
                "no"@
            },
            None => "unknown"@,
        };
        assert(h =~= seq![
            seq![],
            "[health]"@,
            "  path_installed:       "@ + path_state,
            match v.cursor_agent {
                Some(p) => "  cursor_agent:         found ("@ + p@ + ")"@,
                None => "  cursor_agent:         NOT FOUND"@,
            },
        ]);
        match v.store {
            Ok(c) => {
                assert(decimal(c.0 as nat) + ""@ =~= decimal(c.0 as nat));
                assert(decimal(c.1 as nat) + ""@ =~= decimal(c.1 as nat));
            },
            Err(_) => {},
        }
    }
    assert(strings_view(out@) =~= health_spec(*f));
    out
}

pub open spec fn install_text_spec() -> Seq<Seq<char>> {
    seq![
        "  STOP. cursor-agent is missing from PATH and the canonical install dir."@,
        "  a2a cannot consult any model without it. Tell the user to install"@,
        "  Cursor CLI from https://cursor.com/cli and re-run a2a --agent after"@,
        "  reopening their terminal."@,
    ]
}

fn push_install_text(out: &mut Vec<String>)
    ensures
        strings_view(final(out)@) == strings_view(old(out)@) + install_text_spec(),
{
    let ghost before = strings_view(out@);
    proof {
        reveal_strlit("");
    }
    push_string(out, "  STOP. cursor-agent is missing from PATH and the canonical install dir.");
    push_string(out, "  a2a cannot consult any model without it. Tell the user to install");
    push_string(out, "  Cursor CLI from https://cursor.com/cli and re-run a2a --agent after");
    push_string(out, "  reopening their terminal.");
    proof {
        assert(""@ =~= Seq::<char>::empty());
        let sv = strings_view(out@);
        let sp = before + install_text_spec();
        assert(sv.len() == sp.len());
        assert forall|i: int| 0 <= i < sv.len() implies sv[i] == sp[i] by {}
        assert(sv =~= sp);
    }
}

pub open spec fn store_text_a_spec() -> Seq<Seq<char>> {
    seq![
        "  STOP. ~/.a2a/credentials.db could not be opened:"@,
    ]
}

fn push_store_text_a(out: &mut Vec<String>)
    ensures
        strings_view(final(out)@) == strings_view(old(out)@) + store_text_a_spec(),
{
    let ghost before = strings_view(out@);
    proof {
        reveal_strlit("");
    }
    push_string(out, "  STOP. ~/.a2a/credentials.db could not be opened:");
    proof {
        assert(""@ =~= Seq::<char>::empty());
        let sv = strings_view(out@);
        let sp = before + store_text_a_spec();
        assert(sv.len() == sp.len());
        assert forall|i: int| 0 <= i < sv.len() implies sv[i] == sp[i] by {}
        assert(sv =~= sp);
    }
}

pub open spec fn store_text_b_spec() -> Seq<Seq<char>> {
    seq![
        "  a2a uses this database for both API keys and model aliases, so"@,
        "  no further setup commands can run. Tell the user to:"@,
        "    - inspect the file (it lives in their user home: ~/.a2a/credentials.db)."@,
        "    - if it's corrupt and they have no irreplaceable profiles, delete it"@,
        "      and re-run `a2a auth add` to start fresh."@,
        "    - otherwise, fix permissions / locate the cause of the IO error."@,
    ]
}

fn push_store_text_b(out: &mut Vec<String>)
    ensures
        strings_view(final(out)@) == strings_view(old(out)@) + store_text_b_spec(),
{
    let ghost before = strings_view(out@);
    proof {
        reveal_strlit("");
    }
    push_string(out, "  a2a uses this database for both API keys and model aliases, so");
    push_string(out, "  no further setup commands can run. Tell the user to:");
    push_string(out, "    - inspect the file (it lives in their user home: ~/.a2a/credentials.db).");
    push_string(out, "    - if it's corrupt and they have no irreplaceable profiles, delete it");
    push_string(out, "      and re-run `a2a auth add` to start fresh.");
    push_string(out, "    - otherwise, fix permissions / locate the cause of the IO error.");
    proof {
        assert(""@ =~= Seq::<char>::empty());
        let sv = strings_view(out@);
        let sp = before + store_text_b_spec();
        assert(sv.len() == sp.len());
        assert forall|i: int| 0 <= i < sv.len() implies sv[i] == sp[i] by {}
        assert(sv =~= sp);
    }
}

pub open spec fn init_text_a_spec() -> Seq<Seq<char>> {
    seq![
        "  current_project is NOT initialised yet. Do this:"@,
        seq![],
    ]
}

fn push_init_text_a(out: &mut Vec<String>)
    ensures
        strings_view(final(out)@) == strings_view(old(out)@) + init_text_a_spec(),
{
    let ghost before = strings_view(out@);
    proof {
        reveal_strlit("");
    }
    push_string(out, "  current_project is NOT initialised yet. Do this:");
    push_string(out, "");
    proof {
        assert(""@ =~= Seq::<char>::empty());
        let sv = strings_view(out@);
        let sp = before + init_text_a_spec();
        assert(sv.len() == sp.len());
        assert forall|i: int| 0 <= i < sv.len() implies sv[i] == sp[i] by {}
        assert(sv =~= sp);
    }
}

pub open spec fn init_text_b_spec() -> Seq<Seq<char>> {
    seq![
        "    2. Read its output (it ends with another agent-instruction block)."@,
        "    3. Tell the user to:"@,
        "         - close all Cursor windows, reopen this project"@,
        "         - open a NEW chat"@,
        "         - type the single word: a2a_guide"@,
        "       That triggers the freshly-installed `a2a-setup-guide` skill,"@,
        "       which walks them through API key + model alias registration."@,
    ]
}

fn push_init_text_b(out: &mut Vec<String>)
    ensures
        strings_view(final(out)@) == strings_view(old(out)@) + init_text_b_spec(),
{
    let ghost before = strings_view(out@);
    proof {
        reveal_strlit("");
    }
    push_string(out, "    2. Read its output (it ends with another agent-instruction block).");
    push_string(out, "    3. Tell the user to:");
    push_string(out, "         - close all Cursor windows, reopen this project");
    push_string(out, "         - open a NEW chat");
    push_string(out, "         - type the single word: a2a_guide");
    push_string(out, "       That triggers the freshly-installed `a2a-setup-guide` skill,");
    push_string(out, "       which walks them through API key + model alias registration.");
    proof {
        assert(""@ =~= Seq::<char>::empty());
        let sv = strings_view(out@);
        let sp = before + init_text_b_spec();
        assert(sv.len() == sp.len());
        assert forall|i: int| 0 <= i < sv.len() implies sv[i] == sp[i] by {}
        assert(sv =~= sp);
    }
}

pub open spec fn register_text_spec() -> Seq<Seq<char>> {
    seq![
        "  current_project is initialised, but credentials / aliases are missing."@,
        "  Tell the user to:"@,
        "    - close Cursor, reopen this project"@,
        "    - open a NEW chat"@,
        "    - type the single word: a2a_guide"@,
        "  That triggers the `a2a-setup-guide` skill which walks them through"@,
        "  registering the missing credentials / aliases."@,
    ]
}

fn push_register_text(out: &mut Vec<String>)
    ensures
        strings_view(final(out)@) == strings_view(old(out)@) + register_text_spec(),
{
    let ghost before = strings_view(out@);
    proof {
        reveal_strlit("");
    }
    push_string(out, "  current_project is initialised, but credentials / aliases are missing.");
    push_string(out, "  Tell the user to:");
    push_string(out, "    - close Cursor, reopen this project");
    push_string(out, "    - open a NEW chat");
    push_string(out, "    - type the single word: a2a_guide");
    push_string(out, "  That triggers the `a2a-setup-guide` skill which walks them through");
    push_string(out, "  registering the missing credentials / aliases.");
    proof {
        assert(""@ =~= Seq::<char>::empty());
        let sv = strings_view(out@);
        let sp = before + register_text_spec();
        assert(sv.len() == sp.len());
        assert forall|i: int| 0 <= i < sv.len() implies sv[i] == sp[i] by {}
        assert(sv =~= sp);
    }
}

pub open spec fn note_text_a_spec() -> Seq<Seq<char>> {
    seq![
        "  Note: current_exe is NOT on the user-level PATH (registry HKCU)."@,
        "  The running binary likely came from a stale process env held"@,
        "  by the IDE \u{2014} Cursor was launched before the user's PATH was"@,
        "  cleaned, so this terminal still resolves `a2a` to the old"@,
        "  location. The clean entry currently on PATH is:"@,
    ]
}

fn push_note_text_a(out: &mut Vec<String>)
    ensures
        strings_view(final(out)@) == strings_view(old(out)@) + note_text_a_spec(),
{
    let ghost before = strings_view(out@);
    proof {
        reveal_strlit("");
    }
    push_string(out, "  Note: current_exe is NOT on the user-level PATH (registry HKCU).");
    push_string(out, "  The running binary likely came from a stale process env held");
    push_string(out, "  by the IDE \u{2014} Cursor was launched before the user's PATH was");
    push_string(out, "  cleaned, so this terminal still resolves `a2a` to the old");
    push_string(out, "  location. The clean entry currently on PATH is:");
    proof {
        assert(""@ =~= Seq::<char>::empty());
        let sv = strings_view(out@);
        let sp = before + note_text_a_spec();
        assert(sv.len() == sp.len());
        assert forall|i: int| 0 <= i < sv.len() implies sv[i] == sp[i] by {}
        assert(sv =~= sp);
    }
}

pub open spec fn note_text_b_spec() -> Seq<Seq<char>> {
    seq![
        "  Tell the user to close all Cursor windows and reopen this"@,
        "  project; new terminals in the fresh session will pick up"@,
        "  the latest user PATH and resolve `a2a` there. Until then,"@,
        "  a2a still works \u{2014} this is a forensic warning, not a block."@,
        seq![],
    ]
}

fn push_note_text_b(out: &mut Vec<String>)
    ensures
        strings_view(final(out)@) == strings_view(old(out)@) + note_text_b_spec(),
{
    let ghost before = strings_view(out@);
    proof {
        reveal_strlit("");
    }
    push_string(out, "  Tell the user to close all Cursor windows and reopen this");
    push_string(out, "  project; new terminals in the fresh session will pick up");
    push_string(out, "  the latest user PATH and resolve `a2a` there. Until then,");
    push_string(out, "  a2a still works \u{2014} this is a forensic warning, not a block.");
    push_string(out, "");
    proof {
        assert(""@ =~= Seq::<char>::empty());
        let sv = strings_view(out@);
        let sp = before + note_text_b_spec();
        assert(sv.len() == sp.len());
        assert forall|i: int| 0 <= i < sv.len() implies sv[i] == sp[i] by {}
        assert(sv =~= sp);
    }
}

pub open spec fn ready_text_spec() -> Seq<Seq<char>> {
    seq![
        "  Everything looks good. a2a is ready to consult. Suggested next:"@,
        "    - Write a prompt file (see .cursor/templates/a2a-prompt-template.md"@,
        "      for the expected frontmatter)."@,
        "    - Run:  a2a ask <topic-slug> --prompt-file <path-to-prompt.md>"@,
        "  See the `a2a-multi-ai-consult` skill for *when* to consult, and"@,
        "  the `a2a-operator` skill for ongoing natural-language operations."@,
    ]
}

fn push_ready_text(out: &mut Vec<String>)
    ensures
        strings_view(final(out)@) == strings_view(old(out)@) + ready_text_spec(),
{
    let ghost before = strings_view(out@);
    proof {
        reveal_strlit("");
    }
    push_string(out, "  Everything looks good. a2a is ready to consult. Suggested next:");
    push_string(out, "    - Write a prompt file (see .cursor/templates/a2a-prompt-template.md");
    push_string(out, "      for the expected frontmatter).");
    push_string(out, "    - Run:  a2a ask <topic-slug> --prompt-file <path-to-prompt.md>");
    push_string(out, "  See the `a2a-multi-ai-consult` skill for *when* to consult, and");
    push_string(out, "  the `a2a-operator` skill for ongoing natural-language operations.");
    proof {
        assert(""@ =~= Seq::<char>::empty());
        let sv = strings_view(out@);
        let sp = before + ready_text_spec();
        assert(sv.len() == sp.len());
        assert forall|i: int| 0 <= i < sv.len() implies sv[i] == sp[i] by {}
        assert(sv =~= sp);
    }
}

/// The `[next-step for you, the agent]` block for a decision; `stale`
/// lists the PATH entries named by the note.
pub open spec fn next_lines_spec(n: (u8, Seq<char>, bool), stale: Seq<Seq<char>>) -> Seq<Seq<char>> {
    seq![seq![], "[next-step for you, the agent]"@] + if n.0 == 0 {
        install_text_spec()
    } else if n.0 == 1 {
        store_text_a_spec() + seq!["         "@ + n.1] + store_text_b_spec()
    } else if n.0 == 2 {
        init_text_a_spec() + seq!["    1. Run:  a2a init --path "@ + n.1] + init_text_b_spec()
    } else if n.0 == 3 {
        register_text_spec()
    } else {
        (if n.2 {
            note_text_a_spec() + bullet_list("    - "@, stale) + note_text_b_spec()
        } else {
            seq![]
        }) + ready_text_spec()
    }
}

pub fn next_lines(n: &AgentNext, stale: &Vec<String>) -> (r: Vec<String>)
    ensures
        strings_view(r@) == next_lines_spec(next_code(*n), strings_view(stale@)),
{
    let mut out: Vec<String> = Vec::new();
    proof {
        reveal_strlit("");
    }
    push_string(&mut out, "");
    push_string(&mut out, "[next-step for you, the agent]");
    let ghost head = strings_view(out@);
    match n {
        AgentNext::InstallCursorAgent => push_install_text(&mut out),
        AgentNext::StoreBroken(e) => {
            push_store_text_a(&mut out);
            push_line2(&mut out, "         ", e.as_str());
            push_store_text_b(&mut out);
        },
        AgentNext::InitProject(p) => {
            push_init_text_a(&mut out);
            push_line2(&mut out, "    1. Run:  a2a init --path ", p.as_str());
            push_init_text_b(&mut out);
        },
        AgentNext::RegisterCredentials => push_register_text(&mut out),
        AgentNext::Ready { stale_note } => {
            if *stale_note {
                push_note_text_a(&mut out);
                push_bullets(&mut out, "    - ", stale);
                push_note_text_b(&mut out);
            }
            push_ready_text(&mut out);
        },
    }
    proof {
        assert(""@ =~= Seq::<char>::empty());
        assert(head =~= seq![seq![], "[next-step for you, the agent]"@]);
    }
    assert(strings_view(out@) =~= next_lines_spec(next_code(*n), strings_view(stale@)));
    out
}

} // verus!
