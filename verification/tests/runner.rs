use a2a::auth::store::{ModelAlias, Profile};
use a2a::runner::{
    ask_header, ask_summary, budget_file_chars, budget_report, check_alias_row, check_models,
    consult_dir_name, deepest_canonical_ancestor, dedup_names, default_models, effective_mode,
    entry_syntax_ok, explicit_chain, is_skipped_dir, new_consult_dir_name, persists_answers,
    requested_models, resolve_default_profile, task_line, validate_alias_strict,
    validate_project_relative, validate_topic_slug,
};
use a2a::A2aError;

fn user_msg(e: A2aError) -> String {
    match e {
        A2aError::User(u) => u.0,
        _ => panic!("expected a user error"),
    }
}

fn business_msg(e: A2aError) -> String {
    match e {
        A2aError::Business(b) => b.0,
        _ => panic!("expected a business failure"),
    }
}

fn strings(v: &[&str]) -> Vec<String> {
    v.iter().map(|s| s.to_string()).collect()
}

fn profile(name: &str, created_at: i64) -> Profile {
    Profile {
        name: name.to_string(),
        api_key: format!("key_{name}"),
        created_at,
        last_used_at: None,
        note: None,
    }
}

fn alias(name: &str, model: &str, mode: &str) -> ModelAlias {
    ModelAlias {
        alias: name.to_string(),
        cursor_model: model.to_string(),
        default_mode: mode.to_string(),
        thinking_hint: None,
        description: None,
        created_at: 0,
    }
}

#[test]
fn topic_and_alias_alphabets_differ_on_parentheses() {
    assert!(validate_topic_slug("arch-review(2)"));
    assert!(!validate_alias_strict("opus(1)"));
    assert!(validate_alias_strict("opus_4-7"));
    assert!(!validate_topic_slug(""));
    assert!(!validate_alias_strict(""));
    assert!(!validate_topic_slug("a b"));
}

#[test]
fn dedup_keeps_first_occurrences_in_order() {
    let r = dedup_names(&strings(&["b", "a", "b", "c", "a"]));
    assert_eq!(r, strings(&["b", "a", "c"]));
}

#[test]
fn models_are_checked_deduplicated_then_topic() {
    let r = check_models(&strings(&["opus", "sonnet", "opus"]), "topic").ok().unwrap();
    assert_eq!(r, strings(&["opus", "sonnet"]));
    let e = check_models(&strings(&["opus", "foo(1)"]), "bad topic").err().unwrap();
    assert_eq!(
        user_msg(e),
        "model alias must be alphanumeric / '-' / '_' (got 'foo(1)'). Run `a2a models list` to see configured aliases."
    );
    let e = check_models(&strings(&["opus"]), "bad topic").err().unwrap();
    assert_eq!(user_msg(e), "topic slug must be alphanumeric / '-' / '_' / '(' / ')': bad topic");
}

#[test]
fn first_added_alias_is_the_default_model() {
    assert_eq!(default_models(Some("opus".to_string())).ok().unwrap(), strings(&["opus"]));
    let e = default_models(None).err().unwrap();
    assert!(user_msg(e).starts_with("no model aliases configured."));
    assert!(requested_models(&Some(Vec::new())).is_none());
    assert_eq!(requested_models(&Some(strings(&["x"]))), Some(strings(&["x"])));
}

#[test]
fn explicit_profile_chain_drops_repeats() {
    assert_eq!(explicit_chain(&Some(strings(&["a", "b", "a"]))), Some(strings(&["a", "b"])));
    assert_eq!(explicit_chain(&Some(Vec::new())), None);
    assert_eq!(explicit_chain(&None), None);
}

#[test]
fn default_profile_resolution_order() {
    let ps = vec![profile("zeta", 5), profile("alpha", 9), profile("beta", 5)];
    assert_eq!(resolve_default_profile(Some("alpha".to_string()), &ps).ok().unwrap(), "alpha");
    // A stale stored default is ignored.
    assert_eq!(resolve_default_profile(Some("gone".to_string()), &ps).ok().unwrap(), "zeta");
    let with_default = vec![profile("zeta", 5), profile("default", 9)];
    assert_eq!(resolve_default_profile(None, &with_default).ok().unwrap(), "default");
    let e = resolve_default_profile(None, &Vec::new()).err().unwrap();
    assert!(user_msg(e).starts_with("no profiles registered"));
}

#[test]
fn effective_mode_prefers_flag_then_alias_then_agent() {
    assert_eq!(effective_mode(&Some("plan".to_string()), "agent"), "plan");
    assert_eq!(effective_mode(&Some(String::new()), " plan "), "plan");
    assert_eq!(effective_mode(&None, "  "), "agent");
}

#[test]
fn alias_rows_must_exist_and_name_a_model() {
    let e = check_alias_row("opus", None).err().unwrap();
    assert_eq!(
        user_msg(e),
        "unknown model alias: opus (run `a2a models list` to see registered aliases; run `a2a models add opus --model <cursor-id>` to register one)"
    );
    let e = check_alias_row("opus", Some(alias("opus", "  ", "agent"))).err().unwrap();
    assert_eq!(
        user_msg(e),
        "model alias 'opus' has empty cursor_model \u{2014} re-add it with `a2a models add opus --model <cursor-id> --force`"
    );
    let row = check_alias_row("opus", Some(alias("opus", "model-4", "agent"))).ok().unwrap();
    assert_eq!(row.cursor_model, "model-4");
}

#[test]
fn consult_dir_name_pads_millis_and_cuts_the_id() {
    assert_eq!(
        consult_dir_name("20250101-120000", 7, "topic", "0123456789abcdef0123456789abcdef"),
        "20250101-120000-007-topic-012345"
    );
    assert_eq!(consult_dir_name("s", 1234, "t", "abc"), "s-1234-t-abc");
    let fresh = new_consult_dir_name("review").ok().expect("clock and random source");
    let parts: Vec<&str> = fresh.split('-').collect();
    assert_eq!(parts.len(), 5);
    assert_eq!(parts[0].len(), 8);
    assert_eq!(parts[1].len(), 6);
    assert_eq!(parts[2].len(), 3);
    assert_eq!(parts[3], "review");
    assert_eq!(parts[4].len(), 6);
    assert!(parts[4].chars().all(|c| c.is_ascii_hexdigit() && !c.is_ascii_uppercase()));
    assert!(persists_answers(false, false));
    assert!(!persists_answers(true, false));
}

#[test]
fn header_lines() {
    let h = ask_header("t", &strings(&["a", "b"]), None, "p.md", false, true, "/out");
    assert_eq!(
        h,
        strings(&[
            "Topic:      t",
            "Models:     [\"a\", \"b\"]",
            "Mode:       (per-alias default_mode)",
            "Prompt:     p.md",
            "Output dir: <budget-only; no files written>",
            "",
        ])
    );
    assert_eq!(format!("{:?}", strings(&["a", "b"])), "[\"a\", \"b\"]");
}

#[test]
fn run_outcome_drain_beats_success() {
    let (lines, r) = ask_summary(2, 0, true, false, "/c");
    assert_eq!(business_msg(r.err().unwrap()), "credentials store drained mid-run; no profiles remain. Re-add a profile and re-run.");
    assert_eq!(lines[1], "Done. 2 succeeded / 0 failed.");
    assert_eq!(lines[2], "Inspect raw answers in: /c");
    assert_eq!(lines[4], "==============================================================");
}

#[test]
fn run_outcome_all_failed_and_partial() {
    let (_, r) = ask_summary(0, 3, false, true, "/c");
    assert_eq!(business_msg(r.err().unwrap()), "all 3 model task(s) failed; see /c for details");
    let (lines, r) = ask_summary(1, 1, false, true, "/c");
    assert!(r.is_ok());
    assert_eq!(lines.len(), 3);
    assert_eq!(lines[2], "warning: 1 of 2 model task(s) failed; synthesis should note missing answers");
    let (lines, r) = ask_summary(1, 0, false, true, "/c");
    assert!(r.is_ok());
    assert_eq!(lines, strings(&["", "Done. 1 succeeded / 0 failed."]));
}

#[test]
fn task_lines() {
    assert_eq!(task_line("opus", None), "[opus] ok");
    assert_eq!(task_line("opus", Some("boom")), "[opus] failed: boom");
}

#[test]
fn budget_estimate_counts_directive_per_agent_alias() {
    let directive = a2a::fallback::READONLY_DIRECTIVE.chars().count() + 2;
    let rows = vec![alias("a", "m1", "agent"), alias("b", "m2", "plan")];
    let r = budget_report(100, 50, false, &None, &rows);
    assert_eq!(r[0], "--budget-only (character counts as a token proxy):");
    assert_eq!(r[1], "  prompt body         = 100 chars");
    assert_eq!(
        r[2],
        format!("  readonly directive  = {directive} chars (auto-prepended only for alias(es) running in `agent` mode)")
    );
    assert_eq!(r[3], "  declared context    = 50 chars");
    assert_eq!(r[4], "  models to spawn     = 2 ([\"a\", \"b\"])");
    assert_eq!(
        r[5],
        format!("  total input \u{2248}         {} chars across all models", 300 + directive)
    );
    let r = budget_report(10, 0, true, &None, &rows);
    assert_eq!(
        r[2],
        "  readonly directive  = 0 chars (suppressed: --no-readonly-prefix or all aliases run in `plan` mode)"
    );
    assert_eq!(r[5], "  total input \u{2248}         20 chars across all models");
    let r = budget_report(1, 1, false, &Some("agent".to_string()), &rows);
    assert!(r[2].ends_with("chars (auto-prepended for every alias)"));
}

#[test]
fn project_relative_paths() {
    assert!(validate_project_relative("consultations", "output root").is_ok());
    assert!(validate_project_relative("nested/dir", "output root").is_ok());
    assert_eq!(user_msg(validate_project_relative("", "x").err().unwrap()), "x cannot be empty");
    assert_eq!(
        user_msg(validate_project_relative("a/../b", "x").err().unwrap()),
        "x must not contain parent-directory traversal (got 'a/../b')"
    );
    assert!(validate_project_relative("/etc", "x").is_err());
    assert!(entry_syntax_ok("docs/a.md"));
    assert!(!entry_syntax_ok("../secret"));
}

#[test]
fn deepest_ancestor_and_budget_files() {
    let canon = vec![None, None, Some("/real".to_string())];
    assert_eq!(deepest_canonical_ancestor(&canon, "/x/y").ok().unwrap(), "/real");
    let e = deepest_canonical_ancestor(&vec![None], "/x").err().unwrap();
    assert_eq!(user_msg(e), "could not canonicalize any ancestor of /x (filesystem in unexpected state)");
    assert_eq!(budget_file_chars(Some(5_000_000), Some(10)), 0);
    assert_eq!(budget_file_chars(Some(100), Some(10)), 10);
    assert_eq!(budget_file_chars(None, None), 0);
    assert!(is_skipped_dir("node_modules"));
    assert!(!is_skipped_dir("src"));
}
