use a2a::commands::welcome::{
    agent_next, analyze_user_path, cursor_check_lines, health_lines, is_yes, next_lines, normalize,
    path_actions, path_outcome, path_plan, path_report, strip_verbatim_prefix, unix_add_recipe,
    unix_remove_recipe, AgentFacts, AgentNext, PathEntry, PathPlan, UserPathState,
};

fn entry(t: &str, has: bool) -> PathEntry {
    PathEntry { text: t.to_string(), has_a2a_binary: has }
}

#[test]
fn path_entries_compare_case_and_separator_insensitively() {
    assert_eq!(normalize("  C:\\Tools\\A2A\\\\ "), "c:\\tools\\a2a");
    let st = analyze_user_path(
        "C:\\tools\\a2a",
        &vec![entry(" c:\\TOOLS\\a2a\\ ", false), entry("", true), entry("D:\\old", true), entry("E:\\x", false)],
    );
    assert!(st.current_dir_present);
    assert_eq!(st.stale_a2a_entries, vec!["D:\\old".to_string()]);
    assert_eq!(path_plan(&st), PathPlan::RemoveStale);
}

#[test]
fn yes_answers() {
    assert!(is_yes(""));
    assert!(is_yes(" Y \n"));
    assert!(is_yes("YES"));
    assert!(!is_yes("no"));
    assert!(!is_yes("yess"));
    assert_eq!(strip_verbatim_prefix("\\\\?\\C:\\a2a"), "C:\\a2a");
    assert_eq!(strip_verbatim_prefix("/usr/bin"), "/usr/bin");
}

#[test]
fn plan_report_and_outcome() {
    let st = UserPathState { current_dir_present: false, stale_a2a_entries: vec!["D:\\old".to_string()] };
    let (lines, q) = path_report("C:\\a2a", &st);
    assert_eq!(
        lines,
        vec![
            "  [!!] C:\\a2a is NOT on your user PATH.",
            "  [!!] 1 OTHER PATH entry(ies) also contain an a2a.exe (likely stale):",
            "         - D:\\old",
            "",
            "       Plan:",
            "         + add    C:\\a2a",
            "         - remove D:\\old",
        ]
    );
    assert_eq!(q.as_deref(), Some("       Apply this plan now? [Y/n]:"));
    assert_eq!(path_actions(PathPlan::AddAndRemove, true), (true, true));
    assert_eq!(path_actions(PathPlan::AddAndRemove, false), (false, false));
    assert_eq!(path_actions(PathPlan::RemoveStale, true), (false, true));
    assert_eq!(
        path_outcome(PathPlan::AddAndRemove, "C:\\a2a", true, None, Some("denied")),
        vec![
            "  [!!] remove stale: denied",
            "       You can adjust user PATH manually:",
            "         Win key \u{2192} \"Edit the system environment variables\"",
            "         \u{2192} Environment Variables \u{2192} User variables \u{2192} Path",
        ]
    );
    assert_eq!(
        path_outcome(PathPlan::Add, "C:\\a2a", false, None, None),
        vec!["  [skip] You can re-run a2a (no args) anytime to add it later."]
    );
    let clean = UserPathState { current_dir_present: true, stale_a2a_entries: Vec::new() };
    let (lines, q) = path_report("/opt/a2a", &clean);
    assert_eq!(lines, vec!["  [ok] /opt/a2a is on your user PATH."]);
    assert!(q.is_none());
}

#[test]
fn unix_recipes() {
    assert_eq!(unix_add_recipe("/opt/a2a")[4], "           export PATH=\"/opt/a2a:$PATH\"");
    assert!(unix_remove_recipe(&Vec::new()).is_empty());
    assert_eq!(unix_remove_recipe(&vec!["/old".to_string()])[3], "         /old");
}

#[test]
fn cursor_check() {
    assert_eq!(cursor_check_lines(Some("/bin/cursor-agent"), false), vec!["  [ok] cursor-agent found: /bin/cursor-agent"]);
    let l = cursor_check_lines(None, false);
    assert_eq!(l.last().unwrap(), "         curl -fsSL https://cursor.com/install | sh");
    assert_eq!(cursor_check_lines(None, true).len(), 8);
}

fn facts() -> AgentFacts {
    AgentFacts {
        path: Some(UserPathState { current_dir_present: false, stale_a2a_entries: vec!["D:\\old".to_string()] }),
        cursor_agent: Some("/bin/cursor-agent".to_string()),
        project_root: Some("/p".to_string()),
        cwd: Some("/p/sub".to_string()),
        store: Ok((1, 2)),
    }
}

#[test]
fn agent_mode_stops_at_the_first_problem() {
    let mut f = facts();
    assert!(matches!(agent_next(&f), AgentNext::Ready { stale_note: true }));
    f.store = Ok((0, 2));
    assert!(matches!(agent_next(&f), AgentNext::RegisterCredentials));
    f.project_root = None;
    match agent_next(&f) {
        AgentNext::InitProject(p) => assert_eq!(p, "/p/sub"),
        _ => panic!("expected init"),
    }
    f.store = Err("locked".to_string());
    assert!(matches!(agent_next(&f), AgentNext::StoreBroken(_)));
    f.cursor_agent = None;
    assert!(matches!(agent_next(&f), AgentNext::InstallCursorAgent));
}

#[test]
fn agent_health_and_next_step_lines() {
    let f = facts();
    let h = health_lines(&f);
    assert_eq!(
        h,
        vec![
            "",
            "[health]",
            "  path_installed:       no",
            "  cursor_agent:         found (/bin/cursor-agent)",
            "  registered_profiles:  1",
            "  registered_aliases:   2",
            "  current_project:      /p  (initialised: yes)",
            "  stale_a2a_path_entries: 1    (cleanable via `a2a` no-args wizard)",
            "                          - D:\\old",
        ]
    );
    let n = next_lines(&AgentNext::InitProject("/w".to_string()), &Vec::new());
    assert_eq!(n[0], "");
    assert_eq!(n[1], "[next-step for you, the agent]");
    assert_eq!(n[4], "    1. Run:  a2a init --path /w");
    let n = next_lines(&AgentNext::Ready { stale_note: true }, &vec!["D:\\old".to_string()]);
    assert_eq!(n[7], "    - D:\\old");
    assert_eq!(n.last().unwrap(), "  the `a2a-operator` skill for ongoing natural-language operations.");
}
