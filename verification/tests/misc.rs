use a2a::commands::ask::{check_prompt_file, AskArgs};
use a2a::commands::reset::{reset_credentials_prompt, reset_models_prompt};
use a2a::commands::status::StatusArgs;
use a2a::commands::doctor::DoctorArgs;
use a2a::commands::{Cli, Command, Dispatch};
use a2a::embedded::{
    materialise_template, post_init_lines, same_content, template_line, template_write_plan,
    TemplateAsset, TemplateWrite,
};
use a2a::isolation::{
    budget_counts_entry, classify_entry, entry_warning, link_verdict, link_warning,
    mirror_dir_name, walk_action, walk_keeps, EntrySyntax, IsolatedWorkspace, LinkVerdict,
    WalkAction,
};
use a2a::paths::{find_project_root, project_config_dir, project_consultations_dir, user_state_path, PathComponent, RootCandidate};
use a2a::runner::doctor::{doctor_closing, doctor_project_line, profile_summary};
use a2a::runner::history::{
    clean_cutoff, clean_prompt, housekeep_cutoff, is_a2a_temp_name, older_than_in_range,
    parse_older_than_duration, select_victims, DirEntryInfo,
};
use a2a::text::{join_strings, split_by};
use a2a::util::file_lock::{atomic_tmp_name, lock_name_for, lock_step, LockAttempt, LockStep};
use a2a::{report_error, A2aError, BusinessFailure, UserError};

fn other_msg(e: A2aError) -> String {
    match e {
        A2aError::Other(m) => m,
        _ => panic!("expected a plain error"),
    }
}

#[test]
fn templates_get_the_version_stamp() {
    assert_eq!(
        materialise_template("v={{A2A_VERSION}}; again {{A2A_VERSION}} {A2A_VERSION}"),
        "v=0.1.0; again 0.1.0 {A2A_VERSION}"
    );
    assert_eq!(materialise_template("{{A2A_{{A2A_VERSION}}VERSION}}"), "{{A2A_0.1.0VERSION}}");
    let t = TemplateAsset::new("label", "a.md", ".cursor/a.md", "# {{A2A_VERSION}}\n");
    assert_eq!(t.materialised(), "# 0.1.0\n");
    assert!(same_content(&b"# 0.1.0\n".to_vec(), "# 0.1.0\n"));
    assert!(!same_content(&b"# 0.1.1\n".to_vec(), "# 0.1.0\n"));
    assert_eq!(template_write_plan(true, false), TemplateWrite::Compare);
    assert_eq!(template_write_plan(true, true), TemplateWrite::Write);
    assert_eq!(template_write_plan(false, false), TemplateWrite::Write);
    assert_eq!(template_line("/p/x.md", true, false), "wrote  /p/x.md");
    assert_eq!(template_line("/p/x.md", false, true), "ok     /p/x.md (matches template)");
    assert_eq!(
        template_line("/p/x.md", false, false),
        "kept   /p/x.md (locally modified; re-run with --force to overwrite)"
    );
    let l = post_init_lines();
    assert_eq!(l[1], "a2a templates installed.");
    assert_eq!(l[12], "  4. Type the single word, exactly: a2a_guide");
}

#[test]
fn mirror_names_match_the_clean_rule() {
    let n = mirror_dir_name().expect("random source");
    assert!(n.starts_with("a2a-"));
    assert_eq!(n.len(), 36);
    assert!(is_a2a_temp_name(&n));
    let w = IsolatedWorkspace::new("/tmp/a2a-x".to_string());
    assert_eq!(w.root(), "/tmp/a2a-x");
    assert!(w.assert_alive(true).is_ok());
    assert!(other_msg(w.assert_alive(false).err().unwrap()).starts_with("isolation workspace /tmp/a2a-x no longer exists"));
}

#[test]
fn context_entries_and_walks() {
    assert_eq!(classify_entry(true, &vec![PathComponent::RootDir]), EntrySyntax::Absolute);
    assert_eq!(
        classify_entry(false, &vec![PathComponent::Normal, PathComponent::ParentDir]),
        EntrySyntax::ParentTraversal
    );
    assert_eq!(classify_entry(false, &vec![PathComponent::Normal]), EntrySyntax::Relative);
    assert_eq!(
        entry_warning(EntrySyntax::ParentTraversal, "../x").as_deref(),
        Some("context entry rejected (parent traversal): ../x")
    );
    assert!(walk_keeps(0, true, "target"));
    assert!(!walk_keeps(2, true, "target"));
    assert!(walk_keeps(2, false, "target"));
    assert_eq!(walk_action(true, true, false, false), WalkAction::Root);
    assert_eq!(walk_action(false, false, true, true), WalkAction::CheckLink);
    assert_eq!(walk_action(false, false, true, false), WalkAction::CopyFile);
    assert_eq!(link_verdict(true, true, true), LinkVerdict::ToDirectory);
    assert_eq!(link_verdict(false, true, false), LinkVerdict::Broken);
    assert_eq!(link_verdict(true, false, false), LinkVerdict::Escapes);
    assert_eq!(
        link_warning(LinkVerdict::Escapes, "/p/l", "/etc/x").as_deref(),
        Some("skipping symlink that escapes project root: /p/l -> /etc/x")
    );
    assert!(link_warning(LinkVerdict::Copy, "a", "b").is_none());
    assert!(budget_counts_entry(false, true, true));
    assert!(!budget_counts_entry(false, true, false));
    assert!(!budget_counts_entry(false, false, false));
}

#[test]
fn errors_route_by_kind() {
    let r = report_error(&A2aError::User(UserError("taken".to_string())));
    assert!(!r.to_stderr);
    assert_eq!(r.text, "taken");
    assert_eq!(r.exit_code, 0);
    let r = report_error(&A2aError::Business(BusinessFailure("quota".to_string())));
    assert!(!r.to_stderr);
    assert_eq!(r.exit_code, 1);
    let r = report_error(&A2aError::Other("disk".to_string()));
    assert!(r.to_stderr);
    assert_eq!(r.text, "Error: disk");
    assert_eq!(r.exit_code, 1);
}

#[test]
fn command_line_dispatch() {
    let p = a2a::run(Cli { agent: true, command: None });
    assert!(!p.probe_cursor_agent);
    assert!(matches!(p.dispatch, Dispatch::WelcomeAgent));
    let p = a2a::run(Cli { agent: false, command: None });
    assert!(matches!(p.dispatch, Dispatch::Welcome));
    let p = a2a::run(Cli { agent: true, command: Some(Command::Doctor(DoctorArgs {})) });
    assert!(!p.probe_cursor_agent);
    assert!(matches!(p.dispatch, Dispatch::Run(Command::Doctor(_))));
    let p = a2a::run(Cli { agent: false, command: Some(Command::Status(StatusArgs {})) });
    assert!(!p.probe_cursor_agent);
    let args = AskArgs {
        topic: "t".to_string(),
        prompt_file: "p.md".to_string(),
        models: None,
        profiles: None,
        mode: None,
        sandbox: None,
        dry_run: false,
        budget_only: false,
        no_readonly_prefix: false,
        log_budget: false,
    };
    let p = a2a::run(Cli { agent: false, command: Some(Command::Ask(args)) });
    assert!(p.probe_cursor_agent);
    let w = a2a::missing_cursor_agent_warning();
    assert!(w.0.starts_with("[!!] cursor-agent not on PATH"));
}

#[test]
fn prompt_file_checks() {
    assert_eq!(check_prompt_file("p.md", Ok("/abs/p.md".to_string()), true).ok().unwrap(), "/abs/p.md");
    match check_prompt_file("p.md", Ok("/abs/dir".to_string()), false) {
        Err(A2aError::User(u)) => assert_eq!(u.0, "prompt file is not a regular file: /abs/dir"),
        _ => panic!("expected a user error"),
    }
    assert_eq!(
        other_msg(check_prompt_file("p.md", Err("No such file".to_string()), false).err().unwrap()),
        "prompt file not found: p.md: No such file"
    );
    let args = AskArgs {
        topic: "t".to_string(),
        prompt_file: "p.md".to_string(),
        models: Some(vec!["a".to_string()]),
        profiles: None,
        mode: Some("plan".to_string()),
        sandbox: None,
        dry_run: true,
        budget_only: false,
        no_readonly_prefix: false,
        log_budget: true,
    };
    let req = a2a::commands::ask::run(args, "/abs/p.md".to_string(), "/proj".to_string());
    assert_eq!(req.prompt_file, "/abs/p.md");
    assert_eq!(req.project_root, "/proj");
    assert_eq!(req.mode.as_deref(), Some("plan"));
    assert!(req.dry_run && req.log_budget);
}

#[test]
fn paths_and_project_roots() {
    assert_eq!(project_config_dir("/p"), "/p/.a2a");
    assert_eq!(project_consultations_dir("/p/"), "/p/consultations");
    assert_eq!(user_state_path("/h/.a2a"), "/h/.a2a/state.toml");
    let c = |p: &str, m: bool, h: bool| RootCandidate { path: p.to_string(), has_marker: m, is_home: h };
    assert_eq!(find_project_root(&vec![c("/h/p/s", false, false), c("/h/p", true, false), c("/h", true, true)]), Some("/h/p".to_string()));
    assert_eq!(find_project_root(&vec![c("/h/x", false, false), c("/h", true, true), c("/", false, false)]), None);
}

#[test]
fn history_rules() {
    assert!(older_than_in_range("30d"));
    assert!(!older_than_in_range("9223372036854775807d"));
    assert_eq!(clean_cutoff(None, 1000).ok().unwrap(), None);
    assert_eq!(clean_cutoff(Some("10s"), 1000).ok().unwrap(), Some(990));
    assert_eq!(
        other_msg(clean_cutoff(Some("0d"), 1000).err().unwrap()),
        "--older-than '0d' resolves to a past or zero duration; use e.g. '30d', '7d', '1h'"
    );
    assert_eq!(
        other_msg(clean_cutoff(Some("x"), 1000).err().unwrap()),
        "invalid --older-than spec: x: expected a relative duration like '30d', '7d', '1h' (suffix s|m|h|d|w); absolute dates / RFC-3339 are not supported here"
    );
    assert_eq!(
        other_msg(parse_older_than_duration("3xd").err().unwrap()),
        "could not parse '3x' as a non-negative integer: invalid digit found in string"
    );
    assert_eq!(
        other_msg(parse_older_than_duration("99999999999999999999d").err().unwrap()),
        "could not parse '99999999999999999999' as a non-negative integer: number too large to fit in target type"
    );
    assert_eq!(
        other_msg(parse_older_than_duration("-5d").err().unwrap()),
        "negative duration not allowed: -5d"
    );
    assert_eq!(other_msg(parse_older_than_duration("d").err().unwrap()), "could not parse '' as a non-negative integer: cannot parse integer from empty string");
    assert_eq!(parse_older_than_duration("+5m").ok().unwrap(), 300);
    assert_eq!(parse_older_than_duration(" 2w ").ok().unwrap(), 1_209_600);
    let e = |p: &str, n: &str, d: bool, meta: bool, t: Option<i64>| DirEntryInfo {
        path: p.to_string(),
        name: n.to_string(),
        is_dir: d,
        has_meta: meta,
        mtime: t,
    };
    let es = vec![
        e("/c/1", "1", true, true, Some(10)),
        e("/c/2", "2", true, false, Some(10)),
        e("/c/3", "3", true, true, Some(500)),
        e("/c/4", "4", true, true, None),
        e("/c/5", "5", false, true, Some(1)),
    ];
    assert_eq!(select_victims(&es, Some(100), false), vec!["/c/1".to_string()]);
    assert_eq!(select_victims(&es, None, false), vec!["/c/1".to_string(), "/c/3".to_string(), "/c/4".to_string()]);
    let ts = vec![
        e("/t/a2a-0123456789abcdef0123456789abcdef", "a2a-0123456789abcdef0123456789abcdef", true, false, Some(1)),
        e("/t/a2a-cargo", "a2a-cargo", true, false, Some(1)),
    ];
    assert_eq!(select_victims(&ts, None, true), vec!["/t/a2a-0123456789abcdef0123456789abcdef".to_string()]);
    assert_eq!(housekeep_cutoff(1_000_000, 7), 1_000_000 - 7 * 86400);
    assert_eq!(clean_prompt(3, 0), "Remove 3 entry(ies)?");
    assert_eq!(
        clean_prompt(3, 1),
        "Confirm no other `a2a` process is currently running, then remove 3 entry(ies)?"
    );
}

#[test]
fn locks_and_temp_files() {
    assert_eq!(lock_name_for(Some("meta.toml")), ".meta.toml.lock");
    assert_eq!(lock_name_for(None), ".file.lock");
    assert_eq!(atomic_tmp_name(Some("meta.toml"), 42, "abc"), ".meta.toml.tmp.42.abc");
    assert!(matches!(lock_step(LockAttempt::Created, true, "t", "l"), LockStep::Acquired));
    assert!(matches!(lock_step(LockAttempt::AlreadyExists, false, "t", "l"), LockStep::Retry));
    match lock_step(LockAttempt::AlreadyExists, true, "/c/meta.toml", "/c/.meta.toml.lock") {
        LockStep::Fail(e) => assert_eq!(
            other_msg(e),
            "could not acquire lock on /c/meta.toml within 30s; stale lock file? remove `/c/.meta.toml.lock` if no other a2a process is running"
        ),
        _ => panic!("expected a timeout"),
    }
    assert_eq!(format!("{:?}", std::time::Duration::from_secs(30)), "30s");
}

#[test]
fn splitting_joining_and_prompts() {
    assert_eq!(split_by("a--b", '-'), vec!["a", "", "b"]);
    assert_eq!(split_by("", '-'), vec![""]);
    assert_eq!(join_strings(&vec!["a".to_string(), "b".to_string()], " / "), "a / b");
    assert_eq!(reset_models_prompt(2), "Remove 2 model alias(es) from ~/.a2a/credentials.db?");
    assert_eq!(
        reset_credentials_prompt("/h/.a2a/credentials.db"),
        "Delete /h/.a2a/credentials.db and remove ALL stored API keys + model aliases? This cannot be undone."
    );
    assert_eq!(profile_summary(0, None), vec!["credentials: 0 profile(s)"]);
    assert_eq!(
        profile_summary(2, None),
        vec!["credentials: 2 profile(s)", "default profile: <none set>  (run `a2a auth use <name>`)"]
    );
    assert_eq!(profile_summary(1, Some("w")), vec!["credentials: 1 profile(s)", "default profile: w"]);
    assert_eq!(doctor_project_line(true), "project: initialised (.a2a/ marker found)");
    assert_eq!(doctor_closing(true).len(), 3);
    assert_eq!(doctor_closing(false)[2], "then `a2a init` in your project to install Cursor skills + project config,");
}
