use a2a::embedded::template_manifest;
use a2a::fallback::report::{
    calling_line, deleted_line, drained_line, dry_run_line, give_up_line, key_dead_line,
    retry_line, skipped_line, wrote_prompt_line,
};
use a2a::fallback::ErrorClass;
use a2a::runner::check_output_inside;
use a2a::runner::history::{check_consultations_inside, clean_preview, list_lines};
use a2a::A2aError;

#[test]
fn fallback_progress_lines() {
    assert_eq!(skipped_line("opus", "work"), "[opus] profile=work \u{2192} SKIPPED (profile 'work' not found)");
    assert_eq!(
        wrote_prompt_line("opus", "fresh", 30000),
        "[opus] phase=fresh \u{2192} wrote prompt (30000 bytes) to .a2a/_prompt.md"
    );
    assert_eq!(
        calling_line("opus", "work", "fresh", None),
        "[opus] profile=work \u{2192} calling cursor-agent (phase=fresh)"
    );
    assert_eq!(
        calling_line("opus", "work", "resume after transient", Some("chat-1")),
        "[opus] profile=work \u{2192} calling cursor-agent (phase=resume after transient, --resume chat-1)"
    );
    assert_eq!(
        retry_line("opus", "work", 3000, 2),
        "[opus] profile=work \u{2192} transient error; retrying after 3000ms (attempt 2/3)"
    );
    assert_eq!(
        key_dead_line("opus", "work"),
        "[opus] profile=work \u{2192} KeyDead detected; deleting this profile from credentials.db. Original error:"
    );
    assert_eq!(deleted_line("opus", "work"), "[opus] profile 'work' deleted; advancing fallback chain");
    assert_eq!(
        drained_line("opus"),
        "[opus] credentials store is now empty; aborting this alias and signalling peers"
    );
    assert_eq!(
        dry_run_line("opus", "work", false, "CMD"),
        "[opus] profile=work (<NOT FOUND>) \u{2192} DRY-RUN: CMD"
    );
    assert_eq!(dry_run_line("opus", "work", true, "CMD"), "[opus] profile=work (ok) \u{2192} DRY-RUN: CMD");
}

#[test]
fn give_up_lines_per_class() {
    assert_eq!(
        give_up_line("a", "p", ErrorClass::ModelUnavailable),
        "[a] profile=p \u{2192} model not available on this account (ModelUnavailable); skipping this model alias"
    );
    assert_eq!(
        give_up_line("a", "p", ErrorClass::Unknown),
        "[a] profile=p \u{2192} unrecognised error (Unknown); skipping this model alias"
    );
    assert_eq!(
        give_up_line("a", "p", ErrorClass::Transient),
        "[a] profile=p \u{2192} Transient retry budget exhausted; skipping this model alias"
    );
}

#[test]
fn list_output_cases() {
    assert_eq!(list_lines("/p", "/p/consultations", false, &vec![]), vec!["(no consultations directory in /p)"]);
    assert_eq!(list_lines("/p", "/p/consultations", true, &vec![]), vec!["(no past consultations)"]);
    assert_eq!(
        list_lines("/p", "/p/c", true, &vec!["a".to_string(), "b".to_string()]),
        vec!["Consultations under /p/c:", "  a", "  b"]
    );
}

#[test]
fn clean_preview_warns_about_temp_dirs() {
    let v = vec!["/p/c/x".to_string(), "/tmp/a2a-0".to_string()];
    assert_eq!(clean_preview(&v, 0), vec!["would remove:", "  /p/c/x", "  /tmp/a2a-0", ""]);
    let w = clean_preview(&v, 1);
    assert_eq!(w.len(), 6);
    assert!(w[4].starts_with("WARNING: 1 of the entries above are OS tempdir directories"));
    assert_eq!(w[5], "");
}

#[test]
fn output_root_outside_project_is_refused() {
    assert!(check_output_inside(true, "/p/consultations", "/p").is_ok());
    match check_output_inside(false, "/elsewhere", "/p") {
        Err(A2aError::User(u)) => assert!(u.0.starts_with("consultations output root resolves to /elsewhere")),
        _ => panic!("expected a user error"),
    }
    assert!(check_consultations_inside(true, "consultations", "/p", "/p").is_ok());
    match check_consultations_inside(false, "consultations", "/x", "/p") {
        Err(A2aError::Other(m)) => assert!(m.starts_with("consultations output root 'consultations' resolves under /x")),
        _ => panic!("expected an error"),
    }
}

#[test]
fn manifest_lists_five_templates() {
    let m = template_manifest();
    assert_eq!(m.len(), 5);
    assert_eq!(m[0], ("prompt template", "prompt-template.md", ".cursor/templates/a2a-prompt-template.md"));
    assert_eq!(m[4].2, ".cursor/skills/a2a-setup-guide/SKILL.md");
}
