use a2a::fallback::machine::{FallbackAction, FallbackEvent, FallbackOutcome, FallbackRun};
use a2a::A2aError;

fn run_for(chain: &[&str], dry_run: bool) -> FallbackRun {
    FallbackRun::new(
        "opus".to_string(),
        chain.iter().map(|s| s.to_string()).collect(),
        dry_run,
        false,
        "Review this design.".to_string(),
        false,
        "agent",
    )
}

fn expect_lookup(a: FallbackAction, name: &str) {
    match a {
        FallbackAction::LookupProfile { profile } => assert_eq!(profile, name),
        _ => panic!("expected a profile lookup"),
    }
}

fn drive_to_call(run: &mut FallbackRun) -> (String, Option<String>, String) {
    match run.step(FallbackEvent::ProfileLooked { store_drained: false, found: true }) {
        FallbackAction::PrepareMirror { .. } => {}
        _ => panic!("expected the mirror"),
    }
    match run.step(FallbackEvent::MirrorReady { store_drained: false }) {
        FallbackAction::WritePrompt { .. } => {}
        _ => panic!("expected the prompt"),
    }
    match run.step(FallbackEvent::PromptWritten { store_drained: false }) {
        FallbackAction::Call { profile, prompt, resume, .. } => (profile, resume, prompt),
        _ => panic!("expected a call"),
    }
}

#[test]
fn first_profile_success_finishes() {
    let mut run = run_for(&["work", "home"], false);
    expect_lookup(run.step(FallbackEvent::Begin { store_drained: false, store_empty: false }), "work");
    let (profile, resume, prompt) = drive_to_call(&mut run);
    assert_eq!(profile, "work");
    assert!(resume.is_none());
    assert!(prompt.contains("a2a read-only directive"));
    assert!(prompt.ends_with("Review this design."));
    let a = run.step(FallbackEvent::CallFinished {
        success: true,
        stderr: String::new(),
        session_id: Some("chat-1".to_string()),
        elapsed_ms: 1200,
    });
    match a {
        FallbackAction::Finish { outcome: FallbackOutcome::Succeeded { profile } } => assert_eq!(profile, "work"),
        _ => panic!("expected success"),
    }
    assert_eq!(run.attempts().len(), 1);
    assert!(run.attempts()[0].success);
    assert_eq!(run.session_ids(), &vec!["chat-1".to_string()]);
    assert_eq!(run.last_session_id(), &Some("chat-1".to_string()));
}

#[test]
fn key_dead_deletes_and_moves_to_next_profile_without_resume() {
    let mut run = run_for(&["work", "home"], false);
    run.step(FallbackEvent::Begin { store_drained: false, store_empty: false });
    drive_to_call(&mut run);
    let a = run.step(FallbackEvent::CallFinished {
        success: false,
        stderr: "Request failed: status 401".to_string(),
        session_id: Some("chat-1".to_string()),
        elapsed_ms: 10,
    });
    match a {
        FallbackAction::DeleteProfile { profile, .. } => assert_eq!(profile, "work"),
        _ => panic!("expected the profile to be deleted"),
    }
    expect_lookup(run.step(FallbackEvent::ProfileDeleted { became_empty: false }), "home");
    let (profile, resume, prompt) = drive_to_call(&mut run);
    assert_eq!(profile, "home");
    // A different account never resumes the first account's chat.
    assert!(resume.is_none());
    assert!(prompt.contains("Original prompt below"));
    assert_eq!(run.attempts()[0].error_class.as_deref(), Some("keydead"));
}

#[test]
fn transient_failure_sleeps_then_resumes_same_session() {
    let mut run = run_for(&["work"], false);
    run.step(FallbackEvent::Begin { store_drained: false, store_empty: false });
    drive_to_call(&mut run);
    let a = run.step(FallbackEvent::CallFinished {
        success: false,
        stderr: "HTTP 429 Too Many Requests".to_string(),
        session_id: Some("chat-7".to_string()),
        elapsed_ms: 10,
    });
    match a {
        FallbackAction::Sleep { ms, attempt } => {
            assert_eq!(ms, 1000);
            assert_eq!(attempt, 1);
        }
        _ => panic!("expected a back-off"),
    }
    match run.step(FallbackEvent::Slept { store_drained: false }) {
        FallbackAction::WritePrompt { .. } => {}
        _ => panic!("expected the prompt"),
    }
    match run.step(FallbackEvent::PromptWritten { store_drained: false }) {
        FallbackAction::Call { resume, .. } => assert_eq!(resume, Some("chat-7".to_string())),
        _ => panic!("expected a call"),
    }
}

#[test]
fn transient_failures_back_off_one_three_ten_seconds_then_stop() {
    let mut run = run_for(&["work"], false);
    run.step(FallbackEvent::Begin { store_drained: false, store_empty: false });
    drive_to_call(&mut run);
    let mut waits = Vec::new();
    loop {
        let a = run.step(FallbackEvent::CallFinished {
            success: false,
            stderr: "connection reset by peer".to_string(),
            session_id: None,
            elapsed_ms: 5,
        });
        match a {
            FallbackAction::Sleep { ms, .. } => {
                waits.push(ms);
                run.step(FallbackEvent::Slept { store_drained: false });
                run.step(FallbackEvent::PromptWritten { store_drained: false });
            }
            FallbackAction::Finish { outcome: FallbackOutcome::Failed { error, write_meta, .. } } => {
                assert!(write_meta);
                assert!(matches!(error, A2aError::User(_)));
                break;
            }
            _ => panic!("unexpected action"),
        }
    }
    assert_eq!(waits, vec![1000, 3000, 10000]);
}

#[test]
fn model_unavailable_skips_the_alias() {
    let mut run = run_for(&["work", "home"], false);
    run.step(FallbackEvent::Begin { store_drained: false, store_empty: false });
    drive_to_call(&mut run);
    let a = run.step(FallbackEvent::CallFinished {
        success: false,
        stderr: "Cannot use this model: foo".to_string(),
        session_id: None,
        elapsed_ms: 5,
    });
    match a {
        FallbackAction::Finish { outcome: FallbackOutcome::Failed { error: A2aError::User(_), .. } } => {}
        _ => panic!("expected the alias to be skipped"),
    }
}

#[test]
fn missing_profile_is_recorded_and_skipped() {
    let mut run = run_for(&["ghost", "home"], false);
    run.step(FallbackEvent::Begin { store_drained: false, store_empty: false });
    expect_lookup(run.step(FallbackEvent::ProfileLooked { store_drained: false, found: false }), "home");
    assert_eq!(run.attempts()[0].error_class.as_deref(), Some("not_found"));
}

#[test]
fn dry_run_previews_without_calling() {
    let mut run = run_for(&["work"], true);
    run.step(FallbackEvent::Begin { store_drained: false, store_empty: true });
    match run.step(FallbackEvent::ProfileLooked { store_drained: false, found: true }) {
        FallbackAction::Finish { outcome: FallbackOutcome::DryRun { profile, found } } => {
            assert_eq!(profile, "work");
            assert!(found);
        }
        _ => panic!("expected a preview"),
    }
}

#[test]
fn drained_store_stops_the_alias() {
    let mut run = run_for(&["work"], false);
    match run.step(FallbackEvent::Begin { store_drained: true, store_empty: false }) {
        FallbackAction::Finish { outcome: FallbackOutcome::Failed { write_meta, .. } } => assert!(!write_meta),
        _ => panic!("expected a stop"),
    }
}

#[test]
fn last_dead_key_signals_drain() {
    let mut run = run_for(&["work"], false);
    run.step(FallbackEvent::Begin { store_drained: false, store_empty: false });
    drive_to_call(&mut run);
    run.step(FallbackEvent::CallFinished {
        success: false,
        stderr: "unauthorized".to_string(),
        session_id: None,
        elapsed_ms: 5,
    });
    match run.step(FallbackEvent::ProfileDeleted { became_empty: true }) {
        FallbackAction::Finish { outcome: FallbackOutcome::Failed { signal_drained, .. } } => assert!(signal_drained),
        _ => panic!("expected the drain signal"),
    }
}
