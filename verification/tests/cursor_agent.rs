use a2a::runner::cursor_agent::{
    binary_names, build_args, build_ps1_script, check_windows_prompt_len, dry_run_command_string,
    first_response_line, mode_flag_needed, progress_tick, timeout_result, CursorAgentSpec,
    StreamEvent, StreamState,
};

fn spec(mode: &str, sandbox: Option<&str>, resume: Option<&str>) -> CursorAgentSpec {
    CursorAgentSpec {
        cursor_model: "model-5".to_string(),
        mode: mode.to_string(),
        workspace: "/tmp/ws".to_string(),
        prompt_text: "---\nhello 'world'\n".to_string(),
        api_key: "key_secret".to_string(),
        sandbox: sandbox.map(str::to_string),
        resume_session_id: resume.map(str::to_string),
    }
}

#[test]
fn agent_mode_passes_no_mode_flag() {
    assert!(!mode_flag_needed("agent"));
    assert!(!mode_flag_needed(""));
    assert!(mode_flag_needed("plan"));
    let args = build_args(&spec("agent", None, None));
    assert_eq!(
        args,
        vec![
            "-p", "--output-format", "stream-json", "--stream-partial-output", "--model", "model-5",
            "--workspace", "/tmp/ws", "--trust", "--", "---\nhello 'world'\n",
        ]
    );
}

#[test]
fn plan_sandbox_and_resume_flags_in_order() {
    let args = build_args(&spec("plan", Some("enabled"), Some("chat-1")));
    assert_eq!(
        args,
        vec![
            "-p", "--output-format", "stream-json", "--stream-partial-output", "--model", "model-5",
            "--mode", "plan", "--workspace", "/tmp/ws", "--trust", "--sandbox", "enabled",
            "--resume", "chat-1", "--", "---\nhello 'world'\n",
        ]
    );
}

#[test]
fn powershell_script_quotes_every_argument() {
    let s = build_ps1_script("C:\\it's\\agent.ps1", &spec("agent", None, None));
    assert_eq!(
        s,
        "& 'C:\\it''s\\agent.ps1' '-p' '--output-format' 'stream-json' '--stream-partial-output' '--model' 'model-5' '--workspace' '/tmp/ws' '--trust' '--' '---\nhello ''world''\n'; exit $LASTEXITCODE"
    );
}

#[test]
fn dry_run_preview() {
    assert_eq!(
        dry_run_command_string(&spec("plan", Some("disabled"), Some("ignored"))),
        "CURSOR_API_KEY=$KEY cursor-agent -p --output-format stream-json --stream-partial-output --model model-5 --mode plan --workspace /tmp/ws --trust --sandbox disabled -- <prompt>"
    );
    assert_eq!(
        dry_run_command_string(&spec("agent", None, None)),
        "CURSOR_API_KEY=$KEY cursor-agent -p --output-format stream-json --stream-partial-output --model model-5 --workspace /tmp/ws --trust -- <prompt>"
    );
}

#[test]
fn binary_lookup_prefers_powershell_on_windows() {
    assert_eq!(binary_names(true)[0], "cursor-agent.ps1");
    assert_eq!(binary_names(true).len(), 6);
    assert_eq!(binary_names(false), vec!["cursor-agent", "agent"]);
}

#[test]
fn windows_prompt_cap() {
    assert!(check_windows_prompt_len("short").is_ok());
    let long = "x".repeat(28_001);
    match check_windows_prompt_len(&long) {
        Err(a2a::A2aError::Other(m)) => assert!(m.starts_with("prompt is 28001 bytes;")),
        _ => panic!("expected the cap error"),
    }
}

fn event(kind: &str) -> StreamEvent {
    StreamEvent {
        session_id: None,
        event_type: Some(kind.to_string()),
        has_timestamp_ms: false,
        has_model_call_id: false,
        texts: Vec::new(),
        result: None,
        is_error: false,
        subtype: None,
    }
}

#[test]
fn stream_prefers_result_then_deltas_then_buffered_text() {
    let mut st = StreamState::new();
    let mut init = event("system");
    init.session_id = Some("chat-9".to_string());
    assert!(!st.feed("{...}", Some(init)));
    let mut delta = event("assistant");
    delta.has_timestamp_ms = true;
    delta.texts = vec!["Hel".to_string(), "lo".to_string()];
    assert!(st.feed("{...}", Some(delta)));
    let mut buffered = event("assistant");
    buffered.texts = vec!["Hello (flush)".to_string()];
    assert!(!st.feed("{...}", Some(buffered)));
    assert_eq!(st.body(), "Hello");
    assert_eq!(st.chars_seen, 5);
    let mut result = event("result");
    result.result = Some("Final answer".to_string());
    result.is_error = true;
    result.subtype = Some("error_max_turns".to_string());
    st.feed("  {...}  ", Some(result));
    let r = st.finish("warn".to_string(), Some(0));
    assert_eq!(r.stdout, "Final answer");
    assert!(r.stream_is_error);
    assert_eq!(r.stream_subtype.as_deref(), Some("error_max_turns"));
    assert_eq!(r.session_id.as_deref(), Some("chat-9"));
    assert_eq!(r.exit_code, Some(0));
}

#[test]
fn non_json_lines_are_kept_and_blank_lines_skipped() {
    let mut st = StreamState::new();
    st.feed("   ", None);
    st.feed("  boot failure  ", None);
    assert_eq!(st.body(), "boot failure\n");
}

#[test]
fn progress_lines() {
    assert_eq!(first_response_line(Some("opus")), "[opus] received first response (streaming...)");
    assert_eq!(first_response_line(None), "received first response (streaming...)");
    assert_eq!(
        progress_tick(Some("opus"), 10, 25, 0),
        Some("[opus] still receiving... +15 chars (total 25 chars in last 10s)".to_string())
    );
    assert_eq!(progress_tick(None, 10, 25, 0), Some("still receiving... +15 chars (total 25 chars)".to_string()));
    assert_eq!(progress_tick(None, 25, 25, 29), None);
    assert_eq!(
        progress_tick(Some("a"), 25, 25, 30),
        Some("[a] still alive (no new streamed text in 30s; cursor-agent likely thinking / tool-calling)".to_string())
    );
}

#[test]
fn timeout_keeps_what_was_captured() {
    let r = timeout_result("Error: 401 unauthorized\n", Some("chat-2".to_string()));
    assert_eq!(
        r.stderr,
        "Error: 401 unauthorized\n\ncursor-agent timeout: run exceeded 900 seconds; killed via kill_on_drop"
    );
    assert_eq!(a2a::fallback::classify(&r.stderr), a2a::fallback::ErrorClass::KeyDead);
    assert_eq!(r.session_id.as_deref(), Some("chat-2"));
    assert_eq!(r.stream_subtype.as_deref(), Some("timeout"));
    assert!(r.stdout.is_empty());
    let r = timeout_result("  \n", None);
    assert_eq!(r.stderr, "cursor-agent timeout: run exceeded 900 seconds; killed via kill_on_drop");
    assert_eq!(a2a::fallback::classify(&r.stderr), a2a::fallback::ErrorClass::Transient);
}
