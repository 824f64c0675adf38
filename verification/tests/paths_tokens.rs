use a2a::paths::is_within;
use a2a::runner::cursor_agent::{call_succeeded, CursorAgentResult, StreamState};
use a2a::commands::models::ModelVariant;
use a2a::fallback::contains_token;
use a2a::isolation::{classify_entry_path, workspace_in, EntrySyntax};
use a2a::prompt::parse_minimal_frontmatter_yaml;
use a2a::runner::history::{clean_cutoff, housekeep_cutoff};
use a2a::runner::{entry_syntax_ok, validate_project_relative};

#[test]
fn token_found_where_it_overlaps_a_glued_occurrence() {
    assert!(contains_token("xa-a-a", "a-a"));
    assert!(contains_token("é401", "401"));
    assert!(!contains_token("x4019", "401"));
    assert!(contains_token("4019 401", "401"));
}

#[test]
fn relative_paths_checked_by_segments() {
    assert!(validate_project_relative("consultations", "root").is_ok());
    assert!(validate_project_relative("nested/dir/", "root").is_ok());
    assert!(validate_project_relative("a/../b", "root").is_err());
    assert!(validate_project_relative("..", "root").is_err());
    assert!(validate_project_relative("/etc", "root").is_err());
    assert!(validate_project_relative("", "root").is_err());
    assert!(entry_syntax_ok("src/lib.rs"));
    assert!(entry_syntax_ok("./docs"));
    assert!(!entry_syntax_ok("../secret"));
    assert!(!entry_syntax_ok("a/../../b"));
    assert_eq!(classify_entry_path("a/b"), EntrySyntax::Relative);
    assert_eq!(classify_entry_path("a/../b"), EntrySyntax::ParentTraversal);
}

#[test]
fn workspace_lies_directly_under_the_temp_dir() {
    let w = workspace_in("/tmp").ok().expect("random source");
    let root = w.root();
    assert!(root.starts_with("/tmp/a2a-"));
    assert_eq!(root.len(), "/tmp/".len() + 36);
}

#[test]
fn yaml_reader_ignores_other_lines() {
    let f = parse_minimal_frontmatter_yaml("# note\ntopic: x\nno colon here\n\ncontext_files: [a.rs, 'b.rs', ]\nother: y");
    assert_eq!(f.context_files, vec!["a.rs".to_string(), "b.rs".to_string()]);
    let g = parse_minimal_frontmatter_yaml("context_files:\n  - one\n\n  - \"two\"\nnext: 1");
    assert_eq!(g.context_files, vec!["one".to_string(), "two".to_string()]);
    assert!(parse_minimal_frontmatter_yaml("context_files: [").context_files.is_empty());
    assert!(parse_minimal_frontmatter_yaml("context_files: [,]").context_files.is_empty());
}

#[test]
fn model_id_rebuilds_from_its_tags() {
    for m in ["opus-4-7-thinking-xhigh", "model-5.5-extra-high-fast", "sonnet-4", "m-thinking-max-fast"] {
        let v = ModelVariant::parse(m);
        let mut id = v.family.clone();
        if v.thinking {
            id.push_str("-thinking");
        }
        if let Some(s) = &v.size {
            id.push('-');
            id.push_str(s);
        }
        if v.speed.is_some() {
            id.push_str("-fast");
        }
        assert_eq!(id, m);
    }
}

#[test]
fn cutoffs_before_the_epoch() {
    assert_eq!(housekeep_cutoff(-10, 7), -10 - 7 * 86400);
    assert_eq!(clean_cutoff(Some("1h"), -5).ok().unwrap(), Some(-3605));
}

#[test]
fn stream_lines_read_through_json() {
    let mut st = StreamState::new();
    assert!(!st.feed_line(r#"{"type":"system","subtype":"init","session_id":"chat-7"}"#));
    assert!(st.feed_line(
        r#"  {"type":"assistant","timestamp_ms":1,"message":{"content":[{"text":"Hel"},{"image":1},{"text":"lo"}]}}  "#
    ));
    assert!(!st.feed_line(r#"{"type":"assistant","model_call_id":"m","message":{"content":[{"text":"Hello"}]}}"#));
    assert!(!st.feed_line("not json"));
    assert!(!st.feed_line("   "));
    assert_eq!(st.session_id.as_deref(), Some("chat-7"));
    assert_eq!(st.text, "Hellonot json\n");
    assert_eq!(st.non_delta_text, "Hello");
    assert_eq!(st.chars_seen, 5);
    assert!(!st.feed_line(r#"{"type":"result","result":"final","is_error":true,"subtype":"error_x"}"#));
    let r = st.finish(String::new(), Some(0));
    assert_eq!(r.stdout, "final");
    assert!(r.stream_is_error);
    assert!(!call_succeeded(&r));
    let ok = CursorAgentResult {
        stdout: String::new(),
        stderr: String::new(),
        exit_code: Some(0),
        stream_is_error: false,
        stream_subtype: None,
        session_id: None,
    };
    assert!(call_succeeded(&ok));
}

#[test]
fn within_compares_whole_components() {
    assert!(is_within("/p/proj/src", "/p/proj"));
    assert!(is_within("/p/proj", "/p/proj"));
    assert!(!is_within("/p/project2", "/p/proj"));
    assert!(!is_within("/etc", "/p/proj"));
}
