use a2a::auth::store::{needs_legacy_backup, str_eq_ignore_ascii_case, Profile};
use a2a::auth::{
    auto_pick_name, check_new_key, clean_stdin_line, delete_profile_on_key_dead, last_used_text,
    list_lines, looks_like_cursor_key, mask_key, new_profile_name, profile_line, profile_not_found,
    read_api_key, show_line, validate_profile_name,
};
use a2a::A2aError;

fn user_msg(e: A2aError) -> String {
    match e {
        A2aError::User(u) => u.0,
        _ => panic!("expected a user error"),
    }
}

fn strings(v: &[&str]) -> Vec<String> {
    v.iter().map(|s| s.to_string()).collect()
}

#[test]
fn profile_names_allow_suffix_parentheses() {
    assert!(validate_profile_name("work(1)").is_ok());
    assert_eq!(user_msg(validate_profile_name("").err().unwrap()), "profile name cannot be empty");
    assert_eq!(
        user_msg(validate_profile_name("a b").err().unwrap()),
        "profile name must be alphanumeric / '-' / '_' / '(' / ')': a b"
    );
}

#[test]
fn auto_name_takes_key_tail_and_avoids_collisions() {
    assert_eq!(auto_pick_name(&Vec::new(), "key_abcdef123456").ok().unwrap(), "123456");
    let taken = strings(&["123456", "123456(1)"]);
    assert_eq!(auto_pick_name(&taken, "key_abcdef123456").ok().unwrap(), "123456(2)");
    let e = auto_pick_name(&Vec::new(), "abc").err().unwrap();
    assert_eq!(
        user_msg(e),
        "API key is shorter than 6 characters; please provide an explicit profile name: `a2a auth add <name> [--from-stdin]`"
    );
    let e = auto_pick_name(&Vec::new(), "key_abc.def!").err().unwrap();
    assert_eq!(
        user_msg(e),
        "cannot auto-derive profile name from key tail 'c.def!' (profile name must be alphanumeric / '-' / '_' / '(' / ')': c.def!); please provide an explicit name: `a2a auth add <name> [--from-stdin]`"
    );
}

#[test]
fn auto_name_gives_up_after_a_thousand_candidates() {
    let mut taken = vec!["aaaaaa".to_string()];
    for n in 1..1000 {
        taken.push(format!("aaaaaa({n})"));
    }
    let e = auto_pick_name(&taken, "xxaaaaaa").err().unwrap();
    assert_eq!(
        user_msg(e),
        "tried 1000 candidate names with suffix from key tail 'aaaaaa'; please specify a name explicitly"
    );
}

#[test]
fn explicit_name_must_be_free() {
    let taken = strings(&["work"]);
    assert_eq!(new_profile_name(Some("home"), &taken, "k").ok().unwrap(), "home");
    let e = new_profile_name(Some("work"), &taken, "k").err().unwrap();
    assert!(user_msg(e).starts_with("profile name 'work' is already in use."));
    assert_eq!(new_profile_name(None, &taken, "key_0000work12").ok().unwrap(), "work12");
}

#[test]
fn key_shape_and_masking() {
    assert!(looks_like_cursor_key("key_0123456789abcdef"));
    assert!(looks_like_cursor_key("crsr_0123456789abc"));
    assert!(looks_like_cursor_key("sk_0123456789abcdef"));
    assert!(!looks_like_cursor_key("key_short"));
    assert!(!looks_like_cursor_key("abcd_0123456789abcdef"));
    assert_eq!(check_new_key("abc").ok(), Some(true));
    assert_eq!(check_new_key("key_0123456789abcdef").ok(), Some(false));
    assert_eq!(user_msg(check_new_key("").err().unwrap()), "empty API key");
    assert_eq!(mask_key("key_0123456789abcdef"), "key_****cdef");
    assert_eq!(mask_key("12345678"), "****");
    assert_eq!(show_line("work", "key_0123456789abcdef"), "work -> key_****cdef");
}

#[test]
fn stdin_keys_lose_byte_order_marks_and_blanks() {
    assert_eq!(clean_stdin_line("\u{feff}\u{feff}  key_abc \r\n"), "key_abc");
    assert_eq!(clean_stdin_line("   \n"), "");
    assert_eq!(clean_stdin_line(" \u{feff}key"), "\u{feff}key");
}

#[test]
fn reading_keys_and_clearing_defaults() {
    let p = Profile {
        name: "work".to_string(),
        api_key: "key_1".to_string(),
        created_at: 0,
        last_used_at: None,
        note: None,
    };
    assert_eq!(read_api_key(Some(p), "work").ok().unwrap(), "key_1");
    assert_eq!(user_msg(read_api_key(None, "ghost").err().unwrap()), "profile not found: ghost");
    assert_eq!(user_msg(profile_not_found("x")), "profile not found: x");
    assert!(delete_profile_on_key_dead("work", Some("work")));
    assert!(!delete_profile_on_key_dead("work", Some("home")));
    assert!(!delete_profile_on_key_dead("work", None));
}

#[test]
fn list_rows_are_padded() {
    assert_eq!(last_used_text(None), "never");
    assert_eq!(last_used_text(Some(0)), "1970-01-01 00:00");
    assert_eq!(last_used_text(Some(86_400 + 3_660)), "1970-01-02 01:01");
    assert_eq!(
        profile_line("work", true, "never", Some("main")),
        "* work            last_used=never             -- main"
    );
    assert_eq!(
        profile_line("a-very-long-profile-name", false, "x", None),
        "  a-very-long-profile-name  last_used=x               "
    );
    let ps = vec![Profile {
        name: "work".to_string(),
        api_key: "k".to_string(),
        created_at: 0,
        last_used_at: Some(0),
        note: None,
    }];
    let lines = list_lines("/h/.a2a/credentials.db", &ps, Some("work"));
    assert_eq!(lines[0], "Profiles in /h/.a2a/credentials.db:");
    assert_eq!(lines[1], "* work            last_used=1970-01-01 00:00");
    assert_eq!(lines[2], "");
    assert_eq!(lines[3], "(* = default profile; set with `a2a auth use <name>`)");
    let empty = list_lines("/db", &Vec::new(), None);
    assert_eq!(empty, strings(&["Profiles in /db:", "  (no profiles configured; run `a2a auth add` to add one)"]));
}

#[test]
fn legacy_schema_detection() {
    let cols = vec![("name".to_string(), "TEXT".to_string()), ("api_key".to_string(), "blob".to_string())];
    assert!(needs_legacy_backup(true, &cols));
    let cols = vec![("name".to_string(), "TEXT".to_string()), ("api_key".to_string(), "TEXT".to_string())];
    assert!(!needs_legacy_backup(true, &cols));
    let cols = vec![("salt".to_string(), "TEXT".to_string())];
    assert!(needs_legacy_backup(true, &cols));
    assert!(!needs_legacy_backup(false, &cols));
    assert!(str_eq_ignore_ascii_case("Available Models", "available models"));
}
