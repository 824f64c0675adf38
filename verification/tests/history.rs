use a2a::runner::history::{is_a2a_temp_name, parse_older_than_duration};

#[test]
fn matches_uuid_simple_forms() {
    assert!(is_a2a_temp_name("a2a-0123456789abcdef0123456789abcdef"));
}

#[test]
fn rejects_user_dirs() {
    assert!(!is_a2a_temp_name("a2a-cargo"));
    assert!(!is_a2a_temp_name("a2a-build-cache"));
    assert!(!is_a2a_temp_name("a2a-tools-2024"));
    assert!(!is_a2a_temp_name("a2a-"));
    assert!(!is_a2a_temp_name("a2a"));
}

#[test]
fn rejects_uuid_with_dashes() {
    assert!(!is_a2a_temp_name("a2a-01234567-89ab-cdef-0123-456789abcdef"));
}

#[test]
fn rejects_scratch_prefix() {
    assert!(!is_a2a_temp_name("a2a-scratch-0123456789abcdef0123456789abcdef"));
}

#[test]
fn accepts_relative_durations() {
    assert_eq!(parse_older_than_duration("30s").ok().unwrap(), 30);
    assert_eq!(parse_older_than_duration("5m").ok().unwrap(), 5 * 60);
    assert_eq!(parse_older_than_duration("2h").ok().unwrap(), 2 * 60 * 60);
    assert_eq!(parse_older_than_duration("7d").ok().unwrap(), 7 * 86400);
    assert_eq!(parse_older_than_duration("1w").ok().unwrap(), 7 * 86400);
}

#[test]
fn rejects_uppercase_suffix() {
    assert!(parse_older_than_duration("30D").is_err());
}

#[test]
fn rejects_absolute_date() {
    assert!(parse_older_than_duration("2030-01-01T00:00:00Z").is_err());
    assert!(parse_older_than_duration("next_month_first_day").is_err());
}

#[test]
fn rejects_multibyte_without_panic() {
    assert!(parse_older_than_duration("30天").is_err());
    assert!(parse_older_than_duration("天").is_err());
    assert!(parse_older_than_duration("日").is_err());
}

#[test]
fn rejects_empty() {
    assert!(parse_older_than_duration("").is_err());
    assert!(parse_older_than_duration("   ").is_err());
}

#[test]
fn rejects_negative() {
    assert!(parse_older_than_duration("-30d").is_err());
}

#[test]
fn rejects_no_suffix() {
    assert!(parse_older_than_duration("30").is_err());
}
