use a2a::fallback::{classify, contains_token, ErrorClass};

#[test]
fn token_boundary_matches() {
    assert!(contains_token("status 401", "401"));
    assert!(contains_token("error: 401", "401"));
    assert!(contains_token("(401)", "401"));
    assert!(contains_token("[401]", "401"));
    assert!(contains_token("401\n", "401"));
    assert!(contains_token("\n401\n", "401"));
    assert!(contains_token("401", "401"));
    assert!(contains_token("HTTP/2 401", "401"));
}

#[test]
fn token_boundary_rejects_substring() {
    assert!(!contains_token("4019", "401"));
    assert!(!contains_token("14012", "401"));
    assert!(!contains_token("a401b", "401"));
}

#[test]
fn classifies_401_in_natural_phrasings() {
    assert_eq!(classify("Request failed: status 401"), ErrorClass::KeyDead);
    assert_eq!(classify("Error: 401\n"), ErrorClass::KeyDead);
    assert_eq!(classify("HTTP/2 401\n"), ErrorClass::KeyDead);
    assert_eq!(classify("(401)"), ErrorClass::KeyDead);
    assert_eq!(classify("401"), ErrorClass::KeyDead);
}

#[test]
fn classifies_429_in_natural_phrasings() {
    assert_eq!(classify("status 429"), ErrorClass::Transient);
    assert_eq!(classify("HTTP 429 Too Many Requests"), ErrorClass::Transient);
}

#[test]
fn does_not_misclassify_substring_numbers() {
    assert_eq!(classify("error code 4019"), ErrorClass::Unknown);
    assert_eq!(classify("port 14290"), ErrorClass::Unknown);
}

#[test]
fn classifies_billing_keywords() {
    assert_eq!(classify("Payment overdue"), ErrorClass::KeyDead);
    assert_eq!(classify("quota exceeded for this month"), ErrorClass::KeyDead);
}

#[test]
fn classifies_model_unavailable() {
    assert_eq!(
        classify("Cannot use this model: gpt-5.5-extra-high"),
        ErrorClass::ModelUnavailable
    );
}

#[test]
fn classifies_unknown() {
    assert_eq!(classify("something weird happened"), ErrorClass::Unknown);
    assert_eq!(classify(""), ErrorClass::Unknown);
}
