use typst_gateway::auth::{authorize, starts_with, strip_scheme_prefix};
use typst_gateway::error::{ErrorKind, GatewayError};

#[test]
fn correct_secret_passes_the_gate() {
    assert!(authorize(Some("s3cret"), Some("Basic OnMzY3JldA==")).is_ok());
}

#[test]
fn surrounding_whitespace_of_the_credential_is_ignored() {
    assert!(authorize(Some("s3cret"), Some("Basic  OnMzY3JldA== ")).is_ok());
}

#[test]
fn wrong_secret_is_rejected() {
    let r = authorize(Some("other"), Some("Basic OnMzY3JldA=="));
    assert!(matches!(r, Err(GatewayError::BadCredentials)));
    let e = r.unwrap_err();
    assert_eq!(e.status(), 401);
    assert_eq!(e.message(), "Invalid credentials");
}

#[test]
fn credential_without_colon_is_rejected() {
    // base64 of "s3cret" alone, without the leading colon
    let r = authorize(Some("s3cret"), Some("Basic czNjcmV0"));
    assert!(matches!(r, Err(GatewayError::BadCredentials)));
}

#[test]
fn other_scheme_is_rejected() {
    let r = authorize(Some("s3cret"), Some("Bearer OnMzY3JldA=="));
    assert!(matches!(r, Err(GatewayError::WrongScheme)));
    assert_eq!(r.unwrap_err().message(), "Invalid Authorization format");
}

#[test]
fn missing_header_is_rejected() {
    let r = authorize(Some("s3cret"), None);
    assert!(matches!(r, Err(GatewayError::MissingCredentials)));
    let e = r.unwrap_err();
    assert_eq!(e.kind(), ErrorKind::Auth);
    assert_eq!(e.message(), "Missing Authorization header");
}

#[test]
fn missing_secret_is_a_configuration_error() {
    let r = authorize(None, Some("Basic OnMzY3JldA=="));
    assert!(matches!(r, Err(GatewayError::MissingSecret)));
    let e = r.unwrap_err();
    assert_eq!(e.status(), 500);
    assert_eq!(e.kind(), ErrorKind::Configuration);
}

#[test]
fn repeated_scheme_prefixes_are_all_removed() {
    assert_eq!(strip_scheme_prefix("Basic Basic abc"), "abc");
    assert_eq!(strip_scheme_prefix("Basic"), "Basic");
    assert!(authorize(Some("s3cret"), Some("Basic Basic OnMzY3JldA==")).is_ok());
}

#[test]
fn prefix_test_compares_characters() {
    assert!(starts_with("Basic x", "Basic "));
    assert!(!starts_with("Basi", "Basic "));
    assert!(!starts_with("basic x", "Basic "));
    assert!(starts_with("", ""));
}
