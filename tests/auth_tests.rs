use trmnl::auth::{AuthError, TokenAuth};

#[test]
fn test_token_auth_validate() {
    let auth = TokenAuth::new(Some("secret123".to_string()));
    assert!(auth.validate("secret123").is_ok());
    assert!(auth.validate("wrong").is_err());
}

#[test]
fn test_token_auth_missing() {
    let auth = TokenAuth::new(None);
    assert!(auth.validate("anything").is_err());
}

#[test]
fn test_from_query_string() {
    let auth = TokenAuth::from_query_string("token=mysecret&other=value");
    assert_eq!(auth.token, Some("mysecret".to_string()));

    let auth_empty = TokenAuth::from_query_string("other=value");
    assert_eq!(auth_empty.token, None);
}

#[test]
fn test_validate_env_not_set() {
    // No expected token configured: every request passes.
    let auth = TokenAuth::new(None);
    assert!(auth.validate_configured(None).is_ok());
}

#[test]
fn test_from_query_string_with_firmware_quirk() {
    let auth = TokenAuth::from_query_string("token=mysecret/api/display");
    let token = auth.token.unwrap();
    let clean = if let Some(idx) = token.find("/api/") {
        token[..idx].to_string()
    } else {
        token
    };
    assert_eq!(clean, "mysecret");
}

#[test]
fn validate_reports_missing_and_invalid() {
    let missing = TokenAuth::new(None).validate("x").unwrap_err();
    assert_eq!(missing.message, "Missing token");
    let wrong = TokenAuth::new(Some("a".to_string())).validate("b").unwrap_err();
    assert_eq!(wrong.message, "Invalid token");
    assert_eq!(AuthError::new("boom").message, "boom");
}

#[test]
fn unconfigured_check_passes_any_token() {
    let with = TokenAuth::new(Some("whatever".to_string()));
    assert!(with.validate_configured(None).is_ok());
    assert!(with.validate_configured(Some("other")).is_err());
    assert!(with.validate_configured(Some("whatever")).is_ok());
}

#[test]
fn has_token_reports_presence() {
    assert!(TokenAuth::new(Some(String::new())).has_token());
    assert!(!TokenAuth::new(None).has_token());
}

#[test]
fn query_string_decodes_and_keeps_last_token() {
    let auth = TokenAuth::from_query_string("token=first&token=a%20b+c");
    assert_eq!(auth.token, Some("a b c".to_string()));
    assert_eq!(TokenAuth::from_query_string("").token, None);
}

#[test]
fn request_query_takes_first_token_and_strips_path() {
    let auth = TokenAuth::from_request_query(Some("token=mysecret/api/display&token=later"));
    assert_eq!(auth.token, Some("mysecret".to_string()));
    assert!(auth.validate("mysecret").is_ok());
    assert_eq!(TokenAuth::from_request_query(None).token, None);
    assert_eq!(TokenAuth::from_request_query(Some("other=1")).token, None);
}

#[test]
fn strip_suffix_cuts_at_first_api_path() {
    assert_eq!(trmnl::auth::strip_api_suffix("abc/api/x/api/y"), "abc");
    assert_eq!(trmnl::auth::strip_api_suffix("plain"), "plain");
    assert_eq!(trmnl::auth::strip_api_suffix("/api/"), "");
}

#[test]
fn from_pairs_uses_last_token_pair() {
    let pairs = vec![
        ("token".to_string(), "one".to_string()),
        ("x".to_string(), "y".to_string()),
        ("token".to_string(), "two".to_string()),
    ];
    assert_eq!(TokenAuth::from_pairs(&pairs).token, Some("two".to_string()));
    assert_eq!(TokenAuth::from_request_pairs(&pairs).token, Some("one".to_string()));
}
