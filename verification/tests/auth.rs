use tidvatten::api::auth_error_status;
use tidvatten::api::authenticate;
use tidvatten::api::extract_token;
use tidvatten::api::is_valid;
use tidvatten::api::AuthError;
use tidvatten::api::IdentityResolver;
use tidvatten::api::ResolutionFailure;
use tidvatten::api::StubResolver;

struct RejectingResolver {}

impl IdentityResolver for RejectingResolver {
    fn resolve(&self, _token: &str) -> Result<String, ResolutionFailure> {
        Err(ResolutionFailure {})
    }
}

#[test]
fn token_header_authenticates_with_raw_token() {
    let identity = authenticate(Some("Token abc123"), &StubResolver {}).unwrap();
    assert_eq!(identity.raw_token, "abc123");
    assert_eq!(identity.username, "test");
}

#[test]
fn bearer_header_is_malformed() {
    let result = authenticate(Some("Bearer abc123"), &StubResolver {});
    assert!(matches!(result, Err(AuthError::Malformed)));
}

#[test]
fn absent_header_is_missing() {
    let result = authenticate(None, &StubResolver {});
    assert!(matches!(result, Err(AuthError::Missing)));
}

#[test]
fn unresolved_token_is_rejected() {
    let result = authenticate(Some("Token abc123"), &RejectingResolver {});
    assert!(matches!(result, Err(AuthError::IdentityResolutionFailed)));
}

#[test]
fn valid_headers_match_the_token_shape() {
    assert!(is_valid("Token abc123"));
    assert!(is_valid("Token "));
    assert!(is_valid("Token\tabc"));
    assert!(is_valid("Token \u{e9}t\u{e9}"));
}

#[test]
fn invalid_headers_do_not_match() {
    assert!(!is_valid(""));
    assert!(!is_valid("Token"));
    assert!(!is_valid("token abc"));
    assert!(!is_valid("Tokenabc"));
    assert!(!is_valid("xToken abc"));
    assert!(!is_valid("Bearer abc"));
}

#[test]
fn extracted_token_is_the_remainder_verbatim() {
    assert_eq!(extract_token("Token abc123").unwrap(), "abc123");
    assert_eq!(extract_token("Token  padded ").unwrap(), " padded ");
    assert_eq!(extract_token("Token ").unwrap(), "");
    assert_eq!(extract_token("Token \u{e9}t\u{e9}").unwrap(), "\u{e9}t\u{e9}");
    assert!(extract_token("Bearer abc123").is_none());
}

#[test]
fn auth_errors_map_to_http_statuses() {
    assert_eq!(auth_error_status(&AuthError::Missing), 400);
    assert_eq!(auth_error_status(&AuthError::Malformed), 400);
    assert_eq!(auth_error_status(&AuthError::IdentityResolutionFailed), 401);
}
