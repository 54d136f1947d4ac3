use swu_app::authentication::AuthClaims;
use swu_app::authentication::Error;
use swu_app::authentication::AuthenticationError;
use swu_app::status::STATUS_BAD_REQUEST;
use swu_app::authentication::TOKEN_LIFETIME_SECONDS;

#[test]
fn claims_of_a_store_expire_a_day_after_they_are_issued() {
    let claims = AuthClaims::for_store("test_store", 1_700_000_000);
    assert_eq!("test_store", claims.sub);
    assert_eq!("user", claims.role);
    assert_eq!(claims.exp, 1_700_086_400);
    assert!(claims.exp > 1_700_000_000 + 30 * 60, "Expiration should be more than 30 mins");
    assert_eq!(TOKEN_LIFETIME_SECONDS, 24 * 60 * 60);
    assert_eq!(AuthClaims::for_store("", 0).exp, 86_400);
    assert_eq!(AuthClaims::for_store("s", i64::MAX - 86_400).exp, i64::MAX);
    assert_eq!(claims.authorized_user().0, "test_store");
}

#[test]
fn missing_and_invalid_tokens_are_bad_requests() {
    assert_eq!(Error::NoToken.message(), "Token is not provided.");
    assert_eq!(Error::InvalidToken.message(), "Token is invalid.");
    assert_eq!(Error::NoToken.status_code(), 400);
    assert_eq!(Error::InvalidToken.status_code(), STATUS_BAD_REQUEST);
    assert_eq!(Error::NoToken.response_body(), "Invalid token");
    assert_eq!(Error::InvalidToken.response_body(), "Invalid token");
}

#[test]
fn failed_extraction_is_answered_with_its_status() {
    assert_eq!(AuthenticationError::NoTokenProvided.status_code(), 401);
    assert_eq!(AuthenticationError::InvalidTokenError.status_code(), 401);
    assert_eq!(AuthenticationError::InvalidServerConfiguration.status_code(), 500);
    assert_eq!(AuthenticationError::UnexpectedError.status_code(), 500);
    assert_eq!(AuthenticationError::NoTokenProvided.message(), Some("No Bearer Token"));
    assert_eq!(AuthenticationError::InvalidTokenError.message(), Some("Token is invalid."));
    assert_eq!(
        AuthenticationError::InvalidServerConfiguration.message(),
        Some("Server Configuration Invalid")
    );
    assert_eq!(AuthenticationError::UnexpectedError.message(), None);
}
