use fireauth2::error::Error;
use fireauth2::exchange::{GoogleOAuthExtraTokenFields, GoogleOAuthTokenResponse};
use fireauth2::store::GoogleUser;
use fireauth2::token::{
    resolve_stored_refresh_token, stored_token_to_revoke, ExchangeRefreshTokenRequest,
    ExchangeRefreshTokenResponse, TokenRevocationConfig, TokenRevocationPayload,
};

fn token_response(expires: Option<u64>) -> GoogleOAuthTokenResponse {
    GoogleOAuthTokenResponse {
        access_token: "ya29.fresh".to_string(),
        refresh_token: None,
        expires_in: expires,
        scopes: None,
        extra_fields: GoogleOAuthExtraTokenFields { id_token: "idtok".to_string() },
    }
}

fn stored_user(refresh: Option<&str>) -> GoogleUser {
    GoogleUser {
        id: "subject-1".to_string(),
        email: Some("someone@example.com".to_string()),
        refresh_token: refresh.map(|s| s.to_string()),
        scope: vec!["email".to_string()],
    }
}

#[test]
fn refresh_exchange_fails_without_a_stored_record() {
    let err = resolve_stored_refresh_token(None).unwrap_err();
    assert!(matches!(err, Error::UserNotFound));
    assert_eq!(err.message(), "No Google user found");
    assert_eq!(err.status_code(), 400);
}

#[test]
fn refresh_exchange_fails_on_a_record_without_a_token() {
    let err = resolve_stored_refresh_token(Some(stored_user(None))).unwrap_err();
    assert!(matches!(err, Error::TokenExchangeFailed { .. }));
    assert_eq!(err.message(), "Failed to exchange token: No refresh token found for user");
    assert_eq!(err.status_code(), 500);
}

#[test]
fn refresh_exchange_uses_the_stored_token() {
    let token = resolve_stored_refresh_token(Some(stored_user(Some("rt-77")))).unwrap();
    assert_eq!(token, "rt-77");
    let request = ExchangeRefreshTokenRequest::new(&token);
    assert_eq!(request.refresh_token, "rt-77");
}

#[test]
fn refresh_response_carries_tokens_and_times() {
    let response = ExchangeRefreshTokenResponse::from_token_response(
        token_response(Some(3599)),
        1759485825,
    );
    assert_eq!(response.access_token, "ya29.fresh");
    assert_eq!(response.id_token, "idtok");
    assert_eq!(response.issued_at, 1759485825);
    assert_eq!(response.expires_in, 3599);
}

#[test]
fn refresh_response_reads_a_missing_expiry_as_zero() {
    let response = ExchangeRefreshTokenResponse::from_token_response(token_response(None), 7);
    assert_eq!(response.expires_in, 0);
}

#[test]
fn revocation_without_the_flag_never_touches_the_store_token() {
    let payload = TokenRevocationPayload {
        access_token: "at-1".to_string(),
        revoke_refresh_token: false,
    };
    let config = TokenRevocationConfig::new(payload, "subject-1");
    assert_eq!(config.user_id(), "subject-1");
    assert_eq!(config.access_token(), "at-1");
    assert!(!config.revoke_refresh_token());
    assert!(stored_token_to_revoke(&config, Some(stored_user(Some("rt-1")))).is_none());
}

#[test]
fn revocation_with_flag_but_no_stored_token_skips_the_second_call() {
    let payload = TokenRevocationPayload {
        access_token: "at-1".to_string(),
        revoke_refresh_token: true,
    };
    let config = TokenRevocationConfig::new(payload, "subject-1");
    // No record at all: nothing to revoke, and no error either.
    assert!(stored_token_to_revoke(&config, None).is_none());
    // A record without a refresh token: likewise a no-op.
    assert!(stored_token_to_revoke(&config, Some(stored_user(None))).is_none());
}

#[test]
fn revocation_with_flag_revokes_the_stored_token() {
    let payload = TokenRevocationPayload {
        access_token: "at-1".to_string(),
        revoke_refresh_token: true,
    };
    assert!(payload.revoke_refresh_token());
    assert_eq!(payload.access_token(), "at-1");
    let config = TokenRevocationConfig::new(payload, "subject-1");
    let token = stored_token_to_revoke(&config, Some(stored_user(Some("rt-1"))));
    assert_eq!(token.as_deref(), Some("rt-1"));
}
