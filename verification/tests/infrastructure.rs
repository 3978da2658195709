use fireauth2::authorize::GoogleOAuthClientConfig;
use fireauth2::error::Error;
use fireauth2::exchange::ExchangeAuthorizationCodeConfigBuilder;
use fireauth2::introspect::{
    decide_introspection, IntrospectionDecision, TokenIntrospectionPayload,
    TokenIntrospectionTypeHint,
};
use fireauth2::state::{AppSettings, AppState};
use fireauth2::store::{GoogleUser, GoogleUserId, GoogleUserRepository};
use fireauth2::text::{i64_to_string, join_spaces, parse_bool, parse_u16, u64_to_string};

#[test]
fn decimal_rendering_is_exact() {
    assert_eq!(u64_to_string(0), "0");
    assert_eq!(u64_to_string(3599), "3599");
    assert_eq!(u64_to_string(u64::MAX), "18446744073709551615");
    assert_eq!(i64_to_string(1759485825), "1759485825");
    assert_eq!(i64_to_string(-42), "-42");
    assert_eq!(i64_to_string(i64::MIN), "-9223372036854775808");
}

#[test]
fn decimal_parsing_is_exact() {
    assert_eq!(parse_u16("0"), Some(0));
    assert_eq!(parse_u16("180"), Some(180));
    assert_eq!(parse_u16("65535"), Some(65535));
    assert_eq!(parse_u16("65536"), None);
    assert_eq!(parse_u16(""), None);
    assert_eq!(parse_u16("12a"), None);
    assert_eq!(parse_bool("true"), Some(true));
    assert_eq!(parse_bool("false"), Some(false));
    assert_eq!(parse_bool("TRUE"), None);
}

#[test]
fn join_spaces_matches_expected_values() {
    let empty: Vec<String> = vec![];
    assert_eq!(join_spaces(&empty), "");
    assert_eq!(join_spaces(&vec!["email".to_string()]), "email");
    assert_eq!(
        join_spaces(&vec!["email".to_string(), "profile".to_string()]),
        "email profile"
    );
}

#[test]
fn app_state_defaults_apply_when_nothing_is_set() {
    let state = AppState::from_env(&AppSettings::none()).unwrap();
    assert_eq!(state.redirect_uri_path(), "/callback");
    assert_eq!(state.cookie_name(), "FIREAUTH2_SESSION");
    assert_eq!(state.cookie_max_age(), 180);
    assert_eq!(state.firestore_collection_name(), "googleUsers");
    assert!(!state.enable_existing_token_revocation());
}

#[test]
fn app_state_overrides_and_rejects_bad_values() {
    let mut settings = AppSettings::none();
    settings.cookie_max_age = Some("300".to_string());
    settings.enable_existing_token_revocation = Some("true".to_string());
    settings.cookie_name = Some("SESSION".to_string());
    let state = AppState::from_env(&settings).unwrap();
    assert_eq!(state.cookie_max_age(), 300);
    assert!(state.enable_existing_token_revocation());
    assert_eq!(state.cookie_name(), "SESSION");

    let mut bad = AppSettings::none();
    bad.cookie_max_age = Some("86400000".to_string());
    assert!(matches!(AppState::from_env(&bad).unwrap_err(), Error::ParseInt { .. }));

    let mut bad = AppSettings::none();
    bad.enable_existing_token_revocation = Some("maybe".to_string());
    assert!(matches!(AppState::from_env(&bad).unwrap_err(), Error::ParseBool { .. }));
}

#[test]
fn redirect_uri_is_built_from_the_request_origin() {
    let state = AppState::from_env(&AppSettings::none()).unwrap();
    let uri = state.get_redirect_uri_from_request("https", "svc.example").unwrap();
    assert_eq!(uri, "https://svc.example/callback");
}

#[test]
fn repository_is_last_write_wins_per_key() {
    let mut repo = GoogleUserRepository::new("googleUsers");
    assert_eq!(repo.collection_name(), "googleUsers");
    assert!(repo.get("a").is_none());
    repo.update(&GoogleUser {
        id: "a".to_string(),
        email: None,
        refresh_token: Some("rt-1".to_string()),
        scope: vec![],
    });
    repo.update(&GoogleUser {
        id: "b".to_string(),
        email: None,
        refresh_token: Some("rt-b".to_string()),
        scope: vec![],
    });
    repo.update(&GoogleUser {
        id: "a".to_string(),
        email: Some("a@example.com".to_string()),
        refresh_token: Some("rt-2".to_string()),
        scope: vec!["email".to_string()],
    });
    let a = repo.get("a").unwrap();
    assert_eq!(a.refresh_token.as_deref(), Some("rt-2"));
    assert_eq!(a.email.as_deref(), Some("a@example.com"));
    let b = repo.get("b").unwrap();
    assert_eq!(b.refresh_token.as_deref(), Some("rt-b"));
    assert!(repo.get("c").is_none());
}

#[test]
fn google_user_id_takes_the_first_identity() {
    let ids = vec!["subject-1".to_string(), "subject-2".to_string()];
    let gid = GoogleUserId::from_google_identities(&ids).unwrap();
    assert_eq!(gid.as_str(), "subject-1");

    let err = GoogleUserId::from_google_identities(&vec![]).unwrap_err();
    assert!(matches!(err, Error::FirebaseUserMissingGoogleIdentity));
    assert_eq!(err.status_code(), 400);
}

fn build_error(builder: ExchangeAuthorizationCodeConfigBuilder) -> Error {
    match builder.build() {
        Err(e) => e,
        Ok(_) => panic!("the builder should have refused an incomplete configuration"),
    }
}

#[test]
fn builder_reports_the_first_missing_field() {
    let err = build_error(ExchangeAuthorizationCodeConfigBuilder::new());
    assert_eq!(err.message(), "Missing required config field `code`");

    let err = build_error(ExchangeAuthorizationCodeConfigBuilder::new().code("c".to_string()));
    assert_eq!(err.message(), "Missing required config field `pkce_verifier`");

    let err = build_error(
        ExchangeAuthorizationCodeConfigBuilder::new()
            .code("c".to_string())
            .pkce_verifier("v".to_string()),
    );
    assert_eq!(err.message(), "Missing required config field `params`");
}

#[test]
fn introspection_rejects_access_tokens_and_verifies_id_tokens() {
    let payload = TokenIntrospectionPayload::new(
        "token-1".to_string(),
        TokenIntrospectionTypeHint::AccessToken,
    );
    assert_eq!(payload.token(), "token-1");
    match decide_introspection(&payload) {
        IntrospectionDecision::Reject { message } => {
            assert_eq!(message, "access_token introspection not allowed");
        },
        _ => panic!("expected a rejection"),
    }

    let payload =
        TokenIntrospectionPayload::new("token-2".to_string(), TokenIntrospectionTypeHint::IdToken);
    match decide_introspection(&payload) {
        IntrospectionDecision::VerifyIdToken { token } => assert_eq!(token, "token-2"),
        _ => panic!("expected verification"),
    }
}

#[test]
fn introspection_hint_parses_and_defaults_to_id_token() {
    assert!(matches!(
        TokenIntrospectionTypeHint::parse("access_token"),
        Some(TokenIntrospectionTypeHint::AccessToken)
    ));
    assert!(matches!(
        TokenIntrospectionTypeHint::parse("id_token"),
        Some(TokenIntrospectionTypeHint::IdToken)
    ));
    assert!(TokenIntrospectionTypeHint::parse("jwt").is_none());
    assert!(matches!(
        TokenIntrospectionTypeHint::default(),
        TokenIntrospectionTypeHint::IdToken
    ));
}

#[test]
fn error_statuses_follow_the_taxonomy() {
    assert_eq!(Error::MissingRedirectUrl.status_code(), 400);
    assert_eq!(Error::UserNotFound.status_code(), 400);
    assert_eq!(Error::InvalidPromptValue("x".to_string()).status_code(), 400);
    assert_eq!(Error::Store { because: "down".to_string() }.status_code(), 502);
    assert_eq!(Error::Http { because: "reset".to_string() }.status_code(), 502);
    assert_eq!(Error::TokenRevocationFailed { because: "r".to_string() }.status_code(), 502);
    assert_eq!(Error::TokenExchangeFailed { because: "x".to_string() }.status_code(), 500);
    assert_eq!(Error::Json { because: "j".to_string() }.status_code(), 500);
    assert_eq!(
        Error::TokenRevocationFailed { because: "boom".to_string() }.message(),
        "Failed to revoke token: boom"
    );
}

#[test]
fn client_config_exposes_its_endpoints() {
    let client = GoogleOAuthClientConfig {
        client_id: "id-1".to_string(),
        project_id: "proj".to_string(),
        auth_uri: "https://accounts.google.com/o/oauth2/v2/auth".to_string(),
        token_uri: "https://oauth2.googleapis.com/token".to_string(),
        client_secret: "SECRET-REDACTED".to_string(),
        javascript_origins: vec!["https://app.example".to_string()],
    };
    assert_eq!(client.client_id(), "id-1");
    assert_eq!(client.project_id(), "proj");
    assert_eq!(client.auth_uri(), "https://accounts.google.com/o/oauth2/v2/auth");
    assert_eq!(client.token_uri(), "https://oauth2.googleapis.com/token");
    assert_eq!(
        GoogleOAuthClientConfig::revocation_url(),
        "https://oauth2.googleapis.com/revoke"
    );
    assert_eq!(client.allowed_origins(), &vec!["https://app.example".to_string()]);
}
