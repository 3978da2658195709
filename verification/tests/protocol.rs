use fireauth2::authorize::{
    request_access_token, resolve_redirect_target, GoogleOAuthClientConfig,
    RequestAccessTokenConfig,
};
use fireauth2::exchange::{
    AuthorizationResponse, ExchangeAction, ExchangeAuthorizationCodeConfigBuilder, ExchangeEvent,
    ExchangeFlow, GoogleOAuthExtraTokenFields, GoogleOAuthTokenResponse, IdTokenClaims,
};
use fireauth2::params::{
    AccessType, IncludeGrantedScopes, Prompt, PromptList, RequestAccessTokenExtraParams,
};
use fireauth2::scope::ScopeList;
use fireauth2::session::Session;
use fireauth2::store::GoogleUserRepository;

fn test_client() -> GoogleOAuthClientConfig {
    GoogleOAuthClientConfig {
        client_id: "client-1.apps.example".to_string(),
        project_id: "demo-project".to_string(),
        auth_uri: "https://accounts.google.com/o/oauth2/v2/auth".to_string(),
        token_uri: "https://oauth2.googleapis.com/token".to_string(),
        client_secret: "SECRET-REDACTED".to_string(),
        javascript_origins: vec!["https://app.example".to_string()],
    }
}

fn offline_consent_params() -> RequestAccessTokenExtraParams {
    RequestAccessTokenExtraParams {
        include_granted_scopes: IncludeGrantedScopes(true),
        login_hint: None,
        access_type: AccessType::Offline,
        prompt: PromptList(vec![Prompt::Consent]),
    }
}

fn provider_token(refresh: Option<&str>) -> GoogleOAuthTokenResponse {
    GoogleOAuthTokenResponse {
        access_token: "at-123".to_string(),
        refresh_token: refresh.map(|s| s.to_string()),
        expires_in: Some(3599),
        scopes: Some(vec!["email".to_string(), "profile".to_string()]),
        extra_fields: GoogleOAuthExtraTokenFields { id_token: "idtok-456".to_string() },
    }
}

#[test]
fn session_codec_round_trips() {
    let params = RequestAccessTokenExtraParams {
        include_granted_scopes: IncludeGrantedScopes(false),
        login_hint: Some("per\"son\\x@example.com".to_string()),
        access_type: AccessType::Offline,
        prompt: PromptList(vec![Prompt::NoPrompt, Prompt::SelectAccount]),
    };
    let session = Session::new(
        "verifier-v1",
        "csrf-c1",
        "https://app.example/done?next=%2Fhome".to_string(),
        params,
    );
    let payload = session.encode();
    let decoded = Session::decode(&payload).unwrap();
    assert_eq!(decoded.pkce_verifier, "verifier-v1");
    assert_eq!(decoded.csrf_token, "csrf-c1");
    assert_eq!(decoded.redirect_to, "https://app.example/done?next=%2Fhome");
    assert_eq!(decoded.extra_params.include_granted_scopes, IncludeGrantedScopes(false));
    assert_eq!(
        decoded.extra_params.login_hint.as_deref(),
        Some("per\"son\\x@example.com")
    );
    assert!(matches!(decoded.extra_params.access_type, AccessType::Offline));
    assert_eq!(decoded.extra_params.prompt.0, vec![Prompt::NoPrompt, Prompt::SelectAccount]);
}

#[test]
fn session_decode_rejects_malformed_payloads() {
    let err = match Session::decode("not json at all") {
        Err(e) => e,
        Ok(_) => panic!("a malformed payload should not decode"),
    };
    assert_eq!(err.message(), "Failed to extract auth info: malformed session cookie");
    assert_eq!(err.status_code(), 400);
    assert!(Session::decode("").is_err());
    let session = Session::new(
        "v",
        "c",
        "https://app.example/".to_string(),
        RequestAccessTokenExtraParams::new_default(),
    );
    let mut payload = session.encode();
    payload.push('x');
    assert!(Session::decode(&payload).is_err());
}

#[test]
fn session_cookie_carries_flags_and_max_age() {
    let session = Session::new(
        "v",
        "c",
        "https://app.example/".to_string(),
        RequestAccessTokenExtraParams::new_default(),
    );
    let cookie = session.into_cookie("FIREAUTH2_SESSION", 180);
    assert!(cookie.starts_with("FIREAUTH2_SESSION="));
    assert!(cookie.ends_with("; HttpOnly; Secure; SameSite=Lax; Max-Age=180"));
}

#[test]
fn csrf_mismatch_halts_without_exchanging() {
    let config = ExchangeAuthorizationCodeConfigBuilder::new()
        .code("authcode".to_string())
        .pkce_verifier("verifier".to_string())
        .params(RequestAccessTokenExtraParams::new_default())
        .redirect_to("https://app.example/done".to_string())
        .csrf_token("expected-token".to_string())
        .state("tampered-token".to_string())
        .build()
        .unwrap();
    let flow = ExchangeFlow::start(config);
    assert!(flow.accepts(&ExchangeEvent::Begin));
    let (flow, action) = flow.step(ExchangeEvent::Begin);
    assert!(matches!(action, ExchangeAction::Redirect));
    let response = match &flow {
        ExchangeFlow::Finished { response } => response,
        _ => panic!("flow not finished"),
    };
    let location = response.location(0);
    assert_eq!(
        location,
        format!(
            "https://app.example/done#error={}",
            urlencoding::encode("CSRF token mismatch")
        )
    );
    // The finished machine accepts nothing more: no exchange can follow.
    assert!(!flow.accepts(&ExchangeEvent::Begin));
    assert!(!flow.accepts(&ExchangeEvent::TokenResponse(Err("x".to_string()))));
}

#[test]
fn exchange_without_refresh_token_leaves_store_unchanged() {
    let mut repo = GoogleUserRepository::new("googleUsers");
    let config = ExchangeAuthorizationCodeConfigBuilder::new()
        .code("authcode".to_string())
        .pkce_verifier("verifier".to_string())
        .params(RequestAccessTokenExtraParams::new_default())
        .redirect_to("https://app.example/done".to_string())
        .csrf_token("tok".to_string())
        .state("tok".to_string())
        .build()
        .unwrap();
    let flow = ExchangeFlow::start(config);
    let (flow, action) = flow.step(ExchangeEvent::Begin);
    assert!(matches!(action, ExchangeAction::ExchangeCode { .. }));
    let (flow, action) = flow.step(ExchangeEvent::TokenResponse(Ok(provider_token(None))));
    assert!(matches!(action, ExchangeAction::VerifyIdToken { .. }));
    let claims = IdTokenClaims { sub: "user-1".to_string(), email: None };
    let (flow, action) = flow.step(ExchangeEvent::IdentityVerified(Ok(claims)));
    // No refresh token: the machine finishes without asking to persist.
    assert!(matches!(action, ExchangeAction::Redirect));
    assert!(matches!(flow, ExchangeFlow::Finished { response: AuthorizationResponse::Success { .. } }));
    assert!(repo.get("user-1").is_none());
    // Even a previously stored record stays as it was.
    repo.update(&fireauth2::store::GoogleUser {
        id: "user-1".to_string(),
        email: None,
        refresh_token: Some("old-rt".to_string()),
        scope: vec![],
    });
    assert_eq!(repo.get("user-1").unwrap().refresh_token.as_deref(), Some("old-rt"));
}

#[test]
fn exchange_error_becomes_error_redirect() {
    let config = ExchangeAuthorizationCodeConfigBuilder::new()
        .code("authcode".to_string())
        .pkce_verifier("verifier".to_string())
        .params(RequestAccessTokenExtraParams::new_default())
        .redirect_to("https://app.example/done".to_string())
        .csrf_token("tok".to_string())
        .state("tok".to_string())
        .build()
        .unwrap();
    let flow = ExchangeFlow::start(config);
    let (flow, _) = flow.step(ExchangeEvent::Begin);
    let (flow, action) = flow.step(ExchangeEvent::TokenResponse(Err("server_error".to_string())));
    assert!(matches!(action, ExchangeAction::Redirect));
    match flow {
        ExchangeFlow::Finished { response: AuthorizationResponse::Error { error, .. } } => {
            assert_eq!(error, "Failed to exchange token: server_error");
        },
        _ => panic!("unexpected flow state"),
    }
}

#[test]
fn pre_overwrite_revocation_runs_only_with_a_stored_token() {
    let config = ExchangeAuthorizationCodeConfigBuilder::new()
        .code("authcode".to_string())
        .pkce_verifier("verifier".to_string())
        .params(offline_consent_params())
        .redirect_to("https://app.example/done".to_string())
        .csrf_token("tok".to_string())
        .state("tok".to_string())
        .revoke_existing_tokens(true)
        .build()
        .unwrap();
    let flow = ExchangeFlow::start(config);
    let (flow, _) = flow.step(ExchangeEvent::Begin);
    let (flow, _) = flow.step(ExchangeEvent::TokenResponse(Ok(provider_token(Some("rt-new")))));
    let claims = IdTokenClaims { sub: "user-9".to_string(), email: None };
    let (flow, action) = flow.step(ExchangeEvent::IdentityVerified(Ok(claims)));
    let user_id = match action {
        ExchangeAction::FetchStoredUser { user_id } => user_id,
        _ => panic!("expected a store lookup"),
    };
    assert_eq!(user_id, "user-9");
    let stored = fireauth2::store::GoogleUser {
        id: "user-9".to_string(),
        email: None,
        refresh_token: Some("rt-old".to_string()),
        scope: vec![],
    };
    let (flow, action) = flow.step(ExchangeEvent::StoredUserFetched(Ok(Some(stored))));
    match action {
        ExchangeAction::RevokeRefreshToken { refresh_token } => {
            assert_eq!(refresh_token, "rt-old");
        },
        _ => panic!("expected a revocation"),
    }
    let (_, action) = flow.step(ExchangeEvent::RevocationFinished);
    assert!(matches!(action, ExchangeAction::PersistUser { .. }));
}

#[test]
fn lookup_failure_skips_revocation_but_not_persistence() {
    let config = ExchangeAuthorizationCodeConfigBuilder::new()
        .code("authcode".to_string())
        .pkce_verifier("verifier".to_string())
        .params(offline_consent_params())
        .redirect_to("https://app.example/done".to_string())
        .csrf_token("tok".to_string())
        .state("tok".to_string())
        .revoke_existing_tokens(true)
        .build()
        .unwrap();
    let flow = ExchangeFlow::start(config);
    let (flow, _) = flow.step(ExchangeEvent::Begin);
    let (flow, _) = flow.step(ExchangeEvent::TokenResponse(Ok(provider_token(Some("rt-new")))));
    let claims = IdTokenClaims { sub: "user-9".to_string(), email: None };
    let (flow, _) = flow.step(ExchangeEvent::IdentityVerified(Ok(claims)));
    let (_, action) = flow.step(ExchangeEvent::StoredUserFetched(Err("store down".to_string())));
    assert!(matches!(action, ExchangeAction::PersistUser { .. }));
}

#[test]
fn end_to_end_offline_consent_flow() {
    // Authorize: the Location URL carries the serialized parameters and a
    // cookie binds the flow to the callback.
    let client = test_client();
    let scopes = ScopeList::parse_str("email profile").unwrap();
    let config = RequestAccessTokenConfig::new(scopes.0.clone(), offline_consent_params());
    let response =
        request_access_token(&client, "https://svc.example/callback", &config).unwrap();
    let url = response.url();
    assert!(url.starts_with("https://accounts.google.com/o/oauth2/v2/auth?"));
    assert!(url.contains("access_type=offline"));
    assert!(url.contains("prompt=consent"));
    assert!(url.contains("response_type=code"));
    assert!(url.contains("code_challenge_method=S256"));
    assert!(url.contains("scope=email+profile"));
    assert!(!response.pkce_verifier().is_empty());
    assert!(!response.csrf_token().is_empty());

    let session = Session::new(
        response.pkce_verifier(),
        response.csrf_token(),
        "https://app.example/done".to_string(),
        offline_consent_params(),
    );
    let cookie = session.into_cookie("FIREAUTH2_SESSION", 300);
    assert!(cookie.contains("; HttpOnly; Secure; SameSite=Lax; Max-Age=300"));
    let payload = cookie
        .strip_prefix("FIREAUTH2_SESSION=")
        .unwrap()
        .strip_suffix("; HttpOnly; Secure; SameSite=Lax; Max-Age=300")
        .unwrap();

    // Callback: the cookie decodes, the state matches, and a provider
    // response carrying a refresh token is persisted before the redirect.
    let session = Session::decode(payload).unwrap();
    let exchange_config = ExchangeAuthorizationCodeConfigBuilder::new()
        .csrf_token(session.csrf_token)
        .state(response.csrf_token().to_string())
        .code("provider-code".to_string())
        .pkce_verifier(session.pkce_verifier)
        .params(session.extra_params)
        .redirect_to(session.redirect_to)
        .revoke_existing_tokens(false)
        .build()
        .unwrap();
    let mut repo = GoogleUserRepository::new("googleUsers");
    let flow = ExchangeFlow::start(exchange_config);
    let (flow, action) = flow.step(ExchangeEvent::Begin);
    match &action {
        ExchangeAction::ExchangeCode { code, pkce_verifier, .. } => {
            assert_eq!(code.as_str(), "provider-code");
            assert_eq!(pkce_verifier.as_str(), response.pkce_verifier());
        },
        _ => panic!("expected an exchange"),
    }
    let (flow, action) = flow.step(ExchangeEvent::TokenResponse(Ok(provider_token(Some("rt-1")))));
    match &action {
        ExchangeAction::VerifyIdToken { id_token } => assert_eq!(id_token.as_str(), "idtok-456"),
        _ => panic!("expected verification"),
    }
    let claims = IdTokenClaims {
        sub: "subject-7".to_string(),
        email: Some("someone@example.com".to_string()),
    };
    let (flow, action) = flow.step(ExchangeEvent::IdentityVerified(Ok(claims)));
    match action {
        ExchangeAction::PersistUser { user } => {
            assert_eq!(user.id, "subject-7");
            assert_eq!(user.refresh_token.as_deref(), Some("rt-1"));
            repo.update(&user);
        },
        _ => panic!("expected persistence"),
    }
    let (flow, action) = flow.step(ExchangeEvent::PersistenceFinished(Ok(())));
    assert!(matches!(action, ExchangeAction::Redirect));
    let response = match flow {
        ExchangeFlow::Finished { response } => response,
        _ => panic!("flow not finished"),
    };
    let location = response.location(1759485825);
    assert_eq!(
        location,
        "https://app.example/done#access_token=at-123&id_token=idtok-456&expires_in=3599&issued_at=1759485825"
    );

    // The record was upserted under the verified subject id.
    let stored = repo.get("subject-7").unwrap();
    assert_eq!(stored.refresh_token.as_deref(), Some("rt-1"));
    assert_eq!(stored.email.as_deref(), Some("someone@example.com"));
    assert_eq!(stored.scope, vec!["email".to_string(), "profile".to_string()]);
}

#[test]
fn refresh_token_overwrites_stored_record() {
    let mut repo = GoogleUserRepository::new("googleUsers");
    repo.update(&fireauth2::store::GoogleUser {
        id: "subject-7".to_string(),
        email: None,
        refresh_token: Some("rt-old".to_string()),
        scope: vec![],
    });
    let config = ExchangeAuthorizationCodeConfigBuilder::new()
        .code("authcode".to_string())
        .pkce_verifier("verifier".to_string())
        .params(offline_consent_params())
        .redirect_to("https://app.example/done".to_string())
        .csrf_token("tok".to_string())
        .state("tok".to_string())
        .build()
        .unwrap();
    let flow = ExchangeFlow::start(config);
    let (flow, _) = flow.step(ExchangeEvent::Begin);
    let (flow, _) = flow.step(ExchangeEvent::TokenResponse(Ok(provider_token(Some("rt-new")))));
    let claims = IdTokenClaims { sub: "subject-7".to_string(), email: None };
    let (_, action) = flow.step(ExchangeEvent::IdentityVerified(Ok(claims)));
    match action {
        ExchangeAction::PersistUser { user } => repo.update(&user),
        _ => panic!("expected persistence"),
    }
    assert_eq!(repo.get("subject-7").unwrap().refresh_token.as_deref(), Some("rt-new"));
}

#[test]
fn authorization_url_challenge_is_derived_not_copied() {
    // The code challenge placed in the URL is the SHA-256 challenge of the
    // verifier, never the verifier itself.
    let client = test_client();
    let scopes = ScopeList::parse_str("email").unwrap();
    let config = RequestAccessTokenConfig::new(scopes.0.clone(), offline_consent_params());
    let response =
        request_access_token(&client, "https://svc.example/callback", &config).unwrap();
    let url = response.url();
    let challenge_start = url.find("code_challenge=").unwrap() + "code_challenge=".len();
    let challenge = &url[challenge_start..];
    let challenge = &challenge[..challenge.find('&').unwrap_or(challenge.len())];
    assert!(!challenge.is_empty());
    assert_ne!(challenge, response.pkce_verifier());
}

#[test]
fn fresh_material_differs_between_requests() {
    let client = test_client();
    let scopes = ScopeList::parse_str("email").unwrap();
    let config = RequestAccessTokenConfig::new(scopes.0.clone(), offline_consent_params());
    let first = request_access_token(&client, "https://svc.example/callback", &config).unwrap();
    let second = request_access_token(&client, "https://svc.example/callback", &config).unwrap();
    assert_ne!(first.pkce_verifier(), second.pkce_verifier());
    assert_ne!(first.csrf_token(), second.csrf_token());
}

#[test]
fn location_now_stamps_a_recent_timestamp() {
    let response = AuthorizationResponse::new_error(
        "https://app.example/done".to_string(),
        "late".to_string(),
    );
    // An error fragment carries no timestamp; a success does.
    assert_eq!(response.location_now(), "https://app.example/done#error=late");
    let response = AuthorizationResponse::new_success(
        "https://app.example/done".to_string(),
        provider_token(None),
    );
    let location = response.location_now();
    let stamp_start = location.find("&issued_at=").unwrap() + "&issued_at=".len();
    let stamp: i64 = location[stamp_start..].parse().unwrap();
    // The clock reads a time after 2020, not a placeholder.
    assert!(stamp > 1_577_836_800);
}

#[test]
fn missing_expiry_renders_as_zero() {
    let mut token = provider_token(None);
    token.expires_in = None;
    let response = AuthorizationResponse::new_success(
        "https://app.example/done".to_string(),
        token,
    );
    let location = response.location(5);
    assert_eq!(
        location,
        "https://app.example/done#access_token=at-123&id_token=idtok-456&expires_in=0&issued_at=5"
    );
}

#[test]
fn redirect_target_resolution_prefers_the_explicit_parameter() {
    let explicit = Some("https%3A%2F%2Fapp.example%2Fdashboard".to_string());
    let referer = Some("https://referer.example/".to_string());
    let target = resolve_redirect_target(&explicit, &referer).unwrap();
    assert_eq!(target, "https://app.example/dashboard");

    let target = resolve_redirect_target(&None, &referer).unwrap();
    assert_eq!(target, "https://referer.example/");

    // Parsing normalizes: a bare origin gains its root path.
    let bare = Some("https://referer.example".to_string());
    assert_eq!(resolve_redirect_target(&bare, &None).unwrap(), "https://referer.example/");

    let err = resolve_redirect_target(&None, &None).unwrap_err();
    assert_eq!(
        err.message(),
        "Request is missing a valid redirect_to query param or Referer header"
    );

    let bad = Some("not a url".to_string());
    assert!(resolve_redirect_target(&bad, &None).is_err());

    // A target whose percent-decoding is not UTF-8 is rejected as an
    // invalid redirect, not a parse failure.
    let undecodable = Some("https%3A%2F%2Fapp.example%2F%FF".to_string());
    let err = resolve_redirect_target(&undecodable, &None).unwrap_err();
    assert_eq!(err.status_code(), 400);
}
