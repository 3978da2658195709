//! The callback-side exchange engine: a state machine that validates the
//! CSRF token, asks for the code exchange, verifies the returned identity
//! token, decides whether stored tokens are revoked and whether the user
//! record is persisted, and produces the terminal redirect.
//!
//! The machine itself performs no I/O: each transition consumes an event
//! (the outcome of the previous outside call) and yields the next action.
//! The surrounding application performs the action and feeds the outcome
//! back in.

use crate::error::Error;
use crate::params::{ExtraParamsView, RequestAccessTokenExtraParams};
use crate::store::{GoogleUser, GoogleUserView};
use crate::text::{i64_to_string, spec_dec_str, spec_dec_str_signed, u64_to_string};
use vstd::prelude::*;
use vstd::string::StringExecFns;

verus! {

/// The extra fields of the provider's token response; the identity token
/// is expected so the subject can be verified and extracted.
pub struct GoogleOAuthExtraTokenFields {
    /// The OpenID Connect identity token returned by the provider.
    pub id_token: String,
}

impl GoogleOAuthExtraTokenFields {
    /// The identity token string.
    pub fn id_token(&self) -> (r: &str)
        ensures
            r@ == self.id_token@,
    {
        self.id_token.as_str()
    }
}

/// The abstract value of a provider token response.
pub struct TokenResponseView {
    /// The access token.
    pub access_token: Seq<char>,
    /// The refresh token, when the provider issued one.
    pub refresh_token: Option<Seq<char>>,
    /// The declared lifetime of the access token, in seconds.
    pub expires_in: Option<u64>,
    /// The scopes the provider reports as granted.
    pub scopes: Option<Seq<Seq<char>>>,
    /// The identity token.
    pub id_token: Seq<char>,
}

/// The provider's token response, reduced to the values the engine reads:
/// tokens, expiry, and granted scopes.
pub struct GoogleOAuthTokenResponse {
    /// The access token.
    pub access_token: String,
    /// The refresh token, when the provider issued one.
    pub refresh_token: Option<String>,
    /// The declared lifetime of the access token, in seconds.
    pub expires_in: Option<u64>,
    /// The scopes the provider reports as granted.
    pub scopes: Option<Vec<String>>,
    /// The extra fields carrying the identity token.
    pub extra_fields: GoogleOAuthExtraTokenFields,
}

impl View for GoogleOAuthTokenResponse {
    type V = TokenResponseView;

    open spec fn view(&self) -> TokenResponseView {
        TokenResponseView {
            access_token: self.access_token@,
            refresh_token: match self.refresh_token {
                Some(t) => Some(t@),
                None => None,
            },
            expires_in: self.expires_in,
            scopes: match self.scopes {
                Some(s) => Some(s@.map_values(|x: String| x@)),
                None => None,
            },
            id_token: self.extra_fields.id_token@,
        }
    }
}

impl GoogleOAuthTokenResponse {
    /// The access token.
    pub fn access_token(&self) -> (r: &str)
        ensures
            r@ == self@.access_token,
    {
        self.access_token.as_str()
    }

    /// The refresh token, when present.
    pub fn refresh_token(&self) -> (r: &Option<String>)
        ensures
            r is Some <==> self@.refresh_token is Some,
            r matches Some(t) ==> self@.refresh_token == Some(t@),
    {
        &self.refresh_token
    }

    /// The extra fields carrying the identity token.
    pub fn extra_fields(&self) -> (r: &GoogleOAuthExtraTokenFields)
        ensures
            r.id_token@ == self@.id_token,
    {
        &self.extra_fields
    }
}

/// The abstract value of verified identity-token claims.
pub struct IdTokenClaimsView {
    /// The provider-stable subject id.
    pub sub: Seq<char>,
    /// The asserted email address, when present.
    pub email: Option<Seq<char>>,
}

/// The claims extracted from a verified identity token: the subject id the
/// store is keyed by, and the optional email.
#[derive(Debug)]
pub struct IdTokenClaims {
    /// The provider-stable subject id.
    pub sub: String,
    /// The asserted email address, when present.
    pub email: Option<String>,
}

impl View for IdTokenClaims {
    type V = IdTokenClaimsView;

    open spec fn view(&self) -> IdTokenClaimsView {
        IdTokenClaimsView {
            sub: self.sub@,
            email: match self.email {
                Some(e) => Some(e@),
                None => None,
            },
        }
    }
}

/// The `code` and `state` query parameters the provider sends back to the
/// callback endpoint.
#[derive(Clone)]
pub struct ExchangeAuthorizationCodeQueryParams {
    /// The authorization code to exchange for tokens.
    pub code: String,
    /// The `state` parameter, compared against the session's CSRF token.
    pub state: String,
}

/// The abstract value of an exchange configuration.
pub struct ExchangeConfigView {
    /// The authorization code.
    pub code: Seq<char>,
    /// The PKCE verifier remembered in the session.
    pub pkce_verifier: Seq<char>,
    /// The extra parameters replayed from the session.
    pub params: ExtraParamsView,
    /// Whether a stored refresh token is revoked before being overwritten.
    pub revoke_existing_tokens: bool,
    /// Where the browser is finally sent.
    pub redirect_to: Seq<char>,
    /// The CSRF token remembered in the session.
    pub csrf_token: Seq<char>,
    /// The `state` value observed on the callback.
    pub state: Seq<char>,
}

/// Everything the exchange needs, assembled before any I/O happens:
/// the code, the replayed session values, and the observed `state`.
pub struct ExchangeAuthorizationCodeConfig {
    /// The authorization code.
    pub code: String,
    /// The PKCE verifier remembered in the session.
    pub pkce_verifier: String,
    /// The extra parameters replayed from the session.
    pub params: RequestAccessTokenExtraParams,
    /// Whether a stored refresh token is revoked before being overwritten.
    pub revoke_existing_tokens: bool,
    /// Where the browser is finally sent.
    pub redirect_to: String,
    /// The CSRF token remembered in the session.
    pub csrf_token: String,
    /// The `state` value observed on the callback.
    pub state: String,
}

impl View for ExchangeAuthorizationCodeConfig {
    type V = ExchangeConfigView;

    open spec fn view(&self) -> ExchangeConfigView {
        ExchangeConfigView {
            code: self.code@,
            pkce_verifier: self.pkce_verifier@,
            params: self.params@,
            revoke_existing_tokens: self.revoke_existing_tokens,
            redirect_to: self.redirect_to@,
            csrf_token: self.csrf_token@,
            state: self.state@,
        }
    }
}

/// Builder for [`ExchangeAuthorizationCodeConfig`]; every field except the
/// revocation flag is required, and each absence is its own error.
pub struct ExchangeAuthorizationCodeConfigBuilder {
    code: Option<String>,
    pkce_verifier: Option<String>,
    params: Option<RequestAccessTokenExtraParams>,
    redirect_to: Option<String>,
    csrf_token: Option<String>,
    state: Option<String>,
    revoke_existing_tokens: bool,
}

impl ExchangeAuthorizationCodeConfigBuilder {
    /// An empty builder.
    pub fn new() -> (r: Self)
        ensures
            r.spec_fields() == (
                None::<Seq<char>>,
                None::<Seq<char>>,
                None::<ExtraParamsView>,
                None::<Seq<char>>,
                None::<Seq<char>>,
                None::<Seq<char>>,
                false,
            ),
    {
        ExchangeAuthorizationCodeConfigBuilder {
            code: None,
            pkce_verifier: None,
            params: None,
            redirect_to: None,
            csrf_token: None,
            state: None,
            revoke_existing_tokens: false,
        }
    }

    /// The builder's fields, abstractly: code, PKCE verifier, parameters,
    /// redirect target, CSRF token, observed state, revocation flag.
    pub closed spec fn spec_fields(&self) -> (
        Option<Seq<char>>,
        Option<Seq<char>>,
        Option<ExtraParamsView>,
        Option<Seq<char>>,
        Option<Seq<char>>,
        Option<Seq<char>>,
        bool,
    ) {
        (
            match self.code {
                Some(c) => Some(c@),
                None => None,
            },
            match self.pkce_verifier {
                Some(c) => Some(c@),
                None => None,
            },
            match self.params {
                Some(p) => Some(p@),
                None => None,
            },
            match self.redirect_to {
                Some(c) => Some(c@),
                None => None,
            },
            match self.csrf_token {
                Some(c) => Some(c@),
                None => None,
            },
            match self.state {
                Some(c) => Some(c@),
                None => None,
            },
            self.revoke_existing_tokens,
        )
    }

    /// Sets the authorization code.
    pub fn code(self, code: String) -> (r: Self)
        ensures
            r.spec_fields() == (
                Some(code@),
                self.spec_fields().1,
                self.spec_fields().2,
                self.spec_fields().3,
                self.spec_fields().4,
                self.spec_fields().5,
                self.spec_fields().6,
            ),
    {
        Self { code: Some(code), ..self }
    }

    /// Sets the PKCE verifier remembered in the session.
    pub fn pkce_verifier(self, verifier: String) -> (r: Self)
        ensures
            r.spec_fields() == (
                self.spec_fields().0,
                Some(verifier@),
                self.spec_fields().2,
                self.spec_fields().3,
                self.spec_fields().4,
                self.spec_fields().5,
                self.spec_fields().6,
            ),
    {
        Self { pkce_verifier: Some(verifier), ..self }
    }

    /// Sets the extra parameters replayed from the session.
    pub fn params(self, params: RequestAccessTokenExtraParams) -> (r: Self)
        ensures
            r.spec_fields() == (
                self.spec_fields().0,
                self.spec_fields().1,
                Some(params@),
                self.spec_fields().3,
                self.spec_fields().4,
                self.spec_fields().5,
                self.spec_fields().6,
            ),
    {
        Self { params: Some(params), ..self }
    }

    /// Sets whether stored tokens are revoked before being overwritten.
    pub fn revoke_existing_tokens(self, yes: bool) -> (r: Self)
        ensures
            r.spec_fields() == (
                self.spec_fields().0,
                self.spec_fields().1,
                self.spec_fields().2,
                self.spec_fields().3,
                self.spec_fields().4,
                self.spec_fields().5,
                yes,
            ),
    {
        Self { revoke_existing_tokens: yes, ..self }
    }

    /// Sets the final redirect target.
    pub fn redirect_to(self, url: String) -> (r: Self)
        ensures
            r.spec_fields() == (
                self.spec_fields().0,
                self.spec_fields().1,
                self.spec_fields().2,
                Some(url@),
                self.spec_fields().4,
                self.spec_fields().5,
                self.spec_fields().6,
            ),
    {
        Self { redirect_to: Some(url), ..self }
    }

    /// Sets the CSRF token remembered in the session.
    pub fn csrf_token(self, csrf_token: String) -> (r: Self)
        ensures
            r.spec_fields() == (
                self.spec_fields().0,
                self.spec_fields().1,
                self.spec_fields().2,
                self.spec_fields().3,
                Some(csrf_token@),
                self.spec_fields().5,
                self.spec_fields().6,
            ),
    {
        Self { csrf_token: Some(csrf_token), ..self }
    }

    /// Sets the `state` value observed on the callback.
    pub fn state(self, state: String) -> (r: Self)
        ensures
            r.spec_fields() == (
                self.spec_fields().0,
                self.spec_fields().1,
                self.spec_fields().2,
                self.spec_fields().3,
                self.spec_fields().4,
                Some(state@),
                self.spec_fields().6,
            ),
    {
        Self { state: Some(state), ..self }
    }

    /// Finalizes the configuration. The first absent required field, in
    /// the order code, PKCE verifier, parameters, redirect target, CSRF
    /// token, state, is reported as a missing-field error.
    pub fn build(self) -> (r: Result<ExchangeAuthorizationCodeConfig, Error>)
        ensures
            ({
                let (code, pkce, params, redirect, csrf, state, revoke) = self.spec_fields();
                match r {
                    Ok(c) => {
                        &&& code == Some(c@.code)
                        &&& pkce == Some(c@.pkce_verifier)
                        &&& params == Some(c@.params)
                        &&& redirect == Some(c@.redirect_to)
                        &&& csrf == Some(c@.csrf_token)
                        &&& state == Some(c@.state)
                        &&& revoke == c@.revoke_existing_tokens
                    },
                    Err(e) => {
                        &&& (code is None || pkce is None || params is None || redirect is None
                            || csrf is None || state is None)
                        &&& e matches Error::MissingConfigField(name)
                        &&& if code is None {
                            name@ == "code"@
                        } else if pkce is None {
                            name@ == "pkce_verifier"@
                        } else if params is None {
                            name@ == "params"@
                        } else if redirect is None {
                            name@ == "redirect_to"@
                        } else if csrf is None {
                            name@ == "csrf_token"@
                        } else {
                            name@ == "state"@
                        }
                    },
                }
            }),
    {
        let code = match self.code {
            Some(c) => c,
            None => {
                return Err(Error::MissingConfigField("code"));
            },
        };
        let pkce_verifier = match self.pkce_verifier {
            Some(c) => c,
            None => {
                return Err(Error::MissingConfigField("pkce_verifier"));
            },
        };
        let params = match self.params {
            Some(c) => c,
            None => {
                return Err(Error::MissingConfigField("params"));
            },
        };
        let redirect_to = match self.redirect_to {
            Some(c) => c,
            None => {
                return Err(Error::MissingConfigField("redirect_to"));
            },
        };
        let csrf_token = match self.csrf_token {
            Some(c) => c,
            None => {
                return Err(Error::MissingConfigField("csrf_token"));
            },
        };
        let state = match self.state {
            Some(c) => c,
            None => {
                return Err(Error::MissingConfigField("state"));
            },
        };
        Ok(
            ExchangeAuthorizationCodeConfig {
                code,
                pkce_verifier,
                params,
                revoke_existing_tokens: self.revoke_existing_tokens,
                redirect_to,
                csrf_token,
                state,
            },
        )
    }
}

/// The abstract value of a terminal redirect.
pub enum AuthorizationResponseView {
    /// A failure, rendered into the redirect fragment as an error message.
    Error {
        /// Where the browser is sent.
        url: Seq<char>,
        /// The message placed in the fragment.
        error: Seq<char>,
    },
    /// A success, rendered into the redirect fragment as the tokens.
    Success {
        /// Where the browser is sent.
        url: Seq<char>,
        /// The token response delivered to the user.
        token: TokenResponseView,
    },
}

/// The terminal result of the callback flow: a redirect back to the
/// application carrying either the tokens or an error message, always in
/// the URL fragment, which a later request never sends back to a server.
pub enum AuthorizationResponse {
    /// A failure, rendered into the redirect fragment as an error message.
    Error {
        /// Where the browser is sent.
        url: String,
        /// The message placed in the fragment.
        error: String,
    },
    /// A success, rendered into the redirect fragment as the tokens.
    Success {
        /// Where the browser is sent.
        url: String,
        /// The token response delivered to the user.
        token: GoogleOAuthTokenResponse,
    },
}

impl View for AuthorizationResponse {
    type V = AuthorizationResponseView;

    open spec fn view(&self) -> AuthorizationResponseView {
        match self {
            AuthorizationResponse::Error { url, error } => AuthorizationResponseView::Error {
                url: url@,
                error: error@,
            },
            AuthorizationResponse::Success { url, token } => AuthorizationResponseView::Success {
                url: url@,
                token: token@,
            },
        }
    }
}

/// What `urlencoding::encode` returns: the percent-encoding of a string,
/// a function of its characters alone.
pub uninterp spec fn url_encoded(s: Seq<char>) -> Seq<char>;

/// Relies on `urlencoding::encode`: percent-encodes every byte except
/// ASCII alphanumerics and `-`, `_`, `.`, `~`; an empty input stays empty.
#[verifier::external_body]
fn url_encode(s: &str) -> (r: String)
    ensures
        r@ == url_encoded(s@),
        s@.len() == 0 ==> r@.len() == 0,
{
    urlencoding::encode(s).into_owned()
}

/// Relies on `chrono::Utc::now`: the current Unix timestamp, whatever the
/// clock reads.
#[verifier::external_body]
pub(crate) fn now_timestamp() -> i64 {
    chrono::Utc::now().timestamp()
}

/// The `Location` header value a response renders to: the redirect URL
/// with the outcome in the fragment. An error carries the percent-encoded
/// message; a success carries the access token, identity token, expiry
/// (zero when the provider omitted it), and the given issue timestamp.
pub open spec fn spec_location(v: AuthorizationResponseView, issued_at: int) -> Seq<char> {
    match v {
        AuthorizationResponseView::Error { url, error } => url + "#error="@ + url_encoded(error),
        AuthorizationResponseView::Success { url, token } => url + "#access_token="@
            + token.access_token + "&id_token="@ + token.id_token + "&expires_in="@ + spec_dec_str(
            match token.expires_in {
                Some(e) => e as int,
                None => 0,
            },
        ) + "&issued_at="@ + spec_dec_str_signed(issued_at),
    }
}

impl AuthorizationResponse {
    /// An error redirect.
    pub fn new_error(url: String, error: String) -> (r: AuthorizationResponse)
        ensures
            r@ == (AuthorizationResponseView::Error { url: url@, error: error@ }),
    {
        AuthorizationResponse::Error { url, error }
    }

    /// A success redirect.
    pub fn new_success(url: String, token: GoogleOAuthTokenResponse) -> (r: AuthorizationResponse)
        ensures
            r@ == (AuthorizationResponseView::Success { url: url@, token: token@ }),
    {
        AuthorizationResponse::Success { url, token }
    }

    /// Renders the redirect target with the outcome in the URL fragment,
    /// stamping the given issue time.
    pub fn location(&self, issued_at: i64) -> (r: String)
        ensures
            r@ == spec_location(self@, issued_at as int),
    {
        match self {
            AuthorizationResponse::Error { url, error } => {
                let mut out = url.clone();
                out.append("#error=");
                let encoded = url_encode(error.as_str());
                out.append(encoded.as_str());
                out
            },
            AuthorizationResponse::Success { url, token } => {
                let mut out = url.clone();
                out.append("#access_token=");
                out.append(token.access_token.as_str());
                out.append("&id_token=");
                out.append(token.extra_fields.id_token.as_str());
                out.append("&expires_in=");
                let expires: u64 = match token.expires_in {
                    Some(e) => e,
                    None => 0,
                };
                let expires_str = u64_to_string(expires);
                out.append(expires_str.as_str());
                out.append("&issued_at=");
                let issued_str = i64_to_string(issued_at);
                out.append(issued_str.as_str());
                out
            },
        }
    }

    /// Renders the redirect target with the outcome in the URL fragment,
    /// stamped with the clock's current time.
    pub fn location_now(&self) -> (r: String)
        ensures
            exists|t: int| r@ == spec_location(self@, t),
    {
        let now = now_timestamp();
        let r = self.location(now);
        proof {
            assert(r@ == spec_location(self@, now as int));
        }
        r
    }
}

/// The record persisted after a successful exchange that carried a refresh
/// token: keyed by the verified subject, holding the new refresh token,
/// the asserted email, and the granted scopes.
pub open spec fn spec_user_from(token: TokenResponseView, claims: IdTokenClaimsView) -> GoogleUserView {
    GoogleUserView {
        id: claims.sub,
        email: claims.email,
        refresh_token: token.refresh_token,
        scope: match token.scopes {
            Some(s) => s,
            None => Seq::empty(),
        },
    }
}

fn user_from(token: &GoogleOAuthTokenResponse, claims: &IdTokenClaims) -> (r: GoogleUser)
    ensures
        r@ == spec_user_from(token@, claims@),
{
    let email = match &claims.email {
        Some(e) => Some(e.clone()),
        None => None,
    };
    let refresh_token = match &token.refresh_token {
        Some(t) => Some(t.clone()),
        None => None,
    };
    let scope: Vec<String> = match &token.scopes {
        Some(s) => crate::text::clone_strings(s),
        None => Vec::new(),
    };
    let r = GoogleUser { id: claims.sub.clone(), email, refresh_token, scope };
    assert(r@.scope =~= spec_user_from(token@, claims@).scope);
    r
}

/// The abstract state of the exchange machine.
pub enum ExchangeFlowView {
    /// Nothing has happened yet.
    Started {
        /// The assembled configuration.
        config: ExchangeConfigView,
    },
    /// The code exchange has been requested.
    AwaitingTokenResponse {
        /// Where the browser is finally sent.
        redirect_to: Seq<char>,
        /// Whether a stored refresh token is revoked before overwrite.
        revoke_existing_tokens: bool,
    },
    /// Identity verification has been requested.
    AwaitingIdentity {
        /// Where the browser is finally sent.
        redirect_to: Seq<char>,
        /// Whether a stored refresh token is revoked before overwrite.
        revoke_existing_tokens: bool,
        /// The token response under verification.
        token: TokenResponseView,
    },
    /// The stored record is being fetched for pre-overwrite revocation.
    AwaitingStoredUser {
        /// Where the browser is finally sent.
        redirect_to: Seq<char>,
        /// The verified token response.
        token: TokenResponseView,
        /// The verified identity claims.
        claims: IdTokenClaimsView,
    },
    /// The previously stored refresh token is being revoked, best-effort.
    AwaitingRevocation {
        /// Where the browser is finally sent.
        redirect_to: Seq<char>,
        /// The verified token response.
        token: TokenResponseView,
        /// The verified identity claims.
        claims: IdTokenClaimsView,
    },
    /// The user record is being persisted, best-effort.
    AwaitingPersistence {
        /// Where the browser is finally sent.
        redirect_to: Seq<char>,
        /// The verified token response.
        token: TokenResponseView,
    },
    /// The flow is over; only the redirect remains.
    Finished {
        /// The terminal redirect.
        response: AuthorizationResponseView,
    },
}

/// The state of the exchange machine, carrying exactly the values the
/// remaining steps need.
pub enum ExchangeFlow {
    /// Nothing has happened yet.
    Started {
        /// The assembled configuration.
        config: ExchangeAuthorizationCodeConfig,
    },
    /// The code exchange has been requested.
    AwaitingTokenResponse {
        /// Where the browser is finally sent.
        redirect_to: String,
        /// Whether a stored refresh token is revoked before overwrite.
        revoke_existing_tokens: bool,
    },
    /// Identity verification has been requested.
    AwaitingIdentity {
        /// Where the browser is finally sent.
        redirect_to: String,
        /// Whether a stored refresh token is revoked before overwrite.
        revoke_existing_tokens: bool,
        /// The token response under verification.
        token: GoogleOAuthTokenResponse,
    },
    /// The stored record is being fetched for pre-overwrite revocation.
    AwaitingStoredUser {
        /// Where the browser is finally sent.
        redirect_to: String,
        /// The verified token response.
        token: GoogleOAuthTokenResponse,
        /// The verified identity claims.
        claims: IdTokenClaims,
    },
    /// The previously stored refresh token is being revoked, best-effort.
    AwaitingRevocation {
        /// Where the browser is finally sent.
        redirect_to: String,
        /// The verified token response.
        token: GoogleOAuthTokenResponse,
        /// The verified identity claims.
        claims: IdTokenClaims,
    },
    /// The user record is being persisted, best-effort.
    AwaitingPersistence {
        /// Where the browser is finally sent.
        redirect_to: String,
        /// The verified token response.
        token: GoogleOAuthTokenResponse,
    },
    /// The flow is over; only the redirect remains.
    Finished {
        /// The terminal redirect.
        response: AuthorizationResponse,
    },
}

impl View for ExchangeFlow {
    type V = ExchangeFlowView;

    open spec fn view(&self) -> ExchangeFlowView {
        match self {
            ExchangeFlow::Started { config } => ExchangeFlowView::Started { config: config@ },
            ExchangeFlow::AwaitingTokenResponse { redirect_to, revoke_existing_tokens } => ExchangeFlowView::AwaitingTokenResponse {
                redirect_to: redirect_to@,
                revoke_existing_tokens: *revoke_existing_tokens,
            },
            ExchangeFlow::AwaitingIdentity { redirect_to, revoke_existing_tokens, token } => ExchangeFlowView::AwaitingIdentity {
                redirect_to: redirect_to@,
                revoke_existing_tokens: *revoke_existing_tokens,
                token: token@,
            },
            ExchangeFlow::AwaitingStoredUser { redirect_to, token, claims } => ExchangeFlowView::AwaitingStoredUser {
                redirect_to: redirect_to@,
                token: token@,
                claims: claims@,
            },
            ExchangeFlow::AwaitingRevocation { redirect_to, token, claims } => ExchangeFlowView::AwaitingRevocation {
                redirect_to: redirect_to@,
                token: token@,
                claims: claims@,
            },
            ExchangeFlow::AwaitingPersistence { redirect_to, token } => ExchangeFlowView::AwaitingPersistence {
                redirect_to: redirect_to@,
                token: token@,
            },
            ExchangeFlow::Finished { response } => ExchangeFlowView::Finished {
                response: response@,
            },
        }
    }
}

/// The abstract value of an event fed into the machine.
pub enum ExchangeEventView {
    /// Start the flow.
    Begin,
    /// The code exchange returned, or failed with a message.
    TokenResponse(Result<TokenResponseView, Seq<char>>),
    /// Identity verification returned claims, or failed with a message.
    IdentityVerified(Result<IdTokenClaimsView, Seq<char>>),
    /// The store lookup for pre-overwrite revocation returned.
    StoredUserFetched(Result<Option<GoogleUserView>, Seq<char>>),
    /// The best-effort revocation finished, successfully or not.
    RevocationFinished,
    /// The best-effort persistence finished, successfully or not.
    PersistenceFinished(Result<(), Seq<char>>),
}

/// The outcome of the outside call the machine last asked for. Events
/// can carry the stored user record, so they are not formattable.
pub enum ExchangeEvent {
    /// Start the flow.
    Begin,
    /// The code exchange returned, or failed with a message.
    TokenResponse(Result<GoogleOAuthTokenResponse, String>),
    /// Identity verification returned claims, or failed with a message.
    IdentityVerified(Result<IdTokenClaims, String>),
    /// The store lookup for pre-overwrite revocation returned.
    StoredUserFetched(Result<Option<GoogleUser>, String>),
    /// The best-effort revocation finished, successfully or not.
    RevocationFinished,
    /// The best-effort persistence finished, successfully or not.
    PersistenceFinished(Result<(), String>),
}

impl View for ExchangeEvent {
    type V = ExchangeEventView;

    open spec fn view(&self) -> ExchangeEventView {
        match self {
            ExchangeEvent::Begin => ExchangeEventView::Begin,
            ExchangeEvent::TokenResponse(r) => ExchangeEventView::TokenResponse(
                match r {
                    Ok(t) => Ok(t@),
                    Err(m) => Err(m@),
                },
            ),
            ExchangeEvent::IdentityVerified(r) => ExchangeEventView::IdentityVerified(
                match r {
                    Ok(c) => Ok(c@),
                    Err(m) => Err(m@),
                },
            ),
            ExchangeEvent::StoredUserFetched(r) => ExchangeEventView::StoredUserFetched(
                match r {
                    Ok(Some(u)) => Ok(Some(u@)),
                    Ok(None) => Ok(None),
                    Err(m) => Err(m@),
                },
            ),
            ExchangeEvent::RevocationFinished => ExchangeEventView::RevocationFinished,
            ExchangeEvent::PersistenceFinished(r) => ExchangeEventView::PersistenceFinished(
                match r {
                    Ok(_) => Ok(()),
                    Err(m) => Err(m@),
                },
            ),
        }
    }
}

/// The abstract value of an action the machine asks for.
pub enum ExchangeActionView {
    /// Exchange the code with the provider, replaying the parameters.
    ExchangeCode {
        /// The authorization code.
        code: Seq<char>,
        /// The PKCE verifier.
        pkce_verifier: Seq<char>,
        /// The extra parameters to replay.
        params: ExtraParamsView,
    },
    /// Verify the identity token.
    VerifyIdToken {
        /// The identity token to verify.
        id_token: Seq<char>,
    },
    /// Fetch the stored record for the subject, best-effort.
    FetchStoredUser {
        /// The subject id to look up.
        user_id: Seq<char>,
    },
    /// Revoke the previously stored refresh token, best-effort.
    RevokeRefreshToken {
        /// The stored refresh token to revoke.
        refresh_token: Seq<char>,
    },
    /// Upsert the user record, best-effort.
    PersistUser {
        /// The record to store under its subject id.
        user: GoogleUserView,
    },
    /// Send the terminal redirect held in the finished state.
    Redirect,
}

/// The next outside call the application performs for the machine.
/// Actions can carry the user record to persist, so they are not
/// formattable.
pub enum ExchangeAction {
    /// Exchange the code with the provider, replaying the parameters.
    ExchangeCode {
        /// The authorization code.
        code: String,
        /// The PKCE verifier.
        pkce_verifier: String,
        /// The extra parameters to replay.
        params: RequestAccessTokenExtraParams,
    },
    /// Verify the identity token.
    VerifyIdToken {
        /// The identity token to verify.
        id_token: String,
    },
    /// Fetch the stored record for the subject, best-effort.
    FetchStoredUser {
        /// The subject id to look up.
        user_id: String,
    },
    /// Revoke the previously stored refresh token, best-effort.
    RevokeRefreshToken {
        /// The stored refresh token to revoke.
        refresh_token: String,
    },
    /// Upsert the user record, best-effort.
    PersistUser {
        /// The record to store under its subject id.
        user: GoogleUser,
    },
    /// Send the terminal redirect held in the finished state.
    Redirect,
}

impl View for ExchangeAction {
    type V = ExchangeActionView;

    open spec fn view(&self) -> ExchangeActionView {
        match self {
            ExchangeAction::ExchangeCode { code, pkce_verifier, params } => ExchangeActionView::ExchangeCode {
                code: code@,
                pkce_verifier: pkce_verifier@,
                params: params@,
            },
            ExchangeAction::VerifyIdToken { id_token } => ExchangeActionView::VerifyIdToken {
                id_token: id_token@,
            },
            ExchangeAction::FetchStoredUser { user_id } => ExchangeActionView::FetchStoredUser {
                user_id: user_id@,
            },
            ExchangeAction::RevokeRefreshToken { refresh_token } => ExchangeActionView::RevokeRefreshToken {
                refresh_token: refresh_token@,
            },
            ExchangeAction::PersistUser { user } => ExchangeActionView::PersistUser { user: user@ },
            ExchangeAction::Redirect => ExchangeActionView::Redirect,
        }
    }
}

/// The transition relation of the exchange machine. `None` marks an event
/// that the state does not accept.
///
/// The order of the states is the order of the callback: CSRF validation,
/// code exchange, identity verification, optional pre-overwrite revocation
/// of the stored refresh token, conditional persistence, redirect. Every
/// failure after the CSRF check turns into an error redirect carrying the
/// session's redirect target; revocation and persistence failures are
/// swallowed and the user still receives the tokens.
pub open spec fn spec_step(flow: ExchangeFlowView, event: ExchangeEventView) -> Option<
    (ExchangeFlowView, ExchangeActionView),
> {
    match (flow, event) {
        (ExchangeFlowView::Started { config }, ExchangeEventView::Begin) => {
            if config.csrf_token != config.state {
                Some(
                    (
                        ExchangeFlowView::Finished {
                            response: AuthorizationResponseView::Error {
                                url: config.redirect_to,
                                error: "CSRF token mismatch"@,
                            },
                        },
                        ExchangeActionView::Redirect,
                    ),
                )
            } else {
                Some(
                    (
                        ExchangeFlowView::AwaitingTokenResponse {
                            redirect_to: config.redirect_to,
                            revoke_existing_tokens: config.revoke_existing_tokens,
                        },
                        ExchangeActionView::ExchangeCode {
                            code: config.code,
                            pkce_verifier: config.pkce_verifier,
                            params: config.params,
                        },
                    ),
                )
            }
        },
        (
            ExchangeFlowView::AwaitingTokenResponse { redirect_to, revoke_existing_tokens },
            ExchangeEventView::TokenResponse(outcome),
        ) => match outcome {
            Ok(token) => Some(
                (
                    ExchangeFlowView::AwaitingIdentity {
                        redirect_to,
                        revoke_existing_tokens,
                        token,
                    },
                    ExchangeActionView::VerifyIdToken { id_token: token.id_token },
                ),
            ),
            Err(message) => Some(
                (
                    ExchangeFlowView::Finished {
                        response: AuthorizationResponseView::Error {
                            url: redirect_to,
                            error: "Failed to exchange token: "@ + message,
                        },
                    },
                    ExchangeActionView::Redirect,
                ),
            ),
        },
        (
            ExchangeFlowView::AwaitingIdentity { redirect_to, revoke_existing_tokens, token },
            ExchangeEventView::IdentityVerified(outcome),
        ) => match outcome {
            Ok(claims) => {
                if token.refresh_token is Some {
                    if revoke_existing_tokens {
                        Some(
                            (
                                ExchangeFlowView::AwaitingStoredUser { redirect_to, token, claims },
                                ExchangeActionView::FetchStoredUser { user_id: claims.sub },
                            ),
                        )
                    } else {
                        Some(
                            (
                                ExchangeFlowView::AwaitingPersistence { redirect_to, token },
                                ExchangeActionView::PersistUser {
                                    user: spec_user_from(token, claims),
                                },
                            ),
                        )
                    }
                } else {
                    Some(
                        (
                            ExchangeFlowView::Finished {
                                response: AuthorizationResponseView::Success {
                                    url: redirect_to,
                                    token,
                                },
                            },
                            ExchangeActionView::Redirect,
                        ),
                    )
                }
            },
            Err(message) => Some(
                (
                    ExchangeFlowView::Finished {
                        response: AuthorizationResponseView::Error {
                            url: redirect_to,
                            error: message,
                        },
                    },
                    ExchangeActionView::Redirect,
                ),
            ),
        },
        (
            ExchangeFlowView::AwaitingStoredUser { redirect_to, token, claims },
            ExchangeEventView::StoredUserFetched(outcome),
        ) => match outcome {
            Ok(Some(stored)) => match stored.refresh_token {
                Some(stored_token) => Some(
                    (
                        ExchangeFlowView::AwaitingRevocation { redirect_to, token, claims },
                        ExchangeActionView::RevokeRefreshToken { refresh_token: stored_token },
                    ),
                ),
                None => Some(
                    (
                        ExchangeFlowView::AwaitingPersistence { redirect_to, token },
                        ExchangeActionView::PersistUser { user: spec_user_from(token, claims) },
                    ),
                ),
            },
            // A missing record or a failed lookup skips revocation: the
            // lookup is best-effort and must not block the login.
            _ => Some(
                (
                    ExchangeFlowView::AwaitingPersistence { redirect_to, token },
                    ExchangeActionView::PersistUser { user: spec_user_from(token, claims) },
                ),
            ),
        },
        (
            ExchangeFlowView::AwaitingRevocation { redirect_to, token, claims },
            ExchangeEventView::RevocationFinished,
        ) => Some(
            (
                ExchangeFlowView::AwaitingPersistence { redirect_to, token },
                ExchangeActionView::PersistUser { user: spec_user_from(token, claims) },
            ),
        ),
        (
            ExchangeFlowView::AwaitingPersistence { redirect_to, token },
            ExchangeEventView::PersistenceFinished(_),
        ) => Some(
            (
                ExchangeFlowView::Finished {
                    response: AuthorizationResponseView::Success { url: redirect_to, token },
                },
                ExchangeActionView::Redirect,
            ),
        ),
        _ => None,
    }
}

impl ExchangeFlow {
    /// A machine at the start of the callback flow.
    pub fn start(config: ExchangeAuthorizationCodeConfig) -> (r: ExchangeFlow)
        ensures
            r@ == (ExchangeFlowView::Started { config: config@ }),
    {
        ExchangeFlow::Started { config }
    }

    /// Whether this state accepts the event.
    pub fn accepts(&self, event: &ExchangeEvent) -> (r: bool)
        ensures
            r == (spec_step(self@, event@) is Some),
    {
        match (self, event) {
            (ExchangeFlow::Started { .. }, ExchangeEvent::Begin) => true,
            (ExchangeFlow::AwaitingTokenResponse { .. }, ExchangeEvent::TokenResponse(_)) => true,
            (ExchangeFlow::AwaitingIdentity { .. }, ExchangeEvent::IdentityVerified(_)) => true,
            (ExchangeFlow::AwaitingStoredUser { .. }, ExchangeEvent::StoredUserFetched(_)) => true,
            (ExchangeFlow::AwaitingRevocation { .. }, ExchangeEvent::RevocationFinished) => true,
            (ExchangeFlow::AwaitingPersistence { .. }, ExchangeEvent::PersistenceFinished(_)) => true,
            _ => false,
        }
    }

    /// Consumes one event and yields the machine's next state and the
    /// action the application performs for it.
    pub fn step(self, event: ExchangeEvent) -> (r: (ExchangeFlow, ExchangeAction))
        requires
            spec_step(self@, event@) is Some,
        ensures
            Some((r.0@, r.1@)) == spec_step(self@, event@),
    {
        match (self, event) {
            (ExchangeFlow::Started { config }, ExchangeEvent::Begin) => {
                if !crate::text::str_eq(config.csrf_token.as_str(), config.state.as_str()) {
                    let response = AuthorizationResponse::Error {
                        url: config.redirect_to,
                        error: "CSRF token mismatch".to_owned(),
                    };
                    (ExchangeFlow::Finished { response }, ExchangeAction::Redirect)
                } else {
                    (
                        ExchangeFlow::AwaitingTokenResponse {
                            redirect_to: config.redirect_to,
                            revoke_existing_tokens: config.revoke_existing_tokens,
                        },
                        ExchangeAction::ExchangeCode {
                            code: config.code,
                            pkce_verifier: config.pkce_verifier,
                            params: config.params,
                        },
                    )
                }
            },
            (
                ExchangeFlow::AwaitingTokenResponse { redirect_to, revoke_existing_tokens },
                ExchangeEvent::TokenResponse(outcome),
            ) => match outcome {
                Ok(token) => {
                    let id_token = token.extra_fields.id_token.clone();
                    (
                        ExchangeFlow::AwaitingIdentity {
                            redirect_to,
                            revoke_existing_tokens,
                            token,
                        },
                        ExchangeAction::VerifyIdToken { id_token },
                    )
                },
                Err(message) => {
                    let error = Error::TokenExchangeFailed { because: message }.message();
                    let response = AuthorizationResponse::Error { url: redirect_to, error };
                    (ExchangeFlow::Finished { response }, ExchangeAction::Redirect)
                },
            },
            (
                ExchangeFlow::AwaitingIdentity { redirect_to, revoke_existing_tokens, token },
                ExchangeEvent::IdentityVerified(outcome),
            ) => match outcome {
                Ok(claims) => {
                    if token.refresh_token.is_some() {
                        if revoke_existing_tokens {
                            let user_id = claims.sub.clone();
                            (
                                ExchangeFlow::AwaitingStoredUser { redirect_to, token, claims },
                                ExchangeAction::FetchStoredUser { user_id },
                            )
                        } else {
                            let user = user_from(&token, &claims);
                            (
                                ExchangeFlow::AwaitingPersistence { redirect_to, token },
                                ExchangeAction::PersistUser { user },
                            )
                        }
                    } else {
                        let response = AuthorizationResponse::Success { url: redirect_to, token };
                        (ExchangeFlow::Finished { response }, ExchangeAction::Redirect)
                    }
                },
                Err(message) => {
                    let response = AuthorizationResponse::Error {
                        url: redirect_to,
                        error: message,
                    };
                    (ExchangeFlow::Finished { response }, ExchangeAction::Redirect)
                },
            },
            (
                ExchangeFlow::AwaitingStoredUser { redirect_to, token, claims },
                ExchangeEvent::StoredUserFetched(outcome),
            ) => match outcome {
                Ok(Some(stored)) => match stored.refresh_token {
                    Some(stored_token) => (
                        ExchangeFlow::AwaitingRevocation { redirect_to, token, claims },
                        ExchangeAction::RevokeRefreshToken { refresh_token: stored_token },
                    ),
                    None => {
                        let user = user_from(&token, &claims);
                        (
                            ExchangeFlow::AwaitingPersistence { redirect_to, token },
                            ExchangeAction::PersistUser { user },
                        )
                    },
                },
                _ => {
                    let user = user_from(&token, &claims);
                    (
                        ExchangeFlow::AwaitingPersistence { redirect_to, token },
                        ExchangeAction::PersistUser { user },
                    )
                },
            },
            (
                ExchangeFlow::AwaitingRevocation { redirect_to, token, claims },
                ExchangeEvent::RevocationFinished,
            ) => {
                let user = user_from(&token, &claims);
                (
                    ExchangeFlow::AwaitingPersistence { redirect_to, token },
                    ExchangeAction::PersistUser { user },
                )
            },
            (
                ExchangeFlow::AwaitingPersistence { redirect_to, token },
                ExchangeEvent::PersistenceFinished(_),
            ) => {
                let response = AuthorizationResponse::Success { url: redirect_to, token };
                (ExchangeFlow::Finished { response }, ExchangeAction::Redirect)
            },
            _ => {
                proof {
                    assert(false);
                }
                unreached()
            },
        }
    }
}

/// A callback whose `state` differs from the session's CSRF token halts at
/// once: the machine redirects with a CSRF-mismatch error, and from the
/// finished state no event is accepted, so the code-exchange primitive is
/// never invoked.
pub proof fn lemma_csrf_mismatch_halts(config: ExchangeConfigView)
    requires
        config.state != config.csrf_token,
    ensures
        ({
            let stepped = spec_step(
                ExchangeFlowView::Started { config },
                ExchangeEventView::Begin,
            );
            &&& stepped matches Some((flow, action))
            &&& action == ExchangeActionView::Redirect
            &&& flow == (ExchangeFlowView::Finished {
                response: AuthorizationResponseView::Error {
                    url: config.redirect_to,
                    error: "CSRF token mismatch"@,
                },
            })
            &&& forall|next: ExchangeEventView| spec_step(flow, next) is None
        }),
{
}

/// An exchange response without a refresh token changes no stored record:
/// the machine runs code exchange, identity verification, and the final
/// redirect without ever asking for persistence or revocation, whatever
/// the store holds.
pub proof fn lemma_no_refresh_token_leaves_store_alone(
    config: ExchangeConfigView,
    token: TokenResponseView,
    claims: IdTokenClaimsView,
)
    requires
        config.csrf_token == config.state,
        token.refresh_token is None,
    ensures
        ({
            let s0 = ExchangeFlowView::Started { config };
            let step1 = spec_step(s0, ExchangeEventView::Begin);
            let step2 = spec_step(step1->Some_0.0, ExchangeEventView::TokenResponse(Ok(token)));
            let step3 = spec_step(
                step2->Some_0.0,
                ExchangeEventView::IdentityVerified(Ok(claims)),
            );
            &&& step1 is Some && step2 is Some && step3 is Some
            &&& !(step1->Some_0.1 is PersistUser) && !(step1->Some_0.1 is RevokeRefreshToken)
            &&& !(step2->Some_0.1 is PersistUser) && !(step2->Some_0.1 is RevokeRefreshToken)
            &&& !(step3->Some_0.1 is PersistUser) && !(step3->Some_0.1 is RevokeRefreshToken)
            &&& step3->Some_0.0 == (ExchangeFlowView::Finished {
                response: AuthorizationResponseView::Success {
                    url: config.redirect_to,
                    token,
                },
            })
        }),
{
}

/// An exchange response that carries a refresh token ends in a persistence
/// request that overwrites the record stored for the verified subject:
/// the machine emits `PersistUser` with the new refresh token under the
/// subject id, and upserting it maps that id to the new record.
pub proof fn lemma_refresh_token_overwrites_record(
    config: ExchangeConfigView,
    token: TokenResponseView,
    claims: IdTokenClaimsView,
    store: Map<Seq<char>, GoogleUserView>,
)
    requires
        config.csrf_token == config.state,
        !config.revoke_existing_tokens,
        token.refresh_token is Some,
    ensures
        ({
            let s0 = ExchangeFlowView::Started { config };
            let step1 = spec_step(s0, ExchangeEventView::Begin);
            let step2 = spec_step(step1->Some_0.0, ExchangeEventView::TokenResponse(Ok(token)));
            let step3 = spec_step(
                step2->Some_0.0,
                ExchangeEventView::IdentityVerified(Ok(claims)),
            );
            &&& step1 is Some && step2 is Some && step3 is Some
            &&& step3->Some_0.1 == (ExchangeActionView::PersistUser {
                user: spec_user_from(token, claims),
            })
            &&& spec_user_from(token, claims).id == claims.sub
            &&& spec_user_from(token, claims).refresh_token == token.refresh_token
            &&& store.insert(claims.sub, spec_user_from(token, claims))[claims.sub]
                == spec_user_from(token, claims)
        }),
{
}

/// States that hold a verified token response past the persistence
/// decision only ever hold one carrying a refresh token.
pub open spec fn spec_flow_refresh_invariant(flow: ExchangeFlowView) -> bool {
    match flow {
        ExchangeFlowView::AwaitingStoredUser { token, .. } => token.refresh_token is Some,
        ExchangeFlowView::AwaitingRevocation { token, .. } => token.refresh_token is Some,
        ExchangeFlowView::AwaitingPersistence { token, .. } => token.refresh_token is Some,
        _ => true,
    }
}

/// A record is created or overwritten only when the exchange response
/// carries a refresh token: every transition preserves the invariant
/// above, and under it every persistence request the machine ever emits
/// stores a record whose refresh token is present, so a stored refresh
/// token is never nulled out by a later exchange that returned none.
pub proof fn lemma_persisted_users_always_carry_a_refresh_token(
    flow: ExchangeFlowView,
    event: ExchangeEventView,
)
    requires
        spec_flow_refresh_invariant(flow),
    ensures
        spec_step(flow, event) matches Some((next, action)) ==> spec_flow_refresh_invariant(next)
            && (action matches ExchangeActionView::PersistUser { user }
            ==> user.refresh_token is Some),
{
}

} // verus!
