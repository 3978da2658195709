//! The authorization request builder: fresh PKCE and CSRF material, the
//! provider client configuration, the ordered query parameters of the
//! authorization request, and the final authorization URL.

use crate::error::Error;
use crate::params::{
    spec_extra_params, ExtraParam, ExtraParamsView, RequestAccessTokenExtraParams,
};
use crate::scope::ScopeList;
use crate::text::{clone_strings, join_spaces, spec_join_spaces};
use vstd::prelude::*;

verus! {

/// The provider client configuration the builder reads: endpoints and
/// client identity, as plain values loaded at process start.
pub struct GoogleOAuthClientConfig {
    /// The OAuth client id.
    pub client_id: String,
    /// The cloud project the deployment belongs to.
    pub project_id: String,
    /// The provider's authorization endpoint.
    pub auth_uri: String,
    /// The provider's token endpoint.
    pub token_uri: String,
    /// The OAuth client secret.
    pub client_secret: String,
    /// The origins allowed to call this deployment.
    pub javascript_origins: Vec<String>,
}

impl GoogleOAuthClientConfig {
    /// The provider's token endpoint.
    pub fn token_uri(&self) -> (r: &str)
        ensures
            r@ == self.token_uri@,
    {
        self.token_uri.as_str()
    }

    /// The provider's authorization endpoint.
    pub fn auth_uri(&self) -> (r: &str)
        ensures
            r@ == self.auth_uri@,
    {
        self.auth_uri.as_str()
    }

    /// The provider's token revocation endpoint.
    pub fn revocation_url() -> (r: String)
        ensures
            r@ == "https://oauth2.googleapis.com/revoke"@,
    {
        "https://oauth2.googleapis.com/revoke".to_owned()
    }

    /// The cloud project the deployment belongs to.
    pub fn project_id(&self) -> (r: &str)
        ensures
            r@ == self.project_id@,
    {
        self.project_id.as_str()
    }

    /// The origins allowed to call this deployment.
    pub fn allowed_origins(&self) -> (r: &Vec<String>)
        ensures
            r == self.javascript_origins,
    {
        &self.javascript_origins
    }

    /// The OAuth client id.
    pub fn client_id(&self) -> (r: &str)
        ensures
            r@ == self.client_id@,
    {
        self.client_id.as_str()
    }
}

/// The caller's authorization request: an optional redirect target, the
/// scopes to authorize, and the optional extra parameters.
#[derive(Debug)]
pub struct RequestAccessTokenPayload {
    /// Where the browser is sent after the flow, when given explicitly.
    pub redirect_uri: Option<String>,
    /// The scopes to authorize.
    pub scopes: ScopeList,
    /// The optional parameters of the authorization request.
    pub extra_params: RequestAccessTokenExtraParams,
}

/// The normalized configuration of one authorization request.
#[derive(Debug)]
pub struct RequestAccessTokenConfig {
    scopes: Vec<String>,
    extra_params: RequestAccessTokenExtraParams,
}

impl RequestAccessTokenConfig {
    /// Pairs the scopes with the extra parameters.
    pub fn new(scopes: Vec<String>, extra_params: RequestAccessTokenExtraParams) -> (r:
        RequestAccessTokenConfig)
        ensures
            r.spec_scopes() == scopes@.map_values(|s: String| s@),
            r.spec_extra_params() == extra_params@,
    {
        RequestAccessTokenConfig { scopes, extra_params }
    }

    /// The requested scopes, abstractly.
    pub closed spec fn spec_scopes(&self) -> Seq<Seq<char>> {
        self.scopes@.map_values(|s: String| s@)
    }

    /// The extra parameters, abstractly.
    pub closed spec fn spec_extra_params(&self) -> ExtraParamsView {
        self.extra_params@
    }

    /// The requested scopes.
    pub fn scopes(&self) -> (r: &Vec<String>)
        ensures
            r@.map_values(|s: String| s@) == self.spec_scopes(),
    {
        &self.scopes
    }

    /// The extra parameters of the request.
    pub fn extra_params(&self) -> (r: &RequestAccessTokenExtraParams)
        ensures
            r@ == self.spec_extra_params(),
    {
        &self.extra_params
    }

    /// Normalizes a caller's payload into a request configuration.
    pub fn from_payload(payload: &RequestAccessTokenPayload) -> (r: RequestAccessTokenConfig)
        ensures
            r.spec_scopes() == payload.scopes.0@.map_values(|s: String| s@),
            r.spec_extra_params() == payload.extra_params@,
    {
        let scopes = clone_strings(&payload.scopes.0);
        let extra_params = duplicate_params(&payload.extra_params);
        RequestAccessTokenConfig { scopes, extra_params }
    }
}

/// Copies a parameter set field by field.
pub fn duplicate_params(p: &RequestAccessTokenExtraParams) -> (r: RequestAccessTokenExtraParams)
    ensures
        r@ == p@,
{
    let login_hint = match &p.login_hint {
        Some(h) => Some(h.clone()),
        None => None,
    };
    let mut prompts: Vec<crate::params::Prompt> = Vec::new();
    let mut i: usize = 0;
    while i < p.prompt.0.len()
        invariant
            i <= p.prompt.0@.len(),
            prompts@ =~= p.prompt.0@.take(i as int),
        decreases p.prompt.0@.len() - i,
    {
        prompts.push(p.prompt.0[i]);
        i += 1;
    }
    assert(prompts@ =~= p.prompt.0@);
    RequestAccessTokenExtraParams {
        include_granted_scopes: p.include_granted_scopes,
        login_hint,
        access_type: p.access_type,
        prompt: crate::params::PromptList(prompts),
    }
}

/// The response to an authorization request: the URL the user is sent to,
/// plus the PKCE verifier and CSRF token the callback must remember.
pub struct RequestAccessTokenResponse {
    pkce_verifier: String,
    csrf_token: String,
    url: String,
}

impl RequestAccessTokenResponse {
    /// Bundles the verifier, token, and URL.
    pub fn new(pkce_verifier: String, csrf_token: String, url: String) -> (r:
        RequestAccessTokenResponse)
        ensures
            r.spec_pkce_verifier() == pkce_verifier@,
            r.spec_csrf_token() == csrf_token@,
            r.spec_url() == url@,
    {
        RequestAccessTokenResponse { pkce_verifier, csrf_token, url }
    }

    /// The PKCE verifier, abstractly.
    pub closed spec fn spec_pkce_verifier(&self) -> Seq<char> {
        self.pkce_verifier@
    }

    /// The CSRF token, abstractly.
    pub closed spec fn spec_csrf_token(&self) -> Seq<char> {
        self.csrf_token@
    }

    /// The authorization URL, abstractly.
    pub closed spec fn spec_url(&self) -> Seq<char> {
        self.url@
    }

    /// The PKCE verifier to remember for the exchange.
    pub fn pkce_verifier(&self) -> (r: &str)
        ensures
            r@ == self.spec_pkce_verifier(),
    {
        self.pkce_verifier.as_str()
    }

    /// The CSRF token to validate on the callback.
    pub fn csrf_token(&self) -> (r: &str)
        ensures
            r@ == self.spec_csrf_token(),
    {
        self.csrf_token.as_str()
    }

    /// The authorization URL to redirect the user to.
    pub fn url(&self) -> (r: &str)
        ensures
            r@ == self.spec_url(),
    {
        self.url.as_str()
    }
}

/// What `PkceCodeChallenge::from_code_verifier_sha256` returns: the
/// base64url-encoded SHA-256 challenge of a verifier, a function of the
/// verifier alone.
pub uninterp spec fn pkce_challenge_of(verifier: Seq<char>) -> Seq<char>;

/// Relies on `oauth2::PkceCodeChallenge::new_random_sha256`: a fresh
/// random verifier together with its SHA-256 challenge; nothing is
/// promised of the verifier, and the challenge is the challenge of that
/// verifier.
#[verifier::external_body]
fn new_random_pkce() -> (r: (String, String))
    ensures
        r.1@ == pkce_challenge_of(r.0@),
{
    let (challenge, verifier) = oauth2::PkceCodeChallenge::new_random_sha256();
    (verifier.into_secret(), challenge.as_str().to_string())
}

/// Relies on `oauth2::CsrfToken::new_random`: a fresh random token;
/// nothing can be promised of its value.
#[verifier::external_body]
fn new_random_csrf() -> String {
    oauth2::CsrfToken::new_random().into_secret()
}

/// What appending query pairs to a parsed base URL returns: a function of
/// the base and the pairs alone.
pub uninterp spec fn url_with_params(base: Seq<char>, pairs: Seq<(Seq<char>, Seq<char>)>) -> Seq<
    char,
>;

/// Whether `url::Url::parse` accepts a string; a function of its
/// characters alone.
pub uninterp spec fn spec_url_parses(s: Seq<char>) -> bool;

/// Relies on `url::Url::parse` and `Url::query_pairs_mut`: parses the
/// base URL and appends the given pairs, percent-encoded, to its query.
/// Succeeds exactly when the base parses; the error carries the parser's
/// message.
#[verifier::external_body]
fn url_with_query(base: &str, pairs: &Vec<(String, String)>) -> (r: Result<String, Error>)
    ensures
        r is Ok <==> spec_url_parses(base@),
        r matches Ok(u) ==> u@ == url_with_params(
            base@,
            pairs@.map_values(|p: (String, String)| (p.0@, p.1@)),
        ),
        r matches Err(e) ==> e matches Error::UrlParse { .. },
{
    match url::Url::parse(base) {
        Ok(mut u) => {
            u.query_pairs_mut().extend_pairs(pairs.iter().map(|p| (p.0.as_str(), p.1.as_str())));
            Ok(u.as_str().to_owned())
        },
        Err(e) => Err(Error::UrlParse { because: e.to_string() }),
    }
}

/// What `url::Url::parse` followed by serialization returns: the
/// normalized form of an absolute URL, a function of the input alone.
pub uninterp spec fn spec_parsed_url(s: Seq<char>) -> Seq<char>;

/// Relies on `url::Url::parse`: validates and normalizes an absolute
/// URL, succeeding exactly when the input parses.
#[verifier::external_body]
fn parse_url(s: &str) -> (r: Result<String, Error>)
    ensures
        r is Ok <==> spec_url_parses(s@),
        r matches Ok(u) ==> u@ == spec_parsed_url(s@),
        r matches Err(e) ==> e matches Error::UrlParse { .. },
{
    match url::Url::parse(s) {
        Ok(u) => Ok(u.as_str().to_owned()),
        Err(e) => Err(Error::UrlParse { because: e.to_string() }),
    }
}

/// Validates and normalizes the redirect target handed back to the
/// browser after the flow: accepted exactly when it parses as a URL.
pub fn validate_redirect_target(s: &str) -> (r: Result<String, Error>)
    ensures
        r is Ok <==> spec_url_parses(s@),
        r matches Ok(u) ==> u@ == spec_parsed_url(s@),
        r matches Err(e) ==> e matches Error::UrlParse { .. },
{
    parse_url(s)
}

/// What `urlencoding::decode` returns on success: the percent-decoding of
/// a string, a function of its characters alone.
pub uninterp spec fn spec_url_decoded(s: Seq<char>) -> Seq<char>;

/// Whether `urlencoding::decode` succeeds on a string, that is, whether
/// the percent-decoded bytes are UTF-8; a function of its characters
/// alone.
pub uninterp spec fn spec_url_decodes(s: Seq<char>) -> bool;

/// Relies on `urlencoding::decode`: percent-decodes a string, succeeding
/// exactly when the decoded bytes are UTF-8.
#[verifier::external_body]
fn url_decode(s: &str) -> (r: Result<String, Error>)
    ensures
        r is Ok <==> spec_url_decodes(s@),
        r matches Ok(d) ==> d@ == spec_url_decoded(s@),
        r matches Err(e) ==> e matches Error::InvalidRedirectUrl { .. },
{
    match urlencoding::decode(s) {
        Ok(d) => Ok(d.into_owned()),
        Err(e) => Err(Error::InvalidRedirectUrl { because: e.to_string() }),
    }
}

/// Resolves the final redirect target: the explicit `redirect_uri`
/// parameter wins, else the `Referer` header; the chosen value is
/// percent-decoded and must parse as an absolute URL. Success is owed
/// exactly when a source is present, its percent-decoding is UTF-8, and
/// the decoded value parses. Neither source present is a
/// missing-redirect error, never a silent default.
pub fn resolve_redirect_target(redirect_uri: &Option<String>, referer: &Option<String>) -> (r:
    Result<String, Error>)
    ensures
        ({
            let chosen = if redirect_uri is Some {
                redirect_uri->0@
            } else if referer is Some {
                referer->0@
            } else {
                Seq::<char>::empty()
            };
            let present = redirect_uri is Some || referer is Some;
            match r {
                Ok(u) => present && spec_url_decodes(chosen) && spec_url_parses(spec_url_decoded(
                    chosen,
                )) && u@ == spec_parsed_url(spec_url_decoded(chosen)),
                Err(e) => match e {
                    Error::MissingRedirectUrl => !present,
                    Error::InvalidRedirectUrl { .. } => present && !spec_url_decodes(chosen),
                    Error::UrlParse { .. } => present && spec_url_decodes(chosen)
                        && !spec_url_parses(spec_url_decoded(chosen)),
                    _ => false,
                },
            }
        }),
{
    let chosen: &String = match redirect_uri {
        Some(u) => u,
        None => match referer {
            Some(u) => u,
            None => {
                return Err(Error::MissingRedirectUrl);
            },
        },
    };
    let decoded = match url_decode(chosen.as_str()) {
        Ok(d) => d,
        Err(e) => {
            return Err(e);
        },
    };
    match parse_url(decoded.as_str()) {
        Ok(u) => Ok(u),
        Err(e) => Err(e),
    }
}

/// The ordered query pairs of an authorization request: the protocol
/// parameters first, then the serialized extra parameters.
pub open spec fn spec_authorization_pairs(
    client_id: Seq<char>,
    csrf: Seq<char>,
    challenge: Seq<char>,
    redirect_uri: Seq<char>,
    scopes: Seq<Seq<char>>,
    params: ExtraParamsView,
) -> Seq<(Seq<char>, Seq<char>)> {
    spec_protocol_pairs(client_id, csrf, challenge, redirect_uri, scopes) + spec_extra_params(
        params,
    ).map_values(|p: (ExtraParam, Seq<char>)| (p.0.spec_key(), p.1))
}

/// The fixed protocol parameters at the head of the authorization query.
pub open spec fn spec_protocol_pairs(
    client_id: Seq<char>,
    csrf: Seq<char>,
    challenge: Seq<char>,
    redirect_uri: Seq<char>,
    scopes: Seq<Seq<char>>,
) -> Seq<(Seq<char>, Seq<char>)> {
    seq![
        ("response_type"@, "code"@),
        ("client_id"@, client_id),
        ("state"@, csrf),
        ("code_challenge"@, challenge),
        ("code_challenge_method"@, "S256"@),
        ("redirect_uri"@, redirect_uri),
        ("scope"@, spec_join_spaces(scopes)),
    ]
}

/// Builds the query pairs of one authorization request.
fn build_authorization_pairs(
    client: &GoogleOAuthClientConfig,
    redirect_uri: &str,
    config: &RequestAccessTokenConfig,
    challenge: &str,
    csrf: &str,
) -> (r: Vec<(String, String)>)
    ensures
        r@.map_values(|p: (String, String)| (p.0@, p.1@)) == spec_authorization_pairs(
            client.client_id@,
            csrf@,
            challenge@,
            redirect_uri@,
            config.spec_scopes(),
            config.spec_extra_params(),
        ),
{
    let mut pairs: Vec<(String, String)> = Vec::new();
    pairs.push(("response_type".to_owned(), "code".to_owned()));
    pairs.push(("client_id".to_owned(), client.client_id.clone()));
    pairs.push(("state".to_owned(), csrf.to_owned()));
    pairs.push(("code_challenge".to_owned(), challenge.to_owned()));
    pairs.push(("code_challenge_method".to_owned(), "S256".to_owned()));
    pairs.push(("redirect_uri".to_owned(), redirect_uri.to_owned()));
    pairs.push(("scope".to_owned(), join_spaces(config.scopes())));
    let ghost gfull = spec_authorization_pairs(
        client.client_id@,
        csrf@,
        challenge@,
        redirect_uri@,
        config.spec_scopes(),
        config.spec_extra_params(),
    );
    let extras = config.extra_params().to_extra_params();
    let ghost extra_views = spec_extra_params(config.spec_extra_params());
    proof {
        assert(forall|j: int|
            0 <= j < 7 ==> (pairs@[j].0@, pairs@[j].1@) == #[trigger] gfull[j]);
    }
    let mut i: usize = 0;
    while i < extras.len()
        invariant
            i <= extras@.len(),
            extras@.map_values(|p: (ExtraParam, String)| (p.0, p.1@)) == extra_views,
            extra_views == spec_extra_params(config.spec_extra_params()),
            gfull == spec_authorization_pairs(
                client.client_id@,
                csrf@,
                challenge@,
                redirect_uri@,
                config.spec_scopes(),
                config.spec_extra_params(),
            ),
            pairs@.len() == 7 + i,
            forall|j: int|
                0 <= j < 7 + i ==> (pairs@[j].0@, pairs@[j].1@) == #[trigger] gfull[j],
        decreases extras@.len() - i,
    {
        proof {
            assert(extra_views[i as int] == (extras@[i as int].0, extras@[i as int].1@));
            let mapped = extra_views.map_values(
                |p: (ExtraParam, Seq<char>)| (p.0.spec_key(), p.1),
            );
            let base = spec_protocol_pairs(
                client.client_id@,
                csrf@,
                challenge@,
                redirect_uri@,
                config.spec_scopes(),
            );
            assert(mapped.len() == extra_views.len());
            assert(extra_views.len() == extras@.len());
            assert(mapped[i as int] == (extra_views[i as int].0.spec_key(), extra_views[
                i as int
            ].1));
            assert(gfull == base + mapped);
            assert(base.len() == 7);
            assert((base + mapped)[7 + i as int] == mapped[i as int]);
            assert(gfull[7 + i as int] == mapped[i as int]);
        }
        let key = extras[i].0.into_cow();
        let value = extras[i].1.clone();
        pairs.push((key, value));
        i += 1;
    }
    proof {
        let mapped = extra_views.map_values(|p: (ExtraParam, Seq<char>)| (p.0.spec_key(), p.1));
        let base = spec_protocol_pairs(
            client.client_id@,
            csrf@,
            challenge@,
            redirect_uri@,
            config.spec_scopes(),
        );
        assert(gfull == base + mapped);
        assert(gfull.len() == 7 + extras@.len());
        assert(pairs@.map_values(|p: (String, String)| (p.0@, p.1@)) =~= gfull);
    }
    pairs
}

/// Builds the provider authorization URL for a request: a fresh PKCE
/// verifier/challenge pair and a fresh CSRF token every call, the
/// protocol parameters, the space-joined scopes, and the serialized extra
/// parameters appended to the authorization endpoint. Pure construction;
/// no request is sent. Succeeds exactly when the configured
/// authorization endpoint parses as a URL.
pub fn request_access_token(
    client: &GoogleOAuthClientConfig,
    redirect_uri: &str,
    config: &RequestAccessTokenConfig,
) -> (r: Result<RequestAccessTokenResponse, Error>)
    ensures
        r is Ok <==> spec_url_parses(client.auth_uri@),
        match r {
            Ok(resp) => resp.spec_url() == url_with_params(
                client.auth_uri@,
                spec_authorization_pairs(
                    client.client_id@,
                    resp.spec_csrf_token(),
                    pkce_challenge_of(resp.spec_pkce_verifier()),
                    redirect_uri@,
                    config.spec_scopes(),
                    config.spec_extra_params(),
                ),
            ),
            Err(e) => e matches Error::UrlParse { .. },
        },
{
    let (verifier, challenge) = new_random_pkce();
    let csrf = new_random_csrf();
    let pairs = build_authorization_pairs(
        client,
        redirect_uri,
        config,
        challenge.as_str(),
        csrf.as_str(),
    );
    match url_with_query(client.auth_uri.as_str(), &pairs) {
        Ok(url) => Ok(RequestAccessTokenResponse { pkce_verifier: verifier, csrf_token: csrf, url }),
        Err(e) => Err(e),
    }
}

/// However the request is configured, the authorization query names the
/// serialized `access_type` right after the protocol parameters and ends
/// with the serialized `prompt`, even when every parameter is at its
/// default.
pub proof fn lemma_authorization_pairs_always_named(
    client_id: Seq<char>,
    csrf: Seq<char>,
    challenge: Seq<char>,
    redirect_uri: Seq<char>,
    scopes: Seq<Seq<char>>,
    params: ExtraParamsView,
)
    ensures
        ({
            let pairs = spec_authorization_pairs(
                client_id,
                csrf,
                challenge,
                redirect_uri,
                scopes,
                params,
            );
            &&& pairs.len() >= 9
            &&& pairs[7] == ("access_type"@, params.access_type.spec_serialized())
            &&& pairs.last() == ("prompt"@, crate::params::spec_prompt_list_str(params.prompt))
        }),
{
    crate::params::lemma_extra_params_always_named(params);
    let extras = spec_extra_params(params);
    let mapped = extras.map_values(|p: (ExtraParam, Seq<char>)| (p.0.spec_key(), p.1));
    assert(mapped[0] == (ExtraParam::AccessType.spec_key(), params.access_type.spec_serialized()));
    assert(mapped.last() == (ExtraParam::Prompt.spec_key(), crate::params::spec_prompt_list_str(
        params.prompt,
    )));
    let pairs = spec_authorization_pairs(client_id, csrf, challenge, redirect_uri, scopes, params);
    assert(pairs[7] == mapped[0]);
    assert(pairs.last() == mapped.last());
}

} // verus!
