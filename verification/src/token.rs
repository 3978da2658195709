//! The token lifecycle manager: refresh-token exchange and revocation
//! outside the redirect flow. The decisions over the stored record are
//! verified here; the provider calls themselves happen around them.

use crate::error::Error;
use crate::exchange::GoogleOAuthTokenResponse;
use crate::store::GoogleUser;
use vstd::prelude::*;

verus! {

/// A request to exchange a refresh token for a fresh access token.
pub struct ExchangeRefreshTokenRequest {
    /// The refresh token to redeem.
    pub refresh_token: String,
}

impl ExchangeRefreshTokenRequest {
    /// Wraps the refresh token to redeem.
    pub fn new(refresh_token: &str) -> (r: Self)
        ensures
            r.refresh_token@ == refresh_token@,
    {
        ExchangeRefreshTokenRequest { refresh_token: refresh_token.to_owned() }
    }
}

/// The abstract value of a refresh-exchange response.
pub struct ExchangeRefreshTokenResponseView {
    /// The new access token.
    pub access_token: Seq<char>,
    /// The identity token returned alongside it.
    pub id_token: Seq<char>,
    /// When the response was assembled, as a Unix timestamp.
    pub issued_at: int,
    /// The declared lifetime in seconds, zero when the provider omitted it.
    pub expires_in: u64,
}

/// The response of a refresh-token exchange: the new access token, the
/// identity token, and timing metadata.
pub struct ExchangeRefreshTokenResponse {
    /// The new access token.
    pub access_token: String,
    /// The identity token returned alongside it.
    pub id_token: String,
    /// When the response was assembled, as a Unix timestamp.
    pub issued_at: i64,
    /// The declared lifetime in seconds, zero when the provider omitted it.
    pub expires_in: u64,
}

impl View for ExchangeRefreshTokenResponse {
    type V = ExchangeRefreshTokenResponseView;

    open spec fn view(&self) -> ExchangeRefreshTokenResponseView {
        ExchangeRefreshTokenResponseView {
            access_token: self.access_token@,
            id_token: self.id_token@,
            issued_at: self.issued_at as int,
            expires_in: self.expires_in,
        }
    }
}

impl ExchangeRefreshTokenResponse {
    /// Shapes a provider token response into the refresh-exchange reply,
    /// stamped with the given issue time. A missing expiry becomes zero.
    pub fn from_token_response(token: GoogleOAuthTokenResponse, issued_at: i64) -> (r:
        ExchangeRefreshTokenResponse)
        ensures
            r@.access_token == token@.access_token,
            r@.id_token == token@.id_token,
            r@.issued_at == issued_at as int,
            r@.expires_in == match token@.expires_in {
                Some(e) => e,
                None => 0u64,
            },
    {
        let expires_in: u64 = match token.expires_in {
            Some(e) => e,
            None => 0,
        };
        ExchangeRefreshTokenResponse {
            access_token: token.access_token,
            id_token: token.extra_fields.id_token,
            issued_at,
            expires_in,
        }
    }

    /// Shapes a provider token response into the refresh-exchange reply,
    /// stamped with the clock's current time.
    pub fn from_token_response_now(token: GoogleOAuthTokenResponse) -> (r:
        ExchangeRefreshTokenResponse)
        ensures
            r@.access_token == token@.access_token,
            r@.id_token == token@.id_token,
            r@.expires_in == match token@.expires_in {
                Some(e) => e,
                None => 0u64,
            },
    {
        let now = crate::exchange::now_timestamp();
        Self::from_token_response(token, now)
    }
}

/// Resolves the refresh token to redeem for a subject: the stored record
/// must exist and must hold a refresh token. No stored record is
/// `UserNotFound`; a record without a token is a token-exchange failure
/// naming the missing refresh token.
pub fn resolve_stored_refresh_token(stored: Option<GoogleUser>) -> (r: Result<String, Error>)
    ensures
        match r {
            Ok(t) => stored matches Some(u) && u@.refresh_token == Some(t@),
            Err(e) => match stored {
                None => e is UserNotFound,
                Some(u) => u@.refresh_token is None && (e matches Error::TokenExchangeFailed {
                    because,
                } && because@ == "No refresh token found for user"@),
            },
        },
{
    match stored {
        None => Err(Error::UserNotFound),
        Some(user) => match user.refresh_token {
            Some(token) => Ok(token),
            None => Err(
                Error::TokenExchangeFailed {
                    because: "No refresh token found for user".to_owned(),
                },
            ),
        },
    }
}

/// The abstract value of a revocation payload.
pub struct TokenRevocationPayloadView {
    /// The access token to revoke.
    pub access_token: Seq<char>,
    /// Whether the stored refresh token is revoked as well.
    pub revoke_refresh_token: bool,
}

/// The caller-supplied part of a revocation request: the access token to
/// revoke, and whether the stored refresh token goes with it.
pub struct TokenRevocationPayload {
    /// The access token to revoke.
    pub access_token: String,
    /// Whether the stored refresh token is revoked as well.
    pub revoke_refresh_token: bool,
}

impl View for TokenRevocationPayload {
    type V = TokenRevocationPayloadView;

    open spec fn view(&self) -> TokenRevocationPayloadView {
        TokenRevocationPayloadView {
            access_token: self.access_token@,
            revoke_refresh_token: self.revoke_refresh_token,
        }
    }
}

impl TokenRevocationPayload {
    /// The access token to revoke.
    pub fn access_token(&self) -> (r: &str)
        ensures
            r@ == self@.access_token,
    {
        self.access_token.as_str()
    }

    /// Whether the stored refresh token is revoked as well.
    pub fn revoke_refresh_token(&self) -> (r: bool)
        ensures
            r == self@.revoke_refresh_token,
    {
        self.revoke_refresh_token
    }
}

/// The abstract value of a revocation configuration.
pub struct TokenRevocationConfigView {
    /// The caller-supplied payload.
    pub payload: TokenRevocationPayloadView,
    /// The subject id of the broker-authenticated caller.
    pub user_id: Seq<char>,
}

/// A full revocation request: the payload plus the subject id resolved
/// from the broker-authenticated caller, never client-supplied.
pub struct TokenRevocationConfig {
    payload: TokenRevocationPayload,
    user_id: String,
}

impl View for TokenRevocationConfig {
    type V = TokenRevocationConfigView;

    closed spec fn view(&self) -> TokenRevocationConfigView {
        TokenRevocationConfigView { payload: self.payload@, user_id: self.user_id@ }
    }
}

impl TokenRevocationConfig {
    /// Pairs a revocation payload with the caller's subject id.
    pub fn new(payload: TokenRevocationPayload, user_id: &str) -> (r: TokenRevocationConfig)
        ensures
            r@.payload == payload@,
            r@.user_id == user_id@,
    {
        TokenRevocationConfig { payload, user_id: user_id.to_owned() }
    }

    /// The subject id whose stored token may be revoked.
    pub fn user_id(&self) -> (r: &str)
        ensures
            r@ == self@.user_id,
    {
        self.user_id.as_str()
    }

    /// The access token to revoke.
    pub fn access_token(&self) -> (r: &str)
        ensures
            r@ == self@.payload.access_token,
    {
        self.payload.access_token.as_str()
    }

    /// Whether the stored refresh token is revoked as well.
    pub fn revoke_refresh_token(&self) -> (r: bool)
        ensures
            r == self@.payload.revoke_refresh_token,
    {
        self.payload.revoke_refresh_token
    }
}

/// Decides whether a second revocation call is made: only when the caller
/// asked for it and the stored record actually holds a refresh token.
/// A missing record or a record without a token is a no-op, not an error,
/// and no second call is attempted.
pub fn stored_token_to_revoke(config: &TokenRevocationConfig, stored: Option<GoogleUser>) -> (r:
    Option<String>)
    ensures
        match r {
            Some(t) => (stored matches Some(u) && u@.refresh_token == Some(t@))
                && config@.payload.revoke_refresh_token,
            None => !config@.payload.revoke_refresh_token || stored is None || (
            stored matches Some(u) && u@.refresh_token is None),
        },
{
    if !config.payload.revoke_refresh_token {
        return None;
    }
    match stored {
        Some(user) => match user.refresh_token {
            Some(token) => Some(token),
            None => None,
        },
        None => None,
    }
}

} // verus!
