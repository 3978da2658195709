//! The crate's error taxonomy, its rendered messages, and the mapping to
//! HTTP status codes used by the web layer.

use vstd::prelude::*;
use vstd::string::StringExecFns;

verus! {

/// Everything that can go wrong in the authorization, exchange, and token
/// lifecycle flows. Variants carrying a `because` string hold the rendered
/// message of an underlying failure.
#[derive(Clone, Debug)]
pub enum Error {
    /// A payload could not be parsed or serialized as JSON.
    Json { because: String },
    /// A required environment value was missing or unreadable.
    Env { because: String },
    /// A base64 value could not be decoded.
    Base64 { because: String },
    /// A URL could not be parsed.
    UrlParse { because: String },
    /// The HTTP client used to reach the provider failed.
    Http { because: String },
    /// The provider's identity token failed verification.
    TokenVerification { because: String },
    /// The provider client configuration was rejected.
    OAuthConfig { because: String },
    /// The user token store failed.
    Store { because: String },
    /// No stored record exists for the requested user.
    UserNotFound,
    /// A prompt value outside `none`, `consent`, `select_account`.
    InvalidPromptValue(String),
    /// The token exchange with the provider failed.
    TokenExchangeFailed { because: String },
    /// The token revocation call to the provider failed.
    TokenRevocationFailed { because: String },
    /// A required configuration field was absent at build time.
    MissingConfigField(&'static str),
    /// An integer configuration value could not be parsed.
    ParseInt { because: String },
    /// A boolean configuration value could not be parsed.
    ParseBool { because: String },
    /// The broker-issued identity carries no provider identity claim.
    FirebaseUserMissingGoogleIdentity,
    /// The redirect target was present but not decodable.
    InvalidRedirectUrl { because: String },
    /// The session cookie was missing or malformed.
    FailedToExtractAuthCookie { because: String },
    /// Neither a `redirect_uri` parameter nor a `Referer` header was given.
    MissingRedirectUrl,
}

impl Error {
    /// The HTTP status this error maps to: `400` for caller mistakes,
    /// `502` for upstream failures, `500` for everything else.
    pub open spec fn spec_status_code(self) -> int {
        match self {
            Error::FailedToExtractAuthCookie { .. } => 400,
            Error::FirebaseUserMissingGoogleIdentity => 400,
            Error::InvalidRedirectUrl { .. } => 400,
            Error::MissingRedirectUrl => 400,
            Error::UrlParse { .. } => 400,
            Error::InvalidPromptValue(..) => 400,
            Error::MissingConfigField(..) => 400,
            Error::UserNotFound => 400,
            Error::TokenVerification { .. } => 400,
            Error::Store { .. } => 502,
            Error::Http { .. } => 502,
            Error::TokenRevocationFailed { .. } => 502,
            Error::Env { .. } => 500,
            Error::Json { .. } => 500,
            Error::Base64 { .. } => 500,
            Error::ParseInt { .. } => 500,
            Error::ParseBool { .. } => 500,
            Error::TokenExchangeFailed { .. } => 500,
            Error::OAuthConfig { .. } => 500,
        }
    }

    /// Maps the error to the HTTP status code of the response that reports
    /// it.
    pub fn status_code(&self) -> (r: u16)
        ensures
            r as int == self.spec_status_code(),
    {
        match self {
            Error::FailedToExtractAuthCookie { .. } => 400,
            Error::FirebaseUserMissingGoogleIdentity => 400,
            Error::InvalidRedirectUrl { .. } => 400,
            Error::MissingRedirectUrl => 400,
            Error::UrlParse { .. } => 400,
            Error::InvalidPromptValue(..) => 400,
            Error::MissingConfigField(..) => 400,
            Error::UserNotFound => 400,
            Error::TokenVerification { .. } => 400,
            Error::Store { .. } => 502,
            Error::Http { .. } => 502,
            Error::TokenRevocationFailed { .. } => 502,
            Error::Env { .. } => 500,
            Error::Json { .. } => 500,
            Error::Base64 { .. } => 500,
            Error::ParseInt { .. } => 500,
            Error::ParseBool { .. } => 500,
            Error::TokenExchangeFailed { .. } => 500,
            Error::OAuthConfig { .. } => 500,
        }
    }

    /// The message this error renders to.
    pub open spec fn spec_message(self) -> Seq<char> {
        match self {
            Error::Json { because } => because@,
            Error::Env { because } => because@,
            Error::Base64 { because } => because@,
            Error::UrlParse { because } => because@,
            Error::Http { because } => because@,
            Error::TokenVerification { because } => because@,
            Error::OAuthConfig { because } => because@,
            Error::Store { because } => because@,
            Error::UserNotFound => "No Google user found"@,
            Error::InvalidPromptValue(v) => "Invalid prompt value: '"@ + v@ + "'"@,
            Error::TokenExchangeFailed { because } => "Failed to exchange token: "@ + because@,
            Error::TokenRevocationFailed { because } => "Failed to revoke token: "@ + because@,
            Error::MissingConfigField(name) => "Missing required config field `"@ + name@ + "`"@,
            Error::ParseInt { because } => because@,
            Error::ParseBool { because } => because@,
            Error::FirebaseUserMissingGoogleIdentity => "Firebase ID token is missing Google identity claims"@,
            Error::InvalidRedirectUrl { because } => because@,
            Error::FailedToExtractAuthCookie { because } => "Failed to extract auth info: "@
                + because@,
            Error::MissingRedirectUrl => "Request is missing a valid redirect_to query param or Referer header"@,
        }
    }

    /// Renders the human-readable message for this error.
    pub fn message(&self) -> (r: String)
        ensures
            r@ == self.spec_message(),
    {
        match self {
            Error::Json { because } => because.clone(),
            Error::Env { because } => because.clone(),
            Error::Base64 { because } => because.clone(),
            Error::UrlParse { because } => because.clone(),
            Error::Http { because } => because.clone(),
            Error::TokenVerification { because } => because.clone(),
            Error::OAuthConfig { because } => because.clone(),
            Error::Store { because } => because.clone(),
            Error::UserNotFound => "No Google user found".to_owned(),
            Error::InvalidPromptValue(v) => {
                let mut s = "Invalid prompt value: '".to_owned();
                s.append(v.as_str());
                s.append("'");
                s
            },
            Error::TokenExchangeFailed { because } => {
                let mut s = "Failed to exchange token: ".to_owned();
                s.append(because.as_str());
                s
            },
            Error::TokenRevocationFailed { because } => {
                let mut s = "Failed to revoke token: ".to_owned();
                s.append(because.as_str());
                s
            },
            Error::MissingConfigField(name) => {
                let mut s = "Missing required config field `".to_owned();
                s.append(name);
                s.append("`");
                s
            },
            Error::ParseInt { because } => because.clone(),
            Error::ParseBool { because } => because.clone(),
            Error::FirebaseUserMissingGoogleIdentity => {
                "Firebase ID token is missing Google identity claims".to_owned()
            },
            Error::InvalidRedirectUrl { because } => because.clone(),
            Error::FailedToExtractAuthCookie { because } => {
                let mut s = "Failed to extract auth info: ".to_owned();
                s.append(because.as_str());
                s
            },
            Error::MissingRedirectUrl => {
                "Request is missing a valid redirect_to query param or Referer header".to_owned()
            },
        }
    }
}

} // verus!
