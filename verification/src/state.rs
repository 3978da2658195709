//! The application state assembled once at process start: cookie naming
//! and lifetime, the store collection, the revocation policy, and the
//! server-side redirect URI path.

use crate::error::Error;
use crate::text::{parse_bool, parse_u16, spec_all_digits, spec_dec_value};
use vstd::prelude::*;
use vstd::string::StringExecFns;

verus! {

/// The optional environment-provided overrides the state is built from;
/// a missing entry falls back to the default.
#[derive(Debug)]
pub struct AppSettings {
    /// Overrides the server-side redirect URI path.
    pub redirect_uri_path: Option<String>,
    /// Overrides the session cookie's name.
    pub cookie_name: Option<String>,
    /// Overrides the session cookie's lifetime in seconds, as a decimal.
    pub cookie_max_age: Option<String>,
    /// Overrides the store collection name.
    pub firestore_collection: Option<String>,
    /// Overrides the pre-overwrite revocation policy, as `true`/`false`.
    pub enable_existing_token_revocation: Option<String>,
}

impl AppSettings {
    /// A settings object with nothing overridden.
    pub fn none() -> (r: AppSettings)
        ensures
            r.redirect_uri_path is None,
            r.cookie_name is None,
            r.cookie_max_age is None,
            r.firestore_collection is None,
            r.enable_existing_token_revocation is None,
    {
        AppSettings {
            redirect_uri_path: None,
            cookie_name: None,
            cookie_max_age: None,
            firestore_collection: None,
            enable_existing_token_revocation: None,
        }
    }
}

/// The process-wide configuration of the web layer, built once and passed
/// by reference; no hidden mutable state.
#[derive(Debug)]
pub struct AppState {
    cookie_name: String,
    cookie_max_age: u16,
    enable_existing_token_revocation: bool,
    firestore_collection_name: String,
    redirect_uri_path: String,
}

impl AppState {
    /// The cookie name, abstractly.
    pub closed spec fn spec_cookie_name(&self) -> Seq<char> {
        self.cookie_name@
    }

    /// The cookie lifetime, abstractly.
    pub closed spec fn spec_cookie_max_age(&self) -> u16 {
        self.cookie_max_age
    }

    /// The revocation policy, abstractly.
    pub closed spec fn spec_enable_existing_token_revocation(&self) -> bool {
        self.enable_existing_token_revocation
    }

    /// The store collection name, abstractly.
    pub closed spec fn spec_firestore_collection_name(&self) -> Seq<char> {
        self.firestore_collection_name@
    }

    /// The redirect URI path, abstractly.
    pub closed spec fn spec_redirect_uri_path(&self) -> Seq<char> {
        self.redirect_uri_path@
    }

    /// Builds the state from environment-provided values, filling defaults
    /// for absent entries: path `/callback`, cookie `FIREAUTH2_SESSION`
    /// living 180 seconds, collection `googleUsers`, revocation off. A
    /// lifetime that is not a `u16` decimal or a flag that is not
    /// `true`/`false` is rejected.
    pub fn from_env(settings: &AppSettings) -> (r: Result<AppState, Error>)
        ensures
            match r {
                Ok(st) => {
                    &&& st.spec_redirect_uri_path() == match settings.redirect_uri_path {
                        Some(v) => v@,
                        None => "/callback"@,
                    }
                    &&& st.spec_cookie_name() == match settings.cookie_name {
                        Some(v) => v@,
                        None => "FIREAUTH2_SESSION"@,
                    }
                    &&& match settings.cookie_max_age {
                        Some(v) => st.spec_cookie_max_age() as int == spec_dec_value(v@),
                        None => st.spec_cookie_max_age() == 180u16,
                    }
                    &&& st.spec_firestore_collection_name() == match settings.firestore_collection {
                        Some(v) => v@,
                        None => "googleUsers"@,
                    }
                    &&& match settings.enable_existing_token_revocation {
                        Some(v) => (st.spec_enable_existing_token_revocation() <==> v@ == "true"@)
                            && (v@ == "true"@ || v@ == "false"@),
                        None => st.spec_enable_existing_token_revocation() == false,
                    }
                },
                Err(e) => match e {
                    Error::ParseInt { .. } => settings.cookie_max_age matches Some(v) && (v@.len()
                        == 0 || !spec_all_digits(v@) || spec_dec_value(v@) > u16::MAX as int),
                    Error::ParseBool { .. } => settings.enable_existing_token_revocation matches Some(
                        v,
                    ) && v@ != "true"@ && v@ != "false"@,
                    _ => false,
                },
            },
    {
        let redirect_uri_path = match &settings.redirect_uri_path {
            Some(v) => v.clone(),
            None => "/callback".to_owned(),
        };
        let cookie_name = match &settings.cookie_name {
            Some(v) => v.clone(),
            None => "FIREAUTH2_SESSION".to_owned(),
        };
        let cookie_max_age: u16 = match &settings.cookie_max_age {
            Some(v) => match parse_u16(v.as_str()) {
                Some(n) => n,
                None => {
                    return Err(
                        Error::ParseInt {
                            because: "invalid session cookie max age".to_owned(),
                        },
                    );
                },
            },
            None => 180,
        };
        let firestore_collection_name = match &settings.firestore_collection {
            Some(v) => v.clone(),
            None => "googleUsers".to_owned(),
        };
        let enable_existing_token_revocation: bool = match &settings
            .enable_existing_token_revocation {
            Some(v) => match parse_bool(v.as_str()) {
                Some(b) => b,
                None => {
                    return Err(
                        Error::ParseBool {
                            because: "invalid token revocation flag".to_owned(),
                        },
                    );
                },
            },
            None => false,
        };
        Ok(
            AppState {
                cookie_name,
                cookie_max_age,
                enable_existing_token_revocation,
                firestore_collection_name,
                redirect_uri_path,
            },
        )
    }

    /// The server-side redirect URI path of the flow.
    pub fn redirect_uri_path(&self) -> (r: &str)
        ensures
            r@ == self.spec_redirect_uri_path(),
    {
        self.redirect_uri_path.as_str()
    }

    /// The session cookie's name.
    pub fn cookie_name(&self) -> (r: &str)
        ensures
            r@ == self.spec_cookie_name(),
    {
        self.cookie_name.as_str()
    }

    /// The session cookie's lifetime in seconds.
    pub fn cookie_max_age(&self) -> (r: u16)
        ensures
            r == self.spec_cookie_max_age(),
    {
        self.cookie_max_age
    }

    /// The store collection user records are kept in.
    pub fn firestore_collection_name(&self) -> (r: &str)
        ensures
            r@ == self.spec_firestore_collection_name(),
    {
        self.firestore_collection_name.as_str()
    }

    /// Whether a stored refresh token is revoked before being overwritten.
    pub fn enable_existing_token_revocation(&self) -> (r: bool)
        ensures
            r == self.spec_enable_existing_token_revocation(),
    {
        self.enable_existing_token_revocation
    }

    /// The provider-facing redirect URI of this deployment: the request's
    /// origin with the configured callback path, validated as a URL.
    /// Succeeds exactly when the composed origin string parses.
    pub fn get_redirect_uri_from_request(&self, scheme: &str, host: &str) -> (r: Result<
        String,
        Error,
    >)
        ensures
            r is Ok <==> crate::authorize::spec_url_parses(
                scheme@ + "://"@ + host@ + self.spec_redirect_uri_path(),
            ),
            r matches Ok(u) ==> u@ == crate::authorize::spec_parsed_url(
                scheme@ + "://"@ + host@ + self.spec_redirect_uri_path(),
            ),
            r matches Err(e) ==> e matches Error::UrlParse { .. },
    {
        let mut origin = scheme.to_owned();
        origin.append("://");
        origin.append(host);
        origin.append(self.redirect_uri_path.as_str());
        crate::authorize::validate_redirect_target(origin.as_str())
    }
}

} // verus!
