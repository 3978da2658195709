//! Token introspection: only identity tokens may be introspected; an
//! access-token hint is rejected before any verification is attempted.

use vstd::prelude::*;

verus! {

/// The caller's hint about the kind of token handed in.
#[derive(Clone, Copy, PartialEq, Eq, Structural, Debug)]
pub enum TokenIntrospectionTypeHint {
    /// The token is an access token.
    AccessToken,
    /// The token is an identity token (the default).
    IdToken,
}

impl Default for TokenIntrospectionTypeHint {
    /// A missing hint is read as an identity token.
    fn default() -> (r: Self)
        ensures
            r == TokenIntrospectionTypeHint::IdToken,
    {
        TokenIntrospectionTypeHint::IdToken
    }
}

impl TokenIntrospectionTypeHint {
    /// Parses the wire values `access_token` and `id_token`.
    pub fn parse(s: &str) -> (r: Option<TokenIntrospectionTypeHint>)
        ensures
            r == Some(TokenIntrospectionTypeHint::AccessToken) <==> s@ == "access_token"@,
            r == Some(TokenIntrospectionTypeHint::IdToken) <==> s@ == "id_token"@,
            r is None <==> (s@ != "access_token"@ && s@ != "id_token"@),
    {
        proof {
            reveal_strlit("access_token");
            reveal_strlit("id_token");
            assert("access_token"@.len() != "id_token"@.len());
        }
        if crate::text::str_eq(s, "access_token") {
            Some(TokenIntrospectionTypeHint::AccessToken)
        } else if crate::text::str_eq(s, "id_token") {
            Some(TokenIntrospectionTypeHint::IdToken)
        } else {
            None
        }
    }
}

/// An introspection request: the token and the caller's type hint.
pub struct TokenIntrospectionPayload {
    token: String,
    token_type_hint: TokenIntrospectionTypeHint,
}

impl TokenIntrospectionPayload {
    /// Pairs a token with its type hint.
    pub fn new(token: String, token_type_hint: TokenIntrospectionTypeHint) -> (r:
        TokenIntrospectionPayload)
        ensures
            r.spec_token() == token@,
            r.spec_token_type_hint() == token_type_hint,
    {
        TokenIntrospectionPayload { token, token_type_hint }
    }

    /// The token, abstractly.
    pub closed spec fn spec_token(&self) -> Seq<char> {
        self.token@
    }

    /// The hint, abstractly.
    pub closed spec fn spec_token_type_hint(&self) -> TokenIntrospectionTypeHint {
        self.token_type_hint
    }

    /// The token under introspection.
    pub fn token(&self) -> (r: &str)
        ensures
            r@ == self.spec_token(),
    {
        self.token.as_str()
    }

    /// The caller's type hint.
    pub fn token_type_hint(&self) -> (r: &TokenIntrospectionTypeHint)
        ensures
            r == self.spec_token_type_hint(),
    {
        &self.token_type_hint
    }
}

/// What the introspection endpoint does with a request.
pub enum IntrospectionDecision {
    /// Verify the identity token and return its claims.
    VerifyIdToken {
        /// The token to verify.
        token: String,
    },
    /// Refuse the request: access tokens are not introspected here.
    Reject {
        /// The message of the refusal.
        message: String,
    },
}

/// Decides an introspection request: identity tokens go to the verifier;
/// an access-token hint is refused with a fixed message and nothing is
/// verified.
pub fn decide_introspection(payload: &TokenIntrospectionPayload) -> (r: IntrospectionDecision)
    ensures
        match r {
            IntrospectionDecision::VerifyIdToken { token } => payload.spec_token_type_hint()
                == TokenIntrospectionTypeHint::IdToken && token@ == payload.spec_token(),
            IntrospectionDecision::Reject { message } => payload.spec_token_type_hint()
                == TokenIntrospectionTypeHint::AccessToken && message@
                == "access_token introspection not allowed"@,
        },
{
    match payload.token_type_hint {
        TokenIntrospectionTypeHint::IdToken => IntrospectionDecision::VerifyIdToken {
            token: payload.token.clone(),
        },
        TokenIntrospectionTypeHint::AccessToken => IntrospectionDecision::Reject {
            message: "access_token introspection not allowed".to_owned(),
        },
    }
}

} // verus!
