//! Typed representation and normalization of the optional authorization
//! parameters (`access_type`, `prompt`, `include_granted_scopes`,
//! `login_hint`) and their serialization to provider query parameters.

use crate::error::Error;
use crate::text::{
    chars_eq_str, chars_to_string, spec_sep_pred, spec_tokens, string_chars, tokenize,
};
use vstd::prelude::*;
use vstd::string::StringExecFns;

verus! {

/// Whether the application may refresh access tokens while the user is away
/// from the browser. `offline` asks the authorization server to issue a
/// refresh token on the first code exchange.
#[derive(Clone, Copy, PartialEq, Eq, Structural, Debug)]
pub enum AccessType {
    /// Access tokens are only usable while the user is present (default).
    Online,
    /// The server may issue a refresh token for unattended renewal.
    Offline,
}

impl AccessType {
    /// The wire value of this access type.
    pub open spec fn spec_serialized(self) -> Seq<char> {
        match self {
            AccessType::Online => "online"@,
            AccessType::Offline => "offline"@,
        }
    }

    /// The wire value of this access type, as sent to the provider.
    pub fn serialized(&self) -> (r: String)
        ensures
            r@ == self.spec_serialized(),
    {
        match self {
            AccessType::Online => "online".to_owned(),
            AccessType::Offline => "offline".to_owned(),
        }
    }

    /// Parses the wire values `"online"` and `"offline"`.
    pub fn parse(s: &str) -> (r: Option<AccessType>)
        ensures
            r == Some(AccessType::Online) <==> s@ == "online"@,
            r == Some(AccessType::Offline) <==> s@ == "offline"@,
            r is None <==> (s@ != "online"@ && s@ != "offline"@),
    {
        proof {
            reveal_strlit("online");
            reveal_strlit("offline");
            assert("online"@.len() != "offline"@.len());
        }
        if crate::text::str_eq(s, "online") {
            Some(AccessType::Online)
        } else if crate::text::str_eq(s, "offline") {
            Some(AccessType::Offline)
        } else {
            None
        }
    }
}

impl Default for AccessType {
    /// The provider treats a missing `access_type` as `online`.
    fn default() -> (r: Self)
        ensures
            r == AccessType::Online,
    {
        AccessType::Online
    }
}

/// A single `prompt` value: whether the authorization server re-prompts the
/// user for authentication, consent, or account selection.
#[derive(Clone, Copy, PartialEq, Eq, Structural, Debug)]
pub enum Prompt {
    /// No screens are shown; the server errors if interaction is needed.
    NoPrompt,
    /// The user is asked for consent before data is returned (default).
    Consent,
    /// The user is asked to pick one of their accounts.
    SelectAccount,
}

impl Prompt {
    /// The wire value of this prompt.
    pub open spec fn spec_serialized(self) -> Seq<char> {
        match self {
            Prompt::NoPrompt => "none"@,
            Prompt::Consent => "consent"@,
            Prompt::SelectAccount => "select_account"@,
        }
    }

    /// The wire value of this prompt, as sent to the provider.
    pub fn serialized(&self) -> (r: String)
        ensures
            r@ == self.spec_serialized(),
    {
        match self {
            Prompt::NoPrompt => "none".to_owned(),
            Prompt::Consent => "consent".to_owned(),
            Prompt::SelectAccount => "select_account".to_owned(),
        }
    }

    /// The prompt a token stands for, if it is one of the three wire values.
    pub open spec fn spec_parse(t: Seq<char>) -> Option<Prompt> {
        if t == "none"@ {
            Some(Prompt::NoPrompt)
        } else if t == "consent"@ {
            Some(Prompt::Consent)
        } else if t == "select_account"@ {
            Some(Prompt::SelectAccount)
        } else {
            None
        }
    }

    /// Parses one prompt token; anything but the three wire values is
    /// rejected with an invalid-prompt error carrying the offending token.
    pub fn parse(s: &str) -> (r: Result<Prompt, Error>)
        ensures
            match r {
                Ok(p) => Prompt::spec_parse(s@) == Some(p),
                Err(e) => e matches Error::InvalidPromptValue(t) && t@ == s@ && Prompt::spec_parse(
                    s@,
                ) is None,
            },
    {
        let chars = string_chars(s);
        match Self::parse_chars(&chars) {
            Some(p) => Ok(p),
            None => Err(Error::InvalidPromptValue(s.to_owned())),
        }
    }

    /// Parses one prompt token given as characters.
    fn parse_chars(t: &Vec<char>) -> (r: Option<Prompt>)
        ensures
            r == Prompt::spec_parse(t@),
    {
        proof {
            reveal_strlit("none");
            reveal_strlit("consent");
            reveal_strlit("select_account");
            assert("none"@.len() != "consent"@.len());
            assert("none"@.len() != "select_account"@.len());
            assert("consent"@.len() != "select_account"@.len());
        }
        if chars_eq_str(t, "none") {
            Some(Prompt::NoPrompt)
        } else if chars_eq_str(t, "consent") {
            Some(Prompt::Consent)
        } else if chars_eq_str(t, "select_account") {
            Some(Prompt::SelectAccount)
        } else {
            None
        }
    }
}

impl Default for Prompt {
    /// A missing prompt defaults to asking for consent.
    fn default() -> (r: Self)
        ensures
            r == Prompt::Consent,
    {
        Prompt::Consent
    }
}

/// The ordered list of `prompt` values chosen for an authorization request,
/// serialized as a space-joined string.
#[derive(Clone, Debug)]
pub struct PromptList(pub Vec<Prompt>);

/// The space-joined serialization of a prompt list; empty for an empty list.
pub open spec fn spec_prompt_list_str(ps: Seq<Prompt>) -> Seq<char>
    decreases ps.len(),
{
    if ps.len() == 0 {
        Seq::empty()
    } else if ps.len() == 1 {
        ps[0].spec_serialized()
    } else {
        ps[0].spec_serialized() + " "@ + spec_prompt_list_str(ps.drop_first())
    }
}

/// The prompts named by a sequence of tokens, or the first token that is
/// not a prompt.
pub open spec fn spec_parse_prompt_tokens(ts: Seq<Seq<char>>) -> Result<Seq<Prompt>, Seq<char>>
    decreases ts.len(),
{
    if ts.len() == 0 {
        Ok(Seq::empty())
    } else {
        match Prompt::spec_parse(ts[0]) {
            Some(p) => match spec_parse_prompt_tokens(ts.drop_first()) {
                Ok(rest) => Ok(seq![p] + rest),
                Err(t) => Err(t),
            },
            None => Err(ts[0]),
        }
    }
}

/// The result of parsing a prompt string: its whitespace- or
/// comma-separated tokens, each read as a prompt value.
pub open spec fn spec_parse_prompt_str(s: Seq<char>) -> Result<Seq<Prompt>, Seq<char>> {
    spec_parse_prompt_tokens(spec_tokens(s, spec_sep_pred(true)))
}

impl PromptList {
    /// Parses a comma- or space-separated prompt string. Empty segments are
    /// skipped; a token outside the three known values fails with an
    /// invalid-prompt error naming that token.
    pub fn parse_str(s: &str) -> (r: Result<PromptList, Error>)
        ensures
            match r {
                Ok(pl) => spec_parse_prompt_str(s@) == Ok::<Seq<Prompt>, Seq<char>>(pl.0@),
                Err(e) => e matches Error::InvalidPromptValue(t) && spec_parse_prompt_str(s@)
                    == Err::<Seq<Prompt>, Seq<char>>(t@),
            },
    {
        let chars = string_chars(s);
        let tokens = tokenize(&chars, true);
        let mut prompts: Vec<Prompt> = Vec::new();
        let ghost ts = tokens@.map_values(|t: Vec<char>| t@);
        assert(ts == spec_tokens(s@, spec_sep_pred(true)));
        let mut i: usize = 0;
        proof {
            assert(ts.skip(0) =~= ts);
            if spec_parse_prompt_tokens(ts) is Ok {
                let rest = spec_parse_prompt_tokens(ts)->Ok_0;
                assert(prompts@ + rest =~= rest);
            }
        }
        while i < tokens.len()
            invariant
                i <= tokens@.len(),
                ts == tokens@.map_values(|t: Vec<char>| t@),
                ts == spec_tokens(s@, spec_sep_pred(true)),
                match spec_parse_prompt_tokens(ts.skip(i as int)) {
                    Ok(rest) => spec_parse_prompt_tokens(ts) == Ok::<Seq<Prompt>, Seq<char>>(
                        prompts@ + rest,
                    ),
                    Err(t) => spec_parse_prompt_tokens(ts) == Err::<Seq<Prompt>, Seq<char>>(t),
                },
            decreases tokens@.len() - i,
        {
            proof {
                assert(ts.skip(i as int)[0] == ts[i as int]);
                assert(ts[i as int] == tokens@[i as int]@);
            }
            let ghost prev = prompts@;
            match Prompt::parse_chars(&tokens[i]) {
                Some(p) => {
                    prompts.push(p);
                    i += 1;
                    proof {
                        assert(ts.skip(i - 1 as int).drop_first() =~= ts.skip(i as int));
                        if spec_parse_prompt_tokens(ts.skip(i as int)) is Ok {
                            let rest = spec_parse_prompt_tokens(ts.skip(i as int))->Ok_0;
                            assert(prev + (seq![p] + rest) =~= prompts@ + rest);
                        }
                    }
                },
                None => {
                    proof {
                        assert(ts.skip(i as int).len() > 0);
                        assert(spec_parse_prompt_tokens(ts.skip(i as int)) == Err::<
                            Seq<Prompt>,
                            Seq<char>,
                        >(ts[i as int]));

                    }
                    let token_string = chars_to_string(&tokens[i]);
                    assert(token_string@ == ts[i as int]);
                    return Err(Error::InvalidPromptValue(token_string));
                },
            }
        }
        assert(ts.skip(i as int) =~= Seq::empty());
        assert(spec_parse_prompt_tokens(ts) == Ok::<Seq<Prompt>, Seq<char>>(prompts@ + Seq::empty()));
        assert(prompts@ + Seq::<Prompt>::empty() =~= prompts@);
        Ok(PromptList(prompts))
    }

    /// Parses a list of prompt tokens, as given in an array-valued request.
    pub fn parse_items(items: &Vec<String>) -> (r: Result<PromptList, Error>)
        ensures
            match r {
                Ok(pl) => spec_parse_prompt_tokens(items@.map_values(|s: String| s@)) == Ok::<
                    Seq<Prompt>,
                    Seq<char>,
                >(pl.0@),
                Err(e) => e matches Error::InvalidPromptValue(t) && spec_parse_prompt_tokens(
                    items@.map_values(|s: String| s@),
                ) == Err::<Seq<Prompt>, Seq<char>>(t@),
            },
    {
        let ghost ts = items@.map_values(|s: String| s@);
        let mut prompts: Vec<Prompt> = Vec::new();
        let mut i: usize = 0;
        proof {
            assert(ts.skip(0) =~= ts);
            if spec_parse_prompt_tokens(ts) is Ok {
                let rest = spec_parse_prompt_tokens(ts)->Ok_0;
                assert(prompts@ + rest =~= rest);
            }
        }
        while i < items.len()
            invariant
                i <= items@.len(),
                ts == items@.map_values(|s: String| s@),
                match spec_parse_prompt_tokens(ts.skip(i as int)) {
                    Ok(rest) => spec_parse_prompt_tokens(ts) == Ok::<Seq<Prompt>, Seq<char>>(
                        prompts@ + rest,
                    ),
                    Err(t) => spec_parse_prompt_tokens(ts) == Err::<Seq<Prompt>, Seq<char>>(t),
                },
            decreases items@.len() - i,
        {
            proof {
                assert(ts.skip(i as int)[0] == ts[i as int]);
                assert(ts[i as int] == items@[i as int]@);
            }
            let ghost prev = prompts@;
            let chars = string_chars(items[i].as_str());
            match Prompt::parse_chars(&chars) {
                Some(p) => {
                    prompts.push(p);
                    i += 1;
                    proof {
                        assert(ts.skip(i - 1 as int).drop_first() =~= ts.skip(i as int));
                        if spec_parse_prompt_tokens(ts.skip(i as int)) is Ok {
                            let rest = spec_parse_prompt_tokens(ts.skip(i as int))->Ok_0;
                            assert(prev + (seq![p] + rest) =~= prompts@ + rest);
                        }
                    }
                },
                None => {
                    proof {
                        assert(ts.skip(i as int).len() > 0);
                        assert(spec_parse_prompt_tokens(ts.skip(i as int)) == Err::<
                            Seq<Prompt>,
                            Seq<char>,
                        >(ts[i as int]));
                    }
                    return Err(Error::InvalidPromptValue(items[i].clone()));
                },
            }
        }
        assert(ts.skip(i as int) =~= Seq::empty());
        assert(spec_parse_prompt_tokens(ts) == Ok::<Seq<Prompt>, Seq<char>>(prompts@ + Seq::empty()));
        assert(prompts@ + Seq::<Prompt>::empty() =~= prompts@);
        Ok(PromptList(prompts))
    }

    /// The space-joined wire value of this prompt list.
    pub fn serialized(&self) -> (r: String)
        ensures
            r@ == spec_prompt_list_str(self.0@),
    {
        let mut out = String::new();
        let mut i: usize = 0;
        proof {
            assert(self.0@.skip(0) =~= self.0@);
            assert(out@ + spec_prompt_list_str(self.0@) =~= spec_prompt_list_str(self.0@));
        }
        while i < self.0.len()
            invariant
                i <= self.0@.len(),
                spec_prompt_list_str(self.0@) == out@ + spec_prompt_list_str(self.0@.skip(i as int)),
                i > 0 && i < self.0@.len() ==> out@.len() > 0 && out@.last() == ' ',
                i == 0 ==> out@ =~= Seq::<char>::empty(),
            decreases self.0@.len() - i,
        {
            assert(self.0@.skip(i as int)[0] == self.0@[i as int]);
            let piece = self.0[i].serialized();
            out.append(piece.as_str());
            if i + 1 < self.0.len() {
                out.append(" ");
                proof {
                    reveal_strlit(" ");
                }
            }
            i += 1;
            assert(self.0@.skip(i - 1 as int).drop_first() =~= self.0@.skip(i as int));
        }
        assert(self.0@.skip(i as int) =~= Seq::<Prompt>::empty());
        assert(out@ =~= out@ + Seq::<char>::empty());
        out
    }
}

impl Default for PromptList {
    /// A missing prompt parameter defaults to a single consent prompt.
    fn default() -> (r: Self)
        ensures
            r.0@ =~= seq![Prompt::Consent],
    {
        let mut v: Vec<Prompt> = Vec::new();
        v.push(Prompt::Consent);
        PromptList(v)
    }
}

/// The `include_granted_scopes` flag: whether a granted authorization is
/// merged with the scopes the user granted earlier.
#[derive(Clone, Copy, PartialEq, Eq, Structural, Debug)]
pub struct IncludeGrantedScopes(pub bool);

impl IncludeGrantedScopes {
    /// The flag's value.
    pub fn value(&self) -> (r: bool)
        ensures
            r == self.0,
    {
        self.0
    }

    /// The wire value of the flag.
    pub open spec fn spec_serialized(self) -> Seq<char> {
        if self.0 {
            "true"@
        } else {
            "false"@
        }
    }

    /// The wire value of the flag, as sent to the provider.
    pub fn serialized(&self) -> (r: String)
        ensures
            r@ == self.spec_serialized(),
    {
        if self.0 {
            "true".to_owned()
        } else {
            "false".to_owned()
        }
    }

    /// Parses the literal strings `"true"` and `"false"`; anything else is
    /// rejected with an error naming the accepted spellings.
    pub fn parse_str(s: &str) -> (r: Result<IncludeGrantedScopes, Error>)
        ensures
            r == Ok::<IncludeGrantedScopes, Error>(IncludeGrantedScopes(true)) <==> s@ == "true"@,
            r == Ok::<IncludeGrantedScopes, Error>(IncludeGrantedScopes(false)) <==> s@
                == "false"@,
            r is Err <==> (s@ != "true"@ && s@ != "false"@),
            r matches Err(e) ==> e matches Error::ParseBool { because } && because@
                == "expected \"true\", \"false\", true, or false"@,
    {
        match crate::text::parse_bool(s) {
            Some(b) => Ok(IncludeGrantedScopes(b)),
            None => Err(
                Error::ParseBool {
                    because: "expected \"true\", \"false\", true, or false".to_owned(),
                },
            ),
        }
    }
}

impl Default for IncludeGrantedScopes {
    /// Previously granted scopes are included unless switched off.
    fn default() -> (r: Self)
        ensures
            r == IncludeGrantedScopes(true),
    {
        IncludeGrantedScopes(true)
    }
}

/// The name of an extra authorization query parameter.
#[derive(Clone, Copy, PartialEq, Eq, Structural, Debug)]
pub enum ExtraParam {
    /// The `access_type` parameter.
    AccessType,
    /// The `include_granted_scopes` parameter.
    IncludeGrantedScopes,
    /// The `login_hint` parameter.
    LoginHint,
    /// The `prompt` parameter.
    Prompt,
}

impl ExtraParam {
    /// The parameter's key on the wire.
    pub open spec fn spec_key(self) -> Seq<char> {
        match self {
            ExtraParam::AccessType => "access_type"@,
            ExtraParam::IncludeGrantedScopes => "include_granted_scopes"@,
            ExtraParam::LoginHint => "login_hint"@,
            ExtraParam::Prompt => "prompt"@,
        }
    }

    /// The parameter's key as an owned string.
    pub fn into_cow(&self) -> (r: String)
        ensures
            r@ == self.spec_key(),
    {
        match self {
            ExtraParam::AccessType => "access_type".to_owned(),
            ExtraParam::IncludeGrantedScopes => "include_granted_scopes".to_owned(),
            ExtraParam::LoginHint => "login_hint".to_owned(),
            ExtraParam::Prompt => "prompt".to_owned(),
        }
    }
}

/// Conversion of one parameter value into a single key/value pair.
pub trait IntoExtraParam {
    /// Converts `self` into an `(ExtraParam, String)` pair.
    fn into_extra_param(self) -> (ExtraParam, String);
}

/// Conversion of a parameter set into the key/value pairs appended to the
/// authorization request.
pub trait ToExtraParams {
    /// Converts `self` into a list of `(ExtraParam, String)` pairs suitable
    /// for use as authorization query parameters.
    fn to_extra_params(&self) -> Vec<(ExtraParam, String)>;
}

impl IntoExtraParam for AccessType {
    fn into_extra_param(self) -> (ExtraParam, String) {
        (ExtraParam::AccessType, self.serialized())
    }
}

impl IntoExtraParam for IncludeGrantedScopes {
    fn into_extra_param(self) -> (ExtraParam, String) {
        (ExtraParam::IncludeGrantedScopes, self.serialized())
    }
}

impl IntoExtraParam for PromptList {
    fn into_extra_param(self) -> (ExtraParam, String) {
        (ExtraParam::Prompt, self.serialized())
    }
}

/// The abstract value of a parameter set.
pub struct ExtraParamsView {
    /// Whether previously granted scopes are included in this grant.
    pub include_granted_scopes: bool,
    /// A hint naming the account to authenticate, omitted when absent.
    pub login_hint: Option<Seq<char>>,
    /// Whether a refresh token is requested.
    pub access_type: AccessType,
    /// The consent prompts shown to the user.
    pub prompt: Seq<Prompt>,
}

/// The normalized set of optional authorization parameters chosen at
/// authorization time and replayed unchanged at exchange time.
#[derive(Clone, Debug)]
pub struct RequestAccessTokenExtraParams {
    /// Whether previously granted scopes are included in this grant.
    pub include_granted_scopes: IncludeGrantedScopes,
    /// A hint naming the account to authenticate, omitted when absent.
    pub login_hint: Option<String>,
    /// Whether a refresh token is requested.
    pub access_type: AccessType,
    /// The consent prompts shown to the user.
    pub prompt: PromptList,
}

impl View for RequestAccessTokenExtraParams {
    type V = ExtraParamsView;

    open spec fn view(&self) -> ExtraParamsView {
        ExtraParamsView {
            include_granted_scopes: self.include_granted_scopes.0,
            login_hint: match self.login_hint {
                Some(h) => Some(h@),
                None => None,
            },
            access_type: self.access_type,
            prompt: self.prompt.0@,
        }
    }
}

/// The exact pairs a parameter set serializes to: `access_type` first, the
/// granted-scopes flag only when set, the login hint only when present, and
/// `prompt` always last.
pub open spec fn spec_extra_params(p: ExtraParamsView) -> Seq<(ExtraParam, Seq<char>)> {
    let head = seq![(ExtraParam::AccessType, p.access_type.spec_serialized())];
    let igs = if p.include_granted_scopes {
        seq![(ExtraParam::IncludeGrantedScopes, "true"@)]
    } else {
        Seq::empty()
    };
    let hint = match p.login_hint {
        Some(h) => seq![(ExtraParam::LoginHint, h)],
        None => Seq::empty(),
    };
    let tail = seq![(ExtraParam::Prompt, spec_prompt_list_str(p.prompt))];
    head + igs + hint + tail
}

impl RequestAccessTokenExtraParams {
    /// A parameter set with every field at its default.
    pub fn new_default() -> (r: RequestAccessTokenExtraParams)
        ensures
            r.include_granted_scopes == IncludeGrantedScopes(true),
            r.login_hint is None,
            r.access_type == AccessType::Online,
            r.prompt.0@ =~= seq![Prompt::Consent],
    {
        RequestAccessTokenExtraParams {
            include_granted_scopes: IncludeGrantedScopes(true),
            login_hint: None,
            access_type: AccessType::Online,
            prompt: PromptList::default(),
        }
    }

    /// Serializes the parameter set to the pairs appended to the provider
    /// authorization request. `access_type` and `prompt` are always present,
    /// even at their defaults.
    pub fn to_extra_params(&self) -> (r: Vec<(ExtraParam, String)>)
        ensures
            r@.map_values(|p: (ExtraParam, String)| (p.0, p.1@)) == spec_extra_params(self@),
    {
        let mut params: Vec<(ExtraParam, String)> = Vec::new();
        params.push((ExtraParam::AccessType, self.access_type.serialized()));
        if self.include_granted_scopes.value() {
            params.push((ExtraParam::IncludeGrantedScopes, self.include_granted_scopes.serialized()));
        }
        match &self.login_hint {
            Some(hint) => {
                params.push((ExtraParam::LoginHint, hint.clone()));
            },
            None => {},
        }
        params.push((ExtraParam::Prompt, self.prompt.serialized()));
        assert(params@.map_values(|p: (ExtraParam, String)| (p.0, p.1@)) =~= spec_extra_params(
            self@,
        ));
        params
    }
}

impl ToExtraParams for RequestAccessTokenExtraParams {
    fn to_extra_params(&self) -> Vec<(ExtraParam, String)> {
        RequestAccessTokenExtraParams::to_extra_params(self)
    }
}

/// However a parameter set is chosen, its serialization names `access_type`
/// first and `prompt` last, so both reach the provider even when every field
/// is at its default.
pub proof fn lemma_extra_params_always_named(p: ExtraParamsView)
    ensures
        spec_extra_params(p).len() >= 2,
        spec_extra_params(p).first() == (ExtraParam::AccessType, p.access_type.spec_serialized()),
        spec_extra_params(p).last() == (ExtraParam::Prompt, spec_prompt_list_str(p.prompt)),
{
}

} // verus!
