//! The session codec: the ephemeral per-flow state (PKCE verifier, CSRF
//! token, final redirect target, chosen parameters) encoded into the value
//! of a short-lived cookie and decoded back on the callback.
//!
//! The payload is a JSON object in a fixed canonical shape; the decoder
//! accepts exactly what the encoder produces and rejects everything else
//! with the extraction error, which no downstream failure shares.

use crate::error::Error;
use crate::params::{
    AccessType, ExtraParamsView, IncludeGrantedScopes, Prompt, PromptList,
    RequestAccessTokenExtraParams,
};
use crate::text::{chars_to_string, string_chars, u64_to_string};
use vstd::prelude::*;
use vstd::string::{StrSliceExecFns, StringExecFns};

verus! {

/// The abstract value of a session.
pub struct SessionView {
    /// The PKCE verifier generated at authorization time.
    pub pkce_verifier: Seq<char>,
    /// The anti-CSRF token generated at authorization time.
    pub csrf_token: Seq<char>,
    /// Where the browser is sent after the flow ends.
    pub redirect_to: Seq<char>,
    /// The parameter set replayed at exchange time.
    pub extra_params: ExtraParamsView,
}

/// The per-flow state carried in the client-held cookie: the only state
/// linking the authorization request to its callback.
pub struct Session {
    /// The PKCE verifier generated at authorization time.
    pub pkce_verifier: String,
    /// The anti-CSRF token generated at authorization time.
    pub csrf_token: String,
    /// Where the browser is sent after the flow ends.
    pub redirect_to: String,
    /// The parameter set replayed at exchange time.
    pub extra_params: RequestAccessTokenExtraParams,
}

impl View for Session {
    type V = SessionView;

    open spec fn view(&self) -> SessionView {
        SessionView {
            pkce_verifier: self.pkce_verifier@,
            csrf_token: self.csrf_token@,
            redirect_to: self.redirect_to@,
            extra_params: self.extra_params@,
        }
    }
}

/// The escape of one character inside a JSON string: backslash and quote
/// get a backslash; everything else stands for itself.
pub open spec fn spec_esc_char(c: char) -> Seq<char> {
    if c == '\\' {
        seq!['\\', '\\']
    } else if c == '"' {
        seq!['\\', '"']
    } else {
        seq![c]
    }
}

/// The escaped body of a JSON string.
pub open spec fn spec_esc(s: Seq<char>) -> Seq<char>
    decreases s.len(),
{
    if s.len() == 0 {
        Seq::empty()
    } else {
        spec_esc_char(s[0]) + spec_esc(s.drop_first())
    }
}

/// A quoted, escaped JSON string.
pub open spec fn spec_json_string(s: Seq<char>) -> Seq<char> {
    seq!['"'] + spec_esc(s) + seq!['"']
}

/// The quoted wire name of a prompt.
pub open spec fn spec_prompt_json(p: Prompt) -> Seq<char> {
    seq!['"'] + p.spec_serialized() + seq!['"']
}

/// The comma-joined quoted prompt names inside the array brackets.
pub open spec fn spec_prompt_items(ps: Seq<Prompt>) -> Seq<char>
    decreases ps.len(),
{
    if ps.len() == 0 {
        Seq::empty()
    } else if ps.len() == 1 {
        spec_prompt_json(ps[0])
    } else {
        spec_prompt_json(ps[0]) + seq![','] + spec_prompt_items(ps.drop_first())
    }
}

/// The serialized truth value.
pub open spec fn spec_bool_json(b: bool) -> Seq<char> {
    if b {
        "true"@
    } else {
        "false"@
    }
}

/// The serialized login hint: `null` when absent, a JSON string otherwise.
pub open spec fn spec_hint_json(h: Option<Seq<char>>) -> Seq<char> {
    match h {
        None => "null"@,
        Some(s) => spec_json_string(s),
    }
}

/// The canonical encoding of the extra-parameter object and the payload's
/// closing braces.
pub open spec fn spec_encode_params(p: ExtraParamsView) -> Seq<char> {
    ",\"extra_params\":{\"include_granted_scopes\":"@ + spec_bool_json(p.include_granted_scopes)
        + ",\"login_hint\":"@ + spec_hint_json(p.login_hint) + spec_encode_params_tail(p)
}

/// The canonical encoding of the access type, the prompt array, and the
/// payload's closing braces.
pub open spec fn spec_encode_params_tail(p: ExtraParamsView) -> Seq<char> {
    ",\"access_type\":"@ + seq!['"'] + p.access_type.spec_serialized() + seq!['"']
        + ",\"prompt\":"@ + seq!['['] + spec_prompt_items(p.prompt) + seq![']'] + "}}"@
}

/// The canonical cookie payload of a session: one JSON object with the
/// fields in fixed order and without extra whitespace.
pub open spec fn spec_encode_session(v: SessionView) -> Seq<char> {
    "{\"pkce_verifier\":"@ + spec_json_string(v.pkce_verifier) + ",\"csrf_token\":"@
        + spec_json_string(v.csrf_token) + ",\"redirect_to\":"@ + spec_json_string(v.redirect_to)
        + spec_encode_params(v.extra_params)
}

/// Whether `s` begins with `lit`.
pub open spec fn spec_starts_with(s: Seq<char>, lit: Seq<char>) -> bool {
    s.len() >= lit.len() && s.take(lit.len() as int) == lit
}

/// The body of a JSON string read up to and over its closing quote:
/// the decoded value and the number of characters consumed.
pub open spec fn sp_string(s: Seq<char>) -> Option<(Seq<char>, int)>
    decreases s.len(),
{
    if s.len() == 0 {
        None
    } else if s[0] == '"' {
        Some((Seq::empty(), 1))
    } else if s[0] == '\\' {
        if s.len() >= 2 && (s[1] == '\\' || s[1] == '"') {
            match sp_string(s.skip(2)) {
                Some((v, n)) => Some((seq![s[1]] + v, n + 2)),
                None => None,
            }
        } else {
            None
        }
    } else {
        match sp_string(s.drop_first()) {
            Some((v, n)) => Some((seq![s[0]] + v, n + 1)),
            None => None,
        }
    }
}

/// One quoted prompt name and the characters consumed.
pub open spec fn sp_prompt(s: Seq<char>) -> Option<(Prompt, int)> {
    if spec_starts_with(s, spec_prompt_json(Prompt::NoPrompt)) {
        Some((Prompt::NoPrompt, spec_prompt_json(Prompt::NoPrompt).len() as int))
    } else if spec_starts_with(s, spec_prompt_json(Prompt::Consent)) {
        Some((Prompt::Consent, spec_prompt_json(Prompt::Consent).len() as int))
    } else if spec_starts_with(s, spec_prompt_json(Prompt::SelectAccount)) {
        Some((Prompt::SelectAccount, spec_prompt_json(Prompt::SelectAccount).len() as int))
    } else {
        None
    }
}

/// A non-empty prompt array read up to and over its closing bracket.
pub open spec fn sp_prompt_list(s: Seq<char>) -> Option<(Seq<Prompt>, int)>
    decreases s.len(),
{
    match sp_prompt(s) {
        None => None,
        Some((p, n)) => if 0 <= n && n < s.len() {
            if s[n] == ']' {
                Some((seq![p], n + 1))
            } else if s[n] == ',' {
                match sp_prompt_list(s.skip(n + 1)) {
                    Some((ps, m)) => Some((seq![p] + ps, n + 1 + m)),
                    None => None,
                }
            } else {
                None
            }
        } else {
            None
        },
    }
}

/// The truth value at the head of `s` and the characters consumed.
pub open spec fn sp_bool(s: Seq<char>) -> Option<(bool, int)> {
    if spec_starts_with(s, "true"@) {
        Some((true, "true"@.len() as int))
    } else if spec_starts_with(s, "false"@) {
        Some((false, "false"@.len() as int))
    } else {
        None
    }
}

/// The login hint at the head of `s` and the characters consumed.
pub open spec fn sp_hint(s: Seq<char>) -> Option<(Option<Seq<char>>, int)> {
    if spec_starts_with(s, "null"@) {
        Some((None, "null"@.len() as int))
    } else if s.len() > 0 && s[0] == '"' {
        match sp_string(s.skip(1)) {
            Some((h, n)) => Some((Some(h), n + 1)),
            None => None,
        }
    } else {
        None
    }
}

/// The quoted access type at the head of `s` and the characters consumed.
pub open spec fn sp_access_type(s: Seq<char>) -> Option<(AccessType, int)> {
    if s.len() > 0 && s[0] == '"' {
        let body = s.skip(1);
        if spec_starts_with(body, "online\""@) {
            Some((AccessType::Online, 1 + "online\""@.len() as int))
        } else if spec_starts_with(body, "offline\""@) {
            Some((AccessType::Offline, 1 + "offline\""@.len() as int))
        } else {
            None
        }
    } else {
        None
    }
}

/// The prompt array at the head of `s`, brackets included, and the
/// characters consumed.
pub open spec fn sp_prompt_array(s: Seq<char>) -> Option<(Seq<Prompt>, int)> {
    if s.len() > 0 && s[0] == '[' {
        let body = s.skip(1);
        if body.len() > 0 && body[0] == ']' {
            Some((Seq::empty(), 2))
        } else {
            match sp_prompt_list(body) {
                Some((ps, n)) => Some((ps, n + 1)),
                None => None,
            }
        }
    } else {
        None
    }
}

/// The quoted string at the head of `s`, quotes included, and the
/// characters consumed.
pub open spec fn sp_quoted_string(s: Seq<char>) -> Option<(Seq<char>, int)> {
    if s.len() > 0 && s[0] == '"' {
        match sp_string(s.skip(1)) {
            Some((v, n)) => Some((v, n + 1)),
            None => None,
        }
    } else {
        None
    }
}

/// The sessions a payload decodes to: exactly the canonical encodings are
/// accepted.
pub open spec fn spec_decode_session(s: Seq<char>) -> Option<SessionView> {
    let k1 = "{\"pkce_verifier\":"@;
    if !spec_starts_with(s, k1) {
        None
    } else {
        match sp_quoted_string(s.skip(k1.len() as int)) {
            None => None,
            Some((pkce, n1)) => {
                let s2 = s.skip(k1.len() + n1);
                let k2 = ",\"csrf_token\":"@;
                if !spec_starts_with(s2, k2) {
                    None
                } else {
                    match sp_quoted_string(s2.skip(k2.len() as int)) {
                        None => None,
                        Some((csrf, n2)) => {
                            let s3 = s2.skip(k2.len() + n2);
                            let k3 = ",\"redirect_to\":"@;
                            if !spec_starts_with(s3, k3) {
                                None
                            } else {
                                match sp_quoted_string(s3.skip(k3.len() as int)) {
                                    None => None,
                                    Some((redirect, n3)) => spec_decode_params(
                                        s3.skip(k3.len() + n3),
                                        pkce,
                                        csrf,
                                        redirect,
                                    ),
                                }
                            }
                        },
                    }
                }
            },
        }
    }
}

/// The tail of the payload: the extra-parameter object and the closing
/// braces.
pub open spec fn spec_decode_params(
    s: Seq<char>,
    pkce: Seq<char>,
    csrf: Seq<char>,
    redirect: Seq<char>,
) -> Option<SessionView> {
    let k4 = ",\"extra_params\":{\"include_granted_scopes\":"@;
    if !spec_starts_with(s, k4) {
        None
    } else {
        match sp_bool(s.skip(k4.len() as int)) {
            None => None,
            Some((granted, n4)) => {
                let s5 = s.skip(k4.len() + n4);
                let k5 = ",\"login_hint\":"@;
                if !spec_starts_with(s5, k5) {
                    None
                } else {
                    match sp_hint(s5.skip(k5.len() as int)) {
                        None => None,
                        Some((login_hint, n5)) => spec_decode_params_tail(
                            s5.skip(k5.len() + n5),
                            pkce,
                            csrf,
                            redirect,
                            granted,
                            login_hint,
                        ),
                    }
                }
            },
        }
    }
}

/// The last stretch of the payload: the access type, the prompt array,
/// and the closing braces.
pub open spec fn spec_decode_params_tail(
    s: Seq<char>,
    pkce: Seq<char>,
    csrf: Seq<char>,
    redirect: Seq<char>,
    granted: bool,
    login_hint: Option<Seq<char>>,
) -> Option<SessionView> {
    let k6 = ",\"access_type\":"@;
    if !spec_starts_with(s, k6) {
        None
    } else {
        match sp_access_type(s.skip(k6.len() as int)) {
            None => None,
            Some((access_type, n6)) => {
                let s7 = s.skip(k6.len() + n6);
                let k7 = ",\"prompt\":"@;
                if !spec_starts_with(s7, k7) {
                    None
                } else {
                    match sp_prompt_array(s7.skip(k7.len() as int)) {
                        None => None,
                        Some((prompt, n7)) => {
                            let s8 = s7.skip(k7.len() + n7);
                            if s8 == "}}"@ {
                                Some(
                                    SessionView {
                                        pkce_verifier: pkce,
                                        csrf_token: csrf,
                                        redirect_to: redirect,
                                        extra_params: ExtraParamsView {
                                            include_granted_scopes: granted,
                                            login_hint,
                                            access_type,
                                            prompt,
                                        },
                                    },
                                )
                            } else {
                                None
                            }
                        },
                    }
                }
            },
        }
    }
}

/// Splitting a concatenation at the length of its left part gives back
/// both parts.
proof fn lemma_concat_parts(a: Seq<char>, b: Seq<char>)
    ensures
        spec_starts_with(a + b, a),
        (a + b).skip(a.len() as int) == b,
{
    assert((a + b).take(a.len() as int) =~= a);
    assert((a + b).skip(a.len() as int) =~= b);
}

/// Reading a quoted string back from its canonical encoding yields the
/// original value and consumes exactly the encoding.
proof fn lemma_sp_string_round_trip(v: Seq<char>, rest: Seq<char>)
    ensures
        sp_string(spec_esc(v) + seq!['"'] + rest) == Some(
            (v, spec_esc(v).len() + 1 as int),
        ),
    decreases v.len(),
{
    let s = spec_esc(v) + seq!['"'] + rest;
    if v.len() == 0 {
        assert(spec_esc(v) =~= Seq::<char>::empty());
        assert(s =~= seq!['"'] + rest);
        assert(s[0] == '"');
        assert(Seq::<char>::empty() =~= v);
    } else {
        let c = v[0];
        let t = v.drop_first();
        assert(spec_esc(v) == spec_esc_char(c) + spec_esc(t));
        let s_tail = spec_esc(t) + seq!['"'] + rest;
        lemma_sp_string_round_trip(t, rest);
        if c == '\\' || c == '"' {
            assert(spec_esc_char(c) =~= seq!['\\', c]);
            assert(s =~= seq!['\\', c] + s_tail);
            assert(s[0] == '\\');
            assert(s[1] == c);
            assert(s.len() >= 2);
            assert(s.skip(2) =~= s_tail);
            assert(seq![c] + t =~= v);
        } else {
            assert(spec_esc_char(c) =~= seq![c]);
            assert(s =~= seq![c] + s_tail);
            assert(s[0] == c);
            assert(s.drop_first() =~= s_tail);
            assert(seq![c] + t =~= v);
        }
    }
}

/// Reading a prompt back from its canonical quoted name yields that
/// prompt and consumes exactly the quoted name.
proof fn lemma_sp_prompt_round_trip(p: Prompt, rest: Seq<char>)
    ensures
        sp_prompt(spec_prompt_json(p) + rest) == Some(
            (p, spec_prompt_json(p).len() as int),
        ),
{
    reveal_strlit("none");
    reveal_strlit("consent");
    reveal_strlit("select_account");
    let s = spec_prompt_json(p) + rest;
    lemma_concat_parts(spec_prompt_json(p), rest);
    match p {
        Prompt::NoPrompt => {
        },
        Prompt::Consent => {
            assert(!spec_starts_with(s, spec_prompt_json(Prompt::NoPrompt))) by {
                if spec_starts_with(s, spec_prompt_json(Prompt::NoPrompt)) {
                    assert(s.take(spec_prompt_json(Prompt::NoPrompt).len() as int)[1] == 'n');
                    assert(s[1] == "consent"@[0]);
                }
            }
        },
        Prompt::SelectAccount => {
            assert(!spec_starts_with(s, spec_prompt_json(Prompt::NoPrompt))) by {
                if spec_starts_with(s, spec_prompt_json(Prompt::NoPrompt)) {
                    assert(s.take(spec_prompt_json(Prompt::NoPrompt).len() as int)[1] == 'n');
                    assert(s[1] == "select_account"@[0]);
                }
            }
            assert(!spec_starts_with(s, spec_prompt_json(Prompt::Consent))) by {
                if spec_starts_with(s, spec_prompt_json(Prompt::Consent)) {
                    assert(s.take(spec_prompt_json(Prompt::Consent).len() as int)[1] == 'c');
                    assert(s[1] == "select_account"@[0]);
                }
            }
        },
    }
}

/// Reading a non-empty prompt array body back from its canonical items
/// and closing bracket yields the original prompts.
proof fn lemma_sp_prompt_list_round_trip(ps: Seq<Prompt>, rest: Seq<char>)
    requires
        ps.len() > 0,
    ensures
        sp_prompt_list(spec_prompt_items(ps) + seq![']'] + rest) == Some(
            (ps, spec_prompt_items(ps).len() + 1 as int),
        ),
    decreases ps.len(),
{
    let p = ps[0];
    let pj = spec_prompt_json(p);
    let s = spec_prompt_items(ps) + seq![']'] + rest;
    if ps.len() == 1 {
        assert(spec_prompt_items(ps) == pj);
        assert(s =~= pj + (seq![']'] + rest));
        lemma_sp_prompt_round_trip(p, seq![']'] + rest);
        assert(sp_prompt(s) == Some((p, pj.len() as int)));
        assert(s[pj.len() as int] == (seq![']'] + rest)[0]);
        assert(s[pj.len() as int] == ']');
        assert(pj.len() < s.len());
        assert(seq![p] =~= ps);
    } else {
        let tail_items = spec_prompt_items(ps.drop_first());
        assert(spec_prompt_items(ps) == pj + seq![','] + tail_items);
        let after = seq![','] + tail_items + seq![']'] + rest;
        assert(s =~= pj + after);
        lemma_sp_prompt_round_trip(p, after);
        assert(sp_prompt(s) == Some((p, pj.len() as int)));
        assert(s[pj.len() as int] == after[0]);
        assert(after[0] == ',');
        assert(pj.len() < s.len());
        assert(s.skip(pj.len() + 1 as int) =~= tail_items + seq![']'] + rest);
        lemma_sp_prompt_list_round_trip(ps.drop_first(), rest);
        assert(seq![p] + ps.drop_first() =~= ps);
    }
}

/// The serialized flag reads back as itself.
proof fn lemma_sp_bool_of(b: bool, rest: Seq<char>)
    ensures
        sp_bool(spec_bool_json(b) + rest) == Some((b, spec_bool_json(b).len() as int)),
{
    reveal_strlit("true");
    reveal_strlit("false");
    let v = spec_bool_json(b);
    lemma_concat_parts(v, rest);
    if !b {
        assert(!spec_starts_with(v + rest, "true"@)) by {
            if spec_starts_with(v + rest, "true"@) {
                assert((v + rest).take("true"@.len() as int)[0] == 't');
                assert((v + rest)[0] == 'f');
            }
        }
    }
}

/// The serialized login hint reads back as itself.
proof fn lemma_sp_hint_of(h: Option<Seq<char>>, rest: Seq<char>)
    ensures
        sp_hint(spec_hint_json(h) + rest) == Some((h, spec_hint_json(h).len() as int)),
{
    reveal_strlit("null");
    let v = spec_hint_json(h);
    match h {
        None => {
            lemma_concat_parts(v, rest);
        },
        Some(hint) => {
            assert(v == seq!['"'] + spec_esc(hint) + seq!['"']);
            assert(!spec_starts_with(v + rest, "null"@)) by {
                if spec_starts_with(v + rest, "null"@) {
                    assert((v + rest).take("null"@.len() as int)[0] == 'n');
                    assert((v + rest)[0] == '"');
                }
            }
            assert((v + rest)[0] == '"');
            assert((v + rest).skip(1) =~= spec_esc(hint) + seq!['"'] + rest);
            lemma_sp_string_round_trip(hint, rest);
        },
    }
}

/// The quoted access type reads back as itself.
proof fn lemma_sp_access_type_of(a: AccessType, rest: Seq<char>)
    ensures
        sp_access_type((seq!['"'] + a.spec_serialized() + seq!['"']) + rest) == Some(
            (a, a.spec_serialized().len() + 2 as int),
        ),
{
    reveal_strlit("online\"");
    reveal_strlit("offline\"");
    reveal_strlit("online");
    reveal_strlit("offline");
    let at_part = seq!['"'] + a.spec_serialized() + seq!['"'];
    let at_s = at_part + rest;
    assert(at_s[0] == '"');
    match a {
        AccessType::Online => {
            assert(at_s.skip(1) =~= "online\""@ + rest) by {
                assert("online\""@ =~= "online"@ + seq!['"']);
                assert(at_s.skip(1) =~= "online"@ + seq!['"'] + rest);
            }
            lemma_concat_parts("online\""@, rest);
        },
        AccessType::Offline => {
            assert(at_s.skip(1) =~= "offline\""@ + rest) by {
                assert("offline\""@ =~= "offline"@ + seq!['"']);
                assert(at_s.skip(1) =~= "offline"@ + seq!['"'] + rest);
            }
            lemma_concat_parts("offline\""@, rest);
            assert(!spec_starts_with(at_s.skip(1), "online\""@)) by {
                if spec_starts_with(at_s.skip(1), "online\""@) {
                    assert(at_s.skip(1).take("online\""@.len() as int)[1] == 'n');
                    assert(at_s.skip(1)[1] == 'f');
                }
            }
        },
    }
}

/// The bracketed prompt array reads back as itself.
proof fn lemma_sp_prompt_array_of(ps: Seq<Prompt>, rest: Seq<char>)
    ensures
        sp_prompt_array((seq!['['] + spec_prompt_items(ps) + seq![']']) + rest) == Some(
            (ps, spec_prompt_items(ps).len() + 2 as int),
        ),
{
    let pr_part = seq!['['] + spec_prompt_items(ps) + seq![']'];
    let pr_s = pr_part + rest;
    assert(pr_s[0] == '[');
    if ps.len() == 0 {
        assert(spec_prompt_items(ps) =~= Seq::<char>::empty());
        assert(pr_s =~= seq!['[', ']'] + rest);
        assert(pr_s.skip(1) =~= seq![']'] + rest);
        assert(pr_s.skip(1)[0] == ']');
        assert(pr_s.skip(2) =~= rest);
    } else {
        assert(pr_s.skip(1) =~= spec_prompt_items(ps) + seq![']'] + rest);
        lemma_sp_prompt_list_round_trip(ps, rest);
        assert(pr_s.skip(1)[0] == spec_prompt_json(ps[0])[0]) by {
            if ps.len() == 1 {
                assert(spec_prompt_items(ps) == spec_prompt_json(ps[0]));
            }
        }
        assert(pr_s.skip(1)[0] == '"');
    }
}

/// The access-type and prompt stretch read back from its canonical
/// encoding completes the session.
#[verifier::rlimit(100)]
#[verifier::spinoff_prover]
proof fn lemma_params_tail_round_trip(
    p: ExtraParamsView,
    pkce: Seq<char>,
    csrf: Seq<char>,
    redirect: Seq<char>,
)
    ensures
        spec_decode_params_tail(
            spec_encode_params_tail(p),
            pkce,
            csrf,
            redirect,
            p.include_granted_scopes,
            p.login_hint,
        ) == Some(
            SessionView { pkce_verifier: pkce, csrf_token: csrf, redirect_to: redirect, extra_params: p },
        ),
{
    let k6 = ",\"access_type\":"@;
    let k7 = ",\"prompt\":"@;
    let e = spec_encode_params_tail(p);
    let at_part = seq!['"'] + p.access_type.spec_serialized() + seq!['"'];
    let pr_part = seq!['['] + spec_prompt_items(p.prompt) + seq![']'];
    let rest6 = k7 + pr_part + "}}"@;
    assert(e =~= k6 + (at_part + rest6));
    lemma_concat_parts(k6, at_part + rest6);
    lemma_concat_parts(at_part, rest6);
    lemma_sp_access_type_of(p.access_type, rest6);
    assert(e.skip(k6.len() + at_part.len() as int) =~= rest6);
    let rest7 = "}}"@;
    assert(rest6 =~= k7 + (pr_part + rest7));
    lemma_concat_parts(k7, pr_part + rest7);
    lemma_concat_parts(pr_part, rest7);
    lemma_sp_prompt_array_of(p.prompt, rest7);
    assert(rest6.skip(k7.len() + pr_part.len() as int) =~= rest7);
}

/// The extra-parameter tail read back from its canonical encoding
/// completes the session with exactly the encoded parameters.
#[verifier::rlimit(100)]
#[verifier::spinoff_prover]
proof fn lemma_params_round_trip(
    p: ExtraParamsView,
    pkce: Seq<char>,
    csrf: Seq<char>,
    redirect: Seq<char>,
)
    ensures
        spec_decode_params(spec_encode_params(p), pkce, csrf, redirect) == Some(
            SessionView { pkce_verifier: pkce, csrf_token: csrf, redirect_to: redirect, extra_params: p },
        ),
{
    let k4 = ",\"extra_params\":{\"include_granted_scopes\":"@;
    let k5 = ",\"login_hint\":"@;
    let e = spec_encode_params(p);
    let b = spec_bool_json(p.include_granted_scopes);
    let h = spec_hint_json(p.login_hint);
    let tail = spec_encode_params_tail(p);
    let rest4 = k5 + h + tail;
    assert(e =~= k4 + (b + rest4));
    lemma_concat_parts(k4, b + rest4);
    lemma_concat_parts(b, rest4);
    lemma_sp_bool_of(p.include_granted_scopes, rest4);
    assert(e.skip(k4.len() + b.len() as int) =~= rest4);
    assert(rest4 =~= k5 + (h + tail));
    lemma_concat_parts(k5, h + tail);
    lemma_concat_parts(h, tail);
    lemma_sp_hint_of(p.login_hint, tail);
    assert(rest4.skip(k5.len() + h.len() as int) =~= tail);
    lemma_params_tail_round_trip(p, pkce, csrf, redirect);
}

/// One key-and-string stretch of the payload: the key is found, the
/// quoted string reads back, and the scan lands exactly behind it.
proof fn lemma_head_step(k: Seq<char>, val: Seq<char>, rest: Seq<char>)
    ensures
        ({
            let js = spec_json_string(val);
            let s = k + (js + rest);
            &&& spec_starts_with(s, k)
            &&& sp_quoted_string(s.skip(k.len() as int)) == Some((val, js.len() as int))
            &&& s.skip(k.len() + js.len() as int) == rest
        }),
{
    let js = spec_json_string(val);
    let s = k + (js + rest);
    lemma_concat_parts(k, js + rest);
    lemma_quoted_string_round_trip(val, rest);
    assert(s.skip(k.len() + js.len() as int) =~= rest);
}

/// Decoding undoes encoding: every session read back from its own cookie
/// payload is the session itself.
#[verifier::rlimit(100)]
#[verifier::spinoff_prover]
pub proof fn lemma_session_round_trip(v: SessionView)
    ensures
        spec_decode_session(spec_encode_session(v)) == Some(v),
{
    let k1 = "{\"pkce_verifier\":"@;
    let k2 = ",\"csrf_token\":"@;
    let k3 = ",\"redirect_to\":"@;
    let p = v.extra_params;
    let js1 = spec_json_string(v.pkce_verifier);
    let js2 = spec_json_string(v.csrf_token);
    let js3 = spec_json_string(v.redirect_to);
    let tail = spec_encode_params(p);
    let rest2 = k3 + (js3 + tail);
    let rest1 = k2 + (js2 + rest2);
    let s = k1 + (js1 + rest1);
    assert(spec_encode_session(v) =~= s);
    lemma_head_step(k1, v.pkce_verifier, rest1);
    lemma_head_step(k2, v.csrf_token, rest2);
    lemma_head_step(k3, v.redirect_to, tail);
    lemma_params_round_trip(p, v.pkce_verifier, v.csrf_token, v.redirect_to);
}

/// A quoted JSON string read back from its canonical encoding.
proof fn lemma_quoted_string_round_trip(val: Seq<char>, rest: Seq<char>)
    ensures
        sp_quoted_string(spec_json_string(val) + rest) == Some(
            (val, spec_json_string(val).len() as int),
        ),
{
    let js = spec_json_string(val);
    let s = js + rest;
    assert(s[0] == '"');
    assert(s.skip(1) =~= spec_esc(val) + seq!['"'] + rest);
    lemma_sp_string_round_trip(val, rest);
}

/// Escaping one more character appends its escape.
proof fn lemma_esc_snoc(t: Seq<char>, c: char)
    ensures
        spec_esc(t.push(c)) == spec_esc(t) + spec_esc_char(c),
    decreases t.len(),
{
    if t.len() == 0 {
        assert(t.push(c)[0] == c);
        assert(t.push(c).drop_first() =~= Seq::<char>::empty());
        assert(spec_esc(t.push(c)) == spec_esc_char(c) + spec_esc(Seq::<char>::empty()));
        assert(spec_esc_char(c) + Seq::<char>::empty() =~= spec_esc_char(c));
        assert(spec_esc(t) + spec_esc_char(c) =~= spec_esc_char(c));
    } else {
        assert(t.push(c)[0] == t[0]);
        assert(t.push(c).drop_first() =~= t.drop_first().push(c));
        lemma_esc_snoc(t.drop_first(), c);
        assert(spec_esc(t.push(c)) == spec_esc_char(t[0]) + (spec_esc(t.drop_first())
            + spec_esc_char(c)));
        assert(spec_esc_char(t[0]) + (spec_esc(t.drop_first()) + spec_esc_char(c)) =~= (
        spec_esc_char(t[0]) + spec_esc(t.drop_first())) + spec_esc_char(c));
    }
}

/// Appends the characters of a string slice.
fn push_str_chars(out: &mut Vec<char>, lit: &str)
    ensures
        final(out)@ == old(out)@ + lit@,
{
    let len = lit.unicode_len();
    let mut i: usize = 0;
    while i < len
        invariant
            len == lit@.len(),
            i <= len,
            out@ =~= old(out)@ + lit@.take(i as int),
        decreases len - i,
    {
        out.push(lit.get_char(i));
        i += 1;
    }
    assert(out@ =~= old(out)@ + lit@);
}

/// Appends the escaped body of a string.
fn push_escaped(out: &mut Vec<char>, s: &str)
    ensures
        final(out)@ == old(out)@ + spec_esc(s@),
{
    let len = s.unicode_len();
    let mut i: usize = 0;
    proof {
        assert(s@.take(0) =~= Seq::<char>::empty());
        assert(spec_esc(s@.take(0)) =~= Seq::<char>::empty());
        assert(out@ =~= old(out)@ + spec_esc(s@.take(0)));
    }
    while i < len
        invariant
            len == s@.len(),
            i <= len,
            out@ == old(out)@ + spec_esc(s@.take(i as int)),
        decreases len - i,
    {
        let c = s.get_char(i);
        if c == '\\' {
            out.push('\\');
            out.push('\\');
        } else if c == '"' {
            out.push('\\');
            out.push('"');
        } else {
            out.push(c);
        }
        proof {
            assert(s@.take(i + 1 as int) =~= s@.take(i as int).push(c));
            lemma_esc_snoc(s@.take(i as int), c);
            assert(out@ =~= old(out)@ + spec_esc(s@.take(i + 1 as int)));
        }
        i += 1;
    }
    assert(s@.take(len as int) =~= s@);
}

/// Appends a quoted, escaped JSON string.
fn push_json_string(out: &mut Vec<char>, s: &str)
    ensures
        final(out)@ == old(out)@ + spec_json_string(s@),
{
    out.push('"');
    push_escaped(out, s);
    out.push('"');
    assert(out@ =~= old(out)@ + spec_json_string(s@));
}

/// The quoted prompt names, comma-joined, as characters.
fn prompt_items_chars(ps: &PromptList) -> (r: Vec<char>)
    ensures
        r@ == spec_prompt_items(ps.0@),
{
    let mut out: Vec<char> = Vec::new();
    let mut i: usize = 0;
    proof {
        assert(ps.0@.skip(0) =~= ps.0@);
        assert(out@ + spec_prompt_items(ps.0@) =~= spec_prompt_items(ps.0@));
    }
    while i < ps.0.len()
        invariant
            i <= ps.0@.len(),
            spec_prompt_items(ps.0@) == out@ + spec_prompt_items(ps.0@.skip(i as int)),
        decreases ps.0@.len() - i,
    {
        proof {
            assert(ps.0@.skip(i as int)[0] == ps.0@[i as int]);
        }
        out.push('"');
        let name = ps.0[i].serialized();
        push_str_chars(&mut out, name.as_str());
        out.push('"');
        if i + 1 < ps.0.len() {
            out.push(',');
        }
        i += 1;
        proof {
            assert(ps.0@.skip(i - 1 as int).drop_first() =~= ps.0@.skip(i as int));
        }
    }
    assert(ps.0@.skip(i as int) =~= Seq::<Prompt>::empty());
    assert(out@ + Seq::<char>::empty() =~= out@);
    out
}

impl Session {
    /// The default name of the session cookie.
    pub const COOKIE_NAME: &'static str = "fireauth2";

    /// Gathers the per-flow state to be carried in the cookie.
    pub fn new(
        verifier: &str,
        csrf_token: &str,
        redirect_to: String,
        extra_params: RequestAccessTokenExtraParams,
    ) -> (r: Session)
        ensures
            r@.pkce_verifier == verifier@,
            r@.csrf_token == csrf_token@,
            r@.redirect_to == redirect_to@,
            r@.extra_params == extra_params@,
    {
        Session {
            pkce_verifier: verifier.to_owned(),
            csrf_token: csrf_token.to_owned(),
            redirect_to,
            extra_params,
        }
    }

    /// Serializes the session into the canonical cookie payload.
    #[verifier::rlimit(100)]
    #[verifier::spinoff_prover]
    pub fn encode(&self) -> (r: String)
        ensures
            r@ == spec_encode_session(self@),
    {
        let mut out: Vec<char> = Vec::new();
        push_str_chars(&mut out, "{\"pkce_verifier\":");
        push_json_string(&mut out, self.pkce_verifier.as_str());
        push_str_chars(&mut out, ",\"csrf_token\":");
        push_json_string(&mut out, self.csrf_token.as_str());
        push_str_chars(&mut out, ",\"redirect_to\":");
        push_json_string(&mut out, self.redirect_to.as_str());
        push_str_chars(&mut out, ",\"extra_params\":{\"include_granted_scopes\":");
        if self.extra_params.include_granted_scopes.value() {
            push_str_chars(&mut out, "true");
        } else {
            push_str_chars(&mut out, "false");
        }
        push_str_chars(&mut out, ",\"login_hint\":");
        match &self.extra_params.login_hint {
            Some(hint) => {
                push_json_string(&mut out, hint.as_str());
            },
            None => {
                push_str_chars(&mut out, "null");
            },
        }
        push_str_chars(&mut out, ",\"access_type\":");
        out.push('"');
        let at_name = self.extra_params.access_type.serialized();
        push_str_chars(&mut out, at_name.as_str());
        out.push('"');
        push_str_chars(&mut out, ",\"prompt\":");
        out.push('[');
        let mut items = prompt_items_chars(&self.extra_params.prompt);
        out.append(&mut items);
        out.push(']');
        push_str_chars(&mut out, "}}");
        assert(out@ =~= spec_encode_session(self@));
        chars_to_string(&out)
    }

    /// Renders the `Set-Cookie` value carrying this session: the payload
    /// under the given cookie name, HTTP-only, secure, same-site lax, and
    /// expiring after the given number of seconds.
    pub fn into_cookie(self, name: &str, max_age_seconds: u64) -> (r: String)
        ensures
            r@ == name@ + "="@ + spec_encode_session(self@)
                + "; HttpOnly; Secure; SameSite=Lax; Max-Age="@ + crate::text::spec_dec_str(
                max_age_seconds as int,
            ),
    {
        let mut out = name.to_owned();
        out.append("=");
        let payload = self.encode();
        out.append(payload.as_str());
        out.append("; HttpOnly; Secure; SameSite=Lax; Max-Age=");
        let age = u64_to_string(max_age_seconds);
        out.append(age.as_str());
        out
    }

    /// Reads a session back from a cookie payload. Anything but a
    /// canonical payload fails with the extraction error, the one failure
    /// the callback cannot redirect away from.
    pub fn decode(payload: &str) -> (r: Result<Session, Error>)
        ensures
            match r {
                Ok(sess) => spec_decode_session(payload@) == Some(sess@),
                Err(e) => spec_decode_session(payload@) is None && (
                e matches Error::FailedToExtractAuthCookie { because } && because@
                    == "malformed session cookie"@),
            },
    {
        let v = string_chars(payload);
        match decode_chars(&v) {
            Some(sess) => Ok(sess),
            None => Err(
                Error::FailedToExtractAuthCookie {
                    because: "malformed session cookie".to_owned(),
                },
            ),
        }
    }
}

/// Advances over the literal when the scan stands on it.
fn expect_lit(v: &Vec<char>, pos: usize, lit: &str) -> (r: Option<usize>)
    requires
        pos <= v@.len(),
    ensures
        match r {
            Some(np) => spec_starts_with(v@.skip(pos as int), lit@) && np == pos + lit@.len()
                && np <= v@.len(),
            None => !spec_starts_with(v@.skip(pos as int), lit@),
        },
{
    let len = lit.unicode_len();
    if v.len() - pos < len {
        return None;
    }
    let mut i: usize = 0;
    while i < len
        invariant
            len == lit@.len(),
            pos + len <= v@.len(),
            v@.len() <= usize::MAX,
            i <= len,
            forall|j: int| 0 <= j < i ==> v@[pos + j] == lit@[j],
        decreases len - i,
    {
        if v[pos + i] != lit.get_char(i) {
            assert(!spec_starts_with(v@.skip(pos as int), lit@)) by {
                assert(v@.skip(pos as int)[i as int] == v@[pos + i]);
                if spec_starts_with(v@.skip(pos as int), lit@) {
                    assert(v@.skip(pos as int).take(lit@.len() as int)[i as int] == lit@[
                        i as int
                    ]);
                }
            }
            return None;
        }
        i += 1;
    }
    assert(v@.skip(pos as int).take(len as int) =~= lit@);
    Some(pos + len)
}

/// Reads the body of a quoted string from the scan position, the opening
/// quote already consumed.
fn parse_string_body(v: &Vec<char>, pos: usize) -> (r: Option<(Vec<char>, usize)>)
    requires
        pos <= v@.len(),
    ensures
        match r {
            Some((val, np)) => sp_string(v@.skip(pos as int)) == Some(
                (val@, np - pos as int),
            ) && pos < np <= v@.len(),
            None => sp_string(v@.skip(pos as int)) is None,
        },
    decreases v@.len() - pos,
{
    let ghost s = v@.skip(pos as int);
    if pos == v.len() {
        return None;
    }
    assert(s[0] == v@[pos as int]);
    let c = v[pos];
    if c == '"' {
        let empty: Vec<char> = Vec::new();
        assert(empty@ =~= Seq::<char>::empty());
        return Some((empty, pos + 1));
    }
    if c == '\\' {
        if pos + 1 < v.len() && (v[pos + 1] == '\\' || v[pos + 1] == '"') {
            assert(s[1] == v@[pos + 1 as int]);
            assert(s.len() >= 2);
            assert(s.skip(2) =~= v@.skip(pos + 2 as int));
            match parse_string_body(v, pos + 2) {
                Some((mut val, np)) => {
                    let escaped = v[pos + 1];
                    val.insert(0, escaped);
                    assert(val@ =~= seq![v@[pos + 1 as int]] + val@.drop_first());
                    return Some((val, np));
                },
                None => {
                    return None;
                },
            }
        } else {
            assert(s.len() >= 2 ==> !(s[1] == '\\' || s[1] == '"')) by {
                if s.len() >= 2 {
                    assert(s[1] == v@[pos + 1 as int]);
                }
            }
            return None;
        }
    }
    assert(s.drop_first() =~= v@.skip(pos + 1 as int));
    match parse_string_body(v, pos + 1) {
        Some((mut val, np)) => {
            val.insert(0, c);
            assert(val@ =~= seq![v@[pos as int]] + val@.drop_first());
            Some((val, np))
        },
        None => None,
    }
}

/// Reads a quoted string, quotes included, from the scan position.
fn parse_quoted_string(v: &Vec<char>, pos: usize) -> (r: Option<(String, usize)>)
    requires
        pos <= v@.len(),
    ensures
        match r {
            Some((val, np)) => sp_quoted_string(v@.skip(pos as int)) == Some(
                (val@, np - pos as int),
            ) && pos < np <= v@.len(),
            None => sp_quoted_string(v@.skip(pos as int)) is None,
        },
{
    let ghost s = v@.skip(pos as int);
    if pos >= v.len() || v[pos] != '"' {
        if pos < v.len() {
            assert(s[0] == v@[pos as int]);
        }
        return None;
    }
    assert(s[0] == v@[pos as int]);
    assert(s.skip(1) =~= v@.skip(pos + 1 as int));
    match parse_string_body(v, pos + 1) {
        Some((val, np)) => {
            let text = chars_to_string(&val);
            Some((text, np))
        },
        None => None,
    }
}

/// Reads a serialized truth value from the scan position.
fn parse_bool_at(v: &Vec<char>, pos: usize) -> (r: Option<(bool, usize)>)
    requires
        pos <= v@.len(),
    ensures
        match r {
            Some((b, np)) => sp_bool(v@.skip(pos as int)) == Some((b, np - pos as int)) && pos
                < np <= v@.len(),
            None => sp_bool(v@.skip(pos as int)) is None,
        },
{
    proof {
        reveal_strlit("true");
        reveal_strlit("false");
    }
    match expect_lit(v, pos, "true") {
        Some(np) => Some((true, np)),
        None => match expect_lit(v, pos, "false") {
            Some(np) => Some((false, np)),
            None => None,
        },
    }
}

/// Reads a serialized login hint from the scan position.
fn parse_hint_at(v: &Vec<char>, pos: usize) -> (r: Option<(Option<String>, usize)>)
    requires
        pos <= v@.len(),
    ensures
        match r {
            Some((h, np)) => ({
                let hv = match h {
                    Some(t) => Some(t@),
                    None => None,
                };
                sp_hint(v@.skip(pos as int)) == Some((hv, np - pos as int)) && pos < np
                    <= v@.len()
            }),
            None => sp_hint(v@.skip(pos as int)) is None,
        },
{
    proof {
        reveal_strlit("null");
    }
    let ghost s = v@.skip(pos as int);
    match expect_lit(v, pos, "null") {
        Some(np) => Some((None, np)),
        None => {
            if pos < v.len() && v[pos] == '"' {
                assert(s[0] == v@[pos as int]);
                assert(s.skip(1) =~= v@.skip(pos + 1 as int));
                match parse_string_body(v, pos + 1) {
                    Some((val, np)) => {
                        let text = chars_to_string(&val);
                        Some((Some(text), np))
                    },
                    None => None,
                }
            } else {
                if pos < v.len() {
                    assert(s[0] == v@[pos as int]);
                }
                None
            }
        },
    }
}

/// Reads a quoted access type from the scan position.
fn parse_access_type_at(v: &Vec<char>, pos: usize) -> (r: Option<(AccessType, usize)>)
    requires
        pos <= v@.len(),
    ensures
        match r {
            Some((a, np)) => sp_access_type(v@.skip(pos as int)) == Some(
                (a, np - pos as int),
            ) && pos < np <= v@.len(),
            None => sp_access_type(v@.skip(pos as int)) is None,
        },
{
    proof {
        reveal_strlit("online\"");
        reveal_strlit("offline\"");
    }
    let ghost s = v@.skip(pos as int);
    if pos >= v.len() || v[pos] != '"' {
        if pos < v.len() {
            assert(s[0] == v@[pos as int]);
        }
        return None;
    }
    assert(s[0] == v@[pos as int]);
    assert(s.skip(1) =~= v@.skip(pos + 1 as int));
    match expect_lit(v, pos + 1, "online\"") {
        Some(np) => Some((AccessType::Online, np)),
        None => match expect_lit(v, pos + 1, "offline\"") {
            Some(np) => Some((AccessType::Offline, np)),
            None => None,
        },
    }
}

/// The quoted prompt names are exactly the quoted-literal spellings.
proof fn lemma_prompt_json_literals()
    ensures
        "\"none\""@ == spec_prompt_json(Prompt::NoPrompt),
        "\"consent\""@ == spec_prompt_json(Prompt::Consent),
        "\"select_account\""@ == spec_prompt_json(Prompt::SelectAccount),
{
    reveal_strlit("\"none\"");
    reveal_strlit("\"consent\"");
    reveal_strlit("\"select_account\"");
    reveal_strlit("none");
    reveal_strlit("consent");
    reveal_strlit("select_account");
    assert("\"none\""@ =~= spec_prompt_json(Prompt::NoPrompt));
    assert("\"consent\""@ =~= spec_prompt_json(Prompt::Consent));
    assert("\"select_account\""@ =~= spec_prompt_json(Prompt::SelectAccount));
}

/// Reads one quoted prompt name from the scan position.
fn parse_prompt_at(v: &Vec<char>, pos: usize) -> (r: Option<(Prompt, usize)>)
    requires
        pos <= v@.len(),
    ensures
        match r {
            Some((p, np)) => sp_prompt(v@.skip(pos as int)) == Some((p, np - pos as int))
                && pos < np <= v@.len(),
            None => sp_prompt(v@.skip(pos as int)) is None,
        },
{
    proof {
        lemma_prompt_json_literals();
    }
    match expect_lit(v, pos, "\"none\"") {
        Some(np) => Some((Prompt::NoPrompt, np)),
        None => match expect_lit(v, pos, "\"consent\"") {
            Some(np) => Some((Prompt::Consent, np)),
            None => match expect_lit(v, pos, "\"select_account\"") {
                Some(np) => Some((Prompt::SelectAccount, np)),
                None => None,
            },
        },
    }
}

/// Reads a non-empty prompt list, closing bracket included, from the scan
/// position.
fn parse_prompt_list_at(v: &Vec<char>, pos: usize) -> (r: Option<(Vec<Prompt>, usize)>)
    requires
        pos <= v@.len(),
    ensures
        match r {
            Some((ps, np)) => sp_prompt_list(v@.skip(pos as int)) == Some(
                (ps@, np - pos as int),
            ) && pos < np <= v@.len(),
            None => sp_prompt_list(v@.skip(pos as int)) is None,
        },
    decreases v@.len() - pos,
{
    let ghost s = v@.skip(pos as int);
    match parse_prompt_at(v, pos) {
        None => None,
        Some((p, np)) => {
            if np >= v.len() {
                return None;
            }
            assert(s[np - pos as int] == v@[np as int]);
            if v[np] == ']' {
                let mut ps: Vec<Prompt> = Vec::new();
                ps.push(p);
                assert(ps@ =~= seq![p]);
                Some((ps, np + 1))
            } else if v[np] == ',' {
                assert(s.skip(np - pos + 1 as int) =~= v@.skip(np + 1 as int));
                match parse_prompt_list_at(v, np + 1) {
                    Some((mut ps, m)) => {
                        ps.insert(0, p);
                        assert(ps@ =~= seq![p] + ps@.drop_first());
                        Some((ps, m))
                    },
                    None => None,
                }
            } else {
                None
            }
        },
    }
}

/// Reads a bracketed prompt array from the scan position.
fn parse_prompt_array_at(v: &Vec<char>, pos: usize) -> (r: Option<(Vec<Prompt>, usize)>)
    requires
        pos <= v@.len(),
    ensures
        match r {
            Some((ps, np)) => sp_prompt_array(v@.skip(pos as int)) == Some(
                (ps@, np - pos as int),
            ) && pos < np <= v@.len(),
            None => sp_prompt_array(v@.skip(pos as int)) is None,
        },
{
    let ghost s = v@.skip(pos as int);
    if pos >= v.len() || v[pos] != '[' {
        if pos < v.len() {
            assert(s[0] == v@[pos as int]);
        }
        return None;
    }
    assert(s[0] == v@[pos as int]);
    assert(s.skip(1) =~= v@.skip(pos + 1 as int));
    if pos + 1 < v.len() && v[pos + 1] == ']' {
        assert(s.skip(1)[0] == v@[pos + 1 as int]);
        let ps: Vec<Prompt> = Vec::new();
        assert(ps@ =~= Seq::<Prompt>::empty());
        return Some((ps, pos + 2));
    }
    if pos + 1 < v.len() {
        assert(s.skip(1)[0] == v@[pos + 1 as int]);
    }
    match parse_prompt_list_at(v, pos + 1) {
        Some((ps, np)) => Some((ps, np)),
        None => None,
    }
}

/// Reads a whole canonical payload.
#[verifier::rlimit(100)]
#[verifier::spinoff_prover]
fn decode_chars(v: &Vec<char>) -> (r: Option<Session>)
    ensures
        match r {
            Some(sess) => spec_decode_session(v@) == Some(sess@),
            None => spec_decode_session(v@) is None,
        },
{
    proof {
        assert(v@.skip(0) =~= v@);
    }
    let p1 = match expect_lit(v, 0, "{\"pkce_verifier\":") {
        Some(np) => np,
        None => {
            return None;
        },
    };
    let (pkce, p2) = match parse_quoted_string(v, p1) {
        Some(x) => x,
        None => {
            return None;
        },
    };
    assert(v@.skip(p1 as int) =~= v@.skip(0).skip(p1 as int));
    let p2b = match expect_lit(v, p2, ",\"csrf_token\":") {
        Some(np) => np,
        None => {
            return None;
        },
    };
    assert(v@.skip(p2 as int).skip((p2b - p2) as int) =~= v@.skip(p2b as int));
    let (csrf, p3) = match parse_quoted_string(v, p2b) {
        Some(x) => x,
        None => {
            return None;
        },
    };
    assert(v@.skip(p2 as int).skip((p3 - p2) as int) =~= v@.skip(p3 as int));
    let p3b = match expect_lit(v, p3, ",\"redirect_to\":") {
        Some(np) => np,
        None => {
            return None;
        },
    };
    assert(v@.skip(p3 as int).skip((p3b - p3) as int) =~= v@.skip(p3b as int));
    let (redirect, p4) = match parse_quoted_string(v, p3b) {
        Some(x) => x,
        None => {
            return None;
        },
    };
    assert(v@.skip(p3 as int).skip((p4 - p3) as int) =~= v@.skip(p4 as int));
    let p4b = match expect_lit(v, p4, ",\"extra_params\":{\"include_granted_scopes\":") {
        Some(np) => np,
        None => {
            return None;
        },
    };
    assert(v@.skip(p4 as int).skip((p4b - p4) as int) =~= v@.skip(p4b as int));
    let (granted, p5) = match parse_bool_at(v, p4b) {
        Some(x) => x,
        None => {
            return None;
        },
    };
    assert(v@.skip(p4 as int).skip((p5 - p4) as int) =~= v@.skip(p5 as int));
    let p5b = match expect_lit(v, p5, ",\"login_hint\":") {
        Some(np) => np,
        None => {
            return None;
        },
    };
    assert(v@.skip(p5 as int).skip((p5b - p5) as int) =~= v@.skip(p5b as int));
    let (login_hint, p6) = match parse_hint_at(v, p5b) {
        Some(x) => x,
        None => {
            return None;
        },
    };
    assert(v@.skip(p5 as int).skip((p6 - p5) as int) =~= v@.skip(p6 as int));
    let p6b = match expect_lit(v, p6, ",\"access_type\":") {
        Some(np) => np,
        None => {
            return None;
        },
    };
    assert(v@.skip(p6 as int).skip((p6b - p6) as int) =~= v@.skip(p6b as int));
    let (access_type, p7) = match parse_access_type_at(v, p6b) {
        Some(x) => x,
        None => {
            return None;
        },
    };
    assert(v@.skip(p6 as int).skip((p7 - p6) as int) =~= v@.skip(p7 as int));
    let p7b = match expect_lit(v, p7, ",\"prompt\":") {
        Some(np) => np,
        None => {
            return None;
        },
    };
    assert(v@.skip(p7 as int).skip((p7b - p7) as int) =~= v@.skip(p7b as int));
    let (prompt, p8) = match parse_prompt_array_at(v, p7b) {
        Some(x) => x,
        None => {
            return None;
        },
    };
    assert(v@.skip(p7 as int).skip((p8 - p7) as int) =~= v@.skip(p8 as int));
    assert(v@.skip(p7b as int).skip((p8 - p7b) as int) =~= v@.skip(p8 as int));
    let end = match expect_lit(v, p8, "}}") {
        Some(np) => np,
        None => {
            assert(v@.skip(p8 as int) != "}}"@) by {
                if v@.skip(p8 as int) == "}}"@ {
                    assert(spec_starts_with(v@.skip(p8 as int), "}}"@)) by {
                        assert(v@.skip(p8 as int).take("}}"@.len() as int) =~= "}}"@);
                    }
                }
            }
            return None;
        },
    };
    if end != v.len() {
        proof {
            reveal_strlit("}}");
            assert(v@.skip(p8 as int) != "}}"@) by {
                assert(v@.skip(p8 as int).len() != "}}"@.len());
            }
        }
        return None;
    }
    proof {
        reveal_strlit("}}");
        assert(v@.skip(p8 as int) =~= "}}"@) by {
            assert(spec_starts_with(v@.skip(p8 as int), "}}"@));
            assert(v@.skip(p8 as int).len() == "}}"@.len());
            assert(v@.skip(p8 as int).take("}}"@.len() as int) =~= v@.skip(p8 as int));
        }
    }
    let session = Session {
        pkce_verifier: pkce,
        csrf_token: csrf,
        redirect_to: redirect,
        extra_params: RequestAccessTokenExtraParams {
            include_granted_scopes: IncludeGrantedScopes(granted),
            login_hint,
            access_type,
            prompt: PromptList(prompt),
        },
    };
    Some(session)
}

} // verus!
