use fireauth2::params::{
    AccessType, ExtraParam, IncludeGrantedScopes, Prompt, PromptList,
    RequestAccessTokenExtraParams,
};

#[test]
fn prompt_parses_the_three_wire_values() {
    assert!(matches!(Prompt::parse("none"), Ok(Prompt::NoPrompt)));
    assert!(matches!(Prompt::parse("consent"), Ok(Prompt::Consent)));
    assert!(matches!(Prompt::parse("select_account"), Ok(Prompt::SelectAccount)));
}

#[test]
fn prompt_rejects_unknown_values_naming_the_token() {
    let err = Prompt::parse("bogus").unwrap_err();
    assert_eq!(err.message(), "Invalid prompt value: 'bogus'");
    assert_eq!(err.status_code(), 400);
}

#[test]
fn prompt_list_parses_comma_separated_strings() {
    let list = PromptList::parse_str("none,consent").unwrap();
    assert_eq!(list.0, vec![Prompt::NoPrompt, Prompt::Consent]);
}

#[test]
fn prompt_list_parses_space_separated_strings() {
    let list = PromptList::parse_str("consent select_account").unwrap();
    assert_eq!(list.0, vec![Prompt::Consent, Prompt::SelectAccount]);
}

#[test]
fn prompt_list_skips_empty_segments() {
    let list = PromptList::parse_str(" consent,, select_account ").unwrap();
    assert_eq!(list.0, vec![Prompt::Consent, Prompt::SelectAccount]);
}

#[test]
fn prompt_list_parse_reports_first_bad_token() {
    let err = PromptList::parse_str("consent,nope,alsobad").unwrap_err();
    assert_eq!(err.message(), "Invalid prompt value: 'nope'");
}

#[test]
fn prompt_list_parses_arrays() {
    let items = vec!["none".to_string(), "select_account".to_string()];
    let list = PromptList::parse_items(&items).unwrap();
    assert_eq!(list.0, vec![Prompt::NoPrompt, Prompt::SelectAccount]);
}

#[test]
fn prompt_list_serializes_space_joined() {
    let list = PromptList(vec![Prompt::Consent, Prompt::SelectAccount]);
    assert_eq!(list.serialized(), "consent select_account");
    let empty = PromptList(vec![]);
    assert_eq!(empty.serialized(), "");
}

#[test]
fn access_type_round_trips_its_wire_values() {
    assert_eq!(AccessType::Online.serialized(), "online");
    assert_eq!(AccessType::Offline.serialized(), "offline");
    assert!(matches!(AccessType::parse("offline"), Some(AccessType::Offline)));
    assert!(AccessType::parse("anything").is_none());
    assert!(matches!(AccessType::default(), AccessType::Online));
}

#[test]
fn include_granted_scopes_parses_and_defaults_to_true() {
    assert_eq!(IncludeGrantedScopes::parse_str("true").unwrap(), IncludeGrantedScopes(true));
    assert_eq!(IncludeGrantedScopes::parse_str("false").unwrap(), IncludeGrantedScopes(false));
    let err = IncludeGrantedScopes::parse_str("yes").unwrap_err();
    assert_eq!(err.message(), "expected \"true\", \"false\", true, or false");
    assert_eq!(IncludeGrantedScopes::default(), IncludeGrantedScopes(true));
}

#[test]
fn default_prompt_is_consent() {
    let list = PromptList::default();
    assert_eq!(list.0, vec![Prompt::Consent]);
}

#[test]
fn extra_params_always_emit_access_type_and_prompt() {
    // Even a fully default parameter set serializes both values.
    let params = RequestAccessTokenExtraParams::new_default();
    let pairs = params.to_extra_params();
    assert_eq!(pairs.first().unwrap().0, ExtraParam::AccessType);
    assert_eq!(pairs.first().unwrap().1, "online");
    assert_eq!(pairs.last().unwrap().0, ExtraParam::Prompt);
    assert_eq!(pairs.last().unwrap().1, "consent");
}

#[test]
fn extra_params_serialize_in_order_with_optional_fields() {
    let params = RequestAccessTokenExtraParams {
        include_granted_scopes: IncludeGrantedScopes(true),
        login_hint: Some("someone@example.com".to_string()),
        access_type: AccessType::Offline,
        prompt: PromptList(vec![Prompt::Consent]),
    };
    let pairs: Vec<(String, String)> = params
        .to_extra_params()
        .into_iter()
        .map(|(k, v)| (k.into_cow(), v))
        .collect();
    assert_eq!(
        pairs,
        vec![
            ("access_type".to_string(), "offline".to_string()),
            ("include_granted_scopes".to_string(), "true".to_string()),
            ("login_hint".to_string(), "someone@example.com".to_string()),
            ("prompt".to_string(), "consent".to_string()),
        ]
    );
}

#[test]
fn extra_params_omit_flag_when_false_and_hint_when_absent() {
    let params = RequestAccessTokenExtraParams {
        include_granted_scopes: IncludeGrantedScopes(false),
        login_hint: None,
        access_type: AccessType::Online,
        prompt: PromptList(vec![Prompt::NoPrompt]),
    };
    let pairs: Vec<(String, String)> = params
        .to_extra_params()
        .into_iter()
        .map(|(k, v)| (k.into_cow(), v))
        .collect();
    assert_eq!(
        pairs,
        vec![
            ("access_type".to_string(), "online".to_string()),
            ("prompt".to_string(), "none".to_string()),
        ]
    );
}
