use fireauth2::scope::ScopeList;

#[test]
fn test_deserialize_scopes_valid_string() {
    let parsed = ScopeList::parse_str("read write").unwrap();
    assert_eq!(parsed.scopes(), &vec!["read".to_string(), "write".to_string()]);
}

#[test]
fn test_deserialize_scopes_valid_array() {
    let items = vec!["read".to_string(), "write".to_string()];
    let parsed = ScopeList::parse_items(&items).unwrap();
    assert_eq!(parsed.scopes(), &vec!["read".to_string(), "write".to_string()]);
}

#[test]
fn test_deserialize_scopes_empty_string_should_fail() {
    let result = ScopeList::parse_str("");
    assert!(result.is_err());
    assert!(result.unwrap_err().message().contains("at least one scope"));
}

#[test]
fn test_deserialize_scopes_empty_array_should_fail() {
    let items: Vec<String> = vec![];
    let result = ScopeList::parse_items(&items);
    assert!(result.is_err());
    assert!(result.unwrap_err().message().contains("at least one scope"));
}

#[test]
fn test_valid_string() {
    let parsed = ScopeList::parse_str("read write").unwrap();
    assert_eq!(parsed.scopes(), &vec!["read".to_string(), "write".to_string()]);
}

#[test]
fn test_valid_array() {
    let items = vec!["read".to_string(), "write".to_string()];
    let parsed = ScopeList::parse_items(&items).unwrap();
    assert_eq!(parsed.scopes(), &vec!["read".to_string(), "write".to_string()]);
}

#[test]
fn test_empty_string_should_fail() {
    let result = ScopeList::parse_str("");
    assert!(result.is_err());
    assert!(result.unwrap_err().message().contains("at least one scope"));
}

#[test]
fn test_empty_array_should_fail() {
    let items: Vec<String> = vec![];
    let result = ScopeList::parse_items(&items);
    assert!(result.is_err());
    assert!(result.unwrap_err().message().contains("at least one scope"));
}

#[test]
fn scopes_split_on_any_whitespace() {
    let parsed = ScopeList::parse_str("  email \t profile\n").unwrap();
    assert_eq!(parsed.scopes(), &vec!["email".to_string(), "profile".to_string()]);
}

#[test]
fn whitespace_only_scope_string_fails() {
    let result = ScopeList::parse_str("   ");
    assert!(result.is_err());
    assert!(result.unwrap_err().message().contains("at least one scope"));
}
