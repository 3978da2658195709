//! The non-empty list of scope strings requested at authorization time,
//! parsed from either a space-separated string or an array.

use crate::error::Error;
use crate::text::{spec_sep_pred, spec_tokens, string_chars, tokenize};
use vstd::prelude::*;

verus! {

/// A non-empty ordered list of OAuth scope strings. Empty input is a
/// validation error at parse time, never an empty list.
#[derive(Clone, Debug)]
pub struct ScopeList(pub Vec<String>);

impl ScopeList {
    /// Wraps a vector of scope strings.
    pub fn new(scopes: Vec<String>) -> (r: ScopeList)
        ensures
            r.0 == scopes,
    {
        ScopeList(scopes)
    }

    /// The scopes, in request order.
    pub fn scopes(&self) -> (r: &Vec<String>)
        ensures
            r == self.0,
    {
        &self.0
    }

    /// Parses a space-separated scope string. The whitespace-delimited
    /// tokens become the scopes; an input without any token is rejected
    /// with an at-least-one-scope error.
    pub fn parse_str(s: &str) -> (r: Result<ScopeList, Error>)
        ensures
            match r {
                Ok(sl) => sl.0@.map_values(|t: String| t@) == spec_tokens(s@, spec_sep_pred(false))
                    && spec_tokens(s@, spec_sep_pred(false)).len() > 0,
                Err(e) => (e matches Error::Json { because } && because@
                    == "scopes string must contain at least one scope"@ && spec_tokens(
                    s@,
                    spec_sep_pred(false),
                ).len() == 0),
            },
    {
        let chars = string_chars(s);
        let tokens = tokenize(&chars, false);
        if tokens.len() == 0 {
            assert(spec_tokens(s@, spec_sep_pred(false)).len() == 0) by {
                assert(tokens@.map_values(|t: Vec<char>| t@).len() == 0);
            }
            return Err(
                Error::Json {
                    because: "scopes string must contain at least one scope".to_owned(),
                },
            );
        }
        let mut scopes: Vec<String> = Vec::new();
        let ghost ts = tokens@.map_values(|t: Vec<char>| t@);
        let mut i: usize = 0;
        while i < tokens.len()
            invariant
                i <= tokens@.len(),
                ts == tokens@.map_values(|t: Vec<char>| t@),
                scopes@.len() == i,
                forall|j: int| 0 <= j < i ==> #[trigger] scopes@[j]@ == ts[j],
            decreases tokens@.len() - i,
        {
            proof {
                assert(ts[i as int] == tokens@[i as int]@);
            }
            let scope = crate::text::chars_to_string(&tokens[i]);
            scopes.push(scope);
            i += 1;
        }
        assert(scopes@.map_values(|t: String| t@) =~= ts);
        Ok(ScopeList(scopes))
    }

    /// Accepts an array of scope strings as given; an empty array is
    /// rejected with an at-least-one-scope error.
    pub fn parse_items(items: &Vec<String>) -> (r: Result<ScopeList, Error>)
        ensures
            match r {
                Ok(sl) => sl.0@ == items@ && items@.len() > 0,
                Err(e) => (e matches Error::Json { because } && because@
                    == "scopes array must contain at least one scope"@ && items@.len() == 0),
            },
    {
        if items.len() == 0 {
            return Err(
                Error::Json {
                    because: "scopes array must contain at least one scope".to_owned(),
                },
            );
        }
        Ok(ScopeList(items.clone()))
    }
}

} // verus!
