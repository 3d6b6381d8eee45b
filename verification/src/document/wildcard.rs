//! The generic wildcard-or-value token, and its segment-level instance: a
//! document segment is either the wildcard `*` or a literal string.

use vstd::prelude::*;

use crate::document::element::Element;
use crate::error::ElementParseError;

verus! {

/// A document-side token: either the full-segment wildcard `*`, or a
/// concrete value of the wrapped type.
#[derive(Debug, PartialEq)]
pub enum WildcardToken<T> {
    Wildcard,
    Value(T),
}

/// `s` is the single-character wildcard expression `*`.
pub open spec fn is_star(s: Seq<char>) -> bool {
    s.len() == 1 && s[0] == '*'
}

/// `t` is the segment token that `s` parses to: the wildcard for `*`, a
/// literal for any other non-empty string.
pub open spec fn segment_token_of(s: Seq<char>, t: WildcardToken<String>) -> bool {
    if is_star(s) {
        t is Wildcard
    } else {
        t matches WildcardToken::Value(l) && l@ == s
    }
}

/// The segment token `t` matches the identifier segment `v`: a wildcard
/// matches anything, a literal matches exactly itself.
pub open spec fn segment_matches(t: WildcardToken<String>, v: Seq<char>) -> bool {
    match t {
        WildcardToken::Wildcard => true,
        WildcardToken::Value(l) => l@ == v,
    }
}

/// Decides whether `s` is the single-character wildcard expression `*`.
pub(crate) fn is_star_str(s: &str) -> (r: bool)
    ensures
        r == is_star(s@),
{
    let n = s.unicode_len();
    n == 1 && s.get_char(0) == '*'
}

impl WildcardToken<String> {
    /// Parses one document segment: `*` becomes the wildcard, any other
    /// non-empty string becomes a literal, and an empty segment is rejected.
    pub fn parse(value: &str) -> (r: Result<Self, ElementParseError>)
        ensures
            r is Ok <==> value@.len() > 0,
            r matches Ok(t) ==> segment_token_of(value@, t),
            r matches Err(e) ==> e.token@ == value@,
    {
        let n = value.unicode_len();
        if n == 1 && value.get_char(0) == '*' {
            Ok(WildcardToken::Wildcard)
        } else if n == 0 {
            Err(ElementParseError { token: value.to_owned() })
        } else {
            Ok(WildcardToken::Value(value.to_owned()))
        }
    }

    /// Decides whether this segment token matches the identifier segment
    /// `value`.
    pub fn is_match(&self, value: &String) -> (r: bool)
        ensures
            r == segment_matches(*self, value@),
    {
        match self {
            WildcardToken::Wildcard => true,
            WildcardToken::Value(literal) => *literal == *value,
        }
    }
}

impl Element<String> for WildcardToken<String> {
    open spec fn spec_matches(&self, value: String) -> bool {
        segment_matches(*self, value@)
    }

    open spec fn spec_parse_ok(s: Seq<char>) -> bool {
        s.len() > 0
    }

    open spec fn spec_parse_to(s: Seq<char>, element: Self) -> bool {
        segment_token_of(s, element)
    }

    open spec fn spec_parse_err_token(s: Seq<char>) -> Seq<char> {
        s
    }

    fn is_match(&self, value: &String) -> (r: bool) {
        WildcardToken::<String>::is_match(self, value)
    }

    fn parse(value: &str) -> (r: Result<Self, ElementParseError>) {
        WildcardToken::<String>::parse(value)
    }
}

} // verus!
