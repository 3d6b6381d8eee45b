//! Concrete action identifiers: a requested action, fully specified, with no
//! wildcard in any segment.

use vstd::prelude::*;

use crate::error::ElementParseError;
use crate::segments::{find_colon, has_colon, head_of, rest_of};

verus! {

/// A concrete requested action, shaped `scope:verb:resource`.
#[derive(Debug, PartialEq)]
pub struct ScopedAction {
    pub scope: String,
    pub action: Action,
}

/// The action part of a scoped action, shaped `verb:resource`.
#[derive(Debug, PartialEq)]
pub struct Action {
    pub verb: String,
    pub resource: String,
}

/// `s` parses as an `Action`: it splits at its first colon into a non-empty
/// verb and a non-empty resource.
pub open spec fn action_ok(s: Seq<char>) -> bool {
    &&& has_colon(s)
    &&& head_of(s).len() > 0
    &&& rest_of(s).len() > 0
}

/// `a` is the `Action` that `s` parses to.
pub open spec fn action_of(s: Seq<char>, a: Action) -> bool {
    &&& a.verb@ == head_of(s)
    &&& a.resource@ == rest_of(s)
}

/// The offending token reported when `s` does not parse as an `Action`:
/// the whole input when it has no colon, else the empty segment.
pub open spec fn action_err_token(s: Seq<char>) -> Seq<char> {
    if !has_colon(s) {
        s
    } else {
        Seq::<char>::empty()
    }
}

/// `s` parses as a `ScopedAction`: it splits at its first colon into a
/// non-empty scope and a remainder that parses as an `Action`.
pub open spec fn scoped_action_ok(s: Seq<char>) -> bool {
    &&& has_colon(s)
    &&& head_of(s).len() > 0
    &&& action_ok(rest_of(s))
}

/// `sa` is the `ScopedAction` that `s` parses to.
pub open spec fn scoped_action_of(s: Seq<char>, sa: ScopedAction) -> bool {
    &&& sa.scope@ == head_of(s)
    &&& action_of(rest_of(s), sa.action)
}

/// The offending token reported when `s` does not parse as a
/// `ScopedAction`. The scope segment is checked before the remainder.
pub open spec fn scoped_action_err_token(s: Seq<char>) -> Seq<char> {
    if !has_colon(s) {
        s
    } else if head_of(s).len() == 0 {
        Seq::<char>::empty()
    } else {
        action_err_token(rest_of(s))
    }
}

/// Parsing an action rejects every empty segment: a successful parse has a
/// non-empty verb and a non-empty resource, and a split that yields an
/// empty segment fails with the empty token as the offending token.
pub proof fn lemma_action_rejects_empty_segment(s: Seq<char>)
    ensures
        action_ok(s) ==> head_of(s).len() > 0 && rest_of(s).len() > 0,
        has_colon(s) && (head_of(s).len() == 0 || rest_of(s).len() == 0) ==> !action_ok(s)
            && action_err_token(s) == Seq::<char>::empty(),
{
}

/// Parsing a scoped action rejects every empty segment: a successful parse
/// has only non-empty segments, and a split that yields an empty scope,
/// verb or resource fails with the empty token as the offending token.
pub proof fn lemma_scoped_action_rejects_empty_segment(s: Seq<char>)
    ensures
        scoped_action_ok(s) ==> head_of(s).len() > 0 && head_of(rest_of(s)).len() > 0 && rest_of(
            rest_of(s),
        ).len() > 0,
        has_colon(s) && head_of(s).len() == 0 ==> !scoped_action_ok(s) && scoped_action_err_token(
            s,
        ) == Seq::<char>::empty(),
        has_colon(s) && has_colon(rest_of(s)) && (head_of(rest_of(s)).len() == 0 || rest_of(
            rest_of(s),
        ).len() == 0) ==> !scoped_action_ok(s) && scoped_action_err_token(s)
            == Seq::<char>::empty(),
{
}

impl ScopedAction {
    /// Parses `scope:verb:resource`, rejecting any empty segment and any
    /// missing separator.
    pub fn parse(value: &str) -> (r: Result<Self, ElementParseError>)
        ensures
            r is Ok <==> scoped_action_ok(value@),
            r matches Ok(sa) ==> scoped_action_of(value@, sa),
            r matches Err(e) ==> e.token@ == scoped_action_err_token(value@),
    {
        match find_colon(value) {
            None => Err(ElementParseError { token: value.to_owned() }),
            Some(index) => {
                let n = value.unicode_len();
                let scope = value.substring_char(0, index);

                if scope.unicode_len() == 0 {
                    return Err(ElementParseError { token: scope.to_owned() });
                }

                let action = value.substring_char(index + 1, n);

                match Action::parse(action) {
                    Ok(a) => Ok(Self { scope: scope.to_owned(), action: a }),
                    Err(e) => Err(e),
                }
            },
        }
    }
}

impl Action {
    /// Parses `verb:resource`, rejecting any empty segment and any missing
    /// separator.
    pub fn parse(value: &str) -> (r: Result<Self, ElementParseError>)
        ensures
            r is Ok <==> action_ok(value@),
            r matches Ok(a) ==> action_of(value@, a),
            r matches Err(e) ==> e.token@ == action_err_token(value@),
    {
        match find_colon(value) {
            None => Err(ElementParseError { token: value.to_owned() }),
            Some(index) => {
                let n = value.unicode_len();
                let verb = value.substring_char(0, index);

                if verb.unicode_len() == 0 {
                    return Err(ElementParseError { token: verb.to_owned() });
                }

                let resource = value.substring_char(index + 1, n);

                if resource.unicode_len() == 0 {
                    return Err(ElementParseError { token: resource.to_owned() });
                }

                Ok(Self { verb: verb.to_owned(), resource: resource.to_owned() })
            },
        }
    }
}

} // verus!
