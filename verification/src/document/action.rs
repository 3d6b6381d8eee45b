//! Action documents: the policy-side pattern matched against a concrete
//! `ScopedAction`.

use vstd::prelude::*;

use crate::action::{Action, ScopedAction};
use crate::document::element::Element;
use crate::document::wildcard::{
    is_star, is_star_str, segment_matches, segment_token_of, WildcardToken,
};
use crate::error::ElementParseError;
use crate::segments::{find_colon, first_colon, has_colon, head_of, is_first_colon, rest_of};

verus! {

/// A whole action document: either the top-level wildcard `*`, or a
/// three-segment pattern `scope:verb:resource` whose segments may each be a
/// wildcard.
#[derive(Debug, PartialEq)]
pub struct ActionDocument {
    pub scoped_action: WildcardToken<ScopedActionDocument>,
}

/// The scoped pattern of an action document: a scope segment and an action
/// part, each independently wildcard-capable.
#[derive(Debug, PartialEq)]
pub struct ScopedActionDocument {
    pub scope: WildcardToken<String>,
    pub action: WildcardToken<ActionToken>,
}

/// The action part of a scoped action document: a verb segment and a
/// resource segment, each independently wildcard-capable.
#[derive(Debug, PartialEq)]
pub struct ActionToken {
    pub verb: WildcardToken<String>,
    pub resource: WildcardToken<String>,
}

/// `s` parses as an `ActionToken`: it splits at its first colon into a
/// non-empty verb segment and a non-empty resource segment.
pub open spec fn action_token_ok(s: Seq<char>) -> bool {
    &&& has_colon(s)
    &&& head_of(s).len() > 0
    &&& rest_of(s).len() > 0
}

/// `t` is the `ActionToken` that `s` parses to.
pub open spec fn action_token_of(s: Seq<char>, t: ActionToken) -> bool {
    &&& segment_token_of(head_of(s), t.verb)
    &&& segment_token_of(rest_of(s), t.resource)
}

/// The offending token reported when `s` does not parse as an
/// `ActionToken`: the whole input when it has no colon, else the empty
/// segment.
pub open spec fn action_token_err_token(s: Seq<char>) -> Seq<char> {
    if !has_colon(s) {
        s
    } else {
        Seq::<char>::empty()
    }
}

/// `s` parses as the action part of a scoped action document: the wildcard
/// `*`, or an `ActionToken`.
pub open spec fn wildcard_action_token_ok(s: Seq<char>) -> bool {
    is_star(s) || action_token_ok(s)
}

/// `w` is the action part that `s` parses to.
pub open spec fn wildcard_action_token_of(s: Seq<char>, w: WildcardToken<ActionToken>) -> bool {
    if is_star(s) {
        w is Wildcard
    } else {
        w matches WildcardToken::Value(t) && action_token_of(s, t)
    }
}

/// `s` parses as a `ScopedActionDocument`: it splits at its first colon
/// into a non-empty scope segment and an action part.
pub open spec fn scoped_action_doc_ok(s: Seq<char>) -> bool {
    &&& has_colon(s)
    &&& head_of(s).len() > 0
    &&& wildcard_action_token_ok(rest_of(s))
}

/// `d` is the `ScopedActionDocument` that `s` parses to.
pub open spec fn scoped_action_doc_of(s: Seq<char>, d: ScopedActionDocument) -> bool {
    &&& segment_token_of(head_of(s), d.scope)
    &&& wildcard_action_token_of(rest_of(s), d.action)
}

/// The offending token reported when `s` does not parse as a
/// `ScopedActionDocument`. The scope segment is checked before the action
/// part.
pub open spec fn scoped_action_doc_err_token(s: Seq<char>) -> Seq<char> {
    if !has_colon(s) {
        s
    } else if head_of(s).len() == 0 {
        Seq::<char>::empty()
    } else {
        action_token_err_token(rest_of(s))
    }
}

/// `s` parses as an `ActionDocument`: the top-level wildcard `*`, or a
/// `ScopedActionDocument`.
pub open spec fn action_doc_ok(s: Seq<char>) -> bool {
    is_star(s) || scoped_action_doc_ok(s)
}

/// `d` is the `ActionDocument` that `s` parses to.
pub open spec fn action_doc_of(s: Seq<char>, d: ActionDocument) -> bool {
    if is_star(s) {
        d.scoped_action is Wildcard
    } else {
        d.scoped_action matches WildcardToken::Value(t) && scoped_action_doc_of(s, t)
    }
}

/// The `ActionToken` `t` matches the action `a`: both the verb and the
/// resource segment match.
pub open spec fn action_token_matches(t: ActionToken, a: Action) -> bool {
    &&& segment_matches(t.verb, a.verb@)
    &&& segment_matches(t.resource, a.resource@)
}

/// The action part `w` matches the action `a`: a wildcard matches any
/// action, a token matches segment by segment.
pub open spec fn wildcard_action_token_matches(w: WildcardToken<ActionToken>, a: Action) -> bool {
    match w {
        WildcardToken::Wildcard => true,
        WildcardToken::Value(t) => action_token_matches(t, a),
    }
}

/// The `ScopedActionDocument` `d` matches the scoped action `sa`: both the
/// scope segment and the action part match.
pub open spec fn scoped_action_doc_matches(d: ScopedActionDocument, sa: ScopedAction) -> bool {
    &&& segment_matches(d.scope, sa.scope@)
    &&& wildcard_action_token_matches(d.action, sa.action)
}

/// The `ActionDocument` `d` matches the scoped action `sa`: the top-level
/// wildcard matches any scoped action, a scoped pattern matches segment by
/// segment.
pub open spec fn action_doc_matches(d: ActionDocument, sa: ScopedAction) -> bool {
    match d.scoped_action {
        WildcardToken::Wildcard => true,
        WildcardToken::Value(t) => scoped_action_doc_matches(t, sa),
    }
}

impl ActionToken {
    /// Parses `verb:resource`, where each segment may be `*`, rejecting any
    /// empty segment and any missing separator.
    pub fn parse(value: &str) -> (r: Result<Self, ElementParseError>)
        ensures
            r is Ok <==> action_token_ok(value@),
            r matches Ok(t) ==> action_token_of(value@, t),
            r matches Err(e) ==> e.token@ == action_token_err_token(value@),
    {
        match find_colon(value) {
            None => Err(ElementParseError { token: value.to_owned() }),
            Some(index) => {
                let n = value.unicode_len();

                let verb = match WildcardToken::<String>::parse(value.substring_char(0, index)) {
                    Ok(t) => t,
                    Err(e) => {
                        return Err(e);
                    },
                };

                let resource = match WildcardToken::<String>::parse(
                    value.substring_char(index + 1, n),
                ) {
                    Ok(t) => t,
                    Err(e) => {
                        return Err(e);
                    },
                };

                Ok(Self { verb, resource })
            },
        }
    }

    /// Decides whether this token matches the action `value`.
    pub fn is_match(&self, value: &Action) -> (r: bool)
        ensures
            r == action_token_matches(*self, *value),
    {
        self.verb.is_match(&value.verb) && self.resource.is_match(&value.resource)
    }
}

impl ScopedActionDocument {
    /// Parses `scope:verb:resource`, where each segment may be `*` and the
    /// whole `verb:resource` part may collapse to `*`, rejecting any empty
    /// segment and any missing separator.
    pub fn parse(value: &str) -> (r: Result<Self, ElementParseError>)
        ensures
            r is Ok <==> scoped_action_doc_ok(value@),
            r matches Ok(d) ==> scoped_action_doc_of(value@, d),
            r matches Err(e) ==> e.token@ == scoped_action_doc_err_token(value@),
    {
        match find_colon(value) {
            None => Err(ElementParseError { token: value.to_owned() }),
            Some(index) => {
                let n = value.unicode_len();

                let scope = match WildcardToken::<String>::parse(value.substring_char(0, index)) {
                    Ok(t) => t,
                    Err(e) => {
                        return Err(e);
                    },
                };

                let action_str = value.substring_char(index + 1, n);
                let action = if is_star_str(action_str) {
                    WildcardToken::Wildcard
                } else {
                    match ActionToken::parse(action_str) {
                        Ok(t) => WildcardToken::Value(t),
                        Err(e) => {
                            return Err(e);
                        },
                    }
                };

                Ok(Self { scope, action })
            },
        }
    }

    /// Decides whether this document matches the scoped action `value`.
    pub fn is_match(&self, value: &ScopedAction) -> (r: bool)
        ensures
            r == scoped_action_doc_matches(*self, *value),
    {
        let action_match = match &self.action {
            WildcardToken::Wildcard => true,
            WildcardToken::Value(t) => t.is_match(&value.action),
        };
        self.scope.is_match(&value.scope) && action_match
    }
}

impl ActionDocument {
    /// Parses a whole action document: `*`, or `scope:verb:resource` with
    /// optional per-segment wildcards.
    pub fn parse(value: &str) -> (r: Result<Self, ElementParseError>)
        ensures
            r is Ok <==> action_doc_ok(value@),
            r matches Ok(d) ==> action_doc_of(value@, d),
            r matches Err(e) ==> e.token@ == scoped_action_doc_err_token(value@),
    {
        if is_star_str(value) {
            Ok(Self { scoped_action: WildcardToken::Wildcard })
        } else {
            match ScopedActionDocument::parse(value) {
                Ok(d) => Ok(Self { scoped_action: WildcardToken::Value(d) }),
                Err(e) => Err(e),
            }
        }
    }

    /// Decides whether this document matches the scoped action `value`.
    pub fn is_match(&self, value: &ScopedAction) -> (r: bool)
        ensures
            r == action_doc_matches(*self, *value),
    {
        match &self.scoped_action {
            WildcardToken::Wildcard => true,
            WildcardToken::Value(d) => d.is_match(value),
        }
    }
}

impl Element<Action> for ActionToken {
    open spec fn spec_matches(&self, value: Action) -> bool {
        action_token_matches(*self, value)
    }

    open spec fn spec_parse_ok(s: Seq<char>) -> bool {
        action_token_ok(s)
    }

    open spec fn spec_parse_to(s: Seq<char>, element: Self) -> bool {
        action_token_of(s, element)
    }

    open spec fn spec_parse_err_token(s: Seq<char>) -> Seq<char> {
        action_token_err_token(s)
    }

    fn is_match(&self, value: &Action) -> (r: bool) {
        ActionToken::is_match(self, value)
    }

    fn parse(value: &str) -> (r: Result<Self, ElementParseError>) {
        ActionToken::parse(value)
    }
}

impl Element<ScopedAction> for ScopedActionDocument {
    open spec fn spec_matches(&self, value: ScopedAction) -> bool {
        scoped_action_doc_matches(*self, value)
    }

    open spec fn spec_parse_ok(s: Seq<char>) -> bool {
        scoped_action_doc_ok(s)
    }

    open spec fn spec_parse_to(s: Seq<char>, element: Self) -> bool {
        scoped_action_doc_of(s, element)
    }

    open spec fn spec_parse_err_token(s: Seq<char>) -> Seq<char> {
        scoped_action_doc_err_token(s)
    }

    fn is_match(&self, value: &ScopedAction) -> (r: bool) {
        ScopedActionDocument::is_match(self, value)
    }

    fn parse(value: &str) -> (r: Result<Self, ElementParseError>) {
        ScopedActionDocument::parse(value)
    }
}

impl Element<ScopedAction> for ActionDocument {
    open spec fn spec_matches(&self, value: ScopedAction) -> bool {
        action_doc_matches(*self, value)
    }

    open spec fn spec_parse_ok(s: Seq<char>) -> bool {
        action_doc_ok(s)
    }

    open spec fn spec_parse_to(s: Seq<char>, element: Self) -> bool {
        action_doc_of(s, element)
    }

    open spec fn spec_parse_err_token(s: Seq<char>) -> Seq<char> {
        scoped_action_doc_err_token(s)
    }

    fn is_match(&self, value: &ScopedAction) -> (r: bool) {
        ActionDocument::is_match(self, value)
    }

    fn parse(value: &str) -> (r: Result<Self, ElementParseError>) {
        ActionDocument::parse(value)
    }
}

/// Parsing a scoped action document rejects every empty segment, wildcards
/// notwithstanding: a successful parse has only non-empty segments, and a
/// split that yields an empty scope, verb or resource segment fails with
/// the empty token as the offending token. An input with a colon is never
/// the top-level wildcard, so the same rule carries to the whole document.
pub proof fn lemma_scoped_action_doc_rejects_empty_segment(s: Seq<char>)
    ensures
        has_colon(s) ==> !is_star(s) && (action_doc_ok(s) <==> scoped_action_doc_ok(s)),
        scoped_action_doc_ok(s) ==> head_of(s).len() > 0,
        scoped_action_doc_ok(s) && !is_star(rest_of(s)) ==> head_of(rest_of(s)).len() > 0
            && rest_of(rest_of(s)).len() > 0,
        has_colon(s) && head_of(s).len() == 0 ==> !scoped_action_doc_ok(s)
            && scoped_action_doc_err_token(s) == Seq::<char>::empty(),
        has_colon(s) && has_colon(rest_of(s)) && (head_of(rest_of(s)).len() == 0 || rest_of(
            rest_of(s),
        ).len() == 0) ==> !scoped_action_doc_ok(s) && scoped_action_doc_err_token(s)
            == Seq::<char>::empty(),
{
    if has_colon(s) {
        let i = first_colon(s);
        assert(is_first_colon(s, i));
        assert(!is_star(s));
    }
    if has_colon(s) && has_colon(rest_of(s)) {
        let i = first_colon(rest_of(s));
        assert(is_first_colon(rest_of(s), i));
        assert(!is_star(rest_of(s)));
    }
}

/// An action document that is the top-level wildcard matches every scoped
/// action.
pub proof fn lemma_wildcard_action_doc_matches_all(d: ActionDocument, sa: ScopedAction)
    requires
        d.scoped_action is Wildcard,
    ensures
        action_doc_matches(d, sa),
{
}

} // verus!
