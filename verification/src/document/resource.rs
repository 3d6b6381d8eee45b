//! Resource documents: the policy-side pattern matched against a concrete
//! `ScopedResource`.

use vstd::prelude::*;

use crate::document::element::Element;
use crate::document::wildcard::{
    is_star, is_star_str, segment_matches, segment_token_of, WildcardToken,
};
use crate::error::ElementParseError;
use crate::resource::ScopedResource;
use crate::segments::{find_colon, first_colon, has_colon, head_of, is_first_colon, rest_of};

verus! {

/// A whole resource document: either the top-level wildcard `*`, or a
/// two-segment pattern `scope:resource` whose segments may each be a
/// wildcard.
#[derive(Debug, PartialEq)]
pub struct ResourceDocument {
    pub scoped_resource: WildcardToken<ScopedResourceToken>,
}

/// The scoped pattern of a resource document: a scope segment and a
/// resource segment, each independently wildcard-capable.
#[derive(Debug, PartialEq)]
pub struct ScopedResourceToken {
    pub scope: WildcardToken<String>,
    pub resource: WildcardToken<String>,
}

/// `s` parses as a `ScopedResourceToken`: it splits at its first colon
/// into a non-empty scope segment and a non-empty resource segment.
pub open spec fn scoped_resource_token_ok(s: Seq<char>) -> bool {
    &&& has_colon(s)
    &&& head_of(s).len() > 0
    &&& rest_of(s).len() > 0
}

/// `t` is the `ScopedResourceToken` that `s` parses to.
pub open spec fn scoped_resource_token_of(s: Seq<char>, t: ScopedResourceToken) -> bool {
    &&& segment_token_of(head_of(s), t.scope)
    &&& segment_token_of(rest_of(s), t.resource)
}

/// The offending token reported when `s` does not parse as a
/// `ScopedResourceToken`: the whole input when it has no colon, else the
/// empty segment.
pub open spec fn scoped_resource_token_err_token(s: Seq<char>) -> Seq<char> {
    if !has_colon(s) {
        s
    } else {
        Seq::<char>::empty()
    }
}

/// `s` parses as a `ResourceDocument`: the top-level wildcard `*`, or a
/// `ScopedResourceToken`.
pub open spec fn resource_doc_ok(s: Seq<char>) -> bool {
    is_star(s) || scoped_resource_token_ok(s)
}

/// `d` is the `ResourceDocument` that `s` parses to.
pub open spec fn resource_doc_of(s: Seq<char>, d: ResourceDocument) -> bool {
    if is_star(s) {
        d.scoped_resource is Wildcard
    } else {
        d.scoped_resource matches WildcardToken::Value(t) && scoped_resource_token_of(s, t)
    }
}

/// The `ScopedResourceToken` `t` matches the scoped resource `sr`: both
/// the scope segment and the resource segment match.
pub open spec fn scoped_resource_token_matches(t: ScopedResourceToken, sr: ScopedResource) -> bool {
    &&& segment_matches(t.scope, sr.scope@)
    &&& segment_matches(t.resource, sr.resource@)
}

/// The `ResourceDocument` `d` matches the scoped resource `sr`: the
/// top-level wildcard matches any scoped resource, a scoped pattern matches
/// segment by segment.
pub open spec fn resource_doc_matches(d: ResourceDocument, sr: ScopedResource) -> bool {
    match d.scoped_resource {
        WildcardToken::Wildcard => true,
        WildcardToken::Value(t) => scoped_resource_token_matches(t, sr),
    }
}

impl ScopedResourceToken {
    /// Parses `scope:resource`, where each segment may be `*`, rejecting
    /// any empty segment and any missing separator.
    pub fn parse(value: &str) -> (r: Result<Self, ElementParseError>)
        ensures
            r is Ok <==> scoped_resource_token_ok(value@),
            r matches Ok(t) ==> scoped_resource_token_of(value@, t),
            r matches Err(e) ==> e.token@ == scoped_resource_token_err_token(value@),
    {
        match find_colon(value) {
            None => Err(ElementParseError { token: value.to_owned() }),
            Some(index) => {
                let n = value.unicode_len();

                let scope = match WildcardToken::<String>::parse(value.substring_char(0, index)) {
                    Ok(t) => t,
                    Err(e) => {
                        return Err(e);
                    },
                };

                let resource = match WildcardToken::<String>::parse(
                    value.substring_char(index + 1, n),
                ) {
                    Ok(t) => t,
                    Err(e) => {
                        return Err(e);
                    },
                };

                Ok(Self { scope, resource })
            },
        }
    }

    /// Decides whether this token matches the scoped resource `value`.
    pub fn is_match(&self, value: &ScopedResource) -> (r: bool)
        ensures
            r == scoped_resource_token_matches(*self, *value),
    {
        self.scope.is_match(&value.scope) && self.resource.is_match(&value.resource)
    }
}

impl ResourceDocument {
    /// Parses a whole resource document: `*`, or `scope:resource` with
    /// optional per-segment wildcards.
    pub fn parse(value: &str) -> (r: Result<Self, ElementParseError>)
        ensures
            r is Ok <==> resource_doc_ok(value@),
            r matches Ok(d) ==> resource_doc_of(value@, d),
            r matches Err(e) ==> e.token@ == scoped_resource_token_err_token(value@),
    {
        if is_star_str(value) {
            Ok(Self { scoped_resource: WildcardToken::Wildcard })
        } else {
            match ScopedResourceToken::parse(value) {
                Ok(t) => Ok(Self { scoped_resource: WildcardToken::Value(t) }),
                Err(e) => Err(e),
            }
        }
    }

    /// Decides whether this document matches the scoped resource `value`.
    pub fn is_match(&self, value: &ScopedResource) -> (r: bool)
        ensures
            r == resource_doc_matches(*self, *value),
    {
        match &self.scoped_resource {
            WildcardToken::Wildcard => true,
            WildcardToken::Value(t) => t.is_match(value),
        }
    }
}

impl Element<ScopedResource> for ScopedResourceToken {
    open spec fn spec_matches(&self, value: ScopedResource) -> bool {
        scoped_resource_token_matches(*self, value)
    }

    open spec fn spec_parse_ok(s: Seq<char>) -> bool {
        scoped_resource_token_ok(s)
    }

    open spec fn spec_parse_to(s: Seq<char>, element: Self) -> bool {
        scoped_resource_token_of(s, element)
    }

    open spec fn spec_parse_err_token(s: Seq<char>) -> Seq<char> {
        scoped_resource_token_err_token(s)
    }

    fn is_match(&self, value: &ScopedResource) -> (r: bool) {
        ScopedResourceToken::is_match(self, value)
    }

    fn parse(value: &str) -> (r: Result<Self, ElementParseError>) {
        ScopedResourceToken::parse(value)
    }
}

impl Element<ScopedResource> for ResourceDocument {
    open spec fn spec_matches(&self, value: ScopedResource) -> bool {
        resource_doc_matches(*self, value)
    }

    open spec fn spec_parse_ok(s: Seq<char>) -> bool {
        resource_doc_ok(s)
    }

    open spec fn spec_parse_to(s: Seq<char>, element: Self) -> bool {
        resource_doc_of(s, element)
    }

    open spec fn spec_parse_err_token(s: Seq<char>) -> Seq<char> {
        scoped_resource_token_err_token(s)
    }

    fn is_match(&self, value: &ScopedResource) -> (r: bool) {
        ResourceDocument::is_match(self, value)
    }

    fn parse(value: &str) -> (r: Result<Self, ElementParseError>) {
        ResourceDocument::parse(value)
    }
}

/// Parsing a scoped resource pattern rejects every empty segment,
/// wildcards notwithstanding: a successful parse has two non-empty
/// segments, and a split that yields an empty segment fails with the empty
/// token as the offending token. An input with a colon is never the
/// top-level wildcard, so the same rule carries to the whole document.
pub proof fn lemma_scoped_resource_token_rejects_empty_segment(s: Seq<char>)
    ensures
        scoped_resource_token_ok(s) ==> head_of(s).len() > 0 && rest_of(s).len() > 0,
        has_colon(s) && (head_of(s).len() == 0 || rest_of(s).len() == 0)
            ==> !scoped_resource_token_ok(s) && scoped_resource_token_err_token(s)
            == Seq::<char>::empty(),
        has_colon(s) ==> !is_star(s) && (resource_doc_ok(s) <==> scoped_resource_token_ok(s)),
{
    if has_colon(s) {
        let i = first_colon(s);
        assert(is_first_colon(s, i));
        assert(!is_star(s));
    }
}

/// A resource document that is the top-level wildcard matches every scoped
/// resource.
pub proof fn lemma_wildcard_resource_doc_matches_all(d: ResourceDocument, sr: ScopedResource)
    requires
        d.scoped_resource is Wildcard,
    ensures
        resource_doc_matches(d, sr),
{
}

/// For a resource pattern with a literal scope segment and a wildcard
/// resource segment, the match result depends on the identifier's scope
/// alone: it holds exactly when the scope equals the literal, whatever the
/// identifier's resource segment is.
pub proof fn lemma_literal_scope_wildcard_resource(
    t: ScopedResourceToken,
    literal: String,
    sr: ScopedResource,
)
    requires
        t.scope == WildcardToken::Value(literal),
        t.resource is Wildcard,
    ensures
        scoped_resource_token_matches(t, sr) <==> literal@ == sr.scope@,
{
}

/// The document-level form of the segment-independence law: for a whole
/// resource document whose pattern has a literal scope and a wildcard
/// resource, the match result is decided by the identifier's scope alone.
pub proof fn lemma_literal_scope_wildcard_resource_doc(
    d: ResourceDocument,
    t: ScopedResourceToken,
    literal: String,
    sr: ScopedResource,
)
    requires
        d.scoped_resource == WildcardToken::Value(t),
        t.scope == WildcardToken::Value(literal),
        t.resource is Wildcard,
    ensures
        resource_doc_matches(d, sr) <==> literal@ == sr.scope@,
{
}

} // verus!
