//! Concrete resource identifiers: a target resource, fully specified, with
//! no wildcard in any segment.

use vstd::prelude::*;

use crate::error::ElementParseError;
use crate::segments::{find_colon, has_colon, head_of, rest_of};

verus! {

/// A concrete target resource, shaped `scope:resource`.
#[derive(Debug, PartialEq)]
pub struct ScopedResource {
    pub scope: String,
    pub resource: String,
}

/// `s` parses as a `ScopedResource`: it splits at its first colon into a
/// non-empty scope and a non-empty resource.
pub open spec fn scoped_resource_ok(s: Seq<char>) -> bool {
    &&& has_colon(s)
    &&& head_of(s).len() > 0
    &&& rest_of(s).len() > 0
}

/// `sr` is the `ScopedResource` that `s` parses to.
pub open spec fn scoped_resource_of(s: Seq<char>, sr: ScopedResource) -> bool {
    &&& sr.scope@ == head_of(s)
    &&& sr.resource@ == rest_of(s)
}

/// The offending token reported when `s` does not parse as a
/// `ScopedResource`: the whole input when it has no colon, else the empty
/// segment.
pub open spec fn scoped_resource_err_token(s: Seq<char>) -> Seq<char> {
    if !has_colon(s) {
        s
    } else {
        Seq::<char>::empty()
    }
}

/// Parsing a scoped resource rejects every empty segment: a successful
/// parse has a non-empty scope and a non-empty resource, and a split that
/// yields an empty segment fails with the empty token as the offending
/// token.
pub proof fn lemma_scoped_resource_rejects_empty_segment(s: Seq<char>)
    ensures
        scoped_resource_ok(s) ==> head_of(s).len() > 0 && rest_of(s).len() > 0,
        has_colon(s) && (head_of(s).len() == 0 || rest_of(s).len() == 0) ==> !scoped_resource_ok(s)
            && scoped_resource_err_token(s) == Seq::<char>::empty(),
{
}

impl ScopedResource {
    /// Parses `scope:resource`, rejecting any empty segment and any missing
    /// separator.
    pub fn parse(value: &str) -> (r: Result<Self, ElementParseError>)
        ensures
            r is Ok <==> scoped_resource_ok(value@),
            r matches Ok(sr) ==> scoped_resource_of(value@, sr),
            r matches Err(e) ==> e.token@ == scoped_resource_err_token(value@),
    {
        match find_colon(value) {
            None => Err(ElementParseError { token: value.to_owned() }),
            Some(index) => {
                let n = value.unicode_len();
                let scope = value.substring_char(0, index);

                if scope.unicode_len() == 0 {
                    return Err(ElementParseError { token: scope.to_owned() });
                }

                let resource = value.substring_char(index + 1, n);

                if resource.unicode_len() == 0 {
                    return Err(ElementParseError { token: resource.to_owned() });
                }

                Ok(Self { scope: scope.to_owned(), resource: resource.to_owned() })
            },
        }
    }
}

} // verus!
