//! The shared contract of every document element: it parses from a
//! colon-delimited string and matches against a concrete identifier.

use vstd::prelude::*;

use crate::error::ElementParseError;

verus! {

/// The interface shared by every policy-side element: parsing from a raw
/// string and matching against an identifier of type `T`. Each
/// implementation names its own matching relation and parsing relations as
/// spec functions, and its executable methods are bound to them.
pub trait Element<T>: Sized {
    /// The matching relation of this element type.
    spec fn spec_matches(&self, value: T) -> bool;

    /// The inputs this element type parses successfully.
    spec fn spec_parse_ok(s: Seq<char>) -> bool;

    /// The element that an input parses to.
    spec fn spec_parse_to(s: Seq<char>, element: Self) -> bool;

    /// The offending token reported when an input is rejected.
    spec fn spec_parse_err_token(s: Seq<char>) -> Seq<char>;

    /// Decides whether this element matches the identifier `value`.
    fn is_match(&self, value: &T) -> (r: bool)
        ensures
            r == self.spec_matches(*value),
    ;

    /// Parses `value` into an element, or reports the offending token.
    fn parse(value: &str) -> (r: Result<Self, ElementParseError>)
        ensures
            r is Ok <==> Self::spec_parse_ok(value@),
            r matches Ok(element) ==> Self::spec_parse_to(value@, element),
            r matches Err(e) ==> e.token@ == Self::spec_parse_err_token(value@),
    ;
}

} // verus!
