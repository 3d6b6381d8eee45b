use vstd::prelude::*;

verus! {

/// The error raised when a scoped identifier or a policy document cannot be
/// parsed. It carries the offending token: the whole input when a required
/// `:` separator is missing, or the (possibly empty) segment that was
/// rejected.
#[derive(Debug, PartialEq)]
pub struct ElementParseError {
    pub token: String,
}

} // verus!
