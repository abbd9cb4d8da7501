//! The errors of the extractions.

use vstd::prelude::*;

verus! {

/// Why an extraction gave no value.
#[derive(Clone, Copy, Debug, PartialEq, Eq, Structural)]
pub enum ExtractError {
    /// The bytes are not a well-framed file: bad header, truncated element,
    /// undecodable length.
    MalformedStream,
    /// A mandatory attribute is not in the record.
    RequiredAttributeMissing,
    /// A mandatory attribute is there, but its value is not a primitive one.
    UnexpectedValueShape,
}

} // verus!
