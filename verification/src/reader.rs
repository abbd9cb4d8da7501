//! Reading a file up to a stopping attribute.

use vstd::prelude::*;
use crate::dataset::{decode_until, decoded, record_of};
use crate::error::ExtractError;
use crate::record::stays_below;
use crate::tag::Tag;
use dicom::dictionary_std::StandardDataDictionary;
use dicom::object::InMemDicomObject;

verus! {

/// Whether `outcome` is what reading the file in `bytes` gives, when the
/// reader stops in front of the first top-level attribute that is not below
/// `stop`: the data set read so far, which holds no attribute from `stop` on,
/// or `MalformedStream` where the bytes cannot be read as a file.
pub open spec fn is_reading_of(
    bytes: Seq<u8>,
    stop: Tag,
    outcome: Result<InMemDicomObject<StandardDataDictionary>, ExtractError>,
) -> bool {
    match outcome {
        Ok(obj) => decoded(bytes, stop) == Some(record_of(obj)) && stays_below(
            record_of(obj),
            stop,
        ),
        Err(e) => e == ExtractError::MalformedStream && decoded(bytes, stop) is None,
    }
}

/// Reads the file in `bytes` from its start and stops in front of the first
/// top-level attribute that is not below `stop`, so that nothing after that
/// point has to be sound. A file that ends before `stop` is read to its end;
/// that is no error.
pub fn read_until(bytes: &[u8], stop: Tag) -> (outcome: Result<
    InMemDicomObject<StandardDataDictionary>,
    ExtractError,
>)
    ensures
        is_reading_of(bytes@, stop, outcome),
{
    match decode_until(bytes, stop) {
        Ok(obj) => Ok(obj),
        Err(_) => Err(ExtractError::MalformedStream),
    }
}

} // verus!
