//! The data sets of the `dicom` crate: what is taken on trust about them.
//!
//! Nothing in this module is proved. Each function makes the calls that its
//! comment names, and its contract says what those calls are trusted to do, in
//! terms of the record that a data set holds.

use vstd::prelude::*;
use crate::record::{
    holds_primitive, holds_sequence, holds_values, stays_below, texts, Element, Record,
};
use crate::tag::Tag;
use dicom::dictionary_std::StandardDataDictionary;
use dicom::object::{InMemDicomObject, ReadError};

verus! {

/// `dicom::object::InMemDicomObject`: a data set held in memory, kept as the
/// `dicom` crate made it.
#[verifier::external_type_specification]
#[verifier::external_body]
#[verifier::reject_recursive_types(D)]
pub struct ExInMemDicomObject<D>(InMemDicomObject<D>);

/// `dicom::dictionary_std::StandardDataDictionary`: the marker type of the
/// standard attribute dictionary.
#[verifier::external_type_specification]
#[verifier::external_body]
pub struct ExStandardDataDictionary(StandardDataDictionary);

/// `dicom::object::ReadError`: why the `dicom` crate could not read a file.
#[verifier::external_type_specification]
#[verifier::external_body]
pub struct ExReadError(ReadError);

/// What a data set holds: the element under each attribute identifier it has.
pub uninterp spec fn record_of(obj: InMemDicomObject<StandardDataDictionary>) -> Map<Tag, Element>;

/// What reading `bytes` as a file gives when the reader stops in front of the
/// first top-level attribute that is not below `stop`: the record read so far,
/// or `None` where the bytes cannot be read as a file.
pub uninterp spec fn decoded(bytes: Seq<u8>, stop: Tag) -> Option<Map<Tag, Element>>;

/// The records of a run of data sets, in the same order.
pub open spec fn records_of(items: Seq<InMemDicomObject<StandardDataDictionary>>) -> Seq<Record> {
    Seq::new(items.len(), |i: int| record_of(items[i]))
}

/// What a look under one attribute identifier found.
pub(crate) enum Lookup<T> {
    /// The data set has no element under the identifier.
    Absent,
    /// It has one, of another kind than was asked for.
    Mismatch,
    /// It has one of the kind asked for, and this is what it holds.
    Found(T),
}

/// Reads a file held in memory with `OpenFileOptions::from_reader`, after
/// `OpenFileOptions::new` and `read_until(stop)`, and takes the data set out of
/// the result with `FileDicomObject::into_inner`. The reader takes the
/// preamble if there is one, the file meta group, then the top-level elements
/// in the order of the bytes, until the bytes end or an element's identifier
/// is not below `stop`; that element and what follows are not read.
///
/// Trusted: the outcome depends on `bytes` and `stop` alone, and `decoded`
/// names it; every element of a data set that was read has an identifier
/// below `stop`.
#[verifier::external_body]
pub(crate) fn decode_until(bytes: &[u8], stop: Tag) -> (outcome: Result<
    InMemDicomObject<StandardDataDictionary>,
    ReadError,
>)
    ensures
        decoded(bytes@, stop) == match outcome {
            Ok(obj) => Some(record_of(obj)),
            Err(_) => None::<Map<Tag, Element>>,
        },
        outcome matches Ok(obj) ==> stays_below(record_of(obj), stop),
{
    let until = dicom::core::Tag(stop.group, stop.element);
    match dicom::object::OpenFileOptions::new().read_until(until).from_reader(bytes) {
        Ok(file) => Ok(file.into_inner()),
        Err(e) => Err(e),
    }
}

/// `InMemDicomObject::element`, then `DataElement::to_str` on what it found:
/// the value under `tag` as one string.
///
/// Trusted: `element` fails exactly where the data set has nothing under
/// `tag`; `to_str` fails exactly where the value is not a primitive one, and
/// gives the `text` of a primitive one.
#[verifier::external_body]
pub(crate) fn text_at(obj: &InMemDicomObject<StandardDataDictionary>, tag: Tag) -> (found: Lookup<
    String,
>)
    ensures
        match found {
            Lookup::Absent => !record_of(*obj).contains_key(tag),
            Lookup::Mismatch => record_of(*obj).contains_key(tag) && !holds_primitive(
                record_of(*obj),
                tag,
            ),
            Lookup::Found(text) => holds_primitive(record_of(*obj), tag) && record_of(
                *obj,
            )[tag]->text == text@,
        },
{
    match obj.element(dicom::core::Tag(tag.group, tag.element)) {
        Ok(element) => match element.to_str() {
            Ok(text) => Lookup::Found(text.into_owned()),
            Err(_) => Lookup::Mismatch,
        },
        Err(_) => Lookup::Absent,
    }
}

/// `InMemDicomObject::element`, then `DataElement::value` on what it found:
/// a copy of the strings under `tag`, where the value is the variant
/// `PrimitiveValue::Strs`.
///
/// Trusted: `element` fails exactly where the data set has nothing under
/// `tag`; the `values` of an element are the strings of that variant, as they
/// stand and in their order, and `None` for every other value.
#[verifier::external_body]
pub(crate) fn values_at(obj: &InMemDicomObject<StandardDataDictionary>, tag: Tag) -> (found: Lookup<
    Vec<String>,
>)
    ensures
        match found {
            Lookup::Absent => !record_of(*obj).contains_key(tag),
            Lookup::Mismatch => record_of(*obj).contains_key(tag) && !holds_values(
                record_of(*obj),
                tag,
            ),
            Lookup::Found(values) => holds_values(record_of(*obj), tag) && record_of(
                *obj,
            )[tag]->values == Some(texts(values@)),
        },
{
    match obj.element(dicom::core::Tag(tag.group, tag.element)) {
        Ok(element) => match element.value() {
            dicom::core::value::Value::Primitive(dicom::core::PrimitiveValue::Strs(strings)) => {
                Lookup::Found(strings.to_vec())
            },
            _ => Lookup::Mismatch,
        },
        Err(_) => Lookup::Absent,
    }
}

/// `InMemDicomObject::element`, then `DataElement::value` and `Value::items`
/// on what it found: the items of the sequence under `tag`.
///
/// Trusted: `element` fails exactly where the data set has nothing under
/// `tag`; `items` gives `None` exactly where the value is no sequence of data
/// sets, and else its items in their order.
#[verifier::external_body]
pub(crate) fn items_at<'a>(obj: &'a InMemDicomObject<StandardDataDictionary>, tag: Tag) -> (found:
    Lookup<&'a [InMemDicomObject<StandardDataDictionary>]>)
    ensures
        match found {
            Lookup::Absent => !record_of(*obj).contains_key(tag),
            Lookup::Mismatch => record_of(*obj).contains_key(tag) && !holds_sequence(
                record_of(*obj),
                tag,
            ),
            Lookup::Found(items) => holds_sequence(record_of(*obj), tag) && record_of(
                *obj,
            )[tag]->items == records_of(items@),
        },
{
    match obj.element(dicom::core::Tag(tag.group, tag.element)) {
        Ok(element) => match element.value().items() {
            Some(items) => Lookup::Found(items),
            None => Lookup::Mismatch,
        },
        Err(_) => Lookup::Absent,
    }
}

} // verus!
