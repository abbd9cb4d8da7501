//! The model of a decoded record, over which the contracts are stated.

use vstd::prelude::*;
use crate::tag::Tag;

verus! {

/// The value held under one attribute of a record.
pub enum Element {
    /// A primitive value. `text` is the whole value rendered as one string.
    /// `values` is the list of its strings where the value is held as a list
    /// of strings, and `None` for numbers, dates, binary data, a single text
    /// and the empty value.
    Primitive { text: Seq<char>, values: Option<Seq<Seq<char>>> },
    /// Nested records, in document order.
    Sequence { items: Seq<Map<Tag, Element>> },
    /// Encapsulated pixel data: neither of the two above.
    Encapsulated,
}

/// A decoded record: at most one element under each attribute identifier.
pub type Record = Map<Tag, Element>;

/// Whether every attribute of `record` comes before `stop`.
pub open spec fn stays_below(record: Record, stop: Tag) -> bool {
    forall|tag: Tag| record.contains_key(tag) ==> tag.below(stop)
}

/// Whether `record` holds a sequence under `tag`.
pub open spec fn holds_sequence(record: Record, tag: Tag) -> bool {
    record.contains_key(tag) && record[tag] is Sequence
}

/// Whether `record` holds, under `tag`, a primitive value that is a list of
/// strings.
pub open spec fn holds_values(record: Record, tag: Tag) -> bool {
    record.contains_key(tag) && record[tag] is Primitive && record[tag]->values is Some
}

/// Whether `record` holds a primitive value under `tag`.
pub open spec fn holds_primitive(record: Record, tag: Tag) -> bool {
    record.contains_key(tag) && record[tag] is Primitive
}

/// The strings of a vector, each as the characters it holds.
pub open spec fn texts(strings: Seq<String>) -> Seq<Seq<char>> {
    Seq::new(strings.len(), |i: int| strings[i]@)
}

} // verus!
