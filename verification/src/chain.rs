//! Collecting the strings at the end of a path through nested sequences.

use vstd::prelude::*;
use vstd::slice::slice_subrange;
use crate::dataset::{decoded, items_at, record_of, records_of, values_at, Lookup};
use crate::error::ExtractError;
use crate::reader::read_until;
use crate::record::{holds_primitive, holds_sequence, holds_values, texts, Record};
use crate::tag::{ref_uid_order, reference_path, Tag};
use dicom::dictionary_std::StandardDataDictionary;
use dicom::object::InMemDicomObject;

verus! {

/// What walking `path` down from `record` finds: the strings at the end of
/// the path, earliest first, or `None` where no branch reaches it.
///
/// The last step must be a primitive value that is a list of strings; every
/// step before it must be a sequence, each of whose items is walked with the
/// rest of the path. A step that is missing, or of the other kind, ends its
/// branch with nothing.
pub open spec fn chain(record: Record, path: Seq<Tag>) -> Option<Seq<Seq<char>>>
    decreases path.len(), 0nat,
{
    if path.len() == 0 {
        None
    } else if path.len() == 1 {
        if holds_values(record, path[0]) {
            record[path[0]]->values
        } else {
            None
        }
    } else if holds_sequence(record, path[0]) {
        let all = gathered(record[path[0]]->items, path.skip(1));
        if all.len() > 0 {
            Some(all)
        } else {
            None
        }
    } else {
        None
    }
}

/// The strings that `path` finds in each of `items`, joined end to end in
/// the order of the items.
pub open spec fn gathered(items: Seq<Record>, path: Seq<Tag>) -> Seq<Seq<char>>
    decreases path.len(), 1 + items.len(),
{
    if items.len() == 0 {
        Seq::empty()
    } else {
        gathered(items.drop_last(), path) + found_or_nothing(chain(items.last(), path))
    }
}

/// The strings of a result, none where there is no result.
pub open spec fn found_or_nothing(found: Option<Seq<Seq<char>>>) -> Seq<Seq<char>> {
    match found {
        Some(values) => values,
        None => Seq::empty(),
    }
}

/// The strings of an optional vector, each as the characters it holds.
pub open spec fn found_texts(found: Option<Vec<String>>) -> Option<Seq<Seq<char>>> {
    match found {
        Some(values) => Some(texts(values@)),
        None => None,
    }
}

/// Walks `tags` down from `obj` and collects the strings at the end of the
/// path, in document order. However deep the data is nested, the walk goes no
/// deeper than `tags` is long.
pub fn traverse_sequence(obj: &InMemDicomObject<StandardDataDictionary>, tags: &[Tag]) -> (found:
    Option<Vec<String>>)
    ensures
        found_texts(found) == chain(record_of(*obj), tags@),
    decreases tags@.len(),
{
    if tags.len() == 0 {
        return None;
    }
    let current_tag = tags[0];
    if tags.len() == 1 {
        match values_at(obj, current_tag) {
            Lookup::Found(values) => Some(values),
            _ => None,
        }
    } else {
        let remaining_tags = slice_subrange(tags, 1, tags.len());
        match items_at(obj, current_tag) {
            Lookup::Found(items) => {
                let mut collected_values: Vec<String> = Vec::new();
                let mut i: usize = 0;
                while i < items.len()
                    invariant
                        i <= items@.len(),
                        remaining_tags@.len() < tags@.len(),
                        texts(collected_values@) == gathered(
                            records_of(items@).take(i as int),
                            remaining_tags@,
                        ),
                    decreases items@.len() - i,
                {
                    let item_found = traverse_sequence(&items[i], remaining_tags);
                    assert(records_of(items@).take(i + 1).drop_last() == records_of(items@).take(
                        i as int,
                    ));
                    if let Some(mut values) = item_found {
                        collected_values.append(&mut values);
                    } else {
                        assert(texts(collected_values@) + Seq::<Seq<char>>::empty() == texts(
                            collected_values@,
                        ));
                    }
                    i += 1;
                }
                assert(records_of(items@).take(i as int) == records_of(items@));
                if collected_values.len() > 0 {
                    Some(collected_values)
                } else {
                    None
                }
            },
            _ => None,
        }
    }
}

/// The identifiers of the series that a record refers to: what the reference
/// path finds in it, and nothing where the path finds none.
pub open spec fn record_references(record: Record) -> Seq<Seq<char>> {
    found_or_nothing(chain(record, ref_uid_order()))
}

/// The identifiers of the series that a file refers to, from what reading it
/// gave.
pub open spec fn file_references(read: Option<Record>) -> Result<Seq<Seq<char>>, ExtractError> {
    match read {
        Some(record) => Ok(record_references(record)),
        None => Err(ExtractError::MalformedStream),
    }
}

/// `parts` written one after the other with `separator` between each two.
pub open spec fn joined(parts: Seq<Seq<char>>, separator: Seq<char>) -> Seq<char>
    decreases parts.len(),
{
    if parts.len() == 0 {
        Seq::empty()
    } else if parts.len() == 1 {
        parts[0]
    } else {
        joined(parts.drop_last(), separator) + separator + parts.last()
    }
}

/// An outcome with its strings as the characters they hold.
pub open spec fn viewed_texts(outcome: Result<Vec<String>, ExtractError>) -> Result<
    Seq<Seq<char>>,
    ExtractError,
> {
    match outcome {
        Ok(values) => Ok(texts(values@)),
        Err(e) => Err(e),
    }
}

/// Writes `parts` one after the other with `separator` between each two.
pub fn join(parts: &[String], separator: &str) -> (text: String)
    ensures
        text@ == joined(texts(parts@), separator@),
{
    let mut text = String::new();
    let mut i: usize = 0;
    while i < parts.len()
        invariant
            i <= parts@.len(),
            text@ == joined(texts(parts@).take(i as int), separator@),
        decreases parts@.len() - i,
    {
        assert(texts(parts@).take(i + 1).drop_last() == texts(parts@).take(i as int));
        if i > 0 {
            text.append(separator);
        }
        text.append(parts[i].as_str());
        i += 1;
    }
    assert(texts(parts@).take(i as int) == texts(parts@));
    text
}

/// The identifiers of the series that a data set, read before, refers to.
pub fn reference_chain(obj: &InMemDicomObject<StandardDataDictionary>) -> (uids: Vec<String>)
    ensures
        texts(uids@) == record_references(record_of(*obj)),
{
    let path = reference_path();
    match traverse_sequence(obj, path.as_slice()) {
        Some(uids) => uids,
        None => Vec::new(),
    }
}

/// The identifiers of the series that the file in `bytes` refers to, in
/// document order. The file is read no further than to its pixel data. A file
/// in which the reference path leads nowhere gives no identifiers, and no
/// error.
pub fn extract_reference_chain(bytes: &[u8]) -> (outcome: Result<Vec<String>, ExtractError>)
    ensures
        viewed_texts(outcome) == file_references(decoded(bytes@, Tag::pixel_data())),
{
    match read_until(bytes, Tag::pixel_data()) {
        Ok(obj) => Ok(reference_chain(&obj)),
        Err(e) => Err(e),
    }
}

/// A record that lacks the first attribute of the path gives no result.
pub proof fn missing_first_step_gives_nothing(record: Record, path: Seq<Tag>)
    requires
        path.len() >= 1,
        !record.contains_key(path[0]),
    ensures
        chain(record, path) is None,
{
}

/// A file whose record lacks the first attribute of the reference path refers
/// to no series; that is an empty answer, not an error.
pub proof fn missing_reference_sequence_gives_no_identifiers(record: Record)
    requires
        !record.contains_key(Tag::referenced_frame_of_reference_sequence()),
    ensures
        file_references(Some(record)) == Ok::<Seq<Seq<char>>, ExtractError>(Seq::empty()),
        joined(record_references(record), ","@) == Seq::<char>::empty(),
{
    missing_first_step_gives_nothing(record, ref_uid_order());
}

/// A sequence without items gives no result.
pub proof fn empty_sequence_gives_nothing(record: Record, path: Seq<Tag>)
    requires
        path.len() >= 2,
        holds_sequence(record, path[0]),
        record[path[0]]->items.len() == 0,
    ensures
        chain(record, path) is None,
{
}

/// Where the path expects a sequence and the record holds a primitive value,
/// the walk finds nothing.
pub proof fn primitive_in_place_of_sequence_gives_nothing(record: Record, path: Seq<Tag>)
    requires
        path.len() >= 2,
        holds_primitive(record, path[0]),
    ensures
        chain(record, path) is None,
{
}

/// Where the path ends and the record holds a sequence, the walk finds
/// nothing.
pub proof fn sequence_in_place_of_values_gives_nothing(record: Record, path: Seq<Tag>)
    requires
        path.len() == 1,
        holds_sequence(record, path[0]),
    ensures
        chain(record, path) is None,
{
}

/// What a path finds in a run of records is what it finds in the first of
/// them, followed by what it finds in the rest: document order is kept.
pub proof fn gathered_in_order(first: Seq<Record>, rest: Seq<Record>, path: Seq<Tag>)
    ensures
        gathered(first + rest, path) == gathered(first, path) + gathered(rest, path),
    decreases rest.len(),
{
    if rest.len() > 0 {
        gathered_in_order(first, rest.drop_last(), path);
        assert((first + rest).drop_last() == first + rest.drop_last());
    }
}

/// One record alone gives what the path finds in it.
pub proof fn gathered_of_one(item: Record, path: Seq<Tag>)
    ensures
        gathered(seq![item], path) == found_or_nothing(chain(item, path)),
{
    reveal_with_fuel(gathered, 2);
}

/// A sequence of two items gives what the rest of the path finds in the first
/// item, then what it finds in the second.
pub proof fn two_items_give_both_in_order(
    record: Record,
    path: Seq<Tag>,
    first: Seq<Seq<char>>,
    second: Seq<Seq<char>>,
)
    requires
        path.len() >= 2,
        holds_sequence(record, path[0]),
        record[path[0]]->items.len() == 2,
        chain(record[path[0]]->items[0], path.skip(1)) == Some(first),
        chain(record[path[0]]->items[1], path.skip(1)) == Some(second),
        first.len() + second.len() > 0,
    ensures
        chain(record, path) == Some(first + second),
{
    let items = record[path[0]]->items;
    let rest = path.skip(1);
    assert(items == seq![items[0]] + seq![items[1]]);
    gathered_in_order(seq![items[0]], seq![items[1]], rest);
    gathered_of_one(items[0], rest);
    gathered_of_one(items[1], rest);
}

/// An item in which the path finds nothing adds nothing to what the items
/// around it give, and stops none of them.
pub proof fn item_without_result_adds_nothing(
    before: Seq<Record>,
    item: Record,
    after: Seq<Record>,
    path: Seq<Tag>,
)
    requires
        chain(item, path) is None,
    ensures
        gathered(before + seq![item] + after, path) == gathered(before + after, path),
{
    gathered_in_order(before + seq![item], after, path);
    gathered_in_order(before, seq![item], path);
    gathered_in_order(before, after, path);
    gathered_of_one(item, path);
}

/// The identifiers of a file depend on its bytes alone: two answers for the
/// same bytes are the same answer.
pub proof fn same_bytes_same_references(
    bytes: Seq<u8>,
    first: Result<Vec<String>, ExtractError>,
    second: Result<Vec<String>, ExtractError>,
)
    requires
        viewed_texts(first) == file_references(decoded(bytes, Tag::pixel_data())),
        viewed_texts(second) == file_references(decoded(bytes, Tag::pixel_data())),
    ensures
        viewed_texts(first) == viewed_texts(second),
{
}

} // verus!
