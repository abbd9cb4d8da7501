//! The modality of a record, and the two extractions on the bytes of a file.

use vstd::prelude::*;
use crate::chain::{extract_reference_chain, file_references, join, joined};
use crate::dataset::{decoded, record_of, text_at, Lookup};
use crate::error::ExtractError;
use crate::reader::read_until;
use crate::record::{holds_primitive, Record};
use crate::tag::Tag;
use dicom::dictionary_std::StandardDataDictionary;
use dicom::object::InMemDicomObject;

verus! {

/// What kind of object a record is: one of five known kinds, or the code of
/// another kind as it was read.
#[derive(Debug, PartialEq, Eq)]
pub enum Modality {
    RTSTRUCT,
    CT,
    RTDOSE,
    SEG,
    RTPLAN,
    Unknown(String),
}

/// A modality with its text as the characters it holds.
pub enum ModalityView {
    RTSTRUCT,
    CT,
    RTDOSE,
    SEG,
    RTPLAN,
    Unknown(Seq<char>),
}

impl View for Modality {
    type V = ModalityView;

    open spec fn view(&self) -> ModalityView {
        match self {
            Modality::RTSTRUCT => ModalityView::RTSTRUCT,
            Modality::CT => ModalityView::CT,
            Modality::RTDOSE => ModalityView::RTDOSE,
            Modality::SEG => ModalityView::SEG,
            Modality::RTPLAN => ModalityView::RTPLAN,
            Modality::Unknown(text) => ModalityView::Unknown(text@),
        }
    }
}

/// The modality that a code stands for: the known kind whose code it is,
/// letter for letter, and else the code itself.
pub open spec fn classified(code: Seq<char>) -> ModalityView {
    if code == "RTSTRUCT"@ {
        ModalityView::RTSTRUCT
    } else if code == "CT"@ {
        ModalityView::CT
    } else if code == "RTDOSE"@ {
        ModalityView::RTDOSE
    } else if code == "SEG"@ {
        ModalityView::SEG
    } else if code == "RTPLAN"@ {
        ModalityView::RTPLAN
    } else {
        ModalityView::Unknown(code)
    }
}

/// How a modality is written: a known kind as its code, another as the text
/// it carries.
pub open spec fn rendering(modality: ModalityView) -> Seq<char> {
    match modality {
        ModalityView::RTSTRUCT => "RTSTRUCT"@,
        ModalityView::CT => "CT"@,
        ModalityView::RTDOSE => "RTDOSE"@,
        ModalityView::SEG => "SEG"@,
        ModalityView::RTPLAN => "RTPLAN"@,
        ModalityView::Unknown(text) => text,
    }
}

/// The modality of a record: its Modality attribute, which must be there and
/// hold a primitive value, classified by that value's text.
pub open spec fn record_modality(record: Record) -> Result<ModalityView, ExtractError> {
    if !record.contains_key(Tag::modality()) {
        Err(ExtractError::RequiredAttributeMissing)
    } else if !holds_primitive(record, Tag::modality()) {
        Err(ExtractError::UnexpectedValueShape)
    } else {
        Ok(classified(record[Tag::modality()]->text))
    }
}

/// The modality of a file, from what reading it gave.
pub open spec fn file_modality(read: Option<Record>) -> Result<ModalityView, ExtractError> {
    match read {
        Some(record) => record_modality(record),
        None => Err(ExtractError::MalformedStream),
    }
}

/// An outcome with its modality as a view.
pub open spec fn viewed(outcome: Result<Modality, ExtractError>) -> Result<
    ModalityView,
    ExtractError,
> {
    match outcome {
        Ok(modality) => Ok(modality@),
        Err(e) => Err(e),
    }
}

/// An outcome with its text as the characters it holds.
pub open spec fn viewed_text(outcome: Result<String, ExtractError>) -> Result<
    Seq<char>,
    ExtractError,
> {
    match outcome {
        Ok(text) => Ok(text@),
        Err(e) => Err(e),
    }
}

/// How the modality of a file is written, from what reading it gave.
pub open spec fn file_modality_text(read: Option<Record>) -> Result<Seq<char>, ExtractError> {
    match file_modality(read) {
        Ok(modality) => Ok(rendering(modality)),
        Err(e) => Err(e),
    }
}

impl Modality {
    /// The modality as text.
    pub fn to_string(&self) -> (text: String)
        ensures
            text@ == rendering(self@),
    {
        match self {
            Modality::RTSTRUCT => "RTSTRUCT".to_owned(),
            Modality::CT => "CT".to_owned(),
            Modality::RTDOSE => "RTDOSE".to_owned(),
            Modality::SEG => "SEG".to_owned(),
            Modality::RTPLAN => "RTPLAN".to_owned(),
            Modality::Unknown(modality) => modality.clone(),
        }
    }
}

/// Classifies a modality code. The match is exact: a code that differs from
/// the five known ones in case or by a blank is kept as it is.
pub fn classify(code: &str) -> (modality: Modality)
    ensures
        modality@ == classified(code@),
{
    let code = code.to_owned();
    if code == "RTSTRUCT".to_owned() {
        Modality::RTSTRUCT
    } else if code == "CT".to_owned() {
        Modality::CT
    } else if code == "RTDOSE".to_owned() {
        Modality::RTDOSE
    } else if code == "SEG".to_owned() {
        Modality::SEG
    } else if code == "RTPLAN".to_owned() {
        Modality::RTPLAN
    } else {
        Modality::Unknown(code)
    }
}

/// The modality of a data set that was read before.
pub fn modality_of(obj: &InMemDicomObject<StandardDataDictionary>) -> (outcome: Result<
    Modality,
    ExtractError,
>)
    ensures
        viewed(outcome) == record_modality(record_of(*obj)),
{
    match text_at(obj, Tag::modality()) {
        Lookup::Found(text) => Ok(classify(text.as_str())),
        Lookup::Mismatch => Err(ExtractError::UnexpectedValueShape),
        Lookup::Absent => Err(ExtractError::RequiredAttributeMissing),
    }
}

/// The modality of the file that `bytes` holds. The file is read no further
/// than to the attribute that follows Modality.
pub fn get_modality(bytes: &[u8]) -> (outcome: Result<Modality, ExtractError>)
    ensures
        viewed(outcome) == file_modality(decoded(bytes@, Tag::modalities_in_study())),
{
    match read_until(bytes, Tag::modalities_in_study()) {
        Ok(obj) => modality_of(&obj),
        Err(e) => Err(e),
    }
}

/// The modality of a file as text, and the empty text where there is no file.
pub fn modality(bytes: Option<&[u8]>) -> (outcome: Result<String, ExtractError>)
    ensures
        viewed_text(outcome) == match bytes {
            Some(file) => file_modality_text(decoded(file@, Tag::modalities_in_study())),
            None => Ok(Seq::<char>::empty()),
        },
{
    let modality = match bytes {
        Some(file) => get_modality(file),
        None => return Ok(String::new()),
    };
    match modality {
        Ok(found) => Ok(found.to_string()),
        Err(e) => Err(e),
    }
}

/// The identifiers of the series that a file refers to, written with commas
/// between them, from what reading the file gave.
pub open spec fn file_references_text(read: Option<Record>) -> Result<Seq<char>, ExtractError> {
    match file_references(read) {
        Ok(uids) => Ok(joined(uids, ","@)),
        Err(e) => Err(e),
    }
}

/// The identifiers of the series that the file in `bytes` refers to, with
/// commas between them; the empty text where it refers to none.
pub fn getrefct(bytes: &[u8]) -> (outcome: Result<String, ExtractError>)
    ensures
        viewed_text(outcome) == file_references_text(decoded(bytes@, Tag::pixel_data())),
{
    match extract_reference_chain(bytes) {
        Ok(uids) => Ok(join(uids.as_slice(), ",")),
        Err(e) => Err(e),
    }
}

/// Each of the five known codes stands for its own kind.
pub proof fn known_codes_are_classified()
    ensures
        classified("RTSTRUCT"@) == ModalityView::RTSTRUCT,
        classified("CT"@) == ModalityView::CT,
        classified("RTDOSE"@) == ModalityView::RTDOSE,
        classified("SEG"@) == ModalityView::SEG,
        classified("RTPLAN"@) == ModalityView::RTPLAN,
{
    reveal_strlit("RTSTRUCT");
    reveal_strlit("CT");
    reveal_strlit("RTDOSE");
    reveal_strlit("SEG");
    reveal_strlit("RTPLAN");
    assert("CT"@.len() == 2);
    assert("SEG"@.len() == 3);
    assert("RTDOSE"@[2] == 'D' && "RTPLAN"@[2] == 'P');
}

/// A code that is none of the five known ones is kept as it is, letter for
/// letter.
pub proof fn other_codes_are_kept(code: Seq<char>)
    requires
        code != "RTSTRUCT"@,
        code != "CT"@,
        code != "RTDOSE"@,
        code != "SEG"@,
        code != "RTPLAN"@,
    ensures
        classified(code) == ModalityView::Unknown(code),
{
}

/// Writing the modality that a code stands for gives the code back.
pub proof fn rendering_gives_the_code_back(code: Seq<char>)
    ensures
        rendering(classified(code)) == code,
{
}

/// The modality of a file depends on its bytes alone: two answers for the
/// same bytes are the same answer.
pub proof fn same_bytes_same_modality(
    bytes: Seq<u8>,
    first: Result<Modality, ExtractError>,
    second: Result<Modality, ExtractError>,
)
    requires
        viewed(first) == file_modality(decoded(bytes, Tag::modalities_in_study())),
        viewed(second) == file_modality(decoded(bytes, Tag::modalities_in_study())),
    ensures
        viewed(first) == viewed(second),
{
}

} // verus!
