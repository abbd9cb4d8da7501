use dicom::dictionary_std::tags;
use dicom::object::meta::FileMetaTableBuilder;
use dicom::object::InMemDicomObject;
use mitk::error::ExtractError;
use mitk::modality::{classify, get_modality, modality, modality_of, Modality};

fn strings(values: &[&str]) -> dicom::core::PrimitiveValue {
    let owned: Vec<String> = values.iter().map(|s| s.to_string()).collect();
    dicom::core::PrimitiveValue::Strs(owned.into())
}

fn with_modality(code: &str) -> InMemDicomObject {
    InMemDicomObject::from_element_iter(vec![
        dicom::core::DataElement::new(tags::SOP_CLASS_UID, dicom::core::VR::UI, strings(&["1.2.840.10008.5.1.4.1.1.2"])),
        dicom::core::DataElement::new(tags::SOP_INSTANCE_UID, dicom::core::VR::UI, strings(&["1.2.826.0.1.3680043.2.1"])),
        dicom::core::DataElement::new(tags::MODALITY, dicom::core::VR::CS, strings(&[code])),
        dicom::core::DataElement::new(tags::PATIENT_NAME, dicom::core::VR::PN, strings(&["Doe^Jane"])),
    ])
}

fn file_bytes(obj: InMemDicomObject) -> Vec<u8> {
    let meta = FileMetaTableBuilder::new()
        .transfer_syntax("1.2.840.10008.1.2.1")
        .media_storage_sop_class_uid("1.2.840.10008.5.1.4.1.1.2")
        .media_storage_sop_instance_uid("1.2.826.0.1.3680043.2.1");
    let file = obj.with_meta(meta).unwrap();
    let mut bytes = Vec::new();
    file.write_all(&mut bytes).unwrap();
    bytes
}

#[test]
fn test_modality_to_string() {
    assert_eq!(Modality::CT.to_string(), "CT");
    assert_eq!(Modality::Unknown("Other".to_string()).to_string(), "Other");
}

#[test]
fn test_get_modality() {
    let modality = get_modality(&file_bytes(with_modality("CT"))).unwrap();
    assert!(matches!(modality, Modality::CT));

    let modality2 = get_modality(&file_bytes(with_modality("RTSTRUCT"))).unwrap();
    assert!(matches!(modality2, Modality::RTSTRUCT));
}

#[test]
fn every_known_code_is_its_own_variant() {
    assert_eq!(classify("RTSTRUCT"), Modality::RTSTRUCT);
    assert_eq!(classify("CT"), Modality::CT);
    assert_eq!(classify("RTDOSE"), Modality::RTDOSE);
    assert_eq!(classify("SEG"), Modality::SEG);
    assert_eq!(classify("RTPLAN"), Modality::RTPLAN);
}

#[test]
fn every_variant_is_written_as_its_code() {
    assert_eq!(Modality::RTSTRUCT.to_string(), "RTSTRUCT");
    assert_eq!(Modality::CT.to_string(), "CT");
    assert_eq!(Modality::RTDOSE.to_string(), "RTDOSE");
    assert_eq!(Modality::SEG.to_string(), "SEG");
    assert_eq!(Modality::RTPLAN.to_string(), "RTPLAN");
    assert_eq!(Modality::Unknown(String::new()).to_string(), "");
}

#[test]
fn other_codes_are_kept_letter_for_letter() {
    assert_eq!(classify("PT"), Modality::Unknown("PT".to_string()));
    assert_eq!(classify("ct"), Modality::Unknown("ct".to_string()));
    assert_eq!(classify("CT "), Modality::Unknown("CT ".to_string()));
    assert_eq!(classify(" CT"), Modality::Unknown(" CT".to_string()));
    assert_eq!(classify("RtStruct"), Modality::Unknown("RtStruct".to_string()));
    assert_eq!(classify(""), Modality::Unknown(String::new()));
    assert_eq!(classify("M\u{e9}d"), Modality::Unknown("M\u{e9}d".to_string()));
}

#[test]
fn classifying_then_writing_gives_the_code_back() {
    for code in ["CT", "SEG", "RTPLAN", "PT", "MR", "", "ct", "X Y"] {
        assert_eq!(classify(code).to_string(), code);
    }
}

#[test]
fn pt_is_an_unknown_modality_written_as_pt() {
    let found = modality_of(&with_modality("PT")).unwrap();
    assert_eq!(found, Modality::Unknown("PT".to_string()));
    assert_eq!(found.to_string(), "PT");
    assert_eq!(modality(Some(&file_bytes(with_modality("PT"))[..])), Ok("PT".to_string()));
}

#[test]
fn ct_is_the_known_modality_written_as_ct() {
    let found = modality_of(&with_modality("CT")).unwrap();
    assert_eq!(found, Modality::CT);
    assert_eq!(found.to_string(), "CT");
    assert_eq!(modality(Some(&file_bytes(with_modality("CT"))[..])), Ok("CT".to_string()));
}

#[test]
fn no_file_gives_the_empty_text() {
    assert_eq!(modality(None), Ok(String::new()));
}

#[test]
fn a_code_of_odd_length_is_read_without_its_padding() {
    let bytes = file_bytes(with_modality("SEG"));
    assert_eq!(get_modality(&bytes), Ok(Modality::SEG));
    assert_eq!(modality(Some(&bytes[..])), Ok("SEG".to_string()));
}

#[test]
fn a_record_without_modality_is_an_error() {
    let obj = InMemDicomObject::from_element_iter(vec![dicom::core::DataElement::new(
        tags::PATIENT_NAME,
        dicom::core::VR::PN,
        strings(&["Doe^Jane"]),
    )]);
    assert_eq!(modality_of(&obj), Err(ExtractError::RequiredAttributeMissing));
    assert_eq!(get_modality(&file_bytes(obj)), Err(ExtractError::RequiredAttributeMissing));
}

#[test]
fn a_sequence_under_modality_is_an_error() {
    let items: Vec<InMemDicomObject> = vec![InMemDicomObject::new_empty()];
    let obj = InMemDicomObject::from_element_iter(vec![dicom::core::DataElement::new(
        tags::MODALITY,
        dicom::core::VR::SQ,
        dicom::core::value::Value::Sequence(dicom::core::value::DataSetSequence::from(items)),
    )]);
    assert_eq!(modality_of(&obj), Err(ExtractError::UnexpectedValueShape));
    let bytes = file_bytes(obj);
    assert_eq!(get_modality(&bytes), Err(ExtractError::UnexpectedValueShape));
    assert_eq!(modality(Some(&bytes[..])), Err(ExtractError::UnexpectedValueShape));
}

#[test]
fn several_codes_are_one_unknown_text() {
    let obj = with_modality("CT");
    let mut both = obj.clone();
    both.put(dicom::core::DataElement::new(tags::MODALITY, dicom::core::VR::CS, strings(&["CT", "MR"])));
    assert_eq!(modality_of(&both), Ok(Modality::Unknown("CT\\MR".to_string())));
}

#[test]
fn bytes_that_are_no_file_are_malformed() {
    assert_eq!(get_modality(&[]), Err(ExtractError::MalformedStream));
    assert_eq!(get_modality(b"not a file at all"), Err(ExtractError::MalformedStream));
    assert_eq!(modality(Some(&[0u8; 200][..])), Err(ExtractError::MalformedStream));
    let whole = file_bytes(with_modality("CT"));
    assert_eq!(get_modality(&whole[..140]), Err(ExtractError::MalformedStream));
}

#[test]
fn reading_stops_in_front_of_what_follows_modality() {
    let whole = file_bytes(with_modality("CT"));
    let name = [0x10u8, 0x00, 0x10, 0x00, b'P', b'N'];
    let at = whole.windows(name.len()).position(|w| w == name).unwrap();
    let mut bytes = whole[..at + 8].to_vec();
    bytes.extend_from_slice(&[0xff; 3]);
    assert_eq!(get_modality(&bytes), Ok(Modality::CT));
    assert_eq!(modality(Some(&bytes[..])), Ok("CT".to_string()));
    assert_eq!(mitk::modality::getrefct(&bytes), Err(ExtractError::MalformedStream));
}

#[test]
fn the_same_bytes_give_the_same_modality() {
    let bytes = file_bytes(with_modality("RTDOSE"));
    assert_eq!(get_modality(&bytes), get_modality(&bytes));
    assert_eq!(modality(Some(&bytes[..])), modality(Some(&bytes[..])));
    assert_eq!(get_modality(&bytes), Ok(Modality::RTDOSE));
}
