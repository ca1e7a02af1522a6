use anonymizer::{
    is_dcm_file, is_dcm_path, validator_is_dcm_path, Anonymizer, CustomDicomDateTime, CustomTag,
    PatientSex, TagAction,
};
use dicom_core::{DataElement, PrimitiveValue, Tag, VR};
use dicom_object::{DefaultDicomObject, FileDicomObject, FileMetaTableBuilder};

fn sample_object() -> DefaultDicomObject {
    let meta = FileMetaTableBuilder::new()
        .media_storage_sop_class_uid("1.2.840.10008.5.1.4.1.1.7")
        .media_storage_sop_instance_uid("1.2.3.4.5")
        .transfer_syntax("1.2.840.10008.1.2.1")
        .build()
        .unwrap();
    let mut obj = FileDicomObject::new_empty_with_meta(meta);
    obj.put(DataElement::new(
        Tag(0x0010, 0x0040),
        VR::CS,
        dicom_core::DicomValue::from(PrimitiveValue::from("M")),
    ));
    obj.put(DataElement::new(
        Tag(0x0010, 0x0010),
        VR::PN,
        dicom_core::DicomValue::from(PrimitiveValue::from("Old Name")),
    ));
    obj.put(DataElement::new(
        Tag(0x0008, 0x0050),
        VR::SH,
        dicom_core::DicomValue::from(PrimitiveValue::from("ACC-1")),
    ));
    obj
}

fn element_str(any: &Anonymizer, group: u16, element: u16) -> String {
    any.object()
        .unwrap()
        .element(Tag(group, element))
        .unwrap()
        .value()
        .to_str()
        .unwrap()
        .into_owned()
}

#[test]
fn sex_override_is_written_into_the_store() {
    let mut builder = Anonymizer::meta_builder();
    builder.patient_sex(TagAction::Change(PatientSex::from_str("f").unwrap()));
    let meta = builder.build();
    assert_eq!(meta.patient_sex, TagAction::Change(PatientSex::F));

    let mut any = Anonymizer::from_object(sample_object());
    any.meta(meta);
    assert_eq!(element_str(&any, 0x0010, 0x0040), "M");
    any.anonymize();
    assert_eq!(element_str(&any, 0x0010, 0x0040), "F");
}

#[test]
fn change_remove_and_keep_each_field() {
    let mut builder = Anonymizer::meta_builder();
    builder.patient_name(TagAction::Change("Anon".to_string()));
    builder.patient_sex(TagAction::Remove);
    let mut any = Anonymizer::from_object(sample_object());
    any.meta(builder.build());
    any.anonymize();

    assert_eq!(element_str(&any, 0x0010, 0x0010), "Anon");
    assert!(any.object().unwrap().element(Tag(0x0010, 0x0040)).is_err());
    assert_eq!(element_str(&any, 0x0008, 0x0050), "ACC-1");
}

#[test]
fn birth_date_change_writes_a_datetime_element() {
    let mut builder = Anonymizer::meta_builder();
    builder.patient_birth_date(TagAction::Change(CustomDicomDateTime::new(
        2016, 8, 12, 0, 0, 0, 0,
    )));
    let mut any = Anonymizer::from_object(sample_object());
    any.meta(builder.build());
    any.anonymize();
    assert!(any.object().unwrap().element(Tag(0x0010, 0x0030)).is_ok());
}

#[test]
fn removal_set_is_unconditional_and_wins_over_change() {
    let mut builder = Anonymizer::meta_builder();
    builder.patient_name(TagAction::Change("Anon".to_string()));
    builder.remove_tag(CustomTag::new(0x0010, 0x0010));
    builder.remove_tag(CustomTag::new(0x0008, 0x0050));
    let mut any = Anonymizer::from_object(sample_object());
    any.meta(builder.build());
    any.anonymize();

    assert!(any.object().unwrap().element(Tag(0x0010, 0x0010)).is_err());
    assert!(any.object().unwrap().element(Tag(0x0008, 0x0050)).is_err());
    assert_eq!(element_str(&any, 0x0010, 0x0040), "M");
}

#[test]
fn removing_an_absent_address_is_harmless() {
    let mut builder = Anonymizer::meta_builder();
    builder.remove_tag(CustomTag::new(0x7777, 0x7777));
    builder.remove_tag(CustomTag::new(0x7777, 0x7777));
    let mut any = Anonymizer::from_object(sample_object());
    any.meta(builder.build());
    any.anonymize();
    assert_eq!(element_str(&any, 0x0010, 0x0040), "M");
}

#[test]
fn applying_a_plan_twice_changes_nothing_more() {
    let mut builder = Anonymizer::meta_builder();
    builder.patient_name(TagAction::Change("Anon".to_string()));
    builder.patient_sex(TagAction::Remove);
    builder.remove_tag(CustomTag::new(0x0008, 0x0050));
    let mut any = Anonymizer::from_object(sample_object());
    any.meta(builder.build());
    any.anonymize();
    let once = any.object().unwrap().clone();
    any.anonymize();
    assert_eq!(&once, any.object().unwrap());
}

#[test]
fn keep_plan_is_a_true_no_op() {
    let mut any = Anonymizer::from_object(sample_object());
    let before = any.object().unwrap().clone();
    any.meta(Anonymizer::meta_builder().build());
    any.anonymize();
    assert_eq!(&before, any.object().unwrap());
}

#[test]
fn only_allow_paths_with_dcm_extension() {
    assert!(is_dcm_path("/test.dcm"));
    assert!(is_dcm_path("./test.dcm"));
    assert!(!is_dcm_path("/test.jpg"));
    assert!(!is_dcm_path("/test"));
}

#[test]
fn dcm_path_validator_reports() {
    assert!(validator_is_dcm_path("/test.dcm").is_ok());
    assert_eq!(
        validator_is_dcm_path("/test.jpg").unwrap_err(),
        "Must be a valid dicom file path"
    );
}

#[test]
fn dcm_signature_check() {
    let mut bytes = vec![0u8; 128];
    bytes.extend_from_slice(b"DICM");
    assert!(is_dcm_file(&bytes));

    let mut wrong_magic = vec![0u8; 128];
    wrong_magic.extend_from_slice(b"DACM");
    assert!(!is_dcm_file(&wrong_magic));

    let mut dirty_preamble = vec![1u8; 128];
    dirty_preamble.extend_from_slice(b"DICM");
    assert!(!is_dcm_file(&dirty_preamble));

    assert!(!is_dcm_file(&vec![0u8; 10]));
}
