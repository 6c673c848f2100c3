use dicom_core::{DataElement, PrimitiveValue, Tag, VR};
use dicom_object::{FileMetaTableBuilder, InMemDicomObject};
use noctis_dicom::metadata::{clean, frame_object, CoreError, Metadata};

fn text(value: &str) -> Option<String> {
    Some(value.to_string())
}

fn element(group: u16, number: u16, vr: VR, value: &str) -> DataElement<InMemDicomObject> {
    DataElement::new(Tag(group, number), vr, PrimitiveValue::from(value))
}

fn in_file(object: InMemDicomObject) -> dicom_object::DefaultDicomObject {
    object
        .with_meta(
            FileMetaTableBuilder::new()
                .transfer_syntax("1.2.840.10008.1.2.1")
                .media_storage_sop_class_uid("1.2.840.10008.5.1.4.1.1.7")
                .media_storage_sop_instance_uid("1.2.3.4"),
        )
        .unwrap()
}

#[test]
fn clean_trims_the_text() {
    assert_eq!(clean(text("  12345 ")), text("12345"));
    assert_eq!(clean(text("DOE^JOHN")), text("DOE^JOHN"));
    assert_eq!(clean(text("\tCT\n")), text("CT"));
    assert_eq!(clean(text(" a  b ")), text("a  b"));
}

#[test]
fn clean_drops_blank_text() {
    assert_eq!(clean(text("")), None);
    assert_eq!(clean(text("   ")), None);
    assert_eq!(clean(text("\t\r\n")), None);
    assert_eq!(clean(None), None);
}

#[test]
fn elements_are_cleaned_one_by_one() {
    let metadata = Metadata::from_elements(
        text(" P-1 "),
        text("DOE^JOHN "),
        text("1.2.3"),
        text("   "),
        None,
        text("MR\0".trim_end_matches('\0')),
    );
    assert_eq!(metadata.patient_id(), Some("P-1"));
    assert_eq!(metadata.patient_name(), Some("DOE^JOHN"));
    assert_eq!(metadata.study_instance_uid(), Some("1.2.3"));
    assert_eq!(metadata.series_instance_uid(), None);
    assert_eq!(metadata.sop_instance_uid(), None);
    assert_eq!(metadata.modality(), Some("MR"));
}

#[test]
fn nothing_read_gives_nothing() {
    let metadata = Metadata::from_elements(None, None, None, None, None, None);
    assert_eq!(metadata.patient_id(), None);
    assert_eq!(metadata.patient_name(), None);
    assert_eq!(metadata.study_instance_uid(), None);
    assert_eq!(metadata.series_instance_uid(), None);
    assert_eq!(metadata.sop_instance_uid(), None);
    assert_eq!(metadata.modality(), None);
}

#[test]
fn each_element_goes_to_its_own_field() {
    let metadata =
        Metadata::from_elements(text("a"), text("b"), text("c"), text("d"), text("e"), text("f"));
    assert_eq!(metadata.patient_id(), Some("a"));
    assert_eq!(metadata.patient_name(), Some("b"));
    assert_eq!(metadata.study_instance_uid(), Some("c"));
    assert_eq!(metadata.series_instance_uid(), Some("d"));
    assert_eq!(metadata.sop_instance_uid(), Some("e"));
    assert_eq!(metadata.modality(), Some("f"));
}

#[test]
fn json_of_all_fields() {
    let metadata = Metadata::from_elements(
        text("P-1"),
        text("DOE^JOHN"),
        text("1.2.3"),
        text("1.2.3.4"),
        text("1.2.3.4.5"),
        text("CT"),
    );
    assert_eq!(
        metadata.to_json(),
        "{\"patient_id\":\"P-1\",\"patient_name\":\"DOE^JOHN\",\"study_instance_uid\":\"1.2.3\",\"series_instance_uid\":\"1.2.3.4\",\"sop_instance_uid\":\"1.2.3.4.5\",\"modality\":\"CT\"}"
    );
}

#[test]
fn json_writes_absent_fields_as_null() {
    let metadata = Metadata::from_elements(None, text("  "), None, text("1.2"), None, None);
    assert_eq!(
        metadata.to_json(),
        "{\"patient_id\":null,\"patient_name\":null,\"study_instance_uid\":null,\"series_instance_uid\":\"1.2\",\"sop_instance_uid\":null,\"modality\":null}"
    );
}

#[test]
fn json_escapes_and_parses_back() {
    let name = "O\"BRIEN^\\PAT\u{1}";
    let metadata = Metadata::from_elements(text("é"), text(name), None, None, None, text("名"));
    let parsed: serde_json::Value = serde_json::from_str(&metadata.to_json()).unwrap();
    let object = parsed.as_object().unwrap();
    assert_eq!(object.len(), 6);
    assert_eq!(object["patient_id"], "é");
    assert_eq!(object["patient_name"], name);
    assert!(object["study_instance_uid"].is_null());
    assert!(object["series_instance_uid"].is_null());
    assert!(object["sop_instance_uid"].is_null());
    assert_eq!(object["modality"], "名");
}

#[test]
fn object_is_framed_from_six_texts() {
    assert_eq!(
        frame_object("1", "2", "3", "4", "5", "6"),
        "{\"patient_id\":1,\"patient_name\":2,\"study_instance_uid\":3,\"series_instance_uid\":4,\"sop_instance_uid\":5,\"modality\":6}"
    );
}

#[test]
fn error_messages() {
    assert_eq!(
        CoreError::Open("no such file".to_string()).message(),
        "Failed to open DICOM file: no such file"
    );
    assert_eq!(CoreError::Open(String::new()).message(), "Failed to open DICOM file: ");
    assert_eq!(CoreError::MissingPixelData.message(), "Pixel data missing from DICOM file");
}

#[test]
fn extract_reads_the_six_attributes() {
    let object = InMemDicomObject::from_element_iter([
        element(0x0010, 0x0020, VR::LO, " P-77 "),
        element(0x0010, 0x0010, VR::PN, "DOE^JANE"),
        element(0x0020, 0x000D, VR::UI, "1.2.840.1"),
        element(0x0020, 0x000E, VR::UI, "1.2.840.1.2"),
        element(0x0008, 0x0018, VR::UI, "1.2.840.1.2.3"),
        element(0x0008, 0x0060, VR::CS, "MR"),
        element(0x0008, 0x0080, VR::LO, "General Hospital"),
    ]);
    let metadata = Metadata::extract(&in_file(object));
    assert_eq!(metadata.patient_id(), Some("P-77"));
    assert_eq!(metadata.patient_name(), Some("DOE^JANE"));
    assert_eq!(metadata.study_instance_uid(), Some("1.2.840.1"));
    assert_eq!(metadata.series_instance_uid(), Some("1.2.840.1.2"));
    assert_eq!(metadata.sop_instance_uid(), Some("1.2.840.1.2.3"));
    assert_eq!(metadata.modality(), Some("MR"));
}

#[test]
fn extract_leaves_out_what_is_missing_or_blank() {
    let object = InMemDicomObject::from_element_iter([
        element(0x0010, 0x0020, VR::LO, "   "),
        element(0x0008, 0x0060, VR::CS, "CT "),
    ]);
    let metadata = Metadata::extract(&in_file(object));
    assert_eq!(metadata.patient_id(), None);
    assert_eq!(metadata.patient_name(), None);
    assert_eq!(metadata.study_instance_uid(), None);
    assert_eq!(metadata.series_instance_uid(), None);
    assert_eq!(metadata.sop_instance_uid(), None);
    assert_eq!(metadata.modality(), Some("CT"));
    assert_eq!(
        metadata.to_json(),
        "{\"patient_id\":null,\"patient_name\":null,\"study_instance_uid\":null,\"series_instance_uid\":null,\"sop_instance_uid\":null,\"modality\":\"CT\"}"
    );
}

#[test]
fn extract_of_an_empty_object() {
    let metadata = Metadata::extract(&in_file(InMemDicomObject::new_empty()));
    assert_eq!(metadata.patient_id(), None);
    assert_eq!(metadata.modality(), None);
    assert_eq!(
        metadata.to_json(),
        "{\"patient_id\":null,\"patient_name\":null,\"study_instance_uid\":null,\"series_instance_uid\":null,\"sop_instance_uid\":null,\"modality\":null}"
    );
}

#[test]
fn opened_file_gives_its_attributes() {
    let object = InMemDicomObject::from_element_iter([
        element(0x0010, 0x0020, VR::LO, "P-1"),
        element(0x0008, 0x0060, VR::CS, " US"),
    ]);
    let metadata = Metadata::from_opened(Ok(in_file(object))).unwrap();
    assert_eq!(metadata.patient_id(), Some("P-1"));
    assert_eq!(metadata.modality(), Some("US"));
    assert_eq!(metadata.patient_name(), None);
}

#[test]
fn file_that_was_not_opened_gives_the_open_error() {
    let result = Metadata::from_opened(Err("No such file or directory".to_string()));
    match result {
        Err(CoreError::Open(detail)) => assert_eq!(detail, "No such file or directory"),
        other => panic!("unexpected result {:?}", other),
    }
    let result = Metadata::from_opened(Err(String::new()));
    assert_eq!(result.unwrap_err().message(), "Failed to open DICOM file: ");
}

#[test]
fn unreadable_bytes_give_the_open_error() {
    let garbage: &[u8] = b"this is no DICOM file";
    let opened = dicom_object::from_reader(garbage).map_err(|err| err.to_string());
    assert!(opened.is_err());
    let result = Metadata::from_opened(opened);
    assert!(matches!(result, Err(CoreError::Open(_))));
    assert!(result.unwrap_err().message().starts_with("Failed to open DICOM file: "));
}
