use open_sight::adapter::{ExtractError, FailureKind, FileMetadata, SourceFile};
use open_sight::dates::Timestamp;
use open_sight::native::{assemble_native, extract_dicom_data, NativeAttributes, NativeRead, TagValue};

fn text(s: &str) -> TagValue {
    TagValue::Text(String::from(s))
}

fn attributes() -> NativeAttributes {
    NativeAttributes {
        patient_id: text("P-7"),
        patient_name: text("Roe^Richard"),
        image_laterality: text("L"),
        laterality: text("R"),
        patient_sex: text("M"),
        patient_birth_date: text("19800101"),
        content_date: text("800101"),
        modality: text("OP"),
        manufacturer: text("Heidelberg Engineering"),
        series_description: text("IR 30"),
    }
}

fn file() -> SourceFile {
    SourceFile {
        canonical_path: Ok(String::from("/data/a.dcm")),
        metadata: Ok(FileMetadata { size: 2048, modified: None, offset_seconds: 0 }),
    }
}

fn failure(kind: FailureKind, cause: &str) -> ExtractError {
    ExtractError { kind, cause: String::from(cause) }
}

#[test]
fn native_attributes_are_mapped_to_a_record() {
    let read = NativeRead { attributes: Ok(attributes()), file: file() };
    let r = extract_dicom_data(&read).unwrap();
    assert_eq!(r.patient_id, "P-7");
    assert_eq!(r.patient_name, "Roe^Richard");
    assert_eq!(r.laterality, "L");
    assert_eq!(r.sex, "M");
    assert_eq!(r.dob, "01-01-1980");
    assert_eq!(r.scan_date, "01-01-1980");
    assert_eq!(r.modality, "OP");
    assert_eq!(r.manufacturer, "Heidelberg Engineering");
    assert_eq!(r.series_description, "IR 30");
    assert_eq!(r.modified, "");
    assert_eq!(r.file_size, 2048);
    assert_eq!(r.file_path, "/data/a.dcm");
}

#[test]
fn absent_attributes_give_empty_fields() {
    let a = NativeAttributes {
        patient_id: TagValue::Absent,
        patient_name: TagValue::Absent,
        image_laterality: TagValue::Absent,
        laterality: TagValue::Absent,
        patient_sex: TagValue::Absent,
        patient_birth_date: TagValue::Absent,
        content_date: TagValue::Absent,
        modality: TagValue::Absent,
        manufacturer: TagValue::Absent,
        series_description: TagValue::Absent,
    };
    let read = NativeRead { attributes: Ok(a), file: file() };
    let r = extract_dicom_data(&read).unwrap();
    assert_eq!(r.patient_id, "");
    assert_eq!(r.patient_name, "");
    assert_eq!(r.laterality, "");
    assert_eq!(r.sex, "");
    assert_eq!(r.dob, "");
    assert_eq!(r.scan_date, "");
    assert_eq!(r.modality, "");
    assert_eq!(r.manufacturer, "");
    assert_eq!(r.series_description, "");
    assert_eq!(r.file_path, "/data/a.dcm");
}

#[test]
fn side_of_the_series_is_used_where_the_image_has_none() {
    let mut a = attributes();
    a.image_laterality = TagValue::Absent;
    let read = NativeRead { attributes: Ok(a), file: file() };
    assert_eq!(extract_dicom_data(&read).unwrap().laterality, "R");
}

#[test]
fn side_of_the_series_is_not_looked_at_where_the_image_has_one() {
    let mut a = attributes();
    a.laterality = TagValue::Unreadable(String::from("not text"));
    let read = NativeRead { attributes: Ok(a), file: file() };
    assert_eq!(extract_dicom_data(&read).unwrap().laterality, "L");
}

#[test]
fn unreadable_side_of_the_series_fails_where_the_image_has_none() {
    let mut a = attributes();
    a.image_laterality = TagValue::Absent;
    a.laterality = TagValue::Unreadable(String::from("not text"));
    let read = NativeRead { attributes: Ok(a), file: file() };
    assert_eq!(extract_dicom_data(&read), Err(failure(FailureKind::Attribute, "not text")));
}

#[test]
fn unopened_file_fails_before_anything_else() {
    let read = NativeRead {
        attributes: Err(String::from("no such file")),
        file: SourceFile {
            canonical_path: Err(String::from("unresolved")),
            metadata: Err(String::from("unreadable")),
        },
    };
    assert_eq!(extract_dicom_data(&read), Err(failure(FailureKind::Open, "no such file")));
}

#[test]
fn first_unreadable_attribute_is_reported() {
    let mut a = attributes();
    a.modality = TagValue::Unreadable(String::from("modality"));
    a.patient_sex = TagValue::Unreadable(String::from("sex"));
    a.series_description = TagValue::Unreadable(String::from("series"));
    let read = NativeRead {
        attributes: Ok(a),
        file: SourceFile {
            canonical_path: Err(String::from("unresolved")),
            metadata: Ok(FileMetadata { size: 1, modified: None, offset_seconds: 0 }),
        },
    };
    assert_eq!(extract_dicom_data(&read), Err(failure(FailureKind::Attribute, "sex")));
}

#[test]
fn path_failure_comes_before_metadata_failure() {
    let read = NativeRead {
        attributes: Ok(attributes()),
        file: SourceFile {
            canonical_path: Err(String::from("unresolved")),
            metadata: Err(String::from("unreadable")),
        },
    };
    assert_eq!(extract_dicom_data(&read), Err(failure(FailureKind::Path, "unresolved")));
    let read = NativeRead {
        attributes: Ok(attributes()),
        file: SourceFile {
            canonical_path: Ok(String::from("/data/a.dcm")),
            metadata: Err(String::from("unreadable")),
        },
    };
    assert_eq!(extract_dicom_data(&read), Err(failure(FailureKind::Metadata, "unreadable")));
}

#[test]
fn unreadable_dates_do_not_fail_the_extraction() {
    let mut a = attributes();
    a.patient_birth_date = text("unknown");
    a.content_date = text("20211340");
    let read = NativeRead { attributes: Ok(a), file: file() };
    let r = extract_dicom_data(&read).unwrap();
    assert_eq!(r.dob, "");
    assert_eq!(r.scan_date, "");
}

#[test]
fn modification_time_is_shown_where_known() {
    let read = NativeRead {
        attributes: Ok(attributes()),
        file: SourceFile {
            canonical_path: Ok(String::from("/data/a.dcm")),
            metadata: Ok(FileMetadata {
                size: 2048,
                modified: Some(Timestamp { seconds: 1_600_000_000, nanos: 5 }),
                offset_seconds: 7200,
            }),
        },
    };
    let r = extract_dicom_data(&read).unwrap();
    assert_eq!(r.modified, "13-09-2020 14:26:40");
}

#[test]
fn assembled_native_record_takes_the_given_modification_text() {
    let read = NativeRead { attributes: Ok(attributes()), file: file() };
    let r = assemble_native(&read, String::from("13-09-2020 12:26:40")).unwrap();
    assert_eq!(r.modified, "13-09-2020 12:26:40");
    assert_eq!(r.file_size, 2048);
}

#[test]
fn tag_values_read_as_text_or_failure() {
    assert_eq!(TagValue::Absent.read(), Ok(String::new()));
    assert_eq!(text("x").read(), Ok(String::from("x")));
    assert_eq!(
        TagValue::Unreadable(String::from("c")).read(),
        Err(failure(FailureKind::Attribute, "c"))
    );
}

#[test]
fn error_message_is_the_cause() {
    let e = failure(FailureKind::Open, "cause");
    assert_eq!(e.message(), "cause");
}
