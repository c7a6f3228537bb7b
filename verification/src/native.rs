//! The native-format strategy: header attributes of the file itself.

use crate::adapter::{ExtractError, ExtractErrorView, FailureKind, SourceFile};
use crate::dates::{format_date, format_modified_datetime, normalized_date};
use crate::record::{Record, RecordView};
use vstd::prelude::*;

verus! {

/// What looking one attribute up in a source file gave.
#[derive(Clone, Debug, PartialEq, Eq)]
pub enum TagValue {
    /// The file does not hold the attribute.
    Absent,
    /// The attribute's value as text.
    Text(String),
    /// The attribute is there, but its value cannot be read as text.
    Unreadable(String),
}

impl TagValue {
    /// The text that the attribute contributes to a record: its value, or
    /// the empty text where the file does not hold it.
    pub open spec fn text(self) -> Seq<char> {
        match self {
            TagValue::Text(s) => s@,
            _ => Seq::empty(),
        }
    }

    /// The cause of the failure, where the attribute cannot be read.
    pub open spec fn failure(self) -> Option<Seq<char>> {
        match self {
            TagValue::Unreadable(cause) => Some(cause@),
            _ => None,
        }
    }

    /// The attribute's text, or the failure that it stands for.
    pub fn read(&self) -> (out: Result<String, ExtractError>)
        ensures
            match out {
                Ok(s) => self.failure() is None && s@ == self.text(),
                Err(e) => self.failure() == Some(e.cause@) && e.kind == FailureKind::Attribute,
            },
    {
        match self {
            TagValue::Absent => Ok(String::new()),
            TagValue::Text(s) => Ok(s.clone()),
            TagValue::Unreadable(cause) => Err(
                ExtractError { kind: FailureKind::Attribute, cause: cause.clone() },
            ),
        }
    }
}

/// The attributes that are read from the header of a native-format file.
#[derive(Clone, Debug, PartialEq, Eq)]
pub struct NativeAttributes {
    pub patient_id: TagValue,
    pub patient_name: TagValue,
    pub image_laterality: TagValue,
    pub laterality: TagValue,
    pub patient_sex: TagValue,
    pub patient_birth_date: TagValue,
    pub content_date: TagValue,
    pub modality: TagValue,
    pub manufacturer: TagValue,
    pub series_description: TagValue,
}

/// The first of two failures.
pub open spec fn first_of(a: Option<Seq<char>>, b: Option<Seq<char>>) -> Option<Seq<char>> {
    if a is Some {
        a
    } else {
        b
    }
}

impl NativeAttributes {
    /// The attribute that gives the side of the eye: the image's own where
    /// the file holds it, else that of the series.
    pub open spec fn side(self) -> TagValue {
        if self.image_laterality is Absent {
            self.laterality
        } else {
            self.image_laterality
        }
    }

    /// The cause of the first attribute that cannot be read, in the order in
    /// which a record lists them.
    pub open spec fn first_failure(self) -> Option<Seq<char>> {
        first_of(
            self.patient_id.failure(),
            first_of(
                self.patient_name.failure(),
                first_of(
                    self.side().failure(),
                    first_of(
                        self.patient_sex.failure(),
                        first_of(
                            self.patient_birth_date.failure(),
                            first_of(
                                self.content_date.failure(),
                                first_of(
                                    self.modality.failure(),
                                    first_of(
                                        self.manufacturer.failure(),
                                        self.series_description.failure(),
                                    ),
                                ),
                            ),
                        ),
                    ),
                ),
            ),
        )
    }
}

/// All that was read of a native-format file.
#[derive(Debug, PartialEq, Eq)]
pub struct NativeRead {
    /// The header attributes, or the cause where the file could not be
    /// opened or its header not be read.
    pub attributes: Result<NativeAttributes, String>,
    pub file: SourceFile,
}

impl NativeRead {
    /// The failure of this extraction, if it fails: the file could not be
    /// opened, else the first unreadable attribute, else the path, else the
    /// metadata.
    pub open spec fn failure(self) -> Option<ExtractErrorView> {
        match self.attributes {
            Err(cause) => Some(ExtractErrorView { kind: FailureKind::Open, cause: cause@ }),
            Ok(a) => match a.first_failure() {
                Some(cause) => Some(ExtractErrorView { kind: FailureKind::Attribute, cause }),
                None => self.file.failure(),
            },
        }
    }

    /// The record of this extraction where nothing failed, with `modified`
    /// as the text of the modification time. An attribute that the file does
    /// not hold gives the empty text; both dates are normalized.
    pub open spec fn record(self, modified: Seq<char>) -> RecordView {
        let a = self.attributes->Ok_0;
        RecordView {
            patient_id: a.patient_id.text(),
            patient_name: a.patient_name.text(),
            laterality: a.side().text(),
            sex: a.patient_sex.text(),
            dob: normalized_date(a.patient_birth_date.text(), None),
            scan_date: normalized_date(a.content_date.text(), None),
            modality: a.modality.text(),
            manufacturer: a.manufacturer.text(),
            series_description: a.series_description.text(),
            modified,
            file_size: self.file.size(),
            file_path: self.file.path(),
        }
    }
}

/// The record of a native-format file, from what was read of it and the
/// text of its modification time; or the first failure among the steps.
pub fn assemble_native(read: &NativeRead, modified: String) -> (out: Result<Record, ExtractError>)
    ensures
        match out {
            Ok(r) => read.failure() is None && r@ == read.record(modified@),
            Err(e) => read.failure() == Some(e@),
        },
{
    let a = match &read.attributes {
        Ok(a) => a,
        Err(cause) => {
            return Err(ExtractError { kind: FailureKind::Open, cause: cause.clone() });
        },
    };
    let patient_id = match a.patient_id.read() {
        Ok(s) => s,
        Err(e) => {
            return Err(e);
        },
    };
    let patient_name = match a.patient_name.read() {
        Ok(s) => s,
        Err(e) => {
            return Err(e);
        },
    };
    let side = match &a.image_laterality {
        TagValue::Absent => a.laterality.read(),
        _ => a.image_laterality.read(),
    };
    let laterality = match side {
        Ok(s) => s,
        Err(e) => {
            return Err(e);
        },
    };
    let sex = match a.patient_sex.read() {
        Ok(s) => s,
        Err(e) => {
            return Err(e);
        },
    };
    let birth = match a.patient_birth_date.read() {
        Ok(s) => s,
        Err(e) => {
            return Err(e);
        },
    };
    let content = match a.content_date.read() {
        Ok(s) => s,
        Err(e) => {
            return Err(e);
        },
    };
    let modality = match a.modality.read() {
        Ok(s) => s,
        Err(e) => {
            return Err(e);
        },
    };
    let manufacturer = match a.manufacturer.read() {
        Ok(s) => s,
        Err(e) => {
            return Err(e);
        },
    };
    let series_description = match a.series_description.read() {
        Ok(s) => s,
        Err(e) => {
            return Err(e);
        },
    };
    let dob = format_date(birth.as_str(), None);
    let scan_date = format_date(content.as_str(), None);
    let (file_path, file_size) = match read.file.identity() {
        Ok(found) => found,
        Err(e) => {
            return Err(e);
        },
    };
    Ok(
        Record {
            patient_id,
            patient_name,
            laterality,
            sex,
            dob,
            scan_date,
            modality,
            manufacturer,
            series_description,
            modified,
            file_size,
            file_path,
        },
    )
}

/// Extracts the record of a native-format file from what was read of it.
/// The modification time is shown in local time, at the offset that came
/// with it.
pub fn extract_dicom_data(read: &NativeRead) -> (out: Result<Record, ExtractError>)
    ensures
        match out {
            Ok(r) => read.failure() is None && r@ == read.record(read.file.modified_text()),
            Err(e) => read.failure() == Some(e@),
        },
{
    let modified = format_modified_datetime(
        read.file.known_modified(),
        read.file.known_offset(),
    );
    assemble_native(read, modified)
}

} // verus!
