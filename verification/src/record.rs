//! The metadata record and its textual row form.
//!
//! A record is one row of the output table. Its row form is the sequence of
//! its twelve fields as text, in the fixed column order; the size is written
//! in decimal. The header row names the columns in the same order.

use crate::text::{decimal_string, decimal_text, decimal_value, lemma_decimal_round_trip,
    lemma_decimal_text_digits, parse_decimal};
use vstd::prelude::*;
use vstd::string::StringExecFns;

verus! {

/// Number of columns of the output table.
pub const COLUMN_COUNT: usize = 12;

/// One row of extracted metadata. `file_path` is the identity of the source
/// file: its absolute path with every link resolved.
#[derive(Clone, Debug, PartialEq, Eq)]
pub struct Record {
    pub patient_id: String,
    pub patient_name: String,
    pub laterality: String,
    pub sex: String,
    pub dob: String,
    pub scan_date: String,
    pub modality: String,
    pub manufacturer: String,
    pub series_description: String,
    pub modified: String,
    pub file_size: u64,
    pub file_path: String,
}

/// The mathematical value of a [`Record`].
pub struct RecordView {
    pub patient_id: Seq<char>,
    pub patient_name: Seq<char>,
    pub laterality: Seq<char>,
    pub sex: Seq<char>,
    pub dob: Seq<char>,
    pub scan_date: Seq<char>,
    pub modality: Seq<char>,
    pub manufacturer: Seq<char>,
    pub series_description: Seq<char>,
    pub modified: Seq<char>,
    pub file_size: u64,
    pub file_path: Seq<char>,
}

impl View for Record {
    type V = RecordView;

    open spec fn view(&self) -> RecordView {
        RecordView {
            patient_id: self.patient_id@,
            patient_name: self.patient_name@,
            laterality: self.laterality@,
            sex: self.sex@,
            dob: self.dob@,
            scan_date: self.scan_date@,
            modality: self.modality@,
            manufacturer: self.manufacturer@,
            series_description: self.series_description@,
            modified: self.modified@,
            file_size: self.file_size,
            file_path: self.file_path@,
        }
    }
}

/// The texts that a sequence of strings holds.
pub open spec fn texts(fields: Seq<String>) -> Seq<Seq<char>> {
    Seq::new(fields.len(), |i: int| fields[i]@)
}

/// The header row: the column names in the fixed order.
pub open spec fn header_row() -> Seq<Seq<char>> {
    seq![
        "patient_id"@,
        "patient_name"@,
        "laterality"@,
        "sex"@,
        "dob"@,
        "scan_date"@,
        "modality"@,
        "manufacturer"@,
        "series_description"@,
        "modified"@,
        "file_size"@,
        "file_path"@,
    ]
}

/// The row form of a record.
pub open spec fn record_row(r: RecordView) -> Seq<Seq<char>> {
    seq![
        r.patient_id,
        r.patient_name,
        r.laterality,
        r.sex,
        r.dob,
        r.scan_date,
        r.modality,
        r.manufacturer,
        r.series_description,
        r.modified,
        decimal_text(r.file_size as nat),
        r.file_path,
    ]
}

/// The record that a row denotes: the row has twelve fields and the
/// eleventh is a run of decimal digits that fits in 64 bits.
pub open spec fn row_record(row: Seq<Seq<char>>) -> Option<RecordView> {
    if row.len() != 12 {
        None
    } else {
        match decimal_value(row[10]) {
            Some(size) => if size <= u64::MAX {
                Some(
                    RecordView {
                        patient_id: row[0],
                        patient_name: row[1],
                        laterality: row[2],
                        sex: row[3],
                        dob: row[4],
                        scan_date: row[5],
                        modality: row[6],
                        manufacturer: row[7],
                        series_description: row[8],
                        modified: row[9],
                        file_size: size as u64,
                        file_path: row[11],
                    },
                )
            } else {
                None
            },
            None => None,
        }
    }
}

/// A reader recovers from the row form of a record exactly the record
/// that was written, the numeric size included.
pub proof fn lemma_row_round_trip(r: RecordView)
    ensures
        row_record(record_row(r)) == Some(r),
{
    lemma_decimal_round_trip(r.file_size as nat);
}

/// No record's row form is the header row: the size column of a data row
/// starts with a digit, that of the header with a letter.
pub proof fn lemma_data_row_is_not_header(r: RecordView)
    ensures
        record_row(r) != header_row(),
        row_record(header_row()) is None,
{
    reveal_strlit("file_size");
    lemma_decimal_text_digits(r.file_size as nat);
    let name = "file_size"@;
    assert(name[0] == 'f');
    assert(record_row(r)[10][0] != header_row()[10][0]);
    assert(!crate::text::is_digit(header_row()[10][0]));
}

/// The header row as strings.
pub fn header_fields() -> (out: Vec<String>)
    ensures
        texts(out@) == header_row(),
{
    let mut out: Vec<String> = Vec::new();
    out.push(String::from_str("patient_id"));
    out.push(String::from_str("patient_name"));
    out.push(String::from_str("laterality"));
    out.push(String::from_str("sex"));
    out.push(String::from_str("dob"));
    out.push(String::from_str("scan_date"));
    out.push(String::from_str("modality"));
    out.push(String::from_str("manufacturer"));
    out.push(String::from_str("series_description"));
    out.push(String::from_str("modified"));
    out.push(String::from_str("file_size"));
    out.push(String::from_str("file_path"));
    assert(texts(out@) =~= header_row());
    out
}

impl Record {
    /// The row form of this record as strings.
    pub fn to_fields(&self) -> (out: Vec<String>)
        ensures
            texts(out@) == record_row(self@),
    {
        let mut out: Vec<String> = Vec::new();
        out.push(self.patient_id.clone());
        out.push(self.patient_name.clone());
        out.push(self.laterality.clone());
        out.push(self.sex.clone());
        out.push(self.dob.clone());
        out.push(self.scan_date.clone());
        out.push(self.modality.clone());
        out.push(self.manufacturer.clone());
        out.push(self.series_description.clone());
        out.push(self.modified.clone());
        out.push(decimal_string(self.file_size));
        out.push(self.file_path.clone());
        assert(texts(out@) =~= record_row(self@));
        out
    }

    /// Reads a record from its row form; `None` where the row does not have
    /// twelve fields or its size column is not a decimal number of 64 bits.
    pub fn from_fields(fields: &Vec<String>) -> (out: Option<Record>)
        ensures
            match out {
                Some(r) => row_record(texts(fields@)) == Some(r@),
                None => row_record(texts(fields@)) is None,
            },
    {
        if fields.len() != COLUMN_COUNT {
            return None;
        }
        let ghost row = texts(fields@);
        assert(row[10] == fields@[10]@);
        match parse_decimal(fields[10].as_str()) {
            None => None,
            Some(size) => {
                let r = Record {
                    patient_id: fields[0].clone(),
                    patient_name: fields[1].clone(),
                    laterality: fields[2].clone(),
                    sex: fields[3].clone(),
                    dob: fields[4].clone(),
                    scan_date: fields[5].clone(),
                    modality: fields[6].clone(),
                    manufacturer: fields[7].clone(),
                    series_description: fields[8].clone(),
                    modified: fields[9].clone(),
                    file_size: size,
                    file_path: fields[11].clone(),
                };
                assert(row_record(row) == Some(r@));
                Some(r)
            },
        }
    }
}

} // verus!
