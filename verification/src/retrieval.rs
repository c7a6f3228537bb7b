//! The rules of the companion that retrieves source files for a list of
//! patients from the output table.
//!
//! The companion reads the list, asks the table for the rows of each patient
//! and copies the files into a tree of one folder per patient and, below it,
//! one per scan date and side. Reading, asking and copying are the caller's
//! part. The library says how the list is read, what is asked, where a file
//! goes, and which patients are reported as not found.

use crate::dates::CalendarDate;
use crate::record::texts;
use crate::text::chars_of;
use std::fmt::Write;
use vstd::prelude::*;
use vstd::string::StringExecFns;

verus! {

/// The question for the rows of one patient, up to the patient's identifier.
pub const QUERY_HEAD: &'static str = "SELECT * FROM main.open_sight WHERE patient_id = '";

/// The question for the rows of one patient, behind the identifier.
pub const QUERY_TAIL: &'static str =
    "' AND modality IN ('OP','OPT') AND manufacturer = 'Heidelberg Engineering' ORDER BY patient_id, scan_date, laterality, modality";

/// Year of the day from which the table counts scan dates.
pub const EPOCH_YEAR: i32 = 1970;

/// Month of the day from which the table counts scan dates.
pub const EPOCH_MONTH: u32 = 1;

/// Day of the month of the day from which the table counts scan dates.
pub const EPOCH_DAY: u32 = 1;

/// Layout of the scan date in the name of a folder: `yyyymmdd`.
pub const SCAN_DATE_LAYOUT: &'static str = "%Y%m%d";

/// Name of the report of the patients that were not found.
pub const NOT_FOUND_REPORT: &'static str = "patient_ids_not_found.csv";

/// Whether `c` is white space in the sense of Unicode.
pub open spec fn is_white_space(c: char) -> bool {
    let n = c as u32;
    ||| 0x09 <= n <= 0x0D
    ||| n == 0x20
    ||| n == 0x85
    ||| n == 0xA0
    ||| n == 0x1680
    ||| 0x2000 <= n <= 0x200A
    ||| n == 0x2028
    ||| n == 0x2029
    ||| n == 0x202F
    ||| n == 0x205F
    ||| n == 0x3000
}

/// `s` without the white space at its start.
pub open spec fn trim_start(s: Seq<char>) -> Seq<char>
    decreases s.len(),
{
    if s.len() > 0 && is_white_space(s[0]) {
        trim_start(s.skip(1))
    } else {
        s
    }
}

/// `s` without the white space at its end.
pub open spec fn trim_end(s: Seq<char>) -> Seq<char>
    decreases s.len(),
{
    if s.len() > 0 && is_white_space(s.last()) {
        trim_end(s.drop_last())
    } else {
        s
    }
}

/// `s` without the white space at its start and at its end.
pub open spec fn trimmed(s: Seq<char>) -> Seq<char> {
    trim_end(trim_start(s))
}

/// The lines of `s` that a line feed ends, and the text behind the last
/// line feed.
pub open spec fn split_lines(s: Seq<char>) -> (Seq<Seq<char>>, Seq<char>)
    decreases s.len(),
{
    if s.len() == 0 {
        (Seq::empty(), Seq::empty())
    } else {
        let (lines, current) = split_lines(s.drop_last());
        if s.last() == '\n' {
            (lines.push(current), Seq::empty())
        } else {
            (lines, current.push(s.last()))
        }
    }
}

/// The lines of `s`. The text behind the last line feed is a line where it
/// is not empty.
pub open spec fn lines_of(s: Seq<char>) -> Seq<Seq<char>> {
    let (lines, current) = split_lines(s);
    if current.len() > 0 {
        lines.push(current)
    } else {
        lines
    }
}

/// The identifiers in a list of patients: one per line, without the white
/// space around it.
pub open spec fn patient_ids(contents: Seq<char>) -> Seq<Seq<char>> {
    Seq::new(lines_of(contents).len(), |i: int| trimmed(lines_of(contents)[i]))
}

/// Whether `c` is white space in the sense of Unicode.
pub fn white_space(c: char) -> (out: bool)
    ensures
        out == is_white_space(c),
{
    let n = c as u32;
    (0x09 <= n && n <= 0x0D) || n == 0x20 || n == 0x85 || n == 0xA0 || n == 0x1680 || (0x2000 <= n
        && n <= 0x200A) || n == 0x2028 || n == 0x2029 || n == 0x202F || n == 0x205F || n == 0x3000
}

/// The text of `line` without the white space around it.
pub fn trim_line(line: &Vec<char>) -> (out: String)
    ensures
        out@ == trimmed(line@),
{
    let mut start: usize = 0;
    assert(line@.skip(0) =~= line@);
    while start < line.len() && white_space(line[start])
        invariant
            0 <= start <= line.len(),
            trim_start(line@) == trim_start(line@.skip(start as int)),
        decreases line.len() - start,
    {
        assert(line@.skip(start as int).skip(1) =~= line@.skip(start + 1));
        start = start + 1;
    }
    assert(trim_start(line@) == line@.skip(start as int));
    let mut end: usize = line.len();
    assert(line@.subrange(start as int, end as int) =~= line@.skip(start as int));
    while end > start && white_space(line[end - 1])
        invariant
            start <= end <= line.len(),
            trimmed(line@) == trim_end(line@.subrange(start as int, end as int)),
        decreases end,
    {
        assert(line@.subrange(start as int, end as int).drop_last() =~= line@.subrange(
            start as int,
            end - 1,
        ));
        end = end - 1;
    }
    assert(trimmed(line@) == line@.subrange(start as int, end as int));
    let mut out = String::new();
    let mut i: usize = start;
    assert(line@.subrange(start as int, start as int) =~= Seq::<char>::empty());
    while i < end
        invariant
            start <= i <= end <= line.len(),
            out@ == line@.subrange(start as int, i as int),
        decreases end - i,
    {
        out.push(line[i]);
        assert(line@.subrange(start as int, i + 1) =~= line@.subrange(start as int, i as int).push(
            line@[i as int],
        ));
        i = i + 1;
    }
    out
}

/// Reads a list of patients: one identifier per line, without the white
/// space around it. A line without an identifier gives an empty one.
pub fn read_patient_ids(contents: &str) -> (out: Vec<String>)
    ensures
        texts(out@) == patient_ids(contents@),
{
    let chars = chars_of(contents);
    let mut out: Vec<String> = Vec::new();
    let mut current: Vec<char> = Vec::new();
    let mut i: usize = 0;
    assert(chars@.take(0) =~= Seq::<char>::empty());
    while i < chars.len()
        invariant
            0 <= i <= chars.len(),
            chars@ == contents@,
            out@.len() == split_lines(chars@.take(i as int)).0.len(),
            forall|k: int|
                0 <= k < out@.len() ==> (#[trigger] out@[k])@ == trimmed(
                    split_lines(chars@.take(i as int)).0[k],
                ),
            current@ == split_lines(chars@.take(i as int)).1,
        decreases chars.len() - i,
    {
        let c = chars[i];
        proof {
            assert(chars@.take(i + 1).drop_last() =~= chars@.take(i as int));
            assert(chars@.take(i + 1).last() == c);
        }
        if c == '\n' {
            out.push(trim_line(&current));
            current = Vec::new();
        } else {
            current.push(c);
        }
        i = i + 1;
    }
    assert(chars@.take(i as int) =~= contents@);
    if current.len() > 0 {
        out.push(trim_line(&current));
    }
    assert(texts(out@) =~= patient_ids(contents@));
    out
}

/// The question for the rows of the patient `patient_id`.
pub fn patient_query(patient_id: &str) -> (out: String)
    ensures
        out@ == QUERY_HEAD@ + patient_id@ + QUERY_TAIL@,
{
    let mut out = String::from_str(QUERY_HEAD);
    out.append(patient_id);
    out.append(QUERY_TAIL);
    out
}

/// What the table says of one file of a patient.
#[derive(Clone, Debug, PartialEq, Eq)]
pub struct IndexedRow {
    pub laterality: String,
    /// The scan date in days since the first of January 1970.
    pub scan_date_days: u64,
    pub modality: String,
    /// The last part of the file's path.
    pub file_name: String,
}

/// Where the copy of a file goes, below the output directory: the folder
/// of the patient, in it the folder of scan date and side, in it the file.
#[derive(Clone, Debug, PartialEq, Eq)]
pub struct Destination {
    pub patient_folder: String,
    pub date_folder: String,
    pub file_name: String,
}

/// The mathematical value of a [`Destination`].
pub struct DestinationView {
    pub patient_folder: Seq<char>,
    pub date_folder: Seq<char>,
    pub file_name: Seq<char>,
}

impl View for Destination {
    type V = DestinationView;

    open spec fn view(&self) -> DestinationView {
        DestinationView {
            patient_folder: self.patient_folder@,
            date_folder: self.date_folder@,
            file_name: self.file_name@,
        }
    }
}

/// The text of the day that lies `days` days after the day `start`, as
/// chrono's `NaiveDate` writes it under the layout `layout`; nothing where
/// chrono has no such day or cannot write it so.
pub uninterp spec fn day_text_after(start: CalendarDate, days: u64, layout: Seq<char>) -> Option<
    Seq<char>,
>;

/// Calls chrono's `NaiveDate::from_ymd_opt`, `checked_add_days` and
/// `format`. Trusted: the result depends on the day, the number of days and
/// the layout alone.
#[verifier::external_body]
fn format_day_after(start: CalendarDate, days: u64, layout: &str) -> (out: Option<String>)
    ensures
        match out {
            Some(s) => day_text_after(start, days, layout@) == Some(s@),
            None => day_text_after(start, days, layout@) is None,
        },
{
    let mut text = String::new();
    match chrono::NaiveDate::from_ymd_opt(start.year, start.month, start.day) {
        Some(first) => match first.checked_add_days(chrono::Days::new(days)) {
            Some(day) => match write!(text, "{}", day.format(layout)) {
                Ok(()) => Some(text),
                Err(_) => None,
            },
            None => None,
        },
        None => None,
    }
}

/// The day from which the table counts scan dates: the first of January
/// 1970.
pub open spec fn scan_date_origin() -> CalendarDate {
    CalendarDate { year: EPOCH_YEAR, month: EPOCH_MONTH, day: EPOCH_DAY }
}

/// The text of a scan date in the name of a folder, from the number of
/// days that the table holds for it.
pub open spec fn scan_date_text(days: u64) -> Option<Seq<char>> {
    day_text_after(scan_date_origin(), days, SCAN_DATE_LAYOUT@)
}

/// Where the copy of the file of `row` goes for the patient `patient_id`,
/// with `date` as the text of the scan date: the date folder is the date, an
/// underscore and the side; the file is named by the modality, an
/// underscore and the file's own name.
pub open spec fn destination_for(patient_id: Seq<char>, date: Seq<char>, row: IndexedRow)
    -> DestinationView {
    DestinationView {
        patient_folder: patient_id,
        date_folder: date + seq!['_'] + row.laterality@,
        file_name: row.modality@ + seq!['_'] + row.file_name@,
    }
}

/// Settles where the copy of a file goes, from the text of its scan date.
pub fn destination_with_date(patient_id: &str, date: &str, row: &IndexedRow) -> (out: Destination)
    ensures
        out@ == destination_for(patient_id@, date@, *row),
{
    let mut date_folder = String::from_str(date);
    date_folder.push('_');
    date_folder.append(row.laterality.as_str());
    let mut file_name = row.modality.clone();
    file_name.push('_');
    file_name.append(row.file_name.as_str());
    assert(date_folder@ =~= date@ + seq!['_'] + row.laterality@);
    assert(file_name@ =~= row.modality@ + seq!['_'] + row.file_name@);
    Destination { patient_folder: String::from_str(patient_id), date_folder, file_name }
}

/// Settles where the copy of a file goes. `None` where the scan date lies
/// beyond the days that the calendar can represent.
pub fn destination(patient_id: &str, row: &IndexedRow) -> (out: Option<Destination>)
    ensures
        match out {
            Some(d) => scan_date_text(row.scan_date_days) is Some && d@ == destination_for(
                patient_id@,
                scan_date_text(row.scan_date_days)->Some_0,
                *row,
            ),
            None => scan_date_text(row.scan_date_days) is None,
        },
{
    let origin = CalendarDate { year: EPOCH_YEAR, month: EPOCH_MONTH, day: EPOCH_DAY };
    match format_day_after(origin, row.scan_date_days, SCAN_DATE_LAYOUT) {
        Some(date) => Some(destination_with_date(patient_id, date.as_str(), row)),
        None => None,
    }
}

/// Whether a file is copied: always where the target does not exist, and
/// over an existing target only under overwrite.
pub fn should_copy(target_exists: bool, overwrite: bool) -> (out: bool)
    ensures
        out == (!target_exists || overwrite),
{
    !target_exists || overwrite
}

/// Whether a patient is served in full: the table has rows for the patient
/// and no copy failed. Every other patient goes into the report of those
/// not found.
pub fn patient_served(row_count: usize, failed_copies: usize) -> (out: bool)
    ensures
        out == (row_count > 0 && failed_copies == 0),
{
    row_count > 0 && failed_copies == 0
}

} // verus!
