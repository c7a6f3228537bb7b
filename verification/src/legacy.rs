//! The legacy-format strategy: an outside converter writes a sidecar with
//! the metadata, which is mapped to a record.
//!
//! The converter is run by the caller, once per file and without retry: a
//! run is costly and its failures are not transient. The library says how
//! the converter is invoked and what follows from the run.

use crate::adapter::{ExtractError, ExtractErrorView, FailureKind, SourceFile};
use crate::dates::{format_date, format_modified_datetime, normalized_date};
use crate::record::{Record, RecordView};
use vstd::prelude::*;
use vstd::string::StringExecFns;

verus! {

/// Layout of the date of birth in the converter's sidecar.
pub const SIDECAR_DATE_LAYOUT: &'static str = "%Y-%m-%d";

/// Layout of the scan time in the converter's sidecar.
pub const SIDECAR_TIME_LAYOUT: &'static str = "%Y-%m-%d %H:%M:%S%.f";

/// Modality code of every record that comes from the converter.
pub const LEGACY_MODALITY: &'static str = "CE";

/// Name of the sidecar that the converter leaves in the scratch directory.
pub const SIDECAR_FILE_NAME: &'static str = "metadata.json";

/// Start of the cause reported when the converter ends without success.
pub const EXIT_FAILURE_PREFIX: &'static str = "crystal-eye command failed with status: ";

/// The `patient` object of the sidecar.
#[derive(Clone, Debug, PartialEq, Eq)]
pub struct PatientData {
    pub patient_key: Option<String>,
    pub first_name: Option<String>,
    pub last_name: Option<String>,
    pub date_of_birth: Option<String>,
    pub gender: Option<String>,
}

/// The `exam` object of the sidecar.
#[derive(Clone, Debug, PartialEq, Eq)]
pub struct ExamData {
    pub manufacturer: Option<String>,
    pub scan_datetime: Option<String>,
}

/// The `series` object of the sidecar.
#[derive(Clone, Debug, PartialEq, Eq)]
pub struct SeriesData {
    pub laterality: Option<String>,
    pub protocol: Option<String>,
}

/// The converter's sidecar. Every value may be missing.
#[derive(Clone, Debug, PartialEq, Eq)]
pub struct LegacyMetadata {
    pub patient: PatientData,
    pub exam: ExamData,
    pub series: SeriesData,
}

/// How the converter ended.
#[derive(Clone, Debug, PartialEq, Eq)]
pub struct ExitReport {
    pub success: bool,
    /// The exit status as the system shows it.
    pub status: String,
}

/// All that is known of one run of the converter on a file. Each step holds
/// the cause where it failed; a step after a failed one is not looked at.
#[derive(Debug, PartialEq, Eq)]
pub struct LegacyRun {
    /// Making the scratch directory.
    pub scratch: Result<(), String>,
    /// Starting the converter and waiting for its end.
    pub exit: Result<ExitReport, String>,
    /// Reading the sidecar from the scratch directory.
    pub sidecar: Result<LegacyMetadata, String>,
    pub file: SourceFile,
}

/// The text of a value that may be missing: empty where it is.
pub open spec fn text_or_empty(value: Option<String>) -> Seq<char> {
    match value {
        Some(s) => s@,
        None => Seq::empty(),
    }
}

/// `path` with every backslash replaced by a slash.
pub open spec fn forward_slashes(path: Seq<char>) -> Seq<char> {
    Seq::new(
        path.len(),
        |i: int|
            if path[i] == '\\' {
                '/'
            } else {
                path[i]
            },
    )
}

/// The arguments with which the converter is run on `input` to leave only
/// the metadata, up to the one that announces the scratch directory. The
/// directory itself follows as the last argument.
pub open spec fn converter_command(input: Seq<char>) -> Seq<Seq<char>> {
    seq!["-i"@, forward_slashes(input), "--only-metadata"@, "-o"@]
}

impl LegacyRun {
    /// The failure of this run, if it fails: the first step that failed,
    /// in the order scratch directory, start, exit status, sidecar, path,
    /// metadata.
    pub open spec fn failure(self) -> Option<ExtractErrorView> {
        match self.scratch {
            Err(cause) => Some(ExtractErrorView { kind: FailureKind::Scratch, cause: cause@ }),
            Ok(_) => match self.exit {
                Err(cause) => Some(ExtractErrorView { kind: FailureKind::Launch, cause: cause@ }),
                Ok(report) => if !report.success {
                    Some(
                        ExtractErrorView {
                            kind: FailureKind::ExitStatus,
                            cause: EXIT_FAILURE_PREFIX@ + report.status@,
                        },
                    )
                } else {
                    match self.sidecar {
                        Err(cause) => Some(
                            ExtractErrorView { kind: FailureKind::Sidecar, cause: cause@ },
                        ),
                        Ok(_) => self.file.failure(),
                    }
                },
            },
        }
    }

    /// The record of this run where nothing failed, with `modified` as the
    /// text of the modification time. A missing value gives the empty text;
    /// the name is first and last name with a blank between; the modality is
    /// fixed.
    pub open spec fn record(self, modified: Seq<char>) -> RecordView {
        let m = self.sidecar->Ok_0;
        RecordView {
            patient_id: text_or_empty(m.patient.patient_key),
            patient_name: text_or_empty(m.patient.first_name) + seq![' '] + text_or_empty(
                m.patient.last_name,
            ),
            laterality: text_or_empty(m.series.laterality),
            sex: text_or_empty(m.patient.gender),
            dob: normalized_date(
                text_or_empty(m.patient.date_of_birth),
                Some(SIDECAR_DATE_LAYOUT@),
            ),
            scan_date: normalized_date(
                text_or_empty(m.exam.scan_datetime),
                Some(SIDECAR_TIME_LAYOUT@),
            ),
            modality: LEGACY_MODALITY@,
            manufacturer: text_or_empty(m.exam.manufacturer),
            series_description: text_or_empty(m.series.protocol),
            modified,
            file_size: self.file.size(),
            file_path: self.file.path(),
        }
    }
}

/// The text of a value that may be missing.
pub fn or_empty(value: &Option<String>) -> (out: String)
    ensures
        out@ == text_or_empty(*value),
{
    match value {
        Some(s) => s.clone(),
        None => String::new(),
    }
}

/// Replaces every backslash of `path` by a slash.
pub fn with_forward_slashes(path: &str) -> (out: String)
    ensures
        out@ == forward_slashes(path@),
{
    let mut out = String::new();
    for c in it: path.chars()
        invariant
            it.seq() == path@,
            out@ == forward_slashes(path@.take(it.index())),
    {
        let ghost before = path@.take(it.index());
        if c == '\\' {
            out.push('/');
        } else {
            out.push(c);
        }
        assert(out@ =~= forward_slashes(path@.take(it.index() + 1)));
    }
    assert(path@.take(path@.len() as int) =~= path@);
    out
}

/// The arguments for running the converter on the file `input`. The caller
/// adds the scratch directory, which receives the sidecar, as the last
/// argument, under the name that the system gave it.
pub fn converter_arguments(input: &str) -> (out: Vec<String>)
    ensures
        crate::record::texts(out@) == converter_command(input@),
{
    let mut out: Vec<String> = Vec::new();
    out.push(String::from_str("-i"));
    out.push(with_forward_slashes(input));
    out.push(String::from_str("--only-metadata"));
    out.push(String::from_str("-o"));
    assert(crate::record::texts(out@) =~= converter_command(input@));
    out
}

/// The record of a legacy-format file, from one run of the converter and
/// the text of the file's modification time; or the first failure among the
/// steps of the run.
pub fn assemble_legacy(run: &LegacyRun, modified: String) -> (out: Result<Record, ExtractError>)
    ensures
        match out {
            Ok(r) => run.failure() is None && r@ == run.record(modified@),
            Err(e) => run.failure() == Some(e@),
        },
{
    match &run.scratch {
        Ok(_) => {},
        Err(cause) => {
            return Err(ExtractError { kind: FailureKind::Scratch, cause: cause.clone() });
        },
    }
    let report = match &run.exit {
        Ok(report) => report,
        Err(cause) => {
            return Err(ExtractError { kind: FailureKind::Launch, cause: cause.clone() });
        },
    };
    if !report.success {
        let mut cause = String::from_str(EXIT_FAILURE_PREFIX);
        cause.append(report.status.as_str());
        return Err(ExtractError { kind: FailureKind::ExitStatus, cause });
    }
    let m = match &run.sidecar {
        Ok(m) => m,
        Err(cause) => {
            return Err(ExtractError { kind: FailureKind::Sidecar, cause: cause.clone() });
        },
    };
    let mut patient_name = or_empty(&m.patient.first_name);
    patient_name.push(' ');
    let last_name = or_empty(&m.patient.last_name);
    patient_name.append(last_name.as_str());
    let birth = or_empty(&m.patient.date_of_birth);
    let scanned = or_empty(&m.exam.scan_datetime);
    let dob = format_date(birth.as_str(), Some(SIDECAR_DATE_LAYOUT));
    let scan_date = format_date(scanned.as_str(), Some(SIDECAR_TIME_LAYOUT));
    let (file_path, file_size) = match run.file.identity() {
        Ok(found) => found,
        Err(e) => {
            return Err(e);
        },
    };
    let r = Record {
        patient_id: or_empty(&m.patient.patient_key),
        patient_name,
        laterality: or_empty(&m.series.laterality),
        sex: or_empty(&m.patient.gender),
        dob,
        scan_date,
        modality: String::from_str(LEGACY_MODALITY),
        manufacturer: or_empty(&m.exam.manufacturer),
        series_description: or_empty(&m.series.protocol),
        modified,
        file_size,
        file_path,
    };
    assert(r@.patient_name =~= run.record(modified@).patient_name);
    Ok(r)
}

/// Extracts the record of a legacy-format file from one run of the
/// converter. The modification time is shown in local time, at the offset
/// that came with it.
pub fn extract_crystal_eye_data(run: &LegacyRun) -> (out: Result<Record, ExtractError>)
    ensures
        match out {
            Ok(r) => run.failure() is None && r@ == run.record(run.file.modified_text()),
            Err(e) => run.failure() == Some(e@),
        },
{
    let modified = format_modified_datetime(
        run.file.known_modified(),
        run.file.known_offset(),
    );
    assemble_legacy(run, modified)
}

} // verus!
