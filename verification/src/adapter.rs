//! What the two extraction strategies share: the failure of an extraction,
//! the file system's account of a source file, and the outcome per file.
//!
//! Extraction itself reads files and runs an outside converter; that is done
//! by the caller. The library decides from what was read: which failure is
//! reported, and how the attributes of either source are mapped to a
//! [`Record`].

use crate::dates::{modified_shown, Timestamp};
use crate::record::{Record, RecordView};
use vstd::prelude::*;

verus! {

/// The step of an extraction that failed.
#[derive(Clone, Copy, Debug, PartialEq, Eq, Structural)]
pub enum FailureKind {
    /// The source file could not be opened or its header not be read.
    Open,
    /// An attribute is present but its value cannot be read as text.
    Attribute,
    /// The file's absolute path could not be resolved, or is not text.
    Path,
    /// The file's size and modification time could not be read.
    Metadata,
    /// No scratch directory could be made for the converter.
    Scratch,
    /// The converter could not be started.
    Launch,
    /// The converter ended without success.
    ExitStatus,
    /// The converter's sidecar is missing or malformed.
    Sidecar,
}

/// A failed extraction: the step that failed and a description of the cause.
#[derive(Clone, Debug, PartialEq, Eq)]
pub struct ExtractError {
    pub kind: FailureKind,
    pub cause: String,
}

/// The mathematical value of an [`ExtractError`].
pub struct ExtractErrorView {
    pub kind: FailureKind,
    pub cause: Seq<char>,
}

impl View for ExtractError {
    type V = ExtractErrorView;

    open spec fn view(&self) -> ExtractErrorView {
        ExtractErrorView { kind: self.kind, cause: self.cause@ }
    }
}

impl ExtractError {
    /// The description of the cause.
    pub fn message(&self) -> (out: String)
        ensures
            out@ == self.cause@,
    {
        self.cause.clone()
    }
}

/// Size and modification time of a file.
#[derive(Clone, Copy, Debug, PartialEq, Eq)]
pub struct FileMetadata {
    pub size: u64,
    pub modified: Option<Timestamp>,
    /// What the machine's local time is ahead of UTC at the modification
    /// time, in seconds.
    pub offset_seconds: i32,
}

/// What the file system says of a source file. Each part holds the cause
/// where it could not be had.
#[derive(Debug, PartialEq, Eq)]
pub struct SourceFile {
    /// The absolute path with every link resolved.
    pub canonical_path: Result<String, String>,
    pub metadata: Result<FileMetadata, String>,
}

impl SourceFile {
    /// The failure that the file system's answers stand for: that of the
    /// path before that of the metadata.
    pub open spec fn failure(self) -> Option<ExtractErrorView> {
        match self.canonical_path {
            Err(cause) => Some(ExtractErrorView { kind: FailureKind::Path, cause: cause@ }),
            Ok(_) => match self.metadata {
                Err(cause) => Some(
                    ExtractErrorView { kind: FailureKind::Metadata, cause: cause@ },
                ),
                Ok(_) => None,
            },
        }
    }

    /// The resolved path, where there is one.
    pub open spec fn path(self) -> Seq<char> {
        match self.canonical_path {
            Ok(p) => p@,
            Err(_) => Seq::empty(),
        }
    }

    /// The size in bytes, where it is known.
    pub open spec fn size(self) -> u64 {
        match self.metadata {
            Ok(m) => m.size,
            Err(_) => 0,
        }
    }

    /// The modification time, where it is known.
    pub open spec fn modified(self) -> Option<Timestamp> {
        match self.metadata {
            Ok(m) => m.modified,
            Err(_) => None,
        }
    }

    /// The offset of local time from UTC in seconds, where it is known.
    pub open spec fn offset(self) -> i32 {
        match self.metadata {
            Ok(m) => m.offset_seconds,
            Err(_) => 0,
        }
    }

    /// The text of the modification time in local time: empty where the
    /// time is missing or chrono has no text for it.
    pub open spec fn modified_text(self) -> Seq<char> {
        modified_shown(self.modified(), self.offset())
    }
}

impl SourceFile {
    /// The modification time as far as it is known.
    pub fn known_modified(&self) -> (out: Option<Timestamp>)
        ensures
            out == self.modified(),
    {
        match &self.metadata {
            Ok(m) => m.modified,
            Err(_) => None,
        }
    }

    /// The offset of local time from UTC in seconds as far as it is known.
    pub fn known_offset(&self) -> (out: i32)
        ensures
            out == self.offset(),
    {
        match &self.metadata {
            Ok(m) => m.offset_seconds,
            Err(_) => 0,
        }
    }

    /// The resolved path and the size, or the failure that the file
    /// system's answers stand for.
    pub fn identity(&self) -> (out: Result<(String, u64), ExtractError>)
        ensures
            match out {
                Ok((path, size)) => self.failure() is None && path@ == self.path() && size
                    == self.size(),
                Err(e) => self.failure() == Some(e@),
            },
    {
        let path = match &self.canonical_path {
            Ok(p) => p.clone(),
            Err(cause) => {
                return Err(ExtractError { kind: FailureKind::Path, cause: cause.clone() });
            },
        };
        match &self.metadata {
            Ok(m) => Ok((path, m.size)),
            Err(cause) => Err(ExtractError { kind: FailureKind::Metadata, cause: cause.clone() }),
        }
    }
}

/// Why a file was passed over without an extraction.
#[derive(Clone, Copy, Debug, PartialEq, Eq, Structural)]
pub enum SkipReason {
    /// Not a regular file.
    NotRegular,
    /// The extension is none of the recognized ones.
    UnrecognizedExtension,
    /// The file has no content.
    Empty,
    /// The file's size could not be read.
    Unreadable,
    /// The file's absolute path could not be resolved.
    NoCanonicalPath,
    /// An earlier run has the file in the output already.
    AlreadyProcessed,
    /// The file needs the converter, which is not available in this run.
    ToolUnavailable,
}

/// What became of one file.
#[derive(Clone, Debug, PartialEq, Eq)]
pub enum Outcome {
    Success(Record),
    Skipped(SkipReason),
    Failed { error: ExtractError, retries_exhausted: bool },
}

/// The mathematical value of an [`Outcome`].
pub enum OutcomeView {
    Success(RecordView),
    Skipped(SkipReason),
    Failed { error: ExtractErrorView, retries_exhausted: bool },
}

impl View for Outcome {
    type V = OutcomeView;

    open spec fn view(&self) -> OutcomeView {
        match self {
            Outcome::Success(r) => OutcomeView::Success(r@),
            Outcome::Skipped(reason) => OutcomeView::Skipped(*reason),
            Outcome::Failed { error, retries_exhausted } => OutcomeView::Failed {
                error: error@,
                retries_exhausted: *retries_exhausted,
            },
        }
    }
}

/// The outcome of an extraction that is tried once and not again.
pub open spec fn single_attempt(attempt: Result<Record, ExtractError>) -> OutcomeView {
    match attempt {
        Ok(r) => OutcomeView::Success(r@),
        Err(e) => OutcomeView::Failed { error: e@, retries_exhausted: false },
    }
}

/// Turns the result of an extraction that is not retried into an outcome.
pub fn outcome_of_single_attempt(attempt: Result<Record, ExtractError>) -> (out: Outcome)
    ensures
        out@ == single_attempt(attempt),
{
    match attempt {
        Ok(r) => Outcome::Success(r),
        Err(error) => Outcome::Failed { error, retries_exhausted: false },
    }
}

} // verus!
