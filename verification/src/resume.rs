//! The resume index: the source files that an earlier run has in the output
//! already.
//!
//! The index is read once, from the rows of the existing table, and never
//! changed afterwards. A file whose path it holds is not extracted again.

use crate::record::{header_fields, header_row, row_record, texts, Record};
use crate::sink::{table, well_formed};
use vstd::hash_set::StringHashSet;
use vstd::prelude::*;

verus! {

/// The set of resolved paths of the files that the output table holds.
pub struct ResumeIndex {
    paths: StringHashSet,
}

impl View for ResumeIndex {
    type V = Set<Seq<char>>;

    closed spec fn view(&self) -> Set<Seq<char>> {
        self.paths@
    }
}

/// Why an existing table cannot be resumed from.
#[derive(Clone, Copy, Debug, PartialEq, Eq, Structural)]
pub enum TableFault {
    /// The bytes are not a table that the csv reader accepts.
    Undecodable,
    /// The first row is not the header row.
    BadHeader,
    /// The row with this index, counted from the header as 0, is no record.
    BadRow(usize),
}

/// The paths in the data rows of a table, in order: the last column of
/// each row behind the header.
pub open spec fn data_paths(rows: Seq<Seq<Seq<char>>>) -> Seq<Seq<char>> {
    Seq::new(
        if rows.len() == 0 {
            0nat
        } else {
            (rows.len() - 1) as nat
        },
        |i: int| rows[i + 1][11],
    )
}

/// The set of paths that a table holds.
pub open spec fn table_paths(rows: Seq<Seq<Seq<char>>>) -> Set<Seq<char>> {
    data_paths(rows).to_set()
}

/// What keeps a table from being resumed from, if anything: a first row
/// other than the header, else the first row behind it that is no record.
pub open spec fn table_fault(rows: Seq<Seq<Seq<char>>>) -> Option<TableFault> {
    if rows.len() == 0 {
        None
    } else if rows[0] != header_row() {
        Some(TableFault::BadHeader)
    } else if exists|i: int| 1 <= i < rows.len() && (#[trigger] row_record(rows[i])) is None {
        Some(TableFault::BadRow(first_bad_row(rows) as usize))
    } else {
        None
    }
}

/// The index of the first row behind the header that is no record.
pub open spec fn first_bad_row(rows: Seq<Seq<Seq<char>>>) -> int {
    choose|i: int|
        1 <= i < rows.len() && (#[trigger] row_record(rows[i])) is None && forall|j: int|
            1 <= j < i ==> (#[trigger] row_record(rows[j])) is Some
}

/// A table can be resumed from exactly where it is as the sink leaves it.
pub proof fn lemma_resumable_is_well_formed(rows: Seq<Seq<Seq<char>>>)
    ensures
        table_fault(rows) is None <==> well_formed(rows),
{
}

/// Whether two vectors hold the same texts.
pub fn same_texts(a: &Vec<String>, b: &Vec<String>) -> (out: bool)
    ensures
        out == (texts(a@) == texts(b@)),
{
    if a.len() != b.len() {
        assert(texts(a@).len() != texts(b@).len());
        return false;
    }
    let mut i: usize = 0;
    while i < a.len()
        invariant
            0 <= i <= a.len(),
            a.len() == b.len(),
            forall|j: int| 0 <= j < i ==> a@[j]@ == b@[j]@,
        decreases a.len() - i,
    {
        if a[i] != b[i] {
            assert(texts(a@)[i as int] != texts(b@)[i as int]);
            return false;
        }
        i = i + 1;
    }
    assert(texts(a@) =~= texts(b@));
    true
}

impl ResumeIndex {
    /// The index of a run that starts from nothing.
    pub fn new() -> (out: ResumeIndex)
        ensures
            out@ == Set::<Seq<char>>::empty(),
    {
        ResumeIndex { paths: StringHashSet::new() }
    }

    /// Whether an earlier run has the file with this resolved path in the
    /// output already.
    pub fn contains(&self, path: &str) -> (out: bool)
        ensures
            out == self@.contains(path@),
    {
        self.paths.contains(path)
    }

    /// The number of files in the index.
    pub fn len(&self) -> (out: usize)
        ensures
            out == self@.len(),
    {
        self.paths.len()
    }

    /// The index of the given paths.
    pub fn from_paths(paths: &Vec<String>) -> (out: ResumeIndex)
        ensures
            out@ == texts(paths@).to_set(),
    {
        let mut set = StringHashSet::new();
        let mut i: usize = 0;
        assert(texts(paths@).take(0).to_set() =~= Set::<Seq<char>>::empty());
        while i < paths.len()
            invariant
                0 <= i <= paths.len(),
                set@ == texts(paths@).take(i as int).to_set(),
            decreases paths.len() - i,
        {
            set.insert(paths[i].clone());
            proof {
                let all = texts(paths@);
                assert(all.take(i + 1) =~= all.take(i as int).push(paths@[i as int]@));
                all.take(i as int).lemma_push_to_set_commute(paths@[i as int]@);
            }
            i = i + 1;
        }
        assert(texts(paths@).take(i as int) =~= texts(paths@));
        ResumeIndex { paths: set }
    }

    /// Builds the index from the rows of an existing table, the header row
    /// first. A table without rows gives the empty index. The table must be
    /// as the sink leaves it: the first fault found is reported.
    pub fn from_rows(rows: &Vec<Vec<String>>) -> (out: Result<ResumeIndex, TableFault>)
        ensures
            match out {
                Ok(index) => table_fault(table(rows@)) is None && index@ == table_paths(
                    table(rows@),
                ),
                Err(fault) => table_fault(table(rows@)) == Some(fault),
            },
            out is Ok <==> well_formed(table(rows@)),
    {
        let ghost t = table(rows@);
        let mut set = StringHashSet::new();
        if rows.len() == 0 {
            assert(data_paths(t).to_set() =~= Set::<Seq<char>>::empty());
            return Ok(ResumeIndex { paths: set });
        }
        let header = header_fields();
        if !same_texts(&rows[0], &header) {
            return Err(TableFault::BadHeader);
        }
        let mut i: usize = 1;
        assert(data_paths(t).take(0).to_set() =~= Set::<Seq<char>>::empty());
        while i < rows.len()
            invariant
                1 <= i <= rows.len(),
                t == table(rows@),
                t[0] == header_row(),
                forall|j: int| 1 <= j < i ==> (#[trigger] row_record(t[j])) is Some,
                set@ == data_paths(t).take(i - 1).to_set(),
            decreases rows.len() - i,
        {
            match Record::from_fields(&rows[i]) {
                Some(r) => {
                    set.insert(r.file_path);
                    proof {
                        let paths = data_paths(t);
                        assert(paths.take(i as int) =~= paths.take(i - 1).push(t[i as int][11]));
                        paths.take(i - 1).lemma_push_to_set_commute(t[i as int][11]);
                    }
                },
                None => {
                    proof {
                        let k = i as int;
                        assert(row_record(t[k]) is None);
                        let f = first_bad_row(t);
                        assert(1 <= f < t.len() && row_record(t[f]) is None && forall|j: int|
                            1 <= j < f ==> (#[trigger] row_record(t[j])) is Some);
                        assert(f == k) by {
                            if f < k {
                                assert(row_record(t[f]) is Some);
                            }
                            if k < f {
                                assert(row_record(t[k]) is Some);
                            }
                        }
                    }
                    return Err(TableFault::BadRow(i));
                },
            }
            i = i + 1;
        }
        assert(data_paths(t).take(i - 1) =~= data_paths(t));
        Ok(ResumeIndex { paths: set })
    }
}

/// The rows that the csv crate's reader finds in `bytes`, every row taken
/// as a record, the first one too; or nothing where it reports an error.
pub uninterp spec fn decoded_rows(bytes: Seq<u8>) -> Option<Seq<Seq<Seq<char>>>>;

/// Reads all rows with a reader of the csv crate (`Reader::records` on a
/// reader that takes no row for a header). Trusted: the rows depend on the
/// bytes alone.
#[verifier::external_body]
fn decode_rows(bytes: &[u8]) -> (out: Option<Vec<Vec<String>>>)
    ensures
        match out {
            Some(rows) => decoded_rows(bytes@) == Some(table(rows@)),
            None => decoded_rows(bytes@) is None,
        },
{
    let mut reader = csv::ReaderBuilder::new().has_headers(false).from_reader(bytes);
    let mut rows: Vec<Vec<String>> = Vec::new();
    for record in reader.records() {
        match record {
            Ok(fields) => rows.push(fields.iter().map(String::from).collect()),
            Err(_) => return None,
        }
    }
    Some(rows)
}

/// What keeps the table in `bytes` from being resumed from, if anything.
pub open spec fn artifact_fault(bytes: Seq<u8>) -> Option<TableFault> {
    match decoded_rows(bytes) {
        Some(rows) => table_fault(rows),
        None => Some(TableFault::Undecodable),
    }
}

/// Builds the resume index from the content of an existing table.
pub fn read_existing_csv(bytes: &[u8]) -> (out: Result<ResumeIndex, TableFault>)
    ensures
        match out {
            Ok(index) => artifact_fault(bytes@) is None && decoded_rows(bytes@) is Some && index@
                == table_paths(decoded_rows(bytes@)->Some_0),
            Err(fault) => artifact_fault(bytes@) == Some(fault),
        },
{
    match decode_rows(bytes) {
        Some(rows) => ResumeIndex::from_rows(&rows),
        None => Err(TableFault::Undecodable),
    }
}

} // verus!
