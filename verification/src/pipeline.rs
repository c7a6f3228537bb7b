//! The run as a whole: how it starts, what it counts, and the laws that
//! make resuming safe.
//!
//! A run reads the resume index from the table once, then works through the
//! batches in order and appends the records of each batch before the next
//! begins. The laws below are stated over a model of the run that is made of
//! the same decisions that the library's functions take.

use crate::adapter::{OutcomeView, SkipReason};
use crate::record::RecordView;
use crate::resume::{data_paths, lemma_resumable_is_well_formed, table_fault, table_paths};
use crate::scheduler::{dispatch, settled, Candidate, Dispatch};
use crate::sink::{lemma_append_keeps_well_formed, record_rows, table_after, well_formed};
use crate::traversal::{entry_skip, kind_of, ExtensionKind, WalkEntry};
use vstd::prelude::*;

verus! {

/// How a run begins.
#[derive(Clone, Copy, Debug, PartialEq, Eq, Structural)]
pub enum Startup {
    /// The table exists and is kept: the resume index is read from it.
    Resume,
    /// The run starts from an empty index; a table that exists is handled
    /// by the rotation rule first.
    Fresh,
}

/// Decides how a run begins, from whether the table exists and whether
/// overwrite is asked for.
pub fn plan_startup(table_exists: bool, overwrite: bool) -> (out: Startup)
    ensures
        out == if table_exists && !overwrite {
            Startup::Resume
        } else {
            Startup::Fresh
        },
{
    if table_exists && !overwrite {
        Startup::Resume
    } else {
        Startup::Fresh
    }
}

/// The running total of candidates after a batch of `batch_len` more; it
/// stops at the largest number of 64 bits.
pub fn advance_total(total: u64, batch_len: usize) -> (out: u64)
    ensures
        out == if total + batch_len <= u64::MAX {
            total + batch_len
        } else {
            u64::MAX as int
        },
{
    let more = batch_len as u64;
    if more <= u64::MAX - total {
        total + more
    } else {
        u64::MAX
    }
}

/// A source file in the model of a run: what a worker knows of it before
/// extraction, and the record that its extraction gives, if it succeeds.
pub struct SourceModel {
    pub candidate: Candidate,
    pub record: Option<RecordView>,
}

impl SourceModel {
    /// A record names the file it came from by the file's resolved path.
    pub open spec fn faithful(self) -> bool {
        self.record matches Some(r) ==> self.candidate.canonical_path matches Some(p) && p@
            == r.file_path
    }

    /// The record that this file adds to the table in a run with the resume
    /// index `index`: that of its extraction, where the file is dispatched
    /// to a strategy and the extraction succeeds.
    pub open spec fn contribution(self, index: Set<Seq<char>>, tool_available: bool) -> Option<
        RecordView,
    > {
        match dispatch(self.candidate, index, tool_available) {
            Dispatch::Skip(_) => None,
            _ => self.record,
        }
    }
}

/// Every file is faithful.
pub open spec fn all_faithful(files: Seq<SourceModel>) -> bool {
    forall|i: int| 0 <= i < files.len() ==> (#[trigger] files[i]).faithful()
}

/// No two files have the same resolved path.
pub open spec fn distinct_sources(files: Seq<SourceModel>) -> bool {
    forall|i: int, j: int|
        0 <= i < j < files.len() ==> !({
            &&& (#[trigger] files[i]).candidate.canonical_path matches Some(p)
            &&& (#[trigger] files[j]).candidate.canonical_path matches Some(q)
            &&& p@ == q@
        })
}

/// The records that the files add to the table, in the order of the files.
pub open spec fn contributions(files: Seq<SourceModel>, index: Set<Seq<char>>, tool_available: bool)
    -> Seq<RecordView>
    decreases files.len(),
{
    if files.len() == 0 {
        Seq::empty()
    } else {
        let before = contributions(files.drop_last(), index, tool_available);
        match files.last().contribution(index, tool_available) {
            Some(r) => before.push(r),
            None => before,
        }
    }
}

/// The files of a sequence of batches, in order.
pub open spec fn all_files(batches: Seq<Seq<SourceModel>>) -> Seq<SourceModel>
    decreases batches.len(),
{
    if batches.len() == 0 {
        Seq::empty()
    } else {
        all_files(batches.drop_last()) + batches.last()
    }
}

/// The table after the batches were worked through in order under the
/// resume index `index`, the records of each appended before the next.
pub open spec fn table_after_run(
    rows: Seq<Seq<Seq<char>>>,
    batches: Seq<Seq<SourceModel>>,
    index: Set<Seq<char>>,
    tool_available: bool,
) -> Seq<Seq<Seq<char>>>
    decreases batches.len(),
{
    if batches.len() == 0 {
        rows
    } else {
        table_after(
            table_after_run(rows, batches.drop_last(), index, tool_available),
            contributions(batches.last(), index, tool_available),
        )
    }
}

/// The table after a run on the table `rows`: the resume index is what the
/// table holds when the run begins.
pub open spec fn run(rows: Seq<Seq<Seq<char>>>, batches: Seq<Seq<SourceModel>>, tool_available: bool)
    -> Seq<Seq<Seq<char>>> {
    table_after_run(rows, batches, table_paths(rows), tool_available)
}

/// The paths of a sequence of records, in order.
pub open spec fn record_paths(records: Seq<RecordView>) -> Seq<Seq<char>> {
    Seq::new(records.len(), |i: int| records[i].file_path)
}

/// Appending two groups of records one after the other gives the same table
/// as appending them as one group.
pub proof fn lemma_append_twice(
    rows: Seq<Seq<Seq<char>>>,
    first: Seq<RecordView>,
    second: Seq<RecordView>,
)
    ensures
        table_after(table_after(rows, first), second) == table_after(rows, first + second),
{
    assert(record_rows(first + second) =~= record_rows(first) + record_rows(second));
    if first.len() == 0 {
        assert(first + second =~= second);
        assert(table_after(rows, first) =~= rows);
    } else if second.len() == 0 {
        assert(first + second =~= first);
        assert(table_after(table_after(rows, first), second) =~= table_after(rows, first));
    } else {
        assert(table_after(table_after(rows, first), second) =~= table_after(
            rows,
            first + second,
        ));
    }
}

/// The contributions of two runs of files, one after the other, are those
/// of the first followed by those of the second.
pub proof fn lemma_contributions_concat(
    first: Seq<SourceModel>,
    second: Seq<SourceModel>,
    index: Set<Seq<char>>,
    tool_available: bool,
)
    ensures
        contributions(first + second, index, tool_available) == contributions(
            first,
            index,
            tool_available,
        ) + contributions(second, index, tool_available),
    decreases second.len(),
{
    if second.len() == 0 {
        assert(first + second =~= first);
        assert(contributions(first, index, tool_available) + Seq::<RecordView>::empty()
            =~= contributions(first, index, tool_available));
    } else {
        let both = first + second;
        assert(both.drop_last() =~= first + second.drop_last());
        assert(both.last() == second.last());
        lemma_contributions_concat(first, second.drop_last(), index, tool_available);
        let a = contributions(first, index, tool_available);
        let b = contributions(second.drop_last(), index, tool_available);
        match second.last().contribution(index, tool_available) {
            Some(r) => {
                assert((a + b).push(r) =~= a + b.push(r));
            },
            None => {},
        }
    }
}

/// The files of two sequences of batches, one after the other.
pub proof fn lemma_all_files_concat(done: Seq<Seq<SourceModel>>, rest: Seq<Seq<SourceModel>>)
    ensures
        all_files(done + rest) == all_files(done) + all_files(rest),
    decreases rest.len(),
{
    if rest.len() == 0 {
        assert(done + rest =~= done);
        assert(all_files(done) + Seq::<SourceModel>::empty() =~= all_files(done));
    } else {
        let both = done + rest;
        assert(both.drop_last() =~= done + rest.drop_last());
        assert(both.last() == rest.last());
        lemma_all_files_concat(done, rest.drop_last());
        assert((all_files(done) + all_files(rest.drop_last())) + rest.last() =~= all_files(done)
            + (all_files(rest.drop_last()) + rest.last()));
    }
}

/// How the files are grouped into batches does not change the table: a run
/// appends the contributions of all its files in order, and so all records
/// of one batch stand before all records of the next.
pub proof fn lemma_run_appends_in_order(
    rows: Seq<Seq<Seq<char>>>,
    batches: Seq<Seq<SourceModel>>,
    index: Set<Seq<char>>,
    tool_available: bool,
)
    ensures
        table_after_run(rows, batches, index, tool_available) == table_after(
            rows,
            contributions(all_files(batches), index, tool_available),
        ),
    decreases batches.len(),
{
    if batches.len() == 0 {
        assert(table_after(rows, Seq::<RecordView>::empty()) =~= rows);
    } else {
        lemma_run_appends_in_order(rows, batches.drop_last(), index, tool_available);
        lemma_contributions_concat(
            all_files(batches.drop_last()),
            batches.last(),
            index,
            tool_available,
        );
        lemma_append_twice(
            rows,
            contributions(all_files(batches.drop_last()), index, tool_available),
            contributions(batches.last(), index, tool_available),
        );
    }
}

/// The paths in a table after a group of records was appended: those it
/// had, followed by those of the records.
pub proof fn lemma_paths_after_append(rows: Seq<Seq<Seq<char>>>, records: Seq<RecordView>)
    ensures
        data_paths(table_after(rows, records)) == data_paths(rows) + record_paths(records),
{
    let after = table_after(rows, records);
    assert(data_paths(after) =~= data_paths(rows) + record_paths(records));
}

/// Every contribution is the record of one of the files, and that file was
/// dispatched to a strategy.
pub proof fn lemma_contribution_source(
    files: Seq<SourceModel>,
    index: Set<Seq<char>>,
    tool_available: bool,
    j: int,
) -> (i: int)
    requires
        0 <= j < contributions(files, index, tool_available).len(),
    ensures
        0 <= i < files.len(),
        files[i].contribution(index, tool_available) == Some(
            contributions(files, index, tool_available)[j],
        ),
        contributions(files.take(i), index, tool_available).len() == j,
    decreases files.len(),
{
    let before = contributions(files.drop_last(), index, tool_available);
    if j < before.len() {
        let i = lemma_contribution_source(files.drop_last(), index, tool_available, j);
        assert(files.drop_last()[i] == files[i]);
        assert(files.drop_last().take(i) =~= files.take(i));
        i
    } else {
        assert(files.take(files.len() - 1) =~= files.drop_last());
        files.len() - 1
    }
}

/// The record that a file contributes is among the contributions.
pub proof fn lemma_contribution_member(
    files: Seq<SourceModel>,
    index: Set<Seq<char>>,
    tool_available: bool,
    i: int,
) -> (j: int)
    requires
        0 <= i < files.len(),
        files[i].contribution(index, tool_available) is Some,
    ensures
        0 <= j < contributions(files, index, tool_available).len(),
        files[i].contribution(index, tool_available) == Some(
            contributions(files, index, tool_available)[j],
        ),
    decreases files.len(),
{
    let before = contributions(files.drop_last(), index, tool_available);
    if i < files.len() - 1 {
        assert(files.drop_last()[i] == files[i]);
        lemma_contribution_member(files.drop_last(), index, tool_available, i)
    } else {
        before.len() as int
    }
}

/// A path is in the table after an append where the table had it before
/// or one of the appended records has it.
pub proof fn lemma_index_after_append(
    rows: Seq<Seq<Seq<char>>>,
    records: Seq<RecordView>,
    path: Seq<char>,
)
    ensures
        table_paths(table_after(rows, records)).contains(path) <==> table_paths(rows).contains(path)
            || exists|j: int| 0 <= j < records.len() && (#[trigger] records[j]).file_path == path,
{
    lemma_paths_after_append(rows, records);
    let before = data_paths(rows);
    let added = record_paths(records);
    let after = before + added;
    if after.contains(path) {
        let k = choose|k: int| 0 <= k < after.len() && after[k] == path;
        if k < before.len() {
            assert(before[k] == path);
        } else {
            assert(records[k - before.len()].file_path == path);
        }
    }
    if before.contains(path) {
        let k = choose|k: int| 0 <= k < before.len() && before[k] == path;
        assert(after[k] == path);
    }
    if exists|j: int| 0 <= j < records.len() && (#[trigger] records[j]).file_path == path {
        let j = choose|j: int| 0 <= j < records.len() && (#[trigger] records[j]).file_path == path;
        assert(after[before.len() + j] == path);
    }
}

/// Files that contribute nothing leave no record.
pub proof fn lemma_no_contributions(
    files: Seq<SourceModel>,
    index: Set<Seq<char>>,
    tool_available: bool,
)
    requires
        forall|i: int|
            0 <= i < files.len() ==> (#[trigger] files[i]).contribution(index, tool_available)
                is None,
    ensures
        contributions(files, index, tool_available) == Seq::<RecordView>::empty(),
    decreases files.len(),
{
    if files.len() > 0 {
        assert forall|i: int| 0 <= i < files.drop_last().len() implies (
        #[trigger] files.drop_last()[i]).contribution(index, tool_available) is None by {
            assert(files.drop_last()[i] == files[i]);
        }
        lemma_no_contributions(files.drop_last(), index, tool_available);
        assert(files.last() == files[files.len() - 1]);
    }
}

/// Files that contribute the same under two resume indexes leave the same
/// records.
pub proof fn lemma_same_contributions(
    files: Seq<SourceModel>,
    index: Set<Seq<char>>,
    other: Set<Seq<char>>,
    tool_available: bool,
)
    requires
        forall|i: int|
            0 <= i < files.len() ==> (#[trigger] files[i]).contribution(index, tool_available)
                == files[i].contribution(other, tool_available),
    ensures
        contributions(files, index, tool_available) == contributions(files, other, tool_available),
    decreases files.len(),
{
    if files.len() > 0 {
        assert forall|i: int| 0 <= i < files.drop_last().len() implies (
        #[trigger] files.drop_last()[i]).contribution(index, tool_available)
            == files.drop_last()[i].contribution(other, tool_available) by {
            assert(files.drop_last()[i] == files[i]);
        }
        lemma_same_contributions(files.drop_last(), index, other, tool_available);
        assert(files.last() == files[files.len() - 1]);
    }
}

/// Once the records of some files are in the table, a run that reads its
/// resume index from that table takes none of these files again.
pub proof fn lemma_recorded_files_are_skipped(
    rows: Seq<Seq<Seq<char>>>,
    files: Seq<SourceModel>,
    tool_available: bool,
    i: int,
)
    requires
        all_faithful(files),
        0 <= i < files.len(),
    ensures
        files[i].contribution(
            table_paths(
                table_after(rows, contributions(files, table_paths(rows), tool_available)),
            ),
            tool_available,
        ) is None,
{
    let index = table_paths(rows);
    let added = contributions(files, index, tool_available);
    let later = table_paths(table_after(rows, added));
    let file = files[i];
    assert(file.faithful());
    match file.contribution(index, tool_available) {
        Some(r) => {
            let j = lemma_contribution_member(files, index, tool_available, i);
            assert(added[j].file_path == r.file_path);
            lemma_index_after_append(rows, added, r.file_path);
        },
        None => {
            match file.candidate.canonical_path {
                Some(p) => {
                    lemma_index_after_append(rows, added, p@);
                },
                None => {},
            }
        },
    }
}

/// Idempotent resume: a second run over the same files, on the table that
/// the first run left, adds nothing. The table after two runs is the table
/// after one.
pub proof fn lemma_idempotent_resume(
    rows: Seq<Seq<Seq<char>>>,
    batches: Seq<Seq<SourceModel>>,
    tool_available: bool,
)
    requires
        all_faithful(all_files(batches)),
    ensures
        run(run(rows, batches, tool_available), batches, tool_available) == run(
            rows,
            batches,
            tool_available,
        ),
{
    let files = all_files(batches);
    let index = table_paths(rows);
    let added = contributions(files, index, tool_available);
    let once = run(rows, batches, tool_available);
    lemma_run_appends_in_order(rows, batches, index, tool_available);
    let later = table_paths(once);
    lemma_run_appends_in_order(once, batches, later, tool_available);
    assert forall|i: int| 0 <= i < files.len() implies (#[trigger] files[i]).contribution(
        later,
        tool_available,
    ) is None by {
        lemma_recorded_files_are_skipped(rows, files, tool_available, i);
    }
    lemma_no_contributions(files, later, tool_available);
    assert(table_after(once, Seq::<RecordView>::empty()) =~= once);
}

/// Batch atomicity at the checkpoint boundary: where a run is interrupted
/// after the batches `done` and before the batches `rest`, a rerun over all
/// batches leaves exactly the table of an uninterrupted run. No record of a
/// batch that was done is lost or written twice, and every later batch is
/// worked through in full.
pub proof fn lemma_checkpoint_resume(
    rows: Seq<Seq<Seq<char>>>,
    done: Seq<Seq<SourceModel>>,
    rest: Seq<Seq<SourceModel>>,
    tool_available: bool,
)
    requires
        all_faithful(all_files(done + rest)),
        distinct_sources(all_files(done + rest)),
    ensures
        run(run(rows, done, tool_available), done + rest, tool_available) == run(
            rows,
            done + rest,
            tool_available,
        ),
{
    let early = all_files(done);
    let late = all_files(rest);
    let files = all_files(done + rest);
    lemma_all_files_concat(done, rest);
    let index = table_paths(rows);
    let added = contributions(early, index, tool_available);
    let stopped = run(rows, done, tool_available);
    lemma_run_appends_in_order(rows, done, index, tool_available);
    let later = table_paths(stopped);
    assert(all_faithful(early)) by {
        assert forall|i: int| 0 <= i < early.len() implies (#[trigger] early[i]).faithful() by {
            assert(files[i] == early[i]);
        }
    }
    assert forall|i: int| 0 <= i < early.len() implies (#[trigger] early[i]).contribution(
        later,
        tool_available,
    ) is None by {
        lemma_recorded_files_are_skipped(rows, early, tool_available, i);
    }
    lemma_no_contributions(early, later, tool_available);
    assert forall|i: int| 0 <= i < late.len() implies (#[trigger] late[i]).contribution(
        later,
        tool_available,
    ) == late[i].contribution(index, tool_available) by {
        let file = late[i];
        assert(files[early.len() + i] == file);
        match file.candidate.canonical_path {
            Some(p) => {
                lemma_index_after_append(rows, added, p@);
                if exists|j: int| 0 <= j < added.len() && (#[trigger] added[j]).file_path == p@ {
                    let j = choose|j: int|
                        0 <= j < added.len() && (#[trigger] added[j]).file_path == p@;
                    let k = lemma_contribution_source(early, index, tool_available, j);
                    assert(files[k] == early[k]);
                    assert(early[k].faithful());
                    assert(false);
                }
            },
            None => {},
        }
    }
    lemma_same_contributions(late, later, index, tool_available);
    lemma_contributions_concat(early, late, later, tool_available);
    lemma_contributions_concat(early, late, index, tool_available);
    lemma_run_appends_in_order(stopped, done + rest, later, tool_available);
    lemma_run_appends_in_order(rows, done + rest, index, tool_available);
    assert(Seq::<RecordView>::empty() + contributions(late, index, tool_available)
        =~= contributions(late, index, tool_available));
    lemma_append_twice(rows, added, contributions(late, index, tool_available));
}

/// No duplicate rows: where the table holds no path twice and no two files
/// have the same resolved path, the table after a run holds no path twice.
pub proof fn lemma_no_duplicate_paths(
    rows: Seq<Seq<Seq<char>>>,
    batches: Seq<Seq<SourceModel>>,
    tool_available: bool,
)
    requires
        data_paths(rows).no_duplicates(),
        all_faithful(all_files(batches)),
        distinct_sources(all_files(batches)),
    ensures
        data_paths(run(rows, batches, tool_available)).no_duplicates(),
{
    let files = all_files(batches);
    let index = table_paths(rows);
    let added = contributions(files, index, tool_available);
    lemma_run_appends_in_order(rows, batches, index, tool_available);
    lemma_paths_after_append(rows, added);
    let before = data_paths(rows);
    let paths = before + record_paths(added);
    assert forall|a: int, b: int| 0 <= a < b < paths.len() implies paths[a] != paths[b] by {
        if b < before.len() {
        } else {
            let jb = b - before.len();
            let ib = lemma_contribution_source(files, index, tool_available, jb);
            assert(files[ib].faithful());
            if a < before.len() {
                assert(before.contains(before[a]));
            } else {
                let ja = a - before.len();
                let ia = lemma_contribution_source(files, index, tool_available, ja);
                assert(files[ia].faithful());
                if ia < ib {
                } else if ib < ia {
                }
            }
        }
    }
}

/// A run leaves a table that the next run can resume from: the header row
/// first, then rows that each denote a record.
pub proof fn lemma_run_keeps_table_resumable(
    rows: Seq<Seq<Seq<char>>>,
    batches: Seq<Seq<SourceModel>>,
    tool_available: bool,
)
    requires
        well_formed(rows),
    ensures
        well_formed(run(rows, batches, tool_available)),
        table_fault(run(rows, batches, tool_available)) is None,
{
    let index = table_paths(rows);
    lemma_run_appends_in_order(rows, batches, index, tool_available);
    lemma_append_keeps_well_formed(
        rows,
        contributions(all_files(batches), index, tool_available),
    );
    lemma_resumable_is_well_formed(run(rows, batches, tool_available));
}

/// A file without content is never handed to a strategy: the walk passes
/// it over where its extension is recognized, a worker passes it over
/// whatever the resume index holds, its outcome is that of a file passed
/// over and not a failure, and it adds no record to the table.
pub proof fn lemma_empty_file_is_skipped(
    entry: WalkEntry,
    file: SourceModel,
    index: Set<Seq<char>>,
    tool_available: bool,
)
    requires
        entry.is_regular,
        kind_of(entry.extension) != ExtensionKind::Other,
        entry.size == Some(0u64),
        file.candidate.size == Some(0u64),
    ensures
        entry_skip(entry) == Some(SkipReason::Empty),
        dispatch(file.candidate, index, tool_available) == Dispatch::Skip(SkipReason::Empty),
        settled(dispatch(file.candidate, index, tool_available)) == Some(
            OutcomeView::Skipped(SkipReason::Empty),
        ),
        file.contribution(index, tool_available) is None,
{
}

} // verus!
