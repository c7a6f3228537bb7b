//! The batch scheduler: how a batch is divided among the workers, what is
//! done with each file, and what of a batch reaches the sink.
//!
//! Running the workers is the caller's part. Each worker takes one chunk,
//! asks for every file of it what to do, and reports the outcome. When all
//! chunks are done, the records of the batch go to the sink as one group,
//! before the next batch begins.

use crate::adapter::{Outcome, OutcomeView, SkipReason};
use crate::record::{Record, RecordView};
use crate::resume::ResumeIndex;
use crate::sink::{encoded_rows, rows_to_append, save_results_to_csv, views};
use crate::traversal::{classify_optional_extension, kind_of, ExtensionKind};
use vstd::prelude::*;

verus! {

/// What a worker knows of a file before any extraction.
#[derive(Clone, Debug, PartialEq, Eq)]
pub struct Candidate {
    /// The extension of the file name, where it has one that is text.
    pub extension: Option<String>,
    /// The size in bytes, where it could be read.
    pub size: Option<u64>,
    /// The absolute path with every link resolved, where there is one.
    pub canonical_path: Option<String>,
}

/// What is done with a file.
#[derive(Clone, Copy, Debug, PartialEq, Eq, Structural)]
pub enum Dispatch {
    /// Nothing: the file is passed over.
    Skip(SkipReason),
    /// The native-format strategy, under the retry policy.
    Native,
    /// The legacy-format strategy, tried once.
    Legacy,
}

/// What is done with a file, given the paths that earlier runs have in the
/// output and whether the converter is available. A file of unknown size or
/// without content is passed over, then one without a resolved path, then
/// one that the output holds already. Of the others the extension decides.
pub open spec fn dispatch(candidate: Candidate, index: Set<Seq<char>>, tool_available: bool)
    -> Dispatch {
    match candidate.size {
        None => Dispatch::Skip(SkipReason::Unreadable),
        Some(size) => if size == 0 {
            Dispatch::Skip(SkipReason::Empty)
        } else {
            match candidate.canonical_path {
                None => Dispatch::Skip(SkipReason::NoCanonicalPath),
                Some(path) => if index.contains(path@) {
                    Dispatch::Skip(SkipReason::AlreadyProcessed)
                } else {
                    match kind_of(candidate.extension) {
                        ExtensionKind::Native => Dispatch::Native,
                        ExtensionKind::Legacy => if tool_available {
                            Dispatch::Legacy
                        } else {
                            Dispatch::Skip(SkipReason::ToolUnavailable)
                        },
                        ExtensionKind::Other => Dispatch::Skip(SkipReason::UnrecognizedExtension),
                    }
                },
            }
        },
    }
}

/// Decides what is done with a file.
pub fn plan_file(candidate: &Candidate, index: &ResumeIndex, tool_available: bool) -> (out:
    Dispatch)
    ensures
        out == dispatch(*candidate, index@, tool_available),
{
    match candidate.size {
        None => {
            return Dispatch::Skip(SkipReason::Unreadable);
        },
        Some(size) => {
            if size == 0 {
                return Dispatch::Skip(SkipReason::Empty);
            }
        },
    }
    match &candidate.canonical_path {
        None => {
            return Dispatch::Skip(SkipReason::NoCanonicalPath);
        },
        Some(path) => {
            if index.contains(path.as_str()) {
                return Dispatch::Skip(SkipReason::AlreadyProcessed);
            }
        },
    }
    match classify_optional_extension(&candidate.extension) {
        ExtensionKind::Native => Dispatch::Native,
        ExtensionKind::Legacy => {
            if tool_available {
                Dispatch::Legacy
            } else {
                Dispatch::Skip(SkipReason::ToolUnavailable)
            }
        },
        ExtensionKind::Other => Dispatch::Skip(SkipReason::UnrecognizedExtension),
    }
}

/// The outcome of a file that is passed over, settled without any
/// extraction; nothing for a file that goes to a strategy.
pub open spec fn settled(plan: Dispatch) -> Option<OutcomeView> {
    match plan {
        Dispatch::Skip(reason) => Some(OutcomeView::Skipped(reason)),
        _ => None,
    }
}

/// The outcome of a file that is passed over. `None` for a file that goes
/// to a strategy: its outcome comes from the extraction.
pub fn outcome_without_extraction(plan: Dispatch) -> (out: Option<Outcome>)
    ensures
        match out {
            Some(o) => settled(plan) == Some(o@),
            None => settled(plan) is None,
        },
{
    match plan {
        Dispatch::Skip(reason) => Some(Outcome::Skipped(reason)),
        _ => None,
    }
}

/// Where chunk `i` begins when `len` files are divided among `jobs`
/// workers: the chunks follow one another, and the first `len % jobs` of
/// them hold one file more than the others.
pub open spec fn chunk_start(len: nat, jobs: nat, i: nat) -> nat {
    i * (len / jobs) + if i < len % jobs {
        i
    } else {
        len % jobs
    }
}

/// Chunk `i` follows chunk `i - 1` without a gap, holds `len / jobs` files
/// or one more, and the last chunk ends with the batch.
pub proof fn lemma_chunks_partition(len: nat, jobs: nat, i: nat)
    requires
        jobs > 0,
        i < jobs,
    ensures
        chunk_start(len, jobs, 0) == 0,
        chunk_start(len, jobs, jobs) == len,
        chunk_start(len, jobs, i + 1) - chunk_start(len, jobs, i) == len / jobs + if i < len
            % jobs {
            1nat
        } else {
            0nat
        },
        chunk_start(len, jobs, i) <= chunk_start(len, jobs, i + 1) <= len,
{
    let base = len / jobs;
    let rest = len % jobs;
    assert(len == jobs * base + rest) by (nonlinear_arith)
        requires
            jobs > 0,
            base == len / jobs,
            rest == len % jobs,
    ;
    assert((i + 1) * base == i * base + base) by (nonlinear_arith);
    assert((i + 1) * base <= jobs * base) by (nonlinear_arith)
        requires
            i + 1 <= jobs,
            base >= 0,
    ;
    assert(0 * base == 0);
}

/// Divides a batch of `len` files among `jobs` workers: one chunk per
/// worker, each a range of the batch from its first index up to, not
/// including, its second. The chunks are contiguous and in order, cover the
/// batch, and differ in size by one file at most.
pub fn chunk_bounds(len: usize, jobs: usize) -> (out: Vec<(usize, usize)>)
    requires
        jobs > 0,
    ensures
        out@.len() == jobs,
        forall|i: int|
            0 <= i < jobs ==> (#[trigger] out@[i]).0 == chunk_start(
                len as nat,
                jobs as nat,
                i as nat,
            ) && out@[i].1 == chunk_start(len as nat, jobs as nat, (i + 1) as nat),
{
    let base = len / jobs;
    let rest = len % jobs;
    let mut out: Vec<(usize, usize)> = Vec::new();
    let mut start: usize = 0;
    let mut i: usize = 0;
    proof {
        lemma_chunks_partition(len as nat, jobs as nat, 0);
    }
    while i < jobs
        invariant
            jobs > 0,
            0 <= i <= jobs,
            base == len / jobs,
            rest == len % jobs,
            out@.len() == i,
            start == chunk_start(len as nat, jobs as nat, i as nat),
            forall|k: int|
                0 <= k < i ==> (#[trigger] out@[k]).0 == chunk_start(
                    len as nat,
                    jobs as nat,
                    k as nat,
                ) && out@[k].1 == chunk_start(len as nat, jobs as nat, (k + 1) as nat),
        decreases jobs - i,
    {
        proof {
            lemma_chunks_partition(len as nat, jobs as nat, i as nat);
        }
        let end = if i < rest {
            start + base + 1
        } else {
            start + base
        };
        out.push((start, end));
        start = end;
        i = i + 1;
    }
    out
}

/// The records among the outcomes of a batch, in the order of the outcomes.
pub open spec fn successes(outcomes: Seq<OutcomeView>) -> Seq<RecordView>
    decreases outcomes.len(),
{
    if outcomes.len() == 0 {
        Seq::empty()
    } else {
        let before = successes(outcomes.drop_last());
        match outcomes.last() {
            OutcomeView::Success(r) => before.push(r),
            _ => before,
        }
    }
}

/// The mathematical values of a sequence of outcomes.
pub open spec fn outcome_views(outcomes: Seq<Outcome>) -> Seq<OutcomeView> {
    Seq::new(outcomes.len(), |i: int| outcomes[i]@)
}

/// Gathers the records of a batch from the outcomes of its files. Files
/// that were passed over or failed contribute nothing.
pub fn collect_successes(outcomes: Vec<Outcome>) -> (out: Vec<Record>)
    ensures
        views(out@) == successes(outcome_views(outcomes@)),
{
    let ghost all = outcome_views(outcomes@);
    let mut out: Vec<Record> = Vec::new();
    assert(all.take(0) =~= Seq::<OutcomeView>::empty());
    for outcome in it: outcomes
        invariant
            it.seq() == outcomes@,
            all == outcome_views(outcomes@),
            views(out@) == successes(all.take(it.index())),
    {
        let ghost i = it.index();
        let ghost before = views(out@);
        proof {
            assert(all.take(i + 1).drop_last() =~= all.take(i));
            assert(all.take(i + 1).last() == outcome@);
        }
        match outcome {
            Outcome::Success(r) => {
                out.push(r);
                assert(views(out@) =~= before.push(r@));
            },
            _ => {},
        }
    }
    assert(all.take(all.len() as int) =~= all);
    out
}

/// Ends a batch: gathers the records among the outcomes and puts them into
/// the bytes to append to a table of `table_len` bytes. A batch without a
/// record adds nothing.
pub fn process_and_save_results(outcomes: Vec<Outcome>, table_len: u64) -> (out: Vec<u8>)
    ensures
        encoded_rows(rows_to_append(table_len == 0, successes(outcome_views(outcomes@))))
            == Some(out@),
        out@.len() == 0 <==> successes(outcome_views(outcomes@)).len() == 0,
{
    let records = collect_successes(outcomes);
    assert(records@.len() == views(records@).len());
    save_results_to_csv(&records, table_len)
}

} // verus!
