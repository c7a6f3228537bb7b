//! Traversal and classification: which entries of a directory walk become
//! candidates, and how candidates are gathered into batches.
//!
//! Walking the directories is the caller's part. For each entry it hands
//! over what the walk says of it, and dispatches the batches that come back.

use crate::adapter::SkipReason;
use crate::text::{eq_ignore_ascii_case, folded};
use vstd::prelude::*;

verus! {

/// Extension of native-format files.
pub const NATIVE_EXTENSION: &'static str = "dcm";

/// First extension of legacy-format files.
pub const LEGACY_EXTENSION_E2E: &'static str = "e2e";

/// Second extension of legacy-format files.
pub const LEGACY_EXTENSION_FDA: &'static str = "fda";

/// Third extension of legacy-format files.
pub const LEGACY_EXTENSION_SDB: &'static str = "sdb";

/// Number of files per batch where none is configured.
pub const DEFAULT_BATCH_SIZE: usize = 50;

/// The extraction strategy that an extension selects.
#[derive(Clone, Copy, Debug, PartialEq, Eq, Structural)]
pub enum ExtensionKind {
    Native,
    Legacy,
    Other,
}

/// Whether two texts are equal but for the case of ASCII letters.
pub open spec fn same_ignoring_case(a: Seq<char>, b: Seq<char>) -> bool {
    folded(a) == folded(b)
}

/// The strategy for files with the extension `extension`, whatever the
/// case of its letters.
pub open spec fn extension_kind(extension: Seq<char>) -> ExtensionKind {
    if same_ignoring_case(extension, NATIVE_EXTENSION@) {
        ExtensionKind::Native
    } else if same_ignoring_case(extension, LEGACY_EXTENSION_E2E@) || same_ignoring_case(
        extension,
        LEGACY_EXTENSION_FDA@,
    ) || same_ignoring_case(extension, LEGACY_EXTENSION_SDB@) {
        ExtensionKind::Legacy
    } else {
        ExtensionKind::Other
    }
}

/// The strategy for a file whose extension may be missing.
pub open spec fn kind_of(extension: Option<String>) -> ExtensionKind {
    match extension {
        Some(e) => extension_kind(e@),
        None => ExtensionKind::Other,
    }
}

/// Selects the strategy for files with the extension `extension`.
pub fn classify_extension(extension: &str) -> (out: ExtensionKind)
    ensures
        out == extension_kind(extension@),
{
    if eq_ignore_ascii_case(extension, NATIVE_EXTENSION) {
        ExtensionKind::Native
    } else if eq_ignore_ascii_case(extension, LEGACY_EXTENSION_E2E) || eq_ignore_ascii_case(
        extension,
        LEGACY_EXTENSION_FDA,
    ) || eq_ignore_ascii_case(extension, LEGACY_EXTENSION_SDB) {
        ExtensionKind::Legacy
    } else {
        ExtensionKind::Other
    }
}

/// Selects the strategy for a file whose extension may be missing.
pub fn classify_optional_extension(extension: &Option<String>) -> (out: ExtensionKind)
    ensures
        out == kind_of(*extension),
{
    match extension {
        Some(e) => classify_extension(e.as_str()),
        None => ExtensionKind::Other,
    }
}

/// What a directory walk says of one entry.
#[derive(Clone, Debug, PartialEq, Eq)]
pub struct WalkEntry {
    /// Whether the entry is a regular file.
    pub is_regular: bool,
    /// The extension of the file name, where it has one that is text.
    pub extension: Option<String>,
    /// The size in bytes, where it could be read.
    pub size: Option<u64>,
}

/// Why an entry of the walk is passed over, or `None` for a candidate. An
/// entry that is no regular file is passed over, then one whose extension is
/// not recognized, then one without content. A file whose size cannot be
/// read stays a candidate.
pub open spec fn entry_skip(entry: WalkEntry) -> Option<SkipReason> {
    if !entry.is_regular {
        Some(SkipReason::NotRegular)
    } else if kind_of(entry.extension) == ExtensionKind::Other {
        Some(SkipReason::UnrecognizedExtension)
    } else if entry.size == Some(0u64) {
        Some(SkipReason::Empty)
    } else {
        None
    }
}

/// Classifies one entry of the walk: the reason for passing it over, or
/// `None` where it is a candidate for extraction.
pub fn classify_entry(entry: &WalkEntry) -> (out: Option<SkipReason>)
    ensures
        out == entry_skip(*entry),
{
    if !entry.is_regular {
        return Some(SkipReason::NotRegular);
    }
    match classify_optional_extension(&entry.extension) {
        ExtensionKind::Other => {
            return Some(SkipReason::UnrecognizedExtension);
        },
        _ => {},
    }
    match entry.size {
        Some(size) => {
            if size == 0 {
                Some(SkipReason::Empty)
            } else {
                None
            }
        },
        None => None,
    }
}

/// The size at which a batch is dispatched: the configured one, and one
/// where none is configured, so that every candidate is dispatched.
pub open spec fn threshold(batch_size: usize) -> nat {
    if batch_size == 0 {
        1
    } else {
        batch_size as nat
    }
}

/// What a candidate does to the batch in the making: the batch in the
/// making afterwards, and the batch that is handed out where the candidate
/// filled one.
pub open spec fn after_candidate<T>(pending: Seq<T>, batch_size: usize, item: T) -> (
    Seq<T>,
    Option<Seq<T>>,
) {
    if pending.len() + 1 >= threshold(batch_size) {
        (Seq::empty(), Some(pending.push(item)))
    } else {
        (pending.push(item), None)
    }
}

/// The batches handed out while the candidates `items` are offered in
/// order to a batcher without candidates, and the batch in the making after
/// the last of them.
pub open spec fn gathered<T>(batch_size: usize, items: Seq<T>) -> (Seq<Seq<T>>, Seq<T>)
    decreases items.len(),
{
    if items.len() == 0 {
        (Seq::empty(), Seq::empty())
    } else {
        let (batches, pending) = gathered(batch_size, items.drop_last());
        match after_candidate(pending, batch_size, items.last()).1 {
            Some(batch) => (batches.push(batch), Seq::empty()),
            None => (batches, pending.push(items.last())),
        }
    }
}

/// The batches of a walk with the candidates `items`: those handed out
/// on the way, and at the end the batch in the making where it holds a
/// candidate.
pub open spec fn batches_of<T>(batch_size: usize, items: Seq<T>) -> Seq<Seq<T>> {
    let (batches, pending) = gathered(batch_size, items);
    if pending.len() > 0 {
        batches.push(pending)
    } else {
        batches
    }
}

/// The candidates of a sequence of batches, in order.
pub open spec fn joined<T>(batches: Seq<Seq<T>>) -> Seq<T>
    decreases batches.len(),
{
    if batches.len() == 0 {
        Seq::empty()
    } else {
        joined(batches.drop_last()) + batches.last()
    }
}

/// The batches handed out on the way are full, they and the batch in the
/// making hold the candidates in the order of the walk, and the batch in the
/// making has room.
pub proof fn lemma_gathered<T>(batch_size: usize, items: Seq<T>)
    ensures
        joined(gathered(batch_size, items).0) + gathered(batch_size, items).1 == items,
        gathered(batch_size, items).1.len() < threshold(batch_size),
        forall|i: int|
            0 <= i < gathered(batch_size, items).0.len() ==> (#[trigger] gathered(
                batch_size,
                items,
            ).0[i]).len() == threshold(batch_size),
    decreases items.len(),
{
    if items.len() == 0 {
        assert(joined(gathered(batch_size, items).0) + gathered(batch_size, items).1 =~= items);
    } else {
        lemma_gathered(batch_size, items.drop_last());
        let (batches, pending) = gathered(batch_size, items.drop_last());
        let (after, rest) = gathered(batch_size, items);
        assert(items =~= items.drop_last().push(items.last()));
        match after_candidate(pending, batch_size, items.last()).1 {
            Some(batch) => {
                assert(after.drop_last() =~= batches);
                assert(joined(after) + rest =~= (joined(batches) + pending).push(items.last()));
            },
            None => {
                assert(joined(after) + rest =~= (joined(batches) + pending).push(items.last()));
            },
        }
    }
}

/// The batches of a walk hold its candidates in order. Every batch but the
/// last is full, and the last holds at least one candidate.
pub proof fn lemma_batches_cover_the_walk<T>(batch_size: usize, items: Seq<T>)
    ensures
        joined(batches_of(batch_size, items)) == items,
        forall|i: int|
            0 <= i < batches_of(batch_size, items).len() - 1 ==> (#[trigger] batches_of(
                batch_size,
                items,
            )[i]).len() == threshold(batch_size),
        forall|i: int|
            0 <= i < batches_of(batch_size, items).len() ==> 0 < (#[trigger] batches_of(
                batch_size,
                items,
            )[i]).len() <= threshold(batch_size),
{
    lemma_gathered(batch_size, items);
    let (batches, pending) = gathered(batch_size, items);
    if pending.len() > 0 {
        assert(batches.push(pending).drop_last() =~= batches);
    } else {
        assert(joined(batches) + pending =~= joined(batches));
    }
}

/// The items of a batch that may have been handed out.
pub open spec fn ready_items<T>(ready: Option<Vec<T>>) -> Option<Seq<T>> {
    match ready {
        Some(batch) => Some(batch@),
        None => None,
    }
}

/// Gathers the candidates of a walk into batches of a fixed size. A
/// candidate is whatever the caller names a file by, such as its path. The
/// batch in the making always has room for one more candidate.
#[derive(Debug)]
pub struct Batcher<T> {
    batch_size: usize,
    pending: Vec<T>,
}

/// What became of an entry that was offered to the batcher.
#[derive(Debug, PartialEq, Eq)]
pub struct Offer<T> {
    /// Why the entry was passed over, or `None` where it joined a batch.
    pub skipped: Option<SkipReason>,
    /// The batch that the entry completed, to be dispatched now.
    pub ready: Option<Vec<T>>,
}

impl<T> Batcher<T> {
    #[verifier::type_invariant]
    spec fn has_room(self) -> bool {
        self.pending@.len() < threshold(self.batch_size)
    }

    /// The configured batch size.
    pub closed spec fn size(self) -> usize {
        self.batch_size
    }

    /// The candidates of the batch in the making, in the order of the walk.
    pub closed spec fn pending(self) -> Seq<T> {
        self.pending@
    }

    /// A batcher without candidates.
    pub fn new(batch_size: usize) -> (out: Batcher<T>)
        ensures
            out.size() == batch_size,
            out.pending() == Seq::<T>::empty(),
    {
        Batcher { batch_size, pending: Vec::new() }
    }

    /// The number of candidates in the batch in the making.
    pub fn pending_len(&self) -> (out: usize)
        ensures
            out == self.pending().len(),
            out < threshold(self.size()),
    {
        proof {
            use_type_invariant(self);
        }
        self.pending.len()
    }

    /// Offers the entry that the caller names `item` to the batcher. An
    /// entry that is no candidate changes nothing. A candidate joins the
    /// batch in the making; where that fills the batch, the batch is handed
    /// out and a new one begins.
    pub fn offer(&mut self, item: T, entry: &WalkEntry) -> (out: Offer<T>)
        ensures
            final(self).size() == old(self).size(),
            out.skipped == entry_skip(*entry),
            out.ready matches Some(batch) ==> batch@.len() == threshold(old(self).size()),
            match entry_skip(*entry) {
                Some(_) => out.ready is None && final(self).pending() == old(self).pending(),
                None => (final(self).pending(), ready_items(out.ready)) == after_candidate(
                    old(self).pending(),
                    old(self).size(),
                    item,
                ),
            },
    {
        proof {
            use_type_invariant(&*self);
        }
        match classify_entry(entry) {
            Some(reason) => Offer { skipped: Some(reason), ready: None },
            None => {
                let mut batch: Vec<T> = Vec::new();
                core::mem::swap(&mut self.pending, &mut batch);
                batch.push(item);
                if batch.len() >= self.batch_size {
                    Offer { skipped: None, ready: Some(batch) }
                } else {
                    self.pending = batch;
                    Offer { skipped: None, ready: None }
                }
            },
        }
    }

    /// Ends a walk: hands out the batch in the making where it holds a
    /// candidate, however few, and begins a new one.
    pub fn finish(&mut self) -> (out: Option<Vec<T>>)
        ensures
            final(self).size() == old(self).size(),
            final(self).pending() == Seq::<T>::empty(),
            match out {
                Some(batch) => old(self).pending().len() > 0 && batch@ == old(self).pending(),
                None => old(self).pending().len() == 0,
            },
            out matches Some(batch) ==> 0 < batch@.len() < threshold(old(self).size()),
    {
        proof {
            use_type_invariant(&*self);
        }
        if self.pending.len() == 0 {
            None
        } else {
            let mut batch: Vec<T> = Vec::new();
            core::mem::swap(&mut self.pending, &mut batch);
            Some(batch)
        }
    }
}

} // verus!
