use open_sight::adapter::SkipReason;
use open_sight::traversal::{
    classify_entry, classify_extension, classify_optional_extension, Batcher, ExtensionKind,
    WalkEntry, DEFAULT_BATCH_SIZE,
};

fn entry(is_regular: bool, extension: Option<&str>, size: Option<u64>) -> WalkEntry {
    WalkEntry { is_regular, extension: extension.map(String::from), size }
}

fn good() -> WalkEntry {
    entry(true, Some("dcm"), Some(10))
}

#[test]
fn recognized_extensions_in_any_case() {
    assert_eq!(classify_extension("dcm"), ExtensionKind::Native);
    assert_eq!(classify_extension("DCM"), ExtensionKind::Native);
    assert_eq!(classify_extension("e2e"), ExtensionKind::Legacy);
    assert_eq!(classify_extension("FDA"), ExtensionKind::Legacy);
    assert_eq!(classify_extension("sDb"), ExtensionKind::Legacy);
    assert_eq!(classify_extension(""), ExtensionKind::Other);
    assert_eq!(classify_extension("dicom"), ExtensionKind::Other);
    assert_eq!(classify_extension(".dcm"), ExtensionKind::Other);
    assert_eq!(classify_optional_extension(&None), ExtensionKind::Other);
    assert_eq!(classify_optional_extension(&Some(String::from("dcm"))), ExtensionKind::Native);
}

#[test]
fn zero_byte_file_with_recognized_extension_is_skipped() {
    for ext in ["dcm", "e2e", "fda", "sdb", "DCM"] {
        assert_eq!(classify_entry(&entry(true, Some(ext), Some(0))), Some(SkipReason::Empty));
    }
}

#[test]
fn entries_are_classified_in_order_of_the_rules() {
    assert_eq!(classify_entry(&good()), None);
    assert_eq!(classify_entry(&entry(true, Some("e2e"), None)), None);
    assert_eq!(classify_entry(&entry(false, Some("dcm"), Some(10))), Some(SkipReason::NotRegular));
    assert_eq!(classify_entry(&entry(false, Some("txt"), Some(0))), Some(SkipReason::NotRegular));
    assert_eq!(
        classify_entry(&entry(true, Some("txt"), Some(0))),
        Some(SkipReason::UnrecognizedExtension)
    );
    assert_eq!(
        classify_entry(&entry(true, None, Some(10))),
        Some(SkipReason::UnrecognizedExtension)
    );
}

#[test]
fn three_candidates_with_batch_size_two_give_two_batches() {
    let mut batcher = Batcher::new(2);
    let first = batcher.offer(String::from("/r/1.dcm"), &good());
    assert_eq!(first.skipped, None);
    assert_eq!(first.ready, None);
    assert_eq!(batcher.pending_len(), 1);
    let second = batcher.offer(String::from("/r/2.dcm"), &good());
    assert_eq!(second.ready, Some(vec![String::from("/r/1.dcm"), String::from("/r/2.dcm")]));
    assert_eq!(batcher.pending_len(), 0);
    let third = batcher.offer(String::from("/r/3.dcm"), &good());
    assert_eq!(third.ready, None);
    assert_eq!(batcher.finish(), Some(vec![String::from("/r/3.dcm")]));
    assert_eq!(batcher.finish(), None);
    assert_eq!(batcher.pending_len(), 0);
}

#[test]
fn skipped_entries_do_not_join_a_batch() {
    let mut batcher = Batcher::new(2);
    let offer = batcher.offer(String::from("/r/empty.dcm"), &entry(true, Some("dcm"), Some(0)));
    assert_eq!(offer.skipped, Some(SkipReason::Empty));
    assert_eq!(offer.ready, None);
    let offer = batcher.offer(String::from("/r/notes.txt"), &entry(true, Some("txt"), Some(5)));
    assert_eq!(offer.skipped, Some(SkipReason::UnrecognizedExtension));
    let offer = batcher.offer(String::from("/r/dir.dcm"), &entry(false, Some("dcm"), Some(5)));
    assert_eq!(offer.skipped, Some(SkipReason::NotRegular));
    assert_eq!(batcher.pending_len(), 0);
    assert_eq!(batcher.finish(), None);
}

#[test]
fn batches_keep_the_order_of_the_walk() {
    let mut batcher = Batcher::new(3);
    let mut batches: Vec<Vec<String>> = Vec::new();
    for i in 0..10 {
        let offer = batcher.offer(format!("/r/{}.e2e", i), &entry(true, Some("e2e"), Some(1)));
        if let Some(batch) = offer.ready {
            batches.push(batch);
        }
    }
    if let Some(batch) = batcher.finish() {
        batches.push(batch);
    }
    assert_eq!(batches.len(), 4);
    assert_eq!(batches[0], vec!["/r/0.e2e", "/r/1.e2e", "/r/2.e2e"]);
    assert_eq!(batches[1], vec!["/r/3.e2e", "/r/4.e2e", "/r/5.e2e"]);
    assert_eq!(batches[2], vec!["/r/6.e2e", "/r/7.e2e", "/r/8.e2e"]);
    assert_eq!(batches[3], vec!["/r/9.e2e"]);
}

#[test]
fn batch_size_zero_dispatches_every_candidate_alone() {
    let mut batcher = Batcher::new(0);
    let offer = batcher.offer(String::from("/r/1.dcm"), &good());
    assert_eq!(offer.ready, Some(vec![String::from("/r/1.dcm")]));
    let offer = batcher.offer(String::from("/r/2.dcm"), &good());
    assert_eq!(offer.ready, Some(vec![String::from("/r/2.dcm")]));
    assert_eq!(batcher.finish(), None);
}

#[test]
fn default_batch_size_is_fifty() {
    assert_eq!(DEFAULT_BATCH_SIZE, 50);
    let mut batcher = Batcher::new(DEFAULT_BATCH_SIZE);
    for i in 0..49 {
        assert_eq!(batcher.offer(format!("/r/{}.dcm", i), &good()).ready, None);
    }
    let batch = batcher.offer(String::from("/r/49.dcm"), &good()).ready.unwrap();
    assert_eq!(batch.len(), 50);
}
