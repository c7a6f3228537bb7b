//! The incremental sink: what is appended to the output table per batch.
//!
//! The table is a sequence of rows. A fresh table gets the header row before
//! the first batch; later batches add data rows only. Rows are put into
//! bytes by the csv crate. Appending the bytes and flushing them is the
//! caller's part, once per batch.

use crate::record::{header_fields, header_row, record_row, row_record, texts, Record, RecordView,
    lemma_data_row_is_not_header, lemma_row_round_trip};
use vstd::prelude::*;

verus! {

/// The mathematical values of a sequence of records.
pub open spec fn views(records: Seq<Record>) -> Seq<RecordView> {
    Seq::new(records.len(), |i: int| records[i]@)
}

/// The rows that a sequence of vectors of strings holds.
pub open spec fn table(rows: Seq<Vec<String>>) -> Seq<Seq<Seq<char>>> {
    Seq::new(rows.len(), |i: int| texts(rows[i]@))
}

/// The row forms of a sequence of records, in order.
pub open spec fn record_rows(records: Seq<RecordView>) -> Seq<Seq<Seq<char>>> {
    Seq::new(records.len(), |i: int| record_row(records[i]))
}

/// The rows that one batch adds to the table: nothing for an empty batch;
/// else the data rows, behind the header row where the table is fresh.
pub open spec fn rows_to_append(fresh: bool, records: Seq<RecordView>) -> Seq<Seq<Seq<char>>> {
    if records.len() == 0 {
        Seq::empty()
    } else if fresh {
        seq![header_row()] + record_rows(records)
    } else {
        record_rows(records)
    }
}

/// The table after one batch was appended to `rows`.
pub open spec fn table_after(rows: Seq<Seq<Seq<char>>>, records: Seq<RecordView>) -> Seq<
    Seq<Seq<char>>,
> {
    rows + rows_to_append(rows.len() == 0, records)
}

/// The table after a sequence of batches was appended to `rows`, one after
/// the other, in one run or in several.
pub open spec fn table_after_batches(
    rows: Seq<Seq<Seq<char>>>,
    batches: Seq<Seq<RecordView>>,
) -> Seq<Seq<Seq<char>>>
    decreases batches.len(),
{
    if batches.len() == 0 {
        rows
    } else {
        table_after(table_after_batches(rows, batches.drop_last()), batches.last())
    }
}

/// A table as the sink leaves it: empty, or the header row followed by
/// rows that each denote a record.
pub open spec fn well_formed(rows: Seq<Seq<Seq<char>>>) -> bool {
    rows.len() > 0 ==> {
        &&& rows[0] == header_row()
        &&& forall|i: int| 1 <= i < rows.len() ==> (#[trigger] row_record(rows[i])) is Some
    }
}

/// The header row stands at the start of the table and nowhere else.
pub open spec fn header_once(rows: Seq<Seq<Seq<char>>>) -> bool {
    rows.len() > 0 ==> {
        &&& rows[0] == header_row()
        &&& forall|i: int| 1 <= i < rows.len() ==> #[trigger] rows[i] != header_row()
    }
}

/// In a well-formed table the header row appears exactly once, at the start.
pub proof fn lemma_well_formed_has_header_once(rows: Seq<Seq<Seq<char>>>)
    requires
        well_formed(rows),
    ensures
        header_once(rows),
{
    if rows.len() > 0 {
        assert forall|i: int| 1 <= i < rows.len() implies #[trigger] rows[i] != header_row() by {
            assert(row_record(rows[i]) is Some);
            lemma_data_row_is_not_header(row_record(rows[i])->Some_0);
        }
    }
}

/// Appending a batch keeps a table well-formed.
pub proof fn lemma_append_keeps_well_formed(rows: Seq<Seq<Seq<char>>>, records: Seq<RecordView>)
    requires
        well_formed(rows),
    ensures
        well_formed(table_after(rows, records)),
{
    let after = table_after(rows, records);
    if after.len() > 0 {
        assert forall|i: int| 1 <= i < after.len() implies (#[trigger] row_record(after[i]))
            is Some by {
            if i < rows.len() {
                assert(after[i] == rows[i]);
            } else {
                let k = if rows.len() == 0 {
                    i - 1
                } else {
                    i - rows.len()
                };
                assert(after[i] == record_row(records[k]));
                lemma_row_round_trip(records[k]);
            }
        }
    }
}

/// For any sequence of batches appended to a table that starts empty, in
/// one run or in several, the header row appears exactly once, at the start.
pub proof fn lemma_header_once(batches: Seq<Seq<RecordView>>)
    ensures
        well_formed(table_after_batches(Seq::empty(), batches)),
        header_once(table_after_batches(Seq::empty(), batches)),
    decreases batches.len(),
{
    if batches.len() > 0 {
        lemma_header_once(batches.drop_last());
        lemma_append_keeps_well_formed(
            table_after_batches(Seq::empty(), batches.drop_last()),
            batches.last(),
        );
    }
    lemma_well_formed_has_header_once(table_after_batches(Seq::empty(), batches));
}

/// The rows that a batch adds to the table. `fresh` says that the table has
/// no content yet.
pub fn batch_rows(fresh: bool, records: &Vec<Record>) -> (out: Vec<Vec<String>>)
    ensures
        table(out@) == rows_to_append(fresh, views(records@)),
{
    let mut out: Vec<Vec<String>> = Vec::new();
    if records.len() == 0 {
        assert(table(out@) =~= rows_to_append(fresh, views(records@)));
        return out;
    }
    if fresh {
        out.push(header_fields());
    }
    let ghost lead: Seq<Seq<Seq<char>>> = if fresh {
        seq![header_row()]
    } else {
        Seq::empty()
    };
    assert(table(out@) =~= lead);
    let mut i: usize = 0;
    while i < records.len()
        invariant
            0 <= i <= records.len(),
            table(out@) == lead + record_rows(views(records@)).take(i as int),
        decreases records.len() - i,
    {
        let ghost before = out@;
        let fields = records[i].to_fields();
        out.push(fields);
        proof {
            let all = record_rows(views(records@));
            assert(table(out@) =~= table(before).push(texts(fields@)));
            assert(all.take(i + 1) =~= all.take(i as int).push(record_row(records@[i as int]@)));
            assert(table(out@) =~= lead + all.take(i + 1));
        }
        i = i + 1;
    }
    assert(record_rows(views(records@)).take(i as int) =~= record_rows(views(records@)));
    assert(table(out@) =~= rows_to_append(fresh, views(records@)));
    out
}

/// The bytes that the csv crate's writer puts out for one record with the
/// fields `fields`, or nothing where it reports an error.
pub uninterp spec fn encoded_record(fields: Seq<Seq<char>>) -> Option<Seq<u8>>;

/// Writes one record with a writer of the csv crate (`Writer::write_record`
/// on a writer without header handling, into memory). Trusted: the bytes
/// depend on the fields alone; the writer reports no error, for it writes
/// a single record and memory takes every byte; and the record is not
/// empty, for it ends with the record terminator.
#[verifier::external_body]
fn encode_record(fields: &Vec<String>) -> (out: Option<Vec<u8>>)
    ensures
        out is Some,
        match out {
            Some(bytes) => encoded_record(texts(fields@)) == Some(bytes@) && bytes@.len() > 0,
            None => encoded_record(texts(fields@)) is None,
        },
{
    let mut writer = csv::WriterBuilder::new().has_headers(false).from_writer(Vec::new());
    match writer.write_record(fields.iter()) {
        Ok(()) => writer.into_inner().ok(),
        Err(_) => None,
    }
}

/// The bytes of a sequence of rows: those of each row, one after the other;
/// nothing where a row cannot be written.
pub open spec fn encoded_rows(rows: Seq<Seq<Seq<char>>>) -> Option<Seq<u8>>
    decreases rows.len(),
{
    if rows.len() == 0 {
        Some(Seq::empty())
    } else {
        match (encoded_rows(rows.drop_last()), encoded_record(rows.last())) {
            (Some(before), Some(last)) => Some(before + last),
            _ => None,
        }
    }
}

/// Puts rows into bytes, row by row. Rows that were written have bytes: the
/// result is empty only for no rows at all.
pub fn encode_rows(rows: &Vec<Vec<String>>) -> (out: Vec<u8>)
    ensures
        encoded_rows(table(rows@)) == Some(out@),
        out@.len() == 0 <==> rows@.len() == 0,
{
    let mut out: Vec<u8> = Vec::new();
    let mut i: usize = 0;
    while i < rows.len()
        invariant
            0 <= i <= rows.len(),
            encoded_rows(table(rows@).take(i as int)) == Some(out@),
            out@.len() == 0 <==> i == 0,
        decreases rows.len() - i,
    {
        let ghost next = table(rows@).take(i + 1);
        proof {
            assert(next.drop_last() =~= table(rows@).take(i as int));
            assert(next.last() == texts(rows@[i as int]@));
        }
        match encode_record(&rows[i]) {
            Some(mut bytes) => {
                out.append(&mut bytes);
            },
            None => {},
        }
        i = i + 1;
    }
    assert(table(rows@).take(i as int) =~= table(rows@));
    out
}

/// The bytes of two runs of rows, one after the other, are the bytes of the
/// first followed by those of the second.
pub proof fn lemma_encoded_concat(first: Seq<Seq<Seq<char>>>, second: Seq<Seq<Seq<char>>>)
    ensures
        encoded_rows(first + second) == match (encoded_rows(first), encoded_rows(second)) {
            (Some(a), Some(b)) => Some(a + b),
            _ => None,
        },
    decreases second.len(),
{
    if second.len() == 0 {
        assert(first + second =~= first);
        if encoded_rows(first) is Some {
            assert(encoded_rows(first)->Some_0 + Seq::<u8>::empty() =~= encoded_rows(
                first,
            )->Some_0);
        }
    } else {
        let both = first + second;
        assert(both.drop_last() =~= first + second.drop_last());
        assert(both.last() == second.last());
        lemma_encoded_concat(first, second.drop_last());
        match (encoded_rows(first), encoded_rows(second.drop_last()), encoded_record(second.last())) {
            (Some(a), Some(b), Some(c)) => {
                assert((a + b) + c =~= a + (b + c));
            },
            _ => {},
        }
    }
}

/// Where a file holds the bytes of the table `rows`, and is empty only for
/// an empty table, the file with the bytes of a batch appended holds the
/// bytes of the table after the batch.
pub proof fn lemma_appended_bytes_are_the_table(
    rows: Seq<Seq<Seq<char>>>,
    file: Seq<u8>,
    records: Seq<RecordView>,
    appended: Seq<u8>,
)
    requires
        encoded_rows(rows) == Some(file),
        file.len() == 0 <==> rows.len() == 0,
        encoded_rows(rows_to_append(file.len() == 0, records)) == Some(appended),
    ensures
        encoded_rows(table_after(rows, records)) == Some(file + appended),
{
    lemma_encoded_concat(rows, rows_to_append(rows.len() == 0, records));
}

/// The bytes that a batch adds to a table of `table_len` bytes: the header
/// row first where the table has no content yet, then one row per record.
/// An empty batch adds nothing.
pub fn save_results_to_csv(records: &Vec<Record>, table_len: u64) -> (out: Vec<u8>)
    ensures
        encoded_rows(rows_to_append(table_len == 0, views(records@))) == Some(out@),
        out@.len() == 0 <==> records@.len() == 0,
{
    let rows = batch_rows(table_len == 0, records);
    assert(rows@.len() == table(rows@).len());
    encode_rows(&rows)
}

} // verus!
