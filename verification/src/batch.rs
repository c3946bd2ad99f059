//! The layout of the logged batches that the indexers write: their rows,
//! the rows of a second table, and the progress row, in that order.

use vstd::prelude::*;
use crate::kv::{
    FastDataKv, FastDataKvRow, KV_INDEXER_ID, keeps_latest_per_key, kv_row_of, latest_per_key,
    row_views,
};
use crate::store::{LastProcessedRow, last_processed_row};
use crate::vote_memo::{
    MEMO_INDEXER_ID, VoteMemo, VoteMemoByVoterRow, VoteMemoRow, vote_memo_row_of,
};

verus! {

/// One statement of a batch with the row it binds: a row of the main table,
/// a row of the second table, or the progress row.
#[derive(Debug)]
pub enum BatchEntry<A, B> {
    Row(A),
    SecondaryRow(B),
    LastProcessed(LastProcessedRow),
}

/// The rows of one batch.
#[derive(Debug)]
pub struct Batch<A, B> {
    pub rows: Vec<A>,
    pub secondary_rows: Vec<B>,
    pub last_processed: LastProcessedRow,
}

impl<A, B> Batch<A, B> {
    /// The batch's statements in order: the rows, then the second table's
    /// rows, then the progress row last.
    pub fn into_entries(self) -> (r: Vec<BatchEntry<A, B>>)
        ensures
            r@.len() == self.rows@.len() + self.secondary_rows@.len() + 1,
            forall|i: int| 0 <= i < self.rows@.len() ==> r@[i] == BatchEntry::<A, B>::Row(self.rows@[i]),
            forall|i: int|
                0 <= i < self.secondary_rows@.len() ==> r@[self.rows@.len() + i]
                    == BatchEntry::<A, B>::SecondaryRow(self.secondary_rows@[i]),
            r@[r@.len() - 1] == BatchEntry::<A, B>::LastProcessed(self.last_processed),
    {
        let Batch { rows, secondary_rows, last_processed } = self;
        let ghost rows0 = rows@;
        let ghost sec0 = secondary_rows@;
        let mut out: Vec<BatchEntry<A, B>> = Vec::new();
        for row in it: rows.into_iter()
            invariant
                out@.len() == it.index(),
                it.seq() == rows0,
                forall|k: int| 0 <= k < it.index() ==> out@[k] == BatchEntry::<A, B>::Row(rows0[k]),
        {
            out.push(BatchEntry::Row(row));
        }
        let n = out.len();
        for row in it: secondary_rows.into_iter()
            invariant
                n == rows0.len(),
                out@.len() == n + it.index(),
                it.seq() == sec0,
                forall|k: int| 0 <= k < n ==> out@[k] == BatchEntry::<A, B>::Row(rows0[k]),
                forall|k: int|
                    0 <= k < it.index() ==> out@[n + k] == BatchEntry::<A, B>::SecondaryRow(sec0[k]),
        {
            out.push(BatchEntry::SecondaryRow(row));
        }
        out.push(BatchEntry::LastProcessed(last_processed));
        out
    }
}


/// The batch that stores key/value writes: each write in the history table,
/// the last write of each key in the latest-value table, and the indexer's
/// progress.
pub fn plan_kv_batch(rows: Vec<FastDataKv>, last_processed_block_height: u64) -> (b: Batch<
    FastDataKvRow,
    FastDataKvRow,
>)
    ensures
        b.rows@.len() == rows@.len(),
        forall|i: int| 0 <= i < rows@.len() ==> (#[trigger] b.rows@[i])@ == kv_row_of(rows@[i]@),
        keeps_latest_per_key(row_views(b.rows@), row_views(b.secondary_rows@)),
        b.last_processed.suffix@ == KV_INDEXER_ID@,
        b.last_processed.last_processed_block_height == last_processed_block_height as i64,
{
    let ghost input = rows@;
    let mut kv_rows: Vec<FastDataKvRow> = Vec::new();
    for kv in it: rows.into_iter()
        invariant
            it.seq() == input,
            kv_rows@.len() == it.index(),
            forall|k: int| 0 <= k < it.index() ==> (#[trigger] kv_rows@[k])@ == kv_row_of(input[k]@),
    {
        kv_rows.push(FastDataKvRow::from(kv));
    }
    let kv_last_rows = latest_per_key(&kv_rows);
    Batch {
        rows: kv_rows,
        secondary_rows: kv_last_rows,
        last_processed: last_processed_row(KV_INDEXER_ID, last_processed_block_height),
    }
}

/// The batch that stores vote memos: each memo by proposal, each memo by
/// voter, and the indexer's progress.
pub fn plan_vote_memo_batch(rows: Vec<VoteMemo>, last_processed_block_height: u64) -> (b: Batch<
    VoteMemoRow,
    VoteMemoByVoterRow,
>)
    ensures
        b.rows@.len() == rows@.len(),
        b.secondary_rows@.len() == rows@.len(),
        forall|i: int|
            0 <= i < rows@.len() ==> (#[trigger] b.rows@[i])@ == vote_memo_row_of(rows@[i]@),
        forall|i: int| 0 <= i < rows@.len() ==> (#[trigger] b.secondary_rows@[i])@ == b.rows@[i]@,
        b.last_processed.suffix@ == MEMO_INDEXER_ID@,
        b.last_processed.last_processed_block_height == last_processed_block_height as i64,
{
    let ghost input = rows@;
    let mut memo_rows: Vec<VoteMemoRow> = Vec::new();
    let mut by_voter_rows: Vec<VoteMemoByVoterRow> = Vec::new();
    for memo in it: rows.into_iter()
        invariant
            it.seq() == input,
            memo_rows@.len() == it.index(),
            by_voter_rows@.len() == it.index(),
            forall|k: int|
                0 <= k < it.index() ==> (#[trigger] memo_rows@[k])@ == vote_memo_row_of(input[k]@),
            forall|k: int| 0 <= k < it.index() ==> (#[trigger] by_voter_rows@[k])@ == memo_rows@[k]@,
    {
        let row = VoteMemoRow::from(memo);
        by_voter_rows.push(VoteMemoByVoterRow::from(row.clone()));
        memo_rows.push(row);
    }
    Batch {
        rows: memo_rows,
        secondary_rows: by_voter_rows,
        last_processed: last_processed_row(MEMO_INDEXER_ID, last_processed_block_height),
    }
}

} // verus!
