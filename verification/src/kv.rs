//! Key/value rows written through function calls ("fast data" kv): the
//! in-memory record, its stored row, and the per-key deduplication that
//! keeps only the latest write of each key.

use vstd::prelude::*;
use crate::chain::{AccountId, CryptoHash, base58_of_hash, hash_of_base58, valid_account_id};
use crate::json::opt_text;
use crate::vote_memo::{clone_opt_text, opt_hash_to_string};

verus! {

/// The suffix under which the kv indexer's data lives.
pub const KV_SUFFIX: &'static str = "kv";

/// The id under which the kv indexer records its progress.
pub const KV_INDEXER_ID: &'static str = "kv-1";

/// One key/value write, with where it happened.
#[derive(Debug)]
pub struct FastDataKv {
    pub receipt_id: CryptoHash,
    pub action_index: u32,
    pub tx_hash: Option<CryptoHash>,
    pub signer_id: AccountId,
    pub predecessor_id: AccountId,
    pub current_account_id: AccountId,
    pub block_height: u64,
    pub block_timestamp: u64,
    pub shard_id: u32,
    pub receipt_index: u32,
    pub order_id: u64,
    pub key: String,
    pub value: String,
}

/// The mathematical value of a [`FastDataKv`].
pub struct FastDataKvView {
    pub receipt_id: Seq<u8>,
    pub action_index: u32,
    pub tx_hash: Option<Seq<u8>>,
    pub signer_id: Seq<char>,
    pub predecessor_id: Seq<char>,
    pub current_account_id: Seq<char>,
    pub block_height: u64,
    pub block_timestamp: u64,
    pub shard_id: u32,
    pub receipt_index: u32,
    pub order_id: u64,
    pub key: Seq<char>,
    pub value: Seq<char>,
}

pub open spec fn opt_hash_bytes(h: Option<CryptoHash>) -> Option<Seq<u8>> {
    match h {
        Some(h) => Some(h.0@),
        None => None,
    }
}

impl View for FastDataKv {
    type V = FastDataKvView;

    open spec fn view(&self) -> FastDataKvView {
        FastDataKvView {
            receipt_id: self.receipt_id.0@,
            action_index: self.action_index,
            tx_hash: opt_hash_bytes(self.tx_hash),
            signer_id: self.signer_id@,
            predecessor_id: self.predecessor_id@,
            current_account_id: self.current_account_id@,
            block_height: self.block_height,
            block_timestamp: self.block_timestamp,
            shard_id: self.shard_id,
            receipt_index: self.receipt_index,
            order_id: self.order_id,
            key: self.key@,
            value: self.value@,
        }
    }
}

/// The stored form of a key/value write.
#[derive(Debug)]
pub struct FastDataKvRow {
    pub receipt_id: String,
    pub action_index: i32,
    pub tx_hash: Option<String>,
    pub signer_id: String,
    pub predecessor_id: String,
    pub current_account_id: String,
    pub block_height: i64,
    pub block_timestamp: i64,
    pub shard_id: i32,
    pub receipt_index: i32,
    pub order_id: i64,
    pub key: String,
    pub value: String,
}

/// The mathematical value of a [`FastDataKvRow`].
pub struct FastDataKvRowView {
    pub receipt_id: Seq<char>,
    pub action_index: i32,
    pub tx_hash: Option<Seq<char>>,
    pub signer_id: Seq<char>,
    pub predecessor_id: Seq<char>,
    pub current_account_id: Seq<char>,
    pub block_height: i64,
    pub block_timestamp: i64,
    pub shard_id: i32,
    pub receipt_index: i32,
    pub order_id: i64,
    pub key: Seq<char>,
    pub value: Seq<char>,
}

impl View for FastDataKvRow {
    type V = FastDataKvRowView;

    open spec fn view(&self) -> FastDataKvRowView {
        FastDataKvRowView {
            receipt_id: self.receipt_id@,
            action_index: self.action_index,
            tx_hash: opt_text(self.tx_hash),
            signer_id: self.signer_id@,
            predecessor_id: self.predecessor_id@,
            current_account_id: self.current_account_id@,
            block_height: self.block_height,
            block_timestamp: self.block_timestamp,
            shard_id: self.shard_id,
            receipt_index: self.receipt_index,
            order_id: self.order_id,
            key: self.key@,
            value: self.value@,
        }
    }
}

pub open spec fn opt_base58(h: Option<Seq<u8>>) -> Option<Seq<char>> {
    match h {
        Some(b) => Some(base58_of_hash(b)),
        None => None,
    }
}

/// The columns stored for a key/value write: hashes in base58, account ids
/// as text, numbers reinterpreted as the signed integers of the same width.
pub open spec fn kv_row_of(kv: FastDataKvView) -> FastDataKvRowView {
    FastDataKvRowView {
        receipt_id: base58_of_hash(kv.receipt_id),
        action_index: kv.action_index as i32,
        tx_hash: opt_base58(kv.tx_hash),
        signer_id: kv.signer_id,
        predecessor_id: kv.predecessor_id,
        current_account_id: kv.current_account_id,
        block_height: kv.block_height as i64,
        block_timestamp: kv.block_timestamp as i64,
        shard_id: kv.shard_id as i32,
        receipt_index: kv.receipt_index as i32,
        order_id: kv.order_id as i64,
        key: kv.key,
        value: kv.value,
    }
}

/// Every column of a stored key/value row holds its own field, and reading
/// a row back fills every field from its own column: the account ids, key
/// and value unchanged, the hashes through base58, the numbers as the
/// integers of the same bits.
pub proof fn lemma_kv_row_columns(kv: FastDataKvView, row: FastDataKvRowView)
    ensures
        kv_row_of(kv).signer_id == kv.signer_id,
        kv_row_of(kv).predecessor_id == kv.predecessor_id,
        kv_row_of(kv).current_account_id == kv.current_account_id,
        kv_row_of(kv).key == kv.key,
        kv_row_of(kv).value == kv.value,
        kv_row_of(kv).receipt_id == base58_of_hash(kv.receipt_id),
        kv_row_of(kv).tx_hash == opt_base58(kv.tx_hash),
        kv_row_of(kv).action_index as u32 == kv.action_index,
        kv_row_of(kv).shard_id as u32 == kv.shard_id,
        kv_row_of(kv).receipt_index as u32 == kv.receipt_index,
        kv_row_of(kv).block_height as u64 == kv.block_height,
        kv_row_of(kv).block_timestamp as u64 == kv.block_timestamp,
        kv_row_of(kv).order_id as u64 == kv.order_id,
        kv_of_row(row) matches Some(k) ==> {
            &&& k.signer_id == row.signer_id
            &&& k.predecessor_id == row.predecessor_id
            &&& k.current_account_id == row.current_account_id
            &&& k.key == row.key
            &&& k.value == row.value
            &&& hash_of_base58(row.receipt_id) == Some(k.receipt_id)
            &&& k.action_index as i32 == row.action_index
            &&& k.block_height as i64 == row.block_height
            &&& k.order_id as i64 == row.order_id
        },
{
    let (a, sh, ri, h, t, o) = (kv.action_index, kv.shard_id, kv.receipt_index, kv.block_height, kv.block_timestamp, kv.order_id);
    assert((a as i32) as u32 == a) by (bit_vector);
    assert((sh as i32) as u32 == sh) by (bit_vector);
    assert((ri as i32) as u32 == ri) by (bit_vector);
    assert((h as i64) as u64 == h) by (bit_vector);
    assert((t as i64) as u64 == t) by (bit_vector);
    assert((o as i64) as u64 == o) by (bit_vector);
    let (ra, rh, ro) = (row.action_index, row.block_height, row.order_id);
    assert((ra as u32) as i32 == ra) by (bit_vector);
    assert((rh as u64) as i64 == rh) by (bit_vector);
    assert((ro as u64) as i64 == ro) by (bit_vector);
}

/// Whether a stored row reads back: its hashes decode and its account ids are valid.
pub open spec fn row_reads_back(row: FastDataKvRowView) -> bool {
    &&& hash_of_base58(row.receipt_id) is Some
    &&& (row.tx_hash matches Some(t) ==> hash_of_base58(t) is Some)
    &&& valid_account_id(row.signer_id)
    &&& valid_account_id(row.predecessor_id)
    &&& valid_account_id(row.current_account_id)
}

/// The key/value write that a stored row reads back as, when it does.
pub open spec fn kv_of_row(row: FastDataKvRowView) -> Option<FastDataKvView> {
    if row_reads_back(row) {
        Some(
            FastDataKvView {
                receipt_id: hash_of_base58(row.receipt_id)->0,
                action_index: row.action_index as u32,
                tx_hash: match row.tx_hash {
                    Some(t) => Some(hash_of_base58(t)->0),
                    None => None,
                },
                signer_id: row.signer_id,
                predecessor_id: row.predecessor_id,
                current_account_id: row.current_account_id,
                block_height: row.block_height as u64,
                block_timestamp: row.block_timestamp as u64,
                shard_id: row.shard_id as u32,
                receipt_index: row.receipt_index as u32,
                order_id: row.order_id as u64,
                key: row.key,
                value: row.value,
            },
        )
    } else {
        None
    }
}

pub open spec fn opt_kv(o: Option<FastDataKv>) -> Option<FastDataKvView> {
    match o {
        Some(k) => Some(k@),
        None => None,
    }
}

impl FastDataKvRow {
    /// The row stored for a key/value write. Reading the row back gives the
    /// same write.
    pub fn from(data: FastDataKv) -> (r: FastDataKvRow)
        ensures
            r@ == kv_row_of(data@),
            kv_of_row(r@) == Some(data@),
            r.receipt_id@ == base58_of_hash(data.receipt_id.0@),
            r.action_index == data.action_index as i32,
            opt_text(r.tx_hash) == opt_base58(opt_hash_bytes(data.tx_hash)),
            r.signer_id@ == data.signer_id@,
            r.predecessor_id@ == data.predecessor_id@,
            r.current_account_id@ == data.current_account_id@,
            r.block_height == data.block_height as i64,
            r.block_timestamp == data.block_timestamp as i64,
            r.shard_id == data.shard_id as i32,
            r.receipt_index == data.receipt_index as i32,
            r.order_id == data.order_id as i64,
            r.key@ == data.key@,
            r.value@ == data.value@,
    {
        proof {
            use_type_invariant(&data.signer_id);
            use_type_invariant(&data.predecessor_id);
            use_type_invariant(&data.current_account_id);
            let (a, s, ri) = (data.action_index, data.shard_id, data.receipt_index);
            let (h, t, o) = (data.block_height, data.block_timestamp, data.order_id);
            assert((a as i32) as u32 == a) by (bit_vector);
            assert((s as i32) as u32 == s) by (bit_vector);
            assert((ri as i32) as u32 == ri) by (bit_vector);
            assert((h as i64) as u64 == h) by (bit_vector);
            assert((t as i64) as u64 == t) by (bit_vector);
            assert((o as i64) as u64 == o) by (bit_vector);
        }
        let tx_hash = opt_hash_to_string(data.tx_hash);
        FastDataKvRow {
            receipt_id: data.receipt_id.to_string(),
            action_index: #[verifier::truncate] (data.action_index as i32),
            tx_hash,
            signer_id: data.signer_id.to_string(),
            predecessor_id: data.predecessor_id.to_string(),
            current_account_id: data.current_account_id.to_string(),
            block_height: #[verifier::truncate] (data.block_height as i64),
            block_timestamp: #[verifier::truncate] (data.block_timestamp as i64),
            shard_id: #[verifier::truncate] (data.shard_id as i32),
            receipt_index: #[verifier::truncate] (data.receipt_index as i32),
            order_id: #[verifier::truncate] (data.order_id as i64),
            key: data.key,
            value: data.value,
        }
    }
}

impl Clone for FastDataKvRow {
    fn clone(&self) -> (r: Self)
        ensures
            r@ == self@,
    {
        FastDataKvRow {
            receipt_id: self.receipt_id.clone(),
            action_index: self.action_index,
            tx_hash: clone_opt_text(&self.tx_hash),
            signer_id: self.signer_id.clone(),
            predecessor_id: self.predecessor_id.clone(),
            current_account_id: self.current_account_id.clone(),
            block_height: self.block_height,
            block_timestamp: self.block_timestamp,
            shard_id: self.shard_id,
            receipt_index: self.receipt_index,
            order_id: self.order_id,
            key: self.key.clone(),
            value: self.value.clone(),
        }
    }
}

impl Clone for FastDataKv {
    fn clone(&self) -> (r: Self)
        ensures
            r@ == self@,
    {
        FastDataKv {
            receipt_id: self.receipt_id,
            action_index: self.action_index,
            tx_hash: self.tx_hash,
            signer_id: self.signer_id.clone(),
            predecessor_id: self.predecessor_id.clone(),
            current_account_id: self.current_account_id.clone(),
            block_height: self.block_height,
            block_timestamp: self.block_timestamp,
            shard_id: self.shard_id,
            receipt_index: self.receipt_index,
            order_id: self.order_id,
            key: self.key.clone(),
            value: self.value.clone(),
        }
    }
}

impl FastDataKv {
    /// Reads a stored row back. The row must read back: a hash that does not
    /// decode or an invalid account id is a stored row that this indexer
    /// never wrote. Storing the write again gives the same row.
    pub fn from(row: FastDataKvRow) -> (r: FastDataKv)
        requires
            row_reads_back(row@),
        ensures
            kv_of_row(row@) == Some(r@),
            kv_row_of(r@) == row@,
            hash_of_base58(row.receipt_id@) == Some(r.receipt_id.0@),
            r.action_index == row.action_index as u32,
            match row.tx_hash {
                Some(t) => r.tx_hash matches Some(h) && hash_of_base58(t@) == Some(h.0@),
                None => r.tx_hash is None,
            },
            r.signer_id@ == row.signer_id@,
            r.predecessor_id@ == row.predecessor_id@,
            r.current_account_id@ == row.current_account_id@,
            r.block_height == row.block_height as u64,
            r.block_timestamp == row.block_timestamp as u64,
            r.shard_id == row.shard_id as u32,
            r.receipt_index == row.receipt_index as u32,
            r.order_id == row.order_id as u64,
            r.key@ == row.key@,
            r.value@ == row.value@,
    {
        proof {
            let (a, s, ri) = (row.action_index, row.shard_id, row.receipt_index);
            let (h, t, o) = (row.block_height, row.block_timestamp, row.order_id);
            assert((a as u32) as i32 == a) by (bit_vector);
            assert((s as u32) as i32 == s) by (bit_vector);
            assert((ri as u32) as i32 == ri) by (bit_vector);
            assert((h as u64) as i64 == h) by (bit_vector);
            assert((t as u64) as i64 == t) by (bit_vector);
            assert((o as u64) as i64 == o) by (bit_vector);
        }
        let receipt_id = CryptoHash::from_str(row.receipt_id.as_str()).unwrap();
        let tx_hash = match &row.tx_hash {
            Some(t) => Some(CryptoHash::from_str(t.as_str()).unwrap()),
            None => None,
        };
        let signer_id = AccountId::parse(row.signer_id.as_str()).unwrap();
        let predecessor_id = AccountId::parse(row.predecessor_id.as_str()).unwrap();
        let current_account_id = AccountId::parse(row.current_account_id.as_str()).unwrap();
        FastDataKv {
            receipt_id,
            action_index: #[verifier::truncate] (row.action_index as u32),
            tx_hash,
            signer_id,
            predecessor_id,
            current_account_id,
            block_height: #[verifier::truncate] (row.block_height as u64),
            block_timestamp: #[verifier::truncate] (row.block_timestamp as u64),
            shard_id: #[verifier::truncate] (row.shard_id as u32),
            receipt_index: #[verifier::truncate] (row.receipt_index as u32),
            order_id: #[verifier::truncate] (row.order_id as u64),
            key: row.key,
            value: row.value,
        }
    }

    /// Reads a stored row back, or `None` when it does not read back.
    /// Storing a write read back gives the same row.
    pub fn try_from_row(row: FastDataKvRow) -> (r: Option<FastDataKv>)
        ensures
            opt_kv(r) == kv_of_row(row@),
            r matches Some(k) ==> kv_row_of(k@) == row@,
    {
        let hashes_decode = CryptoHash::from_str(row.receipt_id.as_str()).is_some() && match &row.tx_hash {
            Some(t) => CryptoHash::from_str(t.as_str()).is_some(),
            None => true,
        };
        if hashes_decode && AccountId::parse(row.signer_id.as_str()).is_some() && AccountId::parse(
            row.predecessor_id.as_str(),
        ).is_some() && AccountId::parse(row.current_account_id.as_str()).is_some() {
            Some(FastDataKv::from(row))
        } else {
            None
        }
    }
}


/// Whether the row at index `k` is the last of the first `n` rows with its key.
pub open spec fn is_latest_with_key(rows: Seq<FastDataKvRowView>, n: int, k: int) -> bool {
    forall|k2: int| k < k2 < n ==> #[trigger] rows[k2].key != rows[k].key
}

/// Whether some kept row has the key.
pub open spec fn key_is_kept(kept: Seq<FastDataKvRowView>, key: Seq<char>) -> bool {
    exists|j: int| 0 <= j < kept.len() && #[trigger] kept[j].key == key
}

/// Whether the row is, among the first `n` rows, the last one with its key.
pub open spec fn is_latest_row(rows: Seq<FastDataKvRowView>, n: int, row: FastDataKvRowView) -> bool {
    exists|k: int| 0 <= k < n && #[trigger] rows[k] == row && is_latest_with_key(rows, n, k)
}

/// `kept` holds, for each key among the first `n` rows, exactly one row: the
/// last row with that key.
pub open spec fn keeps_latest_upto(
    rows: Seq<FastDataKvRowView>,
    n: int,
    kept: Seq<FastDataKvRowView>,
) -> bool {
    &&& forall|i: int, j: int| 0 <= i < j < kept.len() ==> #[trigger] kept[i].key != #[trigger] kept[j].key
    &&& forall|i: int| 0 <= i < n ==> key_is_kept(kept, #[trigger] rows[i].key)
    &&& forall|j: int| 0 <= j < kept.len() ==> is_latest_row(rows, n, #[trigger] kept[j])
}

/// `kept` holds, for each key of `rows`, exactly one row: the last row with
/// that key (a later write of a key replaces an earlier one).
pub open spec fn keeps_latest_per_key(rows: Seq<FastDataKvRowView>, kept: Seq<FastDataKvRowView>) -> bool {
    keeps_latest_upto(rows, rows.len() as int, kept)
}

pub open spec fn row_views(rows: Seq<FastDataKvRow>) -> Seq<FastDataKvRowView> {
    rows.map_values(|r: FastDataKvRow| r@)
}

/// The position of the row with the given key, if any.
fn find_key(kept: &Vec<FastDataKvRow>, key: &String) -> (r: Option<usize>)
    ensures
        match r {
            Some(j) => j < kept@.len() && kept@[j as int]@.key == key@,
            None => forall|jj: int| 0 <= jj < kept@.len() ==> (#[trigger] kept@[jj])@.key != key@,
        },
{
    let mut j: usize = 0;
    while j < kept.len()
        invariant
            j <= kept@.len(),
            forall|jj: int| 0 <= jj < j ==> (#[trigger] kept@[jj])@.key != key@,
        decreases kept@.len() - j,
    {
        if kept[j].key == *key {
            return Some(j);
        }
        j = j + 1;
    }
    None
}

/// Deduplicates rows by key: one row per key, the last one written.
pub fn latest_per_key(rows: &Vec<FastDataKvRow>) -> (kept: Vec<FastDataKvRow>)
    ensures
        keeps_latest_per_key(row_views(rows@), row_views(kept@)),
{
    let ghost all = row_views(rows@);
    let mut kept: Vec<FastDataKvRow> = Vec::new();
    let n = rows.len();
    let mut i: usize = 0;
    while i < n
        invariant
            n == rows@.len(),
            all == row_views(rows@),
            i <= n,
            keeps_latest_upto(all, i as int, row_views(kept@)),
        decreases n - i,
    {
        let ghost before = row_views(kept@);
        let row = &rows[i];
        assert(all[i as int] == row@);
        match find_key(&kept, &row.key) {
            Some(j) => {
                kept[j] = row.clone();
                proof {
                    let after = row_views(kept@);
                    assert(after =~= before.update(j as int, row@));
                    assert forall|x: int| 0 <= x < after.len() implies #[trigger] after[x].key
                        == before[x].key by {}
                    assert forall|i2: int| 0 <= i2 < i + 1 implies key_is_kept(
                        after,
                        #[trigger] all[i2].key,
                    ) by {
                        if i2 < i {
                            let w = choose|w: int| 0 <= w < before.len() && #[trigger] before[w].key == all[i2].key;
                            assert(after[w].key == all[i2].key);
                        } else {
                            assert(after[j as int].key == all[i2].key);
                        }
                    }
                    assert forall|x: int| 0 <= x < after.len() implies is_latest_row(
                        all,
                        i + 1,
                        #[trigger] after[x],
                    ) by {
                        if x == j {
                            assert(all[i as int] == after[x]);
                            assert(is_latest_with_key(all, i + 1, i as int));
                        } else {
                            assert(is_latest_row(all, i as int, before[x]));
                            let k = choose|k: int| 0 <= k < i && #[trigger] all[k] == before[x] && is_latest_with_key(all, i as int, k);
                            assert(before[x].key != before[j as int].key);
                            assert(is_latest_with_key(all, i + 1, k));
                            assert(all[k] == after[x]);
                        }
                    }
                }
            },
            None => {
                kept.push(row.clone());
                proof {
                    let after = row_views(kept@);
                    assert(after =~= before.push(row@));
                    assert forall|i2: int| 0 <= i2 < i + 1 implies key_is_kept(
                        after,
                        #[trigger] all[i2].key,
                    ) by {
                        if i2 < i {
                            let w = choose|w: int| 0 <= w < before.len() && #[trigger] before[w].key == all[i2].key;
                            assert(after[w].key == all[i2].key);
                        } else {
                            assert(after[before.len() as int].key == all[i2].key);
                        }
                    }
                    assert forall|x: int| 0 <= x < after.len() implies is_latest_row(
                        all,
                        i + 1,
                        #[trigger] after[x],
                    ) by {
                        if x == before.len() {
                            assert(all[i as int] == after[x]);
                            assert(is_latest_with_key(all, i + 1, i as int));
                        } else {
                            assert(is_latest_row(all, i as int, before[x]));
                            let k = choose|k: int| 0 <= k < i && #[trigger] all[k] == before[x] && is_latest_with_key(all, i as int, k);
                            assert(kept@[x]@.key != row@.key);
                            assert(is_latest_with_key(all, i + 1, k));
                            assert(all[k] == after[x]);
                        }
                    }
                    assert forall|a: int, b: int| 0 <= a < b < after.len() implies #[trigger] after[a].key
                        != #[trigger] after[b].key by {
                        if b == before.len() {
                            assert(kept@[a]@.key != row@.key);
                        }
                    }
                }
            },
        }
        i = i + 1;
    }
    kept
}

} // verus!
