use fastdata_indexer::batch::{plan_kv_batch, BatchEntry};
use fastdata_indexer::chain::{AccountId, CryptoHash};
use fastdata_indexer::kv::{latest_per_key, FastDataKv, FastDataKvRow, KV_INDEXER_ID, KV_SUFFIX};

fn account(s: &str) -> AccountId {
    AccountId::parse(s).unwrap()
}

fn write(key: &str, value: &str, order_id: u64) -> FastDataKv {
    FastDataKv {
        receipt_id: CryptoHash([order_id as u8; 32]),
        action_index: 1,
        tx_hash: Some(CryptoHash([0xab; 32])),
        signer_id: account("alice.near"),
        predecessor_id: account("alice.near"),
        current_account_id: account("kv.near"),
        block_height: 1000,
        block_timestamp: 2000,
        shard_id: 5,
        receipt_index: 6,
        order_id,
        key: key.to_string(),
        value: value.to_string(),
    }
}

#[test]
fn row_of_a_write() {
    let mut kv = write("foo/alex.near", "bar", 0);
    kv.receipt_id = CryptoHash([0u8; 32]);
    kv.tx_hash = None;
    kv.action_index = u32::MAX;
    kv.block_height = u64::MAX;
    let row = FastDataKvRow::from(kv);
    assert_eq!(row.receipt_id, "11111111111111111111111111111111");
    assert_eq!(row.tx_hash, None);
    assert_eq!(row.action_index, -1);
    assert_eq!(row.block_height, -1);
    assert_eq!(row.signer_id, "alice.near");
    assert_eq!(row.current_account_id, "kv.near");
    assert_eq!(row.shard_id, 5);
    assert_eq!(row.key, "foo/alex.near");
    assert_eq!(row.value, "bar");
}

#[test]
fn a_write_reads_back_from_its_row() {
    let mut kv = write("k", "v", 77);
    kv.action_index = u32::MAX;
    kv.block_height = u64::MAX - 1;
    kv.order_id = u64::MAX;
    let row = FastDataKvRow::from(kv);
    let back = FastDataKv::try_from_row(row).unwrap();
    assert_eq!(back.receipt_id, CryptoHash([77u8; 32]));
    assert_eq!(back.tx_hash, Some(CryptoHash([0xab; 32])));
    assert_eq!(back.action_index, u32::MAX);
    assert_eq!(back.block_height, u64::MAX - 1);
    assert_eq!(back.order_id, u64::MAX);
    assert_eq!(back.signer_id.as_str(), "alice.near");
    assert_eq!(back.predecessor_id.as_str(), "alice.near");
    assert_eq!(back.current_account_id.as_str(), "kv.near");
    assert_eq!(back.key, "k");
    assert_eq!(back.value, "v");
    assert_eq!(back.shard_id, 5);
    assert_eq!(back.receipt_index, 6);
}

#[test]
fn a_row_that_does_not_read_back() {
    let good = FastDataKvRow::from(write("k", "v", 1));
    let mut bad_hash = good.clone();
    bad_hash.receipt_id = "foo-bar-baz".to_string();
    assert!(FastDataKv::try_from_row(bad_hash).is_none());
    let mut short_hash = good.clone();
    short_hash.tx_hash = Some("1".repeat(31));
    assert!(FastDataKv::try_from_row(short_hash).is_none());
    let mut bad_account = good.clone();
    bad_account.signer_id = "Alice.near".to_string();
    assert!(FastDataKv::try_from_row(bad_account).is_none());
    let row = FastDataKv::from(good);
    assert_eq!(row.receipt_id, CryptoHash([1u8; 32]));
}

#[test]
fn latest_write_of_each_key_is_kept() {
    let rows: Vec<FastDataKvRow> = vec![
        FastDataKvRow::from(write("a", "1", 1)),
        FastDataKvRow::from(write("b", "2", 2)),
        FastDataKvRow::from(write("a", "3", 3)),
        FastDataKvRow::from(write("c", "4", 4)),
        FastDataKvRow::from(write("b", "5", 5)),
    ];
    let mut kept: Vec<(String, String)> =
        latest_per_key(&rows).into_iter().map(|r| (r.key, r.value)).collect();
    kept.sort();
    assert_eq!(
        kept,
        vec![
            ("a".to_string(), "3".to_string()),
            ("b".to_string(), "5".to_string()),
            ("c".to_string(), "4".to_string())
        ]
    );
    assert!(latest_per_key(&vec![]).is_empty());
}

#[test]
fn kv_batch_layout() {
    let batch = plan_kv_batch(
        vec![write("a", "1", 1), write("a", "2", 2), write("b", "3", 3)],
        4242,
    );
    assert_eq!(batch.rows.len(), 3);
    assert_eq!(batch.secondary_rows.len(), 2);
    let entries = batch.into_entries();
    assert_eq!(entries.len(), 6);
    let mut history = vec![];
    let mut latest = vec![];
    for (i, e) in entries.iter().enumerate() {
        match e {
            BatchEntry::Row(r) => {
                assert!(i < 3);
                history.push(r.value.clone());
            }
            BatchEntry::SecondaryRow(r) => {
                assert!((3..5).contains(&i));
                latest.push((r.key.clone(), r.value.clone()));
            }
            BatchEntry::LastProcessed(p) => {
                assert_eq!(i, 5);
                assert_eq!(p.suffix, KV_INDEXER_ID);
                assert_eq!(p.last_processed_block_height, 4242);
            }
        }
    }
    assert_eq!(history, vec!["1", "2", "3"]);
    latest.sort();
    assert_eq!(latest, vec![("a".to_string(), "2".to_string()), ("b".to_string(), "3".to_string())]);
    assert_eq!(KV_SUFFIX, "kv");
    assert_eq!(KV_INDEXER_ID, "kv-1");
}

#[test]
fn empty_kv_batch_records_only_progress() {
    let entries = plan_kv_batch(vec![], u64::MAX).into_entries();
    assert_eq!(entries.len(), 1);
    match &entries[0] {
        BatchEntry::LastProcessed(p) => assert_eq!(p.last_processed_block_height, -1),
        _ => panic!("expected the progress row"),
    }
}

#[test]
fn a_stored_row_is_written_back_unchanged() {
    let rows = vec![
        FastDataKvRow::from(write("k", "v", 3)),
        FastDataKvRow {
            receipt_id: "CjNSmWXTWhC3EhRVtqLhRmWMTkRbU96wUACqxMtV1uGf".to_string(),
            action_index: -5,
            tx_hash: Some("11111111111111111111111111111111".to_string()),
            signer_id: "a.near".to_string(),
            predecessor_id: "b.near".to_string(),
            current_account_id: "c.near".to_string(),
            block_height: -1,
            block_timestamp: i64::MIN,
            shard_id: i32::MIN,
            receipt_index: -1,
            order_id: -7,
            key: "key".to_string(),
            value: "value".to_string(),
        },
    ];
    for row in rows {
        let back = FastDataKvRow::from(FastDataKv::from(row.clone()));
        assert_eq!(back.receipt_id, row.receipt_id);
        assert_eq!(back.action_index, row.action_index);
        assert_eq!(back.tx_hash, row.tx_hash);
        assert_eq!(back.signer_id, row.signer_id);
        assert_eq!(back.predecessor_id, row.predecessor_id);
        assert_eq!(back.current_account_id, row.current_account_id);
        assert_eq!(back.block_height, row.block_height);
        assert_eq!(back.block_timestamp, row.block_timestamp);
        assert_eq!(back.shard_id, row.shard_id);
        assert_eq!(back.receipt_index, row.receipt_index);
        assert_eq!(back.order_id, row.order_id);
        assert_eq!(back.key, row.key);
        assert_eq!(back.value, row.value);
    }
}

#[test]
fn a_write_clones_to_the_same_write() {
    let kv = write("k", "v", 9);
    let copy = kv.clone();
    assert_eq!(copy.receipt_id, kv.receipt_id);
    assert_eq!(copy.signer_id.as_str(), kv.signer_id.as_str());
    assert_eq!(copy.key, kv.key);
    assert_eq!(copy.value, kv.value);
    assert_eq!(copy.order_id, kv.order_id);
}
