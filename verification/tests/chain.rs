use fastdata_indexer::chain::{AccountId, ChainId, CryptoHash};
use fastdata_indexer::store::{
    create_keyspace_query, keyspace_name, last_processed_height_of, last_processed_row,
    suffix_range_params, KEYSPACE_REPLICATION,
};

#[test]
fn hash_text_round_trip() {
    assert_eq!(CryptoHash([0u8; 32]).to_string(), "11111111111111111111111111111111");
    let text = "CjNSmWXTWhC3EhRVtqLhRmWMTkRbU96wUACqxMtV1uGf";
    let h = CryptoHash::from_str(text).unwrap();
    assert_eq!(h.to_string(), text);
    let bytes = CryptoHash([200u8; 32]);
    assert_eq!(CryptoHash::from_str(&bytes.to_string()), Some(bytes));
}

#[test]
fn hash_text_that_does_not_decode() {
    assert_eq!(CryptoHash::from_str("foo-bar-baz"), None);
    assert_eq!(CryptoHash::from_str(""), None);
    assert_eq!(CryptoHash::from_str(&"1".repeat(31)), None);
    assert_eq!(CryptoHash::from_str(&"1".repeat(33)), None);
}

#[test]
fn account_id_validation() {
    for ok in ["aa", "alice.near", "a-b_c.d", "0x1", &"a".repeat(64)] {
        let a = AccountId::parse(ok).unwrap();
        assert_eq!(a.as_str(), ok);
        assert_eq!(a.to_string(), ok);
        assert_eq!(a.clone().as_str(), ok);
    }
    for bad in ["", "a", "Alice.near", ".alice", "alice.", "a..b", "a-_b", "al ice", &"a".repeat(65), "é.near"] {
        assert!(AccountId::parse(bad).is_none(), "{bad}");
    }
}

#[test]
fn chain_ids() {
    assert_eq!(ChainId::try_from("mainnet".to_string()), Ok(ChainId::Mainnet));
    assert_eq!(ChainId::try_from("testnet".to_string()), Ok(ChainId::Testnet));
    assert_eq!(
        ChainId::try_from("betanet".to_string()),
        Err("Invalid chain id: betanet".to_string())
    );
    assert_eq!(ChainId::Mainnet.to_string(), "mainnet");
    assert_eq!(ChainId::try_from(ChainId::Testnet.to_string()), Ok(ChainId::Testnet));
    assert_eq!(keyspace_name(ChainId::Mainnet), "fastdata_mainnet");
    assert_eq!(keyspace_name(ChainId::Testnet), "fastdata_testnet");
    assert_eq!(
        create_keyspace_query(ChainId::Testnet),
        format!("CREATE KEYSPACE IF NOT EXISTS fastdata_testnet{}", KEYSPACE_REPLICATION)
    );
    assert!(KEYSPACE_REPLICATION.contains("'dc1': 3"));
}

#[test]
fn progress_rows() {
    let row = last_processed_row("memo-1", 123);
    assert_eq!(row.suffix, "memo-1");
    assert_eq!(row.last_processed_block_height, 123);
    let high = last_processed_row("kv-1", u64::MAX);
    assert_eq!(high.last_processed_block_height, -1);
    assert_eq!(last_processed_height_of(Some(high.last_processed_block_height)), Some(u64::MAX));
    assert_eq!(last_processed_height_of(Some(123)), Some(123));
    assert_eq!(last_processed_height_of(None), None);
    assert_eq!(suffix_range_params("kv", 10, 20), ("kv".to_string(), 10, 20));
}
