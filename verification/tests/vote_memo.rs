use fastdata_indexer::chain::{AccountId, CryptoHash};
use fastdata_indexer::vote_memo::{order_id, parse_vote_memo, VoteMemo, VoteMemoByVoterRow, VoteMemoRow};

fn signer() -> AccountId {
    AccountId::parse("signer.near").unwrap()
}

fn parse(args: &str, voter: &str) -> Option<VoteMemo> {
    parse_vote_memo(
        args.as_bytes(),
        "vote.dao.near",
        voter,
        CryptoHash([7u8; 32]),
        Some(CryptoHash([9u8; 32])),
        signer(),
        120_000_000,
        1_700_000_000_000_000_000,
        3,
        14,
        2,
    )
}

#[test]
fn parses_a_full_vote_memo() {
    let memo = parse(
        r#"{"proposal_id": 42, "vote": 1, "__memo": "I agree", "comment": "x", "merkle_proof": [1,2], "v_account": {"a": 1}}"#,
        "alice.near",
    )
    .unwrap();
    assert_eq!(memo.contract_id, "vote.dao.near");
    assert_eq!(memo.proposal_id, 42);
    assert_eq!(memo.voter_id.as_str(), "alice.near");
    assert_eq!(memo.vote_option, 1);
    assert_eq!(memo.memo.as_deref(), Some("I agree"));
    assert_eq!(memo.extra_fields.as_deref(), Some(r#"{"comment":"x"}"#));
    assert_eq!(memo.receipt_id, CryptoHash([7u8; 32]));
    assert_eq!(memo.tx_hash, Some(CryptoHash([9u8; 32])));
    assert_eq!(memo.signer_id.as_str(), "signer.near");
    assert_eq!(memo.block_height, 120_000_000);
    assert_eq!(memo.block_timestamp, 1_700_000_000_000_000_000);
    assert_eq!(memo.shard_id, 3);
    assert_eq!(memo.receipt_index, 14);
    assert_eq!(memo.action_index, 2);
    assert_eq!(memo.order_id, 300_014_002);
}

#[test]
fn memo_that_is_not_a_string_is_kept_as_json_text() {
    let memo = parse(r#"{"proposal_id": 1, "vote": 0, "__memo": {"b": [true, null], "a": 2}}"#, "bob.near").unwrap();
    assert_eq!(memo.memo.as_deref(), Some(r#"{"a":2,"b":[true,null]}"#));
    assert_eq!(memo.extra_fields, None);
}

#[test]
fn no_memo_and_no_extra_fields() {
    let memo = parse(r#"{"vote": 2, "proposal_id": 7, "merkle_proof": "p"}"#, "bob.near").unwrap();
    assert_eq!(memo.memo, None);
    assert_eq!(memo.extra_fields, None);
    assert_eq!(memo.proposal_id, 7);
    assert_eq!(memo.vote_option, 2);
}

#[test]
fn extra_fields_keep_every_other_argument_in_key_order() {
    let memo = parse(r#"{"proposal_id": 1, "vote": 1, "z": 1, "a": "s", "m": [1]}"#, "bob.near").unwrap();
    assert_eq!(memo.extra_fields.as_deref(), Some(r#"{"a":"s","m":[1],"z":1}"#));
}

#[test]
fn proposal_id_and_vote_are_cut_to_their_width() {
    let memo = parse(r#"{"proposal_id": 4294967298, "vote": 257}"#, "bob.near").unwrap();
    assert_eq!(memo.proposal_id, 2);
    assert_eq!(memo.vote_option, 1);
}

#[test]
fn refuses_what_is_not_a_vote_memo() {
    assert!(parse(r#"{"proposal_id": 1}"#, "bob.near").is_none());
    assert!(parse(r#"{"vote": 1}"#, "bob.near").is_none());
    assert!(parse(r#"{"proposal_id": -1, "vote": 1}"#, "bob.near").is_none());
    assert!(parse(r#"{"proposal_id": 1.5, "vote": 1}"#, "bob.near").is_none());
    assert!(parse(r#"{"proposal_id": "1", "vote": 1}"#, "bob.near").is_none());
    assert!(parse(r#"{"proposal_id": 1, "vote": true}"#, "bob.near").is_none());
    assert!(parse(r#"[1, 2]"#, "bob.near").is_none());
    assert!(parse(r#"not json"#, "bob.near").is_none());
    assert!(parse(r#"{"proposal_id": 1, "vote": 1}"#, "Bob.near").is_none());
}

#[test]
fn order_id_formula() {
    assert_eq!(order_id(0, 0, 0), 0);
    assert_eq!(order_id(2, 3, 4), 200_003_004);
    assert_eq!(order_id(u32::MAX, u32::MAX, u32::MAX), 429_501_024_467_295_000 + u32::MAX as u64);
}

#[test]
fn stored_rows_of_a_vote_memo() {
    let mut memo = parse(r#"{"proposal_id": 4294967295, "vote": 3, "__memo": "m"}"#, "carol.near").unwrap();
    memo.receipt_id = CryptoHash([0u8; 32]);
    memo.tx_hash = None;
    memo.block_height = u64::MAX;
    let row = VoteMemoRow::from(memo);
    assert_eq!(row.contract_id, "vote.dao.near");
    assert_eq!(row.proposal_id, -1);
    assert_eq!(row.voter_id, "carol.near");
    assert_eq!(row.vote_option, 3);
    assert_eq!(row.memo.as_deref(), Some("m"));
    assert_eq!(row.receipt_id, "11111111111111111111111111111111");
    assert_eq!(row.tx_hash, None);
    assert_eq!(row.signer_id, "signer.near");
    assert_eq!(row.block_height, -1);
    assert_eq!(row.shard_id, 3);
    assert_eq!(row.order_id, 300_014_002);
    let by_voter = VoteMemoByVoterRow::from(row.clone());
    assert_eq!(by_voter.voter_id, row.voter_id);
    assert_eq!(by_voter.contract_id, row.contract_id);
    assert_eq!(by_voter.proposal_id, row.proposal_id);
    assert_eq!(by_voter.memo, row.memo);
    assert_eq!(by_voter.receipt_id, row.receipt_id);
    assert_eq!(by_voter.order_id, row.order_id);
}

#[test]
fn order_ids_follow_action_positions() {
    let positions = [(0, 0, 0), (0, 0, 999), (0, 1, 0), (0, 99_999, 999), (1, 0, 0), (7, 3, 2)];
    for w in positions.windows(2) {
        let (a, b) = (w[0], w[1]);
        assert!(order_id(a.0, a.1, a.2) < order_id(b.0, b.1, b.2));
    }
    // Beyond 100,000 receipts in a shard the positions are no longer told apart.
    assert_eq!(order_id(0, 100_000, 0), order_id(1, 0, 0));
}

#[test]
fn vote_memo_from_parsed_arguments() {
    let mut obj = serde_json::Map::new();
    obj.insert("proposal_id".to_string(), serde_json::Value::from(9u64));
    obj.insert("vote".to_string(), serde_json::Value::from(2u64));
    obj.insert("__memo".to_string(), serde_json::Value::from(true));
    obj.insert("v_account".to_string(), serde_json::Value::from("x"));
    obj.insert("note".to_string(), serde_json::Value::from("n"));
    let memo = fastdata_indexer::vote_memo::vote_memo_from_object(
        obj,
        "vote.dao.near",
        "dave.near",
        CryptoHash([1u8; 32]),
        None,
        signer(),
        1,
        2,
        0,
        0,
        0,
    )
    .unwrap();
    assert_eq!(memo.proposal_id, 9);
    assert_eq!(memo.vote_option, 2);
    assert_eq!(memo.memo.as_deref(), Some("true"));
    assert_eq!(memo.extra_fields.as_deref(), Some(r#"{"note":"n"}"#));
    let copy = memo.clone();
    assert_eq!(copy.voter_id.as_str(), "dave.near");
    assert_eq!(copy.extra_fields, memo.extra_fields);
}
