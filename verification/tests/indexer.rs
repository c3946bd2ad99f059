use fastdata_indexer::batch::{plan_vote_memo_batch, BatchEntry};
use fastdata_indexer::chain::{AccountId, CryptoHash};
use fastdata_indexer::config::{parse_contract_ids, start_block_height, ProgressClock};
use fastdata_indexer::indexer::{
    collect_vote_memos, is_listed_text, ActionData, BlockData, ReceiptData, ReceiptKind, ShardData,
};
use fastdata_indexer::vote_memo::{parse_vote_memo, MEMO_INDEXER_ID};

fn account(s: &str) -> AccountId {
    AccountId::parse(s).unwrap()
}

fn call(method: &str, args: &str) -> ActionData {
    ActionData::FunctionCall { method_name: method.to_string(), args: args.as_bytes().to_vec() }
}

fn receipt(receiver: &str, voter: &str, actions: Vec<ActionData>) -> ReceiptData {
    ReceiptData {
        receipt_id: CryptoHash([1u8; 32]),
        predecessor_id: account(voter),
        receiver_id: account(receiver),
        tx_hash: None,
        receipt: ReceiptKind::Action { signer_id: account("signer.near"), actions },
    }
}

const VOTE: &str = r#"{"proposal_id": 3, "vote": 1, "__memo": "yes"}"#;

#[test]
fn collects_vote_memos_in_block_order() {
    let block = BlockData {
        height: 99,
        timestamp: 12345,
        shards: vec![
            ShardData {
                shard_id: 0,
                receipts: vec![
                    receipt("other.near", "a.near", vec![call("vote", VOTE)]),
                    receipt("dao.near", "b.near", vec![ActionData::Other, call("vote", VOTE), call("unvote", VOTE)]),
                ],
            },
            ShardData {
                shard_id: (1u64 << 32) + 2,
                receipts: vec![
                    ReceiptData {
                        receipt_id: CryptoHash([2u8; 32]),
                        predecessor_id: account("c.near"),
                        receiver_id: account("dao.near"),
                        tx_hash: None,
                        receipt: ReceiptKind::Other,
                    },
                    receipt("dao2.near", "d.near", vec![call("vote", r#"{"vote": 1}"#), call("vote", VOTE)]),
                ],
            },
        ],
    };
    let contracts = vec!["dao.near".to_string(), "dao2.near".to_string()];
    let memos = collect_vote_memos(&block, &contracts, &"vote".to_string());
    assert_eq!(memos.len(), 2);
    assert_eq!(memos[0].voter_id.as_str(), "b.near");
    assert_eq!(memos[0].contract_id, "dao.near");
    assert_eq!((memos[0].shard_id, memos[0].receipt_index, memos[0].action_index), (0, 1, 1));
    assert_eq!(memos[0].order_id, 1_001);
    assert_eq!(memos[0].block_height, 99);
    assert_eq!(memos[0].block_timestamp, 12345);
    assert_eq!(memos[0].signer_id.as_str(), "signer.near");
    assert_eq!(memos[1].voter_id.as_str(), "d.near");
    assert_eq!(memos[1].contract_id, "dao2.near");
    assert_eq!((memos[1].shard_id, memos[1].receipt_index, memos[1].action_index), (2, 1, 1));
    assert_eq!(memos[1].order_id, 200_001_001);
    assert!(collect_vote_memos(&block, &vec![], &"vote".to_string()).is_empty());
    assert!(collect_vote_memos(&block, &contracts, &"unvote".to_string()).len() == 1);
}

#[test]
fn listed_contracts() {
    let list = vec!["a.near".to_string(), "b.near".to_string()];
    assert!(is_listed_text(&list, &"b.near".to_string()));
    assert!(!is_listed_text(&list, &"c.near".to_string()));
    assert!(!is_listed_text(&vec![], &"a.near".to_string()));
}

#[test]
fn contract_ids_setting() {
    assert_eq!(
        parse_contract_ids(" a.near, b.near ,,c.near\t"),
        vec!["a.near", "b.near", "", "c.near"]
    );
    assert_eq!(parse_contract_ids(""), vec![""]);
    assert_eq!(parse_contract_ids("x,"), vec!["x", ""]);
    assert_eq!(parse_contract_ids("\u{3000}dao.near\u{a0}"), vec!["dao.near"]);
}

#[test]
fn start_height() {
    assert_eq!(start_block_height(Some(10), Some(5), 100), 11);
    assert_eq!(start_block_height(None, Some(5), 100), 5);
    assert_eq!(start_block_height(None, None, 100), 100);
}

#[test]
fn progress_is_saved_on_interval_rows_or_shutdown() {
    let mut clock = ProgressClock::new(1_000);
    assert!(!clock.after_block(5_000_000_999, 5_000, false, true));
    assert_eq!(clock.last_saved_ns, 1_000);
    assert!(clock.after_block(5_000_001_000, 5_000, false, true));
    assert_eq!(clock.last_saved_ns, 5_000_001_000);
    assert!(clock.after_block(5_000_001_001, 5_000, true, true));
    assert_eq!(clock.last_saved_ns, 5_000_001_001);
    assert!(clock.after_block(5_000_001_002, 5_000, false, false));
    assert_eq!(clock.last_saved_ns, 5_000_001_002);
}

#[test]
fn vote_memo_batch_layout() {
    let memo = |voter: &str| {
        parse_vote_memo(
            VOTE.as_bytes(),
            "dao.near",
            voter,
            CryptoHash([0u8; 32]),
            None,
            account("signer.near"),
            7,
            8,
            0,
            0,
            0,
        )
        .unwrap()
    };
    let batch = plan_vote_memo_batch(vec![memo("a.near"), memo("b.near")], 77);
    let entries = batch.into_entries();
    assert_eq!(entries.len(), 5);
    match (&entries[0], &entries[1], &entries[2], &entries[3], &entries[4]) {
        (
            BatchEntry::Row(r0),
            BatchEntry::Row(r1),
            BatchEntry::SecondaryRow(v0),
            BatchEntry::SecondaryRow(v1),
            BatchEntry::LastProcessed(p),
        ) => {
            assert_eq!(r0.voter_id, "a.near");
            assert_eq!(r1.voter_id, "b.near");
            assert_eq!(v0.voter_id, "a.near");
            assert_eq!(v1.voter_id, "b.near");
            assert_eq!(v0.memo.as_deref(), Some("yes"));
            assert_eq!(r0.receipt_id, "11111111111111111111111111111111");
            assert_eq!(p.suffix, MEMO_INDEXER_ID);
            assert_eq!(p.last_processed_block_height, 77);
        }
        _ => panic!("unexpected batch layout"),
    }
}
