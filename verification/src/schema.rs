//! The CQL statements of the fast data store and of the two indexers'
//! tables.

use vstd::prelude::*;

verus! {

/// Stores one fast data blob.
pub const INSERT_FASTDATA_QUERY: &'static str = "INSERT INTO blobs (receipt_id, action_index, suffix, data, tx_hash, signer_id, predecessor_id, current_account_id, block_height, block_timestamp, shard_id, receipt_index) VALUES (?, ?, ?, ?, ?, ?, ?, ?, ?, ?, ?, ?)";

/// Selects the blobs of a suffix in a block range, both ends included.
pub const SELECT_FASTDATA_BY_SUFFIX_RANGE_QUERY: &'static str = "SELECT * FROM blobs WHERE suffix = ? AND block_height >= ? AND block_height <= ?";

/// Records the last processed block height of a suffix.
pub const INSERT_LAST_PROCESSED_BLOCK_HEIGHT_QUERY: &'static str = "INSERT INTO meta (suffix, last_processed_block_height) VALUES (?, ?)";

/// Reads the last processed block height of a suffix.
pub const SELECT_LAST_PROCESSED_BLOCK_HEIGHT_QUERY: &'static str = "SELECT last_processed_block_height FROM meta WHERE suffix = ? LIMIT 1";

/// The test query of a connection.
pub const TEST_CONNECTION_QUERY: &'static str = "SELECT now() FROM system.local";

/// The blob table.
pub const CREATE_BLOBS_TABLE: &'static str = "CREATE TABLE IF NOT EXISTS blobs (
                receipt_id text,
                action_index int,
                suffix text,
                data blob,
                tx_hash text,
                signer_id text,
                predecessor_id text,
                current_account_id text,
                block_height bigint,
                block_timestamp bigint,
                shard_id int,
                receipt_index int,
                PRIMARY KEY ((suffix), block_height, shard_id, receipt_index, action_index, receipt_id)
            )";

/// The blob index by transaction hash.
pub const CREATE_TX_HASH_INDEX: &'static str = "CREATE INDEX IF NOT EXISTS idx_tx_hash ON blobs (tx_hash)";

/// The blob index by receipt id.
pub const CREATE_RECEIPT_ID_INDEX: &'static str = "CREATE INDEX IF NOT EXISTS idx_receipt_id ON blobs (receipt_id)";

/// The progress table.
pub const CREATE_META_TABLE: &'static str = "CREATE TABLE IF NOT EXISTS meta (
                suffix text PRIMARY KEY,
                last_processed_block_height bigint
            )";

/// The history of key/value writes.
pub const CREATE_KV_TABLE: &'static str = "CREATE TABLE IF NOT EXISTS s_kv (
            receipt_id text,
            action_index int,
            tx_hash text,
            signer_id text,
            predecessor_id text,
            current_account_id text,
            block_height bigint,
            block_timestamp bigint,
            shard_id int,
            receipt_index int,
            order_id bigint,

            key text,
            value text,
            PRIMARY KEY ((predecessor_id), current_account_id, key, block_height, order_id)
        )";

/// The latest value of each key.
pub const CREATE_KV_LAST_TABLE: &'static str = "CREATE TABLE IF NOT EXISTS s_kv_last (
            receipt_id text,
            action_index int,
            tx_hash text,
            signer_id text,
            predecessor_id text,
            current_account_id text,
            block_height bigint,
            block_timestamp bigint,
            shard_id int,
            receipt_index int,
            order_id bigint,

            key text,
            value text,
            PRIMARY KEY ((predecessor_id), current_account_id, key)
        )";

/// The key/value history by key.
pub const CREATE_KV_BY_KEY_VIEW: &'static str = "CREATE MATERIALIZED VIEW IF NOT EXISTS mv_kv_key AS
            SELECT * FROM s_kv
            WHERE key IS NOT NULL
            PRIMARY KEY((key), block_height, order_id, predecessor_id, current_account_id)
        ";

/// The key/value history by contract and key.
pub const CREATE_KV_BY_CONTRACT_KEY_VIEW: &'static str = "CREATE MATERIALIZED VIEW IF NOT EXISTS mv_kv_cur_key AS
            SELECT * FROM s_kv
            WHERE key IS NOT NULL
            PRIMARY KEY((current_account_id), key, block_height, order_id, predecessor_id)
        ";

/// Stores a key/value write in the history.
pub const INSERT_KV_QUERY: &'static str = "INSERT INTO s_kv (receipt_id, action_index, tx_hash, signer_id, predecessor_id, current_account_id, block_height, block_timestamp, shard_id, receipt_index, order_id, key, value) VALUES (?, ?, ?, ?, ?, ?, ?, ?, ?, ?, ?, ?, ?)";

/// Stores the latest value of a key.
pub const INSERT_KV_LAST_QUERY: &'static str = "INSERT INTO s_kv_last (receipt_id, action_index, tx_hash, signer_id, predecessor_id, current_account_id, block_height, block_timestamp, shard_id, receipt_index, order_id, key, value) VALUES (?, ?, ?, ?, ?, ?, ?, ?, ?, ?, ?, ?, ?)";

/// Vote memos by contract and proposal.
pub const CREATE_VOTE_MEMOS_TABLE: &'static str = "CREATE TABLE IF NOT EXISTS vote_memos (
            contract_id text,
            proposal_id int,
            voter_id text,
            vote_option int,
            memo text,
            extra_fields text,
            receipt_id text,
            tx_hash text,
            signer_id text,
            block_height bigint,
            block_timestamp bigint,
            shard_id int,
            receipt_index int,
            action_index int,
            order_id bigint,
            PRIMARY KEY ((contract_id, proposal_id), voter_id)
        )";

/// Vote memos by voter.
pub const CREATE_VOTE_MEMOS_BY_VOTER_TABLE: &'static str = "CREATE TABLE IF NOT EXISTS vote_memos_by_voter (
            voter_id text,
            contract_id text,
            proposal_id int,
            vote_option int,
            memo text,
            extra_fields text,
            receipt_id text,
            tx_hash text,
            signer_id text,
            block_height bigint,
            block_timestamp bigint,
            shard_id int,
            receipt_index int,
            action_index int,
            order_id bigint,
            PRIMARY KEY ((voter_id), contract_id, proposal_id)
        )";

/// Stores a vote memo by contract and proposal.
pub const INSERT_VOTE_MEMO_QUERY: &'static str = "INSERT INTO vote_memos (contract_id, proposal_id, voter_id, vote_option, memo, extra_fields, receipt_id, tx_hash, signer_id, block_height, block_timestamp, shard_id, receipt_index, action_index, order_id) VALUES (?, ?, ?, ?, ?, ?, ?, ?, ?, ?, ?, ?, ?, ?, ?)";

/// Stores a vote memo by voter.
pub const INSERT_VOTE_MEMO_BY_VOTER_QUERY: &'static str = "INSERT INTO vote_memos_by_voter (voter_id, contract_id, proposal_id, vote_option, memo, extra_fields, receipt_id, tx_hash, signer_id, block_height, block_timestamp, shard_id, receipt_index, action_index, order_id) VALUES (?, ?, ?, ?, ?, ?, ?, ?, ?, ?, ?, ?, ?, ?, ?)";

} // verus!
