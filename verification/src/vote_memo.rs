//! Vote memos: what a `vote` function call carries besides the vote itself,
//! parsed out of the call's JSON arguments, and the two row layouts under
//! which it is stored (by proposal and by voter).

use vstd::prelude::*;
use crate::chain::{AccountId, CryptoHash, base58_of_hash, hash_of_base58, valid_account_id};
use crate::json::{
    JsonObject,
    json_entries,
    JsonValueView, json_object_of, json_object_text, object_is_empty, object_to_text,
    parse_json_object, remove_entry, opt_text,
};

verus! {

/// The id under which the memo indexer records its progress.
pub const MEMO_INDEXER_ID: &'static str = "memo-1";

/// A vote cast through a function call, with its memo and where it happened.
#[derive(Debug)]
pub struct VoteMemo {
    pub contract_id: String,
    pub proposal_id: u32,
    pub voter_id: AccountId,
    pub vote_option: u8,
    pub memo: Option<String>,
    pub extra_fields: Option<String>,
    pub receipt_id: CryptoHash,
    pub tx_hash: Option<CryptoHash>,
    pub signer_id: AccountId,
    pub block_height: u64,
    pub block_timestamp: u64,
    pub shard_id: u32,
    pub receipt_index: u32,
    pub action_index: u32,
    pub order_id: u64,
}

/// The mathematical value of a [`VoteMemo`].
pub struct VoteMemoView {
    pub contract_id: Seq<char>,
    pub proposal_id: u32,
    pub voter_id: Seq<char>,
    pub vote_option: u8,
    pub memo: Option<Seq<char>>,
    pub extra_fields: Option<Seq<char>>,
    pub receipt_id: CryptoHash,
    pub tx_hash: Option<CryptoHash>,
    pub signer_id: Seq<char>,
    pub block_height: u64,
    pub block_timestamp: u64,
    pub shard_id: u32,
    pub receipt_index: u32,
    pub action_index: u32,
    pub order_id: u64,
}

impl View for VoteMemo {
    type V = VoteMemoView;

    open spec fn view(&self) -> VoteMemoView {
        VoteMemoView {
            contract_id: self.contract_id@,
            proposal_id: self.proposal_id,
            voter_id: self.voter_id@,
            vote_option: self.vote_option,
            memo: opt_text(self.memo),
            extra_fields: opt_text(self.extra_fields),
            receipt_id: self.receipt_id,
            tx_hash: self.tx_hash,
            signer_id: self.signer_id@,
            block_height: self.block_height,
            block_timestamp: self.block_timestamp,
            shard_id: self.shard_id,
            receipt_index: self.receipt_index,
            action_index: self.action_index,
            order_id: self.order_id,
        }
    }
}

impl Clone for VoteMemo {
    fn clone(&self) -> (r: Self)
        ensures
            r@ == self@,
    {
        VoteMemo {
            contract_id: self.contract_id.clone(),
            proposal_id: self.proposal_id,
            voter_id: self.voter_id.clone(),
            vote_option: self.vote_option,
            memo: clone_opt_text(&self.memo),
            extra_fields: clone_opt_text(&self.extra_fields),
            receipt_id: self.receipt_id,
            tx_hash: self.tx_hash,
            signer_id: self.signer_id.clone(),
            block_height: self.block_height,
            block_timestamp: self.block_timestamp,
            shard_id: self.shard_id,
            receipt_index: self.receipt_index,
            action_index: self.action_index,
            order_id: self.order_id,
        }
    }
}

pub open spec fn opt_vote_memo(o: Option<VoteMemo>) -> Option<VoteMemoView> {
    match o {
        Some(m) => Some(m@),
        None => None,
    }
}

/// The position of an action in the chain, as one number:
/// `(shard_id * 100_000 + receipt_index) * 1_000 + action_index`.
pub open spec fn order_id_of(shard_id: u32, receipt_index: u32, action_index: u32) -> int {
    (shard_id * 100_000 + receipt_index) * 1_000 + action_index
}

/// The memo stored for a `__memo` value: a JSON string's content, or else
/// the value's compact JSON text.
pub open spec fn memo_of(v: JsonValueView) -> Seq<char> {
    match v.string {
        Some(s) => s,
        None => v.text,
    }
}

/// The arguments that are not stored as extra fields: the vote itself, the
/// memo, and two bulky fields that are dropped.
pub open spec fn without_known_fields(
    obj: Map<Seq<char>, JsonValueView>,
) -> Map<Seq<char>, JsonValueView> {
    obj.remove("proposal_id"@).remove("vote"@).remove("__memo"@).remove("merkle_proof"@).remove(
        "v_account"@,
    )
}

/// The extra fields: the remaining arguments as a JSON object text, or
/// `None` when nothing remains.
pub open spec fn extra_fields_of(obj: Map<Seq<char>, JsonValueView>) -> Option<Seq<char>> {
    let rest = without_known_fields(obj);
    if rest.dom().is_empty() {
        None
    } else {
        Some(json_object_text(rest))
    }
}

/// Whether the arguments' entries and the voter make a vote memo: the
/// `proposal_id` and `vote` arguments are unsigned integers, and the voter is
/// a valid account id.
pub open spec fn is_vote_memo(obj: Map<Seq<char>, JsonValueView>, voter_id: Seq<char>) -> bool {
    &&& obj.contains_key("proposal_id"@)
    &&& obj["proposal_id"@].unsigned is Some
    &&& obj.contains_key("vote"@)
    &&& obj["vote"@].unsigned is Some
    &&& valid_account_id(voter_id)
}

/// The vote memo that the arguments' entries make, or `None` when they do
/// not make one. The proposal id and the vote are cut down to 32 and 8 bits.
pub open spec fn vote_memo_of_entries(
    obj: Map<Seq<char>, JsonValueView>,
    contract_id: Seq<char>,
    voter_id: Seq<char>,
    receipt_id: CryptoHash,
    tx_hash: Option<CryptoHash>,
    signer_id: Seq<char>,
    block_height: u64,
    block_timestamp: u64,
    shard_id: u32,
    receipt_index: u32,
    action_index: u32,
) -> Option<VoteMemoView> {
    if is_vote_memo(obj, voter_id) {
        Some(
            VoteMemoView {
                contract_id,
                proposal_id: obj["proposal_id"@].unsigned->0 as u32,
                voter_id,
                vote_option: obj["vote"@].unsigned->0 as u8,
                memo: if obj.contains_key("__memo"@) {
                    Some(memo_of(obj["__memo"@]))
                } else {
                    None
                },
                extra_fields: extra_fields_of(obj),
                receipt_id,
                tx_hash,
                signer_id,
                block_height,
                block_timestamp,
                shard_id,
                receipt_index,
                action_index,
                order_id: order_id_of(shard_id, receipt_index, action_index) as u64,
            },
        )
    } else {
        None
    }
}

/// The vote memo of a function call: `None` unless its arguments are a JSON
/// object whose entries make a vote memo.
pub open spec fn vote_memo_of(
    args: Seq<u8>,
    contract_id: Seq<char>,
    voter_id: Seq<char>,
    receipt_id: CryptoHash,
    tx_hash: Option<CryptoHash>,
    signer_id: Seq<char>,
    block_height: u64,
    block_timestamp: u64,
    shard_id: u32,
    receipt_index: u32,
    action_index: u32,
) -> Option<VoteMemoView> {
    match json_object_of(args) {
        Some(obj) => vote_memo_of_entries(
            obj,
            contract_id,
            voter_id,
            receipt_id,
            tx_hash,
            signer_id,
            block_height,
            block_timestamp,
            shard_id,
            receipt_index,
            action_index,
        ),
        None => None,
    }
}

/// Computes the order id of an action; it always fits in 64 bits.
pub fn order_id(shard_id: u32, receipt_index: u32, action_index: u32) -> (r: u64)
    ensures
        r == order_id_of(shard_id, receipt_index, action_index),
{
    let s: u64 = shard_id as u64;
    let ri: u64 = receipt_index as u64;
    let ai: u64 = action_index as u64;
    assert(s * 100_000 <= 0xffff_ffffu64 * 100_000) by (nonlinear_arith)
        requires
            s <= 0xffff_ffffu64,
    ;
    let t: u64 = s * 100_000 + ri;
    assert(t * 1_000 <= (0xffff_ffffu64 * 100_000 + 0xffff_ffffu64) * 1_000) by (nonlinear_arith)
        requires
            t <= 0xffff_ffffu64 * 100_000 + 0xffff_ffffu64,
    ;
    t * 1_000 + ai
}

/// Order ids follow the position of actions (shard, then receipt, then
/// action) as long as a shard has fewer than 100,000 receipts and a receipt
/// fewer than 1,000 actions; within those bounds distinct positions get
/// distinct ids.
pub proof fn lemma_order_id_follows_position(
    shard_a: u32,
    receipt_a: u32,
    action_a: u32,
    shard_b: u32,
    receipt_b: u32,
    action_b: u32,
)
    requires
        receipt_a < 100_000,
        receipt_b < 100_000,
        action_a < 1_000,
        action_b < 1_000,
    ensures
        (order_id_of(shard_a, receipt_a, action_a) < order_id_of(shard_b, receipt_b, action_b)) <==> (
        shard_a < shard_b || (shard_a == shard_b && receipt_a < receipt_b) || (shard_a == shard_b
            && receipt_a == receipt_b && action_a < action_b)),
        (order_id_of(shard_a, receipt_a, action_a) == order_id_of(shard_b, receipt_b, action_b)) <==> (
        shard_a == shard_b && receipt_a == receipt_b && action_a == action_b),
{
    let pa = receipt_a * 1_000 + action_a;
    let pb = receipt_b * 1_000 + action_b;
    assert(order_id_of(shard_a, receipt_a, action_a) == shard_a * 100_000_000 + pa) by (nonlinear_arith)
        requires
            pa == receipt_a * 1_000 + action_a,
            order_id_of(shard_a, receipt_a, action_a) == (shard_a * 100_000 + receipt_a) * 1_000 + action_a,
    ;
    assert(order_id_of(shard_b, receipt_b, action_b) == shard_b * 100_000_000 + pb) by (nonlinear_arith)
        requires
            pb == receipt_b * 1_000 + action_b,
            order_id_of(shard_b, receipt_b, action_b) == (shard_b * 100_000 + receipt_b) * 1_000 + action_b,
    ;
    assert(0 <= pa < 100_000_000 && 0 <= pb < 100_000_000) by (nonlinear_arith)
        requires
            receipt_a < 100_000,
            receipt_b < 100_000,
            action_a < 1_000,
            action_b < 1_000,
            pa == receipt_a * 1_000 + action_a,
            pb == receipt_b * 1_000 + action_b,
    ;
    assert((pa < pb) <==> (receipt_a < receipt_b || (receipt_a == receipt_b && action_a < action_b)))
        by (nonlinear_arith)
        requires
            action_a < 1_000,
            action_b < 1_000,
            pa == receipt_a * 1_000 + action_a,
            pb == receipt_b * 1_000 + action_b,
    ;
    assert((shard_a * 100_000_000 + pa < shard_b * 100_000_000 + pb) <==> (shard_a < shard_b || (
    shard_a == shard_b && pa < pb))) by (nonlinear_arith)
        requires
            0 <= pa < 100_000_000,
            0 <= pb < 100_000_000,
    ;
    assert((shard_a * 100_000_000 + pa == shard_b * 100_000_000 + pb) <==> (shard_a == shard_b && pa
        == pb)) by (nonlinear_arith)
        requires
            0 <= pa < 100_000_000,
            0 <= pb < 100_000_000,
    ;
    assert((pa == pb) <==> (receipt_a == receipt_b && action_a == action_b)) by (nonlinear_arith)
        requires
            action_a < 1_000,
            action_b < 1_000,
            pa == receipt_a * 1_000 + action_a,
            pb == receipt_b * 1_000 + action_b,
    ;
}

/// The stored extra fields hold every argument but the known ones, and none
/// of those: `proposal_id`, `vote`, `__memo`, `merkle_proof`, `v_account`.
pub proof fn lemma_extra_fields_keep_the_rest(obj: Map<Seq<char>, JsonValueView>, key: Seq<char>)
    ensures
        without_known_fields(obj).contains_key(key) <==> (obj.contains_key(key) && key
            != "proposal_id"@ && key != "vote"@ && key != "__memo"@ && key != "merkle_proof"@
            && key != "v_account"@),
        without_known_fields(obj).contains_key(key) ==> without_known_fields(obj)[key] == obj[key],
{
}

/// A string memo is stored whole, whatever its length; any other memo value
/// is stored as its JSON text; without a memo argument there is no memo.
pub proof fn lemma_memo_is_stored_whole(
    obj: Map<Seq<char>, JsonValueView>,
    contract_id: Seq<char>,
    voter_id: Seq<char>,
    receipt_id: CryptoHash,
    tx_hash: Option<CryptoHash>,
    signer_id: Seq<char>,
    block_height: u64,
    block_timestamp: u64,
    shard_id: u32,
    receipt_index: u32,
    action_index: u32,
)
    requires
        is_vote_memo(obj, voter_id),
    ensures
        ({
            let m = vote_memo_of_entries(
                obj,
                contract_id,
                voter_id,
                receipt_id,
                tx_hash,
                signer_id,
                block_height,
                block_timestamp,
                shard_id,
                receipt_index,
                action_index,
            );
            &&& m is Some
            &&& obj.contains_key("__memo"@) && obj["__memo"@].string is Some ==> m->0.memo == Some(
                obj["__memo"@].string->0,
            )
            &&& obj.contains_key("__memo"@) && obj["__memo"@].string is None ==> m->0.memo == Some(
                obj["__memo"@].text,
            )
            &&& !obj.contains_key("__memo"@) ==> m->0.memo is None
            &&& m->0.tx_hash == tx_hash
            &&& m->0.contract_id == contract_id
            &&& m->0.voter_id == voter_id
        }),
{
}

/// Parses a vote memo out of the JSON arguments of a vote call: the
/// `proposal_id` and `vote` fields are required unsigned integers, `__memo`
/// is kept as text, `merkle_proof` and `v_account` are dropped, and whatever
/// else remains is kept as a JSON object text.
pub fn parse_vote_memo(
    args: &[u8],
    contract_id: &str,
    voter_id: &str,
    receipt_id: CryptoHash,
    tx_hash: Option<CryptoHash>,
    signer_id: AccountId,
    block_height: u64,
    block_timestamp: u64,
    shard_id: u32,
    receipt_index: u32,
    action_index: u32,
) -> (r: Option<VoteMemo>)
    ensures
        opt_vote_memo(r) == vote_memo_of(
            args@,
            contract_id@,
            voter_id@,
            receipt_id,
            tx_hash,
            signer_id@,
            block_height,
            block_timestamp,
            shard_id,
            receipt_index,
            action_index,
        ),
        r is Some ==> json_object_of(args@) is Some,
        r matches Some(m) ==> (json_object_of(args@)->0.contains_key("__memo"@) && json_object_of(
            args@,
        )->0["__memo"@].string is Some ==> opt_text(m.memo) == Some(
            json_object_of(args@)->0["__memo"@].string->0,
        )),
        r matches Some(m) ==> m.tx_hash == tx_hash && m.contract_id@ == contract_id@
            && m.voter_id@ == voter_id@,
{
    match parse_json_object(args) {
        Some(obj) => vote_memo_from_object(
            obj,
            contract_id,
            voter_id,
            receipt_id,
            tx_hash,
            signer_id,
            block_height,
            block_timestamp,
            shard_id,
            receipt_index,
            action_index,
        ),
        None => None,
    }
}

/// Makes the vote memo out of the parsed arguments of a vote call (what
/// follows the parse in [`parse_vote_memo`]).
pub fn vote_memo_from_object(
    obj: JsonObject,
    contract_id: &str,
    voter_id: &str,
    receipt_id: CryptoHash,
    tx_hash: Option<CryptoHash>,
    signer_id: AccountId,
    block_height: u64,
    block_timestamp: u64,
    shard_id: u32,
    receipt_index: u32,
    action_index: u32,
) -> (r: Option<VoteMemo>)
    ensures
        opt_vote_memo(r) == vote_memo_of_entries(
            json_entries(obj),
            contract_id@,
            voter_id@,
            receipt_id,
            tx_hash,
            signer_id@,
            block_height,
            block_timestamp,
            shard_id,
            receipt_index,
            action_index,
        ),
        r matches Some(m) ==> (json_entries(obj).contains_key("__memo"@) && json_entries(
            obj,
        )["__memo"@].string is Some ==> opt_text(m.memo) == Some(
            json_entries(obj)["__memo"@].string->0,
        )),
        r matches Some(m) ==> (json_entries(obj).contains_key("__memo"@) && json_entries(
            obj,
        )["__memo"@].string is None ==> opt_text(m.memo) == Some(json_entries(obj)["__memo"@].text)),
        r matches Some(m) ==> (!json_entries(obj).contains_key("__memo"@) ==> m.memo is None),
        r matches Some(m) ==> m.proposal_id == json_entries(obj)["proposal_id"@].unsigned->0 as u32
            && m.vote_option == json_entries(obj)["vote"@].unsigned->0 as u8,
        r matches Some(m) ==> m.contract_id@ == contract_id@ && m.voter_id@ == voter_id@
            && m.signer_id@ == signer_id@ && m.receipt_id == receipt_id && m.tx_hash == tx_hash,
{
    proof {
        reveal_strlit("proposal_id");
        reveal_strlit("vote");
        reveal_strlit("__memo");
        reveal_strlit("merkle_proof");
        reveal_strlit("v_account");
        assert("proposal_id"@.len() == 11 && "vote"@.len() == 4 && "__memo"@.len() == 6);
        assert("merkle_proof"@.len() == 12 && "v_account"@.len() == 9);
    }
    let ghost entries = json_entries(obj);
    let mut obj = obj;
    let proposal_id: u32 = match remove_entry(&mut obj, "proposal_id") {
        Some(v) => match v.unsigned {
            Some(n) => #[verifier::truncate] (n as u32),
            None => return None,
        },
        None => return None,
    };
    assert(json_entries(obj) == entries.remove("proposal_id"@));
    let vote_option: u8 = match remove_entry(&mut obj, "vote") {
        Some(v) => match v.unsigned {
            Some(n) => #[verifier::truncate] (n as u8),
            None => return None,
        },
        None => return None,
    };
    assert(json_entries(obj) == entries.remove("proposal_id"@).remove("vote"@));
    let memo: Option<String> = match remove_entry(&mut obj, "__memo") {
        Some(v) => match v.string {
            Some(s) => Some(s),
            None => Some(v.text),
        },
        None => None,
    };
    let _ = remove_entry(&mut obj, "merkle_proof");
    let _ = remove_entry(&mut obj, "v_account");
    let extra_fields: Option<String> = if object_is_empty(&obj) {
        None
    } else {
        object_to_text(&obj)
    };
    let order_id = order_id(shard_id, receipt_index, action_index);
    let voter_id = match AccountId::parse(voter_id) {
        Some(a) => a,
        None => return None,
    };
    Some(
        VoteMemo {
            contract_id: String::from_str(contract_id),
            proposal_id,
            voter_id,
            vote_option,
            memo,
            extra_fields,
            receipt_id,
            tx_hash,
            signer_id,
            block_height,
            block_timestamp,
            shard_id,
            receipt_index,
            action_index,
            order_id,
        },
    )
}


/// Copies an optional text.
pub(crate) fn clone_opt_text(o: &Option<String>) -> (r: Option<String>)
    ensures
        opt_text(r) == opt_text(*o),
{
    match o {
        Some(s) => Some(s.clone()),
        None => None,
    }
}

/// The base58 text of an optional hash.
pub open spec fn opt_hash_text(h: Option<CryptoHash>) -> Option<Seq<char>> {
    match h {
        Some(h) => Some(base58_of_hash(h.0@)),
        None => None,
    }
}

/// The base58 text of an optional hash, computed.
pub(crate) fn opt_hash_to_string(h: Option<CryptoHash>) -> (r: Option<String>)
    ensures
        opt_text(r) == opt_hash_text(h),
        h matches Some(h) ==> r matches Some(t) && hash_of_base58(t@) == Some(h.0@),
{
    match h {
        Some(h) => Some(h.to_string()),
        None => None,
    }
}

/// The stored form of a vote memo, keyed by contract and proposal.
#[derive(Debug)]
pub struct VoteMemoRow {
    pub contract_id: String,
    pub proposal_id: i32,
    pub voter_id: String,
    pub vote_option: i32,
    pub memo: Option<String>,
    pub extra_fields: Option<String>,
    pub receipt_id: String,
    pub tx_hash: Option<String>,
    pub signer_id: String,
    pub block_height: i64,
    pub block_timestamp: i64,
    pub shard_id: i32,
    pub receipt_index: i32,
    pub action_index: i32,
    pub order_id: i64,
}

/// The stored form of a vote memo, keyed by voter: the same columns as
/// [`VoteMemoRow`], the voter first.
#[derive(Debug)]
pub struct VoteMemoByVoterRow {
    pub voter_id: String,
    pub contract_id: String,
    pub proposal_id: i32,
    pub vote_option: i32,
    pub memo: Option<String>,
    pub extra_fields: Option<String>,
    pub receipt_id: String,
    pub tx_hash: Option<String>,
    pub signer_id: String,
    pub block_height: i64,
    pub block_timestamp: i64,
    pub shard_id: i32,
    pub receipt_index: i32,
    pub action_index: i32,
    pub order_id: i64,
}

/// The mathematical value of the columns of a stored vote memo.
pub struct VoteMemoRowView {
    pub contract_id: Seq<char>,
    pub proposal_id: i32,
    pub voter_id: Seq<char>,
    pub vote_option: i32,
    pub memo: Option<Seq<char>>,
    pub extra_fields: Option<Seq<char>>,
    pub receipt_id: Seq<char>,
    pub tx_hash: Option<Seq<char>>,
    pub signer_id: Seq<char>,
    pub block_height: i64,
    pub block_timestamp: i64,
    pub shard_id: i32,
    pub receipt_index: i32,
    pub action_index: i32,
    pub order_id: i64,
}

impl View for VoteMemoRow {
    type V = VoteMemoRowView;

    open spec fn view(&self) -> VoteMemoRowView {
        VoteMemoRowView {
            contract_id: self.contract_id@,
            proposal_id: self.proposal_id,
            voter_id: self.voter_id@,
            vote_option: self.vote_option,
            memo: opt_text(self.memo),
            extra_fields: opt_text(self.extra_fields),
            receipt_id: self.receipt_id@,
            tx_hash: opt_text(self.tx_hash),
            signer_id: self.signer_id@,
            block_height: self.block_height,
            block_timestamp: self.block_timestamp,
            shard_id: self.shard_id,
            receipt_index: self.receipt_index,
            action_index: self.action_index,
            order_id: self.order_id,
        }
    }
}

impl View for VoteMemoByVoterRow {
    type V = VoteMemoRowView;

    open spec fn view(&self) -> VoteMemoRowView {
        VoteMemoRowView {
            contract_id: self.contract_id@,
            proposal_id: self.proposal_id,
            voter_id: self.voter_id@,
            vote_option: self.vote_option,
            memo: opt_text(self.memo),
            extra_fields: opt_text(self.extra_fields),
            receipt_id: self.receipt_id@,
            tx_hash: opt_text(self.tx_hash),
            signer_id: self.signer_id@,
            block_height: self.block_height,
            block_timestamp: self.block_timestamp,
            shard_id: self.shard_id,
            receipt_index: self.receipt_index,
            action_index: self.action_index,
            order_id: self.order_id,
        }
    }
}

/// Every column of a stored vote memo holds its own field: the texts and
/// the memo and extra fields unchanged, the hashes in base58, the numbers as
/// the signed integers of the same bits (so they read back unchanged).
pub proof fn lemma_vote_memo_row_columns(m: VoteMemoView)
    ensures
        vote_memo_row_of(m).contract_id == m.contract_id,
        vote_memo_row_of(m).voter_id == m.voter_id,
        vote_memo_row_of(m).signer_id == m.signer_id,
        vote_memo_row_of(m).memo == m.memo,
        vote_memo_row_of(m).extra_fields == m.extra_fields,
        vote_memo_row_of(m).receipt_id == base58_of_hash(m.receipt_id.0@),
        vote_memo_row_of(m).tx_hash == opt_hash_text(m.tx_hash),
        vote_memo_row_of(m).proposal_id as u32 == m.proposal_id,
        vote_memo_row_of(m).vote_option == m.vote_option as int,
        vote_memo_row_of(m).block_height as u64 == m.block_height,
        vote_memo_row_of(m).block_timestamp as u64 == m.block_timestamp,
        vote_memo_row_of(m).shard_id as u32 == m.shard_id,
        vote_memo_row_of(m).receipt_index as u32 == m.receipt_index,
        vote_memo_row_of(m).action_index as u32 == m.action_index,
        vote_memo_row_of(m).order_id as u64 == m.order_id,
{
    let (p, h, t, sh, ri, ai, o) = (
        m.proposal_id,
        m.block_height,
        m.block_timestamp,
        m.shard_id,
        m.receipt_index,
        m.action_index,
        m.order_id,
    );
    assert((p as i32) as u32 == p) by (bit_vector);
    assert((h as i64) as u64 == h) by (bit_vector);
    assert((t as i64) as u64 == t) by (bit_vector);
    assert((sh as i32) as u32 == sh) by (bit_vector);
    assert((ri as i32) as u32 == ri) by (bit_vector);
    assert((ai as i32) as u32 == ai) by (bit_vector);
    assert((o as i64) as u64 == o) by (bit_vector);
}

/// The columns stored for a vote memo: hashes and account ids as text, the
/// numbers reinterpreted as the signed integers of the same width.
pub open spec fn vote_memo_row_of(m: VoteMemoView) -> VoteMemoRowView {
    VoteMemoRowView {
        contract_id: m.contract_id,
        proposal_id: m.proposal_id as i32,
        voter_id: m.voter_id,
        vote_option: m.vote_option as i32,
        memo: m.memo,
        extra_fields: m.extra_fields,
        receipt_id: base58_of_hash(m.receipt_id.0@),
        tx_hash: opt_hash_text(m.tx_hash),
        signer_id: m.signer_id,
        block_height: m.block_height as i64,
        block_timestamp: m.block_timestamp as i64,
        shard_id: m.shard_id as i32,
        receipt_index: m.receipt_index as i32,
        action_index: m.action_index as i32,
        order_id: m.order_id as i64,
    }
}

impl VoteMemoRow {
    /// The row stored for a vote memo.
    pub fn from(data: VoteMemo) -> (r: VoteMemoRow)
        ensures
            r@ == vote_memo_row_of(data@),
            r.contract_id@ == data.contract_id@,
            r.proposal_id == data.proposal_id as i32,
            r.voter_id@ == data.voter_id@,
            r.vote_option == data.vote_option as i32,
            opt_text(r.memo) == opt_text(data.memo),
            opt_text(r.extra_fields) == opt_text(data.extra_fields),
            r.receipt_id@ == base58_of_hash(data.receipt_id.0@),
            opt_text(r.tx_hash) == opt_hash_text(data.tx_hash),
            r.signer_id@ == data.signer_id@,
            r.block_height == data.block_height as i64,
            r.block_timestamp == data.block_timestamp as i64,
            r.shard_id == data.shard_id as i32,
            r.receipt_index == data.receipt_index as i32,
            r.action_index == data.action_index as i32,
            r.order_id == data.order_id as i64,
    {
        VoteMemoRow {
            contract_id: data.contract_id,
            proposal_id: #[verifier::truncate] (data.proposal_id as i32),
            voter_id: data.voter_id.to_string(),
            vote_option: data.vote_option as i32,
            memo: data.memo,
            extra_fields: data.extra_fields,
            receipt_id: data.receipt_id.to_string(),
            tx_hash: opt_hash_to_string(data.tx_hash),
            signer_id: data.signer_id.to_string(),
            block_height: #[verifier::truncate] (data.block_height as i64),
            block_timestamp: #[verifier::truncate] (data.block_timestamp as i64),
            shard_id: #[verifier::truncate] (data.shard_id as i32),
            receipt_index: #[verifier::truncate] (data.receipt_index as i32),
            action_index: #[verifier::truncate] (data.action_index as i32),
            order_id: #[verifier::truncate] (data.order_id as i64),
        }
    }
}

impl Clone for VoteMemoRow {
    fn clone(&self) -> (r: Self)
        ensures
            r@ == self@,
    {
        VoteMemoRow {
            contract_id: self.contract_id.clone(),
            proposal_id: self.proposal_id,
            voter_id: self.voter_id.clone(),
            vote_option: self.vote_option,
            memo: clone_opt_text(&self.memo),
            extra_fields: clone_opt_text(&self.extra_fields),
            receipt_id: self.receipt_id.clone(),
            tx_hash: clone_opt_text(&self.tx_hash),
            signer_id: self.signer_id.clone(),
            block_height: self.block_height,
            block_timestamp: self.block_timestamp,
            shard_id: self.shard_id,
            receipt_index: self.receipt_index,
            action_index: self.action_index,
            order_id: self.order_id,
        }
    }
}

impl VoteMemoByVoterRow {
    /// The same columns, laid out for the by-voter table.
    pub fn from(row: VoteMemoRow) -> (r: VoteMemoByVoterRow)
        ensures
            r@ == row@,
    {
        VoteMemoByVoterRow {
            voter_id: row.voter_id,
            contract_id: row.contract_id,
            proposal_id: row.proposal_id,
            vote_option: row.vote_option,
            memo: row.memo,
            extra_fields: row.extra_fields,
            receipt_id: row.receipt_id,
            tx_hash: row.tx_hash,
            signer_id: row.signer_id,
            block_height: row.block_height,
            block_timestamp: row.block_timestamp,
            shard_id: row.shard_id,
            receipt_index: row.receipt_index,
            action_index: row.action_index,
            order_id: row.order_id,
        }
    }
}

} // verus!
