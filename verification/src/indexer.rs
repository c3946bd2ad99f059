//! What the memo indexer does with each block: which function calls it
//! reads, the vote memos it finds in them, and when it records progress.

use vstd::prelude::*;
use crate::chain::{AccountId, CryptoHash};
use crate::vote_memo::{VoteMemo, VoteMemoView, parse_vote_memo, vote_memo_of};

verus! {

/// An action of a receipt, as far as the indexer reads it.
#[derive(Debug)]
pub enum ActionData {
    FunctionCall { method_name: String, args: Vec<u8> },
    Other,
}

/// The body of a receipt, as far as the indexer reads it.
#[derive(Debug)]
pub enum ReceiptKind {
    Action { signer_id: AccountId, actions: Vec<ActionData> },
    Other,
}

/// An executed receipt of a block.
#[derive(Debug)]
pub struct ReceiptData {
    pub receipt_id: CryptoHash,
    pub predecessor_id: AccountId,
    pub receiver_id: AccountId,
    pub tx_hash: Option<CryptoHash>,
    pub receipt: ReceiptKind,
}

/// A shard of a block with its executed receipts, in order.
#[derive(Debug)]
pub struct ShardData {
    pub shard_id: u64,
    pub receipts: Vec<ReceiptData>,
}

/// A block: its height, its timestamp and its shards, in order.
#[derive(Debug)]
pub struct BlockData {
    pub height: u64,
    pub timestamp: u64,
    pub shards: Vec<ShardData>,
}

pub open spec fn memo_views(memos: Seq<VoteMemo>) -> Seq<VoteMemoView> {
    memos.map_values(|m: VoteMemo| m@)
}

/// Whether a text is one of the listed ones.
pub open spec fn is_listed(list: Seq<String>, text: Seq<char>) -> bool {
    exists|i: int| 0 <= i < list.len() && #[trigger] list[i]@ == text
}

/// The vote memo of one action, if it is a call of the vote method whose
/// arguments make one. The shard id and the positions are cut to 32 bits.
pub open spec fn action_memo(
    block: BlockData,
    shard: ShardData,
    receipt: ReceiptData,
    receipt_index: int,
    signer_id: AccountId,
    action: ActionData,
    action_index: int,
    method: Seq<char>,
) -> Option<VoteMemoView> {
    match action {
        ActionData::FunctionCall { method_name, args } => if method_name@ == method {
            vote_memo_of(
                args@,
                receipt.receiver_id@,
                receipt.predecessor_id@,
                receipt.receipt_id,
                receipt.tx_hash,
                signer_id@,
                block.height,
                block.timestamp,
                shard.shard_id as u32,
                receipt_index as u32,
                action_index as u32,
            )
        } else {
            None
        },
        ActionData::Other => None,
    }
}

/// The vote memos of the first `n` actions of a receipt, in order.
pub open spec fn actions_memos(
    block: BlockData,
    shard: ShardData,
    receipt: ReceiptData,
    receipt_index: int,
    signer_id: AccountId,
    actions: Seq<ActionData>,
    method: Seq<char>,
    n: nat,
) -> Seq<VoteMemoView>
    decreases n,
{
    if n == 0 {
        seq![]
    } else {
        let earlier = actions_memos(block, shard, receipt, receipt_index, signer_id, actions, method, (n - 1) as nat);
        match action_memo(block, shard, receipt, receipt_index, signer_id, actions[n - 1], n - 1, method) {
            Some(m) => earlier.push(m),
            None => earlier,
        }
    }
}

/// The vote memos of a receipt: none unless it is an action receipt sent to
/// one of the vote contracts.
pub open spec fn receipt_memos(
    block: BlockData,
    shard: ShardData,
    receipt: ReceiptData,
    receipt_index: int,
    contracts: Seq<String>,
    method: Seq<char>,
) -> Seq<VoteMemoView> {
    if !is_listed(contracts, receipt.receiver_id@) {
        seq![]
    } else {
        match receipt.receipt {
            ReceiptKind::Action { signer_id, actions } => actions_memos(
                block,
                shard,
                receipt,
                receipt_index,
                signer_id,
                actions@,
                method,
                actions@.len(),
            ),
            ReceiptKind::Other => seq![],
        }
    }
}

/// The vote memos of the first `n` receipts of a shard, in order.
pub open spec fn receipts_memos(
    block: BlockData,
    shard: ShardData,
    contracts: Seq<String>,
    method: Seq<char>,
    n: nat,
) -> Seq<VoteMemoView>
    decreases n,
{
    if n == 0 {
        seq![]
    } else {
        receipts_memos(block, shard, contracts, method, (n - 1) as nat) + receipt_memos(
            block,
            shard,
            shard.receipts@[n - 1],
            n - 1,
            contracts,
            method,
        )
    }
}

/// The vote memos of the first `n` shards of a block, in order.
pub open spec fn shards_memos(
    block: BlockData,
    contracts: Seq<String>,
    method: Seq<char>,
    n: nat,
) -> Seq<VoteMemoView>
    decreases n,
{
    if n == 0 {
        seq![]
    } else {
        let shard = block.shards@[n - 1];
        shards_memos(block, contracts, method, (n - 1) as nat) + receipts_memos(
            block,
            shard,
            contracts,
            method,
            shard.receipts@.len(),
        )
    }
}

/// The vote memos of a block, in block order.
pub open spec fn block_memos(block: BlockData, contracts: Seq<String>, method: Seq<char>) -> Seq<
    VoteMemoView,
> {
    shards_memos(block, contracts, method, block.shards@.len())
}

proof fn lemma_actions_memos_contract(
    block: BlockData,
    shard: ShardData,
    receipt: ReceiptData,
    receipt_index: int,
    signer_id: AccountId,
    actions: Seq<ActionData>,
    method: Seq<char>,
    n: nat,
)
    ensures
        forall|i: int|
            0 <= i < actions_memos(block, shard, receipt, receipt_index, signer_id, actions, method, n).len()
                ==> (#[trigger] actions_memos(block, shard, receipt, receipt_index, signer_id, actions, method, n)[i]).contract_id
                == receipt.receiver_id@,
    decreases n,
{
    if n > 0 {
        lemma_actions_memos_contract(block, shard, receipt, receipt_index, signer_id, actions, method, (n - 1) as nat);
    }
}

proof fn lemma_receipts_memos_listed(
    block: BlockData,
    shard: ShardData,
    contracts: Seq<String>,
    method: Seq<char>,
    n: nat,
)
    requires
        n <= shard.receipts@.len(),
    ensures
        forall|i: int|
            0 <= i < receipts_memos(block, shard, contracts, method, n).len() ==> is_listed(
                contracts,
                (#[trigger] receipts_memos(block, shard, contracts, method, n)[i]).contract_id,
            ),
    decreases n,
{
    if n > 0 {
        lemma_receipts_memos_listed(block, shard, contracts, method, (n - 1) as nat);
        let receipt = shard.receipts@[n - 1];
        let earlier = receipts_memos(block, shard, contracts, method, (n - 1) as nat);
        let last = receipt_memos(block, shard, receipt, n - 1, contracts, method);
        if is_listed(contracts, receipt.receiver_id@) {
            match receipt.receipt {
                ReceiptKind::Action { signer_id, actions } => {
                    lemma_actions_memos_contract(block, shard, receipt, n - 1, signer_id, actions@, method, actions@.len());
                },
                ReceiptKind::Other => {},
            }
        }
        assert forall|i: int| 0 <= i < (earlier + last).len() implies is_listed(
            contracts,
            #[trigger] (earlier + last)[i].contract_id,
        ) by {
            if i >= earlier.len() {
                assert(last[i - earlier.len()] == (earlier + last)[i]);
            } else {
                assert(earlier[i] == (earlier + last)[i]);
            }
        }
    }
}

proof fn lemma_shards_memos_listed(block: BlockData, contracts: Seq<String>, method: Seq<char>, n: nat)
    requires
        n <= block.shards@.len(),
    ensures
        forall|i: int|
            0 <= i < shards_memos(block, contracts, method, n).len() ==> is_listed(
                contracts,
                (#[trigger] shards_memos(block, contracts, method, n)[i]).contract_id,
            ),
    decreases n,
{
    if n > 0 {
        lemma_shards_memos_listed(block, contracts, method, (n - 1) as nat);
        let shard = block.shards@[n - 1];
        lemma_receipts_memos_listed(block, shard, contracts, method, shard.receipts@.len());
        let earlier = shards_memos(block, contracts, method, (n - 1) as nat);
        let last = receipts_memos(block, shard, contracts, method, shard.receipts@.len());
        assert forall|i: int| 0 <= i < (earlier + last).len() implies is_listed(
            contracts,
            #[trigger] (earlier + last)[i].contract_id,
        ) by {
            if i >= earlier.len() {
                assert(last[i - earlier.len()] == (earlier + last)[i]);
            } else {
                assert(earlier[i] == (earlier + last)[i]);
            }
        }
    }
}

/// Only the listed vote contracts are indexed: every vote memo found in a
/// block belongs to one of them.
pub proof fn lemma_block_memos_are_on_listed_contracts(
    block: BlockData,
    contracts: Seq<String>,
    method: Seq<char>,
)
    ensures
        forall|i: int|
            0 <= i < block_memos(block, contracts, method).len() ==> is_listed(
                contracts,
                (#[trigger] block_memos(block, contracts, method)[i]).contract_id,
            ),
{
    lemma_shards_memos_listed(block, contracts, method, block.shards@.len());
}

/// The vote memo of the call at action `a` of receipt `ri` of shard `s`,
/// read straight off the block: the receipt is sent to a listed contract, is
/// an action receipt, and the action calls the vote method with arguments
/// that make a vote memo. The receipt's transaction hash, whatever it is,
/// is only copied into the memo.
pub open spec fn vote_call_memo(
    block: BlockData,
    contracts: Seq<String>,
    method: Seq<char>,
    s: int,
    ri: int,
    a: int,
) -> Option<VoteMemoView> {
    if 0 <= s < block.shards@.len() && 0 <= ri < block.shards@[s].receipts@.len() {
        let shard = block.shards@[s];
        let receipt = shard.receipts@[ri];
        if is_listed(contracts, receipt.receiver_id@) {
            match receipt.receipt {
                ReceiptKind::Action { signer_id, actions } => if 0 <= a < actions@.len() {
                    match actions@[a] {
                        ActionData::FunctionCall { method_name, args } => if method_name@ == method {
                            vote_memo_of(
                                args@,
                                receipt.receiver_id@,
                                receipt.predecessor_id@,
                                receipt.receipt_id,
                                receipt.tx_hash,
                                signer_id@,
                                block.height,
                                block.timestamp,
                                shard.shard_id as u32,
                                ri as u32,
                                a as u32,
                            )
                        } else {
                            None
                        },
                        ActionData::Other => None,
                    }
                } else {
                    None
                },
                ReceiptKind::Other => None,
            }
        } else {
            None
        }
    } else {
        None
    }
}

proof fn lemma_actions_memos_hold_each_call(
    block: BlockData,
    shard: ShardData,
    receipt: ReceiptData,
    receipt_index: int,
    signer_id: AccountId,
    actions: Seq<ActionData>,
    method: Seq<char>,
    n: nat,
    a: int,
)
    requires
        0 <= a < n,
        action_memo(block, shard, receipt, receipt_index, signer_id, actions[a], a, method) is Some,
    ensures
        actions_memos(block, shard, receipt, receipt_index, signer_id, actions, method, n).contains(
            action_memo(block, shard, receipt, receipt_index, signer_id, actions[a], a, method)->0,
        ),
    decreases n,
{
    let m = action_memo(block, shard, receipt, receipt_index, signer_id, actions[a], a, method)->0;
    let earlier = actions_memos(block, shard, receipt, receipt_index, signer_id, actions, method, (n - 1) as nat);
    let all = actions_memos(block, shard, receipt, receipt_index, signer_id, actions, method, n);
    if a == n - 1 {
        assert(all == earlier.push(m));
        assert(all[earlier.len() as int] == m);
    } else {
        lemma_actions_memos_hold_each_call(block, shard, receipt, receipt_index, signer_id, actions, method, (n - 1) as nat, a);
        let i = choose|i: int| 0 <= i < earlier.len() && earlier[i] == m;
        assert(all[i] == m);
    }
}

proof fn lemma_receipts_memos_hold_each_receipt(
    block: BlockData,
    shard: ShardData,
    contracts: Seq<String>,
    method: Seq<char>,
    n: nat,
    ri: int,
    m: VoteMemoView,
)
    requires
        0 <= ri < n <= shard.receipts@.len(),
        receipt_memos(block, shard, shard.receipts@[ri], ri, contracts, method).contains(m),
    ensures
        receipts_memos(block, shard, contracts, method, n).contains(m),
    decreases n,
{
    let earlier = receipts_memos(block, shard, contracts, method, (n - 1) as nat);
    let last = receipt_memos(block, shard, shard.receipts@[n - 1], n - 1, contracts, method);
    let all = receipts_memos(block, shard, contracts, method, n);
    assert(all == earlier + last);
    if ri == n - 1 {
        let i = choose|i: int| 0 <= i < last.len() && last[i] == m;
        assert(all[earlier.len() + i] == m);
    } else {
        lemma_receipts_memos_hold_each_receipt(block, shard, contracts, method, (n - 1) as nat, ri, m);
        let i = choose|i: int| 0 <= i < earlier.len() && earlier[i] == m;
        assert(all[i] == m);
    }
}

proof fn lemma_shards_memos_hold_each_shard(
    block: BlockData,
    contracts: Seq<String>,
    method: Seq<char>,
    n: nat,
    s: int,
    m: VoteMemoView,
)
    requires
        0 <= s < n <= block.shards@.len(),
        receipts_memos(
            block,
            block.shards@[s],
            contracts,
            method,
            block.shards@[s].receipts@.len(),
        ).contains(m),
    ensures
        shards_memos(block, contracts, method, n).contains(m),
    decreases n,
{
    let shard = block.shards@[n - 1];
    let earlier = shards_memos(block, contracts, method, (n - 1) as nat);
    let last = receipts_memos(block, shard, contracts, method, shard.receipts@.len());
    let all = shards_memos(block, contracts, method, n);
    assert(all == earlier + last);
    if s == n - 1 {
        let i = choose|i: int| 0 <= i < last.len() && last[i] == m;
        assert(all[earlier.len() + i] == m);
    } else {
        lemma_shards_memos_hold_each_shard(block, contracts, method, (n - 1) as nat, s, m);
        let i = choose|i: int| 0 <= i < earlier.len() && earlier[i] == m;
        assert(all[i] == m);
    }
}

/// Every vote call of a block yields its memo: a call of the vote method,
/// in an action receipt sent to a listed contract, whose arguments make a
/// vote memo, is among the block's memos, whether or not its receipt
/// carries a transaction hash.
pub proof fn lemma_block_memos_hold_every_vote_call(
    block: BlockData,
    contracts: Seq<String>,
    method: Seq<char>,
    s: int,
    ri: int,
    a: int,
)
    requires
        vote_call_memo(block, contracts, method, s, ri, a) is Some,
    ensures
        block_memos(block, contracts, method).contains(vote_call_memo(block, contracts, method, s, ri, a)->0),
{
    let m = vote_call_memo(block, contracts, method, s, ri, a)->0;
    let shard = block.shards@[s];
    let receipt = shard.receipts@[ri];
    match receipt.receipt {
        ReceiptKind::Action { signer_id, actions } => {
            assert(action_memo(block, shard, receipt, ri, signer_id, actions@[a], a, method) == Some(m));
            lemma_actions_memos_hold_each_call(block, shard, receipt, ri, signer_id, actions@, method, actions@.len(), a);
            assert(receipt_memos(block, shard, receipt, ri, contracts, method) == actions_memos(
                block, shard, receipt, ri, signer_id, actions@, method, actions@.len()));
        },
        ReceiptKind::Other => {},
    }
    lemma_receipts_memos_hold_each_receipt(block, shard, contracts, method, shard.receipts@.len(), ri, m);
    lemma_shards_memos_hold_each_shard(block, contracts, method, block.shards@.len(), s, m);
}

/// Whether a text is in the list.
pub fn is_listed_text(list: &Vec<String>, text: &String) -> (r: bool)
    ensures
        r == is_listed(list@, text@),
{
    let mut i: usize = 0;
    while i < list.len()
        invariant
            i <= list@.len(),
            forall|k: int| 0 <= k < i ==> (#[trigger] list@[k])@ != text@,
        decreases list@.len() - i,
    {
        if list[i] == *text {
            return true;
        }
        i = i + 1;
    }
    false
}

/// Finds the vote memos of one action receipt, appending them to `out`.
fn collect_receipt_memos(
    block: &BlockData,
    shard: &ShardData,
    receipt: &ReceiptData,
    receipt_index: usize,
    signer_id: &AccountId,
    actions: &Vec<ActionData>,
    method: &String,
    out: &mut Vec<VoteMemo>,
)
    requires
        receipt_index < shard.receipts@.len(),
    ensures
        memo_views(final(out)@) == memo_views(old(out)@) + actions_memos(
            *block,
            *shard,
            *receipt,
            receipt_index as int,
            *signer_id,
            actions@,
            method@,
            actions@.len(),
        ),
{
    let ghost start = memo_views(out@);
    let n = actions.len();
    let mut a: usize = 0;
    while a < n
        invariant
            n == actions@.len(),
            a <= n,
            memo_views(out@) == start + actions_memos(
                *block,
                *shard,
                *receipt,
                receipt_index as int,
                *signer_id,
                actions@,
                method@,
                a as nat,
            ),
        decreases n - a,
    {
        let ghost before = out@;
        match &actions[a] {
            ActionData::FunctionCall { method_name, args } => {
                if *method_name == *method {
                    let found = parse_vote_memo(
                        args.as_slice(),
                        receipt.receiver_id.as_str(),
                        receipt.predecessor_id.as_str(),
                        receipt.receipt_id,
                        receipt.tx_hash,
                        signer_id.clone(),
                        block.height,
                        block.timestamp,
                        #[verifier::truncate] (shard.shard_id as u32),
                        #[verifier::truncate] (receipt_index as u32),
                        #[verifier::truncate] (a as u32),
                    );
                    match found {
                        Some(m) => {
                            out.push(m);
                            assert(memo_views(out@) =~= memo_views(before).push(out@[before.len() as int]@));
                        },
                        None => {},
                    }
                }
            },
            ActionData::Other => {},
        }
        a = a + 1;
    }
}


/// The vote memos of a block: every call of the vote method, in an action
/// receipt sent to one of the vote contracts, whose arguments make a vote
/// memo; in block order (shard, receipt, action).
pub fn collect_vote_memos(block: &BlockData, vote_contract_ids: &Vec<String>, vote_method_name: &String) -> (r: Vec<VoteMemo>)
    ensures
        memo_views(r@) == block_memos(*block, vote_contract_ids@, vote_method_name@),
        forall|s: int, ri: int, a: int|
            #[trigger] vote_call_memo(*block, vote_contract_ids@, vote_method_name@, s, ri, a) is Some
                ==> memo_views(r@).contains(
                vote_call_memo(*block, vote_contract_ids@, vote_method_name@, s, ri, a)->0,
            ),
        forall|i: int|
            0 <= i < r@.len() ==> is_listed(vote_contract_ids@, (#[trigger] r@[i]).contract_id@),
{
    let mut out: Vec<VoteMemo> = Vec::new();
    let ns = block.shards.len();
    let mut s: usize = 0;
    assert(memo_views(out@) =~= shards_memos(*block, vote_contract_ids@, vote_method_name@, 0));
    while s < ns
        invariant
            ns == block.shards@.len(),
            s <= ns,
            memo_views(out@) == shards_memos(*block, vote_contract_ids@, vote_method_name@, s as nat),
        decreases ns - s,
    {
        let shard = &block.shards[s];
        let ghost shard_start = memo_views(out@);
        let nr = shard.receipts.len();
        let mut r: usize = 0;
        assert(shard_start =~= shard_start + receipts_memos(
            *block,
            *shard,
            vote_contract_ids@,
            vote_method_name@,
            0,
        ));
        while r < nr
            invariant
                ns == block.shards@.len(),
                s < ns,
                *shard == block.shards@[s as int],
                nr == shard.receipts@.len(),
                r <= nr,
                memo_views(out@) == shard_start + receipts_memos(
                    *block,
                    *shard,
                    vote_contract_ids@,
                    vote_method_name@,
                    r as nat,
                ),
            decreases nr - r,
        {
            let receipt = &shard.receipts[r];
            let ghost receipt_start = memo_views(out@);
            let receiver = receipt.receiver_id.to_string();
            if is_listed_text(vote_contract_ids, &receiver) {
                match &receipt.receipt {
                    ReceiptKind::Action { signer_id, actions } => {
                        collect_receipt_memos(
                            block,
                            shard,
                            receipt,
                            r,
                            signer_id,
                            actions,
                            vote_method_name,
                            &mut out,
                        );
                    },
                    ReceiptKind::Other => {},
                }
            }
            proof {
                assert(memo_views(out@) =~= receipt_start + receipt_memos(
                    *block,
                    *shard,
                    *receipt,
                    r as int,
                    vote_contract_ids@,
                    vote_method_name@,
                ));
                assert(receipts_memos(*block, *shard, vote_contract_ids@, vote_method_name@, (r + 1) as nat)
                    == receipts_memos(*block, *shard, vote_contract_ids@, vote_method_name@, r as nat)
                    + receipt_memos(*block, *shard, *receipt, r as int, vote_contract_ids@, vote_method_name@));
                assert(memo_views(out@) =~= shard_start + receipts_memos(
                    *block,
                    *shard,
                    vote_contract_ids@,
                    vote_method_name@,
                    (r + 1) as nat,
                ));
            }
            r = r + 1;
        }
        s = s + 1;
    }
    proof {
        assert forall|s: int, ri: int, a: int|
            #[trigger] vote_call_memo(*block, vote_contract_ids@, vote_method_name@, s, ri, a) is Some
            implies memo_views(out@).contains(
            vote_call_memo(*block, vote_contract_ids@, vote_method_name@, s, ri, a)->0,
        ) by {
            lemma_block_memos_hold_every_vote_call(*block, vote_contract_ids@, vote_method_name@, s, ri, a);
        }
        lemma_block_memos_are_on_listed_contracts(*block, vote_contract_ids@, vote_method_name@);
        assert forall|i: int| 0 <= i < out@.len() implies is_listed(
            vote_contract_ids@,
            (#[trigger] out@[i]).contract_id@,
        ) by {
            assert(memo_views(out@)[i] == out@[i]@);
        }
    }
    out
}

} // verus!
