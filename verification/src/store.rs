//! The values that the fast data store binds to its statements: the
//! keyspace of a chain, progress rows, and range query parameters.

use vstd::prelude::*;
use crate::chain::ChainId;

verus! {

/// The keyspace that holds a chain's data: `fastdata_` and the chain's name.
pub fn keyspace_name(chain_id: ChainId) -> (r: String)
    ensures
        r@ == "fastdata_"@ + chain_id.name_of(),
{
    let name = chain_id.to_string();
    String::from_str("fastdata_").concat(name.as_str())
}

/// The keyspace's replication settings, after its name.
pub const KEYSPACE_REPLICATION: &'static str = "
                    WITH REPLICATION = {
                        'class': 'NetworkTopologyStrategy',
                        'dc1': 3
                    } AND TABLETS = {'enabled': true};";

/// The statement that creates a chain's keyspace when it is missing.
pub fn create_keyspace_query(chain_id: ChainId) -> (r: String)
    ensures
        r@ == "CREATE KEYSPACE IF NOT EXISTS "@ + "fastdata_"@ + chain_id.name_of() + KEYSPACE_REPLICATION@,
{
    let keyspace = keyspace_name(chain_id);
    String::from_str("CREATE KEYSPACE IF NOT EXISTS ").concat(keyspace.as_str()).concat(KEYSPACE_REPLICATION)
}

/// A row of the `meta` table: the last block height processed under a suffix.
#[derive(Debug)]
pub struct LastProcessedRow {
    pub suffix: String,
    pub last_processed_block_height: i64,
}

/// The mathematical value of a [`LastProcessedRow`].
pub struct LastProcessedRowView {
    pub suffix: Seq<char>,
    pub last_processed_block_height: i64,
}

impl View for LastProcessedRow {
    type V = LastProcessedRowView;

    open spec fn view(&self) -> LastProcessedRowView {
        LastProcessedRowView {
            suffix: self.suffix@,
            last_processed_block_height: self.last_processed_block_height,
        }
    }
}

/// The progress row for a suffix; the height is stored as the signed
/// integer of the same 64 bits.
pub fn last_processed_row(suffix: &str, last_processed_block_height: u64) -> (r: LastProcessedRow)
    ensures
        r.suffix@ == suffix@,
        r.last_processed_block_height == last_processed_block_height as i64,
{
    LastProcessedRow {
        suffix: String::from_str(suffix),
        last_processed_block_height: #[verifier::truncate] (last_processed_block_height as i64),
    }
}

/// The height read back from the progress column, when a row was found.
pub fn last_processed_height_of(stored: Option<i64>) -> (r: Option<u64>)
    ensures
        match stored {
            Some(v) => r == Some(v as u64),
            None => r is None,
        },
{
    match stored {
        Some(v) => Some(#[verifier::truncate] (v as u64)),
        None => None,
    }
}

/// Writing a height and reading it back gives the same height.
pub proof fn lemma_height_round_trip(height: u64)
    ensures
        (height as i64) as u64 == height,
{
    assert((height as i64) as u64 == height) by (bit_vector);
}

/// The parameters of the range query for a suffix: the suffix and the two
/// inclusive bounds, stored as signed integers.
pub fn suffix_range_params(suffix: &str, from_block_height: u64, to_block_height: u64) -> (r: (
    String,
    i64,
    i64,
))
    ensures
        r.0@ == suffix@,
        r.1 == from_block_height as i64,
        r.2 == to_block_height as i64,
{
    (
        String::from_str(suffix),
        #[verifier::truncate] (from_block_height as i64),
        #[verifier::truncate] (to_block_height as i64),
    )
}

} // verus!
