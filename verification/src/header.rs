//! Header chaining: the next block's header, derived from the current tip.
//!
//! A header depends on its parent's height and hash and on the time it was
//! made, and on nothing else: the operations a block carries never enter it.

use crate::chain::{BlockHeader, BlockSnapshot};
use crate::digest::{sha256, sha256_digest};
use crate::operations::BurnchainHeaderHash;
use vstd::prelude::*;

verus! {

/// Whether `header` is the header that follows `current` when made at
/// `timestamp`: one higher, chained to `current`'s hash, its own hash the
/// SHA-256 digest of that hash, and with no transactions of its own.
pub open spec fn is_next_header(
    header: BlockHeader,
    current: BlockSnapshot,
    timestamp: u64,
) -> bool {
    &&& header.block_height == current.block_height + 1
    &&& header.block_hash@ == sha256(current.burn_header_hash@)
    &&& header.parent_block_hash == current.burn_header_hash
    &&& header.num_txs == 0
    &&& header.timestamp == timestamp
}

/// Builds the header of the block that stands on `current_block` and
/// hashes to `block_hash`, stamped with `timestamp`.
pub fn chain_header(
    current_block: &BlockSnapshot,
    block_hash: BurnchainHeaderHash,
    timestamp: u64,
) -> (header: BlockHeader)
    requires
        current_block.block_height < u64::MAX,
    ensures
        header == (BlockHeader {
            block_height: (current_block.block_height + 1) as u64,
            block_hash,
            parent_block_hash: current_block.burn_header_hash,
            num_txs: 0,
            timestamp,
        }),
{
    BlockHeader {
        block_height: current_block.block_height + 1,
        block_hash,
        parent_block_hash: current_block.burn_header_hash,
        num_txs: 0,
        timestamp,
    }
}

/// Builds the header that follows `current_block`, stamped with `timestamp`.
pub fn next_block_header(current_block: &BlockSnapshot, timestamp: u64) -> (header: BlockHeader)
    requires
        current_block.block_height < u64::MAX,
    ensures
        is_next_header(header, *current_block, timestamp),
{
    let next_hash = sha256_digest(current_block.burn_header_hash.as_slice());
    chain_header(current_block, next_hash, timestamp)
}

/// A tip and a time determine the next header: two headers that both follow
/// `current` at `timestamp` are the same header, and each stands exactly one
/// above `current`.
pub proof fn lemma_next_header_unique(
    first: BlockHeader,
    second: BlockHeader,
    current: BlockSnapshot,
    timestamp: u64,
)
    requires
        is_next_header(first, current, timestamp),
        is_next_header(second, current, timestamp),
    ensures
        first == second,
        first.block_height == current.block_height + 1,
{
    assert(first.block_hash =~= second.block_hash);
}

/// The next header's height, hash and parent depend only on the current
/// tip's height and header hash: two tips that agree on those, whatever else
/// they hold and whenever the headers are made, give headers that agree on
/// all three.
pub proof fn lemma_next_header_ignores_the_rest(
    first: BlockHeader,
    second: BlockHeader,
    current: BlockSnapshot,
    other: BlockSnapshot,
    first_time: u64,
    second_time: u64,
)
    requires
        is_next_header(first, current, first_time),
        is_next_header(second, other, second_time),
        current.block_height == other.block_height,
        current.burn_header_hash == other.burn_header_hash,
    ensures
        first.block_height == second.block_height,
        first.block_hash == second.block_hash,
        first.parent_block_hash == second.parent_block_hash,
{
    assert(first.block_hash =~= second.block_hash);
}

} // verus!
