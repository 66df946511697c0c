//! Operation stamping: the queued operations become the new block's
//! operations, in the order they were submitted.

use crate::chain::BlockHeader;
use crate::operations::{PendingOperation, StampedOperation};
use crate::txid::{derive_txid, txid_bytes, Txid};
use std::collections::VecDeque;
use vstd::prelude::*;

verus! {

/// Whether `stamped` is `op` as the block under `header` carries it at the
/// 1-based position `position`: the payload untouched, the identifier
/// derived from the block's height and the position, and the block's height
/// and hash attached.
pub open spec fn is_stamped(
    stamped: StampedOperation,
    op: PendingOperation,
    header: BlockHeader,
    position: int,
) -> bool {
    &&& 1 <= position <= u32::MAX
    &&& stamped.payload == op
    &&& stamped.txid@ == txid_bytes(header.block_height, position as u32)
    &&& stamped.vtxindex == position
    &&& stamped.block_height == header.block_height
    &&& stamped.burn_header_hash == header.block_hash
}

/// Whether `stamped` is the whole of `queue` as the block under `header`
/// carries it: every operation, none twice, in queue order, the first at
/// position 1.
pub open spec fn is_stamping(
    stamped: Seq<StampedOperation>,
    queue: Seq<PendingOperation>,
    header: BlockHeader,
) -> bool {
    &&& stamped.len() == queue.len()
    &&& forall|i: int|
        0 <= i < queue.len() ==> is_stamped(#[trigger] stamped[i], queue[i], header, i + 1)
}

/// Attaches to `op` the identifier `txid`, the position `vtxindex`, and the
/// height and hash of the block under `header`. The payload is not touched.
pub fn stamp_with_txid(
    op: PendingOperation,
    txid: Txid,
    header: &BlockHeader,
    vtxindex: u32,
) -> (stamped: StampedOperation)
    ensures
        stamped == (StampedOperation {
            payload: op,
            txid,
            vtxindex,
            block_height: header.block_height,
            burn_header_hash: header.block_hash,
        }),
{
    StampedOperation {
        payload: op,
        txid,
        vtxindex,
        block_height: header.block_height,
        burn_header_hash: header.block_hash,
    }
}

/// Stamps one operation for position `vtxindex` of the block under `header`.
pub fn stamp_operation(op: PendingOperation, header: &BlockHeader, vtxindex: u32) -> (stamped:
    StampedOperation)
    requires
        1 <= vtxindex,
    ensures
        is_stamped(stamped, op, *header, vtxindex as int),
{
    let txid = derive_txid(header.block_height, vtxindex);
    stamp_with_txid(op, txid, header, vtxindex)
}

/// Drains `queue` from front to back and stamps each operation for the block
/// under `header`. The queue is left empty.
pub fn stamp_operations(queue: &mut VecDeque<PendingOperation>, header: &BlockHeader) -> (stamped:
    Vec<StampedOperation>)
    requires
        old(queue)@.len() <= u32::MAX,
    ensures
        final(queue)@ == Seq::<PendingOperation>::empty(),
        is_stamping(stamped@, old(queue)@, *header),
{
    let mut stamped: Vec<StampedOperation> = Vec::new();
    let mut drained: u32 = 0;
    loop
        invariant
            old(queue)@.len() <= u32::MAX,
            drained <= old(queue)@.len(),
            stamped@.len() == drained,
            queue@ == old(queue)@.subrange(drained as int, old(queue)@.len() as int),
            forall|i: int|
                0 <= i < drained ==> is_stamped(
                    #[trigger] stamped@[i],
                    old(queue)@[i],
                    *header,
                    i + 1,
                ),
        ensures
            queue@ == Seq::<PendingOperation>::empty(),
            is_stamping(stamped@, old(queue)@, *header),
        decreases old(queue)@.len() - drained,
    {
        let ghost before = queue@;
        match queue.pop_front() {
            Some(payload) => {
                assert(payload == old(queue)@[drained as int]);
                let vtxindex: u32 = drained + 1;
                let op = stamp_operation(payload, header, vtxindex);
                stamped.push(op);
                drained = vtxindex;
                assert(queue@ =~= old(queue)@.subrange(
                    drained as int,
                    old(queue)@.len() as int,
                ));
            },
            None => {
                assert(queue@ =~= Seq::<PendingOperation>::empty());
                break ;
            },
        }
    }
    stamped
}

/// Stamping assigns the positions `1..=N` in queue order: the operation at
/// index `i` of the queue is the payload at index `i` of the block, at
/// position `i + 1`, and no two operations of a block share a position.
pub proof fn lemma_positions_contiguous(
    stamped: Seq<StampedOperation>,
    queue: Seq<PendingOperation>,
    header: BlockHeader,
)
    requires
        is_stamping(stamped, queue, header),
    ensures
        stamped.len() == queue.len(),
        forall|i: int|
            0 <= i < stamped.len() ==> (#[trigger] stamped[i]).payload == queue[i]
                && stamped[i].vtxindex == i + 1,
        forall|i: int, j: int|
            0 <= i < stamped.len() && 0 <= j < stamped.len() && i != j ==> (
            #[trigger] stamped[i]).vtxindex != (#[trigger] stamped[j]).vtxindex,
{
}

/// An identifier depends on the block's height and the position alone: two
/// operations stamped at the same height and position carry the same
/// identifier, whatever their payloads and whatever else their blocks hold.
pub proof fn lemma_txid_ignores_payload(
    first: StampedOperation,
    first_op: PendingOperation,
    first_header: BlockHeader,
    second: StampedOperation,
    second_op: PendingOperation,
    second_header: BlockHeader,
    position: int,
)
    requires
        is_stamped(first, first_op, first_header, position),
        is_stamped(second, second_op, second_header, position),
        first_header.block_height == second_header.block_height,
    ensures
        first.txid == second.txid,
{
    assert(first.txid =~= second.txid);
}

/// A queue and a header determine the block's operations: two stampings of
/// the same queue under the same header are the same sequence.
pub proof fn lemma_stamping_unique(
    first: Seq<StampedOperation>,
    second: Seq<StampedOperation>,
    queue: Seq<PendingOperation>,
    header: BlockHeader,
)
    requires
        is_stamping(first, queue, header),
        is_stamping(second, queue, header),
    ensures
        first == second,
{
    assert forall|i: int| 0 <= i < first.len() implies first[i] == second[i] by {
        assert(is_stamped(first[i], queue[i], header, i + 1));
        assert(is_stamped(second[i], queue[i], header, i + 1));
        assert(first[i].txid =~= second[i].txid);
    }
    assert(first =~= second);
}

} // verus!
