//! The chain's state: snapshots, headers, and tips.

use crate::operations::{
    clone_stamped, stamped_models, BurnchainHeaderHash, StampedOperation, StampedOperationModel,
};
use std::time::Instant;
use vstd::prelude::*;

verus! {

/// The ledger's identifier of a sortition.
pub type SortitionId = [u8; 32];

/// A summary of the chain's state at one height, as the ledger records it.
#[derive(Clone, Copy, Debug, PartialEq, Eq)]
pub struct BlockSnapshot {
    pub block_height: u64,
    pub burn_header_hash: BurnchainHeaderHash,
    pub sortition_id: SortitionId,
}

/// The header of a simulated burnchain block.
#[derive(Clone, Copy, Debug, PartialEq, Eq)]
pub struct BlockHeader {
    pub block_height: u64,
    pub block_hash: BurnchainHeaderHash,
    pub parent_block_hash: BurnchainHeaderHash,
    pub num_txs: u64,
    pub timestamp: u64,
}

/// One share of a block's burn distribution: a block commit, the key it was
/// made with, the user burns in its support, and its range of the sample
/// space.
#[derive(Debug, PartialEq, Eq)]
pub struct BurnSamplePoint {
    pub burns: u128,
    pub range_start: [u8; 32],
    pub range_end: [u8; 32],
    pub candidate: StampedOperation,
    pub key: StampedOperation,
    pub user_burns: Vec<StampedOperation>,
}

/// What a [`BurnSamplePoint`] holds.
pub struct BurnSamplePointModel {
    pub burns: u128,
    pub range_start: [u8; 32],
    pub range_end: [u8; 32],
    pub candidate: StampedOperationModel,
    pub key: StampedOperationModel,
    pub user_burns: Seq<StampedOperationModel>,
}

impl View for BurnSamplePoint {
    type V = BurnSamplePointModel;

    open spec fn view(&self) -> BurnSamplePointModel {
        BurnSamplePointModel {
            burns: self.burns,
            range_start: self.range_start,
            range_end: self.range_end,
            candidate: self.candidate@,
            key: self.key@,
            user_burns: stamped_models(self.user_burns@),
        }
    }
}

impl Clone for BurnSamplePoint {
    fn clone(&self) -> (res: Self)
        ensures
            res@ == self@,
    {
        BurnSamplePoint {
            burns: self.burns,
            range_start: self.range_start,
            range_end: self.range_end,
            candidate: self.candidate.clone(),
            key: self.key.clone(),
            user_burns: clone_stamped(&self.user_burns),
        }
    }
}

/// What each point of `points` holds, in the same order.
pub open spec fn sample_models(points: Seq<BurnSamplePoint>) -> Seq<BurnSamplePointModel> {
    Seq::new(points.len(), |i: int| points[i]@)
}

/// Copies a burn distribution.
pub fn clone_samples(points: &Vec<BurnSamplePoint>) -> (res: Vec<BurnSamplePoint>)
    ensures
        sample_models(res@) == sample_models(points@),
{
    let mut res: Vec<BurnSamplePoint> = Vec::new();
    let mut i: usize = 0;
    while i < points.len()
        invariant
            i <= points@.len(),
            res@.len() == i,
            forall|k: int| 0 <= k < i ==> (#[trigger] res@[k])@ == points@[k]@,
        decreases points@.len() - i,
    {
        res.push(points[i].clone());
        i = i + 1;
    }
    assert(sample_models(res@) =~= sample_models(points@));
    res
}

/// What the ledger made of a block: the operations it accepted, the burn
/// distribution that results, and the leader keys the block consumed.
#[derive(Debug, PartialEq, Eq)]
pub struct StateTransition {
    pub burn_dist: Vec<BurnSamplePoint>,
    pub accepted_ops: Vec<StampedOperation>,
    pub consumed_leader_keys: Vec<StampedOperation>,
}

/// What a [`StateTransition`] holds.
pub struct StateTransitionModel {
    pub burn_dist: Seq<BurnSamplePointModel>,
    pub accepted_ops: Seq<StampedOperationModel>,
    pub consumed_leader_keys: Seq<StampedOperationModel>,
}

impl StateTransitionModel {
    /// The transition that accepted nothing, distributed nothing and
    /// consumed nothing.
    pub open spec fn empty() -> StateTransitionModel {
        StateTransitionModel {
            burn_dist: Seq::empty(),
            accepted_ops: Seq::empty(),
            consumed_leader_keys: Seq::empty(),
        }
    }
}

impl View for StateTransition {
    type V = StateTransitionModel;

    open spec fn view(&self) -> StateTransitionModel {
        StateTransitionModel {
            burn_dist: sample_models(self.burn_dist@),
            accepted_ops: stamped_models(self.accepted_ops@),
            consumed_leader_keys: stamped_models(self.consumed_leader_keys@),
        }
    }
}

impl Clone for StateTransition {
    fn clone(&self) -> (res: Self)
        ensures
            res@ == self@,
    {
        StateTransition {
            burn_dist: clone_samples(&self.burn_dist),
            accepted_ops: clone_stamped(&self.accepted_ops),
            consumed_leader_keys: clone_stamped(&self.consumed_leader_keys),
        }
    }
}

impl StateTransition {
    /// The transition of a chain on which nothing has happened yet.
    pub fn empty() -> (res: Self)
        ensures
            res@ == StateTransitionModel::empty(),
            res.burn_dist@.len() == 0,
            res.accepted_ops@.len() == 0,
            res.consumed_leader_keys@.len() == 0,
    {
        let res = StateTransition {
            burn_dist: Vec::new(),
            accepted_ops: Vec::new(),
            consumed_leader_keys: Vec::new(),
        };
        assert(sample_models(res.burn_dist@) =~= Seq::empty());
        assert(stamped_models(res.accepted_ops@) =~= Seq::empty());
        assert(stamped_models(res.consumed_leader_keys@) =~= Seq::empty());
        res
    }
}

/// The most recent block of the chain: its snapshot, what produced it, and
/// when this process learned of it.
#[derive(Debug, PartialEq, Eq)]
pub struct ChainTip {
    pub block_snapshot: BlockSnapshot,
    pub state_transition: StateTransition,
    pub received_at: Instant,
}

/// What a [`ChainTip`] holds.
pub struct ChainTipModel {
    pub block_snapshot: BlockSnapshot,
    pub state_transition: StateTransitionModel,
    pub received_at: Instant,
}

impl View for ChainTip {
    type V = ChainTipModel;

    open spec fn view(&self) -> ChainTipModel {
        ChainTipModel {
            block_snapshot: self.block_snapshot,
            state_transition: self.state_transition@,
            received_at: self.received_at,
        }
    }
}

impl Clone for ChainTip {
    fn clone(&self) -> (res: Self)
        ensures
            res@ == self@,
    {
        ChainTip {
            block_snapshot: self.block_snapshot,
            state_transition: self.state_transition.clone(),
            received_at: self.received_at,
        }
    }
}

} // verus!
