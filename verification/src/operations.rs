//! Protocol operations: as callers submit them, and as a block carries them.

use crate::txid::Txid;
use vstd::prelude::*;

verus! {

/// The hash of a burnchain block header.
pub type BurnchainHeaderHash = [u8; 32];

/// An account address: a version byte and a 160-bit hash.
#[derive(Clone, Copy, Debug, PartialEq, Eq)]
pub struct StacksAddress {
    pub version: u8,
    pub bytes: [u8; 20],
}

/// Who signed the burnchain transaction that carried a block commit.
#[derive(Debug, PartialEq, Eq)]
pub struct BurnchainSigner {
    pub hash_mode: u8,
    pub num_sigs: u32,
    pub public_keys: Vec<[u8; 33]>,
}

/// What a [`BurnchainSigner`] holds.
pub struct BurnchainSignerModel {
    pub hash_mode: u8,
    pub num_sigs: u32,
    pub public_keys: Seq<[u8; 33]>,
}

impl View for BurnchainSigner {
    type V = BurnchainSignerModel;

    open spec fn view(&self) -> BurnchainSignerModel {
        BurnchainSignerModel {
            hash_mode: self.hash_mode,
            num_sigs: self.num_sigs,
            public_keys: self.public_keys@,
        }
    }
}

impl Clone for BurnchainSigner {
    fn clone(&self) -> (res: Self)
        ensures
            res@ == self@,
    {
        let mut public_keys: Vec<[u8; 33]> = Vec::new();
        let mut i: usize = 0;
        while i < self.public_keys.len()
            invariant
                i <= self.public_keys@.len(),
                public_keys@ == self.public_keys@.subrange(0, i as int),
            decreases self.public_keys@.len() - i,
        {
            public_keys.push(self.public_keys[i]);
            assert(public_keys@ =~= self.public_keys@.subrange(0, i as int + 1));
            i = i + 1;
        }
        assert(public_keys@ =~= self.public_keys@);
        BurnchainSigner { hash_mode: self.hash_mode, num_sigs: self.num_sigs, public_keys }
    }
}

/// Registers a leader's VRF public key.
#[derive(Debug, PartialEq, Eq)]
pub struct LeaderKeyRegister {
    pub consensus_hash: [u8; 20],
    pub public_key: [u8; 32],
    pub memo: Vec<u8>,
    pub address: StacksAddress,
}

/// What a [`LeaderKeyRegister`] holds.
pub struct LeaderKeyRegisterModel {
    pub consensus_hash: [u8; 20],
    pub public_key: [u8; 32],
    pub memo: Seq<u8>,
    pub address: StacksAddress,
}

impl View for LeaderKeyRegister {
    type V = LeaderKeyRegisterModel;

    open spec fn view(&self) -> LeaderKeyRegisterModel {
        LeaderKeyRegisterModel {
            consensus_hash: self.consensus_hash,
            public_key: self.public_key,
            memo: self.memo@,
            address: self.address,
        }
    }
}

impl Clone for LeaderKeyRegister {
    fn clone(&self) -> (res: Self)
        ensures
            res@ == self@,
    {
        let memo = self.memo.clone();
        assert(memo@ =~= self.memo@);
        LeaderKeyRegister {
            consensus_hash: self.consensus_hash,
            public_key: self.public_key,
            memo,
            address: self.address,
        }
    }
}

/// Commits a leader to a block it proposes, with the burn that backs it.
#[derive(Debug, PartialEq, Eq)]
pub struct LeaderBlockCommit {
    pub block_header_hash: [u8; 32],
    pub new_seed: [u8; 32],
    pub parent_block_ptr: u32,
    pub parent_vtxindex: u16,
    pub key_block_ptr: u32,
    pub key_vtxindex: u16,
    pub memo: Vec<u8>,
    pub burn_fee: u64,
    pub input: BurnchainSigner,
}

/// What a [`LeaderBlockCommit`] holds.
pub struct LeaderBlockCommitModel {
    pub block_header_hash: [u8; 32],
    pub new_seed: [u8; 32],
    pub parent_block_ptr: u32,
    pub parent_vtxindex: u16,
    pub key_block_ptr: u32,
    pub key_vtxindex: u16,
    pub memo: Seq<u8>,
    pub burn_fee: u64,
    pub input: BurnchainSignerModel,
}

impl View for LeaderBlockCommit {
    type V = LeaderBlockCommitModel;

    open spec fn view(&self) -> LeaderBlockCommitModel {
        LeaderBlockCommitModel {
            block_header_hash: self.block_header_hash,
            new_seed: self.new_seed,
            parent_block_ptr: self.parent_block_ptr,
            parent_vtxindex: self.parent_vtxindex,
            key_block_ptr: self.key_block_ptr,
            key_vtxindex: self.key_vtxindex,
            memo: self.memo@,
            burn_fee: self.burn_fee,
            input: self.input@,
        }
    }
}

impl Clone for LeaderBlockCommit {
    fn clone(&self) -> (res: Self)
        ensures
            res@ == self@,
    {
        let memo = self.memo.clone();
        assert(memo@ =~= self.memo@);
        LeaderBlockCommit {
            block_header_hash: self.block_header_hash,
            new_seed: self.new_seed,
            parent_block_ptr: self.parent_block_ptr,
            parent_vtxindex: self.parent_vtxindex,
            key_block_ptr: self.key_block_ptr,
            key_vtxindex: self.key_vtxindex,
            memo,
            burn_fee: self.burn_fee,
            input: self.input.clone(),
        }
    }
}

/// Adds a user's burn in support of a leader's block commit.
#[derive(Clone, Copy, Debug, PartialEq, Eq)]
pub struct UserBurnSupport {
    pub address: StacksAddress,
    pub consensus_hash: [u8; 20],
    pub public_key: [u8; 32],
    pub key_block_ptr: u32,
    pub key_vtxindex: u16,
    pub block_header_hash_160: [u8; 20],
    pub burn_fee: u64,
}

/// An operation as a caller submits it: it has no identifier, no position
/// and no block yet.
#[derive(Debug, PartialEq, Eq)]
pub enum PendingOperation {
    LeaderKeyRegister(LeaderKeyRegister),
    LeaderBlockCommit(LeaderBlockCommit),
    UserBurnSupport(UserBurnSupport),
}

/// What a [`PendingOperation`] holds.
pub enum PendingOperationModel {
    LeaderKeyRegister(LeaderKeyRegisterModel),
    LeaderBlockCommit(LeaderBlockCommitModel),
    UserBurnSupport(UserBurnSupport),
}

impl View for PendingOperation {
    type V = PendingOperationModel;

    open spec fn view(&self) -> PendingOperationModel {
        match *self {
            PendingOperation::LeaderKeyRegister(op) => PendingOperationModel::LeaderKeyRegister(
                op@,
            ),
            PendingOperation::LeaderBlockCommit(op) => PendingOperationModel::LeaderBlockCommit(
                op@,
            ),
            PendingOperation::UserBurnSupport(op) => PendingOperationModel::UserBurnSupport(op),
        }
    }
}

impl Clone for PendingOperation {
    fn clone(&self) -> (res: Self)
        ensures
            res@ == self@,
    {
        match self {
            PendingOperation::LeaderKeyRegister(op) => PendingOperation::LeaderKeyRegister(
                op.clone(),
            ),
            PendingOperation::LeaderBlockCommit(op) => PendingOperation::LeaderBlockCommit(
                op.clone(),
            ),
            PendingOperation::UserBurnSupport(op) => PendingOperation::UserBurnSupport(*op),
        }
    }
}

/// An operation as a block carries it: the submitted payload together with
/// its identifier, its 1-based position in the block, and the block's height
/// and header hash.
#[derive(Debug, PartialEq, Eq)]
pub struct StampedOperation {
    pub payload: PendingOperation,
    pub txid: Txid,
    pub vtxindex: u32,
    pub block_height: u64,
    pub burn_header_hash: BurnchainHeaderHash,
}

/// What a [`StampedOperation`] holds.
pub struct StampedOperationModel {
    pub payload: PendingOperationModel,
    pub txid: Txid,
    pub vtxindex: u32,
    pub block_height: u64,
    pub burn_header_hash: BurnchainHeaderHash,
}

impl View for StampedOperation {
    type V = StampedOperationModel;

    open spec fn view(&self) -> StampedOperationModel {
        StampedOperationModel {
            payload: self.payload@,
            txid: self.txid,
            vtxindex: self.vtxindex,
            block_height: self.block_height,
            burn_header_hash: self.burn_header_hash,
        }
    }
}

impl Clone for StampedOperation {
    fn clone(&self) -> (res: Self)
        ensures
            res@ == self@,
    {
        StampedOperation {
            payload: self.payload.clone(),
            txid: self.txid,
            vtxindex: self.vtxindex,
            block_height: self.block_height,
            burn_header_hash: self.burn_header_hash,
        }
    }
}

/// The key that would sign an operation on a real burnchain. The simulated
/// chain carries its operations unsigned and never uses it.
#[derive(Clone, Copy, Debug, PartialEq, Eq)]
pub struct BurnchainOpSigner {
    pub secret_key: [u8; 32],
    pub is_one_off: bool,
    pub is_disposed: bool,
    pub usages: u8,
}

/// What each operation of `ops` holds, in the same order.
pub open spec fn stamped_models(ops: Seq<StampedOperation>) -> Seq<StampedOperationModel> {
    Seq::new(ops.len(), |i: int| ops[i]@)
}

/// Copies a list of stamped operations.
pub fn clone_stamped(ops: &Vec<StampedOperation>) -> (res: Vec<StampedOperation>)
    ensures
        stamped_models(res@) == stamped_models(ops@),
{
    let mut res: Vec<StampedOperation> = Vec::new();
    let mut i: usize = 0;
    while i < ops.len()
        invariant
            i <= ops@.len(),
            res@.len() == i,
            forall|k: int| 0 <= k < i ==> (#[trigger] res@[k])@ == ops@[k]@,
        decreases ops@.len() - i,
    {
        res.push(ops[i].clone());
        i = i + 1;
    }
    assert(stamped_models(res@) =~= stamped_models(ops@));
    res
}

} // verus!
