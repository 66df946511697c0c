//! The controller: the queue of submitted operations, the current tip, and
//! the cycle that advances the chain by one block.
//!
//! A controller is made from its configuration and is not ready until it is
//! started with the ledger's first snapshot. From then on operations may be
//! submitted at any time. `sync` begins a block: it derives the next header,
//! drains and stamps the queue, and asks for a ledger transaction. Each
//! answer of the ledger goes to `on_ledger_event`, which says what to ask
//! next, until the block is published as the new tip or the attempt is
//! given up with the tip as it was.

use crate::chain::{BlockHeader, BlockSnapshot, ChainTip, ChainTipModel, StateTransition,
    StateTransitionModel};
use crate::clock::{epoch_time_secs, instant_now};
use crate::committer::{advance, commit_step, last_progress, lemma_commit_takes_three_successes,
    state_after, step, CommitError, CommitProgress, CommitState, LedgerEvent, LedgerRequest};
use crate::header::{is_next_header, next_block_header};
use crate::operations::{BurnchainOpSigner, PendingOperation};
use crate::stamper::{is_stamping, stamp_operations};
use std::collections::VecDeque;
use vstd::prelude::*;

verus! {

/// Where the simulated chain keeps its ledger, and which chain it stands for.
#[derive(Debug, PartialEq, Eq)]
pub struct Config {
    pub chain: String,
    pub burn_db_path: String,
    pub burn_db_file_path: String,
}

/// Why the controller could not answer.
#[derive(Clone, Copy, Debug, PartialEq, Eq)]
pub enum ControllerError {
    /// The controller has not been started: it has no tip yet.
    Uninitialized,
}

/// What a step of a block's cycle hands back.
#[derive(Debug, PartialEq, Eq)]
pub enum SyncProgress {
    /// The ledger has more to do.
    Request(LedgerRequest),
    /// The block is committed and its tip is now the current one.
    Published(ChainTip),
    /// The attempt is given up and the tip is as it was. Where
    /// `release_transaction` holds, a transaction is open and must be rolled
    /// back.
    Aborted { error: CommitError, release_transaction: bool },
}

/// MocknetController is simulating a simplistic burnchain.
pub struct MocknetController {
    config: Config,
    chain_tip: Option<ChainTip>,
    queued_operations: VecDeque<PendingOperation>,
    commit: CommitState,
}

impl MocknetController {
    /// The configuration the controller was made from.
    pub closed spec fn configuration(&self) -> Config {
        self.config
    }

    /// The current tip; none before the controller is started.
    pub closed spec fn tip(&self) -> Option<ChainTipModel> {
        match self.chain_tip {
            Some(tip) => Some(tip@),
            None => None,
        }
    }

    /// The operations submitted since the last block began, oldest first.
    pub closed spec fn queue(&self) -> Seq<PendingOperation> {
        self.queued_operations@
    }

    /// How far the commit of the block under way has come.
    pub closed spec fn commit_state(&self) -> CommitState {
        self.commit
    }

    /// Whether `self` is a controller as `generic` makes it from `config`:
    /// not started, with nothing queued and no block under way.
    pub open spec fn is_fresh(&self, config: Config) -> bool {
        &&& self.configuration() == config
        &&& self.tip() is None
        &&& self.queue() == Seq::<PendingOperation>::empty()
        &&& self.commit_state() is Idle
    }

    /// What `current_tip` answers: the tip, or that there is none yet.
    pub open spec fn tip_or_uninitialized(&self) -> Result<ChainTipModel, ControllerError> {
        match self.tip() {
            Some(tip) => Ok(tip),
            None => Err(ControllerError::Uninitialized),
        }
    }

    /// Whether `post` is `self` after it was started with `block_snapshot`
    /// and answered `genesis`: the tip is that snapshot with nothing
    /// accepted, nothing distributed and nothing consumed, and the rest is
    /// untouched.
    pub open spec fn starts_as(
        &self,
        post: MocknetController,
        block_snapshot: BlockSnapshot,
        genesis: ChainTipModel,
    ) -> bool {
        &&& genesis.block_snapshot == block_snapshot
        &&& genesis.state_transition == StateTransitionModel::empty()
        &&& post.tip() == Some(genesis)
        &&& post.queue() == self.queue()
        &&& post.commit_state() == self.commit_state()
        &&& post.configuration() == self.configuration()
    }

    /// Whether a block can begin: the controller is started, no block is
    /// under way, the tip's height has a successor, and the queue's
    /// positions fit the operations' index.
    pub open spec fn sync_enabled(&self) -> bool {
        &&& self.tip() is Some
        &&& self.commit_state() is Idle
        &&& self.tip().unwrap().block_snapshot.block_height < u64::MAX
        &&& self.queue().len() <= u32::MAX
    }

    /// Whether `post` is `self` after `sync` answered `request`: the queue
    /// is drained, the block that holds it stamped under the tip's next
    /// header waits for its transaction, the request asks for that
    /// transaction, and the tip is as it was.
    pub open spec fn syncs_to(&self, post: MocknetController, request: LedgerRequest) -> bool {
        &&& self.tip() is Some
        &&& post.tip() == self.tip()
        &&& post.configuration() == self.configuration()
        &&& post.queue() == Seq::<PendingOperation>::empty()
        &&& request == (LedgerRequest::BeginTransaction {
            anchor: self.tip().unwrap().block_snapshot.sortition_id,
        })
        &&& match post.commit_state() {
            CommitState::Opening { parent, header, ops } => {
                &&& parent == self.tip().unwrap().block_snapshot
                &&& is_next_header(header, parent, header.timestamp)
                &&& is_stamping(ops@, self.queue(), header)
            },
            _ => false,
        }
    }

    /// Whether `post` is `self` after `on_ledger_event` took `event` and
    /// answered `outcome`: the commit went one step on, the tip is replaced
    /// exactly when that step committed the block, by what the ledger made
    /// of it, and the queue is untouched.
    pub open spec fn reacts_to(
        &self,
        post: MocknetController,
        event: LedgerEvent,
        outcome: SyncProgress,
    ) -> bool {
        let (next, progress) = commit_step(self.commit_state(), event);
        &&& post.commit_state() == next
        &&& post.queue() == self.queue()
        &&& post.configuration() == self.configuration()
        &&& match progress {
            CommitProgress::Request(request) => {
                &&& outcome == SyncProgress::Request(request)
                &&& post.tip() == self.tip()
            },
            CommitProgress::Committed { snapshot, transition } => {
                &&& outcome matches SyncProgress::Published(tip)
                &&& tip.block_snapshot == snapshot
                &&& tip.state_transition == transition
                &&& post.tip() == Some(tip@)
            },
            CommitProgress::Aborted { error, release_transaction } => {
                &&& outcome == (SyncProgress::Aborted { error, release_transaction })
                &&& post.tip() == self.tip()
            },
        }
    }

    /// Makes a controller from its configuration.
    pub fn generic(config: Config) -> (controller: Self)
        ensures
            controller.is_fresh(config),
    {
        Self::new(config)
    }

    /// Makes a controller that is not started, with nothing queued.
    pub fn new(config: Config) -> (controller: Self)
        ensures
            controller.is_fresh(config),
    {
        MocknetController {
            config,
            chain_tip: None,
            queued_operations: VecDeque::new(),
            commit: CommitState::Idle,
        }
    }

    /// Builds the header that follows `current_block`, stamped with the wall
    /// clock's reading.
    pub fn build_next_block_header(current_block: &BlockSnapshot) -> (header: BlockHeader)
        requires
            current_block.block_height < u64::MAX,
        ensures
            is_next_header(header, *current_block, header.timestamp),
    {
        next_block_header(current_block, epoch_time_secs())
    }

    /// The configuration the controller was made from.
    pub fn config(&self) -> (config: &Config)
        ensures
            *config == self.configuration(),
    {
        &self.config
    }

    /// Whether the controller has been started.
    pub fn is_ready(&self) -> (ready: bool)
        ensures
            ready == self.tip() is Some,
    {
        self.chain_tip.is_some()
    }

    /// How many operations are queued.
    pub fn queued_len(&self) -> (len: usize)
        ensures
            len == self.queue().len(),
    {
        self.queued_operations.len()
    }

    /// Whether a block can begin.
    pub fn can_sync(&self) -> (enabled: bool)
        ensures
            enabled == self.sync_enabled(),
    {
        let idle = match &self.commit {
            CommitState::Idle => true,
            _ => false,
        };
        match &self.chain_tip {
            Some(tip) => idle && tip.block_snapshot.block_height < u64::MAX
                && self.queued_operations.len() <= 0xffff_ffff,
            None => false,
        }
    }

    /// The current tip, or `Uninitialized` before the controller is started.
    pub fn current_tip(&self) -> (tip: Result<ChainTip, ControllerError>)
        ensures
            match tip {
                Ok(tip) => self.tip_or_uninitialized() == Ok::<ChainTipModel, ControllerError>(
                    tip@,
                ),
                Err(error) => self.tip_or_uninitialized() == Err::<
                    ChainTipModel,
                    ControllerError,
                >(error),
            },
    {
        match &self.chain_tip {
            Some(chain_tip) => Ok(chain_tip.clone()),
            None => Err(ControllerError::Uninitialized),
        }
    }

    /// The current tip of a started controller.
    pub fn get_chain_tip(&mut self) -> (tip: ChainTip)
        requires
            old(self).tip() is Some,
        ensures
            Some(tip@) == old(self).tip(),
            *final(self) == *old(self),
    {
        self.chain_tip.as_ref().unwrap().clone()
    }

    /// Starts the controller on `block_snapshot`, the ledger's first
    /// snapshot, and answers the tip that stands on it.
    pub fn start(&mut self, block_snapshot: BlockSnapshot) -> (genesis: ChainTip)
        requires
            old(self).tip() is None,
        ensures
            old(self).starts_as(*final(self), block_snapshot, genesis@),
    {
        let genesis_state = ChainTip {
            block_snapshot,
            state_transition: StateTransition::empty(),
            received_at: instant_now(),
        };
        self.chain_tip = Some(genesis_state.clone());
        genesis_state
    }

    /// Queues `operation` behind those already submitted. Nothing is checked
    /// here and nothing is refused; the signer is not used.
    pub fn submit_operation(
        &mut self,
        operation: PendingOperation,
        _op_signer: &mut BurnchainOpSigner,
    ) -> (accepted: bool)
        ensures
            accepted,
            final(self).queue() == old(self).queue().push(operation),
            final(self).tip() == old(self).tip(),
            final(self).commit_state() == old(self).commit_state(),
            final(self).configuration() == old(self).configuration(),
            *final(_op_signer) == *old(_op_signer),
    {
        self.queued_operations.push_back(operation);
        true
    }

    /// Begins the next block: derives its header from the tip, drains the
    /// queue into it, and asks for the ledger transaction that will carry
    /// it.
    pub fn sync(&mut self) -> (request: LedgerRequest)
        requires
            old(self).sync_enabled(),
        ensures
            old(self).syncs_to(*final(self), request),
    {
        let parent = self.chain_tip.as_ref().unwrap().block_snapshot;
        let next_block_header = Self::build_next_block_header(&parent);
        let ops = stamp_operations(&mut self.queued_operations, &next_block_header);
        let (state, request) = advance(parent, next_block_header, ops);
        self.commit = state;
        request
    }

    /// Takes the block under way one step on, on the ledger's `event`. A
    /// committed block becomes the current tip; any failure leaves the tip
    /// as it was.
    pub fn on_ledger_event(&mut self, event: LedgerEvent) -> (outcome: SyncProgress)
        ensures
            old(self).reacts_to(*final(self), event, outcome),
    {
        let mut state = CommitState::Idle;
        core::mem::swap(&mut self.commit, &mut state);
        let (next, progress) = step(state, event);
        self.commit = next;
        match progress {
            CommitProgress::Request(request) => SyncProgress::Request(request),
            CommitProgress::Committed { snapshot, transition } => {
                let new_state = ChainTip {
                    block_snapshot: snapshot,
                    state_transition: transition,
                    received_at: instant_now(),
                };
                self.chain_tip = Some(new_state.clone());
                SyncProgress::Published(new_state)
            },
            CommitProgress::Aborted { error, release_transaction } => SyncProgress::Aborted {
                error,
                release_transaction,
            },
        }
    }
}

/// Whether `states`, `events` and `outcomes` record a run of
/// `on_ledger_event`: the controller was `states[0]`, and the `i`-th call
/// took `events[i]`, answered `outcomes[i]` and left `states[i + 1]`.
pub open spec fn is_run(
    states: Seq<MocknetController>,
    events: Seq<LedgerEvent>,
    outcomes: Seq<SyncProgress>,
) -> bool {
    &&& states.len() == events.len() + 1
    &&& outcomes.len() == events.len()
    &&& forall|i: int|
        0 <= i < events.len() ==> (#[trigger] states[i]).reacts_to(
            states[i + 1],
            events[i],
            outcomes[i],
        )
}

/// A controller has no tip until it is started, and from then on has the
/// genesis tip: asked for its tip, a controller fresh from `generic` answers
/// `Uninitialized`, and once started on a snapshot it answers that snapshot
/// with nothing accepted, no burn distribution and no leader key consumed.
pub proof fn lemma_tip_before_and_after_start(
    fresh: MocknetController,
    config: Config,
    started: MocknetController,
    block_snapshot: BlockSnapshot,
    genesis: ChainTipModel,
)
    requires
        fresh.is_fresh(config),
        fresh.starts_as(started, block_snapshot, genesis),
    ensures
        fresh.tip_or_uninitialized() == Err::<ChainTipModel, ControllerError>(
            ControllerError::Uninitialized,
        ),
        started.tip_or_uninitialized() == Ok::<ChainTipModel, ControllerError>(genesis),
        genesis.block_snapshot == block_snapshot,
        genesis.state_transition.accepted_ops.len() == 0,
        genesis.state_transition.burn_dist.len() == 0,
        genesis.state_transition.consumed_leader_keys.len() == 0,
{
}

/// Submitting keeps the order of submission: after `ops` were submitted one
/// by one, the queue is what it was followed by `ops`, first to last.
pub proof fn lemma_queue_keeps_submission_order(
    states: Seq<MocknetController>,
    ops: Seq<PendingOperation>,
)
    requires
        states.len() == ops.len() + 1,
        forall|i: int|
            0 <= i < ops.len() ==> (#[trigger] states[i + 1]).queue() == states[i].queue().push(
                ops[i],
            ),
    ensures
        states.last().queue() == states[0].queue() + ops,
    decreases ops.len(),
{
    if ops.len() == 0 {
        assert(states[0].queue() + ops =~= states[0].queue());
    } else {
        let n = ops.len() as int;
        let earlier = states.drop_last();
        assert forall|i: int| 0 <= i < n - 1 implies (#[trigger] earlier[i + 1]).queue()
            == earlier[i].queue().push(ops.drop_last()[i]) by {
            assert(earlier[i + 1] == states[i + 1]);
        }
        lemma_queue_keeps_submission_order(earlier, ops.drop_last());
        assert(states[n - 1 + 1].queue() == states[n - 1].queue().push(ops[n - 1]));
        assert(earlier.last() == states[n - 1]);
        assert(states[0].queue() + ops =~= (states[0].queue() + ops.drop_last()).push(ops[n - 1]));
    }
}

/// The block that `sync` begins carries the queue as it stood: every
/// queued operation, in submission order, at the positions `1..=N`, all
/// under the one header that follows the tip. Once the transaction is open,
/// this block and no other is handed to the ledger.
pub proof fn lemma_block_is_the_queue_stamped(
    pre: MocknetController,
    begun: MocknetController,
    request: LedgerRequest,
    post: MocknetController,
    outcome: SyncProgress,
)
    requires
        pre.syncs_to(begun, request),
        begun.reacts_to(post, LedgerEvent::TransactionOpened, outcome),
    ensures
        outcome matches SyncProgress::Request(
            LedgerRequest::ProcessBlockOps { parent, header, ops },
        ) && {
            &&& pre.tip() is Some
            &&& parent == pre.tip().unwrap().block_snapshot
            &&& header.block_height == parent.block_height + 1
            &&& is_next_header(header, parent, header.timestamp)
            &&& ops@.len() == pre.queue().len()
            &&& forall|i: int|
                0 <= i < ops@.len() ==> {
                    &&& (#[trigger] ops@[i]).payload == pre.queue()[i]
                    &&& ops@[i].vtxindex == i + 1
                    &&& ops@[i].block_height == header.block_height
                    &&& ops@[i].burn_header_hash == header.block_hash
                }
        },
{
}

proof fn lemma_run_follows_the_commit(
    states: Seq<MocknetController>,
    events: Seq<LedgerEvent>,
    outcomes: Seq<SyncProgress>,
    k: int,
)
    requires
        is_run(states, events, outcomes),
        0 <= k <= events.len(),
    ensures
        states[k].commit_state() == state_after(states[0].commit_state(), events.subrange(0, k)),
        states[k].queue() == states[0].queue(),
    decreases k,
{
    if k > 0 {
        lemma_run_follows_the_commit(states, events, outcomes, k - 1);
        assert(states[k - 1].reacts_to(states[k - 1 + 1], events[k - 1], outcomes[k - 1]));
        assert(events.subrange(0, k).drop_last() =~= events.subrange(0, k - 1));
        assert(events.subrange(0, k).last() == events[k - 1]);
    }
}

/// The queue is drained when a block begins and stays so whatever becomes
/// of the block: after `sync`, and after every report of the ledger that
/// follows, success or failure, no operation of the batch is queued.
pub proof fn lemma_queue_drained_whatever_follows(
    pre: MocknetController,
    request: LedgerRequest,
    states: Seq<MocknetController>,
    events: Seq<LedgerEvent>,
    outcomes: Seq<SyncProgress>,
)
    requires
        is_run(states, events, outcomes),
        pre.syncs_to(states[0], request),
    ensures
        forall|k: int|
            0 <= k < states.len() ==> (#[trigger] states[k]).queue() == Seq::<
                PendingOperation,
            >::empty(),
{
    assert forall|k: int| 0 <= k < states.len() implies (#[trigger] states[k]).queue() == Seq::<
        PendingOperation,
    >::empty() by {
        lemma_run_follows_the_commit(states, events, outcomes, k);
    }
}

/// A tip is published by three successes in a row and by nothing else. In
/// any run of reports after `sync`, a report is answered with a new tip
/// exactly when it is the third and the three say that the transaction
/// opened, the operations were processed and the transaction committed. The
/// new tip then holds the snapshot and the transition of the second report
/// as the ledger gave them. Every other report leaves the tip as it was:
/// no part of a block is ever published.
pub proof fn lemma_tip_published_on_commit_only(
    pre: MocknetController,
    request: LedgerRequest,
    states: Seq<MocknetController>,
    events: Seq<LedgerEvent>,
    outcomes: Seq<SyncProgress>,
    k: int,
)
    requires
        is_run(states, events, outcomes),
        pre.syncs_to(states[0], request),
        0 <= k < events.len(),
    ensures
        outcomes[k] is Published <==> {
            &&& k == 2
            &&& events[0] is TransactionOpened
            &&& events[1] is OpsProcessed
            &&& events[2] is Committed
        },
        outcomes[k] matches SyncProgress::Published(tip) ==> {
            &&& events[1] == (LedgerEvent::OpsProcessed {
                snapshot: tip.block_snapshot,
                transition: tip.state_transition,
            })
            &&& states[k + 1].tip() == Some(tip@)
        },
        !(outcomes[k] is Published) ==> states[k + 1].tip() == states[k].tip(),
{
    let start = states[0].commit_state();
    let seen = events.subrange(0, k + 1);
    lemma_run_follows_the_commit(states, events, outcomes, k);
    assert(states[k].reacts_to(states[k + 1], events[k], outcomes[k]));
    assert(seen.drop_last() =~= events.subrange(0, k));
    assert(seen.last() == events[k]);
    assert(last_progress(start, seen) == commit_step(states[k].commit_state(), events[k]).1);
    match start {
        CommitState::Opening { parent, header, ops } => {
            match last_progress(start, seen) {
                CommitProgress::Committed { snapshot, transition } => {
                    lemma_commit_takes_three_successes(
                        parent,
                        header,
                        ops,
                        seen,
                        snapshot,
                        transition,
                    );
                    assert(seen[0] == events[0]);
                    assert(seen[1] == events[1]);
                    assert(seen[2] == events[2]);
                },
                _ => {
                    if k == 2 && events[0] is TransactionOpened && events[1] is OpsProcessed
                        && events[2] is Committed {
                        assert(seen[0] == events[0]);
                        assert(seen[1] == events[1]);
                        assert(seen[2] == events[2]);
                        match events[1] {
                            LedgerEvent::OpsProcessed { snapshot, transition } => {
                                lemma_commit_takes_three_successes(
                                    parent,
                                    header,
                                    ops,
                                    seen,
                                    snapshot,
                                    transition,
                                );
                            },
                            _ => {},
                        }
                    }
                },
            }
        },
        _ => {},
    }
}

} // verus!
