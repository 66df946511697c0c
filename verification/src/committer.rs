//! Tip committing: the decisions that carry a new block into the ledger.
//!
//! The ledger is a service outside this library. Committing a block takes
//! three requests to it, in order: open a transaction anchored at the current
//! tip, process the block's operations inside it, and commit. Whoever drives
//! the ledger performs each request and reports what happened; the committer
//! decides what comes next. A block is committed only when all three
//! requests succeeded, and a transaction that was opened is always released
//! when the attempt is given up.

use crate::chain::{BlockHeader, BlockSnapshot, SortitionId, StateTransition};
use crate::operations::StampedOperation;
use vstd::prelude::*;

verus! {

/// What the ledger is asked to do next.
#[derive(Debug, PartialEq, Eq)]
pub enum LedgerRequest {
    /// Open a transaction anchored at the sortition `anchor`.
    BeginTransaction { anchor: SortitionId },
    /// Inside the open transaction, process the operations of the block
    /// under `header`, whose parent is `parent`.
    ProcessBlockOps { parent: BlockSnapshot, header: BlockHeader, ops: Vec<StampedOperation> },
    /// Commit the open transaction.
    Commit,
}

/// What the ledger did with the last request.
#[derive(Debug, PartialEq, Eq)]
pub enum LedgerEvent {
    /// The transaction is open.
    TransactionOpened,
    /// The block's operations were processed, with this result.
    OpsProcessed { snapshot: BlockSnapshot, transition: StateTransition },
    /// The transaction is committed.
    Committed,
    /// The last request failed.
    Failed,
}

/// Why a block was not committed.
#[derive(Clone, Copy, Debug, PartialEq, Eq)]
pub enum CommitError {
    /// The transaction could not be opened.
    Begin,
    /// The ledger refused the block's operations.
    ProcessBlockOps,
    /// The transaction could not be committed.
    Commit,
    /// The event reported does not answer the request that was pending.
    UnexpectedEvent,
}

/// How far the commit of a block has come.
#[derive(Debug, PartialEq, Eq)]
pub enum CommitState {
    /// No block is being committed.
    Idle,
    /// The transaction was asked for and is not open yet.
    Opening { parent: BlockSnapshot, header: BlockHeader, ops: Vec<StampedOperation> },
    /// The transaction is open and the block's operations are with the
    /// ledger.
    Processing,
    /// The ledger's result is here and the commit was asked for.
    Committing { snapshot: BlockSnapshot, transition: StateTransition },
}

/// What a step of the committer hands back.
#[derive(Debug, PartialEq, Eq)]
pub enum CommitProgress {
    /// The ledger has more to do.
    Request(LedgerRequest),
    /// The block is committed; this is what the ledger made of it.
    Committed { snapshot: BlockSnapshot, transition: StateTransition },
    /// The attempt is given up. Where `release_transaction` holds, a
    /// transaction is open and must be rolled back.
    Aborted { error: CommitError, release_transaction: bool },
}

impl CommitState {
    /// Whether a transaction is open in this state.
    pub open spec fn holds_transaction(self) -> bool {
        self is Processing || self is Committing
    }

    /// Whether a transaction is open in this state.
    pub fn has_transaction(&self) -> (held: bool)
        ensures
            held == self.holds_transaction(),
    {
        match self {
            CommitState::Processing => true,
            CommitState::Committing { .. } => true,
            _ => false,
        }
    }
}

/// The error that stands for a failed request in `state`.
pub open spec fn failure_in(state: CommitState) -> CommitError {
    match state {
        CommitState::Idle => CommitError::UnexpectedEvent,
        CommitState::Opening { .. } => CommitError::Begin,
        CommitState::Processing => CommitError::ProcessBlockOps,
        CommitState::Committing { .. } => CommitError::Commit,
    }
}

/// The committer's transition: where `event` leads from `state`, and what it
/// hands back. The event that answers the pending request moves the commit
/// one request on; any other gives the attempt up.
pub open spec fn commit_step(state: CommitState, event: LedgerEvent) -> (
    CommitState,
    CommitProgress,
) {
    match (state, event) {
        (CommitState::Opening { parent, header, ops }, LedgerEvent::TransactionOpened) => (
            CommitState::Processing,
            CommitProgress::Request(LedgerRequest::ProcessBlockOps { parent, header, ops }),
        ),
        (CommitState::Processing, LedgerEvent::OpsProcessed { snapshot, transition }) => (
            CommitState::Committing { snapshot, transition },
            CommitProgress::Request(LedgerRequest::Commit),
        ),
        (CommitState::Committing { snapshot, transition }, LedgerEvent::Committed) => (
            CommitState::Idle,
            CommitProgress::Committed { snapshot, transition },
        ),
        (state, LedgerEvent::Failed) => (
            CommitState::Idle,
            CommitProgress::Aborted {
                error: failure_in(state),
                release_transaction: state.holds_transaction(),
            },
        ),
        (state, _) => (
            CommitState::Idle,
            CommitProgress::Aborted {
                error: CommitError::UnexpectedEvent,
                release_transaction: state.holds_transaction(),
            },
        ),
    }
}

/// Starts the commit of the block under `header`, built on `parent` and
/// carrying `ops`: the first request opens a transaction anchored at the
/// parent's sortition.
pub fn advance(parent: BlockSnapshot, header: BlockHeader, ops: Vec<StampedOperation>) -> (started:
    (CommitState, LedgerRequest))
    ensures
        started.0 == (CommitState::Opening { parent, header, ops }),
        started.1 == (LedgerRequest::BeginTransaction { anchor: parent.sortition_id }),
{
    (
        CommitState::Opening { parent, header, ops },
        LedgerRequest::BeginTransaction { anchor: parent.sortition_id },
    )
}

/// Takes the commit one step on: from `state`, on the ledger's `event`.
pub fn step(state: CommitState, event: LedgerEvent) -> (next: (CommitState, CommitProgress))
    ensures
        next == commit_step(state, event),
{
    let release_transaction = state.has_transaction();
    match event {
        LedgerEvent::Failed => {
            let error = match state {
                CommitState::Idle => CommitError::UnexpectedEvent,
                CommitState::Opening { .. } => CommitError::Begin,
                CommitState::Processing => CommitError::ProcessBlockOps,
                CommitState::Committing { .. } => CommitError::Commit,
            };
            (CommitState::Idle, CommitProgress::Aborted { error, release_transaction })
        },
        LedgerEvent::TransactionOpened => match state {
            CommitState::Opening { parent, header, ops } => (
                CommitState::Processing,
                CommitProgress::Request(LedgerRequest::ProcessBlockOps { parent, header, ops }),
            ),
            _ => (
                CommitState::Idle,
                CommitProgress::Aborted {
                    error: CommitError::UnexpectedEvent,
                    release_transaction,
                },
            ),
        },
        LedgerEvent::OpsProcessed { snapshot, transition } => match state {
            CommitState::Processing => (
                CommitState::Committing { snapshot, transition },
                CommitProgress::Request(LedgerRequest::Commit),
            ),
            _ => (
                CommitState::Idle,
                CommitProgress::Aborted {
                    error: CommitError::UnexpectedEvent,
                    release_transaction,
                },
            ),
        },
        LedgerEvent::Committed => match state {
            CommitState::Committing { snapshot, transition } => (
                CommitState::Idle,
                CommitProgress::Committed { snapshot, transition },
            ),
            _ => (
                CommitState::Idle,
                CommitProgress::Aborted {
                    error: CommitError::UnexpectedEvent,
                    release_transaction,
                },
            ),
        },
    }
}

/// The state the commit is in once the ledger has reported `events`, one
/// after another, from `state`.
pub open spec fn state_after(state: CommitState, events: Seq<LedgerEvent>) -> CommitState
    decreases events.len(),
{
    if events.len() == 0 {
        state
    } else {
        commit_step(state_after(state, events.drop_last()), events.last()).0
    }
}

/// What the step on the last of `events` hands back, the commit having
/// started in `state`.
pub open spec fn last_progress(state: CommitState, events: Seq<LedgerEvent>) -> CommitProgress
    recommends
        events.len() > 0,
{
    commit_step(state_after(state, events.drop_last()), events.last()).1
}

/// Every step either asks the ledger for more, with the transaction held
/// from then on, or ends the attempt in `Idle`. A step that commits was
/// waiting for the commit, and a step that gives up says to release the
/// transaction exactly when one is open.
pub proof fn lemma_step_outcomes(state: CommitState, event: LedgerEvent)
    ensures
        match commit_step(state, event).1 {
            CommitProgress::Request(request) => {
                &&& commit_step(state, event).0.holds_transaction()
                &&& !(request is BeginTransaction)
            },
            CommitProgress::Committed { snapshot, transition } => {
                &&& commit_step(state, event).0 is Idle
                &&& state == (CommitState::Committing { snapshot, transition })
                &&& event is Committed
            },
            CommitProgress::Aborted { error, release_transaction } => {
                &&& commit_step(state, event).0 is Idle
                &&& release_transaction == state.holds_transaction()
                &&& event is Failed ==> error == failure_in(state)
                &&& !(event is Failed) ==> error == CommitError::UnexpectedEvent
            },
        },
{
}

proof fn lemma_states_of_a_commit(start: CommitState, events: Seq<LedgerEvent>)
    requires
        start is Opening,
    ensures
        events.len() == 1 ==> state_after(start, events) == if events[0] is TransactionOpened {
            CommitState::Processing
        } else {
            CommitState::Idle
        },
        events.len() == 2 ==> state_after(start, events) == if events[0] is TransactionOpened {
            match events[1] {
                LedgerEvent::OpsProcessed { snapshot, transition } => CommitState::Committing {
                    snapshot,
                    transition,
                },
                _ => CommitState::Idle,
            }
        } else {
            CommitState::Idle
        },
        events.len() >= 3 ==> state_after(start, events) is Idle,
    decreases events.len(),
{
    if events.len() > 0 {
        let before = events.drop_last();
        lemma_states_of_a_commit(start, before);
        if events.len() == 1 {
            assert(before.len() == 0);
            assert(state_after(start, before) == start);
        } else if events.len() == 2 {
            assert(before[0] == events[0]);
        } else if events.len() == 3 {
            assert(before[0] == events[0]);
            assert(before[1] == events[1]);
        }
    }
}

/// A block is committed by three successes in a row and by nothing else.
/// Whatever the ledger reports, in whatever order and however often, the
/// step on the last report commits the block exactly when there were three
/// reports: the transaction opened, the operations processed, the
/// transaction committed. What is committed is then the snapshot and the
/// transition of the second report, as the ledger gave them.
pub proof fn lemma_commit_takes_three_successes(
    parent: BlockSnapshot,
    header: BlockHeader,
    ops: Vec<StampedOperation>,
    events: Seq<LedgerEvent>,
    snapshot: BlockSnapshot,
    transition: StateTransition,
)
    requires
        events.len() > 0,
    ensures
        last_progress(CommitState::Opening { parent, header, ops }, events) == (
        CommitProgress::Committed { snapshot, transition }) <==> {
            &&& events.len() == 3
            &&& events[0] is TransactionOpened
            &&& events[1] == (LedgerEvent::OpsProcessed { snapshot, transition })
            &&& events[2] is Committed
        },
{
    let start = CommitState::Opening { parent, header, ops };
    let before = events.drop_last();
    lemma_states_of_a_commit(start, before);
    lemma_step_outcomes(state_after(start, before), events.last());
    if events.len() == 1 {
        assert(state_after(start, before) == start);
    } else if events.len() == 3 {
        assert(before[0] == events[0]);
        assert(before[1] == events[1]);
    }
}

/// The ledger is handed the block once, and exactly as the commit was
/// started with it: the first report, if it says that the transaction is
/// open, is answered with the request to process the parent, the header and
/// the operations that `advance` was given.
pub proof fn lemma_block_reaches_ledger_unchanged(
    parent: BlockSnapshot,
    header: BlockHeader,
    ops: Vec<StampedOperation>,
    events: Seq<LedgerEvent>,
)
    requires
        events.len() > 0,
    ensures
        last_progress(CommitState::Opening { parent, header, ops }, events)
            is Request ==> events.len() <= 2,
        events.len() == 1 && events[0] is TransactionOpened ==> last_progress(
            CommitState::Opening { parent, header, ops },
            events,
        ) == CommitProgress::Request(LedgerRequest::ProcessBlockOps { parent, header, ops }),
        events.len() == 2 && last_progress(CommitState::Opening { parent, header, ops }, events)
            is Request ==> last_progress(CommitState::Opening { parent, header, ops }, events)
            == CommitProgress::Request(LedgerRequest::Commit),
{
    let start = CommitState::Opening { parent, header, ops };
    let before = events.drop_last();
    lemma_states_of_a_commit(start, before);
    if events.len() == 1 {
        assert(state_after(start, before) == start);
    }
}

} // verus!
