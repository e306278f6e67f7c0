use vstd::prelude::*;
use crate::state::{BranchType, Outcome, State, TransactionType};
use crate::transaction::{Transaction, TransactionBranch};
use super::search::{first_where, last_where};

verus! {

/// What the coordinator is to do next in one processing attempt.
#[derive(Clone, Copy, Debug, PartialEq, Eq, Structural)]
pub enum Action {
    /// Call the participant of the branch at this index and record the outcome.
    Invoke(usize),
    /// Ask the transaction's `query_prepared` callback and record the outcome.
    QueryPrepared,
    /// The transaction has moved to this state in memory; persist it.
    Transition(State),
    /// Nothing more in this attempt.
    Done,
}

/// A branch of role `role` that has not been carried out yet.
pub open spec fn pending(b: TransactionBranch, role: BranchType) -> bool {
    b.branch_type == role && b.state == State::Prepared
}

pub open spec fn pending_at(bs: Seq<TransactionBranch>, role: BranchType) -> spec_fn(int) -> bool {
    |i: int| pending(bs[i], role)
}

/// The compensation at `i` is owed: it has not run, and the action of its step,
/// which follows it, has succeeded.
pub open spec fn compensation_due(bs: Seq<TransactionBranch>, i: int) -> bool {
    &&& pending(bs[i], BranchType::Compensate)
    &&& i + 1 < bs.len()
    &&& bs[i + 1].branch_type == BranchType::Action
    &&& bs[i + 1].state == State::Succeed
}

pub open spec fn compensation_due_at(bs: Seq<TransactionBranch>) -> spec_fn(int) -> bool {
    |i: int| compensation_due(bs, i)
}

pub open spec fn invoke_or(found: Option<int>, otherwise: State) -> Action {
    match found {
        Some(i) => Action::Invoke(i as usize),
        None => Action::Transition(otherwise),
    }
}

/// The role whose branches decide an XA or TCC transaction in this state:
/// commit/confirm once submitted, rollback/cancel otherwise.
pub open spec fn decision_role(t: TransactionType, s: State) -> BranchType {
    if t == TransactionType::Xa {
        if s == State::Submitted {
            BranchType::Commit
        } else {
            BranchType::Rollback
        }
    } else {
        if s == State::Submitted {
            BranchType::Confirm
        } else {
            BranchType::Cancel
        }
    }
}

/// XA: a prepared transaction is first marked Aborting; then every commit (or
/// rollback) branch is called in creation order.
pub open spec fn xa_decide(s: State, bs: Seq<TransactionBranch>) -> Action {
    match s {
        State::Prepared => Action::Transition(State::Aborting),
        State::Submitted => invoke_or(
            first_where(bs.len() as int, pending_at(bs, BranchType::Commit)),
            State::Succeed,
        ),
        _ => invoke_or(
            first_where(bs.len() as int, pending_at(bs, BranchType::Rollback)),
            State::Failed,
        ),
    }
}

/// TCC: as XA, with confirm and cancel branches, called from the last created.
pub open spec fn tcc_decide(s: State, bs: Seq<TransactionBranch>) -> Action {
    match s {
        State::Prepared => Action::Transition(State::Aborting),
        State::Submitted => invoke_or(
            last_where(bs.len() as int, pending_at(bs, BranchType::Confirm)),
            State::Succeed,
        ),
        _ => invoke_or(
            last_where(bs.len() as int, pending_at(bs, BranchType::Cancel)),
            State::Failed,
        ),
    }
}

pub open spec fn some_action_failed(bs: Seq<TransactionBranch>) -> bool {
    exists|i: int|
        0 <= i < bs.len() && #[trigger] bs[i].branch_type == BranchType::Action && bs[i].state
            == State::Failed
}

/// Saga: actions one at a time in creation order; after a failed action, the
/// compensations of succeeded steps from the last one back.
pub open spec fn saga_decide(s: State, bs: Seq<TransactionBranch>) -> Action {
    match s {
        State::Submitted => if some_action_failed(bs) {
            Action::Transition(State::Aborting)
        } else {
            invoke_or(
                first_where(bs.len() as int, pending_at(bs, BranchType::Action)),
                State::Succeed,
            )
        },
        State::Aborting => invoke_or(
            last_where(bs.len() as int, compensation_due_at(bs)),
            State::Failed,
        ),
        _ => Action::Done,
    }
}

/// Message: a prepared transaction waits for its precondition; once submitted,
/// its actions are delivered in creation order.
pub open spec fn message_decide(s: State, bs: Seq<TransactionBranch>, confirmed: bool) -> Action {
    match s {
        State::Prepared => if confirmed {
            Action::Transition(State::Submitted)
        } else {
            Action::QueryPrepared
        },
        State::Submitted => invoke_or(
            first_where(bs.len() as int, pending_at(bs, BranchType::Action)),
            State::Succeed,
        ),
        _ => Action::Done,
    }
}

/// The next step of an attempt on `tx` with branches `bs`. `stalled` says that
/// an outcome in this attempt was indeterminate; `confirmed` that the message
/// precondition was confirmed.
pub open spec fn decide(
    tx: Transaction,
    bs: Seq<TransactionBranch>,
    stalled: bool,
    confirmed: bool,
) -> Action {
    if tx.state.spec_is_terminal() || stalled {
        Action::Done
    } else {
        match tx.tx_type {
            TransactionType::Xa => xa_decide(tx.state, bs),
            TransactionType::Tcc => tcc_decide(tx.state, bs),
            TransactionType::Saga => saga_decide(tx.state, bs),
            TransactionType::Message => message_decide(tx.state, bs, confirmed),
        }
    }
}

/// A failure sentinel counts on try and action branches, except in the message
/// pattern, whose deliveries are retried rather than failed.
pub open spec fn failure_counts(t: TransactionType, role: BranchType) -> bool {
    t != TransactionType::Message && (role == BranchType::Try || role == BranchType::Action)
}

/// The state a prepared branch takes from outcome `o`; None leaves it prepared.
pub open spec fn branch_result(t: TransactionType, role: BranchType, o: Outcome) -> Option<State> {
    match o {
        Outcome::Succeeded => Some(State::Succeed),
        Outcome::Failed => if failure_counts(t, role) {
            Some(State::Failed)
        } else {
            None
        },
        Outcome::Indeterminate => None,
    }
}

/// Branches and stall flag after outcome `o` of the call on branch `i`: a live
/// transaction's prepared branch takes the outcome's state, or the attempt
/// stalls where the outcome settles nothing.
pub open spec fn record_spec(
    tx: Transaction,
    bs: Seq<TransactionBranch>,
    stalled: bool,
    i: int,
    o: Outcome,
    now: i64,
) -> (Seq<TransactionBranch>, bool) {
    let b = bs[i];
    if tx.state.spec_is_terminal() || b.state != State::Prepared {
        (bs, stalled)
    } else {
        match branch_result(tx.tx_type, b.branch_type, o) {
            Some(s) => (bs.update(i, b.finished(s, now)), stalled),
            None => (bs, true),
        }
    }
}

/// Stall and confirmation flags after outcome `o` of the precondition query: it
/// counts only for a message transaction that is still prepared.
pub open spec fn query_spec(tx: Transaction, stalled: bool, confirmed: bool, o: Outcome) -> (
    bool,
    bool,
) {
    if tx.tx_type == TransactionType::Message && tx.state == State::Prepared {
        if o == Outcome::Succeeded {
            (stalled, true)
        } else {
            (true, confirmed)
        }
    } else {
        (stalled, confirmed)
    }
}

} // verus!
