use vstd::prelude::*;
use crate::config::Config;
use crate::state::{BranchType, Outcome, State, TransactionType};
use crate::transaction::{Transaction, TransactionBranch};
use super::decision::{
    compensation_due_at, decide, invoke_or, pending_at, query_spec, record_spec, some_action_failed,
    Action,
};
use super::search::{
    first_where, last_where, lemma_first_is, lemma_first_none, lemma_last_is, lemma_last_none,
};

verus! {

fn find_first_pending(bs: &Vec<TransactionBranch>, role: BranchType) -> (r: Option<usize>)
    ensures
        match r {
            Some(i) => first_where(bs@.len() as int, pending_at(bs@, role)) == Some(i as int),
            None => first_where(bs@.len() as int, pending_at(bs@, role)) is None,
        },
{
    let n = bs.len();
    let mut i: usize = 0;
    while i < n
        invariant
            n == bs@.len(),
            i <= n,
            forall|j: int| 0 <= j < i ==> !#[trigger] pending_at(bs@, role)(j),
        decreases n - i,
    {
        if bs[i].branch_type == role && bs[i].state == State::Prepared {
            proof {
                lemma_first_is(n as int, pending_at(bs@, role), i as int);
            }
            return Some(i);
        }
        i = i + 1;
    }
    proof {
        lemma_first_none(n as int, pending_at(bs@, role));
    }
    None
}

fn find_last_pending(bs: &Vec<TransactionBranch>, role: BranchType) -> (r: Option<usize>)
    ensures
        match r {
            Some(i) => last_where(bs@.len() as int, pending_at(bs@, role)) == Some(i as int),
            None => last_where(bs@.len() as int, pending_at(bs@, role)) is None,
        },
{
    let n = bs.len();
    let mut i: usize = n;
    while i > 0
        invariant
            n == bs@.len(),
            i <= n,
            forall|j: int| i <= j < n ==> !#[trigger] pending_at(bs@, role)(j),
        decreases i,
    {
        if bs[i - 1].branch_type == role && bs[i - 1].state == State::Prepared {
            proof {
                lemma_last_is(n as int, pending_at(bs@, role), i - 1);
            }
            return Some(i - 1);
        }
        i = i - 1;
    }
    proof {
        lemma_last_none(n as int, pending_at(bs@, role));
    }
    None
}

fn find_last_compensation_due(bs: &Vec<TransactionBranch>) -> (r: Option<usize>)
    ensures
        match r {
            Some(i) => last_where(bs@.len() as int, compensation_due_at(bs@)) == Some(i as int),
            None => last_where(bs@.len() as int, compensation_due_at(bs@)) is None,
        },
{
    let n = bs.len();
    let mut i: usize = n;
    while i > 0
        invariant
            n == bs@.len(),
            i <= n,
            forall|j: int| i <= j < n ==> !#[trigger] compensation_due_at(bs@)(j),
        decreases i,
    {
        let k = i - 1;
        if bs[k].branch_type == BranchType::Compensate && bs[k].state == State::Prepared && k + 1
            < n && bs[k + 1].branch_type == BranchType::Action && bs[k + 1].state
            == State::Succeed {
            proof {
                lemma_last_is(n as int, compensation_due_at(bs@), k as int);
            }
            return Some(k);
        }
        i = k;
    }
    proof {
        lemma_last_none(n as int, compensation_due_at(bs@));
    }
    None
}

fn any_action_failed(bs: &Vec<TransactionBranch>) -> (r: bool)
    ensures
        r == some_action_failed(bs@),
{
    let n = bs.len();
    let mut i: usize = 0;
    while i < n
        invariant
            n == bs@.len(),
            i <= n,
            forall|j: int|
                0 <= j < i ==> !(#[trigger] bs@[j].branch_type == BranchType::Action && bs@[j].state
                    == State::Failed),
        decreases n - i,
    {
        if bs[i].branch_type == BranchType::Action && bs[i].state == State::Failed {
            return true;
        }
        i = i + 1;
    }
    false
}

fn invoke_or_exec(found: Option<usize>, otherwise: State) -> (r: Action)
    ensures
        r == invoke_or(
            match found {
                Some(i) => Some(i as int),
                None => None,
            },
            otherwise,
        ),
{
    match found {
        Some(i) => Action::Invoke(i),
        None => Action::Transition(otherwise),
    }
}

/// One processing attempt on a transaction and its branches, as a state
/// machine: `next_action` says what to do, the caller does it and hands the
/// outcome back through `record_branch` or `record_query`.
pub struct Processor {
    pub tx: Transaction,
    /// The transaction's branches, in creation order.
    pub branches: Vec<TransactionBranch>,
    /// Interval that a state change reschedules the transaction with.
    pub base_delay: i64,
    /// An outcome in this attempt was indeterminate: the attempt is over.
    pub stalled: bool,
    /// The message precondition was confirmed in this attempt.
    pub confirmed: bool,
}

impl Processor {
    pub fn new(tx: Transaction, branches: Vec<TransactionBranch>, config: &Config) -> (r: Processor)
        requires
            config.wf(),
        ensures
            r.tx == tx,
            r.branches@ == branches@,
            r.base_delay == config.delay,
            !r.stalled,
            !r.confirmed,
    {
        Processor { tx, branches, base_delay: config.delay, stalled: false, confirmed: false }
    }

    pub open spec fn spec_next(&self) -> Action {
        decide(self.tx, self.branches@, self.stalled, self.confirmed)
    }

    /// Decides the next step. A state change is made here, on `tx`, and
    /// reported as `Transition`; nothing else changes.
    pub fn next_action(&mut self, now: i64) -> (r: Action)
        requires
            old(self).base_delay >= 0,
        ensures
            r == old(self).spec_next(),
            final(self).branches@ == old(self).branches@,
            final(self).base_delay == old(self).base_delay,
            final(self).stalled == old(self).stalled,
            final(self).confirmed == old(self).confirmed,
            final(self).tx == match r {
                Action::Transition(s) => old(self).tx.with_state(s, now, old(self).base_delay),
                _ => old(self).tx,
            },
    {
        if self.tx.state.is_terminal() || self.stalled {
            return Action::Done;
        }
        let action = match self.tx.tx_type {
            TransactionType::Xa => match self.tx.state {
                State::Prepared => Action::Transition(State::Aborting),
                State::Submitted => invoke_or_exec(
                    find_first_pending(&self.branches, BranchType::Commit),
                    State::Succeed,
                ),
                _ => invoke_or_exec(
                    find_first_pending(&self.branches, BranchType::Rollback),
                    State::Failed,
                ),
            },
            TransactionType::Tcc => match self.tx.state {
                State::Prepared => Action::Transition(State::Aborting),
                State::Submitted => invoke_or_exec(
                    find_last_pending(&self.branches, BranchType::Confirm),
                    State::Succeed,
                ),
                _ => invoke_or_exec(
                    find_last_pending(&self.branches, BranchType::Cancel),
                    State::Failed,
                ),
            },
            TransactionType::Saga => match self.tx.state {
                State::Submitted => if any_action_failed(&self.branches) {
                    Action::Transition(State::Aborting)
                } else {
                    invoke_or_exec(
                        find_first_pending(&self.branches, BranchType::Action),
                        State::Succeed,
                    )
                },
                State::Aborting => invoke_or_exec(
                    find_last_compensation_due(&self.branches),
                    State::Failed,
                ),
                _ => Action::Done,
            },
            TransactionType::Message => match self.tx.state {
                State::Prepared => if self.confirmed {
                    Action::Transition(State::Submitted)
                } else {
                    Action::QueryPrepared
                },
                State::Submitted => invoke_or_exec(
                    find_first_pending(&self.branches, BranchType::Action),
                    State::Succeed,
                ),
                _ => Action::Done,
            },
        };
        if let Action::Transition(s) = action {
            let r = self.tx.update_state(s, now, self.base_delay);
            assert(r is Ok);
        }
        action
    }

    /// Records outcome `o` of the call on branch `i`; true when the branch
    /// changed state and is to be persisted.
    pub fn record_branch(&mut self, i: usize, o: Outcome, now: i64) -> (changed: bool)
        requires
            i < old(self).branches@.len(),
        ensures
            (final(self).branches@, final(self).stalled) == record_spec(
                old(self).tx,
                old(self).branches@,
                old(self).stalled,
                i as int,
                o,
                now,
            ),
            changed == (final(self).branches@ != old(self).branches@),
            final(self).tx == old(self).tx,
            final(self).base_delay == old(self).base_delay,
            final(self).confirmed == old(self).confirmed,
    {
        if self.tx.state.is_terminal() {
            return false;
        }
        let b = &self.branches[i];
        if b.state != State::Prepared {
            return false;
        }
        let failure_counts = match (self.tx.tx_type, b.branch_type) {
            (TransactionType::Message, _) => false,
            (_, BranchType::Try) | (_, BranchType::Action) => true,
            _ => false,
        };
        let result = match o {
            Outcome::Succeeded => Some(State::Succeed),
            Outcome::Failed => if failure_counts {
                Some(State::Failed)
            } else {
                None
            },
            Outcome::Indeterminate => None,
        };
        match result {
            Some(s) => {
                let nb = TransactionBranch {
                    gid: b.gid,
                    branch_id: b.branch_id,
                    branch_type: b.branch_type,
                    state: s,
                    url: b.url.clone(),
                    payload: b.payload.clone(),
                    finished_at: Some(now),
                    created_at: b.created_at,
                    last_modified: now,
                };
                let ghost old_bs = self.branches@;
                self.branches.set(i, nb);
                assert(self.branches@[i as int].state != old_bs[i as int].state);
                true
            },
            None => {
                self.stalled = true;
                false
            },
        }
    }

    /// Records outcome `o` of the precondition query.
    pub fn record_query(&mut self, o: Outcome)
        ensures
            (final(self).stalled, final(self).confirmed) == query_spec(
                old(self).tx,
                old(self).stalled,
                old(self).confirmed,
                o,
            ),
            final(self).tx == old(self).tx,
            final(self).branches@ == old(self).branches@,
            final(self).base_delay == old(self).base_delay,
    {
        if self.tx.tx_type == TransactionType::Message && self.tx.state == State::Prepared {
            if o == Outcome::Succeeded {
                self.confirmed = true;
            } else {
                self.stalled = true;
            }
        }
    }
}

} // verus!
