use vstd::prelude::*;
use crate::config::Config;
use crate::errors::Error;
use crate::state::{BranchType, State, TransactionType};

verus! {

/// `now + d` seconds, held at the largest timestamp rather than wrapping.
pub open spec fn spec_after(now: i64, d: i64) -> i64 {
    if now > i64::MAX - d {
        i64::MAX
    } else {
        (now + d) as i64
    }
}

pub fn after(now: i64, d: i64) -> (r: i64)
    requires
        0 <= d,
    ensures
        r == spec_after(now, d),
{
    if now > i64::MAX - d {
        i64::MAX
    } else {
        now + d
    }
}

/// The state changes that a transaction of type `t` may make.
pub open spec fn allowed_transition(t: TransactionType, from: State, to: State) -> bool {
    match (from, to) {
        (State::Prepared, State::Submitted) => true,
        (State::Prepared, State::Aborting) => t == TransactionType::Xa || t == TransactionType::Tcc,
        (State::Submitted, State::Succeed) => true,
        (State::Submitted, State::Aborting) => t == TransactionType::Saga,
        (State::Aborting, State::Failed) => t != TransactionType::Message,
        _ => false,
    }
}

/// One global transaction. Times are seconds since the Unix epoch.
pub struct Transaction {
    pub gid: u128,
    pub tx_type: TransactionType,
    pub state: State,
    pub payload: String,
    pub query_prepared: String,
    pub committed_at: Option<i64>,
    pub finished_at: Option<i64>,
    pub rollbacked_at: Option<i64>,
    /// Current backoff interval, in seconds.
    pub delay: i64,
    /// Earliest time at which the scheduler may claim the transaction.
    pub scheduled_at: i64,
    pub created_at: i64,
    pub last_modified: i64,
}

impl Transaction {
    /// A fresh transaction in state Prepared, due after the base interval.
    pub open spec fn spec_created(
        gid: u128,
        tx_type: TransactionType,
        payload: Seq<char>,
        query_prepared: Seq<char>,
        now: i64,
        delay: i64,
        r: Transaction,
    ) -> bool {
        &&& r.gid == gid
        &&& r.tx_type == tx_type
        &&& r.state == State::Prepared
        &&& r.payload@ == payload
        &&& r.query_prepared@ == query_prepared
        &&& r.committed_at is None
        &&& r.finished_at is None
        &&& r.rollbacked_at is None
        &&& r.delay == delay
        &&& r.scheduled_at == spec_after(now, delay)
        &&& r.created_at == now
        &&& r.last_modified == now
    }

    pub fn create(
        gid: u128,
        tx_type: TransactionType,
        payload: String,
        query_prepared: String,
        now: i64,
        config: &Config,
    ) -> (r: Transaction)
        requires
            config.wf(),
        ensures
            Self::spec_created(gid, tx_type, payload@, query_prepared@, now, config.delay, r),
    {
        Transaction {
            gid,
            tx_type,
            state: State::Prepared,
            payload,
            query_prepared,
            committed_at: None,
            finished_at: None,
            rollbacked_at: None,
            delay: config.delay,
            scheduled_at: after(now, config.delay),
            created_at: now,
            last_modified: now,
        }
    }

    pub fn gid(&self) -> (r: u128)
        ensures
            r == self.gid,
    {
        self.gid
    }

    pub fn payload(&self) -> (r: &str)
        ensures
            r@ == self.payload@,
    {
        self.payload.as_str()
    }

    pub fn state(&self) -> (r: State)
        ensures
            r == self.state,
    {
        self.state
    }

    pub fn tx_type(&self) -> (r: TransactionType)
        ensures
            r == self.tx_type,
    {
        self.tx_type
    }

    pub fn query_prepared(&self) -> (r: &str)
        ensures
            r@ == self.query_prepared@,
    {
        self.query_prepared.as_str()
    }

    /// The record after a move to `s` at `now`; the backoff starts again from `base`.
    pub open spec fn with_state(self, s: State, now: i64, base: i64) -> Transaction {
        Transaction {
            state: s,
            delay: base,
            scheduled_at: spec_after(now, base),
            last_modified: now,
            committed_at: if s == State::Submitted {
                Some(now)
            } else {
                self.committed_at
            },
            finished_at: if s == State::Succeed {
                Some(now)
            } else {
                self.finished_at
            },
            rollbacked_at: if s == State::Failed {
                Some(now)
            } else {
                self.rollbacked_at
            },
            ..self
        }
    }

    /// Moves to `state` where the pattern allows it; otherwise changes nothing.
    pub fn update_state(&mut self, state: State, now: i64, base_delay: i64) -> (r: Result<(), Error>)
        requires
            0 <= base_delay,
        ensures
            allowed_transition(old(self).tx_type, old(self).state, state) ==> {
                &&& r is Ok
                &&& *final(self) == old(self).with_state(state, now, base_delay)
            },
            !allowed_transition(old(self).tx_type, old(self).state, state) ==> {
                &&& r == Err::<(), Error>(Error::IllegalTransition(old(self).state, state))
                &&& *final(self) == *old(self)
            },
    {
        let allowed = match (self.state, state) {
            (State::Prepared, State::Submitted) => true,
            (State::Prepared, State::Aborting) => match self.tx_type {
                TransactionType::Xa | TransactionType::Tcc => true,
                _ => false,
            },
            (State::Submitted, State::Succeed) => true,
            (State::Submitted, State::Aborting) => match self.tx_type {
                TransactionType::Saga => true,
                _ => false,
            },
            (State::Aborting, State::Failed) => match self.tx_type {
                TransactionType::Message => false,
                _ => true,
            },
            _ => false,
        };
        if !allowed {
            return Err(Error::IllegalTransition(self.state, state));
        }
        self.state = state;
        self.delay = base_delay;
        self.scheduled_at = after(now, base_delay);
        self.last_modified = now;
        match state {
            State::Submitted => {
                self.committed_at = Some(now);
            },
            State::Succeed => {
                self.finished_at = Some(now);
            },
            State::Failed => {
                self.rollbacked_at = Some(now);
            },
            _ => {},
        }
        Ok(())
    }

    /// The record rescheduled at `now` with interval `delay`.
    pub open spec fn touched(self, delay: i64, now: i64) -> Transaction {
        Transaction { delay, scheduled_at: spec_after(now, delay), last_modified: now, ..self }
    }

    /// Reschedules a live transaction to `now + delay`; a terminal one is left as it is.
    pub fn touch(&mut self, delay: i64, now: i64)
        requires
            0 <= delay,
        ensures
            old(self).state.spec_is_terminal() ==> *final(self) == *old(self),
            !old(self).state.spec_is_terminal() ==> *final(self) == old(self).touched(delay, now),
    {
        if self.state.is_terminal() {
            return ;
        }
        self.delay = delay;
        self.scheduled_at = after(now, delay);
        self.last_modified = now;
    }

    /// The record after a request moved it to `s` at `now`: as `with_state`,
    /// but due at once, so that the request's own processing attempt can claim it.
    pub open spec fn requested(self, s: State, now: i64, base: i64) -> Transaction {
        Transaction { scheduled_at: now, ..self.with_state(s, now, base) }
    }

    /// Submission: Prepared becomes Submitted and due at once, Submitted stays
    /// as it is, any other state refuses.
    pub fn submit(&mut self, now: i64, base_delay: i64) -> (r: Result<(), Error>)
        requires
            0 <= base_delay,
        ensures
            old(self).state == State::Prepared ==> r is Ok && *final(self) == old(self).requested(
                State::Submitted,
                now,
                base_delay,
            ),
            old(self).state == State::Submitted ==> r is Ok && *final(self) == *old(self),
            old(self).state != State::Prepared && old(self).state != State::Submitted ==> r
                == Err::<(), Error>(Error::CannotSubmitTransaction(old(self).gid, old(self).state))
                && *final(self) == *old(self),
    {
        match self.state {
            State::Prepared => {
                let r = self.update_state(State::Submitted, now, base_delay);
                self.scheduled_at = now;
                r
            },
            State::Submitted => Ok(()),
            _ => Err(Error::CannotSubmitTransaction(self.gid, self.state)),
        }
    }

    /// Abort: only XA and TCC transactions, from Prepared (which becomes
    /// Aborting and due at once) or Aborting (which stays).
    pub fn abort(&mut self, now: i64, base_delay: i64) -> (r: Result<(), Error>)
        requires
            0 <= base_delay,
        ensures
            ({
                let ok_type = old(self).tx_type == TransactionType::Xa || old(self).tx_type
                    == TransactionType::Tcc;
                &&& (ok_type && old(self).state == State::Prepared) ==> r is Ok && *final(self)
                    == old(self).requested(State::Aborting, now, base_delay)
                &&& (ok_type && old(self).state == State::Aborting) ==> r is Ok && *final(self)
                    == *old(self)
                &&& !(ok_type && (old(self).state == State::Prepared || old(self).state
                    == State::Aborting)) ==> r == Err::<(), Error>(
                    Error::UnexpectedType(old(self).tx_type, old(self).state),
                ) && *final(self) == *old(self)
            }),
    {
        match (self.tx_type, self.state) {
            (TransactionType::Xa, State::Prepared) | (TransactionType::Tcc, State::Prepared) => {
                let r = self.update_state(State::Aborting, now, base_delay);
                self.scheduled_at = now;
                r
            },
            (TransactionType::Xa, State::Aborting) | (TransactionType::Tcc, State::Aborting) => {
                Ok(())
            },
            _ => Err(Error::UnexpectedType(self.tx_type, self.state)),
        }
    }
}

/// One participant-facing operation of a global transaction.
pub struct TransactionBranch {
    pub gid: u128,
    /// Groups the branches of one participant (a try/confirm/cancel triple, one
    /// saga step's action and compensation).
    pub branch_id: u128,
    pub branch_type: BranchType,
    pub state: State,
    pub url: String,
    pub payload: String,
    pub finished_at: Option<i64>,
    pub created_at: i64,
    pub last_modified: i64,
}

impl TransactionBranch {
    pub open spec fn spec_new(
        gid: u128,
        branch_id: u128,
        branch_type: BranchType,
        state: State,
        url: Seq<char>,
        payload: Seq<char>,
        now: i64,
        r: TransactionBranch,
    ) -> bool {
        &&& r.gid == gid
        &&& r.branch_id == branch_id
        &&& r.branch_type == branch_type
        &&& r.state == state
        &&& r.url@ == url
        &&& r.payload@ == payload
        &&& r.finished_at is None
        &&& r.created_at == now
        &&& r.last_modified == now
    }

    pub fn new(
        gid: u128,
        branch_id: u128,
        branch_type: BranchType,
        state: State,
        url: String,
        payload: String,
        now: i64,
    ) -> (r: TransactionBranch)
        ensures
            Self::spec_new(gid, branch_id, branch_type, state, url@, payload@, now, r),
    {
        TransactionBranch {
            gid,
            branch_id,
            branch_type,
            state,
            url,
            payload,
            finished_at: None,
            created_at: now,
            last_modified: now,
        }
    }

    pub fn branch_type(&self) -> (r: BranchType)
        ensures
            r == self.branch_type,
    {
        self.branch_type
    }

    pub fn state(&self) -> (r: State)
        ensures
            r == self.state,
    {
        self.state
    }

    pub fn url(&self) -> (r: &str)
        ensures
            r@ == self.url@,
    {
        self.url.as_str()
    }

    pub fn payload(&self) -> (r: &str)
        ensures
            r@ == self.payload@,
    {
        self.payload.as_str()
    }

    pub fn branch_id(&self) -> (r: u128)
        ensures
            r == self.branch_id,
    {
        self.branch_id
    }

    pub fn with_type(&mut self, branch_type: BranchType)
        ensures
            *final(self) == (TransactionBranch { branch_type, ..*old(self) }),
    {
        self.branch_type = branch_type;
    }

    /// A branch moves once, from Prepared to Succeed or Failed.
    pub open spec fn may_become(self, state: State) -> bool {
        self.state == State::Prepared && state.spec_is_terminal()
    }

    pub open spec fn finished(self, state: State, now: i64) -> TransactionBranch {
        TransactionBranch { state, finished_at: Some(now), last_modified: now, ..self }
    }

    /// Records the branch's final state; a branch that has one keeps it.
    pub fn update_state(&mut self, state: State, now: i64) -> (r: Result<(), Error>)
        ensures
            old(self).may_become(state) ==> r is Ok && *final(self) == old(self).finished(state, now),
            !old(self).may_become(state) ==> {
                &&& r == Err::<(), Error>(Error::IllegalTransition(old(self).state, state))
                &&& *final(self) == *old(self)
            },
    {
        match (self.state, state) {
            (State::Prepared, State::Succeed) | (State::Prepared, State::Failed) => {
                self.state = state;
                self.finished_at = Some(now);
                self.last_modified = now;
                Ok(())
            },
            _ => Err(Error::IllegalTransition(self.state, state)),
        }
    }
}

/// The identifiers sent along with a branch call.
pub struct BranchParam {
    pub gid: u128,
    pub branch_id: u128,
    pub tx_type: TransactionType,
    pub branch_type: BranchType,
}

impl Transaction {
    pub fn branch_params(&self, branch: &TransactionBranch) -> (r: BranchParam)
        ensures
            r == (BranchParam {
                gid: self.gid,
                branch_id: branch.branch_id,
                tx_type: self.tx_type,
                branch_type: branch.branch_type,
            }),
    {
        BranchParam {
            gid: self.gid,
            branch_id: branch.branch_id,
            tx_type: self.tx_type,
            branch_type: branch.branch_type,
        }
    }
}

} // verus!
