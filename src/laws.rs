use vstd::prelude::*;
use vstd::arithmetic::power2::{lemma_pow2_unfold, pow2};
use crate::config::Config;
use crate::processors::decision::{
    compensation_due, compensation_due_at, decide, decision_role, pending, pending_at, query_spec,
    record_spec, some_action_failed, Action,
};
use crate::processors::search::{
    first_where, last_where, lemma_first_is, lemma_first_none, lemma_first_some, lemma_last_some,
};
use crate::scheduler::{spec_claimable, spec_claimed, spec_next_delay, spec_wait};
use crate::state::{BranchType, Outcome, State, TransactionType};
use crate::transaction::{allowed_transition, Transaction, TransactionBranch};

verus! {

/// Branch states are only ever Prepared, Succeed or Failed.
pub open spec fn branch_states_valid(bs: Seq<TransactionBranch>) -> bool {
    forall|j: int|
        0 <= j < bs.len() ==> (#[trigger] bs[j].state == State::Prepared || bs[j].state
            == State::Succeed || bs[j].state == State::Failed)
}

/// Saga branches come in steps: the compensation at an even index, its action
/// right after it.
pub open spec fn saga_layout(bs: Seq<TransactionBranch>) -> bool {
    &&& bs.len() % 2 == 0
    &&& forall|j: int|
        0 <= j < bs.len() ==> (#[trigger] bs[j].branch_type == BranchType::Compensate <==> j % 2
            == 0)
    &&& forall|j: int|
        0 <= j < bs.len() ==> (#[trigger] bs[j].branch_type == BranchType::Action <==> j % 2 == 1)
}

/// Terminality: once a transaction is Succeed or Failed, an attempt on it does
/// nothing. Its next step is Done, no outcome changes a branch or the attempt,
/// no state change is allowed, and the scheduler never claims it again.
pub proof fn terminal_transaction_is_final(
    tx: Transaction,
    bs: Seq<TransactionBranch>,
    stalled: bool,
    confirmed: bool,
    i: int,
    o: Outcome,
    now: i64,
    s: State,
)
    requires
        tx.state.spec_is_terminal(),
        0 <= i < bs.len(),
    ensures
        decide(tx, bs, stalled, confirmed) == Action::Done,
        record_spec(tx, bs, stalled, i, o, now) == (bs, stalled),
        query_spec(tx, stalled, confirmed, o) == (stalled, confirmed),
        !allowed_transition(tx.tx_type, tx.state, s),
        !spec_claimable(tx, now),
{
}

/// Every state change that an attempt makes is one the transaction's pattern
/// allows; so states only move forward, and a terminal state is reached only
/// through them.
pub proof fn transitions_follow_state_machine(
    tx: Transaction,
    bs: Seq<TransactionBranch>,
    stalled: bool,
    confirmed: bool,
)
    ensures
        decide(tx, bs, stalled, confirmed) matches Action::Transition(s) ==> allowed_transition(
            tx.tx_type,
            tx.state,
            s,
        ),
{
}

/// Saga, forward: while no action has failed, actions are called one at a
/// time in creation order (every earlier action has succeeded); once one has
/// failed, the saga turns to Aborting.
pub proof fn saga_actions_run_in_order(tx: Transaction, bs: Seq<TransactionBranch>, confirmed: bool)
    requires
        tx.tx_type == TransactionType::Saga,
        tx.state == State::Submitted,
        branch_states_valid(bs),
        bs.len() <= usize::MAX,
    ensures
        decide(tx, bs, false, confirmed) matches Action::Invoke(i) ==> {
            &&& 0 <= i < bs.len()
            &&& bs[i as int].branch_type == BranchType::Action
            &&& bs[i as int].state == State::Prepared
            &&& forall|j: int|
                0 <= j < i && #[trigger] bs[j].branch_type == BranchType::Action ==> bs[j].state
                    == State::Succeed
        },
        (exists|k: int|
            0 <= k < bs.len() && #[trigger] bs[k].branch_type == BranchType::Action && bs[k].state
                == State::Failed) ==> decide(tx, bs, false, confirmed) == Action::Transition(
            State::Aborting,
        ),
{
    lemma_first_some(bs.len() as int, pending_at(bs, BranchType::Action));
    if let Action::Invoke(i) = decide(tx, bs, false, confirmed) {
        let f = first_where(bs.len() as int, pending_at(bs, BranchType::Action));
        assert(f == Some(i as int));
        assert forall|j: int|
            0 <= j < i && #[trigger] bs[j].branch_type == BranchType::Action implies bs[j].state
            == State::Succeed by {
            assert(!pending_at(bs, BranchType::Action)(j));
        }
    }
}

/// Saga, backward: when the action of step `k` has failed after steps
/// `0..k` succeeded, the compensations called are exactly those of steps
/// `0..k`, from the last back to the first; none for step `k` or later. The
/// saga becomes Failed once they are all done.
pub proof fn saga_compensates_completed_steps_in_reverse(
    tx: Transaction,
    bs: Seq<TransactionBranch>,
    confirmed: bool,
    k: int,
)
    requires
        tx.tx_type == TransactionType::Saga,
        tx.state == State::Aborting,
        saga_failed_at(bs, k),
        bs.len() <= usize::MAX,
    ensures
        match decide(tx, bs, false, confirmed) {
            Action::Invoke(i) => {
                &&& i % 2 == 0
                &&& i / 2 < k
                &&& bs[i as int].branch_type == BranchType::Compensate
                &&& bs[i as int].state == State::Prepared
                &&& forall|j: int| i / 2 < j < k ==> #[trigger] bs[2 * j].state != State::Prepared
            },
            Action::Transition(s) => {
                &&& s == State::Failed
                &&& forall|j: int| 0 <= j < k ==> #[trigger] bs[2 * j].state != State::Prepared
            },
            _ => false,
        },
{
    let n = bs.len() as int;
    lemma_last_some(n, compensation_due_at(bs));
    match decide(tx, bs, false, confirmed) {
        Action::Invoke(iu) => {
            let i = iu as int;
            let f = last_where(n, compensation_due_at(bs));
            assert(f == Some(i));
            assert(compensation_due_at(bs)(i));
            assert(compensation_due(bs, i));
            assert(i % 2 == 0);
            let m = i / 2;
            assert(i == 2 * m);
            assert(bs[2 * m + 1].state == State::Succeed);
            if m >= k {
                if m == k {
                    assert(bs[2 * k + 1].state == State::Failed);
                } else {
                    assert(bs[2 * m + 1].state == State::Prepared);
                }
            }
            assert forall|j: int| i / 2 < j < k implies #[trigger] bs[2 * j].state
                != State::Prepared by {
                assert(bs[2 * j + 1].state == State::Succeed);
                assert(bs[2 * j].branch_type == BranchType::Compensate);
                assert((2 * j + 1) % 2 == 1);
                assert(bs[2 * j + 1].branch_type == BranchType::Action);
                assert(!compensation_due_at(bs)(2 * j));
            }
        },
        Action::Transition(s) => {
            assert forall|j: int| 0 <= j < k implies #[trigger] bs[2 * j].state
                != State::Prepared by {
                assert(bs[2 * j + 1].state == State::Succeed);
                assert(bs[2 * j].branch_type == BranchType::Compensate);
                assert((2 * j + 1) % 2 == 1);
                assert(bs[2 * j + 1].branch_type == BranchType::Action);
                assert(!compensation_due_at(bs)(2 * j));
            }
        },
        _ => {},
    }
}

/// TCC: confirm is called only while the transaction is Submitted, cancel only
/// while it is Aborting; no other role is ever called, and a prepared
/// transaction is first moved to Aborting.
pub proof fn tcc_confirms_only_when_submitted(
    tx: Transaction,
    bs: Seq<TransactionBranch>,
    stalled: bool,
    confirmed: bool,
)
    requires
        tx.tx_type == TransactionType::Tcc,
        bs.len() <= usize::MAX,
    ensures
        decide(tx, bs, stalled, confirmed) matches Action::Invoke(i) ==> {
            &&& 0 <= i < bs.len()
            &&& bs[i as int].state == State::Prepared
            &&& bs[i as int].branch_type == BranchType::Confirm ==> tx.state == State::Submitted
            &&& bs[i as int].branch_type == BranchType::Cancel ==> tx.state == State::Aborting
            &&& bs[i as int].branch_type == BranchType::Confirm || bs[i as int].branch_type
                == BranchType::Cancel
        },
        tx.state == State::Prepared && !stalled ==> decide(tx, bs, stalled, confirmed)
            == Action::Transition(State::Aborting),
{
    lemma_last_some(bs.len() as int, pending_at(bs, BranchType::Confirm));
    lemma_last_some(bs.len() as int, pending_at(bs, BranchType::Cancel));
    if let Action::Invoke(i) = decide(tx, bs, stalled, confirmed) {
        if tx.state == State::Submitted {
            assert(last_where(bs.len() as int, pending_at(bs, BranchType::Confirm)) == Some(
                i as int,
            ));
        } else {
            assert(last_where(bs.len() as int, pending_at(bs, BranchType::Cancel)) == Some(
                i as int,
            ));
        }
    }
}

/// XA: each call goes to a prepared branch of the one role that the state
/// decides (commit once Submitted, rollback once Aborting), and that role can
/// no longer change: Submitted leads only to Succeed, Aborting only to
/// Failed. The transaction succeeds only when every commit branch is done and
/// fails only when every rollback branch is done; until then a live attempt
/// always has a step to take.
pub proof fn xa_branches_get_one_decision(
    tx: Transaction,
    bs: Seq<TransactionBranch>,
    confirmed: bool,
    s: State,
)
    requires
        tx.tx_type == TransactionType::Xa,
        bs.len() <= usize::MAX,
    ensures
        decide(tx, bs, false, confirmed) matches Action::Invoke(i) ==> {
            &&& 0 <= i < bs.len()
            &&& (tx.state == State::Submitted || tx.state == State::Aborting)
            &&& pending(bs[i as int], decision_role(TransactionType::Xa, tx.state))
        },
        decide(tx, bs, false, confirmed) == Action::Transition(State::Succeed) ==> forall|j: int|
            0 <= j < bs.len() ==> !pending(#[trigger] bs[j], BranchType::Commit),
        decide(tx, bs, false, confirmed) == Action::Transition(State::Failed) ==> forall|j: int|
            0 <= j < bs.len() ==> !pending(#[trigger] bs[j], BranchType::Rollback),
        allowed_transition(TransactionType::Xa, State::Submitted, s) ==> s == State::Succeed,
        allowed_transition(TransactionType::Xa, State::Aborting, s) ==> s == State::Failed,
        !tx.state.spec_is_terminal() ==> decide(tx, bs, false, confirmed) != Action::Done,
{
    lemma_first_some(bs.len() as int, pending_at(bs, BranchType::Commit));
    lemma_first_some(bs.len() as int, pending_at(bs, BranchType::Rollback));
    if let Action::Invoke(i) = decide(tx, bs, false, confirmed) {
        if tx.state == State::Submitted {
            assert(first_where(bs.len() as int, pending_at(bs, BranchType::Commit)) == Some(
                i as int,
            ));
            assert(pending_at(bs, BranchType::Commit)(i as int));
        } else {
            assert(first_where(bs.len() as int, pending_at(bs, BranchType::Rollback)) == Some(
                i as int,
            ));
            assert(pending_at(bs, BranchType::Rollback)(i as int));
        }
    }
    if decide(tx, bs, false, confirmed) == Action::Transition(State::Succeed) {
        assert forall|j: int| 0 <= j < bs.len() implies !pending(#[trigger] bs[j], BranchType::Commit) by {
            assert(!pending_at(bs, BranchType::Commit)(j));
        }
    }
    if decide(tx, bs, false, confirmed) == Action::Transition(State::Failed) {
        assert forall|j: int| 0 <= j < bs.len() implies !pending(#[trigger] bs[j], BranchType::Rollback) by {
            assert(!pending_at(bs, BranchType::Rollback)(j));
        }
    }
}

/// Claim exclusivity: a successful claim at `now` moves the transaction's due
/// time past `now`, so no claim by any worker succeeds before that time.
pub proof fn claim_is_exclusive(tx: Transaction, now: i64, config: Config, later: i64)
    requires
        config.wf(),
        spec_claimable(tx, now),
        now < i64::MAX,
    ensures
        spec_claimed(tx, now, config).scheduled_at > now,
        later < spec_claimed(tx, now, config).scheduled_at ==> !spec_claimable(
            spec_claimed(tx, now, config),
            later,
        ),
{
}

/// The interval after `n` claims that found the transaction still live,
/// starting from `d`.
pub open spec fn delay_after_claims(d: i64, cap: i64, n: nat) -> i64
    decreases n,
{
    if n == 0 {
        d
    } else {
        spec_next_delay(delay_after_claims(d, cap, (n - 1) as nat), cap)
    }
}

/// Backoff: each claim doubles the interval, held at the configured cap, so
/// after `n` claims it is `min(d * 2^n, cap)`. An attempt that ends stalled
/// changes nothing in the record, so only the claims move it. A transaction
/// that reaches Succeed or Failed is never claimed again.
pub proof fn backoff_doubles_up_to_cap(
    tx: Transaction,
    now: i64,
    config: Config,
    n: nat,
    bs: Seq<TransactionBranch>,
    i: int,
    s: State,
    base: i64,
)
    requires
        config.wf(),
        0 < tx.delay <= config.max_delay,
        spec_claimable(tx, now),
        0 <= i < bs.len(),
    ensures
        spec_claimed(tx, now, config).delay == if 2 * tx.delay > config.max_delay {
            config.max_delay as int
        } else {
            2 * tx.delay
        },
        delay_after_claims(tx.delay, config.max_delay, n) == if tx.delay * pow2(n)
            > config.max_delay {
            config.max_delay as int
        } else {
            tx.delay * pow2(n)
        },
        record_spec(tx, bs, true, i, Outcome::Indeterminate, now).1,
        decide(tx, bs, true, false) == Action::Done,
        s.spec_is_terminal() ==> !spec_claimable(tx.with_state(s, now, base), now),
        s.spec_is_terminal() ==> forall|t: i64| !spec_claimable(#[trigger] tx.with_state(s, now, base), t),
    decreases n,
{
    assert(spec_wait(tx, config) == tx.delay);
    if n == 0 {
        vstd::arithmetic::power2::lemma2_to64();
    } else {
        backoff_doubles_up_to_cap(tx, now, config, (n - 1) as nat, bs, i, s, base);
        let m = (n - 1) as nat;
        let p = pow2(m);
        lemma_pow2_unfold(n);
        assert(pow2(n) == 2 * p);
        assert(p > 0) by {
            vstd::arithmetic::power2::lemma_pow2_pos(m);
        }
        assert(tx.delay * pow2(n) == 2 * (tx.delay * p)) by (nonlinear_arith)
            requires
                pow2(n) == 2 * p,
        ;
        assert(tx.delay * p >= 1) by (nonlinear_arith)
            requires
                tx.delay >= 1,
                p >= 1,
        ;
    }
}

/// A saga part way forward: the actions of steps `0..p` have succeeded and
/// those of the later steps have not run.
pub open spec fn saga_progress(bs: Seq<TransactionBranch>, p: int) -> bool {
    &&& saga_layout(bs)
    &&& 0 <= p <= bs.len() / 2
    &&& forall|j: int| 0 <= j < p ==> #[trigger] bs[2 * j + 1].state == State::Succeed
    &&& forall|j: int| p <= j < bs.len() / 2 ==> #[trigger] bs[2 * j + 1].state == State::Prepared
}

/// A saga whose action of step `k` failed after those of steps `0..k`
/// succeeded; the later steps' actions have not run.
pub open spec fn saga_failed_at(bs: Seq<TransactionBranch>, k: int) -> bool {
    &&& saga_layout(bs)
    &&& 0 <= k < bs.len() / 2
    &&& forall|j: int| 0 <= j < k ==> #[trigger] bs[2 * j + 1].state == State::Succeed
    &&& bs[2 * k + 1].state == State::Failed
    &&& forall|j: int| k < j < bs.len() / 2 ==> #[trigger] bs[2 * j + 1].state == State::Prepared
}

proof fn lemma_saga_index(bs: Seq<TransactionBranch>, i: int)
    requires
        saga_layout(bs),
        0 <= i < bs.len(),
    ensures
        bs[i].branch_type == BranchType::Action ==> i == 2 * (i / 2) + 1 && i / 2 < bs.len() / 2,
        bs[i].branch_type == BranchType::Compensate ==> i == 2 * (i / 2) && i / 2 < bs.len() / 2,
{
}

/// Saga, forward, step by step: from a saga part way forward, the next call is
/// the action of the first step not yet run (or, after the last, the saga
/// succeeds). Its outcome either moves the saga one step on, or leaves it
/// failed at exactly that step, or ends the attempt with nothing changed.
pub proof fn saga_advances_one_step_at_a_time(
    tx: Transaction,
    bs: Seq<TransactionBranch>,
    confirmed: bool,
    p: int,
    o: Outcome,
    now: i64,
)
    requires
        tx.tx_type == TransactionType::Saga,
        tx.state == State::Submitted,
        saga_progress(bs, p),
        bs.len() <= usize::MAX,
    ensures
        p == bs.len() / 2 ==> decide(tx, bs, false, confirmed) == Action::Transition(State::Succeed),
        p < bs.len() / 2 ==> {
            let r = record_spec(tx, bs, false, 2 * p + 1, o, now);
            &&& decide(tx, bs, false, confirmed) == Action::Invoke((2 * p + 1) as usize)
            &&& o == Outcome::Succeeded ==> saga_progress(r.0, p + 1) && !r.1
            &&& o == Outcome::Failed ==> saga_failed_at(r.0, p) && !r.1
            &&& o == Outcome::Indeterminate ==> r.0 == bs && r.1
        },
{
    let n = bs.len() as int;
    let pa = pending_at(bs, BranchType::Action);
    assert(!some_action_failed(bs)) by {
        assert forall|i: int| 0 <= i < n implies !(#[trigger] bs[i].branch_type == BranchType::Action
            && bs[i].state == State::Failed) by {
            lemma_saga_index(bs, i);
            if bs[i].branch_type == BranchType::Action {
                let m = i / 2;
                assert(bs[2 * m + 1].state == State::Succeed || bs[2 * m + 1].state
                    == State::Prepared);
            }
        }
    }
    if p == n / 2 {
        assert forall|i: int| 0 <= i < n implies !#[trigger] pa(i) by {
            lemma_saga_index(bs, i);
            if bs[i].branch_type == BranchType::Action {
                let m = i / 2;
                assert(bs[2 * m + 1].state == State::Succeed);
            }
        }
        lemma_first_none(n, pa);
    } else {
        let a = 2 * p + 1;
        assert(a % 2 == 1);
        assert(bs[a].branch_type == BranchType::Action);
        assert forall|i: int| 0 <= i < a implies !#[trigger] pa(i) by {
            lemma_saga_index(bs, i);
            if bs[i].branch_type == BranchType::Action {
                let m = i / 2;
                assert(m < p);
                assert(bs[2 * m + 1].state == State::Succeed);
            }
        }
        lemma_first_is(n, pa, a);
        let r = record_spec(tx, bs, false, a, o, now);
        if o == Outcome::Succeeded {
            assert forall|j: int| 0 <= j < p + 1 implies #[trigger] r.0[2 * j + 1].state
                == State::Succeed by {
                if j < p {
                    assert(bs[2 * j + 1].state == State::Succeed);
                }
            }
            assert forall|j: int| p + 1 <= j < r.0.len() / 2 implies #[trigger] r.0[2 * j
                + 1].state == State::Prepared by {
                assert(bs[2 * j + 1].state == State::Prepared);
            }
        }
        if o == Outcome::Failed {
            assert forall|j: int| 0 <= j < p implies #[trigger] r.0[2 * j + 1].state
                == State::Succeed by {
                assert(bs[2 * j + 1].state == State::Succeed);
            }
            assert forall|j: int| p < j < r.0.len() / 2 implies #[trigger] r.0[2 * j + 1].state
                == State::Prepared by {
                assert(bs[2 * j + 1].state == State::Prepared);
            }
        }
    }
}

/// Saga, backward: recording the outcome of a compensation never changes an
/// action, so a saga failed at step `k` stays failed at step `k` while its
/// compensations run.
pub proof fn saga_compensation_keeps_failure_point(
    tx: Transaction,
    bs: Seq<TransactionBranch>,
    stalled: bool,
    k: int,
    i: int,
    o: Outcome,
    now: i64,
)
    requires
        tx.tx_type == TransactionType::Saga,
        saga_failed_at(bs, k),
        0 <= i < bs.len(),
        bs[i].branch_type == BranchType::Compensate,
    ensures
        saga_failed_at(record_spec(tx, bs, stalled, i, o, now).0, k),
{
    let r = record_spec(tx, bs, stalled, i, o, now).0;
    lemma_saga_index(bs, i);
    assert forall|j: int| 0 <= j < k implies #[trigger] r[2 * j + 1].state == State::Succeed by {
        assert(bs[2 * j + 1].state == State::Succeed);
        assert(2 * j + 1 != i);
    }
    assert forall|j: int| k < j < r.len() / 2 implies #[trigger] r[2 * j + 1].state
        == State::Prepared by {
        assert(bs[2 * j + 1].state == State::Prepared);
        assert(2 * j + 1 != i);
    }
    assert(2 * k + 1 != i);
}

/// How many branches of role `role` are still pending.
pub open spec fn pending_count(bs: Seq<TransactionBranch>, role: BranchType) -> nat
    decreases bs.len(),
{
    if bs.len() == 0 {
        0
    } else {
        pending_count(bs.drop_last(), role) + if pending(bs.last(), role) {
            1nat
        } else {
            0nat
        }
    }
}

proof fn lemma_pending_count_retire(
    bs: Seq<TransactionBranch>,
    role: BranchType,
    i: int,
    b: TransactionBranch,
)
    requires
        0 <= i < bs.len(),
        pending(bs[i], role),
        !pending(b, role),
    ensures
        pending_count(bs.update(i, b), role) + 1 == pending_count(bs, role),
    decreases bs.len(),
{
    if i == bs.len() - 1 {
        assert(bs.update(i, b).drop_last() =~= bs.drop_last());
    } else {
        lemma_pending_count_retire(bs.drop_last(), role, i, b);
        assert(bs.update(i, b).drop_last() =~= bs.drop_last().update(i, b));
    }
}

proof fn lemma_pending_count_zero(bs: Seq<TransactionBranch>, role: BranchType)
    requires
        forall|j: int| 0 <= j < bs.len() ==> !pending(#[trigger] bs[j], role),
    ensures
        pending_count(bs, role) == 0,
    decreases bs.len(),
{
    if bs.len() > 0 {
        assert forall|j: int| 0 <= j < bs.drop_last().len() implies !pending(
            #[trigger] bs.drop_last()[j],
            role,
        ) by {
            assert(bs.drop_last()[j] == bs[j]);
        }
        lemma_pending_count_zero(bs.drop_last(), role);
        assert(!pending(bs[bs.len() - 1], role));
    }
}

/// XA and TCC progress: once the decision is taken (Submitted or Aborting),
/// each call goes to a pending branch of the deciding role, and its
/// acknowledgement retires exactly that one; when none is left the next step
/// is the terminal state change. So with acknowledgements every such branch
/// gets its call, and the transaction ends after as many calls as it had
/// pending branches.
pub proof fn decided_transaction_makes_progress(
    tx: Transaction,
    bs: Seq<TransactionBranch>,
    confirmed: bool,
    now: i64,
)
    requires
        tx.tx_type == TransactionType::Xa || tx.tx_type == TransactionType::Tcc,
        tx.state == State::Submitted || tx.state == State::Aborting,
        bs.len() <= usize::MAX,
    ensures
        ({
            let role = decision_role(tx.tx_type, tx.state);
            &&& decide(tx, bs, false, confirmed) matches Action::Invoke(i) ==> {
                &&& 0 <= i < bs.len()
                &&& pending(bs[i as int], role)
                &&& pending_count(
                    record_spec(tx, bs, false, i as int, Outcome::Succeeded, now).0,
                    role,
                ) + 1 == pending_count(bs, role)
            }
            &&& decide(tx, bs, false, confirmed) matches Action::Transition(s) ==> {
                &&& s.spec_is_terminal()
                &&& pending_count(bs, role) == 0
            }
        }),
{
    let role = decision_role(tx.tx_type, tx.state);
    let n = bs.len() as int;
    let pa = pending_at(bs, role);
    lemma_first_some(n, pa);
    lemma_last_some(n, pa);
    match decide(tx, bs, false, confirmed) {
        Action::Invoke(iu) => {
            let i = iu as int;
            if tx.tx_type == TransactionType::Xa {
                assert(first_where(n, pa) == Some(i));
            } else {
                assert(last_where(n, pa) == Some(i));
            }
            assert(pa(i));
            let b = bs[i].finished(State::Succeed, now);
            lemma_pending_count_retire(bs, role, i, b);
        },
        Action::Transition(s) => {
            assert forall|j: int| 0 <= j < n implies !pending(#[trigger] bs[j], role) by {
                assert(!pa(j));
            }
            lemma_pending_count_zero(bs, role);
        },
        _ => {},
    }
}

} // verus!
