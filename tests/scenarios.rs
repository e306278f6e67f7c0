use luwu::config::Config;
use luwu::coordinator::{
    create_transaction, register_tcc_branches, register_xa_branch, TCCBranchCreation,
    TransactionCreation,
};
use luwu::invoker::{classify, classify_query};
use luwu::processors::decision::Action;
use luwu::processors::processor::Processor;
use luwu::scheduler::claim;
use luwu::state::{BranchType, Outcome, State};
use luwu::transaction::{Transaction, TransactionBranch};

/// Runs one attempt, answering each branch call with `answer` and each
/// precondition query with `query`; returns the URLs called, in order.
fn run_attempt(
    p: &mut Processor,
    now: i64,
    answer: &dyn Fn(&TransactionBranch) -> Option<String>,
    query: &dyn Fn(&Transaction) -> Option<String>,
) -> Vec<String> {
    let mut called = Vec::new();
    for _ in 0..100 {
        match p.next_action(now) {
            Action::Invoke(i) => {
                let b = &p.branches[i];
                called.push(b.url.clone());
                let body = answer(b);
                let o = classify(body.as_deref(), b.branch_type);
                p.record_branch(i, o, now);
            }
            Action::QueryPrepared => {
                let body = query(&p.tx);
                p.record_query(classify_query(body.as_deref()));
            }
            Action::Transition(_) => {}
            Action::Done => return called,
        }
    }
    panic!("attempt did not end");
}

fn creation(t: &str, payload: &str, query: &str) -> TransactionCreation {
    TransactionCreation {
        tx_type: t.to_string(),
        payload: payload.to_string(),
        query_prepared: query.to_string(),
    }
}

#[test]
fn saga_second_action_fails_compensates_first() {
    let config = Config::default();
    let c = creation(
        "saga",
        r#"[{"action":"A1","compensate":"C1"},{"action":"A2","compensate":"C2"}]"#,
        "",
    );
    let (mut tx, bs) = create_transaction(c, 7, 1000, &config).unwrap();
    assert_eq!(bs.len(), 4);
    tx.submit(1000, config.delay).unwrap();
    let mut p = Processor::new(tx, bs, &config);
    let answer = |b: &TransactionBranch| -> Option<String> {
        match b.url.as_str() {
            "A1" => Some("SUCCESS".to_string()),
            "A2" => Some("FAILURE".to_string()),
            _ => Some("SUCCESS".to_string()),
        }
    };
    let called = run_attempt(&mut p, 1001, &answer, &|_| None);
    assert_eq!(called, vec!["A1", "A2", "C1"]);
    let state_of = |url: &str| p.branches.iter().find(|b| b.url == url).unwrap().state;
    assert_eq!(state_of("A1"), State::Succeed);
    assert_eq!(state_of("A2"), State::Failed);
    assert_eq!(state_of("C1"), State::Succeed);
    assert_eq!(state_of("C2"), State::Prepared);
    assert_eq!(p.tx.state, State::Failed);
    assert_eq!(p.tx.rollbacked_at, Some(1001));
}

#[test]
fn saga_all_actions_succeed() {
    let config = Config::default();
    let c = creation(
        "saga",
        r#"[{"action":"A1","compensate":"C1"},{"action":"A2","compensate":"C2","payload":"x"}]"#,
        "",
    );
    let (mut tx, bs) = create_transaction(c, 8, 1000, &config).unwrap();
    tx.submit(1000, config.delay).unwrap();
    let mut p = Processor::new(tx, bs, &config);
    let called = run_attempt(&mut p, 1002, &|_| Some("SUCCESS".to_string()), &|_| None);
    assert_eq!(called, vec!["A1", "A2"]);
    assert_eq!(p.tx.state, State::Succeed);
    assert_eq!(p.tx.finished_at, Some(1002));
}

#[test]
fn saga_indeterminate_action_is_retried_later() {
    let config = Config::default();
    let c = creation("saga", r#"[{"action":"A1","compensate":"C1"}]"#, "");
    let (mut tx, bs) = create_transaction(c, 9, 1000, &config).unwrap();
    tx.submit(1000, config.delay).unwrap();
    let mut p = Processor::new(tx, bs, &config);
    let called = run_attempt(&mut p, 1001, &|_| Some("busy".to_string()), &|_| None);
    assert_eq!(called, vec!["A1"]);
    assert_eq!(p.tx.state, State::Submitted);
    assert_eq!(p.branches[1].state, State::Prepared);
    // the next attempt completes it
    let mut p = Processor::new(p.tx, p.branches, &config);
    let called = run_attempt(&mut p, 1100, &|_| Some("SUCCESS".to_string()), &|_| None);
    assert_eq!(called, vec!["A1"]);
    assert_eq!(p.tx.state, State::Succeed);
}

#[test]
fn xa_single_branch_commits() {
    let config = Config::default();
    let (mut tx, bs) = create_transaction(creation("xa", "", ""), 11, 1000, &config).unwrap();
    assert!(bs.is_empty());
    let branches =
        register_xa_branch(&mut tx, 5, "http://p/xa".to_string(), "{}".to_string(), 1001, &config)
            .unwrap();
    assert_eq!(branches[0].branch_type, BranchType::Rollback);
    assert_eq!(branches[1].branch_type, BranchType::Commit);
    tx.submit(1002, config.delay).unwrap();
    let mut p = Processor::new(tx, branches, &config);
    let called = run_attempt(&mut p, 1003, &|_| Some("SUCCESS".to_string()), &|_| None);
    assert_eq!(called, vec!["http://p/xa"]);
    assert_eq!(p.tx.state, State::Succeed);
    let commit = p.branches.iter().find(|b| b.branch_type == BranchType::Commit).unwrap();
    assert_eq!(commit.state, State::Succeed);
    let rollback = p.branches.iter().find(|b| b.branch_type == BranchType::Rollback).unwrap();
    assert_eq!(rollback.state, State::Prepared);
}

#[test]
fn xa_prepared_transaction_rolls_back() {
    let config = Config::default();
    let (mut tx, _) = create_transaction(creation("xa", "", ""), 12, 1000, &config).unwrap();
    let branches =
        register_xa_branch(&mut tx, 5, "http://p/xa".to_string(), "{}".to_string(), 1001, &config)
            .unwrap();
    let mut p = Processor::new(tx, branches, &config);
    let called = run_attempt(&mut p, 1003, &|_| Some("SUCCESS".to_string()), &|_| None);
    assert_eq!(called, vec!["http://p/xa"]);
    assert_eq!(p.tx.state, State::Failed);
    assert_eq!(p.branches[0].state, State::Succeed);
    assert_eq!(p.branches[1].state, State::Prepared);
}

#[test]
fn message_with_indeterminate_query_stays_prepared() {
    let config = Config::default();
    let c = creation("message", r#"[{"callback":"M1","payload":"p"}]"#, "http://q");
    let (tx, bs) = create_transaction(c, 13, 1000, &config).unwrap();
    let mut tx = tx;
    let mut branches = bs;
    let mut now = 1000 + config.delay;
    let mut last_delay = config.delay;
    for round in 0..6 {
        assert!(claim(&mut tx, now, &config));
        if round > 0 {
            assert!(tx.delay >= last_delay);
        }
        last_delay = tx.delay;
        let mut p = Processor::new(tx, branches, &config);
        let called = run_attempt(&mut p, now, &|_| Some("SUCCESS".to_string()), &|_| {
            Some("pending".to_string())
        });
        assert!(called.is_empty());
        assert_eq!(p.tx.state, State::Prepared);
        tx = p.tx;
        branches = p.branches;
        now = tx.scheduled_at;
    }
    assert_eq!(tx.delay, 640);
    assert_eq!(branches[0].state, State::Prepared);
}

#[test]
fn message_confirmed_is_delivered() {
    let config = Config::default();
    let c = creation(
        "message",
        r#"[{"callback":"M1","payload":"p"},{"callback":"M2"}]"#,
        "http://q",
    );
    let (tx, bs) = create_transaction(c, 14, 1000, &config).unwrap();
    let mut p = Processor::new(tx, bs, &config);
    let called = run_attempt(&mut p, 1010, &|_| Some("SUCCESS".to_string()), &|_| {
        Some("SUCCESS".to_string())
    });
    assert_eq!(called, vec!["M1", "M2"]);
    assert_eq!(p.tx.state, State::Succeed);
    assert_eq!(p.branches[0].payload, "p");
    assert_eq!(p.branches[1].payload, "");
}

#[test]
fn message_failure_sentinel_is_retried() {
    let config = Config::default();
    let c = creation("message", r#"[{"callback":"M1"}]"#, "http://q");
    let (mut tx, bs) = create_transaction(c, 15, 1000, &config).unwrap();
    tx.submit(1000, config.delay).unwrap();
    let mut p = Processor::new(tx, bs, &config);
    let called = run_attempt(&mut p, 1010, &|_| Some("FAILURE".to_string()), &|_| None);
    assert_eq!(called, vec!["M1"]);
    assert_eq!(p.branches[0].state, State::Prepared);
    assert_eq!(p.tx.state, State::Submitted);
}

#[test]
fn tcc_confirms_in_reverse_then_succeeds() {
    let config = Config::default();
    let (mut tx, _) = create_transaction(creation("tcc", "", ""), 16, 1000, &config).unwrap();
    let mut all = Vec::new();
    for (id, name) in [(1u128, "one"), (2u128, "two")] {
        let c = TCCBranchCreation {
            payload: String::new(),
            cancel_url: format!("cancel-{}", name),
            confirm_url: format!("confirm-{}", name),
            try_url: format!("try-{}", name),
        };
        all.extend(register_tcc_branches(&mut tx, id, c, 1001, &config).unwrap());
    }
    assert_eq!(all.len(), 6);
    tx.submit(1002, config.delay).unwrap();
    let mut p = Processor::new(tx, all, &config);
    let called = run_attempt(&mut p, 1003, &|_| Some("SUCCESS".to_string()), &|_| None);
    assert_eq!(called, vec!["confirm-two", "confirm-one"]);
    assert_eq!(p.tx.state, State::Succeed);
}

#[test]
fn tcc_aborted_cancels() {
    let config = Config::default();
    let (mut tx, _) = create_transaction(creation("tcc", "", ""), 17, 1000, &config).unwrap();
    let c = TCCBranchCreation {
        payload: String::new(),
        cancel_url: "cancel".to_string(),
        confirm_url: "confirm".to_string(),
        try_url: "try".to_string(),
    };
    let bs = register_tcc_branches(&mut tx, 1, c, 1001, &config).unwrap();
    tx.abort(1002, config.delay).unwrap();
    assert_eq!(tx.state, State::Aborting);
    let mut p = Processor::new(tx, bs, &config);
    let called = run_attempt(&mut p, 1003, &|_| Some("SUCCESS".to_string()), &|_| None);
    assert_eq!(called, vec!["cancel"]);
    assert_eq!(p.tx.state, State::Failed);
}

#[test]
fn terminal_transaction_is_left_alone() {
    let config = Config::default();
    let (mut tx, bs) = create_transaction(
        creation("saga", r#"[{"action":"A1","compensate":"C1"}]"#, ""),
        18,
        1000,
        &config,
    )
    .unwrap();
    tx.submit(1000, config.delay).unwrap();
    let mut p = Processor::new(tx, bs, &config);
    run_attempt(&mut p, 1001, &|_| Some("SUCCESS".to_string()), &|_| None);
    assert_eq!(p.tx.state, State::Succeed);
    let mut tx = p.tx;
    assert!(!claim(&mut tx, i64::MAX, &config));
    let mut p = Processor::new(tx, p.branches, &config);
    assert_eq!(p.next_action(5000), Action::Done);
    assert!(!p.record_branch(0, Outcome::Succeeded, 5000));
    assert_eq!(p.branches[0].state, State::Prepared);
    assert!(p.tx.update_state(State::Aborting, 5000, config.delay).is_err());
    assert!(p.tx.submit(5000, config.delay).is_err());
}
