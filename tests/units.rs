use luwu::config::Config;
use luwu::coordinator::{
    create_transaction, new_transaction, register_tcc_branches, register_xa_branch,
    TCCBranchCreation, TransactionCreation,
};
use luwu::errors::{Error, ErrorResponse};
use luwu::invoker::{classify, classify_query};
use luwu::processors::{Message, MessageStep, ProcessorType, Saga, SagaStep};
use luwu::responder::{Code, DynResponse, MediaType};
use luwu::scheduler::{claim, is_claimable, next_delay, tick_interval, tick_interval_with};
use luwu::state::{BranchType, Outcome, State, TransactionType};
use luwu::text::same_text;
use luwu::transaction::{after, Transaction, TransactionBranch};

fn creation(t: &str, payload: &str) -> TransactionCreation {
    TransactionCreation {
        tx_type: t.to_string(),
        payload: payload.to_string(),
        query_prepared: String::new(),
    }
}

fn fresh(t: TransactionType) -> Transaction {
    Transaction::create(1, t, String::new(), String::new(), 100, &Config::default())
}

#[test]
fn classify_success_and_failure_sentinels() {
    assert_eq!(classify(Some("{\"result\":\"SUCCESS\"}"), BranchType::Commit), Outcome::Succeeded);
    assert_eq!(classify(Some("FAILURE"), BranchType::Action), Outcome::Failed);
    assert_eq!(classify(Some("FAILURE"), BranchType::Try), Outcome::Failed);
    assert_eq!(classify(Some("FAILURE"), BranchType::Commit), Outcome::Indeterminate);
    assert_eq!(classify(Some("FAILURE"), BranchType::Compensate), Outcome::Indeterminate);
    assert_eq!(classify(Some("ok"), BranchType::Action), Outcome::Indeterminate);
    assert_eq!(classify(None, BranchType::Action), Outcome::Indeterminate);
    assert_eq!(classify(Some("SUCCESS FAILURE"), BranchType::Action), Outcome::Succeeded);
}

#[test]
fn classify_query_needs_success() {
    assert_eq!(classify_query(Some("SUCCESS")), Outcome::Succeeded);
    assert_eq!(classify_query(Some("FAILURE")), Outcome::Indeterminate);
    assert_eq!(classify_query(None), Outcome::Indeterminate);
}

#[test]
fn same_text_compares_characters() {
    assert!(same_text("saga", "saga"));
    assert!(!same_text("saga", "sagas"));
    assert!(!same_text("xa", "xb"));
    assert!(same_text("", ""));
}

#[test]
fn transaction_type_tags() {
    assert_eq!(TransactionType::parse("xa").unwrap(), TransactionType::Xa);
    assert_eq!(TransactionType::parse("tcc").unwrap(), TransactionType::Tcc);
    assert_eq!(TransactionType::parse("saga").unwrap(), TransactionType::Saga);
    assert_eq!(TransactionType::parse("message").unwrap(), TransactionType::Message);
    assert_eq!(
        TransactionType::parse("workflow"),
        Err(Error::InvalidProcessorType("workflow".to_string()))
    );
    assert_eq!(TransactionType::Message.name(), "message");
    assert_eq!(BranchType::Compensate.name(), "compensate");
}

#[test]
fn state_codes_round_trip() {
    for s in [State::Succeed, State::Submitted, State::Failed, State::Prepared, State::Aborting] {
        assert_eq!(State::from_code(s.code()), Some(s));
    }
    assert_eq!(State::Succeed.code(), 1);
    assert_eq!(State::Aborting.code(), 5);
    assert_eq!(State::from_code(0), None);
    assert_eq!(State::from_code(6), None);
    assert!(State::Succeed.is_terminal());
    assert!(State::Failed.is_terminal());
    assert!(!State::Aborting.is_terminal());
}

#[test]
fn create_rejects_unknown_type() {
    let r = create_transaction(creation("workflow", "[]"), 1, 100, &Config::default());
    assert!(matches!(r, Err(Error::InvalidProcessorType(t)) if t == "workflow"));
}

#[test]
fn create_rejects_bad_payloads() {
    let config = Config::default();
    let r = create_transaction(creation("saga", "not json"), 1, 100, &config);
    assert!(matches!(r, Err(Error::InvalidPayload)));
    let r = create_transaction(creation("saga", r#"[{"action":"A1"}]"#), 1, 100, &config);
    assert!(matches!(r, Err(Error::InvalidPayload)));
    let r = create_transaction(creation("message", r#"[{"payload":"p"}]"#), 1, 100, &config);
    assert!(matches!(r, Err(Error::InvalidPayload)));
    let r = create_transaction(creation("message", r#"{"callback":"c"}"#), 1, 100, &config);
    assert!(matches!(r, Err(Error::InvalidPayload)));
}

#[test]
fn create_saga_lays_out_steps() {
    let config = Config::default();
    let payload = r#"[{"action":"A1","compensate":"C1","payload":"b1"},{"action":"A2","compensate":"C2"}]"#;
    let (tx, bs) = create_transaction(creation("saga", payload), 42, 100, &config).unwrap();
    assert_eq!(tx.gid, 42);
    assert_eq!(tx.state, State::Prepared);
    assert_eq!(tx.tx_type, TransactionType::Saga);
    assert_eq!(tx.delay, 10);
    assert_eq!(tx.scheduled_at, 110);
    assert_eq!(tx.payload, payload);
    let kinds: Vec<BranchType> = bs.iter().map(|b| b.branch_type).collect();
    assert_eq!(
        kinds,
        vec![BranchType::Compensate, BranchType::Action, BranchType::Compensate, BranchType::Action]
    );
    let urls: Vec<&str> = bs.iter().map(|b| b.url.as_str()).collect();
    assert_eq!(urls, vec!["C1", "A1", "C2", "A2"]);
    assert_eq!(bs[0].payload, "b1");
    assert_eq!(bs[2].payload, "");
    assert_eq!(bs[0].branch_id, bs[1].branch_id);
    assert_eq!(bs[2].branch_id, bs[3].branch_id);
    assert!(bs.iter().all(|b| b.gid == 42 && b.state == State::Prepared && b.created_at == 100));
}

#[test]
fn create_empty_saga_succeeds_at_once() {
    let config = Config::default();
    let (_, bs) = create_transaction(creation("saga", "[]"), 1, 100, &config).unwrap();
    assert!(bs.is_empty());
}

#[test]
fn new_transaction_draws_identifier() {
    let config = Config::default();
    let (a, _) = new_transaction(creation("xa", ""), &config).unwrap();
    let (b, _) = new_transaction(creation("xa", ""), &config).unwrap();
    assert_ne!(a.gid, b.gid);
    assert_eq!(a.state, State::Prepared);
    assert!(matches!(new_transaction(creation("zz", ""), &config), Err(Error::InvalidProcessorType(_))));
}

#[test]
fn processor_type_from_payload() {
    let p = ProcessorType::from_payload(TransactionType::Message, r#"[{"callback":"u"}]"#, "q").unwrap();
    match p {
        ProcessorType::Message(m) => {
            assert_eq!(m.steps.len(), 1);
            assert_eq!(m.steps[0].callback(), "u");
            assert_eq!(m.steps[0].payload(), "");
            assert_eq!(m.query_prepared, "q");
        }
        _ => panic!("expected a message"),
    }
    assert!(matches!(
        ProcessorType::from_payload(TransactionType::Xa, "anything", ""),
        Ok(ProcessorType::Xa(_))
    ));
    assert!(matches!(
        ProcessorType::from_payload(TransactionType::Tcc, "", ""),
        Ok(ProcessorType::TCC(_))
    ));
}

#[test]
fn step_constructors_and_branches() {
    let s = SagaStep::new("a".to_string(), "c".to_string(), "p".to_string());
    assert_eq!(s.on_committing(), "a");
    assert_eq!(s.on_reverting(), "c");
    let saga = Saga { steps: vec![s] };
    let bs = saga.branches_with(9, &vec![77], 5);
    assert_eq!(bs.len(), 2);
    assert_eq!(bs[0].branch_type, BranchType::Compensate);
    assert_eq!(bs[0].url, "c");
    assert_eq!(bs[1].url, "a");
    assert_eq!(bs[1].branch_id, 77);
    let m = MessageStep::new("body".to_string(), "cb".to_string());
    assert_eq!(m.payload(), "body");
    assert_eq!(m.callback(), "cb");
    let msg = Message { steps: vec![m], query_prepared: String::new() };
    let bs = msg.branches_with(9, &vec![3], 5);
    assert_eq!(bs.len(), 1);
    assert_eq!(bs[0].branch_type, BranchType::Action);
    assert_eq!(bs[0].payload, "body");
}

#[test]
fn submit_from_each_state() {
    let mut tx = fresh(TransactionType::Saga);
    assert!(tx.submit(200, 10).is_ok());
    assert_eq!(tx.state, State::Submitted);
    assert_eq!(tx.committed_at, Some(200));
    assert_eq!(tx.scheduled_at, 200);
    assert_eq!(tx.delay, 10);
    assert!(is_claimable(&tx, 200));
    assert!(tx.submit(300, 10).is_ok());
    assert_eq!(tx.last_modified, 200);
    tx.update_state(State::Aborting, 300, 10).unwrap();
    assert_eq!(tx.submit(400, 10), Err(Error::CannotSubmitTransaction(1, State::Aborting)));
}

#[test]
fn abort_only_xa_and_tcc() {
    let mut tx = fresh(TransactionType::Xa);
    assert!(tx.abort(200, 10).is_ok());
    assert_eq!(tx.state, State::Aborting);
    assert!(tx.abort(300, 10).is_ok());
    let mut saga = fresh(TransactionType::Saga);
    assert_eq!(
        saga.abort(200, 10),
        Err(Error::UnexpectedType(TransactionType::Saga, State::Prepared))
    );
    let mut tcc = fresh(TransactionType::Tcc);
    tcc.submit(200, 10).unwrap();
    assert_eq!(
        tcc.abort(300, 10),
        Err(Error::UnexpectedType(TransactionType::Tcc, State::Submitted))
    );
}

#[test]
fn illegal_transitions_are_refused() {
    let mut tx = fresh(TransactionType::Message);
    assert_eq!(
        tx.update_state(State::Aborting, 200, 10),
        Err(Error::IllegalTransition(State::Prepared, State::Aborting))
    );
    assert_eq!(tx.state, State::Prepared);
    tx.update_state(State::Submitted, 200, 10).unwrap();
    tx.update_state(State::Succeed, 300, 10).unwrap();
    assert_eq!(tx.finished_at, Some(300));
    assert!(tx.update_state(State::Failed, 400, 10).is_err());
}

#[test]
fn branch_state_moves_once() {
    let mut b = TransactionBranch::new(1, 2, BranchType::Action, State::Prepared, "u".to_string(), "p".to_string(), 10);
    assert!(b.update_state(State::Succeed, 20).is_ok());
    assert_eq!(b.finished_at, Some(20));
    assert_eq!(
        b.update_state(State::Failed, 30),
        Err(Error::IllegalTransition(State::Succeed, State::Failed))
    );
    b.with_type(BranchType::Commit);
    assert_eq!(b.branch_type(), BranchType::Commit);
}

#[test]
fn branch_params_carry_identifiers() {
    let tx = fresh(TransactionType::Saga);
    let b = TransactionBranch::new(1, 9, BranchType::Action, State::Prepared, String::new(), String::new(), 10);
    let p = tx.branch_params(&b);
    assert_eq!(p.gid, 1);
    assert_eq!(p.branch_id, 9);
    assert_eq!(p.tx_type, TransactionType::Saga);
    assert_eq!(p.branch_type, BranchType::Action);
}

#[test]
fn register_branches_only_when_prepared() {
    let config = Config::default();
    let mut xa = fresh(TransactionType::Xa);
    let bs = register_xa_branch(&mut xa, 4, "u".to_string(), "p".to_string(), 150, &config).unwrap();
    assert_eq!(bs.len(), 2);
    assert_eq!(xa.scheduled_at, 160);
    xa.submit(200, 10).unwrap();
    let r = register_xa_branch(&mut xa, 5, "u".to_string(), "p".to_string(), 250, &config);
    assert!(matches!(r, Err(Error::UnexpectedType(TransactionType::Xa, State::Submitted))));
    let mut tcc = fresh(TransactionType::Tcc);
    let c = TCCBranchCreation {
        payload: "p".to_string(),
        cancel_url: "c".to_string(),
        confirm_url: "f".to_string(),
        try_url: "t".to_string(),
    };
    let bs = register_tcc_branches(&mut tcc, 3, c, 150, &config).unwrap();
    let kinds: Vec<BranchType> = bs.iter().map(|b| b.branch_type).collect();
    assert_eq!(kinds, vec![BranchType::Cancel, BranchType::Confirm, BranchType::Try]);
    let c = TCCBranchCreation {
        payload: String::new(),
        cancel_url: String::new(),
        confirm_url: String::new(),
        try_url: String::new(),
    };
    let r = register_tcc_branches(&mut xa, 3, c, 150, &config);
    assert!(matches!(r, Err(Error::UnexpectedType(TransactionType::Xa, _))));
}

#[test]
fn claim_requires_due_live_record() {
    let config = Config::default();
    let mut tx = fresh(TransactionType::Saga);
    assert_eq!(tx.scheduled_at, 110);
    assert!(!is_claimable(&tx, 109));
    assert!(!claim(&mut tx, 109, &config));
    assert!(claim(&mut tx, 110, &config));
    assert_eq!(tx.scheduled_at, 120);
    assert_eq!(tx.delay, 20);
    // a second worker at the same moment loses
    assert!(!claim(&mut tx, 110, &config));
    assert!(!claim(&mut tx, 119, &config));
    assert!(claim(&mut tx, 120, &config));
    assert_eq!(tx.scheduled_at, 140);
    assert_eq!(tx.delay, 40);
}

#[test]
fn backoff_is_capped() {
    assert_eq!(next_delay(10, 3600), 20);
    assert_eq!(next_delay(1800, 3600), 3600);
    assert_eq!(next_delay(2000, 3600), 3600);
    assert_eq!(next_delay(3600, 3600), 3600);
    let config = Config::default();
    let mut tx = fresh(TransactionType::Saga);
    let mut now = tx.scheduled_at;
    for _ in 0..12 {
        assert!(claim(&mut tx, now, &config));
        now = tx.scheduled_at;
    }
    assert_eq!(tx.delay, 3600);
}

#[test]
fn after_saturates() {
    assert_eq!(after(100, 10), 110);
    assert_eq!(after(i64::MAX - 1, 10), i64::MAX);
}

#[test]
fn tick_interval_adds_bounded_jitter() {
    let config = Config::default();
    assert_eq!(tick_interval_with(&config, 0), 3000);
    assert_eq!(tick_interval_with(&config, 3000), 6000);
    assert_eq!(tick_interval_with(&config, 3001), 3000);
    let small = Config { cron_interval: 100, ..Config::default() };
    assert_eq!(tick_interval_with(&small, 250), 148);
    for _ in 0..20 {
        let t = tick_interval(&config);
        assert!((3000..=6000).contains(&t));
    }
}

#[test]
fn default_config() {
    let c = Config::default();
    assert_eq!(c.delay, 10);
    assert_eq!(c.max_delay, 3600);
    assert_eq!(c.cron_interval, 3000);
    assert_eq!(c.database_url(), "");
}

#[test]
fn dyn_response_formats() {
    let mut r = DynResponse::new(5u8);
    assert_eq!(r.status, 200);
    assert_eq!(r.encoding(None), Some(MediaType::Json));
    assert_eq!(r.encoding(Some(MediaType::MsgPack)), Some(MediaType::MsgPack));
    assert_eq!(r.encoding(Some(MediaType::Binary)), None);
    r.msgpack();
    assert_eq!(r.encoding(Some(MediaType::Json)), Some(MediaType::MsgPack));
    r.json();
    assert_eq!(r.media_type, Some(MediaType::Json));
    r.bincode();
    assert_eq!(r.encoding(None), None);
    r.status(404);
    assert_eq!(r.status, 404);
    assert_eq!(r.content, 5);
    assert_eq!(Code::Success.value(), 20000);
}

#[test]
fn error_response_codes() {
    let e = ErrorResponse::new(Error::InvalidPayload, 4001);
    assert_eq!(e.code, 4001);
    let e: ErrorResponse = Error::InvalidPayload.into();
    assert_eq!(e.code, 5999);
    assert_eq!(e.err, Error::InvalidPayload);
}


#[test]
fn saga_add_appends_steps() {
    let mut saga = Saga::new();
    saga.add("a1".to_string(), "c1".to_string(), "body".to_string());
    saga.add("a2".to_string(), "c2".to_string(), String::new());
    assert_eq!(saga.steps.len(), 2);
    assert_eq!(saga.steps[0].on_committing(), "a1");
    assert_eq!(saga.steps[1].on_reverting(), "c2");
    let bs = saga.branches(5, 1);
    assert_eq!(bs.len(), 4);
    assert_eq!(bs[0].branch_id, bs[1].branch_id);
    assert_eq!(bs[3].url, "a2");
}
