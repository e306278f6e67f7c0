use vstd::prelude::*;
use crate::config::Config;
use crate::errors::Error;
use crate::ids::{new_uuid, now_timestamp};
use crate::payload::json_string_objects;
use crate::processors::{
    all_message_steps, all_saga_steps, message_branches, message_described, saga_branches,
    saga_described, Message, ProcessorType, Saga,
};
use crate::state::{BranchType, State, TransactionType};
use crate::transaction::{Transaction, TransactionBranch};

verus! {

/// A request to create a transaction.
pub struct TransactionCreation {
    /// The pattern's tag: `xa`, `tcc`, `saga` or `message`.
    pub tx_type: String,
    pub payload: String,
    pub query_prepared: String,
}

/// The branches a new transaction of type `t` with `payload` starts with.
pub open spec fn initial_branches(
    t: TransactionType,
    payload: Seq<char>,
    gid: u128,
    now: i64,
    bs: Seq<TransactionBranch>,
) -> bool {
    match t {
        TransactionType::Xa | TransactionType::Tcc => bs.len() == 0,
        TransactionType::Saga => json_string_objects(payload) matches Some(objs) && exists|
            s: Saga,
            ids: Seq<u128>,
        |
            saga_described(s, objs) && ids.len() == s.steps@.len() && saga_branches(
                s.steps@,
                gid,
                ids,
                now,
                bs,
            ),
        TransactionType::Message => json_string_objects(payload) matches Some(objs) && exists|
            m: Message,
            ids: Seq<u128>,
        |
            message_described(m, objs) && ids.len() == m.steps@.len() && message_branches(
                m.steps@,
                gid,
                ids,
                now,
                bs,
            ),
    }
}

/// The payload describes the steps that a transaction of type `t` needs.
pub open spec fn payload_valid(t: TransactionType, payload: Seq<char>) -> bool {
    match t {
        TransactionType::Saga => json_string_objects(payload) matches Some(objs) && all_saga_steps(
            objs,
        ),
        TransactionType::Message => json_string_objects(payload) matches Some(objs)
            && all_message_steps(objs),
        _ => true,
    }
}

/// A new transaction `gid` in state Prepared, with the branches its payload
/// describes; refused for an unknown tag or a payload that does not describe
/// the pattern's steps.
pub fn create_transaction(c: TransactionCreation, gid: u128, now: i64, config: &Config) -> (r: Result<
    (Transaction, Vec<TransactionBranch>),
    Error,
>)
    requires
        config.wf(),
    ensures
        ({
            let tag = c.tx_type@;
            let known = tag == "xa"@ || tag == "tcc"@ || tag == "saga"@ || tag == "message"@;
            &&& !known ==> (r matches Err(e) && e matches Error::InvalidProcessorType(t) && t@ == tag)
            &&& known ==> forall|t: TransactionType|
                #[trigger] t.spec_name() == tag ==> {
                    &&& !payload_valid(t, c.payload@) ==> r == Err::<
                        (Transaction, Vec<TransactionBranch>),
                        Error,
                    >(Error::InvalidPayload)
                    &&& payload_valid(t, c.payload@) ==> (r matches Ok((tx, bs)) && {
                        &&& Transaction::spec_created(
                            gid,
                            t,
                            c.payload@,
                            c.query_prepared@,
                            now,
                            config.delay,
                            tx,
                        )
                        &&& initial_branches(t, c.payload@, gid, now, bs@)
                    })
                }
        }),
{
    let t = match TransactionType::parse(c.tx_type.as_str()) {
        Ok(t) => t,
        Err(e) => {
            return Err(e);
        },
    };
    let p = match ProcessorType::from_payload(t, c.payload.as_str(), c.query_prepared.as_str()) {
        Ok(p) => p,
        Err(e) => {
            return Err(e);
        },
    };
    let bs = p.branches(gid, now);
    let tx = Transaction::create(gid, t, c.payload, c.query_prepared, now, config);
    Ok((tx, bs))
}

/// Registers an XA participant: a rollback and a commit branch under
/// `branch_id`, both Prepared; only while the XA transaction is Prepared.
pub fn register_xa_branch(
    tx: &mut Transaction,
    branch_id: u128,
    url: String,
    payload: String,
    now: i64,
    config: &Config,
) -> (r: Result<Vec<TransactionBranch>, Error>)
    requires
        config.wf(),
    ensures
        (old(tx).tx_type == TransactionType::Xa && old(tx).state == State::Prepared) ==> {
            &&& r matches Ok(bs) && bs@.len() == 2 && TransactionBranch::spec_new(
                old(tx).gid,
                branch_id,
                BranchType::Rollback,
                State::Prepared,
                url@,
                payload@,
                now,
                bs@[0],
            ) && TransactionBranch::spec_new(
                old(tx).gid,
                branch_id,
                BranchType::Commit,
                State::Prepared,
                url@,
                payload@,
                now,
                bs@[1],
            )
            &&& *final(tx) == old(tx).touched(config.delay, now)
        },
        !(old(tx).tx_type == TransactionType::Xa && old(tx).state == State::Prepared) ==> {
            &&& r == Err::<Vec<TransactionBranch>, Error>(
                Error::UnexpectedType(old(tx).tx_type, old(tx).state),
            )
            &&& *final(tx) == *old(tx)
        },
{
    match (tx.tx_type, tx.state) {
        (TransactionType::Xa, State::Prepared) => {},
        _ => {
            return Err(Error::UnexpectedType(tx.tx_type, tx.state));
        },
    }
    let rollback = TransactionBranch::new(
        tx.gid,
        branch_id,
        BranchType::Rollback,
        State::Prepared,
        url.clone(),
        payload.clone(),
        now,
    );
    let commit = TransactionBranch::new(
        tx.gid,
        branch_id,
        BranchType::Commit,
        State::Prepared,
        url,
        payload,
        now,
    );
    tx.touch(config.delay, now);
    Ok(vec![rollback, commit])
}

/// A request to register one TCC participant.
pub struct TCCBranchCreation {
    pub payload: String,
    pub cancel_url: String,
    pub confirm_url: String,
    pub try_url: String,
}

/// Registers a TCC participant: cancel, confirm and try branches under
/// `branch_id`, all Prepared; only while the TCC transaction is Prepared.
pub fn register_tcc_branches(
    tx: &mut Transaction,
    branch_id: u128,
    c: TCCBranchCreation,
    now: i64,
    config: &Config,
) -> (r: Result<Vec<TransactionBranch>, Error>)
    requires
        config.wf(),
    ensures
        (old(tx).tx_type == TransactionType::Tcc && old(tx).state == State::Prepared) ==> {
            &&& r matches Ok(bs) && bs@.len() == 3 && TransactionBranch::spec_new(
                old(tx).gid,
                branch_id,
                BranchType::Cancel,
                State::Prepared,
                c.cancel_url@,
                c.payload@,
                now,
                bs@[0],
            ) && TransactionBranch::spec_new(
                old(tx).gid,
                branch_id,
                BranchType::Confirm,
                State::Prepared,
                c.confirm_url@,
                c.payload@,
                now,
                bs@[1],
            ) && TransactionBranch::spec_new(
                old(tx).gid,
                branch_id,
                BranchType::Try,
                State::Prepared,
                c.try_url@,
                c.payload@,
                now,
                bs@[2],
            )
            &&& *final(tx) == old(tx).touched(config.delay, now)
        },
        !(old(tx).tx_type == TransactionType::Tcc && old(tx).state == State::Prepared) ==> {
            &&& r == Err::<Vec<TransactionBranch>, Error>(
                Error::UnexpectedType(old(tx).tx_type, old(tx).state),
            )
            &&& *final(tx) == *old(tx)
        },
{
    match (tx.tx_type, tx.state) {
        (TransactionType::Tcc, State::Prepared) => {},
        _ => {
            return Err(Error::UnexpectedType(tx.tx_type, tx.state));
        },
    }
    let TCCBranchCreation { payload, cancel_url, confirm_url, try_url } = c;
    let cancel = TransactionBranch::new(
        tx.gid,
        branch_id,
        BranchType::Cancel,
        State::Prepared,
        cancel_url,
        payload.clone(),
        now,
    );
    let confirm = TransactionBranch::new(
        tx.gid,
        branch_id,
        BranchType::Confirm,
        State::Prepared,
        confirm_url,
        payload.clone(),
        now,
    );
    let try_branch = TransactionBranch::new(
        tx.gid,
        branch_id,
        BranchType::Try,
        State::Prepared,
        try_url,
        payload,
        now,
    );
    tx.touch(config.delay, now);
    Ok(vec![cancel, confirm, try_branch])
}

/// As `create_transaction`, under a fresh random identifier and the current
/// time; what holds for every identifier and time is stated.
pub fn new_transaction(c: TransactionCreation, config: &Config) -> (r: Result<
    (Transaction, Vec<TransactionBranch>),
    Error,
>)
    requires
        config.wf(),
    ensures
        ({
            let tag = c.tx_type@;
            let known = tag == "xa"@ || tag == "tcc"@ || tag == "saga"@ || tag == "message"@;
            &&& !known ==> (r matches Err(e) && e matches Error::InvalidProcessorType(t) && t@ == tag)
            &&& known ==> forall|t: TransactionType|
                #[trigger] t.spec_name() == tag ==> {
                    &&& !payload_valid(t, c.payload@) ==> r == Err::<
                        (Transaction, Vec<TransactionBranch>),
                        Error,
                    >(Error::InvalidPayload)
                    &&& payload_valid(t, c.payload@) ==> (r matches Ok((tx, bs)) && {
                        &&& Transaction::spec_created(
                            tx.gid,
                            t,
                            c.payload@,
                            c.query_prepared@,
                            tx.created_at,
                            config.delay,
                            tx,
                        )
                        &&& initial_branches(t, c.payload@, tx.gid, tx.created_at, bs@)
                    })
                }
        }),
{
    let gid = new_uuid();
    let now = now_timestamp();
    create_transaction(c, gid, now, config)
}

} // verus!
