//! The four patterns: what their payloads describe, the branches they start
//! with, and the attempt state machine that drives them.

pub mod decision;
pub mod processor;
pub mod search;

pub use decision::Action;
pub use processor::Processor;

use vstd::prelude::*;
use vstd::string::StringExecFns;
use crate::errors::Error;
use crate::payload::{find_value, json_string_objects, lookup, or_empty, parse_string_objects};
use crate::ids::new_uuid;
use crate::state::{BranchType, State, TransactionType};
use crate::transaction::TransactionBranch;

verus! {

/// The XA pattern; its branches are registered by participants.
pub struct Xa {}

/// The TCC pattern; its branches are registered by participants.
pub struct TCC {}

/// One saga step: the action, the compensation that undoes it, and the body
/// sent to both.
pub struct SagaStep {
    pub payload: String,
    pub on_reverting: String,
    pub on_committing: String,
}

impl SagaStep {
    pub fn new(on_committing: String, on_reverting: String, payload: String) -> (r: SagaStep)
        ensures
            r.on_committing == on_committing,
            r.on_reverting == on_reverting,
            r.payload == payload,
    {
        SagaStep { payload, on_reverting, on_committing }
    }

    pub fn on_reverting(&self) -> (r: &str)
        ensures
            r@ == self.on_reverting@,
    {
        self.on_reverting.as_str()
    }

    pub fn on_committing(&self) -> (r: &str)
        ensures
            r@ == self.on_committing@,
    {
        self.on_committing.as_str()
    }

    /// (action URL, compensation URL, body)
    pub open spec fn fields(self) -> (Seq<char>, Seq<char>, Seq<char>) {
        (self.on_committing@, self.on_reverting@, self.payload@)
    }
}

/// The saga pattern: ordered steps.
pub struct Saga {
    pub steps: Vec<SagaStep>,
}

/// One message step: the callback to deliver to and the body delivered.
pub struct MessageStep {
    pub payload: String,
    pub callback: String,
}

impl MessageStep {
    pub fn new(payload: String, callback: String) -> (r: MessageStep)
        ensures
            r.payload == payload,
            r.callback == callback,
    {
        MessageStep { payload, callback }
    }

    pub fn payload(&self) -> (r: &str)
        ensures
            r@ == self.payload@,
    {
        self.payload.as_str()
    }

    pub fn callback(&self) -> (r: &str)
        ensures
            r@ == self.callback@,
    {
        self.callback.as_str()
    }

    /// (callback URL, body)
    pub open spec fn fields(self) -> (Seq<char>, Seq<char>) {
        (self.callback@, self.payload@)
    }
}

/// The reliable-message pattern: ordered deliveries and the callback that
/// confirms their precondition.
pub struct Message {
    pub steps: Vec<MessageStep>,
    pub query_prepared: String,
}

/// A pattern together with what its payload describes.
pub enum ProcessorType {
    Xa(Xa),
    TCC(TCC),
    Saga(Saga),
    Message(Message),
}

/// The step that a JSON object describes: `action` and `compensate` are
/// required, `payload` defaults to empty.
pub open spec fn saga_step_of(obj: Seq<(Seq<char>, Seq<char>)>) -> Option<
    (Seq<char>, Seq<char>, Seq<char>),
> {
    match (lookup(obj, "action"@), lookup(obj, "compensate"@)) {
        (Some(a), Some(c)) => Some((a, c, or_empty(lookup(obj, "payload"@)))),
        _ => None,
    }
}

/// The delivery that a JSON object describes: `callback` is required,
/// `payload` defaults to empty.
pub open spec fn message_step_of(obj: Seq<(Seq<char>, Seq<char>)>) -> Option<
    (Seq<char>, Seq<char>),
> {
    match lookup(obj, "callback"@) {
        Some(c) => Some((c, or_empty(lookup(obj, "payload"@)))),
        None => None,
    }
}

pub open spec fn all_saga_steps(objs: Seq<Seq<(Seq<char>, Seq<char>)>>) -> bool {
    forall|k: int| 0 <= k < objs.len() ==> (#[trigger] saga_step_of(objs[k])) is Some
}

pub open spec fn all_message_steps(objs: Seq<Seq<(Seq<char>, Seq<char>)>>) -> bool {
    forall|k: int| 0 <= k < objs.len() ==> (#[trigger] message_step_of(objs[k])) is Some
}

fn value_or_empty(v: Option<String>) -> (r: String)
    ensures
        r@ == or_empty(
            match v {
                Some(s) => Some(s@),
                None => None,
            },
        ),
{
    match v {
        Some(s) => s,
        None => String::new(),
    }
}

impl Saga {
    pub fn new() -> (r: Saga)
        ensures
            r.steps@.len() == 0,
    {
        Saga { steps: Vec::new() }
    }

    /// Appends a step after the existing ones.
    pub fn add(&mut self, on_committing: String, on_reverting: String, payload: String)
        ensures
            final(self).steps@.len() == old(self).steps@.len() + 1,
            final(self).steps@.subrange(0, old(self).steps@.len() as int) == old(self).steps@,
            final(self).steps@.last().fields() == (on_committing@, on_reverting@, payload@),
    {
        self.steps.push(SagaStep::new(on_committing, on_reverting, payload));
        assert(self.steps@.subrange(0, old(self).steps@.len() as int) =~= old(self).steps@);
    }

    /// The saga that parsed objects describe, one step per object in order;
    /// None when an object lacks `action` or `compensate`.
    pub fn from_objects(objs: &Vec<Vec<(String, String)>>) -> (r: Option<Saga>)
        ensures
            r is Some <==> all_saga_steps(objs.deep_view()),
            r matches Some(s) ==> {
                &&& s.steps@.len() == objs@.len()
                &&& forall|k: int|
                    0 <= k < objs@.len() ==> Some(#[trigger] s.steps@[k].fields()) == saga_step_of(
                        objs.deep_view()[k],
                    )
            },
    {
        let ghost dv = objs.deep_view();
        let mut steps: Vec<SagaStep> = Vec::new();
        let n = objs.len();
        let mut i: usize = 0;
        while i < n
            invariant
                n == objs@.len(),
                dv == objs.deep_view(),
                i <= n,
                steps@.len() == i,
                forall|k: int| 0 <= k < i ==> Some(#[trigger] steps@[k].fields()) == saga_step_of(dv[k]),
            decreases n - i,
        {
            proof {
                reveal_strlit("action");
                reveal_strlit("compensate");
                reveal_strlit("payload");
            }
            assert(dv[i as int] == objs@[i as int].deep_view());
            let action = find_value(&objs[i], "action");
            let compensate = find_value(&objs[i], "compensate");
            match (action, compensate) {
                (Some(a), Some(c)) => {
                    let p = value_or_empty(find_value(&objs[i], "payload"));
                    steps.push(SagaStep { payload: p, on_reverting: c, on_committing: a });
                },
                _ => {
                    assert(saga_step_of(dv[i as int]) is None);
                    return None;
                },
            }
            i = i + 1;
        }
        assert forall|k: int| 0 <= k < dv.len() implies (#[trigger] saga_step_of(dv[k])) is Some by {
            assert(Some(steps@[k].fields()) == saga_step_of(dv[k]));
        }
        Some(Saga { steps })
    }
}

impl Message {
    /// The message that parsed objects describe, one delivery per object in
    /// order; None when an object lacks `callback`.
    pub fn from_objects(objs: &Vec<Vec<(String, String)>>, query_prepared: String) -> (r: Option<
        Message,
    >)
        ensures
            r is Some <==> all_message_steps(objs.deep_view()),
            r matches Some(m) ==> {
                &&& m.query_prepared == query_prepared
                &&& m.steps@.len() == objs@.len()
                &&& forall|k: int|
                    0 <= k < objs@.len() ==> Some(#[trigger] m.steps@[k].fields())
                        == message_step_of(objs.deep_view()[k])
            },
    {
        let ghost dv = objs.deep_view();
        let mut steps: Vec<MessageStep> = Vec::new();
        let n = objs.len();
        let mut i: usize = 0;
        while i < n
            invariant
                n == objs@.len(),
                dv == objs.deep_view(),
                i <= n,
                steps@.len() == i,
                forall|k: int|
                    0 <= k < i ==> Some(#[trigger] steps@[k].fields()) == message_step_of(dv[k]),
            decreases n - i,
        {
            assert(dv[i as int] == objs@[i as int].deep_view());
            match find_value(&objs[i], "callback") {
                Some(c) => {
                    let p = value_or_empty(find_value(&objs[i], "payload"));
                    steps.push(MessageStep { payload: p, callback: c });
                },
                None => {
                    assert(message_step_of(dv[i as int]) is None);
                    return None;
                },
            }
            i = i + 1;
        }
        assert forall|k: int| 0 <= k < dv.len() implies (#[trigger] message_step_of(dv[k])) is Some by {
            assert(Some(steps@[k].fields()) == message_step_of(dv[k]));
        }
        Some(Message { steps, query_prepared })
    }
}

/// `s` holds the steps that `objs` describe, in order.
pub open spec fn saga_described(s: Saga, objs: Seq<Seq<(Seq<char>, Seq<char>)>>) -> bool {
    &&& s.steps@.len() == objs.len()
    &&& forall|k: int| 0 <= k < objs.len() ==> Some(#[trigger] s.steps@[k].fields()) == saga_step_of(objs[k])
}

/// `m` holds the deliveries that `objs` describe, in order.
pub open spec fn message_described(m: Message, objs: Seq<Seq<(Seq<char>, Seq<char>)>>) -> bool {
    &&& m.steps@.len() == objs.len()
    &&& forall|k: int|
        0 <= k < objs.len() ==> Some(#[trigger] m.steps@[k].fields()) == message_step_of(objs[k])
}

/// The branches of a saga: per step, its compensation then its action, sharing
/// the step's identifier `ids[k]`.
pub open spec fn saga_branches(
    steps: Seq<SagaStep>,
    gid: u128,
    ids: Seq<u128>,
    now: i64,
    bs: Seq<TransactionBranch>,
) -> bool {
    &&& bs.len() == 2 * steps.len()
    &&& forall|k: int|
        0 <= k < steps.len() ==> {
            &&& TransactionBranch::spec_new(
                gid,
                ids[k],
                BranchType::Compensate,
                State::Prepared,
                (#[trigger] steps[k]).on_reverting@,
                steps[k].payload@,
                now,
                bs[2 * k],
            )
            &&& TransactionBranch::spec_new(
                gid,
                ids[k],
                BranchType::Action,
                State::Prepared,
                steps[k].on_committing@,
                steps[k].payload@,
                now,
                bs[2 * k + 1],
            )
        }
}

/// The branches of a message: one action per delivery, in order.
pub open spec fn message_branches(
    steps: Seq<MessageStep>,
    gid: u128,
    ids: Seq<u128>,
    now: i64,
    bs: Seq<TransactionBranch>,
) -> bool {
    &&& bs.len() == steps.len()
    &&& forall|k: int|
        0 <= k < steps.len() ==> TransactionBranch::spec_new(
            gid,
            ids[k],
            BranchType::Action,
            State::Prepared,
            (#[trigger] steps[k]).callback@,
            steps[k].payload@,
            now,
            bs[k],
        )
}

fn fresh_ids(n: usize) -> (r: Vec<u128>)
    ensures
        r@.len() == n,
{
    let mut ids: Vec<u128> = Vec::new();
    let mut i: usize = 0;
    while i < n
        invariant
            i <= n,
            ids@.len() == i,
        decreases n - i,
    {
        ids.push(new_uuid());
        i = i + 1;
    }
    ids
}

impl Saga {
    /// The saga's branches, step `k` identified by `ids[k]`.
    pub fn branches_with(&self, gid: u128, ids: &Vec<u128>, now: i64) -> (r: Vec<TransactionBranch>)
        requires
            ids@.len() == self.steps@.len(),
        ensures
            saga_branches(self.steps@, gid, ids@, now, r@),
    {
        let mut bs: Vec<TransactionBranch> = Vec::new();
        let n = self.steps.len();
        let mut i: usize = 0;
        while i < n
            invariant
                n == self.steps@.len(),
                ids@.len() == n,
                i <= n,
                bs@.len() == 2 * i,
                forall|k: int|
                    0 <= k < i ==> {
                        &&& TransactionBranch::spec_new(
                            gid,
                            ids@[k],
                            BranchType::Compensate,
                            State::Prepared,
                            (#[trigger] self.steps@[k]).on_reverting@,
                            self.steps@[k].payload@,
                            now,
                            bs@[2 * k],
                        )
                        &&& TransactionBranch::spec_new(
                            gid,
                            ids@[k],
                            BranchType::Action,
                            State::Prepared,
                            self.steps@[k].on_committing@,
                            self.steps@[k].payload@,
                            now,
                            bs@[2 * k + 1],
                        )
                    },
            decreases n - i,
        {
            let step = &self.steps[i];
            bs.push(
                TransactionBranch::new(
                    gid,
                    ids[i],
                    BranchType::Compensate,
                    State::Prepared,
                    step.on_reverting.clone(),
                    step.payload.clone(),
                    now,
                ),
            );
            bs.push(
                TransactionBranch::new(
                    gid,
                    ids[i],
                    BranchType::Action,
                    State::Prepared,
                    step.on_committing.clone(),
                    step.payload.clone(),
                    now,
                ),
            );
            i = i + 1;
        }
        bs
    }

    /// The saga's branches, each step under a fresh random identifier.
    pub fn branches(&self, gid: u128, now: i64) -> (r: Vec<TransactionBranch>)
        ensures
            exists|ids: Seq<u128>|
                ids.len() == self.steps@.len() && saga_branches(self.steps@, gid, ids, now, r@),
    {
        let ids = fresh_ids(self.steps.len());
        self.branches_with(gid, &ids, now)
    }
}

impl Message {
    /// The message's branches, delivery `k` identified by `ids[k]`.
    pub fn branches_with(&self, gid: u128, ids: &Vec<u128>, now: i64) -> (r: Vec<TransactionBranch>)
        requires
            ids@.len() == self.steps@.len(),
        ensures
            message_branches(self.steps@, gid, ids@, now, r@),
    {
        let mut bs: Vec<TransactionBranch> = Vec::new();
        let n = self.steps.len();
        let mut i: usize = 0;
        while i < n
            invariant
                n == self.steps@.len(),
                ids@.len() == n,
                i <= n,
                bs@.len() == i,
                forall|k: int|
                    0 <= k < i ==> TransactionBranch::spec_new(
                        gid,
                        ids@[k],
                        BranchType::Action,
                        State::Prepared,
                        (#[trigger] self.steps@[k]).callback@,
                        self.steps@[k].payload@,
                        now,
                        bs@[k],
                    ),
            decreases n - i,
        {
            let step = &self.steps[i];
            bs.push(
                TransactionBranch::new(
                    gid,
                    ids[i],
                    BranchType::Action,
                    State::Prepared,
                    step.callback.clone(),
                    step.payload.clone(),
                    now,
                ),
            );
            i = i + 1;
        }
        bs
    }

    /// The message's branches, each under a fresh random identifier.
    pub fn branches(&self, gid: u128, now: i64) -> (r: Vec<TransactionBranch>)
        ensures
            exists|ids: Seq<u128>|
                ids.len() == self.steps@.len() && message_branches(self.steps@, gid, ids, now, r@),
    {
        let ids = fresh_ids(self.steps.len());
        self.branches_with(gid, &ids, now)
    }
}

impl ProcessorType {
    /// What a transaction of type `t` is: XA and TCC take their branches from
    /// participants; a saga or message payload must be a JSON array of step
    /// objects.
    pub fn from_payload(t: TransactionType, payload: &str, query_prepared: &str) -> (r: Result<
        ProcessorType,
        Error,
    >)
        ensures
            t == TransactionType::Xa ==> r matches Ok(ProcessorType::Xa(_)),
            t == TransactionType::Tcc ==> r matches Ok(ProcessorType::TCC(_)),
            t == TransactionType::Saga ==> match r {
                Ok(p) => p matches ProcessorType::Saga(s) && json_string_objects(payload@) matches Some(
                    objs,
                ) && all_saga_steps(objs) && saga_described(s, objs),
                Err(e) => e == Error::InvalidPayload && !(json_string_objects(payload@) matches Some(
                    objs,
                ) && all_saga_steps(objs)),
            },
            t == TransactionType::Message ==> match r {
                Ok(p) => p matches ProcessorType::Message(m) && json_string_objects(payload@) matches Some(
                    objs,
                ) && all_message_steps(objs) && message_described(m, objs) && m.query_prepared@
                    == query_prepared@,
                Err(e) => e == Error::InvalidPayload && !(json_string_objects(payload@) matches Some(
                    objs,
                ) && all_message_steps(objs)),
            },
    {
        match t {
            TransactionType::Xa => Ok(ProcessorType::Xa(Xa {})),
            TransactionType::Tcc => Ok(ProcessorType::TCC(TCC {})),
            TransactionType::Saga => match parse_string_objects(payload) {
                Some(objs) => match Saga::from_objects(&objs) {
                    Some(s) => Ok(ProcessorType::Saga(s)),
                    None => Err(Error::InvalidPayload),
                },
                None => Err(Error::InvalidPayload),
            },
            TransactionType::Message => match parse_string_objects(payload) {
                Some(objs) => match Message::from_objects(&objs, String::from_str(query_prepared)) {
                    Some(m) => Ok(ProcessorType::Message(m)),
                    None => Err(Error::InvalidPayload),
                },
                None => Err(Error::InvalidPayload),
            },
        }
    }

    /// The branches a new transaction starts with: none for XA and TCC, those
    /// the steps describe for a saga or a message.
    pub fn branches(&self, gid: u128, now: i64) -> (r: Vec<TransactionBranch>)
        ensures
            match self {
                ProcessorType::Xa(_) | ProcessorType::TCC(_) => r@.len() == 0,
                ProcessorType::Saga(s) => exists|ids: Seq<u128>|
                    ids.len() == s.steps@.len() && saga_branches(s.steps@, gid, ids, now, r@),
                ProcessorType::Message(m) => exists|ids: Seq<u128>|
                    ids.len() == m.steps@.len() && message_branches(m.steps@, gid, ids, now, r@),
            },
    {
        match self {
            ProcessorType::Xa(_) | ProcessorType::TCC(_) => Vec::new(),
            ProcessorType::Saga(s) => s.branches(gid, now),
            ProcessorType::Message(m) => m.branches(gid, now),
        }
    }
}

} // verus!
