use vstd::prelude::*;
use vstd::string::StringExecFns;
use crate::errors::Error;
use crate::text::same_text;

verus! {

/// The state of a global transaction or of one of its branches.
#[derive(Clone, Copy, Debug, PartialEq, Eq, Structural)]
pub enum State {
    Succeed,
    Submitted,
    Failed,
    Prepared,
    Aborting,
}

impl State {
    pub open spec fn spec_is_terminal(self) -> bool {
        self == State::Succeed || self == State::Failed
    }

    /// Succeed and Failed are terminal: nothing changes a record after them.
    pub fn is_terminal(&self) -> (r: bool)
        ensures
            r == self.spec_is_terminal(),
    {
        match self {
            State::Succeed | State::Failed => true,
            _ => false,
        }
    }

    pub open spec fn spec_code(self) -> i64 {
        match self {
            State::Succeed => 1,
            State::Submitted => 2,
            State::Failed => 3,
            State::Prepared => 4,
            State::Aborting => 5,
        }
    }

    /// The integer under which the state is stored.
    pub fn code(&self) -> (r: i64)
        ensures
            r == self.spec_code(),
    {
        match self {
            State::Succeed => 1,
            State::Submitted => 2,
            State::Failed => 3,
            State::Prepared => 4,
            State::Aborting => 5,
        }
    }

    /// The state stored under `code`, if any.
    pub fn from_code(code: i64) -> (r: Option<State>)
        ensures
            r matches Some(s) ==> s.spec_code() == code,
            r is None <==> !(1 <= code <= 5),
    {
        if code == 1 {
            Some(State::Succeed)
        } else if code == 2 {
            Some(State::Submitted)
        } else if code == 3 {
            Some(State::Failed)
        } else if code == 4 {
            Some(State::Prepared)
        } else if code == 5 {
            Some(State::Aborting)
        } else {
            None
        }
    }
}

/// The pattern a global transaction follows; fixed when it is created.
#[derive(Clone, Copy, Debug, PartialEq, Eq, Structural)]
pub enum TransactionType {
    Xa,
    Tcc,
    Saga,
    Message,
}

/// The role of a branch within its transaction.
#[derive(Clone, Copy, Debug, PartialEq, Eq, Structural)]
pub enum BranchType {
    Try,
    Confirm,
    Cancel,
    Action,
    Compensate,
    Commit,
    Rollback,
}

impl BranchType {
    pub open spec fn spec_name(self) -> Seq<char> {
        match self {
            BranchType::Try => "try"@,
            BranchType::Confirm => "confirm"@,
            BranchType::Cancel => "cancel"@,
            BranchType::Action => "action"@,
            BranchType::Compensate => "compensate"@,
            BranchType::Commit => "commit"@,
            BranchType::Rollback => "rollback"@,
        }
    }

    /// The tag sent to a participant as `branch_type`.
    pub fn name(&self) -> (r: &'static str)
        ensures
            r@ == self.spec_name(),
    {
        match self {
            BranchType::Try => "try",
            BranchType::Confirm => "confirm",
            BranchType::Cancel => "cancel",
            BranchType::Action => "action",
            BranchType::Compensate => "compensate",
            BranchType::Commit => "commit",
            BranchType::Rollback => "rollback",
        }
    }
}

/// What a remote branch call came to.
#[derive(Clone, Copy, Debug, PartialEq, Eq, Structural)]
pub enum Outcome {
    Succeeded,
    Failed,
    Indeterminate,
}

impl TransactionType {
    pub open spec fn spec_name(self) -> Seq<char> {
        match self {
            TransactionType::Xa => "xa"@,
            TransactionType::Tcc => "tcc"@,
            TransactionType::Saga => "saga"@,
            TransactionType::Message => "message"@,
        }
    }

    /// The tag under which the pattern is named in requests and stored.
    pub fn name(&self) -> (r: &'static str)
        ensures
            r@ == self.spec_name(),
    {
        match self {
            TransactionType::Xa => "xa",
            TransactionType::Tcc => "tcc",
            TransactionType::Saga => "saga",
            TransactionType::Message => "message",
        }
    }

    /// The pattern named by `tag`; any other tag is refused.
    pub fn parse(tag: &str) -> (r: Result<TransactionType, Error>)
        ensures
            r == Ok::<TransactionType, Error>(TransactionType::Xa) <==> tag@ == "xa"@,
            r == Ok::<TransactionType, Error>(TransactionType::Tcc) <==> tag@ == "tcc"@,
            r == Ok::<TransactionType, Error>(TransactionType::Saga) <==> tag@ == "saga"@,
            r == Ok::<TransactionType, Error>(TransactionType::Message) <==> tag@ == "message"@,
            r matches Err(e) ==> e matches Error::InvalidProcessorType(t) && t@ == tag@,
    {
        proof {
            reveal_strlit("xa");
            reveal_strlit("tcc");
            reveal_strlit("saga");
            reveal_strlit("message");
            assert("xa"@.len() == 2 && "tcc"@.len() == 3 && "saga"@.len() == 4 && "message"@.len() == 7);
        }
        if same_text(tag, "xa") {
            Ok(TransactionType::Xa)
        } else if same_text(tag, "tcc") {
            Ok(TransactionType::Tcc)
        } else if same_text(tag, "saga") {
            Ok(TransactionType::Saga)
        } else if same_text(tag, "message") {
            Ok(TransactionType::Message)
        } else {
            Err(Error::InvalidProcessorType(String::from_str(tag)))
        }
    }
}

} // verus!
