use vstd::prelude::*;
use crate::state::{State, TransactionType};

verus! {

/// Why a request to the coordinator was refused.
#[derive(Debug, PartialEq, Eq)]
pub enum Error {
    /// The pattern tag names none of the four patterns.
    InvalidProcessorType(String),
    /// The payload does not describe the pattern's steps.
    InvalidPayload,
    /// The transaction's pattern or state does not admit the request.
    UnexpectedType(TransactionType, State),
    /// The transaction cannot be submitted from its current state.
    CannotSubmitTransaction(u128, State),
    /// The state change would break the transaction's state machine.
    IllegalTransition(State, State),
}

/// An error together with the code reported to the client.
pub struct ErrorResponse {
    pub code: u16,
    pub err: Error,
}

impl ErrorResponse {
    pub fn new(err: Error, code: u16) -> (r: ErrorResponse)
        ensures
            r.code == code,
            r.err == err,
    {
        ErrorResponse { code, err }
    }
}

/// The code reported for an error that no handler has given one.
pub const UNEXPECTED_ERROR_CODE: u16 = 5999;

impl From<Error> for ErrorResponse {
    fn from(err: Error) -> (r: ErrorResponse) {
        ErrorResponse { code: UNEXPECTED_ERROR_CODE, err }
    }
}

impl vstd::std_specs::convert::FromSpecImpl<Error> for ErrorResponse {
    open spec fn obeys_from_spec() -> bool {
        true
    }

    open spec fn from_spec(err: Error) -> ErrorResponse {
        ErrorResponse { code: UNEXPECTED_ERROR_CODE, err }
    }
}

} // verus!
