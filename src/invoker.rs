use vstd::prelude::*;
use crate::state::{BranchType, Outcome};
use crate::text::{occurs_in, str_contains};

verus! {

/// The outcome of a branch call of role `role`: `SUCCESS` in the body
/// acknowledges it, `FAILURE` refuses a try or an action, anything else settles
/// nothing; `body` is None where the call
/// did not complete with a success status (network error, timeout, other
/// status).
pub open spec fn spec_classify(body: Option<Seq<char>>, role: BranchType) -> Outcome {
    match body {
        None => Outcome::Indeterminate,
        Some(b) => if occurs_in("SUCCESS"@, b) {
            Outcome::Succeeded
        } else if (role == BranchType::Try || role == BranchType::Action) && occurs_in(
            "FAILURE"@,
            b,
        ) {
            Outcome::Failed
        } else {
            Outcome::Indeterminate
        },
    }
}

/// Interprets a participant's response to a branch call.
pub fn classify(body: Option<&str>, role: BranchType) -> (r: Outcome)
    ensures
        r == spec_classify(
            match body {
                Some(b) => Some(b@),
                None => None,
            },
            role,
        ),
{
    match body {
        None => Outcome::Indeterminate,
        Some(b) => {
            if str_contains(b, "SUCCESS") {
                Outcome::Succeeded
            } else if match role {
                BranchType::Try | BranchType::Action => true,
                _ => false,
            } && str_contains(b, "FAILURE") {
                Outcome::Failed
            } else {
                Outcome::Indeterminate
            }
        },
    }
}

/// Interprets the response of a message's precondition callback: only an
/// acknowledgement confirms it.
pub fn classify_query(body: Option<&str>) -> (r: Outcome)
    ensures
        r == match body {
            Some(b) => if occurs_in("SUCCESS"@, b@) {
                Outcome::Succeeded
            } else {
                Outcome::Indeterminate
            },
            None => Outcome::Indeterminate,
        },
{
    match body {
        Some(b) => if str_contains(b, "SUCCESS") {
            Outcome::Succeeded
        } else {
            Outcome::Indeterminate
        },
        None => Outcome::Indeterminate,
    }
}

} // verus!
