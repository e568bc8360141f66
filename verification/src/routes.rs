//! Bodies of the plan service's requests and errors.

use vstd::prelude::*;

verus! {

/// A request to make a plan for the user's input.
#[derive(Debug, Clone)]
pub struct CreatePlanRequest {
    pub user_input: String,
}

/// An error answer.
#[derive(Debug, Clone)]
pub struct ErrorResponse {
    pub error: String,
}

impl ErrorResponse {
    /// The answer when no plan has the requested id.
    pub fn plan_not_found() -> (r: ErrorResponse)
        ensures
            r.error@ == "Plan not found"@,
    {
        ErrorResponse { error: String::from_str("Plan not found") }
    }
}

} // verus!
