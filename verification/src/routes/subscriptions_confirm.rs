//! Confirming a subscription through the emailed link.

use vstd::prelude::*;
use crate::http::Response;

verus! {

/// The query of a confirmation link.
pub struct Parameters {
    pub subscription_token: String,
}

/// Answers 200 for every token.
pub fn confirm(_parameters: &Parameters) -> (response: Response)
    ensures
        response == Response::Success,
{
    Response::Success
}

} // verus!
