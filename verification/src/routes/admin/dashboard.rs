//! The operator's dashboard.

use vstd::prelude::*;
use crate::authentication::middleware::UserId;
use crate::http::Response;

verus! {

/// Answers 200 to the user whom the guard let pass.
pub fn admin_dashboard(_user: UserId) -> (response: Response)
    ensures
        response == Response::Success,
{
    Response::Success
}

} // verus!
