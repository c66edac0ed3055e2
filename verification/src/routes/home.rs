//! The landing page.

use vstd::prelude::*;
use crate::http::Response;

verus! {

/// Answers 200; the page itself is a fixed document.
pub fn home() -> (response: Response)
    ensures
        response == Response::Success,
{
    Response::Success
}

} // verus!
