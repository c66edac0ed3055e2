//! Ending a session.

use vstd::prelude::*;
use crate::http::Flash;
use crate::http::Location;
use crate::http::Response;
use crate::session_state::current_user;
use crate::session_state::current_user_of;
use crate::session_state::destroy;
use crate::session_state::SessionError;
use crate::session_state::SessionHandle;
use crate::session_state::SessionStore;

verus! {

/// What follows the look at the caller's session.
#[derive(Debug, Clone, Copy, PartialEq, Eq, Structural)]
pub enum LogoutStep {
    /// The session is to be destroyed.
    Destroy,
    /// Nothing is destroyed; the caller gets this response.
    Respond(Response),
}

/// The step that follows the look at the session: with a session, its end;
/// without one, the entry point; a 500 where the store could not be asked.
pub open spec fn logout_step_of(current: Result<Option<uuid::Uuid>, SessionError>) -> LogoutStep {
    match current {
        Ok(Some(_)) => LogoutStep::Destroy,
        Ok(None) => LogoutStep::Respond(Response::SeeOther(Location::Login, None)),
        Err(_) => LogoutStep::Respond(Response::InternalServerError),
    }
}

/// The response once the session store has answered: the entry point with
/// a message where the session is gone, a 500 where the store could not be
/// reached.
pub open spec fn logout_response_of(destroyed: Result<(), SessionError>) -> Response {
    match destroyed {
        Ok(_) => Response::SeeOther(Location::Login, Some(Flash::LoggedOut)),
        Err(_) => Response::InternalServerError,
    }
}

/// What logging out answers and leaves in the store: without a session the
/// caller is sent to the entry point and nothing changes; with one the
/// session is destroyed and the caller is sent there with a message; a store
/// that cannot be reached is a 500.
pub open spec fn logged_out(
    before: SessionStore,
    after: SessionStore,
    handle: Seq<char>,
    response: Response,
) -> bool {
    &&& after.online == before.online
    &&& if !before.online {
        response == Response::InternalServerError && after@ == before@
    } else if current_user_of(before@, handle) is None {
        response == Response::SeeOther(Location::Login, None) && after@ == before@
    } else {
        response == Response::SeeOther(Location::Login, Some(Flash::LoggedOut)) && after@
            == before@.remove(handle) && current_user_of(after@, handle) is None
    }
}

/// Decides what follows the look at the caller's session.
pub fn logout_step(current: Result<Option<uuid::Uuid>, SessionError>) -> (step: LogoutStep)
    ensures
        step == logout_step_of(current),
{
    match current {
        Ok(Some(_)) => LogoutStep::Destroy,
        Ok(None) => LogoutStep::Respond(crate::http::see_other(Location::Login)),
        Err(_) => LogoutStep::Respond(Response::InternalServerError),
    }
}

/// Decides the response from what the session store answered when the
/// session was to be destroyed.
pub fn logout_response(destroyed: Result<(), SessionError>) -> (response: Response)
    ensures
        response == logout_response_of(destroyed),
{
    match destroyed {
        Ok(_) => Response::SeeOther(Location::Login, Some(Flash::LoggedOut)),
        Err(_) => Response::InternalServerError,
    }
}

/// Logs the holder of `handle` out of a store in memory.
pub fn log_out(store: &mut SessionStore, handle: &SessionHandle) -> (response: Response)
    ensures
        logged_out(*old(store), *final(store), handle@, response),
{
    match logout_step(current_user(store, handle)) {
        LogoutStep::Respond(response) => response,
        LogoutStep::Destroy => logout_response(destroy(store, handle)),
    }
}

} // verus!
