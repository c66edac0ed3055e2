//! Logging in: the form, and what becomes of the credentials posted.

use vstd::prelude::*;
use crate::authentication::password::AuthError;
use crate::http::Flash;
use crate::http::Location;
use crate::http::Response;
use crate::random::is_token;
use crate::session_state::destroy;
use crate::session_state::establish;
use crate::session_state::SessionError;
use crate::session_state::SessionHandle;
use crate::session_state::SessionStore;
use crate::session_state::HANDLE_LENGTH;

verus! {

/// What follows the validation of the posted credentials.
#[derive(Debug, Clone, Copy)]
pub enum LoginStep {
    /// A session is to be established for this user.
    Establish(uuid::Uuid),
    /// Nothing is established; the caller gets this response.
    Respond(Response),
}

/// The step that follows validation: a session for the user whose
/// credentials were valid; the form again, with a message, where they were
/// turned down; a 500 where validation could not be decided.
pub open spec fn login_step_of(validation: Result<uuid::Uuid, AuthError>) -> LoginStep {
    match validation {
        Ok(user_id) => LoginStep::Establish(user_id),
        Err(AuthError::InvalidCredentials(_)) => LoginStep::Respond(
            Response::SeeOther(Location::Login, Some(Flash::AuthenticationFailed)),
        ),
        Err(AuthError::UnexpectedError(_)) => LoginStep::Respond(Response::InternalServerError),
    }
}

/// The response once the session store has answered: the dashboard where
/// the session stands, a 500 where the store could not be reached.
pub open spec fn login_response_of(established: Result<(), SessionError>) -> Response {
    match established {
        Ok(_) => Response::SeeOther(Location::Dashboard, None),
        Err(_) => Response::InternalServerError,
    }
}

/// What the store holds once a session that a client brought along is
/// given up.
pub open spec fn without_previous(
    sessions: Map<Seq<char>, uuid::Uuid>,
    previous: Option<&SessionHandle>,
) -> Map<Seq<char>, uuid::Uuid> {
    match previous {
        Some(handle) => sessions.remove(handle@),
        None => sessions,
    }
}

/// What logging in answers and leaves in the store, given the handle that
/// the client brought along, if any, and how validation of the posted
/// credentials ended. A successful login gives up the session brought along
/// and starts one under a fresh handle: no handle survives a change of
/// user.
pub open spec fn logged_in(
    before: SessionStore,
    after: SessionStore,
    previous: Option<&SessionHandle>,
    validation: Result<uuid::Uuid, AuthError>,
    response: Response,
    session: Option<SessionHandle>,
) -> bool {
    &&& after.online == before.online
    &&& match login_step_of(validation) {
        LoginStep::Establish(user_id) => if before.online {
            &&& response == Response::SeeOther(Location::Dashboard, None)
            &&& session matches Some(handle)
            &&& is_token(handle@, HANDLE_LENGTH as nat)
            &&& after@ == without_previous(before@, previous).insert(handle@, user_id)
        } else {
            response == Response::InternalServerError && session is None && after@ == before@
        },
        LoginStep::Respond(refusal) => response == refusal && session is None && after@
            == before@,
    }
}

/// Answers 200; the form itself is a fixed document.
pub fn login_form() -> (response: Response)
    ensures
        response == Response::Success,
{
    Response::Success
}

/// Decides what follows the validation of the posted credentials.
pub fn login_step(validation: Result<uuid::Uuid, AuthError>) -> (step: LoginStep)
    ensures
        step == login_step_of(validation),
{
    match validation {
        Ok(user_id) => LoginStep::Establish(user_id),
        Err(AuthError::InvalidCredentials(_)) => LoginStep::Respond(
            Response::SeeOther(Location::Login, Some(Flash::AuthenticationFailed)),
        ),
        Err(AuthError::UnexpectedError(_)) => LoginStep::Respond(Response::InternalServerError),
    }
}

/// Decides the response from what the session store answered when the
/// session was to be established.
pub fn login_response(established: Result<(), SessionError>) -> (response: Response)
    ensures
        response == login_response_of(established),
{
    match established {
        Ok(_) => crate::http::see_other(Location::Dashboard),
        Err(_) => Response::InternalServerError,
    }
}

/// Answers a login against a store in memory: valid credentials start a
/// session under a fresh handle, which goes into the cookie, and lead to the
/// dashboard; credentials that were turned down lead back to the form with
/// a message; anything else is a 500.
pub fn login(
    store: &mut SessionStore,
    previous: Option<&SessionHandle>,
    validation: Result<uuid::Uuid, AuthError>,
) -> (r: (Response, Option<SessionHandle>))
    ensures
        logged_in(*old(store), *final(store), previous, validation, r.0, r.1),
{
    let user_id = match login_step(validation) {
        LoginStep::Respond(response) => { return (response, None); },
        LoginStep::Establish(user_id) => user_id,
    };
    if let Some(handle) = previous {
        if let Err(e) = destroy(store, handle) {
            return (login_response(Err(e)), None);
        }
    }
    match establish(store, user_id) {
        Ok(handle) => (login_response(Ok(())), Some(handle)),
        Err(e) => (login_response(Err(e)), None),
    }
}

} // verus!
