//! The guard in front of the privileged routes: a request passes only with
//! a session, and then carries the session's user.

use vstd::prelude::*;
use crate::http::Location;
use crate::http::Response;
use crate::session_state::SessionError;

verus! {

/// The user on whose behalf a privileged handler runs.
#[derive(Debug, Clone, Copy)]
pub struct UserId(pub uuid::Uuid);

/// The two states of a request at the guard.
#[derive(Debug, Clone, Copy)]
pub enum AuthState {
    /// The request has no session.
    Unauthenticated,
    /// The request belongs to this user's session.
    Authenticated(uuid::Uuid),
}

/// What the guard does with a request.
#[derive(Debug, Clone, Copy)]
pub enum GuardDecision {
    /// The wrapped handler runs, with this user in the request's context.
    Proceed(UserId),
    /// The wrapped handler does not run; the caller gets this response.
    Reject(Response),
}

/// The state that the session guard's answer puts a request in.
pub open spec fn auth_state_of(current: Option<uuid::Uuid>) -> AuthState {
    match current {
        Some(user_id) => AuthState::Authenticated(user_id),
        None => AuthState::Unauthenticated,
    }
}

/// What the guard decides, given what the session guard said of the request:
/// with a session the handler runs for its user; without one the caller is
/// sent to the entry point; and where the store could not be asked the
/// caller gets a 500, not the benefit of the doubt.
pub open spec fn guard_decision(current: Result<Option<uuid::Uuid>, SessionError>) -> GuardDecision {
    match current {
        Ok(session) => match auth_state_of(session) {
            AuthState::Authenticated(user_id) => GuardDecision::Proceed(UserId(user_id)),
            AuthState::Unauthenticated => GuardDecision::Reject(
                Response::SeeOther(Location::Login, None),
            ),
        },
        Err(_) => GuardDecision::Reject(Response::InternalServerError),
    }
}

/// The wrapped handler runs only for a request with a session, and then for
/// that session's user.
pub proof fn lemma_handler_runs_only_with_session(current: Result<Option<uuid::Uuid>, SessionError>)
    ensures
        guard_decision(current) is Proceed <==> current matches Ok(Some(_)),
        current matches Ok(Some(user_id)) ==> guard_decision(current) == GuardDecision::Proceed(
            UserId(user_id),
        ),
        current == Ok::<Option<uuid::Uuid>, SessionError>(None) ==> guard_decision(current)
            == GuardDecision::Reject(Response::SeeOther(Location::Login, None)),
{
}

/// The state of a request, from the session guard's answer.
pub fn auth_state(current: Option<uuid::Uuid>) -> (state: AuthState)
    ensures
        state == auth_state_of(current),
{
    match current {
        Some(user_id) => AuthState::Authenticated(user_id),
        None => AuthState::Unauthenticated,
    }
}

/// Runs before every privileged handler, on what the session guard said of
/// the request.
pub fn reject_anonymous_users(current: Result<Option<uuid::Uuid>, SessionError>) -> (decision:
    GuardDecision)
    ensures
        decision == guard_decision(current),
{
    match current {
        Ok(session) => match auth_state(session) {
            AuthState::Authenticated(user_id) => GuardDecision::Proceed(UserId(user_id)),
            AuthState::Unauthenticated => GuardDecision::Reject(
                crate::http::see_other(Location::Login),
            ),
        },
        Err(_) => GuardDecision::Reject(Response::InternalServerError),
    }
}

} // verus!
