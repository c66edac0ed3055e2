//! The route table: which handler answers which request, and which
//! handlers stand behind the session guard.

use vstd::prelude::*;
use crate::authentication::middleware::guard_decision;
use crate::authentication::middleware::reject_anonymous_users;
use crate::authentication::middleware::GuardDecision;
use crate::authentication::middleware::UserId;
use crate::http::Response;
use crate::session_state::SessionError;
use crate::text::str_eq;

verus! {

/// The address under which the application is reached from outside; the
/// links in its emails start with it.
pub struct ApplicationBaseUrl(pub String);

/// The request methods that the table knows.
#[derive(Debug, Clone, Copy, PartialEq, Eq, Structural)]
pub enum Method {
    Get,
    Post,
}

/// The handlers of the application.
#[derive(Debug, Clone, Copy, PartialEq, Eq, Structural)]
pub enum Handler {
    HealthCheck,
    Home,
    LoginForm,
    Login,
    Subscribe,
    Confirm,
    PublishNewsletter,
    AdminDashboard,
    ChangePasswordForm,
    ChangePassword,
    LogOut,
}

/// How a handler learns who is calling.
#[derive(Debug, Clone, Copy, PartialEq, Eq, Structural)]
pub enum AuthMode {
    /// It does not ask.
    Open,
    /// From the credentials in the `Authorization` header.
    Basic,
    /// From the session; it runs only behind the guard.
    Session,
}

/// What is done with a request.
#[derive(Debug, Clone, Copy)]
pub enum Dispatching {
    /// This handler runs; a privileged one runs for this user.
    Invoke(Handler, Option<UserId>),
    /// No handler runs; the caller gets this response.
    Respond(Response),
}

/// The table itself.
pub open spec fn route_of(method: Method, path: Seq<char>) -> Option<Handler> {
    match method {
        Method::Get => if path == "/health_check"@ {
            Some(Handler::HealthCheck)
        } else if path == "/"@ {
            Some(Handler::Home)
        } else if path == "/login"@ {
            Some(Handler::LoginForm)
        } else if path == "/subscriptions/confirm"@ {
            Some(Handler::Confirm)
        } else if path == "/admin/dashboard"@ {
            Some(Handler::AdminDashboard)
        } else if path == "/admin/password"@ {
            Some(Handler::ChangePasswordForm)
        } else {
            None
        },
        Method::Post => if path == "/login"@ {
            Some(Handler::Login)
        } else if path == "/subscriptions"@ {
            Some(Handler::Subscribe)
        } else if path == "/newsletter"@ {
            Some(Handler::PublishNewsletter)
        } else if path == "/admin/password"@ {
            Some(Handler::ChangePassword)
        } else if path == "/admin/logout"@ {
            Some(Handler::LogOut)
        } else {
            None
        },
    }
}

/// How each handler learns who is calling.
pub open spec fn auth_mode_of(handler: Handler) -> AuthMode {
    match handler {
        Handler::AdminDashboard
        | Handler::ChangePasswordForm
        | Handler::ChangePassword
        | Handler::LogOut => AuthMode::Session,
        Handler::PublishNewsletter => AuthMode::Basic,
        _ => AuthMode::Open,
    }
}

/// What is done with a request for `handler`, given what the session guard
/// said of the request: a privileged handler runs only where the guard lets
/// the request pass; every other handler runs as it is.
pub open spec fn admission(handler: Handler, current: Result<Option<uuid::Uuid>, SessionError>) -> Dispatching {
    if auth_mode_of(handler) == AuthMode::Session {
        match guard_decision(current) {
            GuardDecision::Proceed(user) => Dispatching::Invoke(handler, Some(user)),
            GuardDecision::Reject(response) => Dispatching::Respond(response),
        }
    } else {
        Dispatching::Invoke(handler, None)
    }
}

/// No privileged handler is ever invoked for a request without a session,
/// whatever the request and wherever in the table its route stands.
pub proof fn lemma_privileged_handlers_need_a_session(
    handler: Handler,
    current: Result<Option<uuid::Uuid>, SessionError>,
)
    requires
        auth_mode_of(handler) == AuthMode::Session,
    ensures
        admission(handler, current) is Invoke <==> current matches Ok(Some(_)),
        current matches Ok(Some(user_id)) ==> admission(handler, current) == Dispatching::Invoke(
            handler,
            Some(UserId(user_id)),
        ),
{
}

/// The handler for a request, if the table has one.
pub fn route(method: Method, path: &str) -> (handler: Option<Handler>)
    ensures
        handler == route_of(method, path@),
{
    match method {
        Method::Get => if str_eq(path, "/health_check") {
            Some(Handler::HealthCheck)
        } else if str_eq(path, "/") {
            Some(Handler::Home)
        } else if str_eq(path, "/login") {
            Some(Handler::LoginForm)
        } else if str_eq(path, "/subscriptions/confirm") {
            Some(Handler::Confirm)
        } else if str_eq(path, "/admin/dashboard") {
            Some(Handler::AdminDashboard)
        } else if str_eq(path, "/admin/password") {
            Some(Handler::ChangePasswordForm)
        } else {
            None
        },
        Method::Post => if str_eq(path, "/login") {
            Some(Handler::Login)
        } else if str_eq(path, "/subscriptions") {
            Some(Handler::Subscribe)
        } else if str_eq(path, "/newsletter") {
            Some(Handler::PublishNewsletter)
        } else if str_eq(path, "/admin/password") {
            Some(Handler::ChangePassword)
        } else if str_eq(path, "/admin/logout") {
            Some(Handler::LogOut)
        } else {
            None
        },
    }
}

/// How `handler` learns who is calling.
pub fn auth_mode(handler: Handler) -> (mode: AuthMode)
    ensures
        mode == auth_mode_of(handler),
{
    match handler {
        Handler::AdminDashboard
        | Handler::ChangePasswordForm
        | Handler::ChangePassword
        | Handler::LogOut => AuthMode::Session,
        Handler::PublishNewsletter => AuthMode::Basic,
        _ => AuthMode::Open,
    }
}

/// Decides what is done with a request for `handler`. The guard stands in
/// front of each privileged handler itself, so that no order of routes
/// leads around it.
pub fn guard_route(handler: Handler, current: Result<Option<uuid::Uuid>, SessionError>) -> (dispatching:
    Dispatching)
    ensures
        dispatching == admission(handler, current),
{
    match auth_mode(handler) {
        AuthMode::Session => match reject_anonymous_users(current) {
            GuardDecision::Proceed(user) => Dispatching::Invoke(handler, Some(user)),
            GuardDecision::Reject(response) => Dispatching::Respond(response),
        },
        _ => Dispatching::Invoke(handler, None),
    }
}

} // verus!
