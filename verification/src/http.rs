//! Responses as plain values: the status, where to go next, what to show.

use vstd::prelude::*;

verus! {

/// Where a redirect sends the browser.
#[derive(Debug, Clone, Copy, PartialEq, Eq, Structural)]
pub enum Location {
    /// `/`
    Home,
    /// `/login`, the entry point.
    Login,
    /// `/admin/dashboard`
    Dashboard,
    /// `/admin/password`
    ChangePassword,
}

/// A one-time message for the next page.
#[derive(Debug, Clone, Copy, PartialEq, Eq, Structural)]
pub enum Flash {
    /// The credentials were turned down.
    AuthenticationFailed,
    /// The session was ended on request.
    LoggedOut,
    /// Something on the server's side kept the request from being handled.
    SomethingWentWrong,
}

/// What goes back to the caller.
#[derive(Debug, Clone, Copy, PartialEq, Eq, Structural)]
pub enum Response {
    /// 200.
    Success,
    /// 303 to `location`, with an optional message for the next page.
    SeeOther(Location, Option<Flash>),
    /// 400.
    BadRequest,
    /// 401 with a `WWW-Authenticate` challenge for the `Basic` scheme.
    Unauthorized,
    /// 500.
    InternalServerError,
}

/// The status code that a response carries.
pub open spec fn status_of(response: Response) -> u16 {
    match response {
        Response::Success => 200,
        Response::SeeOther(_, _) => 303,
        Response::BadRequest => 400,
        Response::Unauthorized => 401,
        Response::InternalServerError => 500,
    }
}

impl Location {
    /// The path of this location.
    pub fn path(&self) -> (path: &'static str)
        ensures
            path@ == match *self {
                Location::Home => "/"@,
                Location::Login => "/login"@,
                Location::Dashboard => "/admin/dashboard"@,
                Location::ChangePassword => "/admin/password"@,
            },
    {
        match self {
            Location::Home => "/",
            Location::Login => "/login",
            Location::Dashboard => "/admin/dashboard",
            Location::ChangePassword => "/admin/password",
        }
    }
}

impl Flash {
    /// The text shown to the user.
    pub fn text(&self) -> (text: &'static str)
        ensures
            text@ == match *self {
                Flash::AuthenticationFailed => "Authentication failed."@,
                Flash::LoggedOut => "You have successfully logged out."@,
                Flash::SomethingWentWrong => "Something went wrong."@,
            },
    {
        match self {
            Flash::AuthenticationFailed => "Authentication failed.",
            Flash::LoggedOut => "You have successfully logged out.",
            Flash::SomethingWentWrong => "Something went wrong.",
        }
    }
}

impl Response {
    /// The status code.
    pub fn status_code(&self) -> (code: u16)
        ensures
            code == status_of(*self),
    {
        match self {
            Response::Success => 200,
            Response::SeeOther(_, _) => 303,
            Response::BadRequest => 400,
            Response::Unauthorized => 401,
            Response::InternalServerError => 500,
        }
    }

    /// The value of the `Location` header: a redirect has one, nothing else
    /// has.
    pub fn location(&self) -> (location: Option<Location>)
        ensures
            location == match *self {
                Response::SeeOther(to, _) => Some(to),
                _ => None::<Location>,
            },
    {
        match self {
            Response::SeeOther(to, _) => Some(*to),
            _ => None,
        }
    }

    /// The value of the `WWW-Authenticate` header: a 401 has one, nothing
    /// else has.
    pub fn www_authenticate(&self) -> (challenge: Option<&'static str>)
        ensures
            match *self {
                Response::Unauthorized => challenge matches Some(c) && c@
                    == "Basic realm=\"publish\""@,
                _ => challenge is None,
            },
    {
        match self {
            Response::Unauthorized => Some("Basic realm=\"publish\""),
            _ => None,
        }
    }
}

/// A 303 to `location` without a message.
pub fn see_other(location: Location) -> (response: Response)
    ensures
        response == Response::SeeOther(location, None),
{
    Response::SeeOther(location, None)
}

} // verus!
