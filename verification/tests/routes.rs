use uuid::Uuid;
use zero2prod::authentication::middleware::UserId;
use zero2prod::authentication::password::AuthError;
use zero2prod::authentication::password::Fault;
use zero2prod::authentication::password::Rejection;
use zero2prod::http::see_other;
use zero2prod::http::Flash;
use zero2prod::http::Location;
use zero2prod::http::Response;
use zero2prod::routes::admin::dashboard::admin_dashboard;
use zero2prod::routes::admin::logout::log_out;
use zero2prod::routes::health_check::health_check;
use zero2prod::routes::home::home;
use zero2prod::routes::login::login;
use zero2prod::routes::login::login_form;
use zero2prod::routes::subscriptions_confirm::confirm;
use zero2prod::routes::subscriptions_confirm::Parameters;
use zero2prod::session_state::current_user;
use zero2prod::session_state::establish;
use zero2prod::session_state::SessionError;
use zero2prod::session_state::SessionHandle;
use zero2prod::session_state::SessionStore;
use zero2prod::startup::auth_mode;
use zero2prod::startup::guard_route;
use zero2prod::startup::route;
use zero2prod::startup::ApplicationBaseUrl;
use zero2prod::startup::AuthMode;
use zero2prod::startup::Dispatching;
use zero2prod::startup::Handler;
use zero2prod::startup::Method;

const PRIVILEGED: [Handler; 4] =
    [Handler::AdminDashboard, Handler::ChangePasswordForm, Handler::ChangePassword, Handler::LogOut];

#[test]
fn table_maps_method_and_path_to_handler() {
    assert_eq!(route(Method::Get, "/health_check"), Some(Handler::HealthCheck));
    assert_eq!(route(Method::Get, "/"), Some(Handler::Home));
    assert_eq!(route(Method::Get, "/login"), Some(Handler::LoginForm));
    assert_eq!(route(Method::Post, "/login"), Some(Handler::Login));
    assert_eq!(route(Method::Post, "/subscriptions"), Some(Handler::Subscribe));
    assert_eq!(route(Method::Get, "/subscriptions/confirm"), Some(Handler::Confirm));
    assert_eq!(route(Method::Post, "/newsletter"), Some(Handler::PublishNewsletter));
    assert_eq!(route(Method::Get, "/admin/dashboard"), Some(Handler::AdminDashboard));
    assert_eq!(route(Method::Get, "/admin/password"), Some(Handler::ChangePasswordForm));
    assert_eq!(route(Method::Post, "/admin/password"), Some(Handler::ChangePassword));
    assert_eq!(route(Method::Post, "/admin/logout"), Some(Handler::LogOut));
}

#[test]
fn table_knows_no_other_request() {
    assert_eq!(route(Method::Post, "/"), None);
    assert_eq!(route(Method::Get, "/newsletter"), None);
    assert_eq!(route(Method::Get, "/admin/logout"), None);
    assert_eq!(route(Method::Post, "/admin/dashboard"), None);
    assert_eq!(route(Method::Get, "/admin"), None);
    assert_eq!(route(Method::Get, "/admin/dashboard/"), None);
    assert_eq!(route(Method::Get, "/Login"), None);
    assert_eq!(route(Method::Get, ""), None);
}

#[test]
fn privileged_handlers_are_exactly_those_under_admin() {
    for handler in PRIVILEGED {
        assert_eq!(auth_mode(handler), AuthMode::Session);
    }
    assert_eq!(auth_mode(Handler::PublishNewsletter), AuthMode::Basic);
    for handler in [
        Handler::HealthCheck,
        Handler::Home,
        Handler::LoginForm,
        Handler::Login,
        Handler::Subscribe,
        Handler::Confirm,
    ] {
        assert_eq!(auth_mode(handler), AuthMode::Open);
    }
}

#[test]
fn privileged_handler_is_never_invoked_without_a_session() {
    for handler in PRIVILEGED {
        match guard_route(handler, Ok(None)) {
            Dispatching::Respond(response) => {
                assert_eq!(response, Response::SeeOther(Location::Login, None));
                assert_eq!(response.status_code(), 303);
            }
            Dispatching::Invoke(_, _) => panic!("a privileged handler ran without a session"),
        }
        match guard_route(handler, Err(SessionError::StoreUnavailable)) {
            Dispatching::Respond(response) => assert_eq!(response, Response::InternalServerError),
            Dispatching::Invoke(_, _) => panic!("a privileged handler ran without a session"),
        }
    }
}

#[test]
fn privileged_handler_runs_for_the_session_user() {
    let user = Uuid::from_u128(4);
    for handler in PRIVILEGED {
        match guard_route(handler, Ok(Some(user))) {
            Dispatching::Invoke(invoked, Some(UserId(id))) => {
                assert_eq!(invoked, handler);
                assert_eq!(id, user);
            }
            _ => panic!("a request with a session must reach its handler"),
        }
    }
}

#[test]
fn open_handlers_run_whatever_the_session() {
    for current in [Ok(None), Ok(Some(Uuid::from_u128(4))), Err(SessionError::StoreUnavailable)] {
        match guard_route(Handler::Login, current) {
            Dispatching::Invoke(Handler::Login, None) => {}
            _ => panic!("an open handler must run"),
        }
        match guard_route(Handler::PublishNewsletter, current) {
            Dispatching::Invoke(Handler::PublishNewsletter, None) => {}
            _ => panic!("the publish handler authenticates by itself"),
        }
    }
}

#[test]
fn login_then_dashboard_then_logout() {
    let mut store = SessionStore::new();
    let user = Uuid::from_u128(21);
    let (response, session) = login(&mut store, None, Ok(user));
    assert_eq!(response.status_code(), 303);
    assert_eq!(response.location().unwrap().path(), "/admin/dashboard");
    let handle = session.unwrap();

    let handler = route(Method::Get, "/admin/dashboard").unwrap();
    match guard_route(handler, current_user(&store, &handle)) {
        Dispatching::Invoke(Handler::AdminDashboard, Some(id)) => {
            assert_eq!(id.0, user);
            assert_eq!(admin_dashboard(id).status_code(), 200);
        }
        _ => panic!("the dashboard must open after login"),
    }

    let stranger = SessionHandle { text: "no-such-cookie".to_string() };
    match guard_route(handler, current_user(&store, &stranger)) {
        Dispatching::Respond(response) => {
            assert_eq!(response.status_code(), 303);
            assert_eq!(response.location().unwrap().path(), "/login");
        }
        _ => panic!("the dashboard must stay shut without a session"),
    }

    let response = log_out(&mut store, &handle);
    assert_eq!(response, Response::SeeOther(Location::Login, Some(Flash::LoggedOut)));
    assert_eq!(current_user(&store, &handle), Ok(None));
    assert!(matches!(guard_route(handler, current_user(&store, &handle)), Dispatching::Respond(_)));
}

#[test]
fn login_gives_up_the_session_that_was_brought_along() {
    let mut store = SessionStore::new();
    let (_, first) = login(&mut store, None, Ok(Uuid::from_u128(1)));
    let first = first.unwrap();
    let (response, second) = login(&mut store, Some(&first), Ok(Uuid::from_u128(2)));
    let second = second.unwrap();
    assert_eq!(response.status_code(), 303);
    assert_ne!(first.text, second.text);
    assert_eq!(current_user(&store, &first), Ok(None));
    assert_eq!(current_user(&store, &second), Ok(Some(Uuid::from_u128(2))));
    assert_eq!(store.records.len(), 1);
}

#[test]
fn failed_login_keeps_the_session_that_was_brought_along() {
    let mut store = SessionStore::new();
    let (_, first) = login(&mut store, None, Ok(Uuid::from_u128(1)));
    let first = first.unwrap();
    let (_, none) = login(&mut store, Some(&first), Err(AuthError::InvalidCredentials(Rejection::WrongPassword)));
    assert!(none.is_none());
    assert_eq!(current_user(&store, &first), Ok(Some(Uuid::from_u128(1))));
}

#[test]
fn login_with_bad_credentials_leads_back_with_a_message() {
    let mut store = SessionStore::new();
    for rejection in [Rejection::WrongPassword, Rejection::UnknownUsername] {
        let (response, session) = login(&mut store, None, Err(AuthError::InvalidCredentials(rejection)));
        assert_eq!(response, Response::SeeOther(Location::Login, Some(Flash::AuthenticationFailed)));
        assert_eq!(response.status_code(), 303);
        assert!(session.is_none());
    }
    assert!(store.records.is_empty());
}

#[test]
fn login_that_cannot_be_decided_is_a_500() {
    let mut store = SessionStore::new();
    let (response, session) = login(&mut store, None, Err(AuthError::UnexpectedError(Fault::MalformedHashRecord)));
    assert_eq!(response, Response::InternalServerError);
    assert!(session.is_none());
    store.set_online(false);
    let (response, session) = login(&mut store, None, Ok(Uuid::from_u128(1)));
    assert_eq!(response, Response::InternalServerError);
    assert!(session.is_none());
    assert!(store.records.is_empty());
}

#[test]
fn logout_without_a_session_changes_nothing() {
    let mut store = SessionStore::new();
    let other = establish(&mut store, Uuid::from_u128(2)).unwrap();
    let response = log_out(&mut store, &SessionHandle { text: "unknown".to_string() });
    assert_eq!(response, Response::SeeOther(Location::Login, None));
    assert_eq!(current_user(&store, &other), Ok(Some(Uuid::from_u128(2))));
    store.set_online(false);
    assert_eq!(log_out(&mut store, &other), Response::InternalServerError);
    store.set_online(true);
    assert_eq!(current_user(&store, &other), Ok(Some(Uuid::from_u128(2))));
}

#[test]
fn fixed_pages_answer_200() {
    assert_eq!(health_check().status_code(), 200);
    assert_eq!(home().status_code(), 200);
    assert_eq!(login_form().status_code(), 200);
    assert_eq!(confirm(&Parameters { subscription_token: "abc".to_string() }).status_code(), 200);
}

#[test]
fn responses_carry_status_location_and_challenge() {
    assert_eq!(Response::Success.status_code(), 200);
    assert_eq!(Response::BadRequest.status_code(), 400);
    assert_eq!(Response::Unauthorized.status_code(), 401);
    assert_eq!(Response::InternalServerError.status_code(), 500);
    assert_eq!(see_other(Location::Home), Response::SeeOther(Location::Home, None));
    assert_eq!(see_other(Location::Home).status_code(), 303);
    assert_eq!(Response::Success.location(), None);
    assert_eq!(Response::Success.www_authenticate(), None);
    assert_eq!(Location::Home.path(), "/");
    assert_eq!(Location::Login.path(), "/login");
    assert_eq!(Location::Dashboard.path(), "/admin/dashboard");
    assert_eq!(Location::ChangePassword.path(), "/admin/password");
    assert_eq!(Flash::AuthenticationFailed.text(), "Authentication failed.");
    assert_eq!(Flash::LoggedOut.text(), "You have successfully logged out.");
    assert_eq!(Flash::SomethingWentWrong.text(), "Something went wrong.");
}

#[test]
fn base_url_is_a_plain_wrapper() {
    let base = ApplicationBaseUrl("http://127.0.0.1".to_string());
    assert_eq!(base.0, "http://127.0.0.1");
}
