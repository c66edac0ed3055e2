use zero2prod::domain::SubscriberEmail;
use zero2prod::domain::SubscriberName;
use zero2prod::http::Response;
use zero2prod::random::random_token;
use zero2prod::routes::subscriptions::confirmation_email;
use zero2prod::routes::subscriptions::confirmation_link;
use zero2prod::routes::subscriptions::generate_subscription_token;
use zero2prod::routes::subscriptions::parse_subscriber;
use zero2prod::routes::subscriptions::FormData;
use zero2prod::routes::subscriptions::StoreTokenError;
use zero2prod::routes::subscriptions::SubscribeError;
use zero2prod::routes::subscriptions::TOKEN_LENGTH;

fn form(name: &str, email: &str) -> FormData {
    FormData { email: email.to_string(), name: name.to_string() }
}

#[test]
fn valid_form_is_parsed() {
    let subscriber = parse_subscriber(form("Ursula Le Guin", "ursula_le_guin@gmail.com")).unwrap();
    assert_eq!(subscriber.name.as_str(), "Ursula Le Guin");
    assert_eq!(subscriber.email.as_str(), "ursula_le_guin@gmail.com");
}

#[test]
fn name_is_looked_at_before_the_address() {
    let error = parse_subscriber(form("", "not-an-address")).err().unwrap();
    assert_eq!(error, " is not a valid subscriber name.");
    let error = parse_subscriber(form("Ursula", "not-an-address")).err().unwrap();
    assert_eq!(error, "not-an-address is not a valid subscriber email.");
}

#[test]
fn addresses_that_pass() {
    for address in ["a@b", "ursula_le_guin@gmail.com", "first.last+tag@sub.example.org", "zoë@exämple.de"] {
        assert_eq!(SubscriberEmail::parse(address.to_string()).unwrap().as_str(), address);
    }
}

#[test]
fn addresses_that_are_refused() {
    for address in ["", "ursuladomain.com", "@domain.com", "ursula@", "a@b@c", "a@@b", "a b@c.d", "a@b\n", "\ta@b", "a@b\u{7f}"] {
        let error = SubscriberEmail::parse(address.to_string()).err().unwrap();
        assert_eq!(error, format!("{} is not a valid subscriber email.", address));
    }
}

#[test]
fn names_that_pass() {
    let longest = "a".repeat(256);
    let longest_beyond_ascii = "ё".repeat(256);
    for name in ["Ursula Le Guin", "x", " x ", longest.as_str(), longest_beyond_ascii.as_str()] {
        assert_eq!(SubscriberName::parse(name.to_string()).unwrap().as_str(), name);
    }
}

#[test]
fn names_that_are_refused() {
    let too_long = "a".repeat(257);
    for name in ["", " ", " \t\n", too_long.as_str(), "a/b", "a(b", "a)b", "a\"b", "a<b", "a>b", "a\\b", "a{b", "a}b"] {
        let error = SubscriberName::parse(name.to_string()).err().unwrap();
        assert_eq!(error, format!("{} is not a valid subscriber name.", name));
    }
}

#[test]
fn token_is_twenty_five_letters_and_digits() {
    assert_eq!(TOKEN_LENGTH, 25);
    for _ in 0..20 {
        let token = generate_subscription_token();
        assert_eq!(token.len(), 25);
        assert!(token.bytes().all(|b| b.is_ascii_alphanumeric()));
    }
}

#[test]
fn tokens_differ_from_call_to_call() {
    assert_ne!(generate_subscription_token(), generate_subscription_token());
}

#[test]
fn random_token_has_the_length_asked_for() {
    assert_eq!(random_token(0), "");
    assert_eq!(random_token(1).len(), 1);
    let long = random_token(300);
    assert_eq!(long.len(), 300);
    assert!(long.bytes().all(|b| b.is_ascii_alphanumeric()));
}

#[test]
fn link_is_base_url_path_and_token() {
    assert_eq!(
        confirmation_link("http://127.0.0.1:8000", "abcDEF123"),
        "http://127.0.0.1:8000/subscriptions/confirm?subscription_token=abcDEF123"
    );
    assert_eq!(confirmation_link("", ""), "/subscriptions/confirm?subscription_token=");
}

#[test]
fn confirmation_email_carries_the_link_in_both_renderings() {
    let subscriber = parse_subscriber(form("Ursula", "ursula@example.com")).unwrap();
    let email = confirmation_email(subscriber, "https://news.example.com", "tok123");
    assert_eq!(email.recipient.as_str(), "ursula@example.com");
    assert_eq!(email.subject, "Welcome!");
    assert_eq!(
        email.text_body,
        "Welcome to our newsletter!\nVisit https://news.example.com/subscriptions/confirm?subscription_token=tok123 to confirm your subscription."
    );
    assert_eq!(
        email.html_body,
        "Welcome to our newsletter!<br />Click <a href=\"https://news.example.com/subscriptions/confirm?subscription_token=tok123\">here</a> to confirm your subscription."
    );
}

#[test]
fn validation_is_the_callers_fault_all_else_the_servers() {
    let validation = SubscribeError::from_validation("x is not a valid subscriber name.".to_string());
    assert_eq!(validation.status_code(), 400);
    assert_eq!(validation.error_response(), Response::BadRequest);
    let database = SubscribeError::from_database("deadlock".to_string());
    assert_eq!(database.status_code(), 500);
    assert_eq!(database.error_response(), Response::InternalServerError);
    let token = SubscribeError::from_store_token(StoreTokenError("duplicate key".to_string()));
    assert_eq!(token.status_code(), 500);
    let email = SubscribeError::from_send_email("timeout".to_string());
    assert_eq!(email.status_code(), 500);
    assert_eq!(email.error_response(), Response::InternalServerError);
}

#[test]
fn errors_keep_their_causes_and_say_little_to_the_caller() {
    match SubscribeError::from_database("deadlock".to_string()) {
        SubscribeError::DatabaseError(detail) => assert_eq!(detail, "deadlock"),
        _ => panic!("a database failure must stay one"),
    }
    match SubscribeError::from_store_token(StoreTokenError("duplicate key".to_string())) {
        SubscribeError::StoreTokenError(inner) => {
            assert_eq!(inner.0, "duplicate key");
            assert_eq!(
                inner.message(),
                "A database error was encontered while trying to store a subscription token."
            );
        }
        _ => panic!("a token failure must stay one"),
    }
    match SubscribeError::from_send_email("timeout".to_string()) {
        SubscribeError::SendEmailError(cause) => assert_eq!(cause, "timeout"),
        _ => panic!("a send failure must stay one"),
    }
    let validation = SubscribeError::from_validation("bad".to_string());
    assert_eq!(validation.message(), "Failed to create a new subscriber.");
    assert!(matches!(validation, SubscribeError::ValidationError(text) if text == "bad"));
}
