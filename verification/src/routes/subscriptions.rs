//! Subscribing: validating the form, the token, the confirmation email.

use vstd::prelude::*;
use vstd::string::StringExecFns;
use vstd::utf8::encode_utf8;
use crate::domain::invalid_email_suffix;
use crate::domain::invalid_name_suffix;
use crate::domain::is_valid_email;
use crate::domain::is_valid_name;
use crate::domain::NewSubscriber;
use crate::domain::SubscriberEmail;
use crate::domain::SubscriberName;
use crate::http::Response;
use crate::random::is_token;
use crate::random::random_token;

verus! {

/// How long a subscription token is.
pub const TOKEN_LENGTH: usize = 25;

/// The subscription form as it is posted.
pub struct FormData {
    pub email: String,
    pub name: String,
}

/// The datastore's failure to store a subscription token; the text is its
/// own account.
pub struct StoreTokenError(pub String);

/// Why a subscription was not created.
pub enum SubscribeError {
    /// The form does not hold a valid name and address; the text says which.
    ValidationError(String),
    /// The datastore failed; the text is its account.
    DatabaseError(String),
    /// The token could not be stored.
    StoreTokenError(StoreTokenError),
    /// The confirmation email could not be sent; the text is the cause.
    SendEmailError(String),
}

/// The confirmation email for a new subscriber.
pub struct ConfirmationEmail {
    pub recipient: SubscriberEmail,
    pub subject: String,
    pub html_body: String,
    pub text_body: String,
}

/// The status for each kind of error: 400 where the form is at fault, 500
/// otherwise.
pub open spec fn subscribe_status(error: SubscribeError) -> u16 {
    match error {
        SubscribeError::ValidationError(_) => 400,
        _ => 500,
    }
}

/// The link that confirms the subscription with this token.
pub open spec fn confirmation_link_of(base_url: Seq<char>, token: Seq<char>) -> Seq<char> {
    base_url + "/subscriptions/confirm?subscription_token="@ + token
}

/// The plain rendering of the confirmation email.
pub open spec fn plain_body_of(link: Seq<char>) -> Seq<char> {
    "Welcome to our newsletter!\nVisit "@ + link + " to confirm your subscription."@
}

/// The HTML rendering of the confirmation email.
pub open spec fn html_body_of(link: Seq<char>) -> Seq<char> {
    "Welcome to our newsletter!<br />Click <a href=\""@ + link
        + "\">here</a> to confirm your subscription."@
}

/// What parsing the form owes: the name is looked at first, the address
/// after it, and the first that fails gives the message.
pub open spec fn parsed_as(form: FormData, r: Result<NewSubscriber, String>) -> bool {
    if !is_valid_name(form.name@, encode_utf8(form.name@)) {
        r matches Err(message) && message@ == form.name@ + invalid_name_suffix()
    } else if !is_valid_email(encode_utf8(form.email@)) {
        r matches Err(message) && message@ == form.email@ + invalid_email_suffix()
    } else {
        r matches Ok(subscriber) && subscriber.name@ == form.name@ && subscriber.email@
            == form.email@
    }
}

impl StoreTokenError {
    /// What the user-facing log line says.
    pub fn message(&self) -> (text: &'static str)
        ensures
            text@
                == "A database error was encontered while trying to store a subscription token."@,
    {
        "A database error was encontered while trying to store a subscription token."
    }
}

impl SubscribeError {
    /// The error for a form that did not pass validation.
    pub fn from_validation(message: String) -> (e: SubscribeError)
        ensures
            e == SubscribeError::ValidationError(message),
    {
        SubscribeError::ValidationError(message)
    }

    /// The error for a failure of the datastore.
    pub fn from_database(detail: String) -> (e: SubscribeError)
        ensures
            e == SubscribeError::DatabaseError(detail),
    {
        SubscribeError::DatabaseError(detail)
    }

    /// The error for a token that could not be stored.
    pub fn from_store_token(error: StoreTokenError) -> (e: SubscribeError)
        ensures
            e == SubscribeError::StoreTokenError(error),
    {
        SubscribeError::StoreTokenError(error)
    }

    /// The error for a confirmation email that could not be sent.
    pub fn from_send_email(cause: String) -> (e: SubscribeError)
        ensures
            e == SubscribeError::SendEmailError(cause),
    {
        SubscribeError::SendEmailError(cause)
    }

    /// The status code.
    pub fn status_code(&self) -> (code: u16)
        ensures
            code == subscribe_status(*self),
    {
        match self {
            SubscribeError::ValidationError(_) => 400,
            SubscribeError::DatabaseError(_)
            | SubscribeError::StoreTokenError(_)
            | SubscribeError::SendEmailError(_) => 500,
        }
    }

    /// The response.
    pub fn error_response(&self) -> (response: Response)
        ensures
            response == match *self {
                SubscribeError::ValidationError(_) => Response::BadRequest,
                _ => Response::InternalServerError,
            },
            crate::http::status_of(response) == subscribe_status(*self),
    {
        match self {
            SubscribeError::ValidationError(_) => Response::BadRequest,
            _ => Response::InternalServerError,
        }
    }

    /// What the caller is told, whatever the kind.
    pub fn message(&self) -> (text: &'static str)
        ensures
            text@ == "Failed to create a new subscriber."@,
    {
        "Failed to create a new subscriber."
    }
}

/// A random subscription token: 25 letters and digits, case-sensitive.
pub fn generate_subscription_token() -> (token: String)
    ensures
        is_token(token@, TOKEN_LENGTH as nat),
{
    random_token(TOKEN_LENGTH)
}

/// Validates the form: first the name, then the address.
pub fn parse_subscriber(form: FormData) -> (r: Result<NewSubscriber, String>)
    ensures
        parsed_as(form, r),
{
    let name = match SubscriberName::parse(form.name) {
        Ok(name) => name,
        Err(message) => { return Err(message); },
    };
    let email = match SubscriberEmail::parse(form.email) {
        Ok(email) => email,
        Err(message) => { return Err(message); },
    };
    Ok(NewSubscriber { email, name })
}

/// The link that a new subscriber follows to confirm.
pub fn confirmation_link(base_url: &str, subscription_token: &str) -> (link: String)
    ensures
        link@ == confirmation_link_of(base_url@, subscription_token@),
{
    let mut link = String::from_str(base_url);
    link.append("/subscriptions/confirm?subscription_token=");
    link.append(subscription_token);
    link
}

/// The confirmation email for `new_subscriber`: to their address, with the
/// link in both renderings.
pub fn confirmation_email(new_subscriber: NewSubscriber, base_url: &str, subscription_token: &str) -> (email:
    ConfirmationEmail)
    ensures
        email.recipient@ == new_subscriber.email@,
        email.subject@ == "Welcome!"@,
        email.html_body@ == html_body_of(confirmation_link_of(base_url@, subscription_token@)),
        email.text_body@ == plain_body_of(confirmation_link_of(base_url@, subscription_token@)),
{
    let link = confirmation_link(base_url, subscription_token);
    let mut text_body = String::from_str("Welcome to our newsletter!\nVisit ");
    text_body.append(link.as_str());
    text_body.append(" to confirm your subscription.");
    let mut html_body = String::from_str("Welcome to our newsletter!<br />Click <a href=\"");
    html_body.append(link.as_str());
    html_body.append("\">here</a> to confirm your subscription.");
    ConfirmationEmail {
        recipient: new_subscriber.email,
        subject: String::from_str("Welcome!"),
        html_body,
        text_body,
    }
}

} // verus!
