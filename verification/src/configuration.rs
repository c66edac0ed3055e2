//! Settings as plain values, and the rules that turn what the environment
//! offers into them.

use vstd::prelude::*;
use vstd::string::StringExecFns;
use substring::Substring;
use crate::domain::is_valid_email;
use crate::domain::invalid_email_suffix;
use crate::domain::SubscriberEmail;
use crate::secret::Secret;
use crate::text::ascii_text;
use crate::text::lemma_ascii_bytes_are_text;
use crate::text::str_eq;
use crate::text::string_from_utf8;

verus! {

/// All settings of the application.
pub struct Settings {
    pub database: DatabaseSettings,
    pub application: ApplicationSettings,
    pub email_client: EmailClientSettings,
    pub redis_uri: Secret,
}

/// How the email service is reached.
pub struct EmailClientSettings {
    pub timeout_milliseconds: u64,
    pub base_url: String,
    pub sender_email: String,
    pub authorization_token: Secret,
}

/// Where the application listens and how it is reached from outside.
pub struct ApplicationSettings {
    pub port: u16,
    pub host: String,
    pub base_url: String,
}

/// How the database is reached.
pub struct DatabaseSettings {
    pub username: String,
    pub password: Secret,
    pub port: u16,
    pub host: String,
    pub database_name: String,
    /// Whether the connection has to be encrypted.
    pub require_ssl: bool,
}

/// How far encryption of the database connection is insisted on.
#[derive(Debug, Clone, Copy, PartialEq, Eq, Structural)]
pub enum SslMode {
    /// Only an encrypted connection will do.
    Require,
    /// An encrypted connection is tried first, an unencrypted one after it.
    Prefer,
}

/// What it takes to connect to the database server, and to one database on
/// it where `database` names one.
pub struct ConnectOptions {
    pub host: String,
    pub username: String,
    pub password: Secret,
    pub port: u16,
    pub ssl_mode: SslMode,
    pub database: Option<String>,
    /// Whether each statement is logged, at the finest level.
    pub log_statements: bool,
}

/// The runtime environment of the application.
#[derive(Debug, Clone, Copy, PartialEq, Eq, Structural)]
pub enum Environment {
    Local,
    Production,
}

/// The parts of a database URL that the settings are made of.
pub struct DatabaseUrl {
    pub port: Option<u16>,
    pub host: Option<String>,
    pub username: String,
    pub password: Option<String>,
    pub path: String,
}

/// What a database URL lacks.
#[derive(Debug, Clone, Copy, PartialEq, Eq, Structural)]
pub enum DatabaseUrlError {
    /// The text is no URL.
    NotAUrl,
    /// The URL names no port.
    MissingPort,
    /// The URL names no host.
    MissingHost,
    /// The URL holds no password.
    MissingPassword,
}

/// One variable of the environment and the value to give it.
pub struct Assignment {
    pub variable: String,
    pub value: String,
}

/// The lower-case form of a text, as Unicode defines it.
pub uninterp spec fn unicode_lowercase(text: Seq<char>) -> Seq<char>;

/// The whole milliseconds that a duration lasts.
pub uninterp spec fn duration_millis(duration: std::time::Duration) -> nat;

/// The parts of the URL that `text` is: port, host, username, password and
/// path, in this order; `None` where `text` is no URL.
pub uninterp spec fn url_components(text: Seq<char>) -> Option<
    (Option<u16>, Option<Seq<char>>, Seq<char>, Option<Seq<char>>, Seq<char>),
>;

/// `str::to_lowercase`: the text in lower case.
#[verifier::external_body]
fn to_lowercase(text: &str) -> (lower: String)
    ensures
        lower@ == unicode_lowercase(text@),
{
    text.to_lowercase()
}

/// `std::time::Duration::from_millis`: a duration of that many
/// milliseconds.
#[verifier::external_body]
fn duration_from_millis(millis: u64) -> (duration: std::time::Duration)
    ensures
        duration_millis(duration) == millis,
{
    std::time::Duration::from_millis(millis)
}

/// `substring::Substring::substring`: the characters from `start` up to
/// `end`, counted in characters; fewer where the text ends before `end`, and
/// none where `end` is not beyond `start`.
#[verifier::external_body]
fn substring(text: &str, start: usize, end: usize) -> (part: String)
    ensures
        part@ == characters_between(text@, start as int, end as int),
{
    text.substring(start, end).to_string()
}

/// `url::Url::parse`, and of the URL that it returns `port`, `host`,
/// `username`, `password` and `path`, each as text.
#[verifier::external_body]
fn parse_database_url(text: &str) -> (parts: Option<DatabaseUrl>)
    ensures
        match parts {
            None => url_components(text@) is None,
            Some(url) => url_components(text@) == Some(url_view(url)),
        },
{
    match url::Url::parse(text) {
        Err(_) => None,
        Ok(url) => Some(
            DatabaseUrl {
                port: url.port(),
                host: url.host().map(|host| host.to_string()),
                username: url.username().to_string(),
                password: url.password().map(|password| password.to_string()),
                path: url.path().to_string(),
            },
        ),
    }
}

/// The characters of `text` from `start` up to `end`, as far as there are
/// any.
pub open spec fn characters_between(text: Seq<char>, start: int, end: int) -> Seq<char> {
    if end <= start || start >= text.len() {
        Seq::empty()
    } else if end >= text.len() {
        text.subrange(start, text.len() as int)
    } else {
        text.subrange(start, end)
    }
}

/// The name of an environment.
pub open spec fn environment_name(environment: Environment) -> Seq<char> {
    match environment {
        Environment::Local => "local"@,
        Environment::Production => "production"@,
    }
}

/// The text after the name that was not understood.
pub open spec fn unsupported_environment_suffix() -> Seq<char> {
    " is not a supported environment. Use either 'local' or 'production'."@
}

/// The decimal digits of `n`, most significant first, as bytes.
pub open spec fn decimal_bytes(n: nat) -> Seq<u8>
    decreases n,
{
    if n < 10 {
        seq![(0x30 + n) as u8]
    } else {
        decimal_bytes(n / 10).push((0x30 + n % 10) as u8)
    }
}

/// The decimal digits of `n` as text.
pub open spec fn decimal_text(n: nat) -> Seq<char> {
    ascii_text(decimal_bytes(n))
}

/// Decimal digits are ASCII.
pub proof fn lemma_decimal_is_ascii(n: nat)
    ensures
        decimal_bytes(n).len() >= 1,
        forall|i: int|
            0 <= i < decimal_bytes(n).len() ==> 0x30 <= (#[trigger] decimal_bytes(n)[i])
                && decimal_bytes(n)[i] <= 0x39,
    decreases n,
{
    if n >= 10 {
        lemma_decimal_is_ascii(n / 10);
    }
}

/// Appends the decimal digits of `n` to `out`.
fn push_decimal(n: u16, out: &mut Vec<u8>)
    ensures
        final(out)@ == old(out)@ + decimal_bytes(n as nat),
    decreases n,
{
    if n < 10 {
        out.push(0x30 + n as u8);
        assert(out@ =~= old(out)@ + decimal_bytes(n as nat));
    } else {
        push_decimal(n / 10, out);
        let digit: u8 = (n % 10) as u8;
        out.push(0x30 + digit);
        assert(out@ =~= old(out)@ + decimal_bytes(n as nat));
    }
}

/// The number in decimal.
pub fn decimal(n: u16) -> (text: String)
    ensures
        text@ == decimal_text(n as nat),
{
    let mut bytes: Vec<u8> = Vec::new();
    push_decimal(n, &mut bytes);
    proof {
        assert(bytes@ =~= decimal_bytes(n as nat));
        lemma_decimal_is_ascii(n as nat);
        lemma_ascii_bytes_are_text(bytes@);
    }
    match string_from_utf8(bytes) {
        Ok(text) => text,
        Err(_) => {
            proof {
                assert(false);
            }
            String::new()
        },
    }
}

impl EmailClientSettings {
    /// The sender's address, if the configured text is an email address.
    pub fn sender(&self) -> (r: Result<SubscriberEmail, String>)
        ensures
            match r {
                Ok(email) => is_valid_email(vstd::utf8::encode_utf8(self.sender_email@)) && email@
                    == self.sender_email@,
                Err(message) => !is_valid_email(vstd::utf8::encode_utf8(self.sender_email@))
                    && message@ == self.sender_email@ + invalid_email_suffix(),
            },
    {
        SubscriberEmail::parse(self.sender_email.clone())
    }

    /// How long a request to the email service may take.
    pub fn timeout(&self) -> (duration: std::time::Duration)
        ensures
            duration_millis(duration) == self.timeout_milliseconds,
    {
        duration_from_millis(self.timeout_milliseconds)
    }
}

impl DatabaseSettings {
    /// How far encryption is insisted on: required where the settings say
    /// so, preferred otherwise.
    pub open spec fn ssl_mode(&self) -> SslMode {
        if self.require_ssl {
            SslMode::Require
        } else {
            SslMode::Prefer
        }
    }

    /// The options for a connection to the server, to no database in
    /// particular.
    pub fn without_db(&self) -> (options: ConnectOptions)
        ensures
            options.host@ == self.host@,
            options.username@ == self.username@,
            options.password@ == self.password@,
            options.port == self.port,
            options.ssl_mode == self.ssl_mode(),
            options.database is None,
            !options.log_statements,
    {
        let ssl_mode = if self.require_ssl {
            SslMode::Require
        } else {
            SslMode::Prefer
        };
        ConnectOptions {
            host: self.host.clone(),
            username: self.username.clone(),
            password: Secret::new(self.password.expose_secret().clone()),
            port: self.port,
            ssl_mode,
            database: None,
            log_statements: false,
        }
    }

    /// The options for a connection to the application's database, with
    /// every statement logged.
    pub fn with_db(&self) -> (options: ConnectOptions)
        ensures
            options.host@ == self.host@,
            options.username@ == self.username@,
            options.password@ == self.password@,
            options.port == self.port,
            options.ssl_mode == self.ssl_mode(),
            options.database matches Some(name) && name@ == self.database_name@,
            options.log_statements,
    {
        let mut options = self.without_db();
        options.database = Some(self.database_name.clone());
        options.log_statements = true;
        options
    }
}

/// `r` is the environment whose name `lower` is, or the error that names
/// `lower` where it is no environment's name.
pub open spec fn environment_named(r: Result<Environment, String>, lower: Seq<char>) -> bool {
    match r {
        Ok(environment) => lower == environment_name(environment),
        Err(message) => lower != "local"@ && lower != "production"@ && message@ == lower
            + unsupported_environment_suffix(),
    }
}

/// The environment of this name, which is taken as it stands: `local` or
/// `production`, in lower case. The error names what was not understood.
pub fn environment_from_lower(lower: String) -> (r: Result<Environment, String>)
    ensures
        environment_named(r, lower@),
{
    if str_eq(lower.as_str(), "local") {
        Ok(Environment::Local)
    } else if str_eq(lower.as_str(), "production") {
        Ok(Environment::Production)
    } else {
        Err(lower.concat(" is not a supported environment. Use either 'local' or 'production'."))
    }
}

impl Environment {
    /// The name of the environment, which is also the stem of its settings
    /// file.
    pub fn as_str(&self) -> (name: &'static str)
        ensures
            name@ == environment_name(*self),
    {
        match self {
            Environment::Local => "local",
            Environment::Production => "production",
        }
    }

    /// The environment that `s` names, letter case aside; the error says
    /// which name was not understood.
    pub fn try_from(s: String) -> (r: Result<Environment, String>)
        ensures
            environment_named(r, unicode_lowercase(s@)),
    {
        environment_from_lower(to_lowercase(s.as_str()))
    }

    /// The environment to run in, from the value of `APP_ENVIRONMENT`:
    /// `local` where the variable is not set.
    pub fn from_variable(value: Option<String>) -> (r: Result<Environment, String>)
        ensures
            match value {
                None => r == Ok::<Environment, String>(Environment::Local),
                Some(s) => environment_named(r, unicode_lowercase(s@)),
            },
    {
        match value {
            None => Ok(Environment::Local),
            Some(s) => Environment::try_from(s),
        }
    }

    /// The name of the environment's settings file.
    pub fn file_name(&self) -> (name: String)
        ensures
            name@ == environment_name(*self) + ".yaml"@,
    {
        String::from_str(self.as_str()).concat(".yaml")
    }
}

/// A database URL by its views, in the order port, host, username,
/// password, path.
pub open spec fn url_view(url: DatabaseUrl) -> (
    Option<u16>,
    Option<Seq<char>>,
    Seq<char>,
    Option<Seq<char>>,
    Seq<char>,
) {
    (
        url.port,
        match url.host {
            Some(host) => Some(host@),
            None => None,
        },
        url.username@,
        match url.password {
            Some(password) => Some(password@),
            None => None,
        },
        url.path@,
    )
}

/// What the parts of a database URL owe: five assignments in the order
/// port, host, username, password, database name, or what is missing first.
pub open spec fn assignments_are(
    r: Result<Vec<Assignment>, DatabaseUrlError>,
    parts: (Option<u16>, Option<Seq<char>>, Seq<char>, Option<Seq<char>>, Seq<char>),
) -> bool {
    match parts {
        (None, _, _, _, _) => r == Err::<Vec<Assignment>, DatabaseUrlError>(
            DatabaseUrlError::MissingPort,
        ),
        (Some(_), None, _, _, _) => r == Err::<Vec<Assignment>, DatabaseUrlError>(
            DatabaseUrlError::MissingHost,
        ),
        (Some(_), Some(_), _, None, _) => r == Err::<Vec<Assignment>, DatabaseUrlError>(
            DatabaseUrlError::MissingPassword,
        ),
        (Some(port), Some(host), username, Some(password), path) => {
            &&& r matches Ok(assignments)
            &&& assignments@.len() == 5
            &&& assignments@[0].variable@ == "APP_DATABASE__PORT"@
            &&& assignments@[0].value@ == decimal_text(port as nat)
            &&& assignments@[1].variable@ == "APP_DATABASE__HOST"@
            &&& assignments@[1].value@ == host
            &&& assignments@[2].variable@ == "APP_DATABASE__USERNAME"@
            &&& assignments@[2].value@ == username
            &&& assignments@[3].variable@ == "APP_DATABASE__PASSWORD"@
            &&& assignments@[3].value@ == password
            &&& assignments@[4].variable@ == "APP_DATABASE__DATABASE_NAME"@
            &&& assignments@[4].value@ == characters_between(path, 1, path.len() as int)
        },
    }
}

/// The assignments that the parts of a database URL stand for: to the
/// variables that override the settings files, in the order port, host,
/// username, password, database name. The database name is the path without
/// its first character. A URL without port, host or password gives none.
pub fn assignments_of(url: DatabaseUrl) -> (r: Result<Vec<Assignment>, DatabaseUrlError>)
    ensures
        assignments_are(r, url_view(url)),
{
    let port = match url.port {
        None => { return Err(DatabaseUrlError::MissingPort); },
        Some(port) => port,
    };
    let host = match url.host {
        None => { return Err(DatabaseUrlError::MissingHost); },
        Some(host) => host,
    };
    let password = match url.password {
        None => { return Err(DatabaseUrlError::MissingPassword); },
        Some(password) => password,
    };
    let length = url.path.as_str().unicode_len();
    let database_name = substring(url.path.as_str(), 1, length);
    let mut assignments: Vec<Assignment> = Vec::new();
    assignments.push(
        Assignment { variable: String::from_str("APP_DATABASE__PORT"), value: decimal(port) },
    );
    assignments.push(Assignment { variable: String::from_str("APP_DATABASE__HOST"), value: host });
    assignments.push(
        Assignment { variable: String::from_str("APP_DATABASE__USERNAME"), value: url.username },
    );
    assignments.push(
        Assignment { variable: String::from_str("APP_DATABASE__PASSWORD"), value: password },
    );
    assignments.push(
        Assignment {
            variable: String::from_str("APP_DATABASE__DATABASE_NAME"),
            value: database_name,
        },
    );
    Ok(assignments)
}

/// The database settings that a database URL stands for, as assignments to
/// the variables that override the settings files; text that is no URL
/// gives none.
pub fn get_database_configuration_heroku(database_url: &str) -> (r: Result<
    Vec<Assignment>,
    DatabaseUrlError,
>)
    ensures
        match url_components(database_url@) {
            None => r == Err::<Vec<Assignment>, DatabaseUrlError>(DatabaseUrlError::NotAUrl),
            Some(parts) => assignments_are(r, parts),
        },
{
    match parse_database_url(database_url) {
        None => Err(DatabaseUrlError::NotAUrl),
        Some(url) => assignments_of(url),
    }
}

/// The assignment that hands the platform's port to the application.
pub fn set_port_heroku(port: String) -> (assignment: Assignment)
    ensures
        assignment.variable@ == "APP_APPLICATION__PORT"@,
        assignment.value@ == port@,
{
    Assignment { variable: String::from_str("APP_APPLICATION__PORT"), value: port }
}

} // verus!
