//! Basic-Auth credentials: reading them from the request headers and
//! checking them against a stored password hash.

use vstd::prelude::*;
use vstd::utf8::decode_utf8;
use vstd::utf8::encode_utf8;
use vstd::utf8::valid_utf8;
use crate::headers::first_value;
use crate::headers::Header;
use crate::headers::HeaderList;
use crate::secret::Secret;
use crate::text::copy_range;
use crate::text::find_byte;
use crate::text::first_index_of;
use crate::text::has_prefix;
use crate::text::lemma_first_index_of;
use crate::text::lemma_split_around_ascii;
use crate::text::starts_with;
use crate::text::str_eq;
use crate::text::string_from_utf8;
use argon2::PasswordHasher;
use argon2::PasswordVerifier;

verus! {

/// A username and the secret offered with it. The secret is dropped, and
/// wiped, with the value.
pub struct Credentials {
    pub username: String,
    pub password: Secret,
}

/// Why a request carried no usable Basic-Auth credentials.
#[derive(Debug, Clone, Copy, PartialEq, Eq, Structural)]
pub enum MalformedCause {
    /// There is no `Authorization` header.
    MissingHeader,
    /// The header's value is not UTF-8.
    HeaderNotUtf8,
    /// The value does not begin with `Basic `.
    WrongScheme,
    /// What follows the scheme is not standard base64.
    InvalidBase64,
    /// The decoded payload is not UTF-8.
    CredentialsNotUtf8,
    /// The decoded payload holds no `:`.
    MissingSeparator,
}

/// The one error of credential extraction; it carries its cause.
#[derive(Debug, Clone, Copy, PartialEq, Eq, Structural)]
pub struct MalformedCredentials {
    pub cause: MalformedCause,
}

/// Why authentication did not succeed.
pub enum AuthError {
    /// The caller is not who they claim to be. Callers see no more than
    /// that; the reason is for the operator's log.
    InvalidCredentials(Rejection),
    /// Authentication could not be decided.
    UnexpectedError(Fault),
}

/// Why credentials were turned down.
#[derive(Debug, Clone, Copy, PartialEq, Eq, Structural)]
pub enum Rejection {
    /// No user has this name.
    UnknownUsername,
    /// The user exists and the secret is not theirs.
    WrongPassword,
}

/// What kept authentication from being decided.
pub enum Fault {
    /// The datastore could not be asked; the text is its own account.
    Datastore(String),
    /// The stored password hash is not a PHC string.
    MalformedHashRecord,
    /// No record of a new secret was made that may be stored: the salt is
    /// not one.
    Hashing,
}

/// A user as the datastore holds them.
pub struct StoredUser {
    pub user_id: uuid::Uuid,
    pub username: String,
    pub password_hash: Secret,
}

/// How a secret fares against a stored hash record.
#[derive(Debug, Clone, Copy, PartialEq, Eq, Structural)]
pub enum HashVerdict {
    /// The record was computed from this secret.
    Match,
    /// The record was computed from another secret.
    Mismatch,
    /// The record is not a PHC string.
    Unparseable,
}

/// `uuid::Uuid`: a user's id, carried through unopened.
#[verifier::external_type_specification]
#[verifier::external_body]
pub struct ExUuid(uuid::Uuid);

/// `base64::DecodeError`: why an input is not base64; only that it is
/// there is looked at.
#[verifier::external_type_specification]
#[verifier::external_body]
pub struct ExDecodeError(base64::DecodeError);

/// Whether `record` is a string in the PHC format.
pub uninterp spec fn phc_record_parses(record: Seq<char>) -> bool;

/// Whether Argon2, with the salt and the parameters that the PHC string
/// `record` carries, derives from `password` the hash that `record` carries.
/// It is `false` where `record` is no PHC string.
pub uninterp spec fn argon2_accepts(password: Seq<u8>, record: Seq<char>) -> bool;

/// `argon2::PasswordHash::new`: whether the text parses as a PHC string.
#[verifier::external_body]
fn is_phc_record(record: &str) -> (ok: bool)
    ensures
        ok == phc_record_parses(record@),
{
    argon2::PasswordHash::new(record).is_ok()
}

/// `argon2::PasswordVerifier::verify_password` on `argon2::Argon2::default()`,
/// with the record parsed by `argon2::PasswordHash::new`: whether the
/// password hashes to what the record holds. The comparison of the two hashes
/// is the crate's own, in constant time; time and memory spent are what the
/// record's parameters ask for.
#[verifier::external_body]
fn argon2_verify(password: &[u8], record: &str) -> (ok: bool)
    ensures
        ok == argon2_accepts(password@, record@),
{
    match argon2::PasswordHash::new(record) {
        Ok(hash) => argon2::Argon2::default().verify_password(password, &hash).is_ok(),
        Err(_) => false,
    }
}

/// The PHC string that Argon2, with its default parameters, makes of
/// `password` and the salt `salt`; `None` where it makes none.
pub uninterp spec fn argon2_record(password: Seq<u8>, salt: Seq<char>) -> Option<Seq<char>>;

/// `argon2::PasswordHasher::hash_password` on `argon2::Argon2::default()`,
/// with the record written out as text: the record for this password and
/// salt, if the hasher makes one. Such a record parses as a PHC string, and
/// verification, which hashes again with the record's own salt and
/// parameters and compares, accepts the password it was made of.
#[verifier::external_body]
fn argon2_hash(password: &[u8], salt: &str) -> (record: Option<String>)
    ensures
        match record {
            Some(text) => argon2_record(password@, salt@) == Some(text@) && phc_record_parses(
                text@,
            ) && argon2_accepts(password@, text@),
            None => argon2_record(password@, salt@) is None,
        },
{
    match argon2::Argon2::default().hash_password(password, salt) {
        Ok(hash) => Some(hash.to_string()),
        Err(_) => None,
    }
}

/// What the standard base64 alphabet, with padding, decodes `input` to;
/// `None` where `input` is no such encoding.
pub uninterp spec fn base64_standard_decoding(input: Seq<u8>) -> Option<Seq<u8>>;

/// `base64::decode_config` with `base64::STANDARD`: the decoded bytes, or
/// the crate's error where the input is not standard base64.
#[verifier::external_body]
fn base64_decode_standard(input: &[u8]) -> (r: Result<Vec<u8>, base64::DecodeError>)
    ensures
        match r {
            Ok(bytes) => base64_standard_decoding(input@) == Some(bytes@),
            Err(_) => base64_standard_decoding(input@) is None,
        },
{
    base64::decode_config(input, base64::STANDARD)
}

/// The name under which the credentials travel, in lower case.
pub open spec fn authorization_name() -> Seq<u8> {
    seq![0x61u8, 0x75, 0x74, 0x68, 0x6f, 0x72, 0x69, 0x7a, 0x61, 0x74, 0x69, 0x6f, 0x6e]
}

/// The bytes of `Basic `, the scheme and the blank after it.
pub open spec fn basic_prefix() -> Seq<u8> {
    seq![0x42u8, 0x61, 0x73, 0x69, 0x63, 0x20]
}

/// The byte of `:`.
pub open spec fn colon() -> u8 {
    0x3a
}

/// The base64 text that follows `Basic ` in the `Authorization` header, or
/// the reason why there is none.
pub open spec fn encoded_segment_of(headers: Seq<Header>) -> Result<Seq<u8>, MalformedCause> {
    match first_value(headers, authorization_name()) {
        None => Err(MalformedCause::MissingHeader),
        Some(value) => if !valid_utf8(value) {
            Err(MalformedCause::HeaderNotUtf8)
        } else if !has_prefix(value, basic_prefix()) {
            Err(MalformedCause::WrongScheme)
        } else {
            Ok(value.subrange(basic_prefix().len() as int, value.len() as int))
        },
    }
}

/// Username and secret in a decoded payload: the text before the first `:`
/// and the text after it, which may hold further colons.
pub open spec fn credentials_of_payload(payload: Seq<u8>) -> Result<
    (Seq<char>, Seq<char>),
    MalformedCause,
> {
    let at = first_index_of(payload, colon());
    if !valid_utf8(payload) {
        Err(MalformedCause::CredentialsNotUtf8)
    } else if at == payload.len() {
        Err(MalformedCause::MissingSeparator)
    } else {
        Ok(
            (
                decode_utf8(payload.subrange(0, at)),
                decode_utf8(payload.subrange(at + 1, payload.len() as int)),
            ),
        )
    }
}

/// What a request's headers say about who is calling.
pub open spec fn basic_credentials(headers: Seq<Header>) -> Result<
    (Seq<char>, Seq<char>),
    MalformedCause,
> {
    match encoded_segment_of(headers) {
        Err(cause) => Err(cause),
        Ok(segment) => match base64_standard_decoding(segment) {
            None => Err(MalformedCause::InvalidBase64),
            Some(payload) => credentials_of_payload(payload),
        },
    }
}

/// `outcome` is the pair or the cause that `expected` names.
pub open spec fn extraction_is(
    outcome: Result<Credentials, MalformedCredentials>,
    expected: Result<(Seq<char>, Seq<char>), MalformedCause>,
) -> bool {
    match expected {
        Ok((username, secret)) => outcome matches Ok(c) && c.username@ == username && c.password@
            == secret,
        Err(cause) => outcome matches Err(e) && e.cause == cause,
    }
}

/// Each cause in words.
pub open spec fn cause_text(cause: MalformedCause) -> Seq<char> {
    match cause {
        MalformedCause::MissingHeader => "The 'Authorization' header was missing."@,
        MalformedCause::HeaderNotUtf8 => "The 'Authorization' header was not a valid UTF8 string."@,
        MalformedCause::WrongScheme => "The Authorization scheme was not 'Basic'."@,
        MalformedCause::InvalidBase64 => "Failed to decode base64 Basic credentials."@,
        MalformedCause::CredentialsNotUtf8 => "Failed to decode credentials."@,
        MalformedCause::MissingSeparator => "A password must be provided in Basic auth."@,
    }
}

impl MalformedCause {
    /// The cause in words.
    pub fn message(&self) -> (text: &'static str)
        ensures
            text@ == cause_text(*self),
    {
        match self {
            MalformedCause::MissingHeader => "The 'Authorization' header was missing.",
            MalformedCause::HeaderNotUtf8 => "The 'Authorization' header was not a valid UTF8 string.",
            MalformedCause::WrongScheme => "The Authorization scheme was not 'Basic'.",
            MalformedCause::InvalidBase64 => "Failed to decode base64 Basic credentials.",
            MalformedCause::CredentialsNotUtf8 => "Failed to decode credentials.",
            MalformedCause::MissingSeparator => "A password must be provided in Basic auth.",
        }
    }
}

impl MalformedCredentials {
    /// The cause in words.
    pub fn message(&self) -> (text: &'static str)
        ensures
            text@ == cause_text(self.cause),
    {
        self.cause.message()
    }
}

impl Rejection {
    /// The reason in words, for the operator's log.
    pub fn message(&self) -> (text: &'static str)
        ensures
            text@ == match *self {
                Rejection::UnknownUsername => "Unknown username."@,
                Rejection::WrongPassword => "Invalid password."@,
            },
    {
        match self {
            Rejection::UnknownUsername => "Unknown username.",
            Rejection::WrongPassword => "Invalid password.",
        }
    }
}

impl Fault {
    /// The fault in words, for the operator's log: the datastore's own
    /// account, or that the stored hash is no PHC string.
    pub fn message(&self) -> (text: String)
        ensures
            text@ == match *self {
                Fault::Datastore(detail) => detail@,
                Fault::MalformedHashRecord => "Failed to parse hash in PHC string format."@,
                Fault::Hashing => "Failed to hash the password."@,
            },
    {
        match self {
            Fault::Datastore(detail) => detail.clone(),
            Fault::MalformedHashRecord => "Failed to parse hash in PHC string format.".to_owned(),
            Fault::Hashing => "Failed to hash the password.".to_owned(),
        }
    }
}

impl AuthError {
    /// What the caller may be told: that the credentials are invalid, without
    /// saying which of them, or that something went wrong.
    pub fn message(&self) -> (text: &'static str)
        ensures
            text@ == match *self {
                AuthError::InvalidCredentials(_) => "Invalid credentials."@,
                AuthError::UnexpectedError(_) => "Something went wrong."@,
            },
    {
        match self {
            AuthError::InvalidCredentials(_) => "Invalid credentials.",
            AuthError::UnexpectedError(_) => "Something went wrong.",
        }
    }
}

/// The base64 segment of the `Authorization` header: the header must be
/// there, be UTF-8 and use the `Basic` scheme.
pub fn encoded_segment(headers: &HeaderList) -> (r: Result<Vec<u8>, MalformedCredentials>)
    ensures
        match encoded_segment_of(headers@) {
            Ok(segment) => r matches Ok(found) && found@ == segment,
            Err(cause) => r matches Err(e) && e.cause == cause,
        },
{
    let name: [u8; 13] = [0x61, 0x75, 0x74, 0x68, 0x6f, 0x72, 0x69, 0x7a, 0x61, 0x74, 0x69, 0x6f, 0x6e];
    let prefix: [u8; 6] = [0x42, 0x61, 0x73, 0x69, 0x63, 0x20];
    assert(name@ =~= authorization_name());
    assert(prefix@ =~= basic_prefix());
    let value = match headers.get(name.as_slice()) {
        None => { return Err(MalformedCredentials { cause: MalformedCause::MissingHeader }); },
        Some(value) => value,
    };
    let copy = copy_range(value.as_slice(), 0, value.len());
    assert(copy@ =~= value@);
    if string_from_utf8(copy).is_err() {
        return Err(MalformedCredentials { cause: MalformedCause::HeaderNotUtf8 });
    }
    if !starts_with(value.as_slice(), prefix.as_slice()) {
        return Err(MalformedCredentials { cause: MalformedCause::WrongScheme });
    }
    Ok(copy_range(value.as_slice(), prefix.len(), value.len()))
}

/// Splits a decoded payload at its first `:` into username and secret.
pub fn credentials_from_payload(payload: Vec<u8>) -> (r: Result<Credentials, MalformedCredentials>)
    ensures
        extraction_is(r, credentials_of_payload(payload@)),
{
    let len = payload.len();
    let at = find_byte(payload.as_slice(), 0x3a);
    let username_bytes = copy_range(payload.as_slice(), 0, at);
    let secret_bytes = if at < len {
        copy_range(payload.as_slice(), at + 1, len)
    } else {
        Vec::new()
    };
    let ghost whole = payload@;
    proof {
        lemma_first_index_of(whole, colon());
    }
    if string_from_utf8(payload).is_err() {
        return Err(MalformedCredentials { cause: MalformedCause::CredentialsNotUtf8 });
    }
    if at == len {
        return Err(MalformedCredentials { cause: MalformedCause::MissingSeparator });
    }
    proof {
        lemma_split_around_ascii(whole, at as int);
    }
    match (string_from_utf8(username_bytes), string_from_utf8(secret_bytes)) {
        (Ok(username), Ok(secret)) => Ok(Credentials { username, password: Secret::new(secret) }),
        _ => {
            proof {
                assert(false);
            }
            Err(MalformedCredentials { cause: MalformedCause::CredentialsNotUtf8 })
        },
    }
}

/// Reads the caller's credentials from the request headers: the
/// `Authorization` header must be there, be UTF-8, use the `Basic` scheme,
/// and carry base64 of UTF-8 text with a `:` in it. The username is what
/// stands before the first colon, the secret all that follows it.
pub fn basic_authentication(headers: &HeaderList) -> (r: Result<Credentials, MalformedCredentials>)
    ensures
        extraction_is(r, basic_credentials(headers@)),
{
    let segment = match encoded_segment(headers) {
        Err(e) => { return Err(e); },
        Ok(segment) => segment,
    };
    match base64_decode_standard(segment.as_slice()) {
        Err(_) => Err(MalformedCredentials { cause: MalformedCause::InvalidBase64 }),
        Ok(payload) => credentials_from_payload(payload),
    }
}

/// A request whose `Authorization` header lacks the `Basic` scheme, or
/// carries what is not standard base64, or decodes to a payload without a
/// `:`, has no credentials: extraction fails, and yields no part of a pair.
pub proof fn lemma_malformed_headers_are_rejected(headers: Seq<Header>)
    ensures
        first_value(headers, authorization_name()) matches Some(value) && !has_prefix(
            value,
            basic_prefix(),
        ) ==> basic_credentials(headers) is Err,
        encoded_segment_of(headers) matches Ok(segment) && base64_standard_decoding(segment)
            is None ==> basic_credentials(headers) == Err::<
            (Seq<char>, Seq<char>),
            MalformedCause,
        >(MalformedCause::InvalidBase64),
        encoded_segment_of(headers) matches Ok(segment) && base64_standard_decoding(segment)
            matches Some(payload) && !payload.contains(colon()) ==> basic_credentials(headers)
            is Err,
        first_value(headers, authorization_name()) is None ==> basic_credentials(headers) == Err::<
            (Seq<char>, Seq<char>),
            MalformedCause,
        >(MalformedCause::MissingHeader),
{
    match encoded_segment_of(headers) {
        Ok(segment) => match base64_standard_decoding(segment) {
            Some(payload) => {
                lemma_first_index_of(payload, colon());
            },
            None => {},
        },
        Err(_) => {},
    }
}

/// The text of a payload with credentials in it is the username, a colon,
/// and the secret.
pub proof fn lemma_payload_is_username_colon_secret(payload: Seq<u8>)
    requires
        credentials_of_payload(payload) is Ok,
    ensures
        credentials_of_payload(payload) matches Ok((username, secret)) && decode_utf8(payload)
            == username.push(':') + secret,
{
    lemma_first_index_of(payload, colon());
    let at = first_index_of(payload, colon());
    lemma_split_around_ascii(payload, at);
    assert(payload[at] as char == ':');
}

/// How `secret` fares against `record`.
pub open spec fn hash_verdict(secret: Seq<char>, record: Seq<char>) -> HashVerdict {
    if !phc_record_parses(record) {
        HashVerdict::Unparseable
    } else if argon2_accepts(encode_utf8(secret), record) {
        HashVerdict::Match
    } else {
        HashVerdict::Mismatch
    }
}

/// The result of authentication, given whom the datastore found and how the
/// offered secret fared against the hash that was checked.
pub open spec fn authentication_result(found: Option<uuid::Uuid>, verdict: HashVerdict) -> Result<
    uuid::Uuid,
    AuthError,
> {
    match found {
        None => Err(AuthError::InvalidCredentials(Rejection::UnknownUsername)),
        Some(user_id) => match verdict {
            HashVerdict::Match => Ok(user_id),
            HashVerdict::Mismatch => Err(AuthError::InvalidCredentials(Rejection::WrongPassword)),
            HashVerdict::Unparseable => Err(AuthError::UnexpectedError(Fault::MalformedHashRecord)),
        },
    }
}

/// The text of the fallback record.
pub open spec fn fallback_record() -> Seq<char> {
    "$argon2id$v=19$m=15000,t=2,p=1$gZiV/M1gPc22ElAH/Jh1Hw$CWOrkoo7oJBQ/iyh7uJ0LO2aLEfrHwTWllSAxT0zRno"@
}

/// The user whom the datastore's answer names for `username`: the row that
/// it returned, where that row carries this very name.
pub open spec fn user_named(username: Seq<char>, row: Option<StoredUser>) -> Option<StoredUser> {
    match row {
        Some(user) => if user.username@ == username {
            Some(user)
        } else {
            None
        },
        None => None,
    }
}

/// The record that a secret is checked against: the found user's own, or
/// the fallback record where nobody was found.
pub open spec fn record_checked(found: Option<StoredUser>) -> Seq<char> {
    match found {
        Some(user) => user.password_hash@,
        None => fallback_record(),
    }
}

/// The id of the user found, if one was.
pub open spec fn id_of(found: Option<StoredUser>) -> Option<uuid::Uuid> {
    match found {
        Some(user) => Some(user.user_id),
        None => None,
    }
}

/// How a validation ended, and the verdict of the one check of the secret
/// that it made. Only `validate_credentials` makes a value of this type.
pub struct Validation {
    result: Result<uuid::Uuid, AuthError>,
    verdict: Option<HashVerdict>,
}

impl Validation {
    /// The user's id, or why there is none.
    pub closed spec fn result(&self) -> Result<uuid::Uuid, AuthError> {
        self.result
    }

    /// The verdict of the check that was made; `None` where none was made.
    pub closed spec fn verdict(&self) -> Option<HashVerdict> {
        self.verdict
    }

    /// The user's id, or why there is none.
    pub fn into_result(self) -> (r: Result<uuid::Uuid, AuthError>)
        ensures
            r == self.result(),
    {
        self.result
    }

    /// Whether the credentials were valid.
    pub fn is_ok(&self) -> (ok: bool)
        ensures
            ok == self.result() is Ok,
    {
        self.result.is_ok()
    }

    /// The verdict of the check that was made; `None` where none was made.
    pub fn checked(&self) -> (verdict: Option<HashVerdict>)
        ensures
            verdict == self.verdict(),
    {
        self.verdict
    }
}

/// What `validate_credentials` owes for a username, a secret and the
/// datastore's answer. Where the datastore answered, the secret was checked
/// once: against the record of the user found, or against the fallback
/// record where no user of that name was found.
pub open spec fn validation_is(
    validation: Validation,
    username: Seq<char>,
    secret: Seq<char>,
    lookup: Result<Option<StoredUser>, String>,
) -> bool {
    match lookup {
        Err(detail) => {
            &&& validation.result() matches Err(AuthError::UnexpectedError(Fault::Datastore(d)))
            &&& d@ == detail@
            &&& validation.verdict() is None
        },
        Ok(row) => {
            let found = user_named(username, row);
            let verdict = hash_verdict(secret, record_checked(found));
            &&& validation.verdict() == Some(verdict)
            &&& validation.result() == authentication_result(id_of(found), verdict)
        },
    }
}

/// A hash record of no user's secret. Credentials for an unknown username
/// are checked against it, so that turning them down costs what turning
/// down a wrong password costs.
pub fn fallback_hash() -> (record: Secret)
    ensures
        record@ == fallback_record(),
{
    Secret::new(
        "$argon2id$v=19$m=15000,t=2,p=1$gZiV/M1gPc22ElAH/Jh1Hw$CWOrkoo7oJBQ/iyh7uJ0LO2aLEfrHwTWllSAxT0zRno".to_owned(),
    )
}

/// Checks a secret against a stored hash record. A record that does not
/// parse is told apart from a secret that does not match.
pub fn verify_password_hash(expected_password_hash: &Secret, password_candidate: &Secret) -> (verdict:
    HashVerdict)
    ensures
        verdict == hash_verdict(password_candidate@, expected_password_hash@),
{
    let record = expected_password_hash.expose_secret().as_str();
    if !is_phc_record(record) {
        return HashVerdict::Unparseable;
    }
    if argon2_verify(password_candidate.expose_secret().as_str().as_bytes(), record) {
        HashVerdict::Match
    } else {
        HashVerdict::Mismatch
    }
}

/// Decides authentication from whom the datastore found and the verdict on
/// the hash that was checked: the found user's own, or the fallback.
pub fn decide_authentication(found: Option<uuid::Uuid>, verdict: HashVerdict) -> (r: Result<
    uuid::Uuid,
    AuthError,
>)
    ensures
        r == authentication_result(found, verdict),
{
    match found {
        None => Err(AuthError::InvalidCredentials(Rejection::UnknownUsername)),
        Some(user_id) => match verdict {
            HashVerdict::Match => Ok(user_id),
            HashVerdict::Mismatch => Err(AuthError::InvalidCredentials(Rejection::WrongPassword)),
            HashVerdict::Unparseable => Err(AuthError::UnexpectedError(Fault::MalformedHashRecord)),
        },
    }
}

/// Validates credentials against what the datastore answered when asked for
/// the user of that name: `Ok(Some(..))` for the user, `Ok(None)` where
/// there is none, `Err(..)` where it could not be asked. A row under another
/// name than the one offered is no user of that name.
///
/// A match returns the user's id. A wrong secret and an unknown username
/// are both `InvalidCredentials`; for the unknown username the secret is
/// still checked, against the fallback record, and the verdict of that check
/// is returned with the result. A datastore failure or a stored record that
/// does not parse is an `UnexpectedError`.
pub fn validate_credentials(credentials: Credentials, lookup: Result<Option<StoredUser>, String>) -> (validation:
    Validation)
    ensures
        validation_is(validation, credentials.username@, credentials.password@, lookup),
{
    let row = match lookup {
        Err(detail) => {
            return Validation {
                result: Err(AuthError::UnexpectedError(Fault::Datastore(detail))),
                verdict: None,
            };
        },
        Ok(row) => row,
    };
    let (found, expected_password_hash) = match row {
        Some(user) => if user.username == credentials.username {
            (Some(user.user_id), user.password_hash)
        } else {
            (None, fallback_hash())
        },
        None => (None, fallback_hash()),
    };
    let verdict = verify_password_hash(&expected_password_hash, &credentials.password);
    Validation { result: decide_authentication(found, verdict), verdict: Some(verdict) }
}

/// Credentials that were read from a request are validated like this: the
/// secret of an existing user returns that user's id; an existing username
/// with another secret, and a username that nobody has, are both turned
/// down as invalid credentials, and in both cases the secret was checked
/// against one record.
pub proof fn lemma_validation_outcomes(
    headers: Seq<Header>,
    extraction: Result<Credentials, MalformedCredentials>,
    lookup: Result<Option<StoredUser>, String>,
    validation: Validation,
)
    requires
        extraction_is(extraction, basic_credentials(headers)),
        extraction matches Ok(credentials) && validation_is(
            validation,
            credentials.username@,
            credentials.password@,
            lookup,
        ),
    ensures
        basic_credentials(headers) matches Ok((username, secret)) && match lookup {
            Ok(Some(user)) => if user.username@ == username {
                &&& validation.verdict() == Some(hash_verdict(secret, user.password_hash@))
                &&& validation.result() == match hash_verdict(secret, user.password_hash@) {
                    HashVerdict::Match => Ok::<uuid::Uuid, AuthError>(user.user_id),
                    HashVerdict::Mismatch => Err::<uuid::Uuid, AuthError>(
                        AuthError::InvalidCredentials(Rejection::WrongPassword),
                    ),
                    HashVerdict::Unparseable => Err::<uuid::Uuid, AuthError>(
                        AuthError::UnexpectedError(Fault::MalformedHashRecord),
                    ),
                }
            } else {
                &&& validation.verdict() == Some(hash_verdict(secret, fallback_record()))
                &&& validation.result() == Err::<uuid::Uuid, AuthError>(
                    AuthError::InvalidCredentials(Rejection::UnknownUsername),
                )
            },
            Ok(None) => validation.result() == Err::<uuid::Uuid, AuthError>(
                AuthError::InvalidCredentials(Rejection::UnknownUsername),
            ) && validation.verdict() == Some(hash_verdict(secret, fallback_record())),
            Err(_) => validation.result() matches Err(
                AuthError::UnexpectedError(Fault::Datastore(_)),
            ) && validation.verdict() is None,
        },
{
}

/// A new password hash for a user, as the datastore is to store it.
pub struct PasswordChange {
    pub user_id: uuid::Uuid,
    pub password_hash: Secret,
}

/// What a change of password owes: the record that Argon2 makes of the new
/// secret and the salt, for this user, wherever it makes one. A record that
/// reads as the secret itself is not stored.
pub open spec fn change_is(
    r: Result<PasswordChange, AuthError>,
    user_id: uuid::Uuid,
    password: Seq<char>,
    salt: Seq<char>,
) -> bool {
    match argon2_record(encode_utf8(password), salt) {
        Some(record) => if record != password {
            &&& r matches Ok(change)
            &&& change.user_id == user_id
            &&& change.password_hash@ == record
        } else {
            r == Err::<PasswordChange, AuthError>(AuthError::UnexpectedError(Fault::Hashing))
        },
        None => r == Err::<PasswordChange, AuthError>(AuthError::UnexpectedError(Fault::Hashing)),
    }
}

/// Prepares the change of a user's password: hashes the new secret with
/// the given salt, and hands the record to store back. What is stored is
/// never the secret itself, always a record that parses and that accepts
/// the secret. Where the hasher makes no record, nothing is to be stored.
pub fn change_password(user_id: uuid::Uuid, password: Secret, salt: &str) -> (r: Result<
    PasswordChange,
    AuthError,
>)
    ensures
        change_is(r, user_id, password@, salt@),
        r matches Ok(change) ==> {
            &&& change.user_id == user_id
            &&& change.password_hash@ != password@
            &&& phc_record_parses(change.password_hash@)
            &&& argon2_accepts(encode_utf8(password@), change.password_hash@)
        },
{
    match argon2_hash(password.expose_secret().as_str().as_bytes(), salt) {
        Some(record) => if str_eq(record.as_str(), password.expose_secret().as_str()) {
            Err(AuthError::UnexpectedError(Fault::Hashing))
        } else {
            Ok(PasswordChange { user_id, password_hash: Secret::new(record) })
        },
        None => Err(AuthError::UnexpectedError(Fault::Hashing)),
    }
}

/// A secret that was set by a change of password is accepted afterwards:
/// once the record of the change is the user's stored record, credentials
/// with the user's name and the new secret validate to the user's id, and a
/// secret that Argon2 does not accept for that record is turned down.
pub proof fn lemma_changed_password_is_accepted(
    change: PasswordChange,
    password: Seq<char>,
    user: StoredUser,
    offered: Seq<char>,
    validation: Validation,
)
    requires
        phc_record_parses(change.password_hash@),
        argon2_accepts(encode_utf8(password), change.password_hash@),
        user.user_id == change.user_id,
        user.password_hash@ == change.password_hash@,
        validation_is(validation, user.username@, offered, Ok(Some(user))),
    ensures
        offered == password ==> validation.result() == Ok::<uuid::Uuid, AuthError>(
            change.user_id,
        ),
        !argon2_accepts(encode_utf8(offered), change.password_hash@) ==> validation.result()
            == Err::<uuid::Uuid, AuthError>(
            AuthError::InvalidCredentials(Rejection::WrongPassword),
        ),
{
}

} // verus!
