use argon2::password_hash::SaltString;
use argon2::Argon2;
use argon2::PasswordHasher;
use uuid::Uuid;
use zero2prod::authentication::password::basic_authentication;
use zero2prod::authentication::password::change_password;
use zero2prod::authentication::password::decide_authentication;
use zero2prod::authentication::password::fallback_hash;
use zero2prod::authentication::password::validate_credentials;
use zero2prod::authentication::password::verify_password_hash;
use zero2prod::authentication::password::AuthError;
use zero2prod::authentication::password::Credentials;
use zero2prod::authentication::password::Fault;
use zero2prod::authentication::password::HashVerdict;
use zero2prod::authentication::password::Rejection;
use zero2prod::authentication::password::StoredUser;
use zero2prod::headers::Header;
use zero2prod::headers::HeaderList;
use zero2prod::random::fresh_salt;
use zero2prod::random::SALT_LENGTH;
use zero2prod::secret::Secret;

fn hash_of(password: &str) -> String {
    let salt = SaltString::new("c29tZXNhbHRzb21lc2FsdA").unwrap();
    Argon2::default().hash_password(password.as_bytes(), &salt).unwrap().to_string()
}

fn user(id: u128, name: &str, password: &str) -> StoredUser {
    StoredUser {
        user_id: Uuid::from_u128(id),
        username: name.to_string(),
        password_hash: Secret::new(hash_of(password)),
    }
}

fn credentials(name: &str, password: &str) -> Credentials {
    Credentials { username: name.to_string(), password: Secret::new(password.to_string()) }
}

#[test]
fn correct_secret_returns_the_user_id() {
    let v = validate_credentials(credentials("ursula", "hunter2"), Ok(Some(user(7, "ursula", "hunter2"))));
    assert!(v.is_ok());
    assert_eq!(v.checked(), Some(HashVerdict::Match));
    assert_eq!(v.into_result().ok(), Some(Uuid::from_u128(7)));
}

#[test]
fn wrong_secret_is_invalid_credentials() {
    let v = validate_credentials(credentials("ursula", "hunter3"), Ok(Some(user(7, "ursula", "hunter2"))));
    assert!(!v.is_ok());
    assert_eq!(v.checked(), Some(HashVerdict::Mismatch));
    assert!(matches!(v.into_result(), Err(AuthError::InvalidCredentials(Rejection::WrongPassword))));
}

#[test]
fn secret_differing_in_case_or_length_is_wrong() {
    for candidate in ["Hunter2", "hunter", "hunter22", "", " hunter2"] {
        let v = validate_credentials(credentials("ursula", candidate), Ok(Some(user(7, "ursula", "hunter2"))));
        assert!(matches!(v.into_result(), Err(AuthError::InvalidCredentials(Rejection::WrongPassword))));
    }
}

#[test]
fn unknown_username_is_invalid_credentials() {
    let v = validate_credentials(credentials("nobody", "hunter2"), Ok(None));
    assert!(matches!(v.into_result(), Err(AuthError::InvalidCredentials(Rejection::UnknownUsername))));
}

#[test]
fn unknown_username_is_still_checked_against_the_fallback_record() {
    let v = validate_credentials(credentials("nobody", "hunter2"), Ok(None));
    assert_eq!(v.checked(), Some(HashVerdict::Mismatch));
    assert_eq!(
        v.checked(),
        Some(verify_password_hash(&fallback_hash(), &Secret::new("hunter2".to_string())))
    );
}

#[test]
fn row_under_another_name_is_no_user_of_that_name() {
    let v = validate_credentials(credentials("octavia", "hunter2"), Ok(Some(user(7, "ursula", "hunter2"))));
    assert_eq!(v.checked(), Some(HashVerdict::Mismatch));
    assert!(matches!(v.into_result(), Err(AuthError::InvalidCredentials(Rejection::UnknownUsername))));
    let v = validate_credentials(credentials("Ursula", "hunter2"), Ok(Some(user(7, "ursula", "hunter2"))));
    assert!(matches!(v.into_result(), Err(AuthError::InvalidCredentials(Rejection::UnknownUsername))));
}

#[test]
fn datastore_failure_is_unexpected_and_keeps_its_cause() {
    let v = validate_credentials(credentials("ursula", "hunter2"), Err("connection reset".to_string()));
    assert_eq!(v.checked(), None);
    match v.into_result() {
        Err(AuthError::UnexpectedError(Fault::Datastore(detail))) => assert_eq!(detail, "connection reset"),
        _ => panic!("a datastore failure must be an unexpected error"),
    }
}

#[test]
fn stored_hash_that_does_not_parse_is_unexpected() {
    let stored = StoredUser {
        user_id: Uuid::from_u128(7),
        username: "ursula".to_string(),
        password_hash: Secret::new("hunter2".to_string()),
    };
    let v = validate_credentials(credentials("ursula", "hunter2"), Ok(Some(stored)));
    assert_eq!(v.checked(), Some(HashVerdict::Unparseable));
    assert!(matches!(v.into_result(), Err(AuthError::UnexpectedError(Fault::MalformedHashRecord))));
}

#[test]
fn verdicts_tell_mismatch_from_unparseable() {
    let record = Secret::new(hash_of("hunter2"));
    assert_eq!(verify_password_hash(&record, &Secret::new("hunter2".to_string())), HashVerdict::Match);
    assert_eq!(verify_password_hash(&record, &Secret::new("hunter3".to_string())), HashVerdict::Mismatch);
    let broken = Secret::new("$argon2id$".to_string());
    assert_eq!(verify_password_hash(&broken, &Secret::new("hunter2".to_string())), HashVerdict::Unparseable);
    let empty = Secret::new(String::new());
    assert_eq!(verify_password_hash(&empty, &Secret::new(String::new())), HashVerdict::Unparseable);
}

#[test]
fn secret_beyond_ascii_is_verified_on_its_utf8_bytes() {
    let record = Secret::new(hash_of("pässwörd€"));
    assert_eq!(verify_password_hash(&record, &Secret::new("pässwörd€".to_string())), HashVerdict::Match);
    assert_eq!(verify_password_hash(&record, &Secret::new("password".to_string())), HashVerdict::Mismatch);
}

#[test]
fn fallback_hash_is_a_record_that_no_tested_secret_matches() {
    let record = fallback_hash();
    assert!(argon2::PasswordHash::new(record.expose_secret()).is_ok());
    for candidate in ["", "password", "hunter2"] {
        assert_eq!(
            verify_password_hash(&record, &Secret::new(candidate.to_string())),
            HashVerdict::Mismatch
        );
    }
}

#[test]
fn decision_for_each_case() {
    let id = Uuid::from_u128(42);
    assert_eq!(decide_authentication(Some(id), HashVerdict::Match).ok(), Some(id));
    assert!(matches!(
        decide_authentication(Some(id), HashVerdict::Mismatch),
        Err(AuthError::InvalidCredentials(Rejection::WrongPassword))
    ));
    assert!(matches!(
        decide_authentication(Some(id), HashVerdict::Unparseable),
        Err(AuthError::UnexpectedError(Fault::MalformedHashRecord))
    ));
    for verdict in [HashVerdict::Match, HashVerdict::Mismatch, HashVerdict::Unparseable] {
        assert!(matches!(
            decide_authentication(None, verdict),
            Err(AuthError::InvalidCredentials(Rejection::UnknownUsername))
        ));
    }
}

#[test]
fn header_to_user_id_end_to_end() {
    let mut headers = HeaderList::new();
    let value = format!("Basic {}", base64::encode("ursula:hunter2"));
    headers.append(Header::new("Authorization", value.as_bytes()));
    let credentials = basic_authentication(&headers).unwrap();
    assert_eq!(credentials.username, "ursula");
    let v = validate_credentials(credentials, Ok(Some(user(9, "ursula", "hunter2"))));
    assert_eq!(v.into_result().ok(), Some(Uuid::from_u128(9)));
}

#[test]
fn password_change_stores_a_record_that_accepts_the_new_secret() {
    let id = Uuid::from_u128(3);
    let change = change_password(id, Secret::new("new secret".to_string()), "c29tZXNhbHRzb21lc2FsdA").ok().unwrap();
    assert_eq!(change.user_id, id);
    assert_ne!(change.password_hash.expose_secret(), "new secret");
    assert_eq!(change.password_hash.expose_secret(), &hash_of("new secret"));
    assert!(argon2::PasswordHash::new(change.password_hash.expose_secret()).is_ok());
    assert_eq!(
        verify_password_hash(&change.password_hash, &Secret::new("new secret".to_string())),
        HashVerdict::Match
    );
    assert_eq!(
        verify_password_hash(&change.password_hash, &Secret::new("old secret".to_string())),
        HashVerdict::Mismatch
    );
}

#[test]
fn secret_set_by_a_password_change_is_accepted_afterwards() {
    let id = Uuid::from_u128(3);
    let salt = fresh_salt();
    let change = change_password(id, Secret::new("pässwörd€ 2".to_string()), &salt).ok().unwrap();
    let stored = StoredUser { user_id: change.user_id, username: "ursula".to_string(), password_hash: change.password_hash };
    let v = validate_credentials(credentials("ursula", "pässwörd€ 2"), Ok(Some(stored)));
    assert_eq!(v.into_result().ok(), Some(id));
    let change = change_password(id, Secret::new("third".to_string()), &salt).ok().unwrap();
    let stored = StoredUser { user_id: change.user_id, username: "ursula".to_string(), password_hash: change.password_hash };
    let v = validate_credentials(credentials("ursula", "pässwörd€ 2"), Ok(Some(stored)));
    assert!(matches!(v.into_result(), Err(AuthError::InvalidCredentials(Rejection::WrongPassword))));
}

#[test]
fn password_change_with_what_is_no_salt_stores_nothing() {
    let id = Uuid::from_u128(3);
    for salt in ["", "abc", "not a salt!", "c29tZX=="] {
        assert!(matches!(
            change_password(id, Secret::new("new secret".to_string()), salt),
            Err(AuthError::UnexpectedError(Fault::Hashing))
        ));
    }
}

#[test]
fn fresh_salts_are_twenty_two_characters_and_differ() {
    assert_eq!(SALT_LENGTH, 22);
    let first = fresh_salt();
    let second = fresh_salt();
    assert_ne!(first, second);
    for salt in [first, second] {
        assert_eq!(salt.len(), 22);
        assert!(salt.bytes().all(|b| b.is_ascii_alphanumeric() || b == b'+' || b == b'/'));
        assert!(change_password(Uuid::from_u128(1), Secret::new("x".to_string()), &salt).is_ok());
    }
}

#[test]
fn errors_have_words_for_the_log_and_few_for_the_caller() {
    assert_eq!(AuthError::InvalidCredentials(Rejection::WrongPassword).message(), "Invalid credentials.");
    assert_eq!(AuthError::InvalidCredentials(Rejection::UnknownUsername).message(), "Invalid credentials.");
    assert_eq!(AuthError::UnexpectedError(Fault::MalformedHashRecord).message(), "Something went wrong.");
    assert_eq!(Rejection::WrongPassword.message(), "Invalid password.");
    assert_eq!(Rejection::UnknownUsername.message(), "Unknown username.");
    assert_eq!(Fault::Datastore("pool closed".to_string()).message(), "pool closed");
    assert_eq!(Fault::MalformedHashRecord.message(), "Failed to parse hash in PHC string format.");
    assert_eq!(Fault::Hashing.message(), "Failed to hash the password.");
}

#[test]
fn secret_hands_out_exactly_what_it_took() {
    let secret = Secret::new("s3cr3t: with spaces".to_string());
    assert_eq!(secret.expose_secret(), "s3cr3t: with spaces");
}
