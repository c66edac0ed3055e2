use zero2prod::authentication::password::basic_authentication;
use zero2prod::authentication::password::credentials_from_payload;
use zero2prod::authentication::password::encoded_segment;
use zero2prod::authentication::password::MalformedCause;
use zero2prod::authentication::password::MalformedCredentials;
use zero2prod::headers::Header;
use zero2prod::headers::HeaderList;

fn with_authorization(name: &str, value: &[u8]) -> HeaderList {
    let mut headers = HeaderList::new();
    headers.append(Header::new("Content-Type", b"application/json"));
    headers.append(Header::new(name, value));
    headers
}

fn basic(payload: &[u8]) -> HeaderList {
    let value = format!("Basic {}", base64::encode(payload));
    with_authorization("Authorization", value.as_bytes())
}

#[test]
fn well_formed_header_yields_both_parts() {
    let credentials = basic_authentication(&basic(b"ursula:hunter2")).unwrap();
    assert_eq!(credentials.username, "ursula");
    assert_eq!(credentials.password.expose_secret(), "hunter2");
}

#[test]
fn known_header_value_is_decoded() {
    let headers = with_authorization("Authorization", b"Basic dXNlcjpwYXNz");
    let credentials = basic_authentication(&headers).unwrap();
    assert_eq!(credentials.username, "user");
    assert_eq!(credentials.password.expose_secret(), "pass");
}

#[test]
fn secret_may_hold_colons() {
    let credentials = basic_authentication(&basic(b"ursula:a:b::c")).unwrap();
    assert_eq!(credentials.username, "ursula");
    assert_eq!(credentials.password.expose_secret(), "a:b::c");
}

#[test]
fn empty_username_and_empty_secret_are_accepted() {
    let credentials = basic_authentication(&basic(b":")).unwrap();
    assert_eq!(credentials.username, "");
    assert_eq!(credentials.password.expose_secret(), "");
}

#[test]
fn text_beyond_ascii_is_kept() {
    let credentials = basic_authentication(&basic("zoë:pässwörd€".as_bytes())).unwrap();
    assert_eq!(credentials.username, "zoë");
    assert_eq!(credentials.password.expose_secret(), "pässwörd€");
}

#[test]
fn header_name_is_matched_without_regard_to_case() {
    let headers = with_authorization("aUTHORIZATION", b"Basic dXNlcjpwYXNz");
    let credentials = basic_authentication(&headers).unwrap();
    assert_eq!(credentials.username, "user");
}

#[test]
fn first_authorization_header_wins() {
    let mut headers = with_authorization("Authorization", b"Basic dXNlcjpwYXNz");
    headers.append(Header::new("Authorization", b"Bearer abc"));
    let credentials = basic_authentication(&headers).unwrap();
    assert_eq!(credentials.username, "user");
}

#[test]
fn missing_header_is_malformed() {
    let mut headers = HeaderList::new();
    headers.append(Header::new("Accept", b"*/*"));
    let error = basic_authentication(&headers).err().unwrap();
    assert_eq!(error.cause, MalformedCause::MissingHeader);
    let error = basic_authentication(&HeaderList::new()).err().unwrap();
    assert_eq!(error.cause, MalformedCause::MissingHeader);
}

#[test]
fn header_that_is_not_utf8_is_malformed() {
    let headers = with_authorization("Authorization", &[0x42, 0x61, 0x73, 0x69, 0x63, 0x20, 0xff]);
    let error = basic_authentication(&headers).err().unwrap();
    assert_eq!(error.cause, MalformedCause::HeaderNotUtf8);
}

#[test]
fn other_scheme_is_malformed() {
    for value in [&b"Bearer dXNlcjpwYXNz"[..], b"basic dXNlcjpwYXNz", b"BasicdXNlcjpwYXNz", b"", b"Basic"] {
        let error = basic_authentication(&with_authorization("Authorization", value)).err().unwrap();
        assert_eq!(error.cause, MalformedCause::WrongScheme);
    }
}

#[test]
fn invalid_base64_is_malformed() {
    for value in [&b"Basic dXNlcjpwYXNz!"[..], b"Basic dXNlcjpwYXN", b"Basic  dXNlcjpwYXNz", b"Basic dXNlcjpw YXNz"] {
        let error = basic_authentication(&with_authorization("Authorization", value)).err().unwrap();
        assert_eq!(error.cause, MalformedCause::InvalidBase64);
    }
}

#[test]
fn url_safe_alphabet_is_not_standard_base64() {
    let payload = [0xfb, 0xff, 0x3a, 0x61];
    let standard = format!("Basic {}", base64::encode(payload));
    let url_safe = format!("Basic {}", base64::encode_config(payload, base64::URL_SAFE));
    assert_ne!(standard, url_safe);
    let error = basic_authentication(&with_authorization("Authorization", url_safe.as_bytes()))
        .err()
        .unwrap();
    assert_eq!(error.cause, MalformedCause::InvalidBase64);
}

#[test]
fn payload_that_is_not_utf8_is_malformed() {
    let error = basic_authentication(&basic(&[0x75, 0x3a, 0xff, 0xfe])).err().unwrap();
    assert_eq!(error.cause, MalformedCause::CredentialsNotUtf8);
    let error = basic_authentication(&basic(&[0xc3, 0x28])).err().unwrap();
    assert_eq!(error.cause, MalformedCause::CredentialsNotUtf8);
}

#[test]
fn payload_without_colon_is_malformed() {
    let error = basic_authentication(&basic(b"ursulahunter2")).err().unwrap();
    assert_eq!(error.cause, MalformedCause::MissingSeparator);
    let error = basic_authentication(&basic(b"")).err().unwrap();
    assert_eq!(error.cause, MalformedCause::MissingSeparator);
}

#[test]
fn encoded_segment_is_what_follows_the_scheme() {
    let headers = with_authorization("Authorization", b"Basic dXNlcjpwYXNz");
    assert_eq!(encoded_segment(&headers).unwrap(), b"dXNlcjpwYXNz".to_vec());
    let headers = with_authorization("Authorization", b"Basic ");
    assert_eq!(encoded_segment(&headers).unwrap(), Vec::<u8>::new());
}

#[test]
fn payload_is_split_at_its_first_colon() {
    let credentials = credentials_from_payload(b"a:b:c".to_vec()).unwrap();
    assert_eq!(credentials.username, "a");
    assert_eq!(credentials.password.expose_secret(), "b:c");
    let error = credentials_from_payload(b"abc".to_vec()).err().unwrap();
    assert_eq!(error.cause, MalformedCause::MissingSeparator);
    let error = credentials_from_payload(vec![0x80]).err().unwrap();
    assert_eq!(error.cause, MalformedCause::CredentialsNotUtf8);
}

#[test]
fn header_lookup_returns_the_first_value_of_a_name() {
    let mut headers = HeaderList::new();
    headers.append(Header::new("X-One", b"1"));
    headers.append(Header::new("x-one", b"2"));
    assert_eq!(headers.get(b"X-ONE"), Some(&b"1".to_vec()));
    assert_eq!(headers.get(b"x-two"), None);
}

#[test]
fn every_cause_has_its_words() {
    assert_eq!(MalformedCause::MissingHeader.message(), "The 'Authorization' header was missing.");
    assert_eq!(MalformedCause::HeaderNotUtf8.message(), "The 'Authorization' header was not a valid UTF8 string.");
    assert_eq!(MalformedCause::WrongScheme.message(), "The Authorization scheme was not 'Basic'.");
    assert_eq!(MalformedCause::InvalidBase64.message(), "Failed to decode base64 Basic credentials.");
    assert_eq!(MalformedCause::CredentialsNotUtf8.message(), "Failed to decode credentials.");
    assert_eq!(MalformedCause::MissingSeparator.message(), "A password must be provided in Basic auth.");
    let error = MalformedCredentials { cause: MalformedCause::WrongScheme };
    assert_eq!(error.message(), "The Authorization scheme was not 'Basic'.");
}
