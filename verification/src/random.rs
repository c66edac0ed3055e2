//! Random tokens: subscription tokens and session identifiers.

use vstd::prelude::*;
use rand::Rng;
use crate::text::ascii_text;
use crate::text::lemma_ascii_bytes_are_text;
use crate::text::string_from_utf8;

verus! {

/// `rand::rngs::ThreadRng`: the generator, of which nothing is known but
/// what each draw promises.
#[verifier::external_type_specification]
#[verifier::external_body]
pub struct ExThreadRng(rand::rngs::ThreadRng);

/// A digit or a letter of ASCII.
pub open spec fn is_alphanumeric(b: u8) -> bool {
    (0x30 <= b <= 0x39) || (0x41 <= b <= 0x5a) || (0x61 <= b <= 0x7a)
}

/// A digit or a letter of ASCII, as a character.
pub open spec fn is_alphanumeric_char(c: char) -> bool {
    ('0' <= c <= '9') || ('A' <= c <= 'Z') || ('a' <= c <= 'z')
}

/// Text of exactly `len` characters, each a digit or a letter of ASCII.
pub open spec fn is_token(text: Seq<char>, len: nat) -> bool {
    &&& text.len() == len
    &&& forall|i: int| 0 <= i < text.len() ==> is_alphanumeric_char(#[trigger] text[i])
}

/// `rand::thread_rng`: this thread's generator, seeded by the system. It
/// needs the system's source of randomness to be there.
#[verifier::external_body]
fn thread_generator() -> rand::rngs::ThreadRng {
    rand::thread_rng()
}

/// `rand::Rng::sample` with `rand::distributions::Alphanumeric`: one byte
/// out of `a-z`, `A-Z` and `0-9`. Which one is not said.
#[verifier::external_body]
fn sample_alphanumeric(rng: &mut rand::rngs::ThreadRng) -> (b: u8)
    ensures
        is_alphanumeric(b),
{
    rng.sample(rand::distributions::Alphanumeric)
}

/// A character of the alphabet that salts are written in: a letter, a
/// digit, `+` or `/`.
pub open spec fn is_salt_char(c: char) -> bool {
    is_alphanumeric_char(c) || c == '+' || c == '/'
}

/// How long a fresh salt is: 16 bytes written as 22 characters.
pub const SALT_LENGTH: usize = 22;

/// Text of `SALT_LENGTH` characters of the salt alphabet.
pub open spec fn is_salt(text: Seq<char>) -> bool {
    &&& text.len() == SALT_LENGTH
    &&& forall|i: int| 0 <= i < text.len() ==> is_salt_char(#[trigger] text[i])
}

/// `argon2::password_hash::SaltString::generate`, written out as text: 16
/// bytes from the generator in unpadded base64. Which bytes is not said.
#[verifier::external_body]
fn generate_salt(rng: &mut rand::rngs::ThreadRng) -> (salt: String)
    ensures
        is_salt(salt@),
{
    argon2::password_hash::SaltString::generate(rng).as_str().to_string()
}

/// A fresh random salt for hashing a password.
pub fn fresh_salt() -> (salt: String)
    ensures
        is_salt(salt@),
{
    let mut rng = thread_generator();
    generate_salt(&mut rng)
}

/// A random token of `len` letters and digits.
pub fn random_token(len: usize) -> (token: String)
    ensures
        is_token(token@, len as nat),
{
    let mut rng = thread_generator();
    let mut bytes: Vec<u8> = Vec::new();
    while bytes.len() < len
        invariant
            bytes@.len() <= len,
            forall|i: int| 0 <= i < bytes@.len() ==> is_alphanumeric(bytes@[i]),
        decreases len - bytes@.len(),
    {
        let b = sample_alphanumeric(&mut rng);
        bytes.push(b);
    }
    proof {
        lemma_ascii_bytes_are_text(bytes@);
        assert forall|i: int| 0 <= i < bytes@.len() implies is_alphanumeric_char(
            #[trigger] ascii_text(bytes@)[i],
        ) by {
            assert(ascii_text(bytes@)[i] == bytes@[i] as char);
            assert(is_alphanumeric(bytes@[i]));
        }
    }
    match string_from_utf8(bytes) {
        Ok(token) => token,
        Err(_) => {
            proof {
                assert(false);
            }
            String::new()
        },
    }
}

} // verus!
