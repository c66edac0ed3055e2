//! Secret text that never leaves its wrapper except through one explicit call.

use vstd::prelude::*;
use secrecy::ExposeSecret;

verus! {

/// A secret string. It has no `Debug`, no `Clone` and no conversion to text;
/// its memory is wiped when it is dropped. The text inside is reached only
/// through [`Secret::expose_secret`].
#[verifier::external_body]
pub struct Secret {
    inner: secrecy::Secret<String>,
}

/// The text that a secret holds.
pub uninterp spec fn secret_text(secret: Secret) -> Seq<char>;

/// `secrecy::Secret::new`: takes ownership of the text; the secret holds
/// exactly that text.
#[verifier::external_body]
fn seal(text: String) -> (secret: Secret)
    ensures
        secret_text(secret) == text@,
{
    Secret { inner: secrecy::Secret::new(text) }
}

/// `secrecy::ExposeSecret::expose_secret`: a reference to the text held.
#[verifier::external_body]
fn unseal(secret: &Secret) -> (text: &String)
    ensures
        text@ == secret_text(*secret),
{
    secret.inner.expose_secret()
}

impl View for Secret {
    type V = Seq<char>;

    open spec fn view(&self) -> Seq<char> {
        secret_text(*self)
    }
}

impl Secret {
    /// Wraps `text`; from here on it is reached only through `expose_secret`.
    pub fn new(text: String) -> (secret: Secret)
        ensures
            secret@ == text@,
    {
        seal(text)
    }

    /// The one place where the text is handed out.
    pub fn expose_secret(&self) -> (text: &String)
        ensures
            text@ == self@,
    {
        unseal(self)
    }
}

} // verus!
