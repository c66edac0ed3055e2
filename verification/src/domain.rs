//! What a subscriber is: a name and an email address that passed validation.

use vstd::prelude::*;
use vstd::string::StringExecFns;
use vstd::utf8::encode_utf8;
use crate::text::find_byte;
use crate::text::first_index_of;

verus! {

/// The byte of `@`.
pub open spec fn at_sign() -> u8 {
    0x40
}

/// A blank or a control character of ASCII.
pub open spec fn is_blank_or_control(b: u8) -> bool {
    b <= 0x20 || b == 0x7f
}

/// One of the characters that a name may not hold: `/ ( ) " < > \ { }`.
pub open spec fn is_forbidden_in_name(b: u8) -> bool {
    b == 0x2f || b == 0x28 || b == 0x29 || b == 0x22 || b == 0x3c || b == 0x3e || b == 0x5c || b
        == 0x7b || b == 0x7d
}

/// The rule for an email address, on its bytes: one `@`, with something
/// before it and something after it, and no blank or control character.
pub open spec fn is_valid_email(s: Seq<u8>) -> bool {
    let at = first_index_of(s, at_sign());
    &&& 0 < at
    &&& at + 1 < s.len()
    &&& !s.subrange(at + 1, s.len() as int).contains(at_sign())
    &&& forall|i: int| 0 <= i < s.len() ==> !is_blank_or_control(#[trigger] s[i])
}

/// The rule for a name, on its characters `chars` and their bytes `s`: at
/// most 256 characters, one of them at least neither blank nor control, and
/// none of them forbidden.
pub open spec fn is_valid_name(chars: Seq<char>, s: Seq<u8>) -> bool {
    &&& chars.len() <= 256
    &&& exists|i: int| 0 <= i < s.len() && !is_blank_or_control(#[trigger] s[i])
    &&& forall|i: int| 0 <= i < s.len() ==> !is_forbidden_in_name(#[trigger] s[i])
}

/// The text after the message's subject: why an address was refused.
pub open spec fn invalid_email_suffix() -> Seq<char> {
    " is not a valid subscriber email."@
}

/// The text after the message's subject: why a name was refused.
pub open spec fn invalid_name_suffix() -> Seq<char> {
    " is not a valid subscriber name."@
}

/// An email address that passed validation.
pub struct SubscriberEmail {
    text: String,
}

/// A subscriber's name that passed validation.
pub struct SubscriberName {
    text: String,
}

/// Who asks to subscribe.
pub struct NewSubscriber {
    pub email: SubscriberEmail,
    pub name: SubscriberName,
}

/// Whether any byte of `s` is a blank or a control character.
fn has_blank_or_control(s: &[u8]) -> (r: bool)
    ensures
        r == exists|i: int| 0 <= i < s@.len() && is_blank_or_control(#[trigger] s@[i]),
{
    let mut i: usize = 0;
    while i < s.len()
        invariant
            0 <= i <= s@.len(),
            forall|j: int| 0 <= j < i ==> !is_blank_or_control(#[trigger] s@[j]),
        decreases s@.len() - i,
    {
        if s[i] <= 0x20 || s[i] == 0x7f {
            return true;
        }
        i += 1;
    }
    false
}

/// Whether every byte of `s` is a blank or a control character.
fn is_blank(s: &[u8]) -> (r: bool)
    ensures
        r == !exists|i: int| 0 <= i < s@.len() && !is_blank_or_control(#[trigger] s@[i]),
{
    let mut i: usize = 0;
    while i < s.len()
        invariant
            0 <= i <= s@.len(),
            forall|j: int| 0 <= j < i ==> is_blank_or_control(#[trigger] s@[j]),
        decreases s@.len() - i,
    {
        if !(s[i] <= 0x20 || s[i] == 0x7f) {
            return false;
        }
        i += 1;
    }
    true
}

/// Whether any byte of `s` is forbidden in a name.
fn has_forbidden(s: &[u8]) -> (r: bool)
    ensures
        r == exists|i: int| 0 <= i < s@.len() && is_forbidden_in_name(#[trigger] s@[i]),
{
    let mut i: usize = 0;
    while i < s.len()
        invariant
            0 <= i <= s@.len(),
            forall|j: int| 0 <= j < i ==> !is_forbidden_in_name(#[trigger] s@[j]),
        decreases s@.len() - i,
    {
        let b = s[i];
        if b == 0x2f || b == 0x28 || b == 0x29 || b == 0x22 || b == 0x3c || b == 0x3e || b == 0x5c
            || b == 0x7b || b == 0x7d {
            return true;
        }
        i += 1;
    }
    false
}

/// Whether the bytes are an email address by the rule above.
pub fn check_email(s: &[u8]) -> (r: bool)
    ensures
        r == is_valid_email(s@),
{
    let at = find_byte(s, 0x40);
    if at == 0 || at >= s.len() || at + 1 >= s.len() {
        return false;
    }
    let ghost rest = s@.subrange(at + 1, s@.len() as int);
    let mut i: usize = at + 1;
    while i < s.len()
        invariant
            at + 1 <= i <= s@.len(),
            rest == s@.subrange(at + 1, s@.len() as int),
            at == first_index_of(s@, at_sign()),
            forall|j: int| at + 1 <= j < i ==> s@[j] != at_sign(),
        decreases s@.len() - i,
    {
        if s[i] == 0x40 {
            assert(rest[i - at - 1] == at_sign());
            assert(rest.contains(at_sign()));
            return false;
        }
        i += 1;
    }
    assert(!rest.contains(at_sign())) by {
        if rest.contains(at_sign()) {
            let j = choose|j: int| 0 <= j < rest.len() && rest[j] == at_sign();
            assert(s@[j + at + 1] == at_sign());
        }
    }
    !has_blank_or_control(s)
}

impl View for SubscriberEmail {
    type V = Seq<char>;

    closed spec fn view(&self) -> Seq<char> {
        self.text@
    }
}

impl SubscriberEmail {
    #[verifier::type_invariant]
    spec fn validated(&self) -> bool {
        is_valid_email(encode_utf8(self.text@))
    }

    /// Accepts `s` if it is an email address by the rule of
    /// `is_valid_email`; refuses it with a message that names it otherwise.
    pub fn parse(s: String) -> (r: Result<SubscriberEmail, String>)
        ensures
            match r {
                Ok(email) => is_valid_email(encode_utf8(s@)) && email@ == s@,
                Err(message) => !is_valid_email(encode_utf8(s@)) && message@ == s@
                    + invalid_email_suffix(),
            },
    {
        if check_email(s.as_str().as_bytes()) {
            Ok(SubscriberEmail { text: s })
        } else {
            Err(s.concat(" is not a valid subscriber email."))
        }
    }

    /// The address as text. It is valid: no value of this type holds
    /// anything else.
    pub fn as_str(&self) -> (text: &str)
        ensures
            text@ == self@,
            is_valid_email(encode_utf8(self@)),
    {
        proof {
            use_type_invariant(self);
        }
        self.text.as_str()
    }

    /// A second value for the same address.
    pub fn duplicate(&self) -> (copy: SubscriberEmail)
        ensures
            copy@ == self@,
    {
        proof {
            use_type_invariant(self);
        }
        SubscriberEmail { text: self.text.clone() }
    }
}

impl View for SubscriberName {
    type V = Seq<char>;

    closed spec fn view(&self) -> Seq<char> {
        self.text@
    }
}

impl SubscriberName {
    #[verifier::type_invariant]
    spec fn validated(&self) -> bool {
        is_valid_name(self.text@, encode_utf8(self.text@))
    }

    /// Accepts `s` if it is a name by the rule of `is_valid_name`; refuses
    /// it with a message that names it otherwise.
    pub fn parse(s: String) -> (r: Result<SubscriberName, String>)
        ensures
            match r {
                Ok(name) => is_valid_name(s@, encode_utf8(s@)) && name@ == s@,
                Err(message) => !is_valid_name(s@, encode_utf8(s@)) && message@ == s@
                    + invalid_name_suffix(),
            },
    {
        let too_long = s.as_str().unicode_len() > 256;
        let blank = is_blank(s.as_str().as_bytes());
        let forbidden = has_forbidden(s.as_str().as_bytes());
        if too_long || blank || forbidden {
            Err(s.concat(" is not a valid subscriber name."))
        } else {
            Ok(SubscriberName { text: s })
        }
    }

    /// The name as text. It is valid: no value of this type holds anything
    /// else.
    pub fn as_str(&self) -> (text: &str)
        ensures
            text@ == self@,
            is_valid_name(self@, encode_utf8(self@)),
    {
        proof {
            use_type_invariant(self);
        }
        self.text.as_str()
    }
}

} // verus!
