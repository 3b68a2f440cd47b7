//! The login submission shape and its validation: email syntax first, then
//! password length in bytes (8 to 128 inclusive), then rejection of control
//! characters in the password. The first failing rule decides the message.

use vstd::prelude::*;
use vstd::utf8::encode_utf8;
use crate::chars::{is_control_char, control_char};
use crate::email::{valid_email, is_valid_email};
use crate::text::{trim_spec, trim_str, chars_of};

verus! {

/// A credential submission exactly as it arrived: the password is never
/// trimmed or normalized.
pub struct LoginRequest {
    pub email: String,
    pub password: String,
}

/// The password length rule: 8 to 128 bytes of UTF-8, inclusive.
pub open spec fn password_length_ok(p: Seq<char>) -> bool {
    8 <= encode_utf8(p).len() <= 128
}

/// The password charset rule: no Unicode control character.
pub open spec fn password_chars_ok(p: Seq<char>) -> bool {
    forall|i: int| 0 <= i < p.len() ==> !is_control_char(#[trigger] p[i])
}

/// The first failing validation rule for a submission, if any. The email is
/// trimmed before the syntax check; rules run in order: email syntax,
/// password length, password charset.
pub open spec fn validation_error(email: Seq<char>, password: Seq<char>) -> Option<Seq<char>> {
    if !valid_email(trim_spec(email)) {
        Some("Email must be a valid address."@)
    } else if !password_length_ok(password) {
        Some("Password length is invalid."@)
    } else if !password_chars_ok(password) {
        Some("Password contains unsupported characters."@)
    } else {
        None
    }
}

/// Checks a submission against every validation rule, returning the message
/// of the first failing rule.
pub fn validate_login_request(request: &LoginRequest) -> (r: Result<(), &'static str>)
    ensures
        r is Ok <==> validation_error(request.email@, request.password@) is None,
        r matches Err(m) ==> validation_error(request.email@, request.password@) == Some(m@),
{
    let trimmed_email = trim_str(request.email.as_str());
    if !is_valid_email(trimmed_email) {
        return Err("Email must be a valid address.");
    }
    let byte_length = request.password.as_str().as_bytes().len();
    if byte_length < 8 || byte_length > 128 {
        return Err("Password length is invalid.");
    }
    let password_chars = chars_of(request.password.as_str());
    let n = password_chars.len();
    let mut i: usize = 0;
    while i < n
        invariant
            n == password_chars@.len(),
            password_chars@ == request.password@,
            i <= n,
            valid_email(trim_spec(request.email@)),
            password_length_ok(request.password@),
            forall|j: int| 0 <= j < i ==> !is_control_char(#[trigger] request.password@[j]),
        decreases n - i,
    {
        if control_char(password_chars[i]) {
            proof {
                assert(is_control_char(request.password@[i as int]));
            }
            return Err("Password contains unsupported characters.");
        }
        i = i + 1;
    }
    Ok(())
}

} // verus!
