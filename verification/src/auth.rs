//! The configured identity and the authentication decision. Authentication
//! fails closed: it never succeeds unless both identity fields are present.
//! The email comparison is ASCII case-insensitive on trimmed values; the
//! password comparison is exact, byte for byte, in constant time.

use vstd::prelude::*;
use crate::compare::constant_time_eq;
use crate::policy::LoginRequest;
use crate::text::{trim_spec, trim_str, eq_ignore_ascii_case_spec, eq_ignore_ascii_case_str};

verus! {

/// The single identity the gateway authenticates against, loaded once at
/// process start and immutable afterwards. An absent field disables
/// authentication entirely.
pub struct AppState {
    pub demo_email: Option<String>,
    pub demo_password: Option<String>,
}

/// How a raw configuration value is cleaned: trimmed, and discarded when
/// absent or blank.
pub open spec fn cleaned_setting(raw: Option<String>, out: Option<String>) -> bool {
    match raw {
        Option::None => out is None,
        Option::Some(value) => if trim_spec(value@).len() == 0 {
            out is None
        } else {
            out matches Some(kept) && kept@ == trim_spec(value@)
        },
    }
}

/// Whether the submission matches the configured identity: both fields
/// configured, emails equal up to ASCII case after trimming, passwords
/// exactly equal.
pub open spec fn spec_authenticate(request: &LoginRequest, state: &AppState) -> bool {
    match (state.demo_email, state.demo_password) {
        (Option::Some(configured_email), Option::Some(configured_password)) => {
            &&& eq_ignore_ascii_case_spec(trim_spec(request.email@), trim_spec(configured_email@))
            &&& request.password@ == configured_password@
        },
        _ => false,
    }
}

fn cleaned(raw: Option<String>) -> (out: Option<String>)
    ensures
        cleaned_setting(raw, out),
{
    match raw {
        Option::None => Option::None,
        Option::Some(value) => {
            let trimmed = trim_str(value.as_str());
            if trimmed.is_empty() {
                Option::None
            } else {
                Option::Some(trimmed.to_owned())
            }
        },
    }
}

impl AppState {
    /// Builds the identity from two raw configuration values, trimming each
    /// and treating a blank one as absent.
    pub fn from_values(demo_email: Option<String>, demo_password: Option<String>) -> (state: Self)
        ensures
            cleaned_setting(demo_email, state.demo_email),
            cleaned_setting(demo_password, state.demo_password),
    {
        AppState { demo_email: cleaned(demo_email), demo_password: cleaned(demo_password) }
    }
}

/// With either identity field absent, no submission authenticates,
/// whatever its credentials: the gateway fails closed.
pub proof fn lemma_authentication_fails_closed(request: &LoginRequest, state: &AppState)
    requires
        state.demo_email is None || state.demo_password is None,
    ensures
        !spec_authenticate(request, state),
{
}

/// Decides the submission against the configured identity. Fails closed
/// without any comparison when either identity field is absent.
pub fn authenticate(request: &LoginRequest, state: &AppState) -> (r: bool)
    ensures
        r == spec_authenticate(request, state),
{
    let configured_email = match &state.demo_email {
        Option::Some(value) => trim_str(value.as_str()),
        Option::None => {
            return false;
        },
    };
    let configured_password = match &state.demo_password {
        Option::Some(value) => value,
        Option::None => {
            return false;
        },
    };
    let submitted_email = trim_str(request.email.as_str());
    if !eq_ignore_ascii_case_str(submitted_email, configured_email) {
        return false;
    }
    let passwords_equal = constant_time_eq(
        request.password.as_str().as_bytes(),
        configured_password.as_str().as_bytes(),
    );
    proof {
        // byte-sequence equality coincides with character-sequence equality,
        // since UTF-8 encoding is injective
        vstd::utf8::encode_utf8_decode_utf8(request.password@);
        vstd::utf8::encode_utf8_decode_utf8(configured_password@);
    }
    passwords_equal
}

} // verus!
