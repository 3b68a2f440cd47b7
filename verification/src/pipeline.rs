//! The login pipeline: one strictly sequential run per request, terminal on
//! the first failure. The correlation id is resolved first; a payload that
//! could not be parsed is rejected with a fixed message; a submission is
//! then validated and authenticated, and every path yields exactly one
//! outcome carrying the status class and the event to log.

use vstd::prelude::*;
use crate::auth::{AppState, spec_authenticate, authenticate};
use crate::correlation::{
    CorrelationSequence,
    correlation_id_from,
    valid_correlation_id,
    resolved_id,
    spec_header_view,
};
use crate::policy::{LoginRequest, validation_error, validate_login_request};

verus! {

/// The status of a completed pipeline run.
#[derive(PartialEq, Eq, Structural, Clone, Copy, Debug)]
pub enum LoginStatus {
    Success,
    Error,
}

/// The class of transport status an outcome maps to; the transport adapter
/// turns it into a concrete status code.
#[derive(PartialEq, Eq, Structural, Clone, Copy, Debug)]
pub enum StatusClass {
    Success,
    BadRequest,
    Unprocessable,
    Unauthorized,
}

/// The event recorded for a completed run.
#[derive(PartialEq, Eq, Structural, Clone, Copy, Debug)]
pub enum LoginEvent {
    PayloadRejected,
    ValidationFailed,
    AuthenticationFailed,
    Authenticated,
}

/// The terminal outcome of one pipeline run.
pub struct LoginOutcome {
    pub status: LoginStatus,
    pub message: &'static str,
    pub next: Option<&'static str>,
    pub class: StatusClass,
    pub event: LoginEvent,
}

/// The wire label of a status.
pub open spec fn spec_status_label(status: LoginStatus) -> Seq<char> {
    match status {
        LoginStatus::Success => "ok"@,
        LoginStatus::Error => "error"@,
    }
}

/// The `outcome` field a logged event carries.
pub open spec fn spec_event_label(event: LoginEvent) -> Seq<char> {
    match event {
        LoginEvent::PayloadRejected => "payload_rejected"@,
        LoginEvent::ValidationFailed => "validation_failed"@,
        LoginEvent::AuthenticationFailed => "authentication_failed"@,
        LoginEvent::Authenticated => "authenticated"@,
    }
}

impl LoginStatus {
    /// The wire label of the status.
    pub fn label(&self) -> (s: &'static str)
        ensures
            s@ == spec_status_label(*self),
    {
        match self {
            LoginStatus::Success => "ok",
            LoginStatus::Error => "error",
        }
    }
}

impl LoginEvent {
    /// The `outcome` field of the structured log event.
    pub fn label(&self) -> (s: &'static str)
        ensures
            s@ == spec_event_label(*self),
    {
        match self {
            LoginEvent::PayloadRejected => "payload_rejected",
            LoginEvent::ValidationFailed => "validation_failed",
            LoginEvent::AuthenticationFailed => "authentication_failed",
            LoginEvent::Authenticated => "authenticated",
        }
    }
}

/// The outcome owed to a request: a missing payload is rejected as
/// malformed; a submission failing validation carries the first failing
/// rule's message; an authenticated submission succeeds with the next-step
/// hint; everything else is answered with one generic failure message.
pub open spec fn outcome_for(o: LoginOutcome, payload: Option<LoginRequest>, state: &AppState) -> bool {
    match payload {
        Option::None => {
            &&& o.status == LoginStatus::Error
            &&& o.message@ == "Malformed login payload."@
            &&& o.next is None
            &&& o.class == StatusClass::BadRequest
            &&& o.event == LoginEvent::PayloadRejected
        },
        Option::Some(request) => match validation_error(request.email@, request.password@) {
            Option::Some(message) => {
                &&& o.status == LoginStatus::Error
                &&& o.message@ == message
                &&& o.next is None
                &&& o.class == StatusClass::Unprocessable
                &&& o.event == LoginEvent::ValidationFailed
            },
            Option::None => if spec_authenticate(&request, state) {
                &&& o.status == LoginStatus::Success
                &&& o.message@ == "Login successful."@
                &&& (o.next matches Some(hint) && hint@ == "/auth/mfa"@)
                &&& o.class == StatusClass::Success
                &&& o.event == LoginEvent::Authenticated
            } else {
                &&& o.status == LoginStatus::Error
                &&& o.message@ == "Invalid email or password."@
                &&& o.next is None
                &&& o.class == StatusClass::Unauthorized
                &&& o.event == LoginEvent::AuthenticationFailed
            },
        },
    }
}

/// Decides the outcome for a parsed (or unparseable) payload: validation
/// always runs before authentication, and the first failure is terminal.
pub fn login_outcome(payload: Option<LoginRequest>, state: &AppState) -> (o: LoginOutcome)
    ensures
        outcome_for(o, payload, state),
{
    let request = match payload {
        Option::Some(request) => request,
        Option::None => {
            return LoginOutcome {
                status: LoginStatus::Error,
                message: "Malformed login payload.",
                next: Option::None,
                class: StatusClass::BadRequest,
                event: LoginEvent::PayloadRejected,
            };
        },
    };
    match validate_login_request(&request) {
        Result::Err(message) => LoginOutcome {
            status: LoginStatus::Error,
            message,
            next: Option::None,
            class: StatusClass::Unprocessable,
            event: LoginEvent::ValidationFailed,
        },
        Result::Ok(()) => {
            if authenticate(&request, state) {
                LoginOutcome {
                    status: LoginStatus::Success,
                    message: "Login successful.",
                    next: Option::Some("/auth/mfa"),
                    class: StatusClass::Success,
                    event: LoginEvent::Authenticated,
                }
            } else {
                LoginOutcome {
                    status: LoginStatus::Error,
                    message: "Invalid email or password.",
                    next: Option::None,
                    class: StatusClass::Unauthorized,
                    event: LoginEvent::AuthenticationFailed,
                }
            }
        },
    }
}

/// Runs one full pipeline pass: resolves the correlation id, then decides
/// the outcome. The id is attached to the outcome by the caller on every
/// path, success or not.
pub fn run_login_pipeline(
    header_value: Option<&str>,
    payload: Option<LoginRequest>,
    state: &AppState,
    sequence: &mut CorrelationSequence,
) -> (r: (String, LoginOutcome))
    requires
        old(sequence).next < u64::MAX,
    ensures
        valid_correlation_id(r.0@),
        resolved_id(r.0@, spec_header_view(header_value), *old(sequence), *final(sequence)),
        outcome_for(r.1, payload, state),
{
    let correlation_id = correlation_id_from(header_value, sequence);
    let outcome = login_outcome(payload, state);
    (correlation_id, outcome)
}

/// The one structured log line a completed run emits: a fixed event name,
/// the resolved correlation id, and the outcome's event label.
pub open spec fn event_line(correlation_id: Seq<char>, outcome_label: Seq<char>) -> Seq<char> {
    "{\"event\":\"auth.login\",\"correlation_id\":\""@ + correlation_id + "\",\"outcome\":\""@
        + outcome_label + "\"}"@
}

/// Renders the structured log line for one completed run.
pub fn login_event_line(correlation_id: &str, event: LoginEvent) -> (line: String)
    ensures
        line@ == event_line(correlation_id@, spec_event_label(event)),
{
    let mut line = String::from_str("{\"event\":\"auth.login\",\"correlation_id\":\"");
    line.append(correlation_id);
    line.append("\",\"outcome\":\"");
    line.append(event.label());
    line.append("\"}");
    proof {
        assert(line@ =~= event_line(correlation_id@, spec_event_label(event)));
    }
    line
}

/// With an unconfigured identity — either field absent — no submission
/// authenticates, and every pipeline outcome is an error, whatever the
/// submitted credentials were.
pub proof fn lemma_pipeline_fails_closed(
    o: LoginOutcome,
    payload: Option<LoginRequest>,
    state: &AppState,
)
    requires
        state.demo_email is None || state.demo_password is None,
        outcome_for(o, payload, state),
    ensures
        o.status == LoginStatus::Error,
{
}

} // verus!
