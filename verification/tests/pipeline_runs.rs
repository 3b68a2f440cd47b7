use auth_gateway::auth::{AppState, authenticate};
use auth_gateway::correlation::{CorrelationSequence, is_valid_correlation_id};
use auth_gateway::pipeline::{
    LoginEvent, LoginStatus, StatusClass, login_event_line, login_outcome, run_login_pipeline,
};
use auth_gateway::policy::LoginRequest;

fn configured_state() -> AppState {
    AppState {
        demo_email: Some("tester@example.com".to_string()),
        demo_password: Some("StrongPassword123!".to_string()),
    }
}

fn login_request(email: &str, password: &str) -> LoginRequest {
    LoginRequest { email: email.to_string(), password: password.to_string() }
}

#[test]
fn authentication_fails_closed_when_credentials_are_not_configured() {
    let request = login_request("tester@example.com", "StrongPassword123!");

    assert!(!authenticate(&request, &AppState { demo_email: None, demo_password: None }));
}

#[test]
fn authentication_fails_closed_when_either_field_is_missing() {
    let request = login_request("tester@example.com", "StrongPassword123!");
    let email_only = AppState {
        demo_email: Some("tester@example.com".to_string()),
        demo_password: None,
    };
    let password_only = AppState {
        demo_email: None,
        demo_password: Some("StrongPassword123!".to_string()),
    };
    assert!(!authenticate(&request, &email_only));
    assert!(!authenticate(&request, &password_only));
}

#[test]
fn authentication_ignores_email_case_and_surrounding_whitespace() {
    let state = configured_state();
    let request = login_request("  TESTER@Example.COM  ", "StrongPassword123!");
    assert!(authenticate(&request, &state));
}

#[test]
fn authentication_is_case_sensitive_for_passwords() {
    let state = configured_state();
    let request = login_request("tester@example.com", "strongpassword123!");
    assert!(!authenticate(&request, &state));
}

#[test]
fn from_values_treats_blank_settings_as_absent() {
    let request = login_request("tester@example.com", "StrongPassword123!");
    let state = AppState::from_values(Some("   ".to_string()), Some("StrongPassword123!".to_string()));
    assert!(!authenticate(&request, &state));

    let trimmed = AppState::from_values(
        Some("  tester@example.com  ".to_string()),
        Some("StrongPassword123!".to_string()),
    );
    assert!(authenticate(&request, &trimmed));
}

#[test]
fn login_pipeline_accepts_valid_credentials() {
    let state = configured_state();
    let mut sequence = CorrelationSequence::new();
    let request = login_request("tester@example.com", "StrongPassword123!");
    let (correlation_id, outcome) = run_login_pipeline(None, Some(request), &state, &mut sequence);

    assert!(is_valid_correlation_id(&correlation_id));
    assert_eq!(outcome.status, LoginStatus::Success);
    assert_eq!(outcome.message, "Login successful.");
    assert_eq!(outcome.next, Some("/auth/mfa"));
    assert_eq!(outcome.class, StatusClass::Success);
    assert_eq!(outcome.event, LoginEvent::Authenticated);
    assert_eq!(outcome.status.label(), "ok");
    assert_eq!(outcome.event.label(), "authenticated");
}

#[test]
fn login_pipeline_rejects_invalid_credentials() {
    let state = configured_state();
    let mut sequence = CorrelationSequence::new();
    let request = login_request("tester@example.com", "wrong-password1");
    let (_, outcome) = run_login_pipeline(None, Some(request), &state, &mut sequence);

    assert_eq!(outcome.status, LoginStatus::Error);
    assert_eq!(outcome.message, "Invalid email or password.");
    assert_eq!(outcome.next, None);
    assert_eq!(outcome.class, StatusClass::Unauthorized);
    assert_eq!(outcome.event, LoginEvent::AuthenticationFailed);
    assert_eq!(outcome.status.label(), "error");
    assert_eq!(outcome.event.label(), "authentication_failed");
}

#[test]
fn login_pipeline_rejects_invalid_email_input() {
    let state = configured_state();
    let mut sequence = CorrelationSequence::new();
    let request = login_request("invalid-email", "StrongPassword123!");
    let (_, outcome) = run_login_pipeline(None, Some(request), &state, &mut sequence);

    assert_eq!(outcome.status, LoginStatus::Error);
    assert_eq!(outcome.message, "Email must be a valid address.");
    assert_eq!(outcome.class, StatusClass::Unprocessable);
    assert_eq!(outcome.event, LoginEvent::ValidationFailed);
    assert_eq!(outcome.event.label(), "validation_failed");
}

#[test]
fn login_pipeline_rejects_malformed_payload() {
    let state = configured_state();
    let mut sequence = CorrelationSequence::new();
    let (correlation_id, outcome) = run_login_pipeline(Some("trace_1"), None, &state, &mut sequence);

    assert_eq!(correlation_id, "trace_1");
    assert_eq!(outcome.status, LoginStatus::Error);
    assert_eq!(outcome.message, "Malformed login payload.");
    assert_eq!(outcome.next, None);
    assert_eq!(outcome.class, StatusClass::BadRequest);
    assert_eq!(outcome.event, LoginEvent::PayloadRejected);
    assert_eq!(outcome.event.label(), "payload_rejected");
}

#[test]
fn login_pipeline_fails_closed_with_unconfigured_identity() {
    let state = AppState { demo_email: None, demo_password: None };
    let mut sequence = CorrelationSequence::new();
    let request = login_request("tester@example.com", "StrongPassword123!");
    let (_, outcome) = login_outcome_pair(request, &state, &mut sequence);

    assert_eq!(outcome.status, LoginStatus::Error);
    assert_eq!(outcome.message, "Invalid email or password.");
    assert_eq!(outcome.event, LoginEvent::AuthenticationFailed);
}

fn login_outcome_pair(
    request: LoginRequest,
    state: &AppState,
    sequence: &mut CorrelationSequence,
) -> (String, auth_gateway::pipeline::LoginOutcome) {
    run_login_pipeline(None, Some(request), state, sequence)
}

#[test]
fn login_outcome_alone_covers_every_terminal_state() {
    let state = configured_state();

    let malformed = login_outcome(None, &state);
    assert_eq!(malformed.status, LoginStatus::Error);
    assert_eq!(malformed.message, "Malformed login payload.");

    let rejected = login_outcome(Some(login_request("tester@example.com", "short")), &state);
    assert_eq!(rejected.message, "Password length is invalid.");

    let control = login_outcome(
        Some(login_request("tester@example.com", "Strong\u{7f}Password123!")),
        &state,
    );
    assert_eq!(control.message, "Password contains unsupported characters.");

    let accepted = login_outcome(
        Some(login_request("tester@example.com", "StrongPassword123!")),
        &state,
    );
    assert_eq!(accepted.status, LoginStatus::Success);
}

#[test]
fn login_event_line_has_the_structured_shape() {
    let line = login_event_line("req-1a-2b", LoginEvent::Authenticated);
    assert_eq!(
        line,
        "{\"event\":\"auth.login\",\"correlation_id\":\"req-1a-2b\",\"outcome\":\"authenticated\"}"
    );
    let rejected = login_event_line("trace_9", LoginEvent::PayloadRejected);
    assert_eq!(
        rejected,
        "{\"event\":\"auth.login\",\"correlation_id\":\"trace_9\",\"outcome\":\"payload_rejected\"}"
    );
}
