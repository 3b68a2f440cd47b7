use auth_gateway::policy::{LoginRequest, validate_login_request};
use auth_gateway::email::is_valid_email;

fn login_request(email: &str, password: &str) -> LoginRequest {
    LoginRequest { email: email.to_string(), password: password.to_string() }
}

#[test]
fn validate_login_request_accepts_valid_input() {
    let request = login_request("tester@example.com", "StrongPassword123!");
    assert!(validate_login_request(&request).is_ok());
}

#[test]
fn validate_login_request_rejects_invalid_email() {
    let request = login_request("not-an-email", "StrongPassword123!");
    let error = validate_login_request(&request).expect_err("email should be rejected");
    assert_eq!(error, "Email must be a valid address.");
}

#[test]
fn validate_login_request_rejects_short_password_boundary() {
    let request = login_request("tester@example.com", &"a".repeat(7));
    let error = validate_login_request(&request).expect_err("short password should be rejected");
    assert_eq!(error, "Password length is invalid.");
}

#[test]
fn validate_login_request_rejects_long_password_boundary() {
    let request = login_request("tester@example.com", &"a".repeat(129));
    let error = validate_login_request(&request).expect_err("long password should be rejected");
    assert_eq!(error, "Password length is invalid.");
}

#[test]
fn validate_login_request_rejects_control_character_password() {
    let request = login_request("tester@example.com", "Strong\nPassword123!");
    let error = validate_login_request(&request)
        .expect_err("password with control characters should be rejected");
    assert_eq!(error, "Password contains unsupported characters.");
}

#[test]
fn validate_login_request_accepts_password_length_boundaries() {
    let short = login_request("tester@example.com", &"a".repeat(8));
    assert!(validate_login_request(&short).is_ok());
    let long = login_request("tester@example.com", &"a".repeat(128));
    assert!(validate_login_request(&long).is_ok());
}

#[test]
fn validate_login_request_trims_submitted_email() {
    let request = login_request("  tester@example.com  ", "StrongPassword123!");
    assert!(validate_login_request(&request).is_ok());
}

#[test]
fn is_valid_email_rejects_common_invalid_formats() {
    let invalid_emails = [
        "missing-at-sign.example.com",
        "double@@example.com",
        "user@example",
        ".leadingdot@example.com",
        "user@-example.com",
        "user@example..com",
    ];

    for invalid in invalid_emails {
        assert!(!is_valid_email(invalid), "expected invalid email: {invalid}");
    }
}

#[test]
fn is_valid_email_accepts_ordinary_address() {
    assert!(is_valid_email("tester@example.com"));
}

#[test]
fn is_valid_email_rejects_more_malformed_inputs() {
    let invalid_emails = [
        "",
        "a@b",
        "user@example.com ",
        "user name@example.com",
        "trailingdot.@example.com",
        "user..name@example.com",
        "user@example.com.",
        "user@example-.com",
        "user@exa_mple.com",
        "us\u{00e9}r@example.com",
    ];

    for invalid in invalid_emails {
        assert!(!is_valid_email(invalid), "expected invalid email: {invalid:?}");
    }
}

#[test]
fn is_valid_email_enforces_local_part_length_boundary() {
    let local_63 = format!("{}@example.com", "a".repeat(63));
    let local_64 = format!("{}@example.com", "a".repeat(64));
    let local_65 = format!("{}@example.com", "a".repeat(65));
    assert!(is_valid_email(&local_63));
    assert!(is_valid_email(&local_64));
    assert!(!is_valid_email(&local_65));
}

#[test]
fn is_valid_email_enforces_label_length_boundary() {
    let label_63 = format!("user@{}.com", "a".repeat(63));
    let label_64 = format!("user@{}.com", "a".repeat(64));
    assert!(is_valid_email(&label_63));
    assert!(!is_valid_email(&label_64));
}

#[test]
fn is_valid_email_enforces_total_length_boundary() {
    // 64-character local part, 189-character domain of labels within bounds:
    // 254 characters in all, the largest acceptable address
    let domain_189 = format!("{}.{}.{}", "a".repeat(63), "a".repeat(63), "a".repeat(61));
    let total_254 = format!("{}@{}", "a".repeat(64), domain_189);
    assert_eq!(total_254.len(), 254);
    assert!(is_valid_email(&total_254));

    let domain_190 = format!("{}.{}.{}", "a".repeat(63), "a".repeat(63), "a".repeat(62));
    let total_255 = format!("{}@{}", "a".repeat(64), domain_190);
    assert_eq!(total_255.len(), 255);
    assert!(!is_valid_email(&total_255));
}
