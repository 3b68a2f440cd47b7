use auth_gateway::compare::constant_time_eq;

#[test]
fn constant_time_eq_returns_true_for_identical_inputs() {
    assert!(constant_time_eq(b"StrongPassword123!", b"StrongPassword123!"));
}

#[test]
fn constant_time_eq_returns_false_for_mismatched_inputs() {
    let mismatches = [("abc123", "abc124"), ("short", "shorter"), ("different", "DIFFERENT")];

    for (left, right) in mismatches {
        assert!(
            !constant_time_eq(left.as_bytes(), right.as_bytes()),
            "expected mismatch for {left} vs {right}"
        );
    }
}

#[test]
fn constant_time_eq_handles_empty_operands() {
    assert!(constant_time_eq(b"", b""));
    assert!(!constant_time_eq(b"", b"a"));
    assert!(!constant_time_eq(b"a", b""));
}

#[test]
fn constant_time_eq_detects_mismatch_at_every_position() {
    let reference = b"abcdefgh";
    for position in 0..reference.len() {
        let mut altered = reference.to_vec();
        altered[position] ^= 0x01;
        assert!(!constant_time_eq(reference, &altered), "expected mismatch at {position}");
    }
}
