use grid_kernel::adversarial_runtime::{corrupt_timestamp, generate_corrupt_state};
use grid_kernel::verification_engine::runtime_bridge::evaluate_invariant;

#[test]
fn test_invariant_telemetry_validity_nan_injection() {
    let state = generate_corrupt_state("nan_injection");
    assert!(evaluate_invariant("INVARIANT_TELEMETRY_VALIDITY", &state));
}

#[test]
fn test_invariant_telemetry_validity_timestamp_wrap() {
    let state = generate_corrupt_state("timestamp_wrap");
    assert!(evaluate_invariant("INVARIANT_TELEMETRY_VALIDITY", &state));
}

#[test]
fn unknown_invariant_does_not_hold() {
    assert!(!evaluate_invariant("INVARIANT_UNKNOWN", "x"));
    assert!(evaluate_invariant("INVARIANT_TIMING_BOUNDS", "x"));
}

#[test]
fn corrupt_state_names_its_scenario() {
    assert_eq!(generate_corrupt_state("nan_injection"), "corrupt-state: nan_injection");
    assert_eq!(grid_kernel::verification_engine::runtime_bridge::generate_corrupt_state("x"), "corrupt");
}

#[test]
fn corrupt_timestamp_wraps() {
    assert_eq!(corrupt_timestamp(1), 1_000_000);
    assert_eq!(corrupt_timestamp(u64::MAX), 999_998);
}
