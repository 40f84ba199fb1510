use grid_kernel::drivers::ptp_clock::PtpClock;
use grid_kernel::failure_axis::FailureAxis;

#[test]
fn timestamps_follow_the_wall_clock_and_never_run_backward() {
    let mut clock = PtpClock::new();
    assert_eq!(clock.read_nanos(100).unwrap(), 100);
    assert_eq!(clock.read_nanos(40).unwrap(), 101);
    assert_eq!(clock.read_nanos(101).unwrap(), 102);
    assert_eq!(clock.read_nanos(352).unwrap(), 352);
    assert_eq!(clock.last_issued_ns(), 352);
}

#[test]
fn step_beyond_phase_tolerance_halts_and_keeps_last_timestamp() {
    let mut clock = PtpClock::new();
    assert_eq!(clock.read_nanos(1_000).unwrap_err().message, "Phase offset 1000 ns exceeds tolerance 250 ns (HALT_0xABF3)");
    assert_eq!(clock.last_issued_ns(), 0);
    assert_eq!(clock.read_nanos(250).unwrap(), 250);
    let halt = clock.read_nanos(501).unwrap_err();
    assert_eq!(halt.axis, FailureAxis::TimingDriftFailure);
    assert_eq!(halt.message, "Phase offset 251 ns exceeds tolerance 250 ns (HALT_0xABF3)");
    assert_eq!(clock.read_nanos(500).unwrap(), 500);
}

#[test]
fn first_wall_clock_reading_from_epoch_zero_halts() {
    let mut clock = PtpClock::new();
    assert!(clock.read_nanos(1_700_000_000_000_000_000).is_err());
    assert_eq!(clock.last_issued_ns(), 0);
}

#[test]
fn micros_and_canonical_time_come_from_the_issued_timestamp() {
    let mut clock = PtpClock::new();
    assert_eq!(clock.read_micros(200).unwrap(), 0);
    assert_eq!(clock.read_micros(450).unwrap(), 0);
    let mut clock = PtpClock::new();
    assert_eq!(clock.as_canonical(230).unwrap().as_nanos(), 230);
    assert_eq!(clock.read_micros(1_000).unwrap_err().axis, FailureAxis::TimingDriftFailure);
}

#[test]
fn injected_drift_is_bounded_by_frequency_tolerance() {
    let mut clock = PtpClock::default();
    assert!(clock.inject_clock_drift(-20).is_ok());
    assert_eq!(clock.freq_offset_ppm(), -20);
    let halt = clock.inject_clock_drift(21).unwrap_err();
    assert_eq!(halt.message, "Injected drift 21 ppm exceeds tolerance (HALT_0xABF3)");
    assert_eq!(clock.freq_offset_ppm(), -20);
}

#[test]
fn servo_estimate_is_kept_and_checked() {
    let mut clock = PtpClock::new();
    assert!(clock.apply_servo_frequency(7).is_ok());
    assert_eq!(clock.freq_offset_ppm(), 7);
    let halt = clock.apply_servo_frequency(-25).unwrap_err();
    assert_eq!(halt.message, "Frequency drift -25 ppm exceeds tolerance ±20 ppm (HALT_0xABF3)");
    assert_eq!(clock.freq_offset_ppm(), -25);
}

#[test]
fn canonical_time_displays_all_three_units() {
    let t = grid_kernel::canonical_time::CanonicalTime::from_nanos(1_234_567_890);
    assert_eq!(t.to_display_string(), "1234567890 ns (μs: 1234567, ms: 1234)");
}
