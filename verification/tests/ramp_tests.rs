use jack_gain::convert::UNITY;
use jack_gain::ramp::RampState;

#[test]
fn ramp_settles_exactly_after_full_length() {
    let mut r = RampState::new(UNITY);
    r.retarget(500_000, 2400);
    let mut last = 0u32;
    for _ in 0..2400 {
        last = r.advance();
    }
    assert_eq!(last, 500_000);
    assert_eq!(r.current, 500_000);
    assert_eq!(r.steps_remaining, 0);
    // Further advances are no-ops on a settled ramp.
    for _ in 0..100 {
        assert_eq!(r.advance(), 500_000);
    }
}

#[test]
fn ramp_is_monotonic_downward() {
    let mut r = RampState::new(UNITY);
    r.retarget(250_000, 7);
    let mut prev = r.current;
    for _ in 0..10 {
        let c = r.advance();
        assert!(c <= prev);
        assert!(c >= 250_000);
        prev = c;
    }
    assert_eq!(prev, 250_000);
}

#[test]
fn ramp_is_monotonic_upward() {
    let mut r = RampState::new(0);
    r.retarget(UNITY, 9);
    let mut prev = r.current;
    for _ in 0..12 {
        let c = r.advance();
        assert!(c >= prev);
        assert!(c <= UNITY);
        prev = c;
    }
    assert_eq!(prev, UNITY);
}

#[test]
fn retarget_mid_ramp_keeps_current_value() {
    let mut r = RampState::new(UNITY);
    r.retarget(0, 100);
    for _ in 0..37 {
        r.advance();
    }
    let mid = r.current;
    assert!(r.steps_remaining > 0);
    r.retarget(900_000, 100);
    // Continuity: only the slope and the destination changed.
    assert_eq!(r.current, mid);
    assert_eq!(r.destination, 900_000);
    assert_eq!(r.steps_remaining, 100);
}

#[test]
fn zero_length_ramp_jumps_to_destination() {
    let mut r = RampState::new(UNITY);
    r.retarget(300_000, 0);
    assert_eq!(r.current, 300_000);
    assert_eq!(r.steps_remaining, 0);
    assert_eq!(r.advance(), 300_000);
}

#[test]
fn ramp_step_values_are_exact() {
    let mut r = RampState::new(UNITY);
    r.retarget(500_000, 4);
    assert_eq!(r.step_size, 125_000);
    assert_eq!(r.advance(), 875_000);
    assert_eq!(r.advance(), 750_000);
    assert_eq!(r.advance(), 625_000);
    assert_eq!(r.advance(), 500_000);
}

#[test]
fn last_step_absorbs_division_rounding() {
    // 1_000_000 / 7 leaves a remainder; the final step must still land
    // exactly on the destination.
    let mut r = RampState::new(UNITY);
    r.retarget(0, 7);
    assert_eq!(r.step_size, 142_857);
    let mut last = 0u32;
    for _ in 0..7 {
        last = r.advance();
    }
    assert_eq!(last, 0);
}
