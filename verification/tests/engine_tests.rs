use jack_gain::channel::{SharedCell, TelemetryCells};
use jack_gain::convert::{control_to_decibels, FLOOR_MICRO_DB, UNITY};
use jack_gain::engine::{ramp_len_for_rate, GainEngine};
use jack_gain::gain::{apply_gain, sample_magnitude, scale_sample};

#[test]
fn ramp_length_is_fifty_milliseconds() {
    assert_eq!(ramp_len_for_rate(48000), 2400);
    assert_eq!(ramp_len_for_rate(44100), 2205);
    // Rounds to the nearest whole sample.
    assert_eq!(ramp_len_for_rate(44110), 2206);
    assert_eq!(ramp_len_for_rate(0), 0);
}

#[test]
fn control_to_decibels_spans_the_range() {
    assert_eq!(control_to_decibels(UNITY), 0);
    assert_eq!(control_to_decibels(0), FLOOR_MICRO_DB);
    assert_eq!(control_to_decibels(500_000), -40_000_000);
    assert_eq!(control_to_decibels(750_000), -20_000_000);
}

#[test]
fn engine_ignores_repeated_targets() {
    // Edge-triggered: a target equal to the last one seen must not restart
    // a settled ramp.
    let mut e = GainEngine::new(10);
    let traj = e.control_trajectory(UNITY, 4);
    assert_eq!(traj, vec![UNITY; 4]);
    assert_eq!(e.ramp.steps_remaining, 0);
}

#[test]
fn engine_retargets_on_new_value_and_coalesces() {
    let mut e = GainEngine::new(10);
    // Only the latest pending target reaches the engine each block; a block
    // then advances the ramp once per frame.
    let traj = e.control_trajectory(500_000, 3);
    assert_eq!(e.last_seen, 500_000);
    assert_eq!(traj, vec![950_000, 900_000, 850_000]);
    // Next block, same target: no retargeting, the ramp just continues.
    let traj2 = e.control_trajectory(500_000, 2);
    assert_eq!(traj2, vec![800_000, 750_000]);
}

#[test]
fn engine_clamps_out_of_range_target() {
    let mut e = GainEngine::new(0);
    e.apply_target(UNITY + 5);
    assert_eq!(e.ramp.destination, UNITY);
    assert_eq!(e.last_seen, UNITY + 5);
}

#[test]
fn decibel_trajectory_matches_control_law() {
    let mut e = GainEngine::new(4);
    let dbs = e.decibel_trajectory(500_000, 4);
    // Controls 875000, 750000, 625000, 500000 mapped through
    // (1 - c) * -80 dB.
    assert_eq!(dbs, vec![-10_000_000, -20_000_000, -30_000_000, -40_000_000]);
}

#[test]
fn gain_stage_scales_exactly() {
    assert_eq!(scale_sample(1_000_000, 500_000), 500_000);
    assert_eq!(scale_sample(-1_000_000, 500_000), -500_000);
    assert_eq!(scale_sample(123_456, UNITY), 123_456);
    assert_eq!(scale_sample(-123_456, UNITY), -123_456);
    assert_eq!(scale_sample(987_654, 0), 0);
    // Rounds toward zero.
    assert_eq!(scale_sample(3, 500_000), 1);
    assert_eq!(scale_sample(-3, 500_000), -1);
}

#[test]
fn gain_stage_applies_trajectory_per_sample() {
    let samples = vec![1_000_000i64, -1_000_000, 500_000, 0];
    let amps = vec![UNITY, 500_000, 500_000, 250_000];
    let out = apply_gain(&samples, &amps);
    assert_eq!(out, vec![1_000_000, -500_000, 250_000, 0]);
}

#[test]
fn magnitudes_fold_sign_away() {
    assert_eq!(sample_magnitude(250_000), 250_000);
    assert_eq!(sample_magnitude(-250_000), 250_000);
    assert_eq!(sample_magnitude(0), 0);
}

#[test]
fn shared_cell_keeps_latest_value() {
    let cell = SharedCell::new(7);
    assert_eq!(cell.read(), 7);
    let writer = cell.clone();
    writer.publish(41);
    writer.publish(42);
    // Last write wins; both handles see the same slot.
    assert_eq!(cell.read(), 42);
    assert_eq!(writer.read(), 42);
}

#[test]
fn telemetry_cells_publish_per_point() {
    let cells = TelemetryCells::new();
    let reader = cells.clone();
    cells.publish(1, 2, 3, 4);
    assert_eq!(reader.in_l.read(), 1);
    assert_eq!(reader.in_r.read(), 2);
    assert_eq!(reader.out_l.read(), 3);
    assert_eq!(reader.out_r.read(), 4);
}
