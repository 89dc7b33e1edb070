use jack_gain::convert::{display_from_decibels, FLOOR_MICRO_DB, UNITY};
use jack_gain::meter::MeterBuffer;

#[test]
fn warm_up_average_is_biased_toward_zero() {
    // Capacity 8, constant magnitude fed fewer than 8 times: the average is
    // (count * magnitude) / capacity, strictly below the magnitude.
    let m: u32 = 800_000;
    let mut buf = MeterBuffer::new(8);
    for count in 1..8u64 {
        buf.update(m);
        let avg = buf.average();
        assert_eq!(avg, count * (m as u64) / 8);
        assert!(avg < m as u64);
    }
    buf.update(m);
    assert_eq!(buf.average(), m as u64);
}

#[test]
fn average_divides_by_capacity_while_filling() {
    let mut buf = MeterBuffer::new(4);
    buf.update(2);
    buf.update(4);
    // sum 6 over the configured capacity 4, rounded down.
    assert_eq!(buf.average(), 1);
}

#[test]
fn full_buffer_evicts_oldest_entry() {
    let mut buf = MeterBuffer::new(4);
    for m in [100, 200, 300, 400] {
        buf.update(m);
    }
    assert_eq!(buf.average(), 250);
    // A fifth entry evicts the oldest (100).
    buf.update(500);
    assert_eq!(buf.average(), (200 + 300 + 400 + 500) / 4);
}

#[test]
fn empty_buffer_reads_zero() {
    let buf = MeterBuffer::new(8);
    assert_eq!(buf.average(), 0);
}

#[test]
fn display_is_zero_at_and_below_floor() {
    assert_eq!(display_from_decibels(FLOOR_MICRO_DB), 0);
    assert_eq!(display_from_decibels(FLOOR_MICRO_DB - 1), 0);
    assert_eq!(display_from_decibels(i64::MIN), 0);
}

#[test]
fn display_reaches_unity_at_zero_decibels() {
    assert_eq!(display_from_decibels(0), UNITY as u64);
}

#[test]
fn display_is_linear_in_decibels() {
    // -40 dB is halfway across the 80 dB range: display 0.5.
    assert_eq!(display_from_decibels(-40_000_000), 500_000);
    // -20 dB: display 0.75.
    assert_eq!(display_from_decibels(-20_000_000), 750_000);
}

#[test]
fn display_exceeds_unity_above_zero_decibels() {
    // +8 dB: display 1.1, intentionally not clamped.
    assert_eq!(display_from_decibels(8_000_000), 1_100_000);
}

#[test]
fn display_rounds_toward_silence() {
    // One micro-decibel above the floor still displays as 0.
    assert_eq!(display_from_decibels(FLOOR_MICRO_DB + 1), 0);
    // A whole step above the floor displays one millionth.
    assert_eq!(display_from_decibels(FLOOR_MICRO_DB + 80), 1);
}
