use vstd::prelude::*;

verus! {

/// Fixed-point one, in millionths. Control positions, linear amplitudes and
/// display levels all use this scale: `UNITY` is a control knob at full
/// volume, a linear gain of 1.0, and a display meter at 0 dB.
pub const UNITY: u32 = 1_000_000;

/// The dynamic range floor: -80 dB, in micro-decibels. Levels at or below
/// the floor count as silence for display purposes. This is also the level
/// assigned by convention to a zero (silent) linear amplitude, whose true
/// decibel value is unbounded below; callers converting a linear level of
/// zero must substitute this constant rather than divide by zero upstream.
pub const FLOOR_MICRO_DB: i64 = -80_000_000;

/// The decibel level requested by a control position `c` (in millionths of
/// full scale): `(1 - c) * floor`, so full scale asks for 0 dB and zero asks
/// for the floor. Exact: no rounding is involved at this scale.
pub open spec fn control_decibels(c: int) -> int {
    80 * (c - 1_000_000)
}

/// Maps a control position to the decibel change it requests.
///
/// Control 1.0 (unity) maps to 0 dB; control 0 maps to the -80 dB floor.
/// The mapping is linear in the control position and exact in these units.
/// Out-of-range control values must be clamped by the caller before use;
/// this function does not clamp.
pub fn control_to_decibels(c: u32) -> (d: i64)
    requires
        c <= UNITY,
    ensures
        d == control_decibels(c as int),
        FLOOR_MICRO_DB <= d <= 0,
        c == UNITY ==> d == 0,
        c == 0 ==> d == FLOOR_MICRO_DB,
{
    let drop: i64 = (UNITY - c) as i64;
    -(80 * drop)
}

/// The normalized display level for a decibel reading `d` (micro-decibels):
/// 0 at or below the dynamic range floor, otherwise `1 - d / floor` scaled
/// to millionths. The quotient rounds toward silence, so a reading within a
/// fraction of a micro-decibel of a grid point displays the level just
/// below it. Readings above 0 dB intentionally yield values above `UNITY`:
/// the display is not clamped here.
pub open spec fn display_level(d: int) -> int {
    if d <= -80_000_000 {
        0
    } else if d >= 0 {
        1_000_000 + d / 80
    } else {
        1_000_000 - ((-d) + 79) / 80
    }
}

/// Maps a decibel reading to a normalized display level.
///
/// At or below the -80 dB floor the display is exactly 0; at 0 dB it is
/// exactly `UNITY`; above 0 dB it exceeds `UNITY` without clamping. Total:
/// every `i64` input is accepted.
pub fn display_from_decibels(d: i64) -> (r: u64)
    ensures
        r == display_level(d as int),
        d <= FLOOR_MICRO_DB ==> r == 0,
        d == 0 ==> r == UNITY,
        d <= 0 ==> r <= UNITY,
        d >= 0 ==> r >= UNITY,
{
    if d <= FLOOR_MICRO_DB {
        0
    } else if d >= 0 {
        1_000_000 + (d as u64) / 80
    } else {
        let below: u64 = (-d) as u64;
        1_000_000 - (below + 79) / 80
    }
}

} // verus!
