use vstd::prelude::*;
use crate::convert::UNITY;
use vstd::arithmetic::mul::{
    lemma_mul_upper_bound, lemma_mul_left_inequality, lemma_mul_by_zero_is_zero,
};
use vstd::arithmetic::div_mod::{lemma_div_is_ordered, lemma_div_by_multiple, lemma_div_of0};

verus! {

/// Largest sample magnitude the gain stage accepts, in millionths: ±4000.0
/// in linear full-scale units, far beyond any sane audio signal, and small
/// enough that every intermediate product fits the machine words.
pub const SAMPLE_LIMIT: i64 = 4_000_000_000;

/// A sample scaled by a linear amplitude in millionths, rounded toward
/// zero: the magnitude shrinks by the factor `g / UNITY`, the sign is kept.
pub open spec fn scale_spec(s: int, g: int) -> int {
    if s >= 0 {
        (s * g) / 1_000_000
    } else {
        -(((-s) * g) / 1_000_000)
    }
}

/// Multiplies one sample by a linear amplitude of at most unity.
///
/// At unity gain the sample passes through unchanged; at zero gain the
/// output is exactly zero; in between the magnitude never grows and the
/// sign never flips. This is the whole per-sample cost of the gain stage:
/// one multiply, no further branching.
pub fn scale_sample(s: i64, g: u32) -> (r: i64)
    requires
        -SAMPLE_LIMIT <= s <= SAMPLE_LIMIT,
        g <= UNITY,
    ensures
        r == scale_spec(s as int, g as int),
        s >= 0 ==> 0 <= r <= s,
        s <= 0 ==> s <= r <= 0,
        g == UNITY ==> r == s,
        g == 0 ==> r == 0,
{
    let mag: u64 = if s >= 0 {
        s as u64
    } else {
        (-s) as u64
    };
    proof {
        lemma_mul_upper_bound(mag as int, SAMPLE_LIMIT as int, g as int, UNITY as int);
        if mag > 0 {
            lemma_mul_left_inequality(mag as int, g as int, UNITY as int);
        } else {
            lemma_mul_by_zero_is_zero(g as int);
            lemma_mul_by_zero_is_zero(UNITY as int);
        }
        lemma_mul_by_zero_is_zero(mag as int);
        lemma_div_of0(UNITY as int);
        lemma_div_is_ordered(
            (mag as int) * (g as int),
            (mag as int) * (UNITY as int),
            UNITY as int,
        );
        lemma_div_by_multiple(mag as int, UNITY as int);
    }
    let scaled: u64 = mag * (g as u64) / (UNITY as u64);
    if s >= 0 {
        scaled as i64
    } else {
        -(scaled as i64)
    }
}

/// Applies a per-sample amplitude trajectory to one channel's samples.
///
/// Sample `i` of the output is sample `i` of the input scaled by amplitude
/// `i`: channels sharing one ramp hand every channel the same trajectory,
/// which keeps them sample-synchronized.
pub fn apply_gain(samples: &Vec<i64>, amplitudes: &Vec<u32>) -> (out: Vec<i64>)
    requires
        samples@.len() == amplitudes@.len(),
        forall|i: int|
            0 <= i < samples@.len() ==> -SAMPLE_LIMIT <= #[trigger] samples@[i] <= SAMPLE_LIMIT,
        forall|i: int| 0 <= i < amplitudes@.len() ==> #[trigger] amplitudes@[i] <= UNITY,
    ensures
        out@.len() == samples@.len(),
        forall|i: int|
            0 <= i < out@.len() ==> #[trigger] out@[i] == scale_spec(
                samples@[i] as int,
                amplitudes@[i] as int,
            ),
{
    let n = samples.len();
    let mut out: Vec<i64> = Vec::new();
    let mut idx: usize = 0;
    while idx < n
        invariant
            idx <= n,
            n == samples@.len(),
            samples@.len() == amplitudes@.len(),
            forall|i: int|
                0 <= i < samples@.len() ==> -SAMPLE_LIMIT <= #[trigger] samples@[i] <= SAMPLE_LIMIT,
            forall|i: int| 0 <= i < amplitudes@.len() ==> #[trigger] amplitudes@[i] <= UNITY,
            out@.len() == idx,
            forall|i: int|
                0 <= i < idx ==> #[trigger] out@[i] == scale_spec(
                    samples@[i] as int,
                    amplitudes@[i] as int,
                ),
        decreases n - idx,
    {
        out.push(scale_sample(samples[idx], amplitudes[idx]));
        idx = idx + 1;
    }
    out
}

/// The absolute magnitude of one sample, for metering. The accepted sample
/// range keeps it within a meter entry's width.
pub fn sample_magnitude(s: i64) -> (m: u32)
    requires
        -SAMPLE_LIMIT <= s <= SAMPLE_LIMIT,
    ensures
        s >= 0 ==> m == s,
        s < 0 ==> m == -(s as int),
{
    if s >= 0 {
        s as u32
    } else {
        (-s) as u32
    }
}

} // verus!
