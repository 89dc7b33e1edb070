use vstd::prelude::*;
use crate::convert::UNITY;
use vstd::arithmetic::mul::{
    lemma_mul_nonnegative, lemma_mul_is_distributive_sub_other_way, lemma_mul_is_commutative,
};
use vstd::arithmetic::div_mod::{lemma_remainder_lower, lemma_div_nonincreasing};

verus! {

/// Distance between two positions on the control scale.
pub open spec fn dist(a: int, b: int) -> int {
    if a <= b {
        b - a
    } else {
        a - b
    }
}

/// Per-stream gain ramp: a sample-accurate, discontinuity-free trajectory of
/// the control position from `current` toward `destination`.
///
/// While `steps_remaining > 0`, each advance moves `current` by `step_size`
/// toward `destination`; the final step lands exactly on the destination,
/// absorbing the rounding of the integer step size. When
/// `steps_remaining == 0`, `current == destination` and advancing is a no-op
/// until the ramp is retargeted.
///
/// All positions are control values in millionths (`UNITY` is full scale);
/// the state is owned exclusively by the audio callback.
#[derive(Clone, Copy, PartialEq, Eq, Structural, Debug)]
pub struct RampState {
    pub current: u32,
    pub destination: u32,
    pub step_size: u32,
    pub steps_remaining: u32,
}

/// The ramp state after a retarget toward `dest` over `ramp_len` steps:
/// a fresh slope is computed from wherever the ramp currently is, so the
/// value stays continuous even mid-ramp. A zero-length ramp (a pathological
/// configuration such as a misreported sample rate) jumps straight to the
/// destination instead of dividing by zero.
pub open spec fn spec_retarget(s: RampState, dest: u32, ramp_len: u32) -> RampState {
    if ramp_len == 0 {
        RampState { current: dest, destination: dest, step_size: 0, steps_remaining: 0 }
    } else {
        RampState {
            current: s.current,
            destination: dest,
            step_size: (dist(s.current as int, dest as int) / (ramp_len as int)) as u32,
            steps_remaining: ramp_len,
        }
    }
}

/// The ramp state after one per-sample advance: if steps remain, one is
/// consumed and `current` moves by `step_size` toward the destination,
/// landing exactly on it at the last step; otherwise nothing changes.
pub open spec fn spec_advance(s: RampState) -> RampState {
    if s.steps_remaining == 0 {
        s
    } else if s.steps_remaining == 1 {
        RampState { current: s.destination, steps_remaining: 0, ..s }
    } else if s.current <= s.destination {
        RampState {
            current: (s.current + s.step_size) as u32,
            steps_remaining: (s.steps_remaining - 1) as u32,
            ..s
        }
    } else {
        RampState {
            current: (s.current - s.step_size) as u32,
            steps_remaining: (s.steps_remaining - 1) as u32,
            ..s
        }
    }
}

/// The ramp state after `k` successive advances.
pub open spec fn advance_n(s: RampState, k: nat) -> RampState
    decreases k,
{
    if k == 0 {
        s
    } else {
        spec_advance(advance_n(s, (k - 1) as nat))
    }
}

impl RampState {
    /// Well-formedness: positions stay on the control scale, a settled ramp
    /// rests exactly on its destination, and the remaining travel
    /// `steps_remaining * step_size` never exceeds the remaining distance,
    /// so the ramp cannot overshoot.
    pub open spec fn wf(self) -> bool {
        &&& self.current <= UNITY
        &&& self.destination <= UNITY
        &&& (self.steps_remaining == 0 ==> self.current == self.destination)
        &&& self.steps_remaining * self.step_size <= dist(
            self.current as int,
            self.destination as int,
        )
    }

    /// A settled ramp resting at `initial`.
    pub fn new(initial: u32) -> (r: RampState)
        requires
            initial <= UNITY,
        ensures
            r.wf(),
            r.current == initial,
            r.destination == initial,
            r.steps_remaining == 0,
    {
        RampState { current: initial, destination: initial, step_size: 0, steps_remaining: 0 }
    }

    /// Points the ramp at a new destination over `ramp_len` steps.
    ///
    /// Mid-ramp retargeting never changes `current`: only the slope and the
    /// destination change, so the trajectory stays continuous in value. A
    /// zero `ramp_len` jumps straight to the destination.
    pub fn retarget(&mut self, dest: u32, ramp_len: u32)
        requires
            old(self).wf(),
            dest <= UNITY,
        ensures
            *final(self) == spec_retarget(*old(self), dest, ramp_len),
            final(self).wf(),
            final(self).destination == dest,
            final(self).steps_remaining == ramp_len,
            ramp_len > 0 ==> final(self).current == old(self).current,
            ramp_len == 0 ==> final(self).current == dest,
    {
        if ramp_len == 0 {
            self.current = dest;
            self.destination = dest;
            self.step_size = 0;
            self.steps_remaining = 0;
        } else {
            let diff: u32 = if dest >= self.current {
                dest - self.current
            } else {
                self.current - dest
            };
            self.step_size = diff / ramp_len;
            self.steps_remaining = ramp_len;
            self.destination = dest;
            proof {
                lemma_retarget_wf(*old(self), dest, ramp_len);
            }
        }
    }

    /// Consumes one ramp step and returns the new control position, for use
    /// on the very sample being processed. Advancing a settled ramp is a
    /// no-op.
    pub fn advance(&mut self) -> (r: u32)
        requires
            old(self).wf(),
        ensures
            *final(self) == spec_advance(*old(self)),
            final(self).wf(),
            r == final(self).current,
            final(self).destination == old(self).destination,
            final(self).step_size == old(self).step_size,
            old(self).steps_remaining == 0 ==> *final(self) == *old(self),
            old(self).steps_remaining > 0 ==> final(self).steps_remaining == old(self).steps_remaining
                - 1,
            final(self).steps_remaining == 0 ==> final(self).current == final(self).destination,
            old(self).current <= old(self).destination ==> old(self).current <= final(self).current
                <= old(self).destination,
            old(self).destination <= old(self).current ==> old(self).destination
                <= final(self).current <= old(self).current,
    {
        if self.steps_remaining > 0 {
            proof {
                lemma_step_bounded(*old(self));
            }
            self.steps_remaining = self.steps_remaining - 1;
            if self.steps_remaining == 0 {
                self.current = self.destination;
            } else if self.destination >= self.current {
                self.current = self.current + self.step_size;
            } else {
                self.current = self.current - self.step_size;
            }
            proof {
                lemma_advance_wf(*old(self));
            }
        }
        self.current
    }
}

/// While steps remain, a single step never exceeds the remaining distance.
proof fn lemma_step_bounded(s: RampState)
    requires
        s.wf(),
        s.steps_remaining >= 1,
    ensures
        s.step_size <= dist(s.current as int, s.destination as int),
{
    lemma_mul_nonnegative((s.steps_remaining - 1) as int, s.step_size as int);
    lemma_mul_is_distributive_sub_other_way(
        s.step_size as int,
        s.steps_remaining as int,
        1,
    );
}

/// One advance preserves well-formedness, keeps the destination and slope,
/// and moves `current` toward the destination without overshooting.
proof fn lemma_advance_wf(s: RampState)
    ensures
        s.wf() ==> spec_advance(s).wf(),
        spec_advance(s).destination == s.destination,
        spec_advance(s).step_size == s.step_size,
        s.steps_remaining == 0 ==> spec_advance(s) == s,
        s.steps_remaining > 0 ==> spec_advance(s).steps_remaining == s.steps_remaining - 1,
        s.wf() && s.current <= s.destination ==> s.current <= spec_advance(s).current
            <= s.destination,
        s.wf() && s.destination <= s.current ==> s.destination <= spec_advance(s).current
            <= s.current,
{
    if s.wf() && s.steps_remaining >= 2 {
        lemma_step_bounded(s);
        lemma_mul_is_distributive_sub_other_way(
            s.step_size as int,
            s.steps_remaining as int,
            1,
        );
    }
}

/// A retarget from any on-scale position yields a well-formed ramp: the
/// integer step size is rounded down, so the planned travel
/// `ramp_len * step_size` never exceeds the distance to the destination.
proof fn lemma_retarget_wf(s: RampState, dest: u32, ramp_len: u32)
    requires
        s.current <= UNITY,
        dest <= UNITY,
    ensures
        spec_retarget(s, dest, ramp_len).wf(),
        spec_retarget(s, dest, ramp_len).destination == dest,
        spec_retarget(s, dest, ramp_len).steps_remaining == ramp_len,
        ramp_len > 0 ==> spec_retarget(s, dest, ramp_len).current == s.current,
        ramp_len == 0 ==> spec_retarget(s, dest, ramp_len).current == dest,
{
    if ramp_len > 0 {
        let diff = dist(s.current as int, dest as int);
        lemma_remainder_lower(diff, ramp_len as int);
        lemma_div_nonincreasing(diff, ramp_len as int);
        lemma_mul_is_commutative(ramp_len as int, diff / (ramp_len as int));
        assert(spec_retarget(s, dest, ramp_len).step_size == diff / (ramp_len as int));
    }
}

/// Iterated advances preserve well-formedness and the destination, count the
/// remaining steps down to zero, and once the steps are exhausted the ramp
/// rests exactly on its destination.
proof fn lemma_advance_n(s: RampState, k: nat)
    requires
        s.wf(),
    ensures
        advance_n(s, k).wf(),
        advance_n(s, k).destination == s.destination,
        advance_n(s, k).steps_remaining == if k >= s.steps_remaining {
            0nat
        } else {
            (s.steps_remaining - k) as nat
        },
        k >= s.steps_remaining ==> advance_n(s, k).current == s.destination,
    decreases k,
{
    if k > 0 {
        lemma_advance_n(s, (k - 1) as nat);
        lemma_advance_wf(advance_n(s, (k - 1) as nat));
    }
}

/// Ramp settling: a retarget to destination `dest` invoked on a settled ramp
/// reaches exactly `dest` after `ramp_len` advances, and every further
/// advance leaves it there.
pub proof fn lemma_ramp_settles(s: RampState, dest: u32, ramp_len: u32, k: nat)
    requires
        s.wf(),
        s.steps_remaining == 0,
        dest <= UNITY,
        k >= ramp_len,
    ensures
        advance_n(spec_retarget(s, dest, ramp_len), k).current == dest,
        advance_n(spec_retarget(s, dest, ramp_len), k).steps_remaining == 0,
{
    lemma_retarget_wf(s, dest, ramp_len);
    lemma_advance_n(spec_retarget(s, dest, ramp_len), k);
}

/// However many advances are taken, the control position stays between the
/// starting position and the destination.
pub proof fn lemma_ramp_bounds(s: RampState, k: nat)
    requires
        s.wf(),
    ensures
        s.current <= s.destination ==> s.current <= advance_n(s, k).current <= s.destination,
        s.destination <= s.current ==> s.destination <= advance_n(s, k).current <= s.current,
    decreases k,
{
    if k > 0 {
        lemma_ramp_bounds(s, (k - 1) as nat);
        lemma_advance_n(s, (k - 1) as nat);
        lemma_advance_wf(advance_n(s, (k - 1) as nat));
    }
}

/// Monotonicity: a single, unretargeted ramp produces a monotonic sequence
/// of control positions — non-decreasing when the destination lies at or
/// above the starting position, non-increasing otherwise — and the
/// positions never pass the destination.
pub proof fn lemma_ramp_monotone(s: RampState, i: nat, j: nat)
    requires
        s.wf(),
        i <= j,
    ensures
        s.current <= s.destination ==> advance_n(s, i).current <= advance_n(s, j).current
            <= s.destination,
        s.destination <= s.current ==> s.destination <= advance_n(s, j).current <= advance_n(
            s,
            i,
        ).current,
    decreases j,
{
    if j > i {
        lemma_ramp_monotone(s, i, (j - 1) as nat);
        lemma_ramp_bounds(s, (j - 1) as nat);
        lemma_advance_n(s, (j - 1) as nat);
        lemma_advance_wf(advance_n(s, (j - 1) as nat));
    } else {
        lemma_ramp_bounds(s, i);
    }
}

} // verus!
