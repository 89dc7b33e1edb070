use vstd::prelude::*;
use crate::convert::{UNITY, control_decibels, control_to_decibels};
use crate::ramp::{RampState, advance_n, spec_retarget};

verus! {

/// A control position clamped onto the control scale: out-of-range targets
/// are pinned to full scale at the engine boundary, before the
/// control-to-decibel mapping sees them.
pub open spec fn clamped(t: u32) -> u32 {
    if t > UNITY {
        UNITY
    } else {
        t
    }
}

/// The audio-side gain engine: the shared gain ramp, the ramp length fixed
/// at stream start, and the last gain target seen, for edge-triggered
/// retargeting.
///
/// Exactly one retarget decision is made per audio block, using only the
/// latest pending target; intermediate targets between two blocks are
/// coalesced away by design (last write wins). The engine is owned
/// exclusively by the audio callback.
pub struct GainEngine {
    pub ramp: RampState,
    pub ramp_len: u32,
    pub last_seen: u32,
}

/// The engine after one per-block retarget decision on the latest pending
/// target: a target equal to the last one seen is ignored (edge-triggered,
/// so a settled ramp is not restarted every block); a new one is clamped
/// onto the control scale and the ramp is retargeted at it.
pub open spec fn spec_apply_target(e: GainEngine, target: u32) -> GainEngine {
    if target == e.last_seen {
        e
    } else {
        GainEngine {
            ramp: spec_retarget(e.ramp, clamped(target), e.ramp_len),
            ramp_len: e.ramp_len,
            last_seen: target,
        }
    }
}

impl GainEngine {
    /// Well-formedness: the ramp is well-formed.
    pub open spec fn wf(self) -> bool {
        self.ramp.wf()
    }

    /// An engine at unity gain: the control starts at full scale (0 dB,
    /// linear gain 1.0) with a settled ramp.
    pub fn new(ramp_len: u32) -> (r: GainEngine)
        ensures
            r.wf(),
            r.ramp_len == ramp_len,
            r.ramp.current == UNITY,
            r.ramp.destination == UNITY,
            r.ramp.steps_remaining == 0,
            r.last_seen == UNITY,
    {
        GainEngine { ramp: RampState::new(UNITY), ramp_len, last_seen: UNITY }
    }

    /// Makes the per-block retarget decision for the latest pending target.
    pub fn apply_target(&mut self, target: u32)
        requires
            old(self).wf(),
        ensures
            *final(self) == spec_apply_target(*old(self), target),
            final(self).wf(),
            final(self).ramp_len == old(self).ramp_len,
            target == old(self).last_seen ==> *final(self) == *old(self),
            target != old(self).last_seen ==> final(self).last_seen == target
                && final(self).ramp == spec_retarget(
                old(self).ramp,
                clamped(target),
                old(self).ramp_len,
            ),
            target != old(self).last_seen && old(self).ramp_len > 0 ==> final(self).ramp.current
                == old(self).ramp.current,
    {
        if target != self.last_seen {
            self.last_seen = target;
            let dest: u32 = if target > UNITY {
                UNITY
            } else {
                target
            };
            self.ramp.retarget(dest, self.ramp_len);
        }
    }

    /// Runs one audio block: applies the latest pending gain target, then
    /// advances the shared ramp exactly once per sample frame, returning
    /// the control position for each frame in order. Channels sharing this
    /// engine use the one returned trajectory for every channel, which
    /// keeps stereo frames synchronized.
    pub fn control_trajectory(&mut self, target: u32, frames: usize) -> (out: Vec<u32>)
        requires
            old(self).wf(),
        ensures
            final(self).wf(),
            final(self).ramp_len == old(self).ramp_len,
            final(self).last_seen == spec_apply_target(*old(self), target).last_seen,
            final(self).ramp == advance_n(
                spec_apply_target(*old(self), target).ramp,
                frames as nat,
            ),
            out@.len() == frames,
            forall|i: int|
                0 <= i < frames ==> #[trigger] out@[i] == advance_n(
                    spec_apply_target(*old(self), target).ramp,
                    (i + 1) as nat,
                ).current,
            forall|i: int| 0 <= i < frames ==> #[trigger] out@[i] <= UNITY,
    {
        self.apply_target(target);
        let ghost start = self.ramp;
        let mut out: Vec<u32> = Vec::new();
        let mut idx: usize = 0;
        while idx < frames
            invariant
                idx <= frames,
                start.wf(),
                self.ramp == advance_n(start, idx as nat),
                self.ramp.wf(),
                self.ramp_len == old(self).ramp_len,
                self.last_seen == spec_apply_target(*old(self), target).last_seen,
                start == spec_apply_target(*old(self), target).ramp,
                out@.len() == idx,
                forall|i: int|
                    0 <= i < idx ==> #[trigger] out@[i] == advance_n(start, (i + 1) as nat).current,
                forall|i: int| 0 <= i < idx ==> #[trigger] out@[i] <= UNITY,
            decreases frames - idx,
        {
            let c = self.ramp.advance();
            proof {
                assert(advance_n(start, (idx + 1) as nat) == crate::ramp::spec_advance(
                    advance_n(start, idx as nat),
                ));
            }
            out.push(c);
            idx = idx + 1;
        }
        out
    }

    /// Runs one audio block and returns the decibel change requested at
    /// each frame: the control trajectory mapped through the
    /// control-to-decibel law, ready for linear conversion outside.
    pub fn decibel_trajectory(&mut self, target: u32, frames: usize) -> (out: Vec<i64>)
        requires
            old(self).wf(),
        ensures
            final(self).wf(),
            final(self).ramp_len == old(self).ramp_len,
            final(self).last_seen == spec_apply_target(*old(self), target).last_seen,
            final(self).ramp == advance_n(
                spec_apply_target(*old(self), target).ramp,
                frames as nat,
            ),
            out@.len() == frames,
            forall|i: int|
                0 <= i < frames ==> #[trigger] out@[i] == control_decibels(
                    advance_n(
                        spec_apply_target(*old(self), target).ramp,
                        (i + 1) as nat,
                    ).current as int,
                ),
            forall|i: int|
                0 <= i < frames ==> crate::convert::FLOOR_MICRO_DB <= #[trigger] out@[i] <= 0,
    {
        let controls = self.control_trajectory(target, frames);
        let n = controls.len();
        let mut out: Vec<i64> = Vec::new();
        let mut idx: usize = 0;
        while idx < n
            invariant
                idx <= n,
                n == controls@.len(),
                forall|i: int| 0 <= i < n ==> #[trigger] controls@[i] <= UNITY,
                out@.len() == idx,
                forall|i: int|
                    0 <= i < idx ==> #[trigger] out@[i] == control_decibels(controls@[i] as int),
                forall|i: int|
                    0 <= i < idx ==> crate::convert::FLOOR_MICRO_DB <= #[trigger] out@[i] <= 0,
            decreases n - idx,
        {
            out.push(control_to_decibels(controls[idx]));
            idx = idx + 1;
        }
        out
    }
}

/// The ramp length for a stream: 50 ms of samples at the given rate,
/// rounded to the nearest whole sample.
pub fn ramp_len_for_rate(sample_rate: u32) -> (n: u32)
    ensures
        n == (sample_rate + 10) / 20,
        sample_rate == 48000 ==> n == 2400,
{
    (((sample_rate as u64) + 10) / 20) as u32
}

} // verus!
