use vstd::prelude::*;
use crate::convert::{UNITY, display_level, display_from_decibels};
use crate::meter::{MeterBuffer, spec_update, sum_of};

verus! {

/// Gain messages from the control surface: the knob moved to a new
/// normalized position (millionths of full scale).
pub enum GainEvents {
    GainChange(u32),
}

/// Telemetry messages polled from the audio side: one absolute sample
/// magnitude (linear, in millionths) for one monitored point.
pub enum MeterEvents {
    InLUpdate(u32),
    InRUpdate(u32),
    OutLUpdate(u32),
    OutRUpdate(u32),
}

/// The control-surface state: the knob position, and one meter buffer and
/// one display level per monitored point (input and output, left and
/// right). Display levels are normalized to millionths, 0 at the dynamic
/// range floor and `UNITY` at 0 dB.
///
/// The closed set of message kinds above is dispatched by exhaustive
/// matching; each message touches exactly one monitored point.
pub struct UIData {
    pub gain: u32,
    pub in_l: u64,
    pub in_r: u64,
    pub out_l: u64,
    pub out_r: u64,
    pub in_l_buffer: MeterBuffer,
    pub in_r_buffer: MeterBuffer,
    pub out_l_buffer: MeterBuffer,
    pub out_r_buffer: MeterBuffer,
}

impl UIData {
    /// Well-formedness: every meter buffer is well-formed.
    pub open spec fn wf(self) -> bool {
        &&& self.in_l_buffer.wf()
        &&& self.in_r_buffer.wf()
        &&& self.out_l_buffer.wf()
        &&& self.out_r_buffer.wf()
    }

    /// A fresh panel: knob at unity, meters empty and dark, every buffer
    /// with the same configured capacity.
    pub fn new(capacity: usize) -> (r: UIData)
        requires
            1 <= capacity <= 1_000_000,
        ensures
            r.wf(),
            r.gain == UNITY,
            r.in_l == 0 && r.in_r == 0 && r.out_l == 0 && r.out_r == 0,
            r.in_l_buffer@ == Seq::<u32>::empty() && r.in_l_buffer.cap() == capacity,
            r.in_r_buffer@ == Seq::<u32>::empty() && r.in_r_buffer.cap() == capacity,
            r.out_l_buffer@ == Seq::<u32>::empty() && r.out_l_buffer.cap() == capacity,
            r.out_r_buffer@ == Seq::<u32>::empty() && r.out_r_buffer.cap() == capacity,
    {
        UIData {
            gain: UNITY,
            in_l: 0,
            in_r: 0,
            out_l: 0,
            out_r: 0,
            in_l_buffer: MeterBuffer::new(capacity),
            in_r_buffer: MeterBuffer::new(capacity),
            out_l_buffer: MeterBuffer::new(capacity),
            out_r_buffer: MeterBuffer::new(capacity),
        }
    }

    /// Handles a knob move: records the new position and returns it, for
    /// the caller to publish to the audio side's parameter cell.
    pub fn handle_gain(&mut self, e: GainEvents) -> (t: u32)
        ensures
            e == GainEvents::GainChange(t),
            *final(self) == (UIData { gain: t, ..*old(self) }),
    {
        match e {
            GainEvents::GainChange(n) => {
                self.gain = n;
                n
            },
        }
    }

    /// Feeds one polled magnitude into the meter buffer of its monitored
    /// point and returns that buffer's new average, ready for decibel
    /// conversion outside. No other point is touched.
    pub fn update_meter(&mut self, e: &MeterEvents) -> (avg: u64)
        requires
            old(self).wf(),
        ensures
            final(self).wf(),
            final(self).gain == old(self).gain,
            final(self).in_l == old(self).in_l && final(self).in_r == old(self).in_r,
            final(self).out_l == old(self).out_l && final(self).out_r == old(self).out_r,
            (*e) matches MeterEvents::InLUpdate(m) ==> final(self).in_l_buffer@ == spec_update(
                old(self).in_l_buffer@,
                old(self).in_l_buffer.cap(),
                m,
            ) && avg == sum_of(final(self).in_l_buffer@) / (old(self).in_l_buffer.cap() as int)
                && final(self).in_r_buffer == old(self).in_r_buffer && final(self).out_l_buffer
                == old(self).out_l_buffer && final(self).out_r_buffer == old(self).out_r_buffer
                && final(self).in_l_buffer.cap() == old(self).in_l_buffer.cap(),
            (*e) matches MeterEvents::InRUpdate(m) ==> final(self).in_r_buffer@ == spec_update(
                old(self).in_r_buffer@,
                old(self).in_r_buffer.cap(),
                m,
            ) && avg == sum_of(final(self).in_r_buffer@) / (old(self).in_r_buffer.cap() as int)
                && final(self).in_l_buffer == old(self).in_l_buffer && final(self).out_l_buffer
                == old(self).out_l_buffer && final(self).out_r_buffer == old(self).out_r_buffer
                && final(self).in_r_buffer.cap() == old(self).in_r_buffer.cap(),
            (*e) matches MeterEvents::OutLUpdate(m) ==> final(self).out_l_buffer@ == spec_update(
                old(self).out_l_buffer@,
                old(self).out_l_buffer.cap(),
                m,
            ) && avg == sum_of(final(self).out_l_buffer@) / (old(self).out_l_buffer.cap() as int)
                && final(self).in_l_buffer == old(self).in_l_buffer && final(self).in_r_buffer
                == old(self).in_r_buffer && final(self).out_r_buffer == old(self).out_r_buffer
                && final(self).out_l_buffer.cap() == old(self).out_l_buffer.cap(),
            (*e) matches MeterEvents::OutRUpdate(m) ==> final(self).out_r_buffer@ == spec_update(
                old(self).out_r_buffer@,
                old(self).out_r_buffer.cap(),
                m,
            ) && avg == sum_of(final(self).out_r_buffer@) / (old(self).out_r_buffer.cap() as int)
                && final(self).in_l_buffer == old(self).in_l_buffer && final(self).in_r_buffer
                == old(self).in_r_buffer && final(self).out_l_buffer == old(self).out_l_buffer
                && final(self).out_r_buffer.cap() == old(self).out_r_buffer.cap(),
    {
        match e {
            MeterEvents::InLUpdate(m) => {
                self.in_l_buffer.update(*m);
                self.in_l_buffer.average()
            },
            MeterEvents::InRUpdate(m) => {
                self.in_r_buffer.update(*m);
                self.in_r_buffer.average()
            },
            MeterEvents::OutLUpdate(m) => {
                self.out_l_buffer.update(*m);
                self.out_l_buffer.average()
            },
            MeterEvents::OutRUpdate(m) => {
                self.out_r_buffer.update(*m);
                self.out_r_buffer.average()
            },
        }
    }

    /// Sets the display level of one monitored point from the decibel
    /// reading of its freshly computed average: 0 at or below the dynamic
    /// range floor, `1 - decibels / floor` above it, unclamped past unity.
    /// Buffers and knob are untouched.
    pub fn apply_display(&mut self, e: &MeterEvents, decibels: i64)
        ensures
            final(self).gain == old(self).gain,
            final(self).in_l_buffer == old(self).in_l_buffer,
            final(self).in_r_buffer == old(self).in_r_buffer,
            final(self).out_l_buffer == old(self).out_l_buffer,
            final(self).out_r_buffer == old(self).out_r_buffer,
            (*e) matches MeterEvents::InLUpdate(_) ==> *final(self) == (UIData {
                in_l: display_level(decibels as int) as u64,
                ..*old(self)
            }),
            (*e) matches MeterEvents::InRUpdate(_) ==> *final(self) == (UIData {
                in_r: display_level(decibels as int) as u64,
                ..*old(self)
            }),
            (*e) matches MeterEvents::OutLUpdate(_) ==> *final(self) == (UIData {
                out_l: display_level(decibels as int) as u64,
                ..*old(self)
            }),
            (*e) matches MeterEvents::OutRUpdate(_) ==> *final(self) == (UIData {
                out_r: display_level(decibels as int) as u64,
                ..*old(self)
            }),
    {
        let level = display_from_decibels(decibels);
        match e {
            MeterEvents::InLUpdate(_) => {
                self.in_l = level;
            },
            MeterEvents::InRUpdate(_) => {
                self.in_r = level;
            },
            MeterEvents::OutLUpdate(_) => {
                self.out_l = level;
            },
            MeterEvents::OutRUpdate(_) => {
                self.out_r = level;
            },
        }
    }
}

} // verus!
