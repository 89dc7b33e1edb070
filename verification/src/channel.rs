use vstd::prelude::*;
use core::sync::atomic::{AtomicU32, Ordering};
use std::sync::Arc;

verus! {

/// One wait-free shared cell of the parameter/telemetry channel: a single
/// "latest value" slot with atomic replace semantics, written by one side
/// and read by the other.
///
/// Both operations are single relaxed atomic accesses, so the audio side
/// never blocks, waits or allocates on it. A read returns whichever value
/// was most recently published by the other side; nothing is promised about
/// which one that is, since the other side runs on its own schedule — a
/// stale read is valid and expected, and the consumer's own logic (the
/// engine's edge-triggered retargeting, the panel's idempotent display
/// update) is verified for every value a read may return.
#[derive(Clone)]
pub struct SharedCell {
    inner: Arc<AtomicU32>,
}

impl SharedCell {
    /// A fresh cell holding `initial`. Clone the cell to hand one side its
    /// own handle to the same slot.
    pub fn new(initial: u32) -> SharedCell {
        SharedCell { inner: Arc::new(AtomicU32::new(initial)) }
    }

    /// Replaces the latest value. Wait-free; the previous value is
    /// discarded, never queued: last write wins.
    pub fn publish(&self, value: u32) {
        self.inner.store(value, Ordering::Relaxed);
    }

    /// Reads the latest value without waiting.
    pub fn read(&self) -> u32 {
        self.inner.load(Ordering::Relaxed)
    }
}

/// The four telemetry slots one audio stream publishes for its display:
/// input and output magnitude, left and right, as linear amplitudes in
/// millionths. The audio callback writes them once per block; the control
/// surface polls them on its own schedule.
#[derive(Clone)]
pub struct TelemetryCells {
    pub in_l: SharedCell,
    pub in_r: SharedCell,
    pub out_l: SharedCell,
    pub out_r: SharedCell,
}

impl TelemetryCells {
    /// Fresh telemetry slots, all silent.
    pub fn new() -> TelemetryCells {
        TelemetryCells {
            in_l: SharedCell::new(0),
            in_r: SharedCell::new(0),
            out_l: SharedCell::new(0),
            out_r: SharedCell::new(0),
        }
    }

    /// Publishes one block's closing magnitudes, one write per slot.
    pub fn publish(&self, in_l: u32, in_r: u32, out_l: u32, out_r: u32) {
        self.in_l.publish(in_l);
        self.in_r.publish(in_r);
        self.out_l.publish(out_l);
        self.out_r.publish(out_r);
    }
}

} // verus!
