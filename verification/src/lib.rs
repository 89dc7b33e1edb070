//! Real-time audio gain stage: click-free ramped volume changes, level
//! metering, and the wait-free cells that move parameter updates and meter
//! readings between a real-time audio callback and a control surface.
//!
//! All signal quantities are carried in fixed-point integers so that every
//! computation is exact and verifiable:
//! - control positions, linear amplitudes and display levels are in
//!   millionths, with `convert::UNITY` standing for 1.0;
//! - decibel levels are in micro-decibels, with
//!   `convert::FLOOR_MICRO_DB` the -80 dB dynamic range floor.
//!
//! The floating-point edges (the audio driver's `f32` samples, and the
//! transcendental decibel/linear conversions) stay outside this crate; they
//! hand values in and out in the fixed-point units above.

pub mod channel;
pub mod convert;
pub mod engine;
pub mod gain;
pub mod meter;
pub mod panel;
pub mod ramp;
