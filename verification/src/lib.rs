//! Real-time musical note detection from a magnitude spectrum.
//!
//! The library models audio samples, window-taper coefficients, spectrum
//! magnitudes and note frequencies as fixed-point integers, so that every
//! stage of the analysis pipeline — windowing, magnitude-spectrum
//! construction, local-maxima detection, prominence filtering and
//! nearest-note resolution — is verified. The forward Fourier transform
//! itself is floating-point numerical work and stays with the caller: the
//! caller hands the transform's output back as integer complex bins.

use vstd::prelude::*;

pub mod math;
pub mod window;
pub mod spectrum;
pub mod peaks;
pub mod notes;
pub mod engine;

verus! {

/// Largest sample amplitude the analyzer accepts, in micro-units
/// (one million micro-units stand for a full-scale amplitude of one).
pub const SAMPLE_LIMIT: i64 = 1_000_000_000;

/// Fixed-point value of a taper coefficient of one, in micro-units.
pub const TAPER_ONE: u64 = 1_000_000;

/// Largest magnitude a complex-bin component may carry.
pub const BIN_COMPONENT_LIMIT: i64 = 2_147_483_648;

/// Largest supported analysis window length, in samples.
pub const MAX_WINDOW_SIZE: usize = 16_777_216;

/// Largest supported sample rate, in Hz.
pub const MAX_SAMPLE_RATE: u64 = 1_000_000;

} // verus!
