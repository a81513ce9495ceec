//! Wavetable synthesis core: five fixed-size waveform tables (sine, triangle,
//! saw, square, noise) and an oscillator that walks a selected table at a
//! frequency-derived rate, producing linearly interpolated samples.
//!
//! Amplitudes and the oscillator's phase are fixed-point integers: a sample of
//! `AMPLITUDE` stands for 1.0, and the phase carries `PHASE_FRAC_ONE` sub-index
//! steps per table position.

pub mod noise;
pub mod oscillator;
pub mod saw;
pub mod sin;
pub mod square;
pub mod triangle;
pub mod wavetable;
