//! Procedural synthesis of short sound effects from a compact parameter
//! description, in pure fixed-point integer arithmetic.
//!
//! A sound is described by a [`types::Asyn`] value: a pitch curve, a tone
//! (waveform plus harmonics), an amplitude envelope and an optional set of
//! filter stages. Rendering a description at a sample rate yields a
//! deterministic buffer of 16-bit samples; the same description always
//! renders to the same buffer. A bounded mutation operator perturbs a
//! description for iterative sound design.
//!
//! Quantities are carried as integers throughout:
//! frequencies in millihertz, times in milliseconds (flanger delays in
//! microseconds), unit-range fractions in thousandths, oscillator phases as
//! 32-bit binary fractions of a cycle, and audio samples scaled so that
//! `wave::WAVE_ONE` stands for 1.0.

pub mod env;
pub mod filter;
pub mod frand;
pub mod laws;
pub mod mutate;
pub mod net;
pub mod num;
pub mod osc;
pub mod render;
pub mod rng;
pub mod types;
pub mod wave;
