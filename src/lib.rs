//! A monophonic synthesizer engine driven by MIDI messages.
//!
//! The engine works on fixed-point numbers: levels and gains are scaled so
//! that `UNITY` stands for 1.0, and the oscillator phase is a 32-bit fraction
//! of a full cycle. Conversions to and from floating point (sine, exponential
//! coefficients, note frequencies) live with the audio front end.
pub mod control;
pub mod envelope;
pub mod fixed;
pub mod midi;
pub mod synth;
