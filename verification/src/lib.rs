//! A small polyphonic percussion synthesizer: eight one-shot drum voices
//! (kick, snare, clap, closed/open hat, tom, two percussion slots), each
//! rendered from a sine oscillator, filtered noise and an exponential
//! envelope, mixed through a master bus (saturation, compressor, reverb).
//!
//! All audio arithmetic is fixed-point: signed 64-bit values carrying 32
//! fractional bits, so that every sample path is deterministic and free of
//! overflow by proof.

pub mod fixed;
pub mod math;
pub mod params;
pub mod drum_engine;
pub mod bus;
pub mod engine;
pub mod kits;
