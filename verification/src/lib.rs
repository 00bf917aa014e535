//! A monophonic tone synthesiser in exact integer arithmetic.
//!
//! A tone is described by a waveform, a frequency, a duration and an ADSR
//! envelope. The renderer evaluates the waveform at the phase of each
//! sample's time, multiplies it by the envelope's gain at that time and fills
//! a stereo buffer. An oscillator offers the same waveforms as a stream: it
//! reads one cycle from a lookup table at a fixed-point phase that advances
//! by a fixed increment with every sample.
//!
//! Every real quantity is a fixed-point integer. Ratios and sample values are
//! counted in millionths of full scale, times in microseconds, frequencies in
//! microhertz, and the oscillator's phase in 2^-32 of a cycle. The one
//! transcendental ingredient, a cycle of the sine, is handed in as a table of
//! such integers; everything built on it is proved against a mathematical
//! model.

pub mod cycle;
pub mod envelope;
pub mod note;
pub mod oscillator;
pub mod phase;
pub mod render;
pub mod text;
pub mod tone;
pub mod units;
pub mod wav;
pub mod waveform;
pub mod wavetable;
