//! Core of a polyphonic keyboard synthesizer: a registry of currently
//! sounding tones, the input-side controller that mutates it, and the
//! renderer's sample clock.
//!
//! Numeric conventions: a frequency is identified by the bit pattern of
//! its floating-point value, computed once per musical key, so equal notes
//! always carry equal keys; the master volume is counted in fixed steps of
//! one twentieth of full amplitude. The floating-point evaluation of the
//! waveforms themselves, and the audio/window backends, live outside this
//! library.

pub mod controller;
pub mod registry;
pub mod renderer;
pub mod waveform;
