//! Core of a debounced-switch-to-MIDI controller.
//!
//! The crate has two halves:
//!
//! - [`button`]: a wraparound-safe millisecond elapsed-time computation and a
//!   four-state debounce machine that turns noisy raw samples into a stable
//!   boolean state with edge detection and a toggle flag;
//! - [`midi`]: stateless encoders that map (channel, parameter, value)
//!   triples into fixed-length MIDI message byte sequences.
//!
//! Reading the raw input, counting ticks under interrupt exclusion, and
//! writing the encoded bytes to a serial sink are left to the caller: every
//! function here is pure and fully specified.

pub mod button;
pub mod midi;
