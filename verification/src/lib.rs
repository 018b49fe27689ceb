//! Core of a modular audio-synthesis rack: the real-time pipeline that turns
//! an irregularly clocked control loop into a sample-accurate audio stream.
//!
//! - [`frame`] holds the mixable per-instant audio value.
//! - [`rack`] owns the module graph and advances it tick by tick.
//! - [`output`] is the producer side of the bounded buffer toward a device.
//! - [`controller`] decides how many samples each control tick synthesizes.

pub mod controller;
pub mod frame;
pub mod output;
pub mod rack;
