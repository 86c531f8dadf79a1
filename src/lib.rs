//! Time-shift audio engine core: a sample ring buffer addressed by absolute
//! positions, and a playback controller that keeps the read cursor live,
//! paused or shifted behind the write cursor.
//!
//! Samples are a type parameter: the engine only moves them, and leaves
//! scaling them by a gain to the caller, who is told the gain as an exact
//! fraction.
pub mod controller;
pub mod devices;
pub mod ring_buffer;
pub mod session;
pub mod state;
