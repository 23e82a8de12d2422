//! Capture of microphone audio into a sample buffer, the stop sequence that
//! persists it exactly once, and the supervision of the processing that follows.
//!
//! The library holds state and decisions only: a host program feeds it the
//! frames a device delivers, writes the bytes it hands out, and reports back
//! what happened.
pub mod format;
pub mod sample;
pub mod buffer;
pub mod wav;
pub mod capture;
pub mod stop;
pub mod pipeline;
pub mod config;
pub mod env;
pub mod api;
