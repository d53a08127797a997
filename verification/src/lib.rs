//! Native lifetime and preallocated capture of a macOS voice processing audio unit.
//!
//! The library decides; its owner talks to the audio system. [`unit`] says which native calls an
//! operation makes and what becomes of their replies, [`capture`] does the same for a run of the
//! capture callback, [`input`] is the storage that callback works on, and [`silence`] fills the
//! output bus. [`probe`] plans and judges bounded test recordings.
pub mod capture;
pub mod input;
pub mod native;
pub mod probe;
pub mod silence;
pub mod unit;
