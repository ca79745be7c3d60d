//! Push-to-transcribe core: a verified model of a desktop dictation tool.
//!
//! The library holds the engineering content of the tool: the tri-state
//! recording lifecycle and its controller, validation of the captured audio
//! artifact, the transcription client's retry and error-classification
//! policy, and the hand-off of a finished result back to the interactive
//! thread.  Everything that touches the operating system — spawning the
//! capture process, the HTTP exchange, the clipboard and refinement tools —
//! is left to a thin unverified shell that feeds this library plain values
//! and carries out the actions it decides on.

pub mod client;
pub mod collab;
pub mod state;
pub mod text;
pub mod worker;

use vstd::prelude::*;

verus! {

/// Smallest artifact size, in bytes, accepted for transcription.  Anything
/// smaller is treated as an empty or corrupt capture.
pub const MIN_ARTIFACT_BYTES: u64 = 4096;

/// Largest artifact size, in bytes, the transcription service accepts.
pub const MAX_ARTIFACT_BYTES: u64 = 25 * 1024 * 1024;

} // verus!
