//! Hard-coded constants used throughout the library for dealing with real-time
//! computer audio.

use vstd::prelude::*;

verus! {

/// Preferred sample rate chosen by this library: 48 KHz, one of the standards
/// for computer audio and the default of the Ogg Opus format.
pub const SAMPLE_RATE: u16 = 48_000;

/// Size of the ring buffer used by the system.  256 is the minimum allowed by
/// the `createScriptProcessor` JavaScript API, and low latency is the target.
pub const BUFFER_SIZE: u16 = 256;

/// Target for how many samples are processed at a time.
pub const CHUNK_SIZE: u16 = 32;

} // verus!
