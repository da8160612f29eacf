//! The frames that players and recorders move: a fixed number of channels,
//! each holding one sample.

use vstd::prelude::*;

use crate::speakers::SurroundFrame;

verus! {

/// A frame of audio: one sample for each of its channels.
pub trait Frame: Copy + Clone + Default {
    /// The number of channels in a frame.
    const CH: u8;

    /// The type of one sample.
    type Sample;
}

impl<T: Copy + Default> Frame for SurroundFrame<T> {
    const CH: u8 = 8;

    type Sample = T;
}

} // verus!
