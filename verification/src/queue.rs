//! The audio-queue backend: the integer fields of the stream format it asks
//! for, and how its output callback fills the queue's buffer.

use vstd::prelude::*;

verus! {

/// The integer fields of an audio queue's stream format: linear PCM of
/// 32-bit floats, one frame per packet.  (The sample rate goes with it.)
#[derive(Debug, Clone, Copy)]
pub struct QueueFormat {
    /// The format's four-character code, `lpcm` (linear PCM), as bytes in
    /// order; the system reads them as one native-endian integer.
    pub format_id: (u8, u8, u8, u8),
    /// Format flags: 1 for floating-point samples.
    pub format_flags: u32,
    /// Bytes in a packet.
    pub bytes_per_packet: u32,
    /// Frames in a packet.
    pub frames_per_packet: u32,
    /// Bytes in a frame.
    pub bytes_per_frame: u32,
    /// Channels in a frame.
    pub channels_per_frame: u32,
    /// Bits in one channel's sample.
    pub bits_per_channel: u32,
    /// Always zero.
    pub reserved: u32,
}

impl QueueFormat {
    /// The stream format for `channels` channels of 32-bit float samples.
    pub fn new(channels: u32) -> (f: QueueFormat)
        requires
            4 * channels <= u32::MAX,
        ensures
            f == (QueueFormat {
                format_id: (108u8, 112u8, 99u8, 109u8),
                format_flags: 1,
                bytes_per_packet: (4 * channels) as u32,
                frames_per_packet: 1,
                bytes_per_frame: (4 * channels) as u32,
                channels_per_frame: channels,
                bits_per_channel: 32,
                reserved: 0,
            }),
    {
        QueueFormat {
            format_id: (108u8, 112u8, 99u8, 109u8),
            format_flags: 1,
            bytes_per_packet: 4 * channels,
            frames_per_packet: 1,
            bytes_per_frame: 4 * channels,
            channels_per_frame: channels,
            bits_per_channel: 4 * 8,
            reserved: 0,
        }
    }
}

/// What the output callback writes into a queue buffer of `byte_size` bytes
/// (four per sample): the pending samples in order, then `silence` where
/// they run out.  The pending samples are all used up.
pub fn fill_output<T: Copy>(pending: &mut Vec<T>, byte_size: u32, silence: T) -> (out: Vec<T>)
    ensures
        out@.len() == byte_size / 4,
        forall|i: int|
            0 <= i < out@.len() ==> #[trigger] out@[i] == if i < old(pending)@.len() {
                old(pending)@[i]
            } else {
                silence
            },
        final(pending)@ == Seq::<T>::empty(),
{
    let count = (byte_size / 4) as usize;
    let mut out: Vec<T> = Vec::new();
    let mut i: usize = 0;
    while i < count
        invariant
            i <= count,
            count == byte_size / 4,
            pending@ == old(pending)@,
            out@.len() == i,
            forall|j: int|
                0 <= j < i ==> #[trigger] out@[j] == if j < old(pending)@.len() {
                    old(pending)@[j]
                } else {
                    silence
                },
        decreases count - i,
    {
        if i < pending.len() {
            out.push(pending[i]);
        } else {
            out.push(silence);
        }
        i = i + 1;
    }
    pending.clear();
    out
}

} // verus!
