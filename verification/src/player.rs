//! Players and recorders that move whole buffers of frames: what they play
//! when there is nothing to play, when they are ready, and what a failed
//! transfer leads to.

use vstd::prelude::*;

use crate::pcm::SndPcmState;
use crate::recovery::{recovery, spec_recoverable, spec_recovery, Recovery};

verus! {

/// The number of frames of silence played when there is no audio.
pub const SILENCE_FRAMES: usize = 1024;

/// The frames that a player hands to the device: the audio, or a buffer of
/// silence when the audio is empty.
pub fn frames_to_play<F: Copy>(audio: &Vec<F>, silence: F) -> (r: Vec<F>)
    ensures
        audio@.len() > 0 ==> r@ == audio@,
        audio@.len() == 0 ==> r@ == Seq::new(SILENCE_FRAMES as nat, |_i: int| silence),
{
    let mut out: Vec<F> = Vec::new();
    if audio.len() == 0 {
        let mut i: usize = 0;
        while i < SILENCE_FRAMES
            invariant
                i <= SILENCE_FRAMES,
                out@ == Seq::new(i as nat, |_i: int| silence),
            decreases SILENCE_FRAMES - i,
        {
            out.push(silence);
            assert(out@ =~= Seq::new((i + 1) as nat, |_i: int| silence));
            i = i + 1;
        }
    } else {
        let mut i: usize = 0;
        while i < audio.len()
            invariant
                i <= audio@.len(),
                out@ == audio@.take(i as int),
            decreases audio@.len() - i,
        {
            out.push(audio[i]);
            assert(out@ =~= audio@.take(i + 1));
            i = i + 1;
        }
        assert(out@ =~= audio@);
    }
    out
}

/// What a write or read of frames came to.
#[derive(Debug, Clone, Copy, PartialEq, Eq, Structural)]
pub enum Transfer {
    /// This many frames were moved.
    Done(usize),
    /// Nothing was moved; recover as said (the count is then 0).
    Failed(Recovery),
}

/// Readiness of a player or recorder whose device wakes it when it can move
/// frames again, and the sample rate that its device runs at.
#[derive(Debug)]
pub struct Readiness {
    is_ready: bool,
    sample_rate: u32,
}

impl Readiness {
    /// Whether the device is taken to be ready.
    pub closed spec fn spec_ready(&self) -> bool {
        self.is_ready
    }

    /// The sample rate of the device.
    pub closed spec fn spec_sample_rate(&self) -> u32 {
        self.sample_rate
    }

    /// A new connection to a device running at `sample_rate`: ready.
    pub fn new(sample_rate: u32) -> (r: Readiness)
        ensures
            r.spec_ready(),
            r.spec_sample_rate() == sample_rate,
    {
        Readiness { is_ready: true, sample_rate }
    }

    /// The sample rate of the device.
    pub fn sample_rate(&self) -> (r: u32)
        ensures
            r == self.spec_sample_rate(),
    {
        self.sample_rate
    }

    /// A poll: when ready, the device's sample rate; otherwise not yet (the
    /// caller registers its waker), and the next poll, after the device woke
    /// the task, is ready.
    pub fn poll(&mut self) -> (r: Option<u32>)
        ensures
            old(self).spec_ready() ==> r == Some(old(self).spec_sample_rate()),
            !old(self).spec_ready() ==> r is None,
            final(self).spec_ready(),
            final(self).spec_sample_rate() == old(self).spec_sample_rate(),
    {
        if self.is_ready {
            Some(self.sample_rate)
        } else {
            self.is_ready = true;
            None
        }
    }

    /// What the return value `ret` of a transfer (frames moved, or a negative
    /// error) comes to.  `state` is the device's state; the caller asks for it
    /// only when `ret` is `-EPIPE`.  Only errors that can be recovered from
    /// are taken: on any other the stream is aborted.  A device that is not
    /// ready makes the connection wait for a wake-up.
    pub fn transfer(&mut self, ret: i64, state: Option<SndPcmState>) -> (r: Transfer)
        requires
            ret < 0 ==> spec_recoverable(ret, state),
            ret <= usize::MAX,
        ensures
            ret >= 0 ==> r == Transfer::Done(ret as usize) && final(self).spec_ready()
                == old(self).spec_ready(),
            ret < 0 ==> r == Transfer::Failed(spec_recovery(ret, state)),
            ret < 0 ==> final(self).spec_ready() == (old(self).spec_ready() && spec_recovery(
                ret,
                state,
            ) != Recovery::Wait),
            final(self).spec_sample_rate() == old(self).spec_sample_rate(),
    {
        if ret >= 0 {
            Transfer::Done(ret as usize)
        } else {
            let action = recovery(ret, state);
            if action == Recovery::Wait {
                self.is_ready = false;
            }
            Transfer::Failed(action)
        }
    }
}

/// The number of frames of `audio_len` frames of audio that a play call
/// reports as played, given what the transfer came to: none for empty audio
/// (only silence was played), none after a failed transfer, otherwise the
/// frames that the device took.
pub fn frames_played(audio_len: usize, t: Transfer) -> (r: usize)
    ensures
        audio_len == 0 ==> r == 0,
        audio_len > 0 ==> r == match t {
            Transfer::Done(n) => n,
            Transfer::Failed(_) => 0usize,
        },
{
    if audio_len == 0 {
        0
    } else {
        match t {
            Transfer::Done(n) => n,
            Transfer::Failed(_) => 0,
        }
    }
}

/// How much room to reserve before recording into a vector of `len` frames
/// with room for `capacity`: when fewer than 1024 more frames fit, room for
/// `capacity + 1024` more; otherwise none.
pub fn reserve_amount(len: usize, capacity: usize) -> (r: Option<usize>)
    requires
        len + 1024 <= usize::MAX,
        capacity + 1024 <= usize::MAX,
    ensures
        len + 1024 > capacity ==> r == Some((capacity + 1024) as usize),
        len + 1024 <= capacity ==> r is None,
{
    if len + 1024 > capacity {
        Some(capacity + 1024)
    } else {
        None
    }
}

} // verus!
