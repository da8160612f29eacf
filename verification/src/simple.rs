//! The stereo 16-bit speaker and microphone with a generator interface: how
//! the hardware is configured step by step, how many frames to generate, and
//! how frames are laid out for the device.

use vstd::prelude::*;

use crate::error::AudioError;
use crate::pcm::{SndPcmAccess, SndPcmFormat, SndPcmStream};
use crate::text::{push_decimal, push_text, spec_decimal};

verus! {

/// The direction to open a device in: capture for a microphone, playback for
/// a speaker.
pub fn open_stream(microphone: bool) -> (r: SndPcmStream)
    ensures
        microphone ==> r == SndPcmStream::Capture,
        !microphone ==> r == SndPcmStream::Playback,
{
    if microphone {
        SndPcmStream::Capture
    } else {
        SndPcmStream::Playback
    }
}

/// The outcome of opening a device: a negative status means there is no such
/// device.
pub fn open_outcome(status: i32) -> (r: Result<(), AudioError>)
    ensures
        status < 0 ==> r matches Err(AudioError::NoDevice),
        status >= 0 ==> r is Ok,
{
    if status < 0 {
        Err(AudioError::NoDevice)
    } else {
        Ok(())
    }
}

/// The steps of configuring a device's hardware parameters, in order.
#[derive(Debug, Clone, Copy, PartialEq, Eq, Structural)]
pub enum HwStep {
    /// Allocate the parameter structure.
    Allocate,
    /// Fill it with the full configuration space.
    Initialize,
    /// Enable resampling.
    Resample,
    /// Set interleaved read/write access.
    Access,
    /// Set the signed 16-bit little-endian format.
    Format,
    /// Set two channels.
    Channels,
    /// Set the rate nearest to the requested one.
    Rate,
    /// Apply the parameters.
    Apply,
}

/// The steps of configuring the hardware, in the order they are taken.
pub open spec fn spec_hw_steps() -> Seq<HwStep> {
    seq![
        HwStep::Allocate,
        HwStep::Initialize,
        HwStep::Resample,
        HwStep::Access,
        HwStep::Format,
        HwStep::Channels,
        HwStep::Rate,
        HwStep::Apply,
    ]
}

/// The steps of configuring the hardware, in the order they are taken; after
/// [`HwStep::Rate`] the rate obtained is checked with [`check_rate`].
pub fn hw_steps() -> (r: Vec<HwStep>)
    ensures
        r@ == spec_hw_steps(),
{
    let r = vec![
        HwStep::Allocate,
        HwStep::Initialize,
        HwStep::Resample,
        HwStep::Access,
        HwStep::Format,
        HwStep::Channels,
        HwStep::Rate,
        HwStep::Apply,
    ];
    assert(r@ =~= spec_hw_steps());
    r
}

/// The access type that the configuration asks for.
pub fn access_type() -> (r: SndPcmAccess)
    ensures
        r == SndPcmAccess::RwInterleaved,
{
    SndPcmAccess::RwInterleaved
}

/// The sample format that the configuration asks for.
pub fn sample_format() -> (r: SndPcmFormat)
    ensures
        r == SndPcmFormat::S16Le,
{
    SndPcmFormat::S16Le
}

/// The channel count that the configuration asks for (stereo).
pub const CHANNELS: u32 = 2;

/// The resampling setting that the configuration asks for (enabled).
pub const RESAMPLE: u32 = 1;

impl HwStep {
    /// The message of the error that failing this step gives.
    pub open spec fn spec_message(self) -> Seq<char> {
        match self {
            HwStep::Allocate => "Cannot allocate hardware parameter structure!"@,
            HwStep::Initialize => "Cannot initialize hardware parameter structure!"@,
            HwStep::Resample => "Resampling setup failed for playback!"@,
            HwStep::Access => "Cannot set access type!"@,
            HwStep::Format => "Cannot set sample format!"@,
            HwStep::Channels => "Cannot set channel count!"@,
            HwStep::Rate => "Cannot set sample rate!"@,
            HwStep::Apply => "Failed to set parameters!"@,
        }
    }

    /// The error that failing this step gives.
    pub fn error(&self) -> (r: AudioError)
        ensures
            r matches AudioError::InternalError(m) && m@ == self.spec_message(),
    {
        let mut m = String::new();
        match self {
            HwStep::Allocate => push_text(&mut m, "Cannot allocate hardware parameter structure!"),
            HwStep::Initialize => push_text(
                &mut m,
                "Cannot initialize hardware parameter structure!",
            ),
            HwStep::Resample => push_text(&mut m, "Resampling setup failed for playback!"),
            HwStep::Access => push_text(&mut m, "Cannot set access type!"),
            HwStep::Format => push_text(&mut m, "Cannot set sample format!"),
            HwStep::Channels => push_text(&mut m, "Cannot set channel count!"),
            HwStep::Rate => push_text(&mut m, "Cannot set sample rate!"),
            HwStep::Apply => push_text(&mut m, "Failed to set parameters!"),
        }
        assert(m@ =~= self.spec_message());
        AudioError::InternalError(m)
    }
}

/// The message for a device that did not take the requested rate.
pub open spec fn spec_rate_message(requested: u32, actual: u32) -> Seq<char> {
    "Failed to set rate: "@ + spec_decimal(requested as nat) + ", Got: "@ + spec_decimal(
        actual as nat,
    ) + " instead!"@
}

/// The message for a device that took `actual` where `requested` was asked
/// for (a speaker that cannot go on aborts with it).
pub fn rate_message(requested: u32, actual: u32) -> (m: String)
    requires
        requested != actual,
    ensures
        m@ == spec_rate_message(requested, actual),
{
    let mut m = String::new();
    push_text(&mut m, "Failed to set rate: ");
    push_decimal(&mut m, requested as u64);
    push_text(&mut m, ", Got: ");
    push_decimal(&mut m, actual as u64);
    push_text(&mut m, " instead!");
    assert(m@ =~= spec_rate_message(requested, actual));
    m
}

/// Check the rate that the device took against the requested one: they must
/// be equal.
pub fn check_rate(requested: u32, actual: u32) -> (r: Result<(), AudioError>)
    ensures
        requested == actual ==> r is Ok,
        requested != actual ==> (r matches Err(AudioError::InternalError(m)) && m@
            == spec_rate_message(requested, actual)),
{
    if actual == requested {
        return Ok(());
    }
    Err(AudioError::InternalError(rate_message(requested, actual)))
}

/// The error for a device that could not be prepared.
pub fn prepare_error() -> (r: AudioError)
    ensures
        r matches AudioError::InternalError(m) && m@ == "Could not prepare!"@,
{
    let mut m = String::new();
    push_text(&mut m, "Could not prepare!");
    assert(m@ =~= "Could not prepare!"@);
    AudioError::InternalError(m)
}

/// The error for a device that could not be started.
pub fn start_error() -> (r: AudioError)
    ensures
        r matches AudioError::InternalError(m) && m@ == "Could not start!"@,
{
    let mut m = String::new();
    push_text(&mut m, "Could not start!");
    assert(m@ =~= "Could not start!"@);
    AudioError::InternalError(m)
}

/// The number of frames to generate so that the device holds a full buffer:
/// `left` frames are still waiting (its buffer size less what is
/// available), and it should hold `period_size * 4`; nothing when it holds
/// that many already.
pub open spec fn spec_frames_to_write(buffer_size: u64, period_size: u64, avail: u64) -> int {
    let left = buffer_size - avail;
    let buffer_length = period_size * 4;
    if left < buffer_length {
        buffer_length - left
    } else {
        0
    }
}

/// A stereo 16-bit speaker: the sizes its device reported and the
/// interleaved samples of the last write.
#[derive(Debug)]
pub struct Speaker {
    sample_rate: u32,
    buffer_size: u64,
    period_size: u64,
    buffer: Vec<i16>,
}

/// The interleaved samples of stereo frames: left, right, left, right, ...
pub open spec fn spec_interleave(frames: Seq<(i16, i16)>) -> Seq<i16>
    decreases frames.len(),
{
    if frames.len() == 0 {
        Seq::empty()
    } else {
        spec_interleave(frames.drop_last()).push(frames.last().0).push(frames.last().1)
    }
}

proof fn lemma_interleave_index(frames: Seq<(i16, i16)>, i: int)
    requires
        0 <= i < frames.len(),
    ensures
        spec_interleave(frames).len() == 2 * frames.len(),
        spec_interleave(frames)[2 * i] == frames[i].0,
        spec_interleave(frames)[2 * i + 1] == frames[i].1,
    decreases frames.len(),
{
    if i < frames.len() - 1 {
        lemma_interleave_index(frames.drop_last(), i);
    } else {
        lemma_interleave_len(frames.drop_last());
    }
}

proof fn lemma_interleave_len(frames: Seq<(i16, i16)>)
    ensures
        spec_interleave(frames).len() == 2 * frames.len(),
    decreases frames.len(),
{
    if frames.len() > 0 {
        lemma_interleave_len(frames.drop_last());
    }
}

impl Speaker {
    /// The sample rate that the device runs at.
    pub closed spec fn spec_sample_rate(&self) -> u32 {
        self.sample_rate
    }

    /// Buffer size (frames) that the device reported.
    pub closed spec fn spec_buffer_size(&self) -> u64 {
        self.buffer_size
    }

    /// Period size (frames) that the device reported.
    pub closed spec fn spec_period_size(&self) -> u64 {
        self.period_size
    }

    /// Samples of the last write.
    pub closed spec fn spec_buffer(&self) -> Seq<i16> {
        self.buffer@
    }

    /// A speaker at `requested_rate` whose device took `actual_rate` and
    /// reported these buffer and period sizes.  A speaker exists only at the
    /// rate it was asked for: the device must have taken exactly that rate
    /// (see [`check_rate`] and [`rate_message`] for the other case).
    pub fn new(requested_rate: u32, actual_rate: u32, buffer_size: u64, period_size: u64) -> (s:
        Speaker)
        requires
            requested_rate == actual_rate,
        ensures
            s.spec_sample_rate() == requested_rate,
            s.spec_buffer_size() == buffer_size,
            s.spec_period_size() == period_size,
            s.spec_buffer() == Seq::<i16>::empty(),
    {
        Speaker { sample_rate: actual_rate, buffer_size, period_size, buffer: Vec::new() }
    }

    /// The sample rate that the device runs at.
    pub fn sample_rate(&self) -> (r: u32)
        ensures
            r == self.spec_sample_rate(),
    {
        self.sample_rate
    }

    /// How many frames to generate, given the frames the device has
    /// available.
    pub fn frames_to_write(&self, avail: u64) -> (r: u64)
        requires
            avail <= self.spec_buffer_size(),
            self.spec_period_size() * 4 <= u64::MAX,
        ensures
            r == spec_frames_to_write(self.spec_buffer_size(), self.spec_period_size(), avail),
            r > 0 ==> r + (self.spec_buffer_size() - avail) == self.spec_period_size() * 4,
            (self.spec_buffer_size() - avail) < self.spec_period_size() * 4 ==> r > 0 && r + (
            self.spec_buffer_size() - avail) == self.spec_period_size() * 4,
            (self.spec_buffer_size() - avail) >= self.spec_period_size() * 4 ==> r == 0,
    {
        let left = self.buffer_size - avail;
        let buffer_length = self.period_size * 4;
        if left < buffer_length {
            buffer_length - left
        } else {
            0
        }
    }

    /// Lay out the generated frames for the device: the buffer holds their
    /// samples, interleaved.
    pub fn load(&mut self, frames: &Vec<(i16, i16)>)
        requires
            2 * frames@.len() <= usize::MAX,
        ensures
            final(self).spec_buffer() == spec_interleave(frames@),
            final(self).spec_sample_rate() == old(self).spec_sample_rate(),
            final(self).spec_buffer_size() == old(self).spec_buffer_size(),
            final(self).spec_period_size() == old(self).spec_period_size(),
    {
        self.buffer.clear();
        let mut i: usize = 0;
        while i < frames.len()
            invariant
                i <= frames@.len(),
                self.buffer@ == spec_interleave(frames@.take(i as int)),
                self.buffer_size == old(self).buffer_size,
                self.sample_rate == old(self).sample_rate,
                self.period_size == old(self).period_size,
            decreases frames@.len() - i,
        {
            let (l, r) = frames[i];
            self.buffer.push(l);
            self.buffer.push(r);
            assert(frames@.take(i + 1).drop_last() =~= frames@.take(i as int));
            i = i + 1;
        }
        assert(frames@.take(frames@.len() as int) =~= frames@);
    }

    /// The samples to hand to the device.
    pub fn samples(&self) -> (r: &Vec<i16>)
        ensures
            r@ == self.spec_buffer(),
    {
        &self.buffer
    }
}

/// The left and right channels of stereo frames, in separate buffers.
pub fn planar(frames: &Vec<(i16, i16)>) -> (r: (Vec<i16>, Vec<i16>))
    ensures
        r.0@.len() == frames@.len(),
        r.1@.len() == frames@.len(),
        forall|i: int| 0 <= i < frames@.len() ==> r.0@[i] == frames@[i].0 && r.1@[i] == frames@[i].1,
{
    let mut left: Vec<i16> = Vec::new();
    let mut right: Vec<i16> = Vec::new();
    let mut i: usize = 0;
    while i < frames.len()
        invariant
            i <= frames@.len(),
            left@.len() == i,
            right@.len() == i,
            forall|j: int| 0 <= j < i ==> left@[j] == frames@[j].0 && right@[j] == frames@[j].1,
        decreases frames@.len() - i,
    {
        let (l, r) = frames[i];
        left.push(l);
        right.push(r);
        i = i + 1;
    }
    (left, right)
}

/// The frames that a recording hands to its generator: the microphone's
/// buffer holds `2 * avail` interleaved samples, and the pairs of the first
/// `avail / 2` frames are taken.
pub fn record_frames(buffer: &Vec<i16>, avail: usize) -> (r: Vec<(i16, i16)>)
    requires
        buffer@.len() == 2 * avail,
    ensures
        r@.len() == avail / 2,
        forall|i: int| 0 <= i < avail / 2 ==> r@[i] == (buffer@[2 * i], buffer@[2 * i + 1]),
{
    let n = avail / 2;
    let mut out: Vec<(i16, i16)> = Vec::new();
    let mut i: usize = 0;
    while i < n
        invariant
            n == avail / 2,
            buffer@.len() == 2 * avail,
            i <= n,
            out@.len() == i,
            forall|j: int| 0 <= j < i ==> out@[j] == (buffer@[2 * j], buffer@[2 * j + 1]),
        decreases n - i,
    {
        out.push((buffer[i * 2], buffer[i * 2 + 1]));
        i = i + 1;
    }
    out
}

/// Frames that a speaker lays out and a microphone reads back from the same
/// samples come back unchanged: the samples of frame `i` are left at `2 * i`
/// and right at `2 * i + 1`.
pub proof fn lemma_interleave_round_trip(frames: Seq<(i16, i16)>, i: int)
    requires
        0 <= i < frames.len(),
    ensures
        spec_interleave(frames).len() == 2 * frames.len(),
        (spec_interleave(frames)[2 * i], spec_interleave(frames)[2 * i + 1]) == frames[i],
{
    lemma_interleave_index(frames, i);
}


/// The device is topped up to four periods: whenever fewer frames than four
/// periods are still queued (the buffer size less what is available), the
/// count to generate is positive and brings the queue to exactly four
/// periods; otherwise nothing is generated.
pub proof fn lemma_frames_to_write_fills(buffer_size: u64, period_size: u64, avail: u64)
    requires
        avail <= buffer_size,
    ensures
        (buffer_size - avail) < period_size * 4 ==> spec_frames_to_write(
            buffer_size,
            period_size,
            avail,
        ) > 0 && spec_frames_to_write(buffer_size, period_size, avail) + (buffer_size - avail)
            == period_size * 4,
        (buffer_size - avail) >= period_size * 4 ==> spec_frames_to_write(
            buffer_size,
            period_size,
            avail,
        ) == 0,
{
}

} // verus!
