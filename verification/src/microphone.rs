//! The capture side of a microphone: its configuration, the buffer that the
//! device reads into, the lock that keeps the buffer still while a stream
//! reads from it, and how frames are taken out.

use vstd::prelude::*;

use crate::speakers::{resize_vec, resized};

verus! {

/// State of a microphone connection.  `T` is the sample type.
#[derive(Debug)]
pub struct Microphone<T> {
    /// Number of configured channels (0 until the first configuration).
    channels: u8,
    /// Interleaved audio buffer that the device reads into.
    buffer: Vec<T>,
    /// Frames in a period.
    period: u16,
    /// Number of frames that the last read filled.
    endi: usize,
    /// Whether a stream is reading from the buffer.
    locked: bool,
    /// Bit mask of the channel counts that the device supports (bit `i` for
    /// `i + 1` channels).
    supported: u8,
    /// The sample rate of the microphone, once configured.
    sample_rate: Option<u32>,
    /// Number of the device's file descriptors that are watched (0 until the
    /// device is started).
    descriptors: usize,
}

/// A stream of recorded frames, read from the microphone's buffer.
#[derive(Debug, Clone, Copy)]
pub struct MicrophoneStream {
    /// Index of the next frame.
    index: usize,
    /// Channels per frame.
    channels: u8,
    /// The sample rate of the recorded frames, if known.
    sample_rate: Option<u32>,
}

/// What a poll of the microphone does first.
#[derive(Debug, Clone, Copy, PartialEq, Eq, Structural)]
pub enum PollStep {
    /// The microphone is not configured yet: start the device and report it
    /// ready, so that it gets configured.
    Start,
    /// Read from the device into the buffer.
    Read,
}

/// Whether `count` is a channel configuration that a microphone supports:
/// mono, stereo or 5.1 surround.
pub open spec fn spec_valid_count(count: usize) -> bool {
    count == 1 || count == 2 || count == 6
}

/// Whether `count` is a channel configuration that a microphone supports:
/// mono, stereo or 5.1 surround.
pub fn valid_channel_count(count: usize) -> (r: bool)
    ensures
        r == spec_valid_count(count),
{
    count == 1 || count == 2 || count == 6
}

impl MicrophoneStream {
    /// Index of the next frame.
    pub closed spec fn spec_index(&self) -> usize {
        self.index
    }

    /// Channels per frame.
    pub closed spec fn spec_channels(&self) -> u8 {
        self.channels
    }

    /// The sample rate of the recorded frames, if known.
    pub closed spec fn spec_sample_rate(&self) -> Option<u32> {
        self.sample_rate
    }

    /// The sample rate of the recorded frames, if known.
    pub fn sample_rate(&self) -> (r: Option<u32>)
        ensures
            r == self.spec_sample_rate(),
    {
        self.sample_rate
    }
}

impl<T: Copy> Microphone<T> {
    /// Configured channel count.
    pub closed spec fn spec_channels(&self) -> u8 {
        self.channels
    }

    /// The buffer's samples.
    pub closed spec fn spec_buffer(&self) -> Seq<T> {
        self.buffer@
    }

    /// Frames in a period.
    pub closed spec fn spec_period(&self) -> u16 {
        self.period
    }

    /// Frames that the last read filled.
    pub closed spec fn spec_endi(&self) -> usize {
        self.endi
    }

    /// Whether a stream reads from the buffer.
    pub closed spec fn spec_locked(&self) -> bool {
        self.locked
    }

    /// Channel counts that the device supports.
    pub closed spec fn spec_supported(&self) -> u8 {
        self.supported
    }

    /// Configured sample rate.
    pub closed spec fn spec_sample_rate(&self) -> Option<u32> {
        self.sample_rate
    }

    /// Number of watched file descriptors.
    pub closed spec fn spec_descriptors(&self) -> usize {
        self.descriptors
    }

    /// A microphone on a device that supports the channel counts in
    /// `supported`, connected but not configured, with no stream.
    pub fn new(supported: u8) -> (m: Microphone<T>)
        ensures
            m.spec_channels() == 0,
            m.spec_buffer() == Seq::<T>::empty(),
            m.spec_period() == 0,
            m.spec_endi() == 0,
            !m.spec_locked(),
            m.spec_supported() == supported,
            m.spec_sample_rate() is None,
            m.spec_descriptors() == 0,
    {
        Microphone {
            channels: 0,
            buffer: Vec::new(),
            period: 0,
            endi: 0,
            locked: false,
            supported,
            sample_rate: None,
            descriptors: 0,
        }
    }

    /// The configured sample rate, if any.
    pub fn sample_rate(&self) -> (r: Option<u32>)
        ensures
            r == self.spec_sample_rate(),
    {
        self.sample_rate
    }

    /// Number of the device's file descriptors that are watched.
    pub fn descriptors(&self) -> (r: usize)
        ensures
            r == self.spec_descriptors(),
    {
        self.descriptors
    }

    /// The device was started and `registered` of its file descriptors are
    /// now watched.  A device is started once: not while descriptors are
    /// watched already.
    pub fn start(&mut self, registered: usize)
        requires
            old(self).spec_descriptors() == 0,
        ensures
            final(self).spec_descriptors() == registered,
            final(self).spec_channels() == old(self).spec_channels(),
            final(self).spec_buffer() == old(self).spec_buffer(),
            final(self).spec_period() == old(self).spec_period(),
            final(self).spec_endi() == old(self).spec_endi(),
            final(self).spec_locked() == old(self).spec_locked(),
            final(self).spec_supported() == old(self).spec_supported(),
            final(self).spec_sample_rate() == old(self).spec_sample_rate(),
    {
        self.descriptors = registered;
    }

    /// The channel counts that the microphone supports (bit `i` for `i + 1`
    /// channels).  Not while a stream reads from it.
    pub fn channels(&self) -> (r: u8)
        requires
            !self.spec_locked(),
        ensures
            r == self.spec_supported(),
    {
        self.supported
    }

    /// Number of configured channels (0 until the first configuration).
    pub fn configured_channels(&self) -> (r: u8)
        ensures
            r == self.spec_channels(),
    {
        self.channels
    }

    /// Whether a stream reads from the buffer (the microphone may then not be
    /// polled, displayed, asked for its channels, or dropped).
    pub fn is_locked(&self) -> (r: bool)
        ensures
            r == self.spec_locked(),
    {
        self.locked
    }

    /// Frames in a period: how many a read asks the device for.
    pub fn period(&self) -> (r: u16)
        ensures
            r == self.spec_period(),
    {
        self.period
    }

    /// The number of samples in the buffer.
    pub fn buffer_len(&self) -> (r: usize)
        ensures
            r == self.spec_buffer().len(),
    {
        self.buffer.len()
    }

    /// Whether the next frame of `stream`, if the last read filled it, lies
    /// within the buffer (so that [`Microphone::next_frame`] may take it).
    pub fn frame_fits(&self, stream: &MicrophoneStream) -> (r: bool)
        ensures
            r == (stream.spec_index() < self.spec_endi() ==> (stream.spec_index() + 1)
                * stream.spec_channels() <= self.spec_buffer().len()),
    {
        if stream.index >= self.endi {
            return true;
        }
        let ch = stream.channels as usize;
        let idx = stream.index;
        let total = self.buffer.len();
        if ch == 0 {
            return true;
        }
        if idx >= total / ch {
            proof {
                assert((idx + 1) * ch > total) by (nonlinear_arith)
                    requires
                        idx >= total / ch,
                        ch > 0,
                ;
            }
            false
        } else {
            proof {
                assert((idx + 1) * ch <= total) by (nonlinear_arith)
                    requires
                        idx < total / ch,
                        ch > 0,
                ;
            }
            true
        }
    }

    /// The first step of a poll (not while a stream reads from the buffer):
    /// an unconfigured microphone is reported ready at once (and its buffer
    /// is then held for the stream); otherwise the device is read.
    pub fn begin_poll(&mut self) -> (r: PollStep)
        requires
            !old(self).spec_locked(),
        ensures
            old(self).spec_channels() == 0 ==> r == PollStep::Start && final(self).spec_locked()
                && final(self).spec_buffer() == old(self).spec_buffer() && final(self).spec_endi()
                == old(self).spec_endi() && final(self).spec_channels() == 0
                && final(self).spec_period() == old(self).spec_period()
                && final(self).spec_supported() == old(self).spec_supported()
                && final(self).spec_sample_rate() == old(self).spec_sample_rate()
                && final(self).spec_descriptors() == old(self).spec_descriptors(),
            old(self).spec_channels() != 0 ==> r == PollStep::Read && *final(self) == *old(self),
    {
        if self.channels == 0 {
            self.locked = true;
            PollStep::Start
        } else {
            PollStep::Read
        }
    }

    /// The device read `len` frames, whose samples are `samples`: they take
    /// the front of the buffer, and the buffer is held for a stream.
    pub fn read_done(&mut self, len: usize, samples: &Vec<T>)
        requires
            samples@.len() == len * old(self).spec_channels(),
            samples@.len() <= old(self).spec_buffer().len(),
        ensures
            final(self).spec_endi() == len,
            final(self).spec_locked(),
            final(self).spec_buffer().len() == old(self).spec_buffer().len(),
            forall|i: int|
                0 <= i < old(self).spec_buffer().len() ==> #[trigger] final(self).spec_buffer()[i]
                    == if i < samples@.len() {
                    samples@[i]
                } else {
                    old(self).spec_buffer()[i]
                },
            final(self).spec_channels() == old(self).spec_channels(),
            final(self).spec_period() == old(self).spec_period(),
            final(self).spec_supported() == old(self).spec_supported(),
            final(self).spec_sample_rate() == old(self).spec_sample_rate(),
            final(self).spec_descriptors() == old(self).spec_descriptors(),
    {
        let mut i: usize = 0;
        while i < samples.len()
            invariant
                samples@.len() <= self.buffer@.len(),
                self.buffer@.len() == old(self).buffer@.len(),
                self.channels == old(self).channels,
                self.period == old(self).period,
                self.supported == old(self).supported,
                self.sample_rate == old(self).sample_rate,
                self.descriptors == old(self).descriptors,
                i <= samples@.len(),
                forall|j: int|
                    0 <= j < self.buffer@.len() ==> #[trigger] self.buffer@[j] == if j < i {
                        samples@[j]
                    } else {
                        old(self).buffer@[j]
                    },
            decreases samples@.len() - i,
        {
            self.buffer.set(i, samples[i]);
            i = i + 1;
        }
        self.endi = len;
        self.locked = true;
    }

    /// Whether recording `count` channels needs the hardware to be configured
    /// again: when the count differs from the configured one.
    pub fn needs_configuration(&self, count: usize) -> (r: bool)
        ensures
            r == (count != self.spec_channels() as usize),
    {
        count != self.channels as usize
    }

    /// Record that `count` channels are being configured.
    pub fn begin_configuration(&mut self, count: usize)
        requires
            spec_valid_count(count),
        ensures
            final(self).spec_channels() == count,
            final(self).spec_buffer() == old(self).spec_buffer(),
            final(self).spec_period() == old(self).spec_period(),
            final(self).spec_endi() == old(self).spec_endi(),
            final(self).spec_locked() == old(self).spec_locked(),
            final(self).spec_supported() == old(self).spec_supported(),
            final(self).spec_sample_rate() == old(self).spec_sample_rate(),
            final(self).spec_descriptors() == old(self).spec_descriptors(),
    {
        self.channels = count as u8;
    }

    /// Take the configuration that the hardware accepted: its exact sample
    /// rate and period (in frames).  The period must fit in 16 bits, else the
    /// configuration fails (`None`) and only the sample rate is kept; on
    /// success the buffer holds one period of samples, padded with
    /// `silence`.
    pub fn finish_configuration(&mut self, rate: u32, period_size: u32, silence: T) -> (r: Option<
        (),
    >)
        ensures
            final(self).spec_sample_rate() == Some(rate),
            final(self).spec_descriptors() == old(self).spec_descriptors(),
            r is Some <==> period_size <= u16::MAX,
            r is Some ==> final(self).spec_period() == period_size && final(self).spec_buffer()
                == resized(
                old(self).spec_buffer(),
                period_size as int * old(self).spec_channels() as int,
                silence,
            ),
            r is None ==> final(self).spec_period() == old(self).spec_period()
                && final(self).spec_buffer() == old(self).spec_buffer(),
            final(self).spec_channels() == old(self).spec_channels(),
            final(self).spec_endi() == old(self).spec_endi(),
            final(self).spec_locked() == old(self).spec_locked(),
            final(self).spec_supported() == old(self).spec_supported(),
    {
        self.sample_rate = Some(rate);
        if period_size > 65535 {
            return None;
        }
        self.period = period_size as u16;
        let p = self.period as usize;
        let c = self.channels as usize;
        assert(p * c <= 65535 * 255) by (nonlinear_arith)
            requires
                p <= 65535,
                c <= 255,
        ;
        resize_vec(&mut self.buffer, p * c, silence);
        Some(())
    }

    /// Start a stream over the frames that the last read filled.
    pub fn record(&self) -> (s: MicrophoneStream)
        ensures
            s.spec_index() == 0,
            s.spec_channels() == self.spec_channels(),
            s.spec_sample_rate() == self.spec_sample_rate(),
    {
        MicrophoneStream { index: 0, channels: self.channels, sample_rate: self.sample_rate }
    }

    /// The number of frames in a stream.
    pub fn stream_len(&self) -> (r: usize)
        ensures
            r == self.spec_endi(),
    {
        self.endi
    }

    /// The next frame of `stream`: its channels, taken from the buffer; `None`
    /// once the frames that the last read filled are used up.
    pub fn next_frame(&self, stream: &mut MicrophoneStream) -> (r: Option<Vec<T>>)
        requires
            old(stream).spec_index() < self.spec_endi() ==> (old(stream).spec_index() + 1)
                * old(stream).spec_channels() <= self.spec_buffer().len(),
        ensures
            old(stream).spec_index() >= self.spec_endi() ==> r is None && *final(stream)
                == *old(stream),
            old(stream).spec_index() < self.spec_endi() ==> ({
                let start = old(stream).spec_index() * old(stream).spec_channels();
                &&& r matches Some(f) && f@ == self.spec_buffer().subrange(
                    start,
                    start + old(stream).spec_channels(),
                )
                &&& final(stream).spec_index() == old(stream).spec_index() + 1
                &&& final(stream).spec_channels() == old(stream).spec_channels()
                &&& final(stream).spec_sample_rate() == old(stream).spec_sample_rate()
            }),
            *final(stream) == spec_next_frame(*self, *old(stream)).1,
            r is None <==> spec_next_frame(*self, *old(stream)).0 is None,
            r matches Some(f) ==> spec_next_frame(*self, *old(stream)).0 == Some(f@),
    {
        if stream.index >= self.endi {
            return None;
        }
        let ch = stream.channels as usize;
        let total = self.buffer.len();
        let idx = stream.index;
        assert(idx * ch + ch <= total) by (nonlinear_arith)
            requires
                (idx + 1) * ch <= total,
        ;
        let start = idx * ch;
        let mut frame: Vec<T> = Vec::new();
        let mut j: usize = 0;
        while j < ch
            invariant
                start + ch <= self.buffer@.len(),
                self.buffer@.len() == total,
                j <= ch,
                frame@ == self.buffer@.subrange(start as int, start + j),
            decreases ch - j,
        {
            frame.push(self.buffer[start + j]);
            assert(frame@ =~= self.buffer@.subrange(start as int, start + j + 1));
            j = j + 1;
        }
        stream.index = stream.index + 1;
        Some(frame)
    }

    /// The stream was dropped: the buffer is free again.
    pub fn release(&mut self)
        ensures
            !final(self).spec_locked(),
            final(self).spec_buffer() == old(self).spec_buffer(),
            final(self).spec_channels() == old(self).spec_channels(),
            final(self).spec_period() == old(self).spec_period(),
            final(self).spec_endi() == old(self).spec_endi(),
            final(self).spec_supported() == old(self).spec_supported(),
            final(self).spec_sample_rate() == old(self).spec_sample_rate(),
            final(self).spec_descriptors() == old(self).spec_descriptors(),
    {
        self.locked = false;
    }
}


/// A stream gives back, frame by frame, the samples that the last read put
/// into the buffer: frame `i` of the `len` frames read is the `i`-th group
/// of `channels` samples that the device delivered (and the stream may ask
/// for it).
pub proof fn lemma_stream_reads_back<T: Copy>(
    before: Microphone<T>,
    after: Microphone<T>,
    samples: Seq<T>,
    i: int,
)
    requires
        samples.len() == after.spec_endi() * before.spec_channels(),
        samples.len() <= before.spec_buffer().len(),
        after.spec_channels() == before.spec_channels(),
        after.spec_buffer().len() == before.spec_buffer().len(),
        forall|j: int|
            0 <= j < before.spec_buffer().len() ==> #[trigger] after.spec_buffer()[j] == if j
                < samples.len() {
                samples[j]
            } else {
                before.spec_buffer()[j]
            },
        0 <= i < after.spec_endi(),
    ensures
        (i + 1) * after.spec_channels() <= after.spec_buffer().len(),
        after.spec_buffer().subrange(
            i * after.spec_channels(),
            i * after.spec_channels() + after.spec_channels(),
        ) == samples.subrange(
            i * after.spec_channels(),
            i * after.spec_channels() + after.spec_channels(),
        ),
{
    let ch = after.spec_channels() as int;
    let n = after.spec_endi() as int;
    assert((i + 1) * ch <= n * ch) by (nonlinear_arith)
        requires
            0 <= i < n,
            ch >= 0,
    ;
    assert(i * ch >= 0) by (nonlinear_arith)
        requires
            0 <= i,
            ch >= 0,
    ;
    assert((i + 1) * ch == i * ch + ch) by (nonlinear_arith);
    assert(after.spec_buffer().subrange(i * ch, i * ch + ch) =~= samples.subrange(
        i * ch,
        i * ch + ch,
    ));
}


/// The `k`-th frame of `channels` samples in `buffer`.
pub open spec fn frame_at<T>(buffer: Seq<T>, channels: int, k: int) -> Seq<T> {
    buffer.subrange(k * channels, k * channels + channels)
}

/// One step of a stream over the microphone `m`: the frame it gives, if any,
/// and the stream afterwards.
pub closed spec fn spec_next_frame<T>(m: Microphone<T>, s: MicrophoneStream) -> (
    Option<Seq<T>>,
    MicrophoneStream,
) {
    if s.index >= m.endi {
        (None, s)
    } else {
        (
            Some(frame_at(m.buffer@, s.channels as int, s.index as int)),
            MicrophoneStream {
                index: (s.index + 1) as usize,
                channels: s.channels,
                sample_rate: s.sample_rate,
            },
        )
    }
}

/// What `n` steps of a stream over `m` give, in order.
pub closed spec fn spec_stream_run<T>(m: Microphone<T>, s: MicrophoneStream, n: nat) -> Seq<
    Option<Seq<T>>,
>
    decreases n,
{
    if n == 0 {
        Seq::empty()
    } else {
        let (f, s2) = spec_next_frame(m, s);
        seq![f] + spec_stream_run(m, s2, (n - 1) as nat)
    }
}

proof fn lemma_stream_run_from<T>(m: Microphone<T>, s: MicrophoneStream, n: nat)
    requires
        s.channels == m.channels,
        s.index <= m.endi,
    ensures
        spec_stream_run(m, s, n).len() == n,
        forall|k: int|
            0 <= k < n ==> #[trigger] spec_stream_run(m, s, n)[k] == if s.index + k < m.endi {
                Some(frame_at(m.buffer@, m.channels as int, s.index + k))
            } else {
                None
            },
    decreases n,
{
    if n > 0 {
        let (f, s2) = spec_next_frame(m, s);
        lemma_stream_run_from(m, s2, (n - 1) as nat);
        let rest = spec_stream_run(m, s2, (n - 1) as nat);
        assert(spec_stream_run(m, s, n) == seq![f] + rest);
        assert forall|k: int| 0 <= k < n implies #[trigger] spec_stream_run(m, s, n)[k] == if s.index
            + k < m.endi {
            Some(frame_at(m.buffer@, m.channels as int, s.index + k))
        } else {
            None
        } by {
            if k > 0 {
                assert(spec_stream_run(m, s, n)[k] == rest[k - 1]);
            }
        }
    }
}

impl<T: Copy> Microphone<T> {
    /// A stream fresh from [`Microphone::record`] gives exactly the frames
    /// that the last read filled, in order, and then nothing on every further
    /// call.
    pub proof fn lemma_fresh_stream_yields_read_frames(self, s: MicrophoneStream, n: nat)
        requires
            s.spec_index() == 0,
            s.spec_channels() == self.spec_channels(),
        ensures
            spec_stream_run(self, s, n).len() == n,
            forall|k: int|
                0 <= k < n ==> #[trigger] spec_stream_run(self, s, n)[k] == if k
                    < self.spec_endi() {
                    Some(frame_at(self.spec_buffer(), self.spec_channels() as int, k))
                } else {
                    None
                },
    {
        lemma_stream_run_from(self, s, n);
    }
}

} // verus!
