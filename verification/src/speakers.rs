//! The playback side of a speaker: its configuration, the interleaved buffer
//! of samples yet to be played, and how frames are laid into it.

use vstd::prelude::*;

verus! {

/// State of a speaker connection: which configuration is set and what is
/// waiting in its interleaved buffer.  `T` is the sample type.
#[derive(Debug)]
pub struct Speakers<T> {
    /// Index (in frames) into the buffer where writing starts.
    starti: usize,
    /// Raw interleaved buffer of audio yet to be played.
    buffer: Vec<T>,
    /// The number of frames in the buffer.
    period: u16,
    /// Number of configured channels (0 until the first configuration).
    channels: u8,
    /// The sample rate of the speakers, once configured.
    sample_rate: Option<u32>,
    /// Bit mask of the channel counts that the device supports (bit `i` for
    /// `i + 1` channels).
    supported: u8,
    /// Number of the device's file descriptors that are watched (0 until the
    /// device is started).
    descriptors: usize,
}

/// A 7.1 surround frame, by speaker position.
#[derive(Debug, Clone, Copy, Default)]
pub struct SurroundFrame<T> {
    /// Front left.
    pub front_l: T,
    /// Front right.
    pub front_r: T,
    /// Front center.
    pub front: T,
    /// Low-frequency effects.
    pub lfe: T,
    /// Back left.
    pub back_l: T,
    /// Back right.
    pub back_r: T,
    /// Side left.
    pub left: T,
    /// Side right.
    pub right: T,
}

/// The sample that goes to slot `j` (0 to 7) of an eight-channel chunk in
/// the order that Linux uses: front left, front right, side left, side right,
/// front center, LFE, back left, back right.
pub open spec fn linux_slot<T>(f: SurroundFrame<T>, j: int) -> T {
    if j == 0 {
        f.front_l
    } else if j == 1 {
        f.front_r
    } else if j == 2 {
        f.left
    } else if j == 3 {
        f.right
    } else if j == 4 {
        f.front
    } else if j == 5 {
        f.lfe
    } else if j == 6 {
        f.back_l
    } else {
        f.back_r
    }
}

/// `s` cut or padded with `fill` to length `n`.
pub open spec fn resized<T>(s: Seq<T>, n: int, fill: T) -> Seq<T> {
    if n <= s.len() {
        s.take(n)
    } else {
        s + Seq::new((n - s.len()) as nat, |_i: int| fill)
    }
}

/// Resize `v` to `n` elements, padding with `fill` (std's `Vec::resize`).
pub fn resize_vec<T: Copy>(v: &mut Vec<T>, n: usize, fill: T)
    ensures
        final(v)@ == resized(old(v)@, n as int, fill),
{
    if n <= v.len() {
        v.truncate(n);
        assert(v@ =~= resized(old(v)@, n as int, fill));
    } else {
        while v.len() < n
            invariant
                old(v)@.len() <= v@.len() <= n,
                v@ == resized(old(v)@, v@.len() as int, fill),
            decreases n - v@.len(),
        {
            v.push(fill);
            assert(v@ =~= resized(old(v)@, v@.len() as int, fill));
        }
    }
}

/// Whether laying `count` frames into a buffer of `len` samples, starting at
/// chunk `starti` of eight samples, only touches whole chunks.
pub open spec fn sink_fits(len: int, starti: int, count: int) -> bool {
    len % 8 == 0 || starti + count <= len / 8 || starti > len / 8
}

/// The number of chunks that laying `count` frames from chunk `starti` fills.
pub open spec fn sink_count(len: int, starti: int, count: int) -> int {
    let chunks = (len + 7) / 8;
    if starti >= chunks {
        0
    } else if count < chunks - starti {
        count
    } else {
        chunks - starti
    }
}

impl<T: Copy> Speakers<T> {
    /// Index (in frames) where writing starts.
    pub closed spec fn spec_starti(&self) -> usize {
        self.starti
    }

    /// Samples waiting to be played.
    pub closed spec fn spec_buffer(&self) -> Seq<T> {
        self.buffer@
    }

    /// Frames in a period.
    pub closed spec fn spec_period(&self) -> u16 {
        self.period
    }

    /// Configured channel count.
    pub closed spec fn spec_channels(&self) -> u8 {
        self.channels
    }

    /// Configured sample rate.
    pub closed spec fn spec_sample_rate(&self) -> Option<u32> {
        self.sample_rate
    }

    /// Channel counts that the device supports.
    pub closed spec fn spec_supported(&self) -> u8 {
        self.supported
    }

    /// Number of watched file descriptors.
    pub closed spec fn spec_descriptors(&self) -> usize {
        self.descriptors
    }

    /// A speaker on a device that supports the channel counts in `supported`,
    /// connected but not configured: no channels, no buffer, no sample rate.
    pub fn new(supported: u8) -> (s: Speakers<T>)
        ensures
            s.spec_starti() == 0,
            s.spec_buffer() == Seq::<T>::empty(),
            s.spec_period() == 0,
            s.spec_channels() == 0,
            s.spec_sample_rate() is None,
            s.spec_supported() == supported,
            s.spec_descriptors() == 0,
    {
        Speakers {
            starti: 0,
            buffer: Vec::new(),
            period: 0,
            channels: 0,
            sample_rate: None,
            supported,
            descriptors: 0,
        }
    }

    /// Number of the device's file descriptors that are watched.
    pub fn descriptors(&self) -> (r: usize)
        ensures
            r == self.spec_descriptors(),
    {
        self.descriptors
    }

    /// The device was started (a poll of unconfigured speakers does so) and
    /// `registered` of its file descriptors are now watched.  A device is
    /// started once: not while descriptors are watched already.
    pub fn start(&mut self, registered: usize)
        requires
            old(self).spec_descriptors() == 0,
        ensures
            final(self).spec_descriptors() == registered,
            final(self).spec_starti() == old(self).spec_starti(),
            final(self).spec_buffer() == old(self).spec_buffer(),
            final(self).spec_period() == old(self).spec_period(),
            final(self).spec_channels() == old(self).spec_channels(),
            final(self).spec_sample_rate() == old(self).spec_sample_rate(),
            final(self).spec_supported() == old(self).spec_supported(),
    {
        self.descriptors = registered;
    }

    /// The channel counts that the speakers support (bit `i` for `i + 1`
    /// channels).
    pub fn channels(&self) -> (r: u8)
        ensures
            r == self.spec_supported(),
    {
        self.supported
    }

    /// Number of configured channels (0 until the first configuration).
    pub fn configured_channels(&self) -> (r: u8)
        ensures
            r == self.spec_channels(),
    {
        self.channels
    }

    /// Whether the speaker is unconfigured (a poll then reports it ready to
    /// be configured).
    pub fn is_unconfigured(&self) -> (r: bool)
        ensures
            r == (self.spec_channels() == 0),
    {
        self.channels == 0
    }

    /// Whether playing `count` channels needs the hardware to be configured
    /// again: when the count differs from the configured one.
    pub fn needs_configuration(&self, count: usize) -> (r: bool)
        ensures
            r == (count != self.spec_channels() as usize),
    {
        count != self.channels as usize
    }

    /// Record that `count` channels are being configured.
    pub fn begin_configuration(&mut self, count: u8)
        ensures
            final(self).spec_channels() == count,
            final(self).spec_buffer() == old(self).spec_buffer(),
            final(self).spec_starti() == old(self).spec_starti(),
            final(self).spec_period() == old(self).spec_period(),
            final(self).spec_sample_rate() == old(self).spec_sample_rate(),
            final(self).spec_supported() == old(self).spec_supported(),
            final(self).spec_descriptors() == old(self).spec_descriptors(),
    {
        self.channels = count;
    }

    /// Take the configuration that the hardware accepted: its exact sample
    /// rate and period (in frames).  The period must fit in 16 bits, else
    /// the configuration fails (`None`) and only the sample rate is kept; on
    /// success the buffer holds a period of samples, those already waiting
    /// first and silence (`silence`) after them.
    pub fn finish_configuration(&mut self, rate: u32, period_size: u32, silence: T) -> (r: Option<
        (),
    >)
        ensures
            final(self).spec_sample_rate() == Some(rate),
            final(self).spec_channels() == old(self).spec_channels(),
            final(self).spec_starti() == old(self).spec_starti(),
            final(self).spec_supported() == old(self).spec_supported(),
            final(self).spec_descriptors() == old(self).spec_descriptors(),
            r is Some <==> period_size <= u16::MAX,
            r is Some ==> final(self).spec_period() == period_size,
            r is Some ==> final(self).spec_buffer() == resized(
                old(self).spec_buffer(),
                period_size as int * old(self).spec_channels() as int,
                silence,
            ),
            r is None ==> final(self).spec_period() == old(self).spec_period()
                && final(self).spec_buffer() == old(self).spec_buffer(),
    {
        self.sample_rate = Some(rate);
        if period_size > 65535 {
            return None;
        }
        self.period = period_size as u16;
        let p = self.period as usize;
        let c = self.channels as usize;
        assert(p * c <= 65535 * 255) by (nonlinear_arith)
            requires
                p <= 65535,
                c <= 255,
        ;
        let n = p * c;
        resize_vec(&mut self.buffer, n, silence);
        Some(())
    }

    /// The sample rate that a sink reports (the configured one).
    pub fn sample_rate(&self) -> (r: u32)
        requires
            self.spec_sample_rate() is Some,
        ensures
            Some(r) == self.spec_sample_rate(),
    {
        self.sample_rate.unwrap()
    }

    /// The number of frames that a sink takes: one period.
    pub fn len(&self) -> (r: usize)
        ensures
            r == self.spec_period(),
    {
        self.period as usize
    }

    /// The samples to hand to the device: the whole buffer.
    pub fn samples(&self) -> (r: &Vec<T>)
        ensures
            r@ == self.spec_buffer(),
    {
        &self.buffer
    }

    /// After the device took `len` frames: drop them from the front of the
    /// buffer, start writing after the frames still waiting, and bring the
    /// buffer back to one period with `silence`.
    pub fn shift(&mut self, len: usize, silence: T)
        requires
            old(self).spec_channels() > 0,
            len * old(self).spec_channels() <= old(self).spec_buffer().len(),
        ensures
            ({
                let ch = old(self).spec_channels() as int;
                let rest = old(self).spec_buffer().skip(len * ch);
                &&& final(self).spec_starti() == (rest.len() as int) / ch
                &&& final(self).spec_buffer() == resized(
                    rest,
                    old(self).spec_period() * ch,
                    silence,
                )
                &&& final(self).spec_channels() == old(self).spec_channels()
                &&& final(self).spec_period() == old(self).spec_period()
                &&& final(self).spec_sample_rate() == old(self).spec_sample_rate()
                &&& final(self).spec_supported() == old(self).spec_supported()
                &&& final(self).spec_descriptors() == old(self).spec_descriptors()
            }),
    {
        let ch = self.channels as usize;
        let total = self.buffer.len();
        assert(len * ch <= total);
        let ghost rest = self.buffer@.skip(len * ch);
        let mut kept: Vec<T> = Vec::new();
        let mut i: usize = len * ch;
        while i < self.buffer.len()
            invariant
                len * ch <= i <= self.buffer@.len(),
                self.buffer@ == old(self).spec_buffer(),
                ch == old(self).spec_channels(),
                rest == self.buffer@.skip(len * ch),
                kept@ == rest.take(i - len * ch),
            decreases self.buffer@.len() - i,
        {
            kept.push(self.buffer[i]);
            assert(rest.take(i + 1 - len * ch) =~= rest.take(i - len * ch).push(
                self.buffer@[i as int],
            ));
            i = i + 1;
        }
        assert(kept@ =~= rest);
        self.starti = kept.len() / ch;
        let p = self.period as usize;
        assert(p * ch <= 65535 * 255) by (nonlinear_arith)
            requires
                p <= 65535,
                ch <= 255,
        ;
        let n = p * ch;
        resize_vec(&mut kept, n, silence);
        self.buffer = kept;
    }

    /// Whether `count` frames can be laid into the buffer by
    /// [`Speakers::sink`]: no frame may land on a chunk cut short by the end
    /// of the buffer.
    pub fn can_sink(&self, count: usize) -> (r: bool)
        ensures
            r == sink_fits(self.spec_buffer().len() as int, self.spec_starti() as int, count as int),
    {
        let len = self.buffer.len();
        len % 8 == 0 || (self.starti <= len / 8 && count <= len / 8 - self.starti) || self.starti
            > len / 8
    }

    /// Lay surround frames into the buffer, one eight-sample chunk each,
    /// starting at chunk `starti` and in Linux channel order; frames beyond
    /// the end of the buffer are left out.
    pub fn sink(&mut self, frames: &Vec<SurroundFrame<T>>)
        requires
            sink_fits(
                old(self).spec_buffer().len() as int,
                old(self).spec_starti() as int,
                frames@.len() as int,
            ),
        ensures
            ({
                let old_buf = old(self).spec_buffer();
                let s = old(self).spec_starti() as int;
                let n = sink_count(old_buf.len() as int, s, frames@.len() as int);
                &&& final(self).spec_buffer().len() == old_buf.len()
                &&& forall|i: int|
                    0 <= i < old_buf.len() ==> #[trigger] final(self).spec_buffer()[i] == if s
                        <= i / 8 < s + n {
                        linux_slot(frames@[i / 8 - s], i % 8)
                    } else {
                        old_buf[i]
                    }
                &&& final(self).spec_starti() == old(self).spec_starti()
                &&& final(self).spec_channels() == old(self).spec_channels()
                &&& final(self).spec_period() == old(self).spec_period()
                &&& final(self).spec_sample_rate() == old(self).spec_sample_rate()
                &&& final(self).spec_supported() == old(self).spec_supported()
                &&& final(self).spec_descriptors() == old(self).spec_descriptors()
            }),
    {
        let ghost old_buf = self.buffer@;
        let len = self.buffer.len();
        let chunks = len / 8 + if len % 8 == 0 { 0 } else { 1 };
        let s = self.starti;
        let n: usize = if s >= chunks {
            0
        } else if frames.len() < chunks - s {
            frames.len()
        } else {
            chunks - s
        };
        assert(chunks == (len + 7) / 8);
        let mut k: usize = 0;
        while k < n
            invariant
                self.buffer@.len() == old_buf.len(),
                len == old_buf.len(),
                s == self.starti,
                self.starti == old(self).starti,
                self.channels == old(self).channels,
                self.period == old(self).period,
                self.sample_rate == old(self).sample_rate,
                self.supported == old(self).supported,
                self.descriptors == old(self).descriptors,
                n == sink_count(len as int, s as int, frames@.len() as int),
                n <= frames@.len(),
                n == 0 || s + n <= chunks,
                chunks == (len + 7) / 8,
                sink_fits(len as int, s as int, frames@.len() as int),
                k <= n,
                forall|i: int|
                    0 <= i < len ==> #[trigger] self.buffer@[i] == if s <= i / 8 < s + k {
                        linux_slot(frames@[i / 8 - s], i % 8)
                    } else {
                        old_buf[i]
                    },
            decreases n - k,
        {
            let f = frames[k];
            let base = (s + k) * 8;
            assert(base + 8 <= len);
            self.buffer.set(base, f.front_l);
            self.buffer.set(base + 1, f.front_r);
            self.buffer.set(base + 2, f.left);
            self.buffer.set(base + 3, f.right);
            self.buffer.set(base + 4, f.front);
            self.buffer.set(base + 5, f.lfe);
            self.buffer.set(base + 6, f.back_l);
            self.buffer.set(base + 7, f.back_r);
            k = k + 1;
        }
    }
}

/// After a write, the buffer again holds exactly one period, and writing
/// starts right after the samples that were not taken.
pub proof fn lemma_shift_restores_period<T>(
    buffer: Seq<T>,
    len: int,
    ch: int,
    period: int,
    silence: T,
)
    requires
        ch > 0,
        0 <= len,
        len * ch <= buffer.len(),
        period >= 0,
        buffer.len() - len * ch <= period * ch,
    ensures
        resized(buffer.skip(len * ch), period * ch, silence).len() == period * ch,
        forall|i: int|
            0 <= i < buffer.len() - len * ch ==> #[trigger] resized(buffer.skip(len * ch), period * ch, silence)[i]
                == buffer[i + len * ch],
{
}

} // verus!
