use wavy::Frame;
use wavy::{
    access_type, hw_steps, open_stream, planar, record_frames, sample_format, valid_channel_count,
    HwStep, Microphone, PollStep, SndPcmAccess, SndPcmFormat, SndPcmStream, Speaker, Speakers,
    SurroundFrame, BUFFER_SIZE, CHANNELS, CHUNK_SIZE, RESAMPLE, SAMPLE_RATE,
};

fn surround(base: i16) -> SurroundFrame<i16> {
    SurroundFrame {
        front_l: base,
        front_r: base + 1,
        front: base + 2,
        lfe: base + 3,
        back_l: base + 4,
        back_r: base + 5,
        left: base + 6,
        right: base + 7,
    }
}

#[test]
fn constants() {
    assert_eq!(SAMPLE_RATE, 48_000);
    assert_eq!(BUFFER_SIZE, 256);
    assert_eq!(CHUNK_SIZE, 32);
    assert_eq!(BUFFER_SIZE % CHUNK_SIZE, 0);
    assert_eq!(CHANNELS, 2);
    assert_eq!(RESAMPLE, 1);
}

#[test]
fn speakers_configuration() {
    let mut s: Speakers<i16> = Speakers::new(0b1000_1011);
    assert_eq!(s.channels(), 0b1000_1011);
    assert_eq!(s.configured_channels(), 0);
    assert!(s.is_unconfigured());
    assert!(s.needs_configuration(2));
    s.begin_configuration(2);
    assert_eq!(s.configured_channels(), 2);
    assert_eq!(s.channels(), 0b1000_1011);
    assert!(!s.needs_configuration(2));
    assert_eq!(s.finish_configuration(44_100, 4, 0), Some(()));
    assert_eq!(s.sample_rate(), 44_100);
    assert_eq!(s.len(), 4);
    assert_eq!(s.samples(), &vec![0i16; 8]);
    assert_eq!(s.finish_configuration(48_000, 70_000, 0), None);
    assert_eq!(s.sample_rate(), 48_000);
    assert_eq!(s.len(), 4);
}

#[test]
fn speakers_sink_in_linux_order() {
    let mut s: Speakers<i16> = Speakers::new(0b1000_1011);
    s.begin_configuration(8);
    assert_eq!(s.finish_configuration(48_000, 2, 0), Some(()));
    s.sink(&vec![surround(1)]);
    assert_eq!(
        s.samples(),
        &vec![1, 2, 7, 8, 3, 4, 5, 6, 0, 0, 0, 0, 0, 0, 0, 0]
    );
    // Frames past the end of the buffer are left out.
    s.sink(&vec![surround(10), surround(20), surround(30)]);
    assert_eq!(
        s.samples(),
        &vec![10, 11, 16, 17, 12, 13, 14, 15, 20, 21, 26, 27, 22, 23, 24, 25]
    );
}

#[test]
fn speakers_shift_keeps_unplayed_frames() {
    let mut s: Speakers<i16> = Speakers::new(0b1000_1011);
    s.begin_configuration(8);
    assert_eq!(s.finish_configuration(48_000, 2, 0), Some(()));
    s.sink(&vec![surround(1), surround(9)]);
    // The device took one of the two frames (eight samples).
    s.shift(1, -1);
    assert_eq!(
        s.samples(),
        &vec![9, 10, 15, 16, 11, 12, 13, 14, -1, -1, -1, -1, -1, -1, -1, -1]
    );
    assert_eq!(s.len(), 2);
    // Writing now starts after the frame still waiting.
    s.sink(&vec![surround(100)]);
    assert_eq!(
        s.samples(),
        &vec![9, 10, 15, 16, 11, 12, 13, 14, 100, 101, 106, 107, 102, 103, 104, 105]
    );
}

#[test]
fn speakers_shift_counts_frames_of_the_configured_width() {
    let mut s: Speakers<i16> = Speakers::new(0b1000_1011);
    s.begin_configuration(4);
    assert_eq!(s.finish_configuration(48_000, 4, 0), Some(()));
    s.sink(&vec![surround(1), surround(9)]);
    s.shift(2, -1);
    assert_eq!(
        s.samples(),
        &vec![9, 10, 15, 16, 11, 12, 13, 14, -1, -1, -1, -1, -1, -1, -1, -1]
    );
    // Two four-channel frames wait, so writing starts at the third
    // eight-sample chunk, past the end: nothing is written.
    s.sink(&vec![surround(100)]);
    assert_eq!(
        s.samples(),
        &vec![9, 10, 15, 16, 11, 12, 13, 14, -1, -1, -1, -1, -1, -1, -1, -1]
    );
}

#[test]
fn microphone_poll_and_stream() {
    assert!(valid_channel_count(1));
    assert!(valid_channel_count(2));
    assert!(valid_channel_count(6));
    assert!(!valid_channel_count(3));
    assert!(!valid_channel_count(0));

    let mut m: Microphone<i16> = Microphone::new(0b0010_0011);
    assert_eq!(m.channels(), 0b0010_0011);
    assert_eq!(m.descriptors(), 0);
    assert_eq!(m.begin_poll(), PollStep::Start);
    m.start(1);
    assert_eq!(m.descriptors(), 1);
    assert!(m.is_locked());
    m.release();
    assert!(m.needs_configuration(2));
    m.begin_configuration(2);
    assert_eq!(m.configured_channels(), 2);
    assert_eq!(m.channels(), 0b0010_0011);
    assert_eq!(m.finish_configuration(44_100, 3, 0), Some(()));
    assert_eq!(m.begin_poll(), PollStep::Read);
    m.read_done(2, &vec![1, 2, 3, 4]);
    assert!(m.is_locked());
    assert_eq!(m.stream_len(), 2);
    let mut stream = m.record();
    assert_eq!(stream.sample_rate(), Some(44_100));
    assert_eq!(m.next_frame(&mut stream), Some(vec![1, 2]));
    assert_eq!(m.next_frame(&mut stream), Some(vec![3, 4]));
    assert_eq!(m.next_frame(&mut stream), None);
    m.release();
    assert!(!m.is_locked());
    assert_eq!(m.sample_rate(), Some(44_100));
    assert_eq!(m.finish_configuration(16_000, 100_000, 0), None);
    assert_eq!(m.sample_rate(), Some(16_000));
    assert_eq!(m.period(), 3);
}

#[test]
fn stereo_speaker_frames_to_write() {
    let s = Speaker::new(48_000, 48_000, 4096, 1024);
    assert_eq!(s.frames_to_write(100), 100);
    assert_eq!(s.frames_to_write(0), 0);
    let s = Speaker::new(44_100, 44_100, 8192, 1024);
    assert_eq!(s.frames_to_write(5000), 904);
    assert_eq!(s.frames_to_write(1000), 0);
}

#[test]
fn stereo_layouts() {
    let mut s = Speaker::new(48_000, 48_000, 4096, 1024);
    let frames = vec![(1i16, 2i16), (3, 4), (-5, 6)];
    s.load(&frames);
    assert_eq!(s.samples(), &vec![1, 2, 3, 4, -5, 6]);
    let (l, r) = planar(&frames);
    assert_eq!(l, vec![1, 3, -5]);
    assert_eq!(r, vec![2, 4, 6]);
    // A recording reads pairs back from the interleaved samples.
    assert_eq!(record_frames(s.samples(), 3), vec![(1, 2)]);
    assert_eq!(record_frames(&vec![1, 2, 3, 4, 5, 6, 7, 8], 4), vec![(1, 2), (3, 4)]);
}

#[test]
fn hardware_configuration_plan() {
    assert_eq!(open_stream(true), SndPcmStream::Capture);
    assert_eq!(open_stream(false), SndPcmStream::Playback);
    assert_eq!(access_type(), SndPcmAccess::RwInterleaved);
    assert_eq!(sample_format(), SndPcmFormat::S16Le);
    assert_eq!(
        hw_steps(),
        vec![
            HwStep::Allocate,
            HwStep::Initialize,
            HwStep::Resample,
            HwStep::Access,
            HwStep::Format,
            HwStep::Channels,
            HwStep::Rate,
            HwStep::Apply,
        ]
    );
}

#[test]
fn sink_room_checks() {
    let mut s: Speakers<i16> = Speakers::new(0xff);
    s.begin_configuration(3);
    assert_eq!(s.finish_configuration(48_000, 4, 0), Some(()));
    // Twelve samples: one whole chunk, then a chunk cut short.
    assert!(s.can_sink(0));
    assert!(s.can_sink(1));
    assert!(!s.can_sink(2));
    s.begin_configuration(8);
    assert_eq!(s.finish_configuration(48_000, 4, 0), Some(()));
    assert!(s.can_sink(100));
}

#[test]
fn microphone_stream_bounds() {
    let mut m: Microphone<i16> = Microphone::new(0b10);
    assert_eq!(m.begin_poll(), PollStep::Start);
    m.release();
    m.begin_configuration(2);
    assert_eq!(m.finish_configuration(48_000, 2, 0), Some(()));
    assert_eq!(m.period(), 2);
    assert_eq!(m.buffer_len(), 4);
    m.read_done(2, &vec![5, 6, 7, 8]);
    let mut stream = m.record();
    assert!(m.frame_fits(&stream));
    assert_eq!(m.next_frame(&mut stream), Some(vec![5, 6]));
    assert!(m.frame_fits(&stream));
    assert_eq!(m.next_frame(&mut stream), Some(vec![7, 8]));
    assert!(m.frame_fits(&stream));
    assert_eq!(m.next_frame(&mut stream), None);
    m.release();
    m.begin_configuration(6);
    assert_eq!(m.finish_configuration(48_000, 2, 0), Some(()));
    assert_eq!(m.buffer_len(), 12);
    // A new read of one six-channel frame.
    assert_eq!(m.begin_poll(), PollStep::Read);
    m.read_done(1, &vec![1, 2, 3, 4, 5, 6]);
    let mut stream = m.record();
    assert_eq!(m.next_frame(&mut stream), Some(vec![1, 2, 3, 4, 5, 6]));
    assert_eq!(m.next_frame(&mut stream), None);
}

#[test]
fn surround_frames_have_eight_channels() {
    assert_eq!(<SurroundFrame<i16> as Frame>::CH, 8);
    let silent: SurroundFrame<f32> = Default::default();
    assert_eq!(silent.front_l, 0.0);
    assert_eq!(silent.lfe, 0.0);
}

#[test]
fn speakers_start_once() {
    let mut s: Speakers<i16> = Speakers::new(0b11);
    assert!(s.is_unconfigured());
    assert_eq!(s.descriptors(), 0);
    s.start(2);
    assert_eq!(s.descriptors(), 2);
    assert!(s.is_unconfigured());
    s.begin_configuration(2);
    assert_eq!(s.finish_configuration(48_000, 4, 0), Some(()));
    assert_eq!(s.descriptors(), 2);
}

#[test]
fn stereo_speaker_rate() {
    let s = Speaker::new(48_000, 48_000, 4096, 1024);
    assert_eq!(s.sample_rate(), 48_000);
}

#[test]
fn fresh_stream_yields_read_frames_then_none() {
    let mut m: Microphone<i16> = Microphone::new(0b100);
    assert_eq!(m.begin_poll(), PollStep::Start);
    m.release();
    m.begin_configuration(1);
    assert_eq!(m.finish_configuration(48_000, 4, 0), Some(()));
    assert_eq!(m.begin_poll(), PollStep::Read);
    m.read_done(3, &vec![7, 8, 9]);
    let mut stream = m.record();
    let mut got = Vec::new();
    for _ in 0..6 {
        got.push(m.next_frame(&mut stream));
        assert_eq!(m.stream_len(), 3);
    }
    assert_eq!(
        got,
        vec![Some(vec![7]), Some(vec![8]), Some(vec![9]), None, None, None]
    );
}
