use wavy::{
    channel_count, check_period, device_rate_plan, fill_output, requested_rate_plan, ConfigStep,
    QueueFormat, SndPcmAccess, SndPcmFormat, PERIOD_FRAMES, PLAYBACK_BUFFER_FRAMES, TARGET_RATE,
};

#[test]
fn device_rate_plans() {
    let common = vec![
        ConfigStep::Allocate,
        ConfigStep::Initialize,
        ConfigStep::Resample(false),
        ConfigStep::RateNear(48_000),
        ConfigStep::Access(SndPcmAccess::RwInterleaved),
        ConfigStep::Format(SndPcmFormat::S16Le),
        ConfigStep::Channels(2),
        ConfigStep::PeriodSizeNear(1024),
    ];
    let mut playback = common.clone();
    playback.extend([ConfigStep::BufferSizeNear(3072), ConfigStep::Apply]);
    assert_eq!(device_rate_plan(true), playback);
    let mut capture = common;
    capture.extend([ConfigStep::Apply, ConfigStep::Drop, ConfigStep::Apply]);
    assert_eq!(device_rate_plan(false), capture);
    assert_eq!(TARGET_RATE, 48_000);
    assert_eq!(PERIOD_FRAMES, 1024);
    assert_eq!(PLAYBACK_BUFFER_FRAMES, 3 * PERIOD_FRAMES);
}

#[test]
fn requested_rate_plans() {
    let plan = requested_rate_plan(true, 44_100);
    assert_eq!(plan.len(), 10);
    assert_eq!(plan[2], ConfigStep::Resample(true));
    assert_eq!(plan[6], ConfigStep::RateNear(44_100));
    assert_eq!(plan[8], ConfigStep::BufferSizeNear(3072));
    let plan = requested_rate_plan(false, 8_000);
    assert_eq!(plan.len(), 11);
    assert_eq!(plan[6], ConfigStep::RateNear(8_000));
    assert_eq!(&plan[8..], &[ConfigStep::Apply, ConfigStep::Drop, ConfigStep::Apply]);
}

#[test]
fn period_check() {
    assert_eq!(check_period(1024), Ok(()));
    assert_eq!(
        check_period(940),
        Err("Wavy: Tried to set period size: 1024, Got: 940!".to_string())
    );
    assert_eq!(
        check_period(0),
        Err("Wavy: Tried to set period size: 1024, Got: 0!".to_string())
    );
}

#[test]
fn channel_counts() {
    assert_eq!(channel_count(true, 0, 2), 2);
    assert_eq!(channel_count(true, 0, 255), 255);
    assert_eq!(channel_count(true, 0, 256), 0);
    assert_eq!(channel_count(true, -22, 2), 0);
    assert_eq!(channel_count(false, 0, 2), 0);
}

#[test]
fn queue_format_fields() {
    let f = QueueFormat::new(2);
    let (a, b, c, d) = f.format_id;
    assert_eq!([a, b, c, d], *b"lpcm");
    assert_eq!(f.format_flags, 1);
    assert_eq!(f.bytes_per_packet, 8);
    assert_eq!(f.frames_per_packet, 1);
    assert_eq!(f.bytes_per_frame, 8);
    assert_eq!(f.channels_per_frame, 2);
    assert_eq!(f.bits_per_channel, 32);
    assert_eq!(f.reserved, 0);
    assert_eq!(QueueFormat::new(6).bytes_per_frame, 24);
}

#[test]
fn queue_output_fills_with_silence() {
    let mut pending = vec![0.5f32, -0.25, 1.0];
    let out = fill_output(&mut pending, 20, 0.0);
    assert_eq!(out, vec![0.5, -0.25, 1.0, 0.0, 0.0]);
    assert!(pending.is_empty());
    let mut pending = vec![1i16, 2, 3, 4, 5, 6];
    assert_eq!(fill_output(&mut pending, 10, 0), vec![1, 2]);
    assert!(pending.is_empty());
    let mut none: Vec<i16> = Vec::new();
    assert_eq!(fill_output(&mut none, 3, 7), Vec::<i16>::new());
}
