use wavy::{
    frames_played, frames_to_play, is_recoverable, playback_recovery, recovery, reserve_amount,
    Readiness, Recovery,
    SndPcmState, Transfer, EAGAIN, EBADFD, EPIPE, ESTRPIPE, SILENCE_FRAMES,
};

#[test]
fn recovery_after_errors() {
    assert_eq!(EAGAIN, -11);
    assert_eq!(EPIPE, -32);
    assert_eq!(EBADFD, -77);
    assert_eq!(ESTRPIPE, -86);
    assert_eq!(recovery(EAGAIN, None), Recovery::Wait);
    assert_eq!(recovery(EPIPE, Some(SndPcmState::Xrun)), Recovery::Prepare);
    assert_eq!(recovery(ESTRPIPE, None), Recovery::Resume { only_if_resumed: true });
}

#[test]
fn speaker_recovery_resumes_unconditionally() {
    assert_eq!(playback_recovery(EAGAIN, None), Recovery::Wait);
    assert_eq!(playback_recovery(EPIPE, Some(SndPcmState::Xrun)), Recovery::Prepare);
    assert_eq!(playback_recovery(ESTRPIPE, None), Recovery::Resume { only_if_resumed: false });
}

#[test]
fn empty_audio_plays_silence() {
    let out = frames_to_play(&Vec::<i16>::new(), 0);
    assert_eq!(SILENCE_FRAMES, 1024);
    assert_eq!(out.len(), 1024);
    assert!(out.iter().all(|s| *s == 0));
    let audio = vec![1i16, -2, 3];
    assert_eq!(frames_to_play(&audio, 0), audio);
}

#[test]
fn recoverable_errors() {
    assert!(is_recoverable(EAGAIN, None));
    assert!(is_recoverable(ESTRPIPE, None));
    assert!(is_recoverable(EPIPE, Some(SndPcmState::Xrun)));
    assert!(!is_recoverable(EPIPE, Some(SndPcmState::Running)));
    assert!(!is_recoverable(EPIPE, None));
    assert!(!is_recoverable(EBADFD, None));
    assert!(!is_recoverable(-5, None));
}

#[test]
fn readiness_follows_transfers() {
    let mut r = Readiness::new(44_100);
    assert_eq!(r.sample_rate(), 44_100);
    assert_eq!(r.poll(), Some(44_100));
    assert_eq!(r.transfer(256, None), Transfer::Done(256));
    assert_eq!(r.poll(), Some(44_100));
    assert_eq!(r.transfer(EAGAIN, None), Transfer::Failed(Recovery::Wait));
    // Not ready: the first poll registers for a wake-up, the next one is ready.
    assert_eq!(r.poll(), None);
    assert_eq!(r.poll(), Some(44_100));
    assert_eq!(r.transfer(EPIPE, Some(SndPcmState::Xrun)), Transfer::Failed(Recovery::Prepare));
    assert_eq!(r.poll(), Some(44_100));
    assert_eq!(
        r.transfer(ESTRPIPE, None),
        Transfer::Failed(Recovery::Resume { only_if_resumed: true })
    );
    assert_eq!(r.poll(), Some(44_100));
}

#[test]
fn played_counts() {
    assert_eq!(frames_played(0, Transfer::Done(1024)), 0);
    assert_eq!(frames_played(0, Transfer::Failed(Recovery::Wait)), 0);
    assert_eq!(frames_played(300, Transfer::Done(256)), 256);
    assert_eq!(frames_played(300, Transfer::Failed(Recovery::Prepare)), 0);
}

#[test]
fn recording_reserves_room() {
    assert_eq!(reserve_amount(0, 0), Some(1024));
    assert_eq!(reserve_amount(100, 1000), Some(2024));
    assert_eq!(reserve_amount(0, 1024), None);
    assert_eq!(reserve_amount(10, 4096), None);
}
