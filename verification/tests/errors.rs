use wavy::{
    check_call, check_count, check_frames, check_rate, rate_message, check_status, open_outcome, prepare_error,
    start_error, AlsaError, AudioError, HwStep,
};

fn internal(e: AudioError) -> String {
    match e {
        AudioError::InternalError(m) => m,
        AudioError::NoDevice => panic!("expected an internal error"),
    }
}

#[test]
fn check_call_splits_success_and_error_number() {
    assert_eq!(check_call("snd_pcm_prepare", 0).unwrap(), 0);
    assert_eq!(check_call("snd_pcm_prepare", 7).unwrap(), 7);
    let e = check_call("snd_pcm_open", -2).unwrap_err();
    assert_eq!(e.func, "snd_pcm_open");
    assert_eq!(e.code, 2);
}

#[test]
fn alsa_error_message() {
    let e = AlsaError::new("snd_pcm_open", 2);
    assert_eq!(e.message(), "ALSA function 'snd_pcm_open' failed with errorno '2'");
    let e = AlsaError::new("snd_pcm_start", -77);
    assert_eq!(e.message(), "ALSA function 'snd_pcm_start' failed with errorno '-77'");
    let e = AlsaError::new("snd_pcm_close", 1024);
    assert_eq!(e.message(), "ALSA function 'snd_pcm_close' failed with errorno '1024'");
}

#[test]
fn check_frames_reads_counts() {
    assert_eq!(check_frames("snd_pcm_avail_update", 256).unwrap(), 256);
    let e = check_frames("snd_pcm_avail_update", -32).unwrap_err();
    assert_eq!(e.code, 32);
    assert_eq!(e.func, "snd_pcm_avail_update");
}

#[test]
fn check_status_and_count() {
    assert_eq!(check_status(0), Ok(()));
    assert_eq!(check_status(3), Ok(()));
    assert_eq!(check_status(-11), Err(-11));
    assert_eq!(check_count(1024), Ok(1024));
    assert_eq!(check_count(-86), Err(-86));
}

#[test]
fn open_outcome_reports_missing_device() {
    assert!(matches!(open_outcome(-2), Err(AudioError::NoDevice)));
    assert!(open_outcome(0).is_ok());
}

#[test]
fn rate_mismatch_message() {
    assert!(check_rate(48000, 48000).is_ok());
    let m = internal(check_rate(48000, 44100).unwrap_err());
    assert_eq!(m, "Failed to set rate: 48000, Got: 44100 instead!");
    let m = internal(check_rate(0, 7).unwrap_err());
    assert_eq!(m, "Failed to set rate: 0, Got: 7 instead!");
}

#[test]
fn hardware_step_errors() {
    assert_eq!(internal(HwStep::Allocate.error()), "Cannot allocate hardware parameter structure!");
    assert_eq!(internal(HwStep::Rate.error()), "Cannot set sample rate!");
    assert_eq!(internal(HwStep::Apply.error()), "Failed to set parameters!");
    assert_eq!(internal(prepare_error()), "Could not prepare!");
    assert_eq!(internal(start_error()), "Could not start!");
}

#[test]
fn rate_message_text() {
    assert_eq!(rate_message(48000, 44100), "Failed to set rate: 48000, Got: 44100 instead!");
}
