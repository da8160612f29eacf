use wavy::{SndPcmAccess, SndPcmFormat, SndPcmMode, SndPcmState, SndPcmStream};

#[test]
fn mode_codes_match_libasound() {
    assert_eq!(SndPcmMode::Block.code(), 0);
    assert_eq!(SndPcmMode::Nonblock.code(), 1);
    assert_eq!(SndPcmMode::Async.code(), 2);
    assert_eq!(SndPcmMode::from_code(1), Some(SndPcmMode::Nonblock));
    assert_eq!(SndPcmMode::from_code(3), None);
    assert_eq!(SndPcmMode::from_code(-1), None);
}

#[test]
fn stream_codes_match_libasound() {
    assert_eq!(SndPcmStream::Playback.code(), 0);
    assert_eq!(SndPcmStream::Capture.code(), 1);
    assert_eq!(SndPcmStream::from_code(0), Some(SndPcmStream::Playback));
    assert_eq!(SndPcmStream::from_code(1), Some(SndPcmStream::Capture));
    assert_eq!(SndPcmStream::from_code(2), None);
}

#[test]
fn access_codes_match_libasound() {
    assert_eq!(SndPcmAccess::MmapInterleaved.code(), 0);
    assert_eq!(SndPcmAccess::MmapNoninterleaved.code(), 1);
    assert_eq!(SndPcmAccess::MmapComplex.code(), 2);
    assert_eq!(SndPcmAccess::RwInterleaved.code(), 3);
    assert_eq!(SndPcmAccess::RwNoninterleaved.code(), 4);
    assert_eq!(SndPcmAccess::from_code(3), Some(SndPcmAccess::RwInterleaved));
    assert_eq!(SndPcmAccess::from_code(5), None);
}

#[test]
fn format_codes_match_libasound() {
    assert_eq!(SndPcmFormat::Unknown.code(), -1);
    assert_eq!(SndPcmFormat::S16Le.code(), 2);
    assert_eq!(SndPcmFormat::FloatLe.code(), 14);
    assert_eq!(SndPcmFormat::Special.code(), 31);
    assert_eq!(SndPcmFormat::from_code(2), Some(SndPcmFormat::S16Le));
    assert_eq!(SndPcmFormat::from_code(-1), Some(SndPcmFormat::Unknown));
    assert_eq!(SndPcmFormat::from_code(-2), None);
}

#[test]
fn state_codes_match_libasound() {
    assert_eq!(SndPcmState::Open.code(), 0);
    assert_eq!(SndPcmState::Running.code(), 3);
    assert_eq!(SndPcmState::Xrun.code(), 4);
    assert_eq!(SndPcmState::Disconnected.code(), 8);
    assert_eq!(SndPcmState::from_code(4), Some(SndPcmState::Xrun));
    assert_eq!(SndPcmState::from_code(9), None);
}

#[test]
fn codes_round_trip() {
    for c in -3..40 {
        if let Some(f) = SndPcmFormat::from_code(c) {
            assert_eq!(f.code(), c);
        }
        if let Some(s) = SndPcmState::from_code(c) {
            assert_eq!(s.code(), c);
        }
        if let Some(a) = SndPcmAccess::from_code(c) {
            assert_eq!(a.code(), c);
        }
    }
    for s in [SndPcmState::Open, SndPcmState::Setup, SndPcmState::Paused, SndPcmState::Suspended] {
        assert_eq!(SndPcmState::from_code(s.code()), Some(s));
    }
    for f in [SndPcmFormat::S16Le, SndPcmFormat::FloatBe, SndPcmFormat::MuLaw, SndPcmFormat::Gsm] {
        assert_eq!(SndPcmFormat::from_code(f.code()), Some(f));
    }
}
