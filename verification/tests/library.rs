use wavy::{
    device_symbols, first_missing, link_outcome, native_symbols, player_symbols, recorder_symbols,
    AlsaDevice, AlsaPlayer, AlsaRecorder, LinkError, ALSA_LIBRARY,
};

#[test]
fn first_missing_symbol() {
    assert_eq!(first_missing(&vec![true, true, true]), None);
    assert_eq!(first_missing(&vec![true, false, false]), Some(1));
    assert_eq!(first_missing(&vec![false]), Some(0));
    assert_eq!(first_missing(&vec![]), None);
}

#[test]
fn link_outcomes() {
    let syms = player_symbols();
    assert!(matches!(link_outcome(false, &syms, &vec![true, true]), Err(LinkError::NotInstalled)));
    assert!(link_outcome(true, &syms, &vec![true, true]).is_ok());
    match link_outcome(true, &syms, &vec![true, false]) {
        Err(LinkError::DoesntExist(name)) => assert_eq!(name, "snd_pcm_writei"),
        other => panic!("unexpected {:?}", other),
    }
}

#[test]
fn symbol_lists() {
    assert_eq!(ALSA_LIBRARY, "libasound.so.2");
    assert_eq!(player_symbols(), vec!["snd_pcm_prepare", "snd_pcm_writei"]);
    assert_eq!(recorder_symbols(), vec!["snd_pcm_readi"]);
    let dev = device_symbols();
    assert_eq!(dev.len(), 20);
    assert_eq!(dev[0], "snd_pcm_open");
    assert_eq!(dev[19], "snd_pcm_poll_descriptors");
    let native = native_symbols();
    assert_eq!(native.len(), 25);
    assert_eq!(native[0], "snd_device_name_hint");
    assert_eq!(native[24], "snd_pcm_hw_params_set_period_size_near");
}

#[test]
fn handles_need_every_symbol() {
    assert!(AlsaDevice::new(&vec![true; 20]).is_some());
    let mut found = vec![true; 20];
    found[7] = false;
    assert!(AlsaDevice::new(&found).is_none());
    assert!(AlsaDevice::new(&vec![true; 19]).is_none());
    assert!(AlsaPlayer::new(&vec![true, true]).is_some());
    assert!(AlsaPlayer::new(&vec![false, true]).is_none());
    assert!(AlsaRecorder::new(&vec![true]).is_some());
    assert!(AlsaRecorder::new(&vec![false]).is_none());
    assert!(AlsaRecorder::new(&vec![true, true]).is_none());
}
