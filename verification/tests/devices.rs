use wavy::{
    channel_mask, device_list, global, list_should_open, query_should_open, supports_channels,
    DeviceDiscovery, DeviceEntry, DeviceHint, Global,
};

fn hint(id: Option<&str>, io: Option<u8>, desc: Option<&str>, opened: Option<u8>) -> DeviceHint {
    DeviceHint {
        id: id.map(|s| s.to_string()),
        io,
        description: desc.map(|s| s.to_string()),
        opened,
    }
}

fn names(entries: &[DeviceEntry]) -> Vec<(String, u8)> {
    entries.iter().map(|e| (e.name.clone(), e.supported)).collect()
}

fn sample_hints() -> Vec<DeviceHint> {
    vec![
        hint(Some("default"), None, Some("Default ALSA Output"), Some(3)),
        hint(Some("sysdefault:CARD=PCH"), None, Some("HDA Intel PCH\nDefault Audio Device"), Some(3)),
        hint(Some("null"), None, Some("Discard all samples"), Some(1)),
        hint(Some("front:CARD=PCH,DEV=0"), Some(b'O'), Some("HDA Intel PCH\nFront output"), Some(2)),
        hint(Some("dmic:CARD=PCH"), Some(b'I'), Some("HDA Intel PCH\nDigital mic"), Some(1)),
        hint(Some("hdmi:CARD=PCH,DEV=0"), None, Some("HDA Intel PCH\nHDMI 0"), None),
        hint(None, None, Some("Unnamed\ndevice"), Some(255)),
    ]
}

#[test]
fn device_list_outputs() {
    let out = device_list(&sample_hints(), false);
    assert_eq!(
        names(&out),
        vec![
            ("Default".to_string(), 3),
            ("HDA Intel PCH: Front output".to_string(), 2),
            ("Unnamed: device".to_string(), 255),
        ]
    );
}

#[test]
fn device_list_inputs() {
    let inp = device_list(&sample_hints(), true);
    assert_eq!(
        names(&inp),
        vec![
            ("Default".to_string(), 3),
            ("HDA Intel PCH: Digital mic".to_string(), 1),
            ("Unnamed: device".to_string(), 255),
        ]
    );
}

#[test]
fn device_list_which_to_open() {
    let hs = sample_hints();
    let wanted: Vec<bool> = hs.iter().map(|h| list_should_open(h, false)).collect();
    assert_eq!(wanted, vec![true, false, false, true, false, true, true]);
    let wanted: Vec<bool> = hs.iter().map(|h| list_should_open(h, true)).collect();
    assert_eq!(wanted, vec![true, false, false, false, true, true, true]);
}

#[test]
fn native_backend_lists_default_first() {
    let g: Global<()> = global(Some(()));
    let mut hs = sample_hints();
    // The native rules skip only the exact name "sysdefault".
    hs[1] = hint(Some("sysdefault"), None, Some("Default Audio Device"), Some(3));
    let speakers = g.query_speakers(7, &hs);
    assert_eq!(
        names(&speakers),
        vec![
            ("Default".to_string(), 7),
            ("HDA Intel PCH: Front output".to_string(), 2),
            ("Unnamed: device".to_string(), 255),
        ]
    );
    let mics = g.query_microphones(1, &hs);
    assert_eq!(
        names(&mics),
        vec![
            ("Default".to_string(), 1),
            ("HDA Intel PCH: Digital mic".to_string(), 1),
            ("Unnamed: device".to_string(), 255),
        ]
    );
    assert!(!query_should_open(&hs[1], false));
    assert!(query_should_open(&hs[3], false));
    assert!(!query_should_open(&hs[3], true));
}

#[test]
fn native_rules_keep_card_specific_sysdefault() {
    let hs = vec![hint(Some("sysdefault:CARD=PCH"), None, Some("Card default"), Some(3))];
    assert!(query_should_open(&hs[0], false));
    assert!(!list_should_open(&hs[0], false));
}

#[test]
fn fake_backend_has_one_silent_device_each_way() {
    let g: Global<()> = global(None);
    assert!(matches!(g, Global::Fake));
    let hs = sample_hints();
    assert_eq!(names(&g.query_speakers(3, &hs)), vec![("FakeSpeakers".to_string(), 0)]);
    assert_eq!(names(&g.query_microphones(3, &hs)), vec![("FakeMicrophone".to_string(), 0)]);
    assert_eq!(g.device_name(), Some("Unknown".to_string()));
    assert_eq!(g.device_sample_rate(), Some(48_000));
    let native: Global<()> = global(Some(()));
    assert_eq!(native.device_name(), None);
    assert_eq!(native.device_sample_rate(), None);
}

#[test]
fn discovery_reports_each_device_once() {
    let mut d = DeviceDiscovery::new();
    let hs = vec![
        hint(Some("default"), None, Some("Default"), None),
        hint(Some("hw:0"), Some(b'O'), Some("Card zero\nanalog"), None),
        hint(Some("hw:1"), None, Some("Card one"), None),
        hint(Some("hw:2"), Some(b'I'), Some("Card two"), None),
        hint(Some("hw:0"), Some(b'O'), Some("Card zero again"), None),
    ];
    let (with_default, plan) = d.to_open(&hs, true);
    assert!(with_default);
    assert_eq!(plan, vec![false, true, true, false, false]);
    let mut opened = hs.clone();
    opened[1].opened = Some(2);
    opened[2].opened = Some(3);
    let found = d.devices(true, Some(3), &opened);
    assert_eq!(
        names(&found),
        vec![
            ("Card one (hw:1)".to_string(), 3),
            ("Card zero (hw:0)".to_string(), 2),
            ("Default (default)".to_string(), 3),
        ]
    );
    // A second round, even in the other direction, finds nothing new.
    let (with_default, plan) = d.to_open(&hs, false);
    assert!(!with_default);
    assert_eq!(plan, vec![false, false, false, false, false]);
    let again = d.devices(false, Some(3), &opened);
    assert!(again.is_empty());
}

#[test]
fn discovery_skips_unopened_default() {
    let mut d = DeviceDiscovery::new();
    let hs = vec![hint(Some("hw:5"), None, Some("Five"), Some(1))];
    let found = d.devices(false, None, &hs);
    assert_eq!(names(&found), vec![("Five (hw:5)".to_string(), 1)]);
    // The default device counts as seen even though it did not open.
    let (with_default, _plan) = d.to_open(&hs, false);
    assert!(!with_default);
}

#[test]
fn channel_masks() {
    let mask = channel_mask(&vec![true, true, false, false, false, true, false, false]);
    assert_eq!(mask, 0b0010_0011);
    assert!(supports_channels(mask, 1));
    assert!(supports_channels(mask, 2));
    assert!(!supports_channels(mask, 3));
    assert!(supports_channels(mask, 6));
    assert!(!supports_channels(mask, 8));
    assert_eq!(channel_mask(&vec![]), 0);
    assert_eq!(channel_mask(&vec![true; 8]), 255);
    assert!(supports_channels(255, 8));
}

#[test]
fn discovery_checks_descriptions() {
    let d = DeviceDiscovery::new();
    let ok = vec![
        hint(Some("null"), None, None, None),
        hint(Some("hw:0"), None, Some("Card"), None),
        hint(None, None, None, None),
    ];
    assert!(d.descriptions_present(&ok, true));
    let missing = vec![hint(Some("hw:1"), None, None, None)];
    assert!(!d.descriptions_present(&missing, true));
    // A device seen before is not described again.
    let mut d = DeviceDiscovery::new();
    let first = vec![hint(Some("hw:1"), None, Some("Card one"), Some(1))];
    let _ = d.devices(true, None, &first);
    assert!(d.descriptions_present(&missing, false));
}
