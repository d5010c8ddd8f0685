use rs_vst_host::rack::{PluginSlot, TransportState, DEFAULT_TEMPO_BITS};
use rs_vst_host::session::{Session, SESSION_VERSION};

#[test]
fn test_session_version_constant() {
    assert_eq!(SESSION_VERSION, "1.0");
}

#[test]
fn test_transport_default() {
    let t = TransportState::default();
    assert!(!t.playing);
    assert_eq!(f64::from_bits(t.tempo), 120.0);
    assert_eq!(t.tempo, DEFAULT_TEMPO_BITS);
    assert_eq!((t.time_sig_num, t.time_sig_den), (4, 4));
}

#[test]
fn test_capture_restore_roundtrip() {
    let transport = TransportState { playing: true, tempo: 98.5f64.to_bits(), time_sig_num: 7, time_sig_den: 8 };
    let rack = vec![PluginSlot {
        name: "EQ".into(),
        vendor: "V".into(),
        category: "Fx".into(),
        path: "/eq.vst3".into(),
        cid: [3; 16],
        bypassed: true,
        param_cache: Vec::new(),
        staged_changes: vec![(1, 0.25f64.to_bits())],
    }];
    let session = Session::capture(&transport, &rack, Some("Speakers".into()), None);
    assert_eq!(session.version, "1.0");
    assert_eq!(session.audio_device.as_deref(), Some("Speakers"));
    assert!(session.midi_port.is_none());
    let (t, r) = session.restore();
    assert!(!t.playing);
    assert_eq!(f64::from_bits(t.tempo), 98.5);
    assert_eq!((t.time_sig_num, t.time_sig_den), (7, 8));
    assert_eq!(r.len(), 1);
    assert_eq!(r[0].name, "EQ");
    assert_eq!(r[0].cid, [3; 16]);
    assert!(r[0].bypassed);
    assert!(r[0].staged_changes.is_empty());
}

fn sample_transport() -> TransportState {
    TransportState { playing: true, tempo: 140.0f64.to_bits(), time_sig_num: 3, time_sig_den: 4 }
}

fn sample_slot(name: &str, vendor: &str, path: &str, cid: u8, bypassed: bool) -> PluginSlot {
    PluginSlot {
        name: name.into(),
        vendor: vendor.into(),
        category: "Audio Module Class".into(),
        path: path.into(),
        cid: [cid; 16],
        bypassed,
        param_cache: Vec::new(),
        staged_changes: Vec::new(),
    }
}

fn sample_rack() -> Vec<PluginSlot> {
    vec![
        sample_slot("TestSynth", "TestVendor", "/Library/Audio/Plug-Ins/VST3/TestSynth.vst3", 1, false),
        sample_slot("TestEQ", "OtherVendor", "/Library/Audio/Plug-Ins/VST3/TestEQ.vst3", 2, true),
    ]
}

#[test]
fn test_session_capture() {
    let transport = sample_transport();
    let rack = sample_rack();
    let session = Session::capture(&transport, &rack, Some("Speakers".into()), None);
    assert_eq!(session.version, SESSION_VERSION);
    assert_eq!(f64::from_bits(session.transport.tempo), 140.0);
    assert_eq!(session.transport.time_sig_num, 3);
    assert_eq!(session.transport.time_sig_den, 4);
    assert_eq!(session.rack.len(), 2);
    assert_eq!(session.rack[0].name, "TestSynth");
    assert_eq!(session.rack[1].bypassed, true);
    assert_eq!(session.audio_device, Some("Speakers".into()));
    assert_eq!(session.midi_port, None);
}

#[test]
fn test_session_restore() {
    let transport = sample_transport();
    let rack = sample_rack();
    let session = Session::capture(&transport, &rack, None, Some("Port 1".into()));
    let (restored_transport, restored_rack) = session.restore();
    assert!(!restored_transport.playing);
    assert_eq!(f64::from_bits(restored_transport.tempo), 140.0);
    assert_eq!(restored_transport.time_sig_num, 3);
    assert_eq!(restored_rack.len(), 2);
    assert_eq!(restored_rack[0].name, "TestSynth");
    assert_eq!(restored_rack[1].name, "TestEQ");
    assert_eq!(restored_rack[1].bypassed, true);
}

#[test]
fn test_session_empty_rack() {
    let transport = TransportState::default();
    let session = Session::capture(&transport, &[], None, None);
    assert!(session.rack.is_empty());
    let (_, rack) = session.restore();
    assert!(rack.is_empty());
}

#[test]
fn test_snapshot_cid_preservation() {
    let cid = [0x10, 0x20, 0x30, 0x40, 0x50, 0x60, 0x70, 0x80, 0x90, 0xA0, 0xB0, 0xC0, 0xD0, 0xE0, 0xF0, 0xFF];
    let mut slot = sample_slot("P", "V", "/test", 0, false);
    slot.cid = cid;
    slot.category = "C".into();
    let session = Session::capture(&TransportState::default(), &[slot], None, None);
    let (_, rack) = session.restore();
    assert_eq!(rack[0].cid, cid);
}
