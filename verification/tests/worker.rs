use rs_vst_host::host::{PluginClassInfo, PluginModuleInfo};
use rs_vst_host::protocol::{GuiAction, RackSlotState, SupervisorUpdate, TransportUpdate};
use rs_vst_host::rack::{ParamSnapshot, DEFAULT_TEMPO_BITS};
use rs_vst_host::shadow::ShadowState;
use rs_vst_host::status::{AudioStatusState, DeviceState, MidiPortState};
use rs_vst_host::worker::{
    preset_list, scan_summary, startup_status, AudioWorkerState, EngineReport, OutsideWork, WorkerStep,
};

fn class(name: &str, vendor: Option<&str>) -> PluginClassInfo {
    PluginClassInfo {
        name: name.into(),
        category: "Audio Module Class".into(),
        subcategories: None,
        vendor: vendor.map(|v| v.to_string()),
        version: None,
        sdk_version: None,
        cid: [7u8; 16],
    }
}

fn module(path: &str, vendor: Option<&str>, classes: Vec<PluginClassInfo>) -> PluginModuleInfo {
    PluginModuleInfo {
        path: path.into(),
        factory_vendor: vendor.map(|v| v.to_string()),
        factory_url: None,
        factory_email: None,
        classes,
    }
}

fn catalogue() -> Vec<PluginModuleInfo> {
    vec![
        module("/a.vst3", Some("ModVendor"), vec![class("Synth", None), class("Delay", Some("ClassVendor"))]),
        module("/b.vst3", None, vec![class("Bare", None)]),
    ]
}

fn snap(id: u32, value: f64, display: &str) -> ParamSnapshot {
    ParamSnapshot {
        id,
        title: format!("P{}", id),
        units: "dB".into(),
        value: value.to_bits(),
        default: 0.0f64.to_bits(),
        display: display.into(),
        can_automate: true,
        is_read_only: false,
        is_bypass: false,
    }
}

fn status() -> AudioStatusState {
    AudioStatusState { sample_rate: 48000, buffer_size: 256, device_name: "Out".into(), running: true }
}

fn status_text(u: &SupervisorUpdate) -> String {
    match u {
        SupervisorUpdate::StatusMessage { message } => message.clone(),
        _ => panic!("not a status message"),
    }
}

fn worker_with_rack() -> AudioWorkerState {
    let mut w = AudioWorkerState::new(false, catalogue(), "s.json".into(), Vec::new());
    w.add_to_rack(0, 0, None);
    w.add_to_rack(0, 1, None);
    w.add_to_rack(1, 0, None);
    w
}

#[test]
fn test_worker_new_counts_cached_classes() {
    let w = AudioWorkerState::new(false, catalogue(), "default.json".into(), Vec::new());
    assert_eq!(w.status_message, "3 plugin class(es) loaded from cache.");
    assert_eq!(w.plugin_modules.len(), 2);
    assert!(w.rack.is_empty());
    assert_eq!(w.selected_slot, None);
    assert!(!w.tone_enabled);
    assert_eq!(w.transport.tempo, DEFAULT_TEMPO_BITS);
    assert_eq!(w.transport.time_sig_num, 4);
    assert_eq!(w.session_path, "default.json");
}

#[test]
fn test_worker_new_safe_mode_ignores_cache() {
    let w = AudioWorkerState::new(true, catalogue(), "s.json".into(), Vec::new());
    assert!(w.plugin_modules.is_empty());
    assert_eq!(w.status_message, "Safe mode — no plugins loaded. Click 'Scan' to discover VST3 plugins.");
}

#[test]
fn test_worker_new_empty_cache() {
    let w = AudioWorkerState::new(false, Vec::new(), "s.json".into(), Vec::new());
    assert_eq!(w.status_message, "No plugins cached. Click 'Scan' to discover VST3 plugins.");
}

#[test]
fn test_worker_add_to_rack_vendor_and_updates() {
    let mut w = AudioWorkerState::new(false, catalogue(), "s.json".into(), Vec::new());
    let ups = w.add_to_rack(0, 0, Some(4));
    assert_eq!(w.rack[0].vendor, "ModVendor");
    assert_eq!(w.rack[0].path, "/a.vst3");
    assert!(w.rack[0].component_state.is_none());
    assert_eq!(ups.len(), 2);
    match &ups[0] {
        SupervisorUpdate::RackUpdated { rack, active_slot, selected_slot } => {
            assert_eq!(rack.len(), 1);
            assert_eq!(*active_slot, Some(4));
            assert_eq!(*selected_slot, None);
        },
        _ => panic!("expected a rack update"),
    }
    assert_eq!(status_text(&ups[1]), "Added 'Synth' to the rack.");
    w.add_to_rack(0, 1, None);
    assert_eq!(w.rack[1].vendor, "ClassVendor");
    w.add_to_rack(1, 0, None);
    assert_eq!(w.rack[2].vendor, "Unknown");
}

#[test]
fn test_worker_add_to_rack_invalid_index() {
    let mut w = AudioWorkerState::new(false, catalogue(), "s.json".into(), Vec::new());
    let before = w.status_message.clone();
    let ups = w.add_to_rack(1, 5, None);
    assert!(w.rack.is_empty());
    assert_eq!(w.status_message, before);
    assert_eq!(ups.len(), 1);
    assert_eq!(status_text(&ups[0]), "Invalid module/class index.");
    assert_eq!(w.add_to_rack(9, 0, None).len(), 1);
}

#[test]
fn test_worker_remove_active_slot_deactivates() {
    let mut w = worker_with_rack();
    w.selected_slot = Some(2);
    w.param_snapshots = vec![snap(1, 0.5, "0.5")];
    let r = w.remove_from_rack(1, Some(1));
    assert!(r.deactivate);
    assert!(w.param_snapshots.is_empty());
    assert_eq!(w.selected_slot, Some(1));
    assert_eq!(w.rack.len(), 2);
    assert_eq!(w.rack[1].name, "Bare");
    assert_eq!(w.status_message, "Removed 'Delay' from the rack.");
    assert_eq!(r.updates.len(), 3);
    match &r.updates[0] {
        SupervisorUpdate::RackUpdated { active_slot, selected_slot, .. } => {
            assert_eq!(*active_slot, None);
            assert_eq!(*selected_slot, Some(1));
        },
        _ => panic!("expected a rack update"),
    }
    assert!(matches!(&r.updates[1], SupervisorUpdate::ParamsUpdated { snapshots } if snapshots.is_empty()));
}

#[test]
fn test_worker_remove_selected_inactive_slot() {
    let mut w = worker_with_rack();
    w.selected_slot = Some(0);
    w.param_snapshots = vec![snap(1, 0.5, "0.5")];
    let r = w.remove_from_rack(0, Some(2));
    assert!(!r.deactivate);
    assert_eq!(w.selected_slot, None);
    assert!(w.param_snapshots.is_empty());
    match &r.updates[0] {
        SupervisorUpdate::RackUpdated { active_slot, .. } => assert_eq!(*active_slot, Some(2)),
        _ => panic!("expected a rack update"),
    }
}

#[test]
fn test_worker_remove_past_end_changes_nothing() {
    let mut w = worker_with_rack();
    let before = w.status_message.clone();
    let r = w.remove_from_rack(10, Some(0));
    assert!(!r.deactivate);
    assert_eq!(w.rack.len(), 3);
    assert_eq!(w.status_message, before);
    assert_eq!(r.updates.len(), 3);
    assert_eq!(status_text(&r.updates[2]), before);
}

#[test]
fn test_worker_stage_parameter_upserts() {
    let mut w = worker_with_rack();
    w.rack[0].param_cache = vec![snap(5, 0.0, "0.000"), snap(6, 0.0, "0.000")];
    w.stage_parameter(0, 5, 0.25f64.to_bits(), "0.250".into(), None);
    w.stage_parameter(0, 6, 0.5f64.to_bits(), "0.500".into(), None);
    let ups = w.stage_parameter(0, 5, 0.75f64.to_bits(), "0.750".into(), Some(1));
    assert_eq!(w.rack[0].staged_changes, vec![(5, 0.75f64.to_bits()), (6, 0.5f64.to_bits())]);
    assert_eq!(w.rack[0].param_cache[0].value, 0.75f64.to_bits());
    assert_eq!(w.rack[0].param_cache[0].display, "0.750");
    assert_eq!(w.rack[0].param_cache[1].display, "0.500");
    assert_eq!(ups.len(), 1);
    assert!(matches!(&ups[0], SupervisorUpdate::RackUpdated { active_slot: Some(1), .. }));
}

#[test]
fn test_worker_stage_parameter_unknown_slot() {
    let mut w = worker_with_rack();
    let ups = w.stage_parameter(7, 1, 0.1f64.to_bits(), "0.100".into(), None);
    assert!(w.rack.iter().all(|s| s.staged_changes.is_empty()));
    assert_eq!(ups.len(), 1);
}

#[test]
fn test_worker_select_slot() {
    let mut w = worker_with_rack();
    w.rack[1].param_cache = vec![snap(2, 0.3, "0.3")];
    assert!(!w.select_slot(Some(1), Some(0)));
    assert_eq!(w.selected_slot, Some(1));
    assert_eq!(w.param_snapshots.len(), 1);
    assert!(matches!(w.params_update(), SupervisorUpdate::ParamsUpdated { snapshots } if snapshots.len() == 1));
    assert!(w.select_slot(Some(0), Some(0)));
    assert_eq!(w.param_snapshots.len(), 1);
    assert!(!w.select_slot(Some(9), Some(0)));
    assert!(w.param_snapshots.is_empty());
    w.param_snapshots = vec![snap(2, 0.3, "0.3")];
    assert!(!w.select_slot(None, Some(0)));
    assert_eq!(w.selected_slot, None);
    assert!(w.param_snapshots.is_empty());
}

#[test]
fn test_worker_capture_plugin_state() {
    let mut w = worker_with_rack();
    let u = w.capture_plugin_state(1, vec![1, 2, 3], Vec::new());
    assert_eq!(w.rack[1].component_state, Some(vec![1, 2, 3]));
    assert_eq!(w.rack[1].controller_state, None);
    match u {
        SupervisorUpdate::PluginStateCaptured { slot_index, component_state, controller_state } => {
            assert_eq!(slot_index, 1);
            assert_eq!(component_state, vec![1, 2, 3]);
            assert!(controller_state.is_empty());
        },
        _ => panic!("expected a captured state"),
    }
    let u = w.capture_plugin_state(8, vec![9], vec![9]);
    assert!(matches!(u, SupervisorUpdate::PluginStateCaptured { slot_index: 8, .. }));
}

#[test]
fn test_worker_activation_flow() {
    let mut w = worker_with_rack();
    w.stage_parameter(2, 3, 0.5f64.to_bits(), "0.500".into(), None);
    let staged = w.take_staged_changes(2);
    assert_eq!(staged, vec![(3, 0.5f64.to_bits())]);
    assert!(w.rack[2].staged_changes.is_empty());
    let ups = w.activation_finished(2, "Bare", vec![snap(3, 0.5, "0.5")], staged.len(), Some(2), status(), true);
    assert_eq!(w.selected_slot, Some(2));
    assert_eq!(w.rack[2].param_cache.len(), 1);
    assert_eq!(w.status_message, "▶ 'Bare' active — processing audio. (1 staged change(s) applied)");
    assert_eq!(ups.len(), 5);
    assert!(matches!(&ups[2], SupervisorUpdate::AudioStatusUpdated { status } if status.sample_rate == 48000));
    assert!(matches!(&ups[3], SupervisorUpdate::EditorAvailability { has_editor: true }));
    assert_eq!(status_text(&ups[4]), w.status_message);
    assert!(w.take_staged_changes(42).is_empty());
}

#[test]
fn test_worker_activation_failed() {
    let mut w = worker_with_rack();
    let ups = w.activation_failed("Synth", "library not found");
    assert_eq!(w.status_message, "✗ Failed to activate 'Synth': library not found");
    assert_eq!(ups.len(), 1);
}

#[test]
fn test_worker_deactivated_caches_params() {
    let mut w = worker_with_rack();
    w.param_snapshots = vec![snap(4, 0.9, "0.9")];
    let ups = w.deactivated(Some(0), false, None, status(), false);
    assert_eq!(w.rack[0].param_cache.len(), 1);
    assert_eq!(w.status_message, "Plugin deactivated.");
    assert_eq!(ups.len(), 3);
    let ups = w.deactivated(None, true, None, status(), true);
    assert_eq!(
        w.status_message,
        "⚠ 'Plugin' crashed during deactivation — restart the host to reuse this plugin."
    );
    assert_eq!(ups.len(), 4);
    assert!(matches!(ups[3], SupervisorUpdate::HeapCorruptionDetected));
    w.deactivated(None, true, Some(1), status(), false);
    assert_eq!(w.status_message, "⚠ 'Delay' crashed during deactivation — restart the host to reuse this plugin.");
}

#[test]
fn test_worker_plugin_crashed_names_slot() {
    let mut w = worker_with_rack();
    let ups = w.plugin_crashed(Some(0), None, status());
    assert_eq!(w.status_message, "⚠ 'Synth' crashed — deactivated safely. Audio host is unaffected.");
    assert_eq!(ups.len(), 3);
    assert_eq!(status_text(&ups[0]), w.status_message);
    assert!(matches!(&ups[1], SupervisorUpdate::RackUpdated { active_slot: None, .. }));
    w.plugin_crashed(None, None, status());
    assert_eq!(w.status_message, "⚠ 'Unknown' crashed — deactivated safely. Audio host is unaffected.");
}

#[test]
fn test_worker_restore_state() {
    let mut w = AudioWorkerState::new(false, Vec::new(), "s.json".into(), Vec::new());
    w.param_snapshots = vec![snap(1, 0.1, "0.1")];
    let slot = RackSlotState {
        name: "Kept".into(),
        vendor: "V".into(),
        category: "Fx".into(),
        path: "/k.vst3".into(),
        cid: [3u8; 16],
        bypassed: true,
        param_cache: Vec::new(),
        staged_changes: vec![(1, 2)],
        component_state: Some(vec![5]),
        controller_state: None,
    };
    let transport = TransportUpdate { playing: true, tempo: 90.0f64.to_bits(), time_sig_num: 3, time_sig_den: 8 };
    w.restore_state(catalogue(), vec![slot], Some(0), true, transport, "other.json".into());
    assert_eq!(w.rack.len(), 1);
    assert_eq!(w.rack[0].staged_changes, vec![(1, 2)]);
    assert_eq!(w.selected_slot, Some(0));
    assert!(w.tone_enabled);
    assert_eq!(w.transport.time_sig_den, 8);
    assert_eq!(w.session_path, "other.json");
    assert!(w.param_snapshots.is_empty());
    assert_eq!(w.status_message, "⚠ Audio process restarted — plugins need to be re-activated.");
}

#[test]
fn test_worker_scan_finished_message() {
    let mut w = AudioWorkerState::new(true, Vec::new(), "s.json".into(), Vec::new());
    let ups = w.scan_finished(catalogue(), 0);
    assert_eq!(w.status_message, "Scan complete — 2 module(s), 3 class(es).");
    assert_eq!(ups.len(), 2);
    assert!(matches!(&ups[0], SupervisorUpdate::PluginModulesUpdated { modules } if modules.len() == 2));
    w.scan_finished(Vec::new(), 2);
    assert_eq!(w.status_message, "Scan complete — 0 module(s), 0 class(es), 2 error(s).");
    assert!(w.plugin_modules.is_empty());
}

#[test]
fn test_worker_devices_refreshed_message() {
    let mut w = AudioWorkerState::new(true, Vec::new(), "s.json".into(), Vec::new());
    let ups = w.devices_refreshed(
        vec![DeviceState { name: "A".into() }, DeviceState { name: "B".into() }],
        vec![MidiPortState { name: "M".into() }],
    );
    assert_eq!(w.status_message, "Devices refreshed — 2 audio, 1 MIDI");
    assert!(matches!(&ups[0], SupervisorUpdate::DevicesUpdated { audio_devices, midi_ports }
        if audio_devices.len() == 2 && midi_ports[0].name == "M"));
}

#[test]
fn test_worker_editor_and_presets() {
    let mut w = worker_with_rack();
    w.selected_slot = Some(1);
    assert_eq!(w.slot_name(w.selected_slot), "Delay");
    assert_eq!(w.slot_name(None), "");
    assert_eq!(w.slot_cid(Some(0)), [7u8; 16]);
    assert_eq!(w.slot_cid(Some(30)), [0u8; 16]);
    w.editor_opened("Delay", Ok(()));
    assert_eq!(w.status_message, "🎹 Editor opened for 'Delay'.");
    w.editor_opened("Delay", Err("No active plugin".into()));
    assert_eq!(w.status_message, "✗ Editor failed: No active plugin");
    let ups = w.preset_loaded(Ok(("Warm".into(), vec![snap(1, 0.2, "0.2")])));
    assert_eq!(w.status_message, "Preset 'Warm' loaded");
    assert_eq!(ups.len(), 2);
    assert_eq!(w.param_snapshots.len(), 1);
    let ups = w.preset_loaded(Err("bad file".into()));
    assert_eq!(w.status_message, "✗ Preset load failed: bad file");
    assert_eq!(ups.len(), 1);
    w.preset_saved("Warm", Ok(()));
    assert_eq!(w.status_message, "Preset 'Warm' saved");
    w.preset_saved("Warm", Err("disk full".into()));
    assert_eq!(w.status_message, "✗ Preset save failed: disk full");
}

#[test]
fn test_worker_full_state_carries_engine_report() {
    let w = worker_with_rack();
    let engine = EngineReport {
        active_slot: Some(1),
        audio_status: status(),
        audio_devices: vec![DeviceState { name: "Out".into() }],
        midi_ports: Vec::new(),
        selected_audio_device: Some("Out".into()),
        selected_midi_port: None,
        process_isolation: true,
        heap_corruption_detected: false,
        has_editor: true,
        tainted_count: 2,
    };
    match w.full_state(engine, true) {
        SupervisorUpdate::FullState { rack, active_slot, tainted_count, safe_mode, status_message, plugin_modules, .. } => {
            assert_eq!(rack.len(), 3);
            assert_eq!(active_slot, Some(1));
            assert_eq!(tainted_count, 2);
            assert!(safe_mode);
            assert_eq!(status_message, w.status_message);
            assert_eq!(plugin_modules.len(), 2);
        },
        _ => panic!("expected a full state"),
    }
}

#[test]
fn test_startup_status_and_scan_summary() {
    assert_eq!(startup_status(false, &catalogue()), "3 plugin class(es) loaded from cache.");
    assert_eq!(startup_status(true, &catalogue()), "Safe mode — no plugins loaded. Click 'Scan' to discover VST3 plugins.");
    assert_eq!(scan_summary(&catalogue(), 1), "Scan complete — 2 module(s), 3 class(es), 1 error(s).");
}

fn empty_worker() -> AudioWorkerState {
    AudioWorkerState::new(false, Vec::new(), "session.json".into(), Vec::new())
}

fn test_slot(name: &str, cid: u8, param_cache: Vec<ParamSnapshot>) -> RackSlotState {
    RackSlotState {
        name: name.into(),
        vendor: "V".into(),
        category: "C".into(),
        path: "/test.vst3".into(),
        cid: [cid; 16],
        bypassed: false,
        param_cache,
        staged_changes: Vec::new(),
        component_state: None,
        controller_state: None,
    }
}

fn replies(step: WorkerStep) -> Vec<SupervisorUpdate> {
    match step {
        WorkerStep::Reply(u) => u,
        WorkerStep::Outside(_) => panic!("expected a reply"),
    }
}

fn engine_report() -> EngineReport {
    EngineReport {
        active_slot: None,
        audio_status: AudioStatusState::default(),
        audio_devices: Vec::new(),
        midi_ports: Vec::new(),
        selected_audio_device: None,
        selected_midi_port: None,
        process_isolation: false,
        heap_corruption_detected: false,
        has_editor: false,
        tainted_count: 0,
    }
}

#[test]
fn test_audio_worker_state_default() {
    let state = AudioWorkerState::new(true, Vec::new(), "session.json".into(), Vec::new());
    assert!(state.plugin_modules.is_empty());
    assert!(state.rack.is_empty());
    assert_eq!(state.selected_slot, None);
    assert!(state.param_snapshots.is_empty());
    assert!(state.status_message.contains("Safe mode"));
    assert!(!state.tone_enabled);
}

#[test]
fn test_audio_worker_state_normal() {
    let state = empty_worker();
    assert!(state.rack.is_empty());
    assert_eq!(state.selected_slot, None);
    assert!(state.custom_paths.is_empty());
}

#[test]
fn test_audio_worker_state_with_custom_paths() {
    let paths = vec!["/custom/vst3".to_string(), "./local".to_string()];
    let state = AudioWorkerState::new(false, Vec::new(), "session.json".into(), paths.clone());
    assert_eq!(state.custom_paths, paths);
}

#[test]
fn test_audio_worker_state_custom_paths_safe_mode() {
    let paths = vec!["/custom/vst3".to_string()];
    let state = AudioWorkerState::new(true, catalogue(), "session.json".into(), paths.clone());
    assert!(state.plugin_modules.is_empty());
    assert_eq!(state.custom_paths, paths);
}

#[test]
fn test_build_full_state_structure() {
    let mut state = empty_worker();
    state.status_message = "test status".into();
    match state.full_state(engine_report(), false) {
        SupervisorUpdate::FullState { plugin_modules, rack, selected_slot, active_slot, status_message, safe_mode, .. } => {
            assert!(plugin_modules.is_empty());
            assert!(rack.is_empty());
            assert_eq!(selected_slot, None);
            assert_eq!(active_slot, None);
            assert_eq!(status_message, "test status");
            assert!(!safe_mode);
        },
        _ => panic!("Expected FullState"),
    }
}

#[test]
fn test_handle_action_ping() {
    let mut state = empty_worker();
    let result = replies(state.handle_action(GuiAction::Ping, None));
    assert_eq!(result.len(), 1);
    assert!(matches!(&result[0], SupervisorUpdate::Pong));
}

#[test]
fn test_handle_action_shutdown() {
    let mut state = empty_worker();
    let result = replies(state.handle_action(GuiAction::Shutdown, None));
    assert_eq!(result.len(), 1);
    assert!(matches!(&result[0], SupervisorUpdate::ShutdownAck));
}

#[test]
fn test_handle_action_set_tone() {
    let mut state = empty_worker();
    let step = state.handle_action(GuiAction::SetToneEnabled { enabled: true }, None);
    assert!(matches!(step, WorkerStep::Outside(OutsideWork::SetTone(true))));
    assert!(state.tone_enabled);
}

#[test]
fn test_handle_action_add_to_rack() {
    let modules = vec![module("/test.vst3", Some("TestVendor"), vec![class("TestPlugin", None)])];
    let mut state = AudioWorkerState::new(false, modules, "session.json".into(), Vec::new());
    let result = replies(state.handle_action(GuiAction::AddToRack { module_index: 0, class_index: 0 }, None));
    assert_eq!(state.rack.len(), 1);
    assert_eq!(state.rack[0].name, "TestPlugin");
    assert_eq!(state.rack[0].vendor, "TestVendor");
    assert!(state.status_message.contains("TestPlugin"));
    assert!(!result.is_empty());
}

#[test]
fn test_handle_action_remove_from_rack() {
    let mut state = empty_worker();
    state.rack = vec![test_slot("ToRemove", 0, Vec::new())];
    state.selected_slot = Some(0);
    let _ = state.handle_action(GuiAction::RemoveFromRack { index: 0 }, None);
    assert!(state.rack.is_empty());
    assert_eq!(state.selected_slot, None);
}

#[test]
fn test_handle_action_select_slot() {
    let mut state = empty_worker();
    state.rack = vec![test_slot("Test", 0, vec![snap(1, 0.5, "0.5")])];
    state.rack[0].param_cache[0].title = "Vol".into();
    let _ = state.handle_action(GuiAction::SelectSlot { index: Some(0) }, None);
    assert_eq!(state.selected_slot, Some(0));
    assert_eq!(state.param_snapshots.len(), 1);
    assert_eq!(state.param_snapshots[0].title, "Vol");
}

#[test]
fn test_handle_action_stage_parameter() {
    let mut state = empty_worker();
    state.rack = vec![test_slot("Test", 0, vec![snap(1, 0.5, "0.500")])];
    let step = state.handle_action(GuiAction::StageParameter { slot_index: 0, id: 1, value: 0.8f64.to_bits() }, None);
    match step {
        WorkerStep::Outside(OutsideWork::RenderStagedValue { slot_index, id, value }) => {
            state.stage_parameter(slot_index, id, value, format!("{:.3}", f64::from_bits(value)), None);
        },
        _ => panic!("expected the staged value to be rendered"),
    }
    assert_eq!(state.rack[0].staged_changes.len(), 1);
    assert_eq!(state.rack[0].staged_changes[0], (1, 0.8f64.to_bits()));
    assert_eq!(f64::from_bits(state.rack[0].param_cache[0].value), 0.8);
}

#[test]
fn test_handle_action_set_transport() {
    let mut state = empty_worker();
    let _ = state.handle_action(
        GuiAction::SetTransport { playing: true, tempo: 140.0f64.to_bits(), time_sig_num: 3, time_sig_den: 8 },
        None,
    );
    assert!(state.transport.playing);
    assert_eq!(f64::from_bits(state.transport.tempo), 140.0);
    assert_eq!(state.transport.time_sig_num, 3);
    assert_eq!(state.transport.time_sig_den, 8);
}

#[test]
fn test_handle_action_add_invalid_index() {
    let mut state = empty_worker();
    let result = replies(state.handle_action(GuiAction::AddToRack { module_index: 99, class_index: 0 }, None));
    assert!(state.rack.is_empty());
    assert_eq!(result.len(), 1);
}

#[test]
fn test_handle_action_refresh_devices() {
    let mut state = empty_worker();
    let step = state.handle_action(GuiAction::RefreshDevices, None);
    assert!(matches!(step, WorkerStep::Outside(OutsideWork::RefreshDevices)));
    let result = state.devices_refreshed(Vec::new(), Vec::new());
    assert!(!result.is_empty());
    assert!(state.status_message.contains("Devices refreshed"));
}

#[test]
fn test_handle_action_capture_plugin_state_no_active() {
    let mut state = empty_worker();
    state.rack = vec![test_slot("Test", 1, Vec::new())];
    state.selected_slot = Some(0);
    let step = state.handle_action(GuiAction::CapturePluginState { slot_index: 0 }, None);
    let slot = match step {
        WorkerStep::Outside(OutsideWork::CapturePluginState(slot)) => slot,
        _ => panic!("expected a capture request"),
    };
    let result = vec![state.capture_plugin_state(slot, Vec::new(), Vec::new())];
    assert_eq!(result.len(), 1);
    match &result[0] {
        SupervisorUpdate::PluginStateCaptured { slot_index, component_state, controller_state } => {
            assert_eq!(*slot_index, 0);
            assert!(component_state.is_empty());
            assert!(controller_state.is_empty());
        },
        _ => panic!("Expected PluginStateCaptured"),
    }
}

#[test]
fn test_handle_action_capture_plugin_state_invalid_index() {
    let mut state = empty_worker();
    let step = state.handle_action(GuiAction::CapturePluginState { slot_index: 5 }, None);
    let slot = match step {
        WorkerStep::Outside(OutsideWork::CapturePluginState(slot)) => slot,
        _ => panic!("expected a capture request"),
    };
    let result = vec![state.capture_plugin_state(slot, Vec::new(), Vec::new())];
    assert_eq!(result.len(), 1);
    match &result[0] {
        SupervisorUpdate::PluginStateCaptured { slot_index, component_state, controller_state } => {
            assert_eq!(*slot_index, 5);
            assert!(component_state.is_empty());
            assert!(controller_state.is_empty());
        },
        _ => panic!("Expected PluginStateCaptured"),
    }
}

#[test]
fn test_handle_action_list_presets_empty() {
    let mut state = empty_worker();
    let step = state.handle_action(GuiAction::ListPresets, None);
    match step {
        WorkerStep::Outside(OutsideWork::ListPresets(name)) => assert!(name.is_empty()),
        _ => panic!("expected a preset listing request"),
    }
    let result = vec![preset_list(Vec::new())];
    assert_eq!(result.len(), 1);
    match &result[0] {
        SupervisorUpdate::PresetList { factory_presets, user_presets } => {
            assert!(factory_presets.is_empty());
            assert!(user_presets.is_empty());
        },
        _ => panic!("Expected PresetList"),
    }
}

#[test]
fn test_handle_action_load_preset_missing_file() {
    let mut state = empty_worker();
    let step = state.handle_action(GuiAction::LoadPreset { path: "/nonexistent/preset.json".into() }, None);
    assert!(matches!(step, WorkerStep::Outside(OutsideWork::LoadPreset(ref p)) if p == "/nonexistent/preset.json"));
    let result = state.preset_loaded(Err("No such file or directory (os error 2)".into()));
    assert_eq!(result.len(), 1);
    assert!(matches!(&result[0], SupervisorUpdate::StatusMessage { message } if message.contains("Preset load failed")));
}

#[test]
fn test_handle_action_routes_engine_work() {
    let mut state = worker_with_rack();
    state.selected_slot = Some(1);
    match state.handle_action(GuiAction::ActivateSlot { index: 1 }, None) {
        WorkerStep::Outside(OutsideWork::Activate { index, path, cid, name }) => {
            assert_eq!(index, 1);
            assert_eq!(path, "/a.vst3");
            assert_eq!(cid, [7u8; 16]);
            assert_eq!(name, "Delay");
        },
        _ => panic!("expected an activation request"),
    }
    let before = state.status_message.clone();
    let ups = replies(state.handle_action(GuiAction::ActivateSlot { index: 9 }, None));
    assert_eq!(status_text(&ups[0]), before);
    assert!(matches!(state.handle_action(GuiAction::RemoveFromRack { index: 0 }, Some(0)),
        WorkerStep::Outside(OutsideWork::DeactivateThenSend(ref u)) if u.len() == 3));
    assert!(matches!(state.handle_action(GuiAction::SelectSlot { index: Some(0) }, Some(0)),
        WorkerStep::Outside(OutsideWork::LoadLiveParams)));
    match state.handle_action(GuiAction::OpenEditor, None) {
        WorkerStep::Outside(OutsideWork::OpenEditor(name)) => assert_eq!(name, "Delay"),
        _ => panic!("expected an editor request"),
    }
    match state.handle_action(GuiAction::SavePreset { path: "/p.json".into(), name: "Warm".into() }, Some(1)) {
        WorkerStep::Outside(OutsideWork::SavePreset { path, name, cid }) => {
            assert_eq!(path, "/p.json");
            assert_eq!(name, "Warm");
            assert_eq!(cid, [7u8; 16]);
        },
        _ => panic!("expected a preset save request"),
    }
    assert!(matches!(state.handle_action(GuiAction::ScanPlugins, None), WorkerStep::Outside(OutsideWork::Scan)));
    assert_eq!(state.status_message, "Scanning for plugins…");
}

#[test]
fn test_worker_remove_undoes_add() {
    let mut w = worker_with_rack();
    w.selected_slot = Some(1);
    w.param_snapshots = vec![snap(1, 0.5, "0.5")];
    let names: Vec<String> = w.rack.iter().map(|s| s.name.clone()).collect();
    w.add_to_rack(0, 1, None);
    let last = w.rack.len() - 1;
    let r = w.remove_from_rack(last, None);
    assert!(!r.deactivate);
    let after: Vec<String> = w.rack.iter().map(|s| s.name.clone()).collect();
    assert_eq!(after, names);
    assert_eq!(w.selected_slot, Some(1));
    assert_eq!(w.param_snapshots.len(), 1);
}

#[test]
fn test_restaging_keeps_last_value() {
    let mut w = worker_with_rack();
    w.stage_parameter(0, 9, 1, "a".into(), None);
    w.stage_parameter(0, 9, 2, "b".into(), None);
    w.stage_parameter(0, 4, 3, "c".into(), None);
    w.stage_parameter(0, 9, 5, "d".into(), None);
    assert_eq!(w.rack[0].staged_changes, vec![(9, 5), (4, 3)]);
}

#[test]
fn test_worker_restart_gets_configuration_back() {
    let mut w = worker_with_rack();
    w.selected_slot = Some(2);
    w.tone_enabled = true;
    w.transport = TransportUpdate { playing: true, tempo: 100.0f64.to_bits(), time_sig_num: 6, time_sig_den: 8 };
    let mut shadow = ShadowState::new(false, "s.json".into());
    let full = w.full_state(engine_report(), false);
    shadow.update_from(&full);
    let mut fresh = empty_worker();
    match shadow.to_restore_command() {
        rs_vst_host::protocol::AudioCommand::RestoreState {
            plugin_modules,
            rack,
            selected_slot,
            tone_enabled,
            transport,
            session_path,
        } => fresh.restore_state(plugin_modules, rack, selected_slot, tone_enabled, transport, session_path),
        _ => panic!("expected a restore command"),
    }
    let names = |s: &AudioWorkerState| s.rack.iter().map(|r| r.name.clone()).collect::<Vec<_>>();
    assert_eq!(names(&fresh), names(&w));
    assert_eq!(fresh.plugin_modules.len(), w.plugin_modules.len());
    assert_eq!(fresh.selected_slot, Some(2));
    assert!(fresh.tone_enabled);
    assert_eq!(fresh.transport.time_sig_num, 6);
    assert_eq!(fresh.transport.tempo, 100.0f64.to_bits());
}

#[test]
fn test_worker_session_save_and_load() {
    let mut w = worker_with_rack();
    w.selected_slot = Some(1);
    w.keep_live_state(vec![1, 2], Vec::new());
    assert_eq!(w.rack[1].component_state, Some(vec![1, 2]));
    assert_eq!(w.rack[1].controller_state, None);
    w.keep_live_state(Vec::new(), vec![9]);
    assert_eq!(w.rack[1].component_state, Some(vec![1, 2]));
    assert_eq!(w.rack[1].controller_state, Some(vec![9]));
    let ups = w.session_saved("/tmp/s.json", Ok(()));
    assert_eq!(w.status_message, "Session saved to /tmp/s.json");
    assert_eq!(ups.len(), 1);
    w.session_saved("/tmp/s.json", Err("denied".into()));
    assert_eq!(w.status_message, "✗ Save failed: denied");

    let mut slot = test_slot("Loaded", 4, vec![snap(1, 0.1, "0.1")]);
    slot.staged_changes = vec![(1, 2)];
    slot.component_state = Some(vec![7]);
    let transport = TransportUpdate { playing: false, tempo: 90.0f64.to_bits(), time_sig_num: 3, time_sig_den: 4 };
    w.param_snapshots = vec![snap(1, 0.1, "0.1")];
    w.session_loaded("/tmp/s.json", Ok((transport, vec![slot])));
    assert_eq!(w.rack.len(), 1);
    assert!(w.rack[0].param_cache.is_empty());
    assert!(w.rack[0].staged_changes.is_empty());
    assert_eq!(w.rack[0].component_state, Some(vec![7]));
    assert_eq!(w.selected_slot, None);
    assert!(w.param_snapshots.is_empty());
    assert_eq!(w.transport.time_sig_num, 3);
    assert_eq!(w.status_message, "Session loaded from /tmp/s.json (1 slots)");
    w.session_loaded("/nope", Err("missing".into()));
    assert_eq!(w.rack.len(), 1);
    assert_eq!(w.status_message, "✗ Load failed: missing");
}
