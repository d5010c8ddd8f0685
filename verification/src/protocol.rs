//! Messages between the GUI process, the supervisor and the audio worker.
//!
//! These are the values that travel over the sockets (as JSON text inside
//! frames, see `wire`). Real numbers are bit patterns, as in `rack`.
use vstd::prelude::*;
use crate::host::PluginModuleInfo;
use crate::rack::{copy_changes, copy_opt_bytes, copy_params, opt_bytes, params_view, ParamModel, ParamSnapshot};
use crate::status::{AudioStatusState, DeviceState, MidiPortState, PresetInfo};

verus! {

/// Transport state as sent over IPC.
#[derive(Debug, Clone, Copy)]
pub struct TransportUpdate {
    /// Whether playback is active.
    pub playing: bool,
    /// Tempo in BPM (bit pattern).
    pub tempo: u64,
    /// Time signature numerator.
    pub time_sig_num: u32,
    /// Time signature denominator.
    pub time_sig_den: u32,
}

/// A rack slot as sent over IPC.
pub struct RackSlotState {
    /// Display name.
    pub name: String,
    /// Vendor.
    pub vendor: String,
    /// Category.
    pub category: String,
    /// Path to the .vst3 bundle.
    pub path: String,
    /// Class ID.
    pub cid: [u8; 16],
    /// Whether the slot is bypassed.
    pub bypassed: bool,
    /// Cached parameter snapshots.
    pub param_cache: Vec<ParamSnapshot>,
    /// Staged parameter changes `(id, value bit pattern)`.
    pub staged_changes: Vec<(u32, u64)>,
    /// Component state blob.
    pub component_state: Option<Vec<u8>>,
    /// Controller state blob.
    pub controller_state: Option<Vec<u8>>,
}

/// The contents of a `RackSlotState`.
pub struct RackSlotModel {
    pub name: Seq<char>,
    pub vendor: Seq<char>,
    pub category: Seq<char>,
    pub path: Seq<char>,
    pub cid: Seq<u8>,
    pub bypassed: bool,
    pub param_cache: Seq<ParamModel>,
    pub staged_changes: Seq<(u32, u64)>,
    pub component_state: Option<Seq<u8>>,
    pub controller_state: Option<Seq<u8>>,
}

impl View for RackSlotState {
    type V = RackSlotModel;

    open spec fn view(&self) -> RackSlotModel {
        RackSlotModel {
            name: self.name@,
            vendor: self.vendor@,
            category: self.category@,
            path: self.path@,
            cid: self.cid@,
            bypassed: self.bypassed,
            param_cache: params_view(self.param_cache@),
            staged_changes: self.staged_changes@,
            component_state: opt_bytes(self.component_state),
            controller_state: opt_bytes(self.controller_state),
        }
    }
}

impl Clone for RackSlotState {
    fn clone(&self) -> (r: Self)
        ensures
            r@ == self@,
    {
        RackSlotState {
            name: self.name.clone(),
            vendor: self.vendor.clone(),
            category: self.category.clone(),
            path: self.path.clone(),
            cid: self.cid,
            bypassed: self.bypassed,
            param_cache: copy_params(&self.param_cache),
            staged_changes: copy_changes(&self.staged_changes),
            component_state: copy_opt_bytes(&self.component_state),
            controller_state: copy_opt_bytes(&self.controller_state),
        }
    }
}

/// The contents of a rack as sent over IPC.
pub open spec fn slots_view(v: Seq<RackSlotState>) -> Seq<RackSlotModel> {
    v.map_values(|s: RackSlotState| s@)
}

/// A copy of a rack.
pub fn copy_slots(v: &Vec<RackSlotState>) -> (r: Vec<RackSlotState>)
    ensures
        slots_view(r@) == slots_view(v@),
{
    let mut r: Vec<RackSlotState> = Vec::new();
    let mut i: usize = 0;
    while i < v.len()
        invariant
            i <= v@.len(),
            r@.len() == i,
            forall|k: int| 0 <= k < i ==> #[trigger] r@[k]@ == v@[k]@,
        decreases v@.len() - i,
    {
        r.push(v[i].clone());
        i = i + 1;
    }
    assert(slots_view(r@) =~= slots_view(v@));
    r
}

/// Actions sent from the GUI process to the supervisor.
pub enum GuiAction {
    /// Request a plugin scan.
    ScanPlugins,
    /// Add a plugin to the rack.
    AddToRack { module_index: usize, class_index: usize },
    /// Remove a slot from the rack.
    RemoveFromRack { index: usize },
    /// Activate a plugin slot (start audio processing).
    ActivateSlot { index: usize },
    /// Deactivate the currently active plugin.
    DeactivateSlot,
    /// Set a parameter value on the active plugin.
    SetParameter { id: u32, value: u64 },
    /// Stage a parameter change for an inactive plugin.
    StageParameter { slot_index: usize, id: u32, value: u64 },
    /// Select a rack slot (for parameter view).
    SelectSlot { index: Option<usize> },
    /// Toggle the test tone.
    SetToneEnabled { enabled: bool },
    /// Update transport state.
    SetTransport { playing: bool, tempo: u64, time_sig_num: u32, time_sig_den: u32 },
    /// Open the plugin editor window.
    OpenEditor,
    /// Save session to file.
    SaveSession { path: String },
    /// Load session from file.
    LoadSession { path: String },
    /// Select audio output device.
    SelectAudioDevice { name: Option<String> },
    /// Select MIDI input port.
    SelectMidiPort { name: Option<String> },
    /// Refresh device lists.
    RefreshDevices,
    /// Toggle process isolation mode.
    SetProcessIsolation { enabled: bool },
    /// Request plugin state capture for the active slot.
    CapturePluginState { slot_index: usize },
    /// Load a preset file onto the active plugin.
    LoadPreset { path: String },
    /// Save the current plugin state as a preset file.
    SavePreset { path: String, name: String },
    /// List available presets for the active plugin.
    ListPresets,
    /// GUI is shutting down normally (window closed).
    Shutdown,
    /// Ping (keep-alive / health check).
    Ping,
}

/// State updates sent from the supervisor to the GUI process.
pub enum SupervisorUpdate {
    /// Full state sync.
    FullState {
        plugin_modules: Vec<PluginModuleInfo>,
        rack: Vec<RackSlotState>,
        selected_slot: Option<usize>,
        active_slot: Option<usize>,
        param_snapshots: Vec<ParamSnapshot>,
        audio_status: AudioStatusState,
        audio_devices: Vec<DeviceState>,
        midi_ports: Vec<MidiPortState>,
        selected_audio_device: Option<String>,
        selected_midi_port: Option<String>,
        process_isolation: bool,
        status_message: String,
        heap_corruption_detected: bool,
        has_editor: bool,
        tainted_count: usize,
        transport: TransportUpdate,
        tone_enabled: bool,
        safe_mode: bool,
    },
    /// Incremental rack update.
    RackUpdated { rack: Vec<RackSlotState>, active_slot: Option<usize>, selected_slot: Option<usize> },
    /// Parameter snapshots refreshed.
    ParamsUpdated { snapshots: Vec<ParamSnapshot> },
    /// Status message changed.
    StatusMessage { message: String },
    /// Audio status changed.
    AudioStatusUpdated { status: AudioStatusState },
    /// Plugin modules list updated (after scan).
    PluginModulesUpdated { modules: Vec<PluginModuleInfo> },
    /// Device lists updated.
    DevicesUpdated { audio_devices: Vec<DeviceState>, midi_ports: Vec<MidiPortState> },
    /// Heap corruption detected.
    HeapCorruptionDetected,
    /// Editor availability of the active plugin changed.
    EditorAvailability { has_editor: bool },
    /// Plugin state captured (response to `CapturePluginState`).
    PluginStateCaptured { slot_index: usize, component_state: Vec<u8>, controller_state: Vec<u8> },
    /// Preset list for the active plugin.
    PresetList { factory_presets: Vec<String>, user_presets: Vec<PresetInfo> },
    /// Pong response to GUI's Ping.
    Pong,
    /// Supervisor is shutting down.
    ShutdownAck,
    /// The audio process crashed and was restarted.
    AudioProcessRestarted { message: String, restart_count: u32 },
}

/// Commands sent from the supervisor to the audio worker process.
pub enum AudioCommand {
    /// Forward a GUI action to the audio worker for processing.
    Action(GuiAction),
    /// Request the audio worker to send its current full state.
    RequestFullState,
    /// Restore cached state after audio worker restart.
    RestoreState {
        plugin_modules: Vec<PluginModuleInfo>,
        rack: Vec<RackSlotState>,
        selected_slot: Option<usize>,
        tone_enabled: bool,
        transport: TransportUpdate,
        session_path: String,
    },
    /// Shut down the audio worker gracefully.
    Shutdown,
}

} // verus!
