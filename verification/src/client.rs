//! State of the GUI process: what it last heard from the supervisor and
//! what the user is editing.
use vstd::prelude::*;
use crate::host::{filtered_classes, listed, BottomTab, PluginModuleInfo};
use crate::protocol::{GuiAction, RackSlotState, SupervisorUpdate, TransportUpdate};
use crate::rack::{reals_equal, same_real, ParamSnapshot, TransportState, DEFAULT_TEMPO_BITS};
use crate::status::{AudioStatusState, DeviceState, MidiPortState};

verus! {

/// Status shown while the first state is awaited.
pub const CONNECTING_MESSAGE: &'static str = "Connecting to supervisor…";

/// Status shown once the supervisor is gone.
pub const SUPERVISOR_LOST_MESSAGE: &'static str =
    "\u{26A0} Supervisor process died \u{2014} please close and restart the application.";

/// State of the GUI process.
pub struct GuiClientState {
    /// Available plugin modules (from supervisor).
    pub plugin_modules: Vec<PluginModuleInfo>,
    /// Rack slots (from supervisor).
    pub rack: Vec<RackSlotState>,
    /// Currently selected slot.
    pub selected_slot: Option<usize>,
    /// Active slot (processing audio).
    pub active_slot: Option<usize>,
    /// Parameter snapshots for the selected plugin.
    pub param_snapshots: Vec<ParamSnapshot>,
    /// Audio status.
    pub audio_status: AudioStatusState,
    /// Available audio devices.
    pub audio_devices: Vec<DeviceState>,
    /// Available MIDI ports.
    pub midi_ports: Vec<MidiPortState>,
    /// Selected audio device.
    pub selected_audio_device: Option<String>,
    /// Selected MIDI port.
    pub selected_midi_port: Option<String>,
    /// Whether process isolation is enabled.
    pub process_isolation: bool,
    /// Status message.
    pub status_message: String,
    /// Whether heap corruption has been detected.
    pub heap_corruption_detected: bool,
    /// Whether the active plugin has an editor.
    pub has_editor: bool,
    /// Transport state as edited in the GUI.
    pub transport: TransportState,
    /// Transport state last sent to or received from the supervisor.
    pub prev_transport: TransportUpdate,
    /// Whether the tone is enabled.
    pub tone_enabled: bool,
    /// Whether safe mode is active.
    pub safe_mode: bool,
    /// Browser search filter.
    pub browser_filter: String,
    /// Parameter search filter.
    pub param_filter: String,
    /// Bottom tab selection.
    pub bottom_tab: BottomTab,
    /// Session file path.
    pub session_path: String,
    /// Number of tainted paths (for display).
    pub tainted_count: usize,
    /// Whether the supervisor process has disconnected.
    pub supervisor_disconnected: bool,
}

/// The edited transport `t` differs from the one last sent, `p`: the
/// tempos compare unequal as floating-point values, or the play state or
/// the time signature differ.
pub open spec fn transport_changed(t: TransportState, p: TransportUpdate) -> bool {
    !same_real(t.tempo, p.tempo) || t.playing != p.playing || t.time_sig_num != p.time_sig_num || t.time_sig_den
        != p.time_sig_den
}

/// The IPC form of a transport state.
pub open spec fn transport_update_of(t: TransportState) -> TransportUpdate {
    TransportUpdate { playing: t.playing, tempo: t.tempo, time_sig_num: t.time_sig_num, time_sig_den: t.time_sig_den }
}

/// Default audio status: 0 Hz, 0 frames, no device, not running.
pub open spec fn is_default_status(s: AudioStatusState) -> bool {
    s.sample_rate == 0 && s.buffer_size == 0 && s.device_name@.len() == 0 && !s.running
}

fn default_status() -> (s: AudioStatusState)
    ensures
        is_default_status(s),
{
    AudioStatusState { sample_rate: 0, buffer_size: 0, device_name: String::new(), running: false }
}

/// The client state after applying `update` (ignoring the parts that are
/// only fixed by `apply_update`'s own clauses: a restart's status).
pub open spec fn applied(s: GuiClientState, update: SupervisorUpdate) -> GuiClientState {
    match update {
        SupervisorUpdate::FullState {
            plugin_modules,
            rack,
            selected_slot,
            active_slot,
            param_snapshots,
            audio_status,
            audio_devices,
            midi_ports,
            selected_audio_device,
            selected_midi_port,
            process_isolation,
            status_message,
            heap_corruption_detected,
            has_editor,
            tainted_count,
            transport,
            tone_enabled,
            safe_mode,
        } => GuiClientState {
            plugin_modules,
            rack,
            selected_slot,
            active_slot,
            param_snapshots,
            audio_status,
            audio_devices,
            midi_ports,
            selected_audio_device,
            selected_midi_port,
            process_isolation,
            status_message,
            heap_corruption_detected,
            has_editor,
            tainted_count,
            transport: TransportState {
                playing: transport.playing,
                tempo: transport.tempo,
                time_sig_num: transport.time_sig_num,
                time_sig_den: transport.time_sig_den,
            },
            prev_transport: transport,
            tone_enabled,
            safe_mode,
            ..s
        },
        SupervisorUpdate::RackUpdated { rack, active_slot, selected_slot } => GuiClientState {
            rack,
            active_slot,
            selected_slot,
            ..s
        },
        SupervisorUpdate::ParamsUpdated { snapshots } => GuiClientState { param_snapshots: snapshots, ..s },
        SupervisorUpdate::StatusMessage { message } => GuiClientState { status_message: message, ..s },
        SupervisorUpdate::AudioStatusUpdated { status } => GuiClientState { audio_status: status, ..s },
        SupervisorUpdate::PluginModulesUpdated { modules } => GuiClientState { plugin_modules: modules, ..s },
        SupervisorUpdate::DevicesUpdated { audio_devices, midi_ports } => GuiClientState {
            audio_devices,
            midi_ports,
            ..s
        },
        SupervisorUpdate::HeapCorruptionDetected => GuiClientState { heap_corruption_detected: true, ..s },
        SupervisorUpdate::EditorAvailability { has_editor } => GuiClientState { has_editor, ..s },
        _ => s,
    }
}

/// A full state replaces everything the supervisor owns: after it, the
/// client holds exactly the full state's catalogue, rack, selection,
/// active slot, parameters, audio status, devices, device choices,
/// isolation flag, status line, heap flag, editor flag, tainted count,
/// transport (as edited and as last sent), tone and safe-mode flags,
/// while the user's own filters, tab, session path and connection flag
/// stay as they were.
pub proof fn lemma_full_state_taken_over(s: GuiClientState, update: SupervisorUpdate)
    requires
        update is FullState,
    ensures
        ({
            let a = applied(s, update);
            match update {
                SupervisorUpdate::FullState {
                    plugin_modules,
                    rack,
                    selected_slot,
                    active_slot,
                    param_snapshots,
                    audio_status,
                    audio_devices,
                    midi_ports,
                    selected_audio_device,
                    selected_midi_port,
                    process_isolation,
                    status_message,
                    heap_corruption_detected,
                    has_editor,
                    tainted_count,
                    transport,
                    tone_enabled,
                    safe_mode,
                } => {
                    &&& a.plugin_modules == plugin_modules
                    &&& a.rack == rack
                    &&& a.selected_slot == selected_slot
                    &&& a.active_slot == active_slot
                    &&& a.param_snapshots == param_snapshots
                    &&& a.audio_status == audio_status
                    &&& a.audio_devices == audio_devices
                    &&& a.midi_ports == midi_ports
                    &&& a.selected_audio_device == selected_audio_device
                    &&& a.selected_midi_port == selected_midi_port
                    &&& a.process_isolation == process_isolation
                    &&& a.status_message == status_message
                    &&& a.heap_corruption_detected == heap_corruption_detected
                    &&& a.has_editor == has_editor
                    &&& a.tainted_count == tainted_count
                    &&& a.transport.playing == transport.playing
                    &&& a.transport.tempo == transport.tempo
                    &&& a.transport.time_sig_num == transport.time_sig_num
                    &&& a.transport.time_sig_den == transport.time_sig_den
                    &&& a.prev_transport == transport
                    &&& a.tone_enabled == tone_enabled
                    &&& a.safe_mode == safe_mode
                    &&& a.browser_filter == s.browser_filter
                    &&& a.param_filter == s.param_filter
                    &&& a.bottom_tab == s.bottom_tab
                    &&& a.session_path == s.session_path
                    &&& a.supervisor_disconnected == s.supervisor_disconnected
                },
                _ => true,
            }
        }),
{
}

/// Each incremental update changes only the fields it carries, and takes
/// them over as they come: a rack update the rack, active slot and
/// selection; a parameter update the parameters; a status message the
/// status line; an audio status the audio status; a module list the
/// catalogue; a device update both device lists; a heap notice sets the
/// heap flag; an editor notice the editor flag. Other updates change
/// nothing.
pub proof fn lemma_incremental_updates(s: GuiClientState, update: SupervisorUpdate)
    requires
        !(update is FullState),
        !(update is AudioProcessRestarted),
    ensures
        ({
            let a = applied(s, update);
            match update {
                SupervisorUpdate::RackUpdated { rack, active_slot, selected_slot } => a.rack == rack && a.active_slot
                    == active_slot && a.selected_slot == selected_slot && a == (GuiClientState {
                    rack: a.rack,
                    active_slot: a.active_slot,
                    selected_slot: a.selected_slot,
                    ..s
                }),
                SupervisorUpdate::ParamsUpdated { snapshots } => a.param_snapshots == snapshots && a == (
                GuiClientState { param_snapshots: a.param_snapshots, ..s }),
                SupervisorUpdate::StatusMessage { message } => a.status_message == message && a == (GuiClientState {
                    status_message: a.status_message,
                    ..s
                }),
                SupervisorUpdate::AudioStatusUpdated { status } => a.audio_status == status && a == (GuiClientState {
                    audio_status: a.audio_status,
                    ..s
                }),
                SupervisorUpdate::PluginModulesUpdated { modules } => a.plugin_modules == modules && a == (
                GuiClientState { plugin_modules: a.plugin_modules, ..s }),
                SupervisorUpdate::DevicesUpdated { audio_devices, midi_ports } => a.audio_devices == audio_devices
                    && a.midi_ports == midi_ports && a == (GuiClientState {
                    audio_devices: a.audio_devices,
                    midi_ports: a.midi_ports,
                    ..s
                }),
                SupervisorUpdate::HeapCorruptionDetected => a.heap_corruption_detected && a == (GuiClientState {
                    heap_corruption_detected: true,
                    ..s
                }),
                SupervisorUpdate::EditorAvailability { has_editor } => a.has_editor == has_editor && a == (
                GuiClientState { has_editor: a.has_editor, ..s }),
                _ => a == s,
            }
        }),
{
}

impl GuiClientState {
    /// The state before the supervisor has sent anything.
    pub fn new(session_path: String) -> (s: Self)
        ensures
            s.plugin_modules@.len() == 0,
            s.rack@.len() == 0,
            s.selected_slot is None,
            s.active_slot is None,
            s.param_snapshots@.len() == 0,
            is_default_status(s.audio_status),
            s.status_message@ == CONNECTING_MESSAGE@,
            s.transport == TransportState::default_value(),
            s.prev_transport == transport_update_of(TransportState::default_value()),
            s.bottom_tab == BottomTab::Transport,
            s.session_path@ == session_path@,
            !s.supervisor_disconnected,
    {
        GuiClientState {
            plugin_modules: Vec::new(),
            rack: Vec::new(),
            selected_slot: None,
            active_slot: None,
            param_snapshots: Vec::new(),
            audio_status: default_status(),
            audio_devices: Vec::new(),
            midi_ports: Vec::new(),
            selected_audio_device: None,
            selected_midi_port: None,
            process_isolation: false,
            status_message: CONNECTING_MESSAGE.to_owned(),
            heap_corruption_detected: false,
            has_editor: false,
            transport: TransportState::initial(),
            prev_transport: TransportUpdate { playing: false, tempo: DEFAULT_TEMPO_BITS, time_sig_num: 4, time_sig_den: 4 },
            tone_enabled: false,
            safe_mode: false,
            browser_filter: String::new(),
            param_filter: String::new(),
            bottom_tab: BottomTab::Transport,
            session_path,
            tainted_count: 0,
            supervisor_disconnected: false,
        }
    }

    /// Whether actions may still be sent (the supervisor has not gone away).
    pub fn may_send(&self) -> (b: bool)
        ensures
            b == !self.supervisor_disconnected,
    {
        !self.supervisor_disconnected
    }

    /// Mark the supervisor as disconnected: nothing is active any more and
    /// the status tells the user to restart. A second call changes nothing.
    pub fn mark_supervisor_disconnected(&mut self)
        ensures
            old(self).supervisor_disconnected ==> *final(self) == *old(self),
            !old(self).supervisor_disconnected ==> {
                &&& final(self).supervisor_disconnected
                &&& final(self).active_slot is None
                &&& is_default_status(final(self).audio_status)
                &&& final(self).status_message@ == SUPERVISOR_LOST_MESSAGE@
                &&& *final(self) == (GuiClientState {
                    supervisor_disconnected: true,
                    active_slot: None,
                    audio_status: final(self).audio_status,
                    status_message: final(self).status_message,
                    ..*old(self)
                })
            },
    {
        if !self.supervisor_disconnected {
            self.supervisor_disconnected = true;
            self.active_slot = None;
            self.audio_status = default_status();
            self.status_message = SUPERVISOR_LOST_MESSAGE.to_owned();
        }
    }

    /// Apply a supervisor update to local state.
    ///
    /// A restarted audio process loses its active plugin: the slot, the
    /// parameter view, the editor and the audio status are reset and its
    /// message is shown.
    pub fn apply_update(&mut self, update: SupervisorUpdate)
        ensures
            !(update is AudioProcessRestarted) ==> *final(self) == applied(*old(self), update),
            update is AudioProcessRestarted ==> {
                &&& final(self).status_message == update->AudioProcessRestarted_message
                &&& final(self).active_slot is None
                &&& final(self).param_snapshots@.len() == 0
                &&& !final(self).has_editor
                &&& is_default_status(final(self).audio_status)
                &&& *final(self) == (GuiClientState {
                    status_message: final(self).status_message,
                    active_slot: None,
                    param_snapshots: final(self).param_snapshots,
                    has_editor: false,
                    audio_status: final(self).audio_status,
                    ..*old(self)
                })
            },
    {
        match update {
            SupervisorUpdate::FullState {
                plugin_modules,
                rack,
                selected_slot,
                active_slot,
                param_snapshots,
                audio_status,
                audio_devices,
                midi_ports,
                selected_audio_device,
                selected_midi_port,
                process_isolation,
                status_message,
                heap_corruption_detected,
                has_editor,
                tainted_count,
                transport,
                tone_enabled,
                safe_mode,
            } => {
                self.plugin_modules = plugin_modules;
                self.rack = rack;
                self.selected_slot = selected_slot;
                self.active_slot = active_slot;
                self.param_snapshots = param_snapshots;
                self.audio_status = audio_status;
                self.audio_devices = audio_devices;
                self.midi_ports = midi_ports;
                self.selected_audio_device = selected_audio_device;
                self.selected_midi_port = selected_midi_port;
                self.process_isolation = process_isolation;
                self.status_message = status_message;
                self.heap_corruption_detected = heap_corruption_detected;
                self.has_editor = has_editor;
                self.tainted_count = tainted_count;
                self.transport.playing = transport.playing;
                self.transport.tempo = transport.tempo;
                self.transport.time_sig_num = transport.time_sig_num;
                self.transport.time_sig_den = transport.time_sig_den;
                self.prev_transport = transport;
                self.tone_enabled = tone_enabled;
                self.safe_mode = safe_mode;
            },
            SupervisorUpdate::RackUpdated { rack, active_slot, selected_slot } => {
                self.rack = rack;
                self.active_slot = active_slot;
                self.selected_slot = selected_slot;
            },
            SupervisorUpdate::ParamsUpdated { snapshots } => {
                self.param_snapshots = snapshots;
            },
            SupervisorUpdate::StatusMessage { message } => {
                self.status_message = message;
            },
            SupervisorUpdate::AudioStatusUpdated { status } => {
                self.audio_status = status;
            },
            SupervisorUpdate::PluginModulesUpdated { modules } => {
                self.plugin_modules = modules;
            },
            SupervisorUpdate::DevicesUpdated { audio_devices, midi_ports } => {
                self.audio_devices = audio_devices;
                self.midi_ports = midi_ports;
            },
            SupervisorUpdate::HeapCorruptionDetected => {
                self.heap_corruption_detected = true;
            },
            SupervisorUpdate::EditorAvailability { has_editor } => {
                self.has_editor = has_editor;
            },
            SupervisorUpdate::AudioProcessRestarted { message, restart_count: _ } => {
                self.status_message = message;
                self.active_slot = None;
                self.param_snapshots = Vec::new();
                self.has_editor = false;
                self.audio_status = default_status();
            },
            _ => {},
        }
    }

    /// The transport action to send if the edited transport differs from
    /// the one last sent; it then becomes the one last sent.
    pub fn sync_transport(&mut self) -> (action: Option<GuiAction>)
        ensures
            !transport_changed(old(self).transport, old(self).prev_transport) ==> (action is None && *final(self)
                == *old(self)),
            transport_changed(old(self).transport, old(self).prev_transport) ==> {
                &&& action == Some(
                    GuiAction::SetTransport {
                        playing: old(self).transport.playing,
                        tempo: old(self).transport.tempo,
                        time_sig_num: old(self).transport.time_sig_num,
                        time_sig_den: old(self).transport.time_sig_den,
                    },
                )
                &&& *final(self) == (GuiClientState {
                    prev_transport: transport_update_of(old(self).transport),
                    ..*old(self)
                })
            },
    {
        let t = self.transport;
        let p = self.prev_transport;
        let changed = !reals_equal(t.tempo, p.tempo) || t.playing != p.playing || t.time_sig_num != p.time_sig_num
            || t.time_sig_den != p.time_sig_den;
        if changed {
            self.prev_transport = TransportUpdate {
                playing: t.playing,
                tempo: t.tempo,
                time_sig_num: t.time_sig_num,
                time_sig_den: t.time_sig_den,
            };
            Some(GuiAction::SetTransport { playing: t.playing, tempo: t.tempo, time_sig_num: t.time_sig_num, time_sig_den: t.time_sig_den })
        } else {
            None
        }
    }

    /// The heading of the parameter view: the selected slot's name and
    /// vendor, or "Parameters" and no vendor when the selection is past
    /// the rack or there is none.
    pub fn panel_heading(&self) -> (h: (String, String))
        ensures
            (match self.selected_slot {
                Some(i) => i < self.rack@.len(),
                None => false,
            }) ==> h.0@ == self.rack@[self.selected_slot->0 as int].name@ && h.1@ == self.rack@[
                self.selected_slot->0 as int].vendor@,
            !(match self.selected_slot {
                Some(i) => i < self.rack@.len(),
                None => false,
            }) ==> h.0@ == "Parameters"@ && h.1@.len() == 0,
    {
        match self.selected_slot {
            Some(i) => {
                if i < self.rack.len() {
                    return (self.rack[i].name.clone(), self.rack[i].vendor.clone());
                }
            },
            None => {},
        }
        ("Parameters".to_string(), String::new())
    }

    /// The `(module index, class index)` pairs the browser lists.
    pub fn filtered_classes(&self) -> (r: Vec<(usize, usize)>)
        ensures
            r@ == listed(self.plugin_modules@, self.browser_filter@, self.plugin_modules@.len()),
    {
        filtered_classes(self.plugin_modules.as_slice(), self.browser_filter.as_str())
    }
}

} // verus!
