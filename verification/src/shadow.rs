//! The supervisor's shadow copy of the audio worker's configuration, kept
//! so that a restarted audio worker can be given back the user's setup.
use vstd::prelude::*;
use crate::host::{copy_modules, modules_view, ModuleModel, PluginModuleInfo};
use crate::protocol::{copy_slots, slots_view, AudioCommand, RackSlotModel, RackSlotState, SupervisorUpdate, TransportUpdate};
use crate::rack::DEFAULT_TEMPO_BITS;

verus! {

/// Shadow copy of the state that the supervisor caches for crash recovery.
pub struct ShadowState {
    /// Available plugin modules.
    pub plugin_modules: Vec<PluginModuleInfo>,
    /// Rack slot configuration.
    pub rack: Vec<RackSlotState>,
    /// Currently selected slot.
    pub selected_slot: Option<usize>,
    /// Whether tone is enabled.
    pub tone_enabled: bool,
    /// Transport state.
    pub transport: TransportUpdate,
    /// Session file path.
    pub session_path: String,
    /// Whether safe mode is active.
    pub safe_mode: bool,
}

/// The contents of a `ShadowState`.
pub struct ShadowModel {
    pub plugin_modules: Seq<ModuleModel>,
    pub rack: Seq<RackSlotModel>,
    pub selected_slot: Option<usize>,
    pub tone_enabled: bool,
    pub transport: TransportUpdate,
    pub session_path: Seq<char>,
    pub safe_mode: bool,
}

impl View for ShadowState {
    type V = ShadowModel;

    open spec fn view(&self) -> ShadowModel {
        ShadowModel {
            plugin_modules: modules_view(self.plugin_modules@),
            rack: slots_view(self.rack@),
            selected_slot: self.selected_slot,
            tone_enabled: self.tone_enabled,
            transport: self.transport,
            session_path: self.session_path@,
            safe_mode: self.safe_mode,
        }
    }
}

/// The shadow state after the supervisor has seen `update` go by: a full
/// state replaces the configuration, a rack update the rack and the
/// selection, a module list the modules; other updates change nothing.
pub open spec fn shadow_after(m: ShadowModel, update: SupervisorUpdate) -> ShadowModel {
    match update {
        SupervisorUpdate::FullState { plugin_modules, rack, selected_slot, transport, tone_enabled, safe_mode, .. } =>
            ShadowModel {
            plugin_modules: modules_view(plugin_modules@),
            rack: slots_view(rack@),
            selected_slot,
            tone_enabled,
            transport,
            session_path: m.session_path,
            safe_mode,
        },
        SupervisorUpdate::RackUpdated { rack, selected_slot, .. } => ShadowModel {
            rack: slots_view(rack@),
            selected_slot,
            ..m
        },
        SupervisorUpdate::PluginModulesUpdated { modules } => ShadowModel {
            plugin_modules: modules_view(modules@),
            ..m
        },
        _ => m,
    }
}

impl ShadowState {
    /// An empty configuration: no modules, an empty rack, no selection, tone
    /// off, stopped at 120 BPM in 4/4.
    pub fn new(safe_mode: bool, session_path: String) -> (s: Self)
        ensures
            s@.plugin_modules.len() == 0,
            s@.rack.len() == 0,
            s.selected_slot is None,
            !s.tone_enabled,
            s.transport == (TransportUpdate { playing: false, tempo: DEFAULT_TEMPO_BITS, time_sig_num: 4, time_sig_den: 4 }),
            s.session_path@ == session_path@,
            s.safe_mode == safe_mode,
    {
        ShadowState {
            plugin_modules: Vec::new(),
            rack: Vec::new(),
            selected_slot: None,
            tone_enabled: false,
            transport: TransportUpdate { playing: false, tempo: DEFAULT_TEMPO_BITS, time_sig_num: 4, time_sig_den: 4 },
            session_path,
            safe_mode,
        }
    }

    /// Update the shadow state from an update sent to the GUI.
    pub fn update_from(&mut self, update: &SupervisorUpdate)
        ensures
            final(self)@ == shadow_after(old(self)@, *update),
    {
        match update {
            SupervisorUpdate::FullState { plugin_modules, rack, selected_slot, transport, tone_enabled, safe_mode, .. } => {
                self.plugin_modules = copy_modules(plugin_modules);
                self.rack = copy_slots(rack);
                self.selected_slot = *selected_slot;
                self.transport = *transport;
                self.tone_enabled = *tone_enabled;
                self.safe_mode = *safe_mode;
            },
            SupervisorUpdate::RackUpdated { rack, selected_slot, .. } => {
                self.rack = copy_slots(rack);
                self.selected_slot = *selected_slot;
            },
            SupervisorUpdate::PluginModulesUpdated { modules } => {
                self.plugin_modules = copy_modules(modules);
            },
            _ => {},
        }
    }

    /// Build a `RestoreState` command from cached shadow state.
    pub fn to_restore_command(&self) -> (c: AudioCommand)
        ensures
            c matches AudioCommand::RestoreState {
                plugin_modules,
                rack,
                selected_slot,
                tone_enabled,
                transport,
                session_path,
            } && modules_view(plugin_modules@) == self@.plugin_modules && slots_view(rack@) == self@.rack
                && selected_slot == self.selected_slot && tone_enabled == self.tone_enabled && transport
                == self.transport && session_path@ == self.session_path@,
    {
        AudioCommand::RestoreState {
            plugin_modules: copy_modules(&self.plugin_modules),
            rack: copy_slots(&self.rack),
            selected_slot: self.selected_slot,
            tone_enabled: self.tone_enabled,
            transport: self.transport,
            session_path: self.session_path.clone(),
        }
    }
}

/// After a full state has gone by, a restarted audio worker is given back
/// exactly that state's modules, rack, selection, tone and transport,
/// whatever rack and module updates came before it.
pub proof fn lemma_restore_follows_full_state(m: ShadowModel, update: SupervisorUpdate)
    requires
        update is FullState,
    ensures
        ({
            let after = shadow_after(m, update);
            match update {
                SupervisorUpdate::FullState { plugin_modules, rack, selected_slot, transport, tone_enabled, .. } => {
                    &&& after.plugin_modules == modules_view(plugin_modules@)
                    &&& after.rack == slots_view(rack@)
                    &&& after.selected_slot == selected_slot
                    &&& after.transport == transport
                    &&& after.tone_enabled == tone_enabled
                    &&& after.session_path == m.session_path
                },
                _ => true,
            }
        }),
{
}

} // verus!
