//! The audio worker's bookkeeping: the catalogue, the rack, the selection
//! and the status line, and the updates it reports to the supervisor for
//! each GUI action.
//!
//! The engine itself (plugin instances, audio devices, editor windows) is
//! driven by the process that owns it; it calls these functions around its
//! own work and hands them what the engine reported, as plain values.
use vstd::prelude::*;
use crate::host::{apply_param_change, copy_modules, modules_view, params_after_change, ModuleModel, PluginModuleInfo};
use crate::protocol::{copy_slots, slots_view, GuiAction, RackSlotModel, RackSlotState, SupervisorUpdate, TransportUpdate};
use crate::rack::{copy_bytes, copy_opt_bytes, copy_params, params_view, stage_change, staged_after, ParamModel, ParamSnapshot, DEFAULT_TEMPO_BITS};
use crate::status::{AudioStatusState, DeviceState, MidiPortState, PresetInfo};
use crate::shadow::{shadow_after, ShadowModel};
use crate::text::{decimal, push_decimal, push_str};

verus! {

/// What the audio worker keeps besides the engine.
pub struct AudioWorkerState {
    /// Available plugin modules.
    pub plugin_modules: Vec<PluginModuleInfo>,
    /// Current rack configuration.
    pub rack: Vec<RackSlotState>,
    /// Currently selected slot index.
    pub selected_slot: Option<usize>,
    /// Parameter snapshots for the selected plugin.
    pub param_snapshots: Vec<ParamSnapshot>,
    /// Status message shown in the GUI.
    pub status_message: String,
    /// Whether the test tone is enabled.
    pub tone_enabled: bool,
    /// Transport state.
    pub transport: TransportUpdate,
    /// Session file path.
    pub session_path: String,
    /// Folders to scan instead of the default ones (none: the defaults).
    pub custom_paths: Vec<String>,
}

/// The contents of an `AudioWorkerState`.
pub struct WorkerModel {
    pub plugin_modules: Seq<ModuleModel>,
    pub rack: Seq<RackSlotModel>,
    pub selected_slot: Option<usize>,
    pub param_snapshots: Seq<ParamModel>,
    pub status_message: Seq<char>,
    pub tone_enabled: bool,
    pub transport: TransportUpdate,
    pub session_path: Seq<char>,
    pub custom_paths: Seq<Seq<char>>,
}

impl View for AudioWorkerState {
    type V = WorkerModel;

    open spec fn view(&self) -> WorkerModel {
        WorkerModel {
            plugin_modules: modules_view(self.plugin_modules@),
            rack: slots_view(self.rack@),
            selected_slot: self.selected_slot,
            param_snapshots: params_view(self.param_snapshots@),
            status_message: self.status_message@,
            tone_enabled: self.tone_enabled,
            transport: self.transport,
            session_path: self.session_path@,
            custom_paths: self.custom_paths@.map_values(|p: String| p@),
        }
    }
}

/// `u` reports the rack `rack` with the active slot `active` and the
/// selection `selected`.
pub open spec fn reports_rack(
    u: SupervisorUpdate,
    rack: Seq<RackSlotModel>,
    active: Option<usize>,
    selected: Option<usize>,
) -> bool {
    u matches SupervisorUpdate::RackUpdated { rack: r, active_slot, selected_slot } && slots_view(r@) == rack
        && active_slot == active && selected_slot == selected
}

/// `u` reports the status line `message`.
pub open spec fn reports_status(u: SupervisorUpdate, message: Seq<char>) -> bool {
    u matches SupervisorUpdate::StatusMessage { message: m } && m@ == message
}

/// `u` reports the parameter list `params`.
pub open spec fn reports_params(u: SupervisorUpdate, params: Seq<ParamModel>) -> bool {
    u matches SupervisorUpdate::ParamsUpdated { snapshots } && params_view(snapshots@) == params
}

/// The number of classes over all modules of a catalogue.
pub open spec fn class_total(mods: Seq<ModuleModel>) -> nat
    decreases mods.len(),
{
    if mods.len() == 0 {
        0
    } else {
        class_total(mods.drop_last()) + mods.last().classes.len()
    }
}

/// The status line for a catalogue loaded at start-up.
pub open spec fn startup_message(safe_mode: bool, mods: Seq<ModuleModel>) -> Seq<char> {
    if safe_mode {
        "Safe mode — no plugins loaded. Click 'Scan' to discover VST3 plugins."@
    } else if mods.len() == 0 {
        "No plugins cached. Click 'Scan' to discover VST3 plugins."@
    } else {
        decimal(class_total(mods)) + " plugin class(es) loaded from cache."@
    }
}

/// The rack slot made for `class` of `module`: its vendor is the
/// class's, else the module's, else "Unknown"; it starts unbypassed, with
/// no cached parameters, no staged changes and no saved plugin state.
pub open spec fn new_slot(module: ModuleModel, class: crate::host::ClassModel) -> RackSlotModel {
    RackSlotModel {
        name: class.name,
        vendor: match class.vendor {
            Some(v) => v,
            None => match module.factory_vendor {
                Some(v) => v,
                None => "Unknown"@,
            },
        },
        category: class.category,
        path: module.path,
        cid: class.cid,
        bypassed: false,
        param_cache: Seq::empty(),
        staged_changes: Seq::empty(),
        component_state: None,
        controller_state: None,
    }
}

/// The number of classes of `mods`.
fn count_classes(mods: &Vec<PluginModuleInfo>) -> (n: usize)
    requires
        class_total(modules_view(mods@)) <= usize::MAX,
    ensures
        n == class_total(modules_view(mods@)),
{
    let mut n: usize = 0;
    let mut i: usize = 0;
    while i < mods.len()
        invariant
            i <= mods@.len(),
            n == class_total(modules_view(mods@).take(i as int)),
            class_total(modules_view(mods@)) <= usize::MAX,
        decreases mods@.len() - i,
    {
        proof {
            assert(modules_view(mods@).take(i + 1).drop_last() =~= modules_view(mods@).take(i as int));
            lemma_class_total_prefix(modules_view(mods@), i + 1);
        }
        n = n + mods[i].classes.len();
        i = i + 1;
    }
    assert(modules_view(mods@).take(mods@.len() as int) =~= modules_view(mods@));
    n
}

/// The classes of a prefix of a catalogue are no more than those of the
/// whole.
proof fn lemma_class_total_prefix(mods: Seq<ModuleModel>, k: int)
    requires
        0 <= k <= mods.len(),
    ensures
        class_total(mods.take(k)) <= class_total(mods),
    decreases mods.len(),
{
    if k < mods.len() {
        assert(mods.drop_last().take(k) =~= mods.take(k));
        lemma_class_total_prefix(mods.drop_last(), k);
    } else {
        assert(mods.take(k) =~= mods);
    }
}

/// The status line for the catalogue read from the scan cache at start-up
/// (none is read in safe mode).
pub fn startup_status(safe_mode: bool, cached_modules: &Vec<PluginModuleInfo>) -> (s: String)
    requires
        !safe_mode ==> class_total(modules_view(cached_modules@)) <= usize::MAX,
    ensures
        s@ == startup_message(safe_mode, modules_view(cached_modules@)),
{
    let mut s = String::new();
    if safe_mode {
        push_str(&mut s, "Safe mode — no plugins loaded. Click 'Scan' to discover VST3 plugins.");
    } else if cached_modules.len() == 0 {
        push_str(&mut s, "No plugins cached. Click 'Scan' to discover VST3 plugins.");
    } else {
        let total = count_classes(cached_modules);
        push_decimal(&mut s, total as u64);
        push_str(&mut s, " plugin class(es) loaded from cache.");
    }
    s
}

/// The status line after a scan produced `modules`, `error_count` bundles
/// having failed to load.
pub fn scan_summary(modules: &Vec<PluginModuleInfo>, error_count: usize) -> (s: String)
    requires
        class_total(modules_view(modules@)) <= usize::MAX,
    ensures
        s@ == scan_message(modules@.len(), class_total(modules_view(modules@)), error_count as nat),
{
    let class_count = count_classes(modules);
    let mut msg = String::new();
    push_str(&mut msg, "Scan complete — ");
    push_decimal(&mut msg, modules.len() as u64);
    push_str(&mut msg, " module(s), ");
    push_decimal(&mut msg, class_count as u64);
    push_str(&mut msg, " class(es)");
    if error_count > 0 {
        push_str(&mut msg, ", ");
        push_decimal(&mut msg, error_count as u64);
        push_str(&mut msg, " error(s)");
    }
    push_str(&mut msg, ".");
    assert(msg@ =~= scan_message(modules@.len(), class_total(modules_view(modules@)), error_count as nat));
    msg
}

impl AudioWorkerState {
    /// The state at start-up, given the catalogue read from the scan
    /// cache (ignored in safe mode), the session path and the folders to
    /// scan: empty rack, no selection, tone off, stopped at 120 BPM in 4/4,
    /// and a status line that says what was loaded.
    pub fn new(
        safe_mode: bool,
        cached_modules: Vec<PluginModuleInfo>,
        session_path: String,
        custom_paths: Vec<String>,
    ) -> (s: Self)
        requires
            !safe_mode ==> class_total(modules_view(cached_modules@)) <= usize::MAX,
        ensures
            s@.plugin_modules == (if safe_mode { Seq::empty() } else { modules_view(cached_modules@) }),
            s@.rack.len() == 0,
            s.selected_slot is None,
            s@.param_snapshots.len() == 0,
            s.status_message@ == startup_message(safe_mode, modules_view(cached_modules@)),
            !s.tone_enabled,
            s.transport == (TransportUpdate { playing: false, tempo: DEFAULT_TEMPO_BITS, time_sig_num: 4, time_sig_den: 4 }),
            s.session_path@ == session_path@,
            s.custom_paths@ == custom_paths@,
    {
        let status_message = startup_status(safe_mode, &cached_modules);
        let plugin_modules = if safe_mode {
            Vec::new()
        } else {
            cached_modules
        };
        let ghost empty: Seq<ModuleModel> = Seq::empty();
        assert(safe_mode ==> modules_view(plugin_modules@) =~= empty);
        AudioWorkerState {
            plugin_modules,
            rack: Vec::new(),
            selected_slot: None,
            param_snapshots: Vec::new(),
            status_message,
            tone_enabled: false,
            transport: TransportUpdate { playing: false, tempo: DEFAULT_TEMPO_BITS, time_sig_num: 4, time_sig_den: 4 },
            session_path,
            custom_paths,
        }
    }
}


/// Class `ci` of module `mi` exists in the catalogue of `m`.
pub open spec fn class_exists(m: WorkerModel, mi: usize, ci: usize) -> bool {
    mi < m.plugin_modules.len() && ci < m.plugin_modules[mi as int].classes.len()
}

/// The selection after the slot at `index` left the rack: the removed slot
/// is no longer selected, and later slots move down by one.
pub open spec fn selection_after_removal(sel: Option<usize>, index: usize) -> Option<usize> {
    match sel {
        Some(s) => if s == index {
            None
        } else if s > index {
            Some((s - 1) as usize)
        } else {
            Some(s)
        },
        None => None,
    }
}

/// The state after class `ci` of module `mi` was added to the rack.
pub open spec fn after_add(m: WorkerModel, mi: usize, ci: usize) -> WorkerModel {
    let module = m.plugin_modules[mi as int];
    let class = module.classes[ci as int];
    WorkerModel {
        rack: m.rack.push(new_slot(module, class)),
        status_message: "Added '"@ + class.name + "' to the rack."@,
        ..m
    }
}

/// The state after the slot at `index` (within the rack) was removed;
/// `deactivated` tells whether it was the active one.
pub open spec fn after_remove(m: WorkerModel, index: usize, deactivated: bool) -> WorkerModel {
    WorkerModel {
        rack: m.rack.remove(index as int),
        selected_slot: selection_after_removal(m.selected_slot, index),
        param_snapshots: if deactivated || m.selected_slot == Some(index) {
            Seq::empty()
        } else {
            m.param_snapshots
        },
        status_message: "Removed '"@ + m.rack[index as int].name + "' from the rack."@,
        ..m
    }
}

/// What removing a slot asks of the engine, and what to report.
pub struct RackRemoval {
    /// The removed slot was the active one: deactivate the plugin before
    /// sending the updates.
    pub deactivate: bool,
    /// The updates to send.
    pub updates: Vec<SupervisorUpdate>,
}

impl AudioWorkerState {
    /// A rack update with the current rack and selection.
    fn rack_update(&self, active_slot: Option<usize>) -> (u: SupervisorUpdate)
        ensures
            reports_rack(u, self@.rack, active_slot, self.selected_slot),
    {
        SupervisorUpdate::RackUpdated { rack: copy_slots(&self.rack), active_slot, selected_slot: self.selected_slot }
    }

    /// An update with the current status line.
    pub fn status_update(&self) -> (u: SupervisorUpdate)
        ensures
            reports_status(u, self.status_message@),
    {
        SupervisorUpdate::StatusMessage { message: self.status_message.clone() }
    }

    /// An update with the current parameter list.
    pub fn params_update(&self) -> (u: SupervisorUpdate)
        ensures
            reports_params(u, self@.param_snapshots),
    {
        SupervisorUpdate::ParamsUpdated { snapshots: copy_params(&self.param_snapshots) }
    }

    /// Add class `class_index` of module `module_index` to the rack (see
    /// `new_slot`), given the engine's active slot. An index outside the
    /// catalogue changes nothing and is reported as invalid.
    pub fn add_to_rack(&mut self, module_index: usize, class_index: usize, active_slot: Option<usize>) -> (updates:
        Vec<SupervisorUpdate>)
        ensures
            class_exists(old(self)@, module_index, class_index) ==> {
                &&& final(self)@ == after_add(old(self)@, module_index, class_index)
                &&& updates@.len() == 2
                &&& reports_rack(updates@[0], final(self)@.rack, active_slot, final(self).selected_slot)
                &&& reports_status(updates@[1], final(self).status_message@)
            },
            !class_exists(old(self)@, module_index, class_index) ==> {
                &&& final(self)@ == old(self)@
                &&& updates@.len() == 1
                &&& reports_status(updates@[0], "Invalid module/class index."@)
            },
    {
        let mut updates: Vec<SupervisorUpdate> = Vec::new();
        if module_index >= self.plugin_modules.len() || class_index >= self.plugin_modules[module_index].classes.len() {
            updates.push(SupervisorUpdate::StatusMessage { message: "Invalid module/class index.".to_string() });
            return updates;
        }
        let module = &self.plugin_modules[module_index];
        let class = &module.classes[class_index];
        let vendor = match &class.vendor {
            Some(v) => v.clone(),
            None => match &module.factory_vendor {
                Some(v) => v.clone(),
                None => "Unknown".to_string(),
            },
        };
        let slot = RackSlotState {
            name: class.name.clone(),
            vendor,
            category: class.category.clone(),
            path: module.path.clone(),
            cid: class.cid,
            bypassed: false,
            param_cache: Vec::new(),
            staged_changes: Vec::new(),
            component_state: None,
            controller_state: None,
        };
        let mut msg = String::new();
        push_str(&mut msg, "Added '");
        push_str(&mut msg, class.name.as_str());
        push_str(&mut msg, "' to the rack.");
        let ghost before = self.rack@;
        proof {
            let ps: Seq<ParamSnapshot> = slot.param_cache@;
            assert(params_view(ps) =~= Seq::<ParamModel>::empty());
            assert(slot@ == new_slot(old(self)@.plugin_modules[module_index as int], old(self)@.plugin_modules[
                module_index as int].classes[class_index as int]));
        }
        self.rack.push(slot);
        assert(slots_view(self.rack@) =~= slots_view(before).push(slot@));
        self.status_message = msg;
        updates.push(self.rack_update(active_slot));
        updates.push(self.status_update());
        updates
    }

    /// Remove the slot at `index`, given the engine's active slot. If it was
    /// the active one the engine deactivates it and the parameter view is
    /// cleared; removing the selected slot clears the selection and the
    /// parameter view, and the selection follows the slots it pointed at.
    /// The rack, the parameter view and the status line are reported
    /// (with no active slot after a deactivation), also when `index` is
    /// past the end, which changes nothing.
    pub fn remove_from_rack(&mut self, index: usize, active_slot: Option<usize>) -> (r: RackRemoval)
        ensures
            r.deactivate == (index < old(self)@.rack.len() && active_slot == Some(index)),
            index >= old(self)@.rack.len() ==> final(self)@ == old(self)@,
            index < old(self)@.rack.len() ==> final(self)@ == after_remove(old(self)@, index, r.deactivate),
            r.updates@.len() == 3,
            reports_rack(
                r.updates@[0],
                final(self)@.rack,
                if r.deactivate { None } else { active_slot },
                final(self).selected_slot,
            ),
            reports_params(r.updates@[1], final(self)@.param_snapshots),
            reports_status(r.updates@[2], final(self).status_message@),
    {
        let mut deactivate = false;
        if index < self.rack.len() {
            let mut msg = String::new();
            push_str(&mut msg, "Removed '");
            push_str(&mut msg, self.rack[index].name.as_str());
            push_str(&mut msg, "' from the rack.");
            deactivate = match active_slot {
                Some(a) => a == index,
                None => false,
            };
            if deactivate {
                self.param_snapshots = Vec::new();
            }
            let ghost before = self.rack@;
            let _ = self.rack.remove(index);
            assert(slots_view(self.rack@) =~= slots_view(before).remove(index as int));
            match self.selected_slot {
                Some(sel) => {
                    if sel == index {
                        self.selected_slot = None;
                        self.param_snapshots = Vec::new();
                    } else if sel > index {
                        self.selected_slot = Some(sel - 1);
                    }
                },
                None => {},
            }
            self.status_message = msg;
            assert(params_view(self.param_snapshots@) =~= (if deactivate || old(self).selected_slot == Some(index) {
                Seq::<ParamModel>::empty()
            } else {
                old(self)@.param_snapshots
            }));
        }
        let active_after = if deactivate { None } else { active_slot };
        let mut updates: Vec<SupervisorUpdate> = Vec::new();
        updates.push(self.rack_update(active_after));
        updates.push(self.params_update());
        updates.push(self.status_update());
        RackRemoval { deactivate, updates }
    }
}


/// The state after parameter `id` of the slot at `index` (within the rack)
/// was staged with `value`, shown as `display` in its cached parameters.
pub open spec fn after_stage(m: WorkerModel, index: usize, id: u32, value: u64, display: Seq<char>) -> WorkerModel {
    let slot = m.rack[index as int];
    WorkerModel {
        rack: m.rack.update(
            index as int,
            RackSlotModel {
                staged_changes: staged_after(slot.staged_changes, id, value),
                param_cache: params_after_change(slot.param_cache, id, value, Some(display)),
                ..slot
            },
        ),
        ..m
    }
}

/// The parameter view after `index` was selected, when the selected slot
/// is not the active one: its cached parameters, or none.
pub open spec fn inactive_view(m: WorkerModel, index: Option<usize>) -> Seq<ParamModel> {
    match index {
        Some(i) => if i < m.rack.len() {
            m.rack[i as int].param_cache
        } else {
            Seq::empty()
        },
        None => Seq::empty(),
    }
}

/// The saved plugin state of a captured blob: none when it is empty.
pub open spec fn captured(blob: Seq<u8>) -> Option<Seq<u8>> {
    if blob.len() == 0 {
        None
    } else {
        Some(blob)
    }
}

/// The status line after activating `name`, with `staged` staged changes
/// applied.
pub open spec fn activation_message(name: Seq<char>, staged: nat) -> Seq<char> {
    "▶ '"@ + name + "' active — processing audio."@ + (if staged > 0 {
        " ("@ + decimal(staged) + " staged change(s) applied)"@
    } else {
        Seq::<char>::empty()
    })
}

impl AudioWorkerState {
    /// Stage `value` (shown as `display`) for parameter `id` of the slot at
    /// `slot_index`, to be applied when it is next activated; its cached
    /// parameter takes the value too. The rack is reported, given the
    /// engine's active slot; a slot index past the end changes nothing.
    pub fn stage_parameter(
        &mut self,
        slot_index: usize,
        id: u32,
        value: u64,
        display: String,
        active_slot: Option<usize>,
    ) -> (updates: Vec<SupervisorUpdate>)
        ensures
            slot_index < old(self)@.rack.len() ==> final(self)@ == after_stage(old(self)@, slot_index, id, value, display@),
            slot_index >= old(self)@.rack.len() ==> final(self)@ == old(self)@,
            updates@.len() == 1,
            reports_rack(updates@[0], final(self)@.rack, active_slot, final(self).selected_slot),
    {
        if slot_index < self.rack.len() {
            let ghost before = self.rack@;
            let ghost display_text = display@;
            let mut slot = self.rack.remove(slot_index);
            stage_change(&mut slot.staged_changes, id, value);
            apply_param_change(&mut slot.param_cache, id, value, Some(display));
            self.rack.insert(slot_index, slot);
            assert(slots_view(self.rack@) =~= slots_view(before).update(
                slot_index as int,
                RackSlotModel {
                    staged_changes: staged_after(before[slot_index as int].staged_changes@, id, value),
                    param_cache: params_after_change(
                        params_view(before[slot_index as int].param_cache@),
                        id,
                        value,
                        Some(display_text),
                    ),
                    ..before[slot_index as int]@
                },
            ));
        }
        let mut updates: Vec<SupervisorUpdate> = Vec::new();
        updates.push(self.rack_update(active_slot));
        updates
    }

    /// Select `index` (or nothing), given the engine's active slot. Returns
    /// whether the selected slot is the active one: the caller then puts
    /// the engine's live parameters into `param_snapshots` before sending
    /// `params_update`. Otherwise the view shows the slot's cached
    /// parameters, or nothing when no slot or one past the rack is
    /// selected.
    pub fn select_slot(&mut self, index: Option<usize>, active_slot: Option<usize>) -> (live: bool)
        ensures
            live == (index is Some && active_slot == index),
            final(self)@ == (WorkerModel {
                selected_slot: index,
                param_snapshots: if live {
                    old(self)@.param_snapshots
                } else {
                    inactive_view(old(self)@, index)
                },
                ..old(self)@
            }),
    {
        self.selected_slot = index;
        match index {
            Some(idx) => {
                let live = match active_slot {
                    Some(a) => a == idx,
                    None => false,
                };
                if !live {
                    if idx < self.rack.len() {
                        self.param_snapshots = copy_params(&self.rack[idx].param_cache);
                    } else {
                        self.param_snapshots = Vec::new();
                        assert(params_view(self.param_snapshots@) =~= Seq::<ParamModel>::empty());
                    }
                }
                live
            },
            None => {
                self.param_snapshots = Vec::new();
                assert(params_view(self.param_snapshots@) =~= Seq::<ParamModel>::empty());
                false
            },
        }
    }

    /// Keep the plugin state the engine captured for the slot at
    /// `slot_index` (an empty blob keeps none) and report both blobs; a
    /// slot index past the end keeps nothing but is still reported.
    pub fn capture_plugin_state(&mut self, slot_index: usize, component_state: Vec<u8>, controller_state: Vec<u8>) -> (u:
        SupervisorUpdate)
        ensures
            slot_index < old(self)@.rack.len() ==> final(self)@ == (WorkerModel {
                rack: old(self)@.rack.update(
                    slot_index as int,
                    RackSlotModel {
                        component_state: captured(component_state@),
                        controller_state: captured(controller_state@),
                        ..old(self)@.rack[slot_index as int]
                    },
                ),
                ..old(self)@
            }),
            slot_index >= old(self)@.rack.len() ==> final(self)@ == old(self)@,
            u matches SupervisorUpdate::PluginStateCaptured { slot_index: s, component_state: c, controller_state: k }
                && s == slot_index && c@ == component_state@ && k@ == controller_state@,
    {
        if slot_index < self.rack.len() {
            let ghost before = self.rack@;
            let mut slot = self.rack.remove(slot_index);
            slot.component_state = if component_state.len() == 0 {
                None
            } else {
                Some(copy_bytes(&component_state))
            };
            slot.controller_state = if controller_state.len() == 0 {
                None
            } else {
                Some(copy_bytes(&controller_state))
            };
            self.rack.insert(slot_index, slot);
            assert(slots_view(self.rack@) =~= slots_view(before).update(
                slot_index as int,
                RackSlotModel {
                    component_state: captured(component_state@),
                    controller_state: captured(controller_state@),
                    ..before[slot_index as int]@
                },
            ));
        }
        SupervisorUpdate::PluginStateCaptured { slot_index, component_state, controller_state }
    }

    /// Take the staged changes of the slot at `index` for the engine to
    /// apply on activation, leaving none staged; none past the end.
    pub fn take_staged_changes(&mut self, index: usize) -> (changes: Vec<(u32, u64)>)
        ensures
            index < old(self)@.rack.len() ==> {
                &&& changes@ == old(self)@.rack[index as int].staged_changes
                &&& final(self)@ == (WorkerModel {
                    rack: old(self)@.rack.update(
                        index as int,
                        RackSlotModel { staged_changes: Seq::empty(), ..old(self)@.rack[index as int] },
                    ),
                    ..old(self)@
                })
            },
            index >= old(self)@.rack.len() ==> changes@.len() == 0 && final(self)@ == old(self)@,
    {
        if index >= self.rack.len() {
            return Vec::new();
        }
        let ghost before = self.rack@;
        let mut slot = self.rack.remove(index);
        let mut changes: Vec<(u32, u64)> = Vec::new();
        std::mem::swap(&mut changes, &mut slot.staged_changes);
        self.rack.insert(index, slot);
        assert(slots_view(self.rack@) =~= slots_view(before).update(
            index as int,
            RackSlotModel { staged_changes: Seq::empty(), ..before[index as int]@ },
        ));
        changes
    }

    /// Record that the slot at `index`, named `name`, is now active with the
    /// parameters `snapshots`, after `staged_count` staged changes were
    /// applied: it becomes the selection, its parameters are shown and
    /// cached, and the rack (with the engine's `active_slot`), the
    /// parameters, the engine's `status`, whether it has an editor and the
    /// status line are reported.
    pub fn activation_finished(
        &mut self,
        index: usize,
        name: &str,
        snapshots: Vec<ParamSnapshot>,
        staged_count: usize,
        active_slot: Option<usize>,
        status: AudioStatusState,
        has_editor: bool,
    ) -> (updates: Vec<SupervisorUpdate>)
        requires
            index < old(self)@.rack.len(),
        ensures
            final(self)@ == (WorkerModel {
                rack: old(self)@.rack.update(
                    index as int,
                    RackSlotModel { param_cache: params_view(snapshots@), ..old(self)@.rack[index as int] },
                ),
                selected_slot: Some(index),
                param_snapshots: params_view(snapshots@),
                status_message: activation_message(name@, staged_count as nat),
                ..old(self)@
            }),
            updates@.len() == 5,
            reports_rack(updates@[0], final(self)@.rack, active_slot, Some(index)),
            reports_params(updates@[1], params_view(snapshots@)),
            updates@[2] == (SupervisorUpdate::AudioStatusUpdated { status }),
            updates@[3] == (SupervisorUpdate::EditorAvailability { has_editor }),
            reports_status(updates@[4], final(self).status_message@),
    {
        let ghost before = self.rack@;
        let mut slot = self.rack.remove(index);
        slot.param_cache = copy_params(&snapshots);
        self.rack.insert(index, slot);
        assert(slots_view(self.rack@) =~= slots_view(before).update(
            index as int,
            RackSlotModel { param_cache: params_view(snapshots@), ..before[index as int]@ },
        ));
        self.param_snapshots = snapshots;
        self.selected_slot = Some(index);
        let mut msg = String::new();
        push_str(&mut msg, "▶ '");
        push_str(&mut msg, name);
        push_str(&mut msg, "' active — processing audio.");
        if staged_count > 0 {
            push_str(&mut msg, " (");
            push_decimal(&mut msg, staged_count as u64);
            push_str(&mut msg, " staged change(s) applied)");
        }
        self.status_message = msg;
        assert(self.status_message@ =~= activation_message(name@, staged_count as nat));
        let mut updates: Vec<SupervisorUpdate> = Vec::new();
        updates.push(self.rack_update(active_slot));
        updates.push(self.params_update());
        updates.push(SupervisorUpdate::AudioStatusUpdated { status });
        updates.push(SupervisorUpdate::EditorAvailability { has_editor });
        updates.push(self.status_update());
        updates
    }

    /// Record that the engine could not activate `name` and why; the status
    /// line says so and is reported.
    pub fn activation_failed(&mut self, name: &str, error: &str) -> (updates: Vec<SupervisorUpdate>)
        ensures
            final(self)@ == (WorkerModel {
                status_message: "✗ Failed to activate '"@ + name@ + "': "@ + error@,
                ..old(self)@
            }),
            updates@.len() == 1,
            reports_status(updates@[0], final(self).status_message@),
    {
        let mut msg = String::new();
        push_str(&mut msg, "✗ Failed to activate '");
        push_str(&mut msg, name);
        push_str(&mut msg, "': ");
        push_str(&mut msg, error);
        self.status_message = msg;
        let mut updates: Vec<SupervisorUpdate> = Vec::new();
        updates.push(self.status_update());
        updates
    }
}


/// The name of the slot at `index` of `rack`, or `fallback` when there is
/// no such slot.
pub open spec fn slot_name_or(rack: Seq<RackSlotModel>, index: Option<usize>, fallback: Seq<char>) -> Seq<char> {
    match index {
        Some(i) => if i < rack.len() {
            rack[i as int].name
        } else {
            fallback
        },
        None => fallback,
    }
}

/// The status line after a deactivation; `crashed` tells whether the
/// plugin crashed while being torn down, `now_active` is the engine's
/// active slot afterwards.
pub open spec fn deactivation_message(rack: Seq<RackSlotModel>, crashed: bool, now_active: Option<usize>) -> Seq<
    char,
> {
    if crashed {
        "⚠ '"@ + slot_name_or(rack, now_active, "Plugin"@)
            + "' crashed during deactivation — restart the host to reuse this plugin."@
    } else {
        "Plugin deactivated."@
    }
}

/// The status line after a scan found `modules` modules with `classes`
/// classes and failed on `errors` bundles.
pub open spec fn scan_message(modules: nat, classes: nat, errors: nat) -> Seq<char> {
    "Scan complete — "@ + decimal(modules) + " module(s), "@ + decimal(classes) + " class(es)"@ + (if errors > 0 {
        ", "@ + decimal(errors) + " error(s)"@
    } else {
        Seq::<char>::empty()
    }) + "."@
}

/// What the engine reports about itself in a full state.
pub struct EngineReport {
    /// The engine's active slot.
    pub active_slot: Option<usize>,
    /// Audio status.
    pub audio_status: AudioStatusState,
    /// Audio output devices.
    pub audio_devices: Vec<DeviceState>,
    /// MIDI input ports.
    pub midi_ports: Vec<MidiPortState>,
    /// Selected audio device.
    pub selected_audio_device: Option<String>,
    /// Selected MIDI port.
    pub selected_midi_port: Option<String>,
    /// Whether process isolation is on.
    pub process_isolation: bool,
    /// Whether heap corruption was detected.
    pub heap_corruption_detected: bool,
    /// Whether the active plugin has an editor.
    pub has_editor: bool,
    /// Number of plugin paths that crashed during deactivation.
    pub tainted_count: usize,
}

impl AudioWorkerState {
    /// Record the engine's deactivation of its plugin. The parameters shown
    /// are kept as the cache of the slot that was active (`was_active`);
    /// the status line says whether the plugin crashed while being torn
    /// down (naming the slot the engine still reports active, else
    /// "Plugin"). The rack (with `now_active`), the engine's `status` and
    /// the status line are reported, followed by a heap-corruption notice
    /// when the engine detected one.
    pub fn deactivated(
        &mut self,
        was_active: Option<usize>,
        crashed: bool,
        now_active: Option<usize>,
        status: AudioStatusState,
        heap_corruption_detected: bool,
    ) -> (updates: Vec<SupervisorUpdate>)
        ensures
            final(self)@.rack == (match was_active {
                Some(a) => if a < old(self)@.rack.len() {
                    old(self)@.rack.update(
                        a as int,
                        RackSlotModel { param_cache: old(self)@.param_snapshots, ..old(self)@.rack[a as int] },
                    )
                } else {
                    old(self)@.rack
                },
                None => old(self)@.rack,
            }),
            final(self)@ == (WorkerModel {
                rack: final(self)@.rack,
                status_message: deactivation_message(final(self)@.rack, crashed, now_active),
                ..old(self)@
            }),
            updates@.len() == (if heap_corruption_detected { 4int } else { 3int }),
            reports_rack(updates@[0], final(self)@.rack, now_active, final(self).selected_slot),
            updates@[1] == (SupervisorUpdate::AudioStatusUpdated { status }),
            reports_status(updates@[2], final(self).status_message@),
            heap_corruption_detected ==> updates@[3] is HeapCorruptionDetected,
    {
        match was_active {
            Some(a) => {
                if a < self.rack.len() {
                    let ghost before = self.rack@;
                    let mut slot = self.rack.remove(a);
                    slot.param_cache = copy_params(&self.param_snapshots);
                    self.rack.insert(a, slot);
                    assert(slots_view(self.rack@) =~= slots_view(before).update(
                        a as int,
                        RackSlotModel { param_cache: params_view(self.param_snapshots@), ..before[a as int]@ },
                    ));
                }
            },
            None => {},
        }
        let mut msg = String::new();
        if crashed {
            push_str(&mut msg, "⚠ '");
            match now_active {
                Some(i) => {
                    if i < self.rack.len() {
                        push_str(&mut msg, self.rack[i].name.as_str());
                    } else {
                        push_str(&mut msg, "Plugin");
                    }
                },
                None => push_str(&mut msg, "Plugin"),
            }
            push_str(&mut msg, "' crashed during deactivation — restart the host to reuse this plugin.");
        } else {
            push_str(&mut msg, "Plugin deactivated.");
        }
        self.status_message = msg;
        assert(self.status_message@ =~= deactivation_message(self@.rack, crashed, now_active));
        let mut updates: Vec<SupervisorUpdate> = Vec::new();
        updates.push(self.rack_update(now_active));
        updates.push(SupervisorUpdate::AudioStatusUpdated { status });
        updates.push(self.status_update());
        if heap_corruption_detected {
            updates.push(SupervisorUpdate::HeapCorruptionDetected);
        }
        updates
    }

    /// Record that the plugin of slot `crashed_slot` crashed while
    /// processing and the engine deactivated it: the status line names it
    /// ("Unknown" without such a slot) and is reported with the rack (with
    /// the engine's `active_slot` afterwards) and the engine's `status`.
    pub fn plugin_crashed(&mut self, crashed_slot: Option<usize>, active_slot: Option<usize>, status: AudioStatusState) -> (updates:
        Vec<SupervisorUpdate>)
        ensures
            final(self)@ == (WorkerModel {
                status_message: "⚠ '"@ + slot_name_or(old(self)@.rack, crashed_slot, "Unknown"@)
                    + "' crashed — deactivated safely. Audio host is unaffected."@,
                ..old(self)@
            }),
            updates@.len() == 3,
            reports_status(updates@[0], final(self).status_message@),
            reports_rack(updates@[1], final(self)@.rack, active_slot, final(self).selected_slot),
            updates@[2] == (SupervisorUpdate::AudioStatusUpdated { status }),
    {
        let mut msg = String::new();
        push_str(&mut msg, "⚠ '");
        match crashed_slot {
            Some(i) => {
                if i < self.rack.len() {
                    push_str(&mut msg, self.rack[i].name.as_str());
                } else {
                    push_str(&mut msg, "Unknown");
                }
            },
            None => push_str(&mut msg, "Unknown"),
        }
        push_str(&mut msg, "' crashed — deactivated safely. Audio host is unaffected.");
        self.status_message = msg;
        let mut updates: Vec<SupervisorUpdate> = Vec::new();
        updates.push(self.status_update());
        updates.push(self.rack_update(active_slot));
        updates.push(SupervisorUpdate::AudioStatusUpdated { status });
        updates
    }

    /// Take back the configuration the supervisor kept after this worker
    /// was restarted: no parameters are shown and the status line asks for
    /// the plugins to be re-activated.
    pub fn restore_state(
        &mut self,
        plugin_modules: Vec<PluginModuleInfo>,
        rack: Vec<RackSlotState>,
        selected_slot: Option<usize>,
        tone_enabled: bool,
        transport: TransportUpdate,
        session_path: String,
    )
        ensures
            final(self)@ == (WorkerModel {
                plugin_modules: modules_view(plugin_modules@),
                rack: slots_view(rack@),
                selected_slot,
                param_snapshots: Seq::empty(),
                status_message: "⚠ Audio process restarted — plugins need to be re-activated."@,
                tone_enabled,
                transport,
                session_path: session_path@,
                custom_paths: old(self)@.custom_paths,
            }),
    {
        self.plugin_modules = plugin_modules;
        self.rack = rack;
        self.selected_slot = selected_slot;
        self.tone_enabled = tone_enabled;
        self.transport = transport;
        self.session_path = session_path;
        self.param_snapshots = Vec::new();
        assert(params_view(self.param_snapshots@) =~= Seq::<ParamModel>::empty());
        let mut msg = String::new();
        push_str(&mut msg, "⚠ Audio process restarted — plugins need to be re-activated.");
        self.status_message = msg;
    }

    /// Take the catalogue a scan produced, `error_count` bundles having
    /// failed to load; the status line counts modules, classes and errors,
    /// and the catalogue and the status line are reported.
    pub fn scan_finished(&mut self, modules: Vec<PluginModuleInfo>, error_count: usize) -> (updates: Vec<
        SupervisorUpdate,
    >)
        requires
            class_total(modules_view(modules@)) <= usize::MAX,
        ensures
            final(self)@ == (WorkerModel {
                plugin_modules: modules_view(modules@),
                status_message: scan_message(
                    modules@.len(),
                    class_total(modules_view(modules@)),
                    error_count as nat,
                ),
                ..old(self)@
            }),
            updates@.len() == 2,
            updates@[0] matches SupervisorUpdate::PluginModulesUpdated { modules: m } && modules_view(m@)
                == modules_view(modules@),
            reports_status(updates@[1], final(self).status_message@),
    {
        let msg = scan_summary(&modules, error_count);
        self.plugin_modules = modules;
        self.status_message = msg;
        let mut updates: Vec<SupervisorUpdate> = Vec::new();
        updates.push(SupervisorUpdate::PluginModulesUpdated { modules: copy_modules(&self.plugin_modules) });
        updates.push(self.status_update());
        updates
    }

    /// Report the device lists the engine found after a refresh; the status
    /// line counts them.
    pub fn devices_refreshed(&mut self, audio_devices: Vec<DeviceState>, midi_ports: Vec<MidiPortState>) -> (updates:
        Vec<SupervisorUpdate>)
        ensures
            final(self)@ == (WorkerModel {
                status_message: "Devices refreshed — "@ + decimal(audio_devices@.len()) + " audio, "@ + decimal(
                    midi_ports@.len(),
                ) + " MIDI"@,
                ..old(self)@
            }),
            updates@.len() == 2,
            updates@[0] == (SupervisorUpdate::DevicesUpdated { audio_devices, midi_ports }),
            reports_status(updates@[1], final(self).status_message@),
    {
        let mut msg = String::new();
        push_str(&mut msg, "Devices refreshed — ");
        push_decimal(&mut msg, audio_devices.len() as u64);
        push_str(&mut msg, " audio, ");
        push_decimal(&mut msg, midi_ports.len() as u64);
        push_str(&mut msg, " MIDI");
        self.status_message = msg;
        let mut updates: Vec<SupervisorUpdate> = Vec::new();
        updates.push(SupervisorUpdate::DevicesUpdated { audio_devices, midi_ports });
        updates.push(self.status_update());
        updates
    }

    /// The name of the slot at `index` (the selected slot, whose editor is
    /// to be opened, or the active one, whose presets are listed); empty
    /// without such a slot.
    pub fn slot_name(&self, index: Option<usize>) -> (name: String)
        ensures
            name@ == slot_name_or(self@.rack, index, Seq::empty()),
    {
        match index {
            Some(i) => {
                if i < self.rack.len() {
                    self.rack[i].name.clone()
                } else {
                    String::new()
                }
            },
            None => String::new(),
        }
    }

    /// The class ID of the slot at `index` (the active one, whose state is
    /// saved as a preset); all zeros without such a slot.
    pub fn slot_cid(&self, index: Option<usize>) -> (cid: [u8; 16])
        ensures
            cid@ == (match index {
                Some(i) => if i < self@.rack.len() {
                    self@.rack[i as int].cid
                } else {
                    Seq::new(16, |k: int| 0u8)
                },
                None => Seq::new(16, |k: int| 0u8),
            }),
    {
        let zeros: [u8; 16] = [0u8; 16];
        assert(zeros@ =~= Seq::new(16, |k: int| 0u8));
        match index {
            Some(i) => {
                if i < self.rack.len() {
                    self.rack[i].cid
                } else {
                    zeros
                }
            },
            None => zeros,
        }
    }

    /// Record the outcome of loading a preset onto the active plugin: on
    /// success its name and the engine's parameters afterwards, which are
    /// shown; the status line says what happened. Reported are the
    /// parameters (on success) and the status line.
    pub fn preset_loaded(&mut self, result: Result<(String, Vec<ParamSnapshot>), String>) -> (updates: Vec<
        SupervisorUpdate,
    >)
        ensures
            match result {
                Ok((name, snapshots)) => {
                    &&& final(self)@ == (WorkerModel {
                        param_snapshots: params_view(snapshots@),
                        status_message: "Preset '"@ + name@ + "' loaded"@,
                        ..old(self)@
                    })
                    &&& updates@.len() == 2
                    &&& reports_params(updates@[0], params_view(snapshots@))
                    &&& reports_status(updates@[1], final(self).status_message@)
                },
                Err(e) => {
                    &&& final(self)@ == (WorkerModel {
                        status_message: "✗ Preset load failed: "@ + e@,
                        ..old(self)@
                    })
                    &&& updates@.len() == 1
                    &&& reports_status(updates@[0], final(self).status_message@)
                },
            },
    {
        let mut msg = String::new();
        let mut updates: Vec<SupervisorUpdate> = Vec::new();
        match result {
            Ok((name, snapshots)) => {
                push_str(&mut msg, "Preset '");
                push_str(&mut msg, name.as_str());
                push_str(&mut msg, "' loaded");
                self.status_message = msg;
                self.param_snapshots = snapshots;
                updates.push(self.params_update());
            },
            Err(e) => {
                push_str(&mut msg, "✗ Preset load failed: ");
                push_str(&mut msg, e.as_str());
                self.status_message = msg;
            },
        }
        updates.push(self.status_update());
        updates
    }

    /// Record whether the preset `name` was saved; the status line says so
    /// and is reported.
    pub fn preset_saved(&mut self, name: &str, result: Result<(), String>) -> (updates: Vec<SupervisorUpdate>)
        ensures
            final(self)@ == (WorkerModel {
                status_message: match result {
                    Ok(_) => "Preset '"@ + name@ + "' saved"@,
                    Err(e) => "✗ Preset save failed: "@ + e@,
                },
                ..old(self)@
            }),
            updates@.len() == 1,
            reports_status(updates@[0], final(self).status_message@),
    {
        let mut msg = String::new();
        match result {
            Ok(_) => {
                push_str(&mut msg, "Preset '");
                push_str(&mut msg, name);
                push_str(&mut msg, "' saved");
            },
            Err(e) => {
                push_str(&mut msg, "✗ Preset save failed: ");
                push_str(&mut msg, e.as_str());
            },
        }
        self.status_message = msg;
        let mut updates: Vec<SupervisorUpdate> = Vec::new();
        updates.push(self.status_update());
        updates
    }

    /// Record whether the engine opened the editor of `name`; the status
    /// line says so and is reported.
    pub fn editor_opened(&mut self, name: &str, result: Result<(), String>) -> (updates: Vec<SupervisorUpdate>)
        ensures
            final(self)@ == (WorkerModel {
                status_message: match result {
                    Ok(_) => "🎹 Editor opened for '"@ + name@ + "'."@,
                    Err(e) => "✗ Editor failed: "@ + e@,
                },
                ..old(self)@
            }),
            updates@.len() == 1,
            reports_status(updates@[0], final(self).status_message@),
    {
        let mut msg = String::new();
        match result {
            Ok(_) => {
                push_str(&mut msg, "🎹 Editor opened for '");
                push_str(&mut msg, name);
                push_str(&mut msg, "'.");
            },
            Err(e) => {
                push_str(&mut msg, "✗ Editor failed: ");
                push_str(&mut msg, e.as_str());
            },
        }
        self.status_message = msg;
        let mut updates: Vec<SupervisorUpdate> = Vec::new();
        updates.push(self.status_update());
        updates
    }

    /// The full state: this worker's configuration together with what the
    /// engine reports about itself.
    pub fn full_state(&self, engine: EngineReport, safe_mode: bool) -> (u: SupervisorUpdate)
        ensures
            u matches SupervisorUpdate::FullState {
                plugin_modules,
                rack,
                selected_slot,
                active_slot,
                param_snapshots,
                audio_status,
                audio_devices,
                midi_ports,
                selected_audio_device,
                selected_midi_port,
                process_isolation,
                status_message,
                heap_corruption_detected,
                has_editor,
                tainted_count,
                transport,
                tone_enabled,
                safe_mode: sm,
            } && modules_view(plugin_modules@) == self@.plugin_modules && slots_view(rack@) == self@.rack
                && selected_slot == self.selected_slot && active_slot == engine.active_slot && params_view(
                param_snapshots@,
            ) == self@.param_snapshots && audio_status == engine.audio_status && audio_devices
                == engine.audio_devices && midi_ports == engine.midi_ports && selected_audio_device
                == engine.selected_audio_device && selected_midi_port == engine.selected_midi_port
                && process_isolation == engine.process_isolation && status_message@ == self.status_message@
                && heap_corruption_detected == engine.heap_corruption_detected && has_editor == engine.has_editor
                && tainted_count == engine.tainted_count && transport == self.transport && tone_enabled
                == self.tone_enabled && sm == safe_mode,
    {
        SupervisorUpdate::FullState {
            plugin_modules: copy_modules(&self.plugin_modules),
            rack: copy_slots(&self.rack),
            selected_slot: self.selected_slot,
            active_slot: engine.active_slot,
            param_snapshots: copy_params(&self.param_snapshots),
            audio_status: engine.audio_status,
            audio_devices: engine.audio_devices,
            midi_ports: engine.midi_ports,
            selected_audio_device: engine.selected_audio_device,
            selected_midi_port: engine.selected_midi_port,
            process_isolation: engine.process_isolation,
            status_message: self.status_message.clone(),
            heap_corruption_detected: engine.heap_corruption_detected,
            has_editor: engine.has_editor,
            tainted_count: engine.tainted_count,
            transport: self.transport,
            tone_enabled: self.tone_enabled,
            safe_mode,
        }
    }
}


/// Removing the slot that was just added (while it is not the active one)
/// gives back the rack, the selection and the parameter view, provided the
/// selection was within the rack.
pub proof fn lemma_remove_undoes_add(m: WorkerModel, mi: usize, ci: usize)
    requires
        class_exists(m, mi, ci),
        m.rack.len() < usize::MAX,
        m.selected_slot matches Some(s) ==> s < m.rack.len(),
    ensures
        ({
            let back = after_remove(after_add(m, mi, ci), m.rack.len() as usize, false);
            &&& back.rack == m.rack
            &&& back.selected_slot == m.selected_slot
            &&& back.param_snapshots == m.param_snapshots
            &&& back.plugin_modules == m.plugin_modules
        }),
{
    let added = after_add(m, mi, ci);
    assert(added.rack.remove(m.rack.len() as int) =~= m.rack);
}

/// After a slot leaves the rack, a selection that was within the rack is
/// still within it (or cleared).
pub proof fn lemma_removal_keeps_selection_in_rack(m: WorkerModel, index: usize, deactivated: bool)
    requires
        index < m.rack.len(),
        m.selected_slot matches Some(s) ==> s < m.rack.len(),
    ensures
        after_remove(m, index, deactivated).selected_slot matches Some(s) ==> s < after_remove(
            m,
            index,
            deactivated,
        ).rack.len(),
{
}



/// A slot read from a session: what it was saved with, without cached
/// parameters or staged changes.
pub open spec fn loaded_slot(s: RackSlotModel) -> RackSlotModel {
    RackSlotModel { param_cache: Seq::empty(), staged_changes: Seq::empty(), ..s }
}

impl AudioWorkerState {
    /// Before a session is saved: keep the engine's current plugin state in
    /// the selected slot (an empty blob keeps what the slot had).
    pub fn keep_live_state(&mut self, component_state: Vec<u8>, controller_state: Vec<u8>)
        ensures
            (match old(self).selected_slot {
                Some(i) => i < old(self)@.rack.len(),
                None => false,
            }) ==> final(self)@ == (WorkerModel {
                rack: old(self)@.rack.update(
                    old(self).selected_slot->0 as int,
                    RackSlotModel {
                        component_state: if component_state@.len() == 0 {
                            old(self)@.rack[old(self).selected_slot->0 as int].component_state
                        } else {
                            Some(component_state@)
                        },
                        controller_state: if controller_state@.len() == 0 {
                            old(self)@.rack[old(self).selected_slot->0 as int].controller_state
                        } else {
                            Some(controller_state@)
                        },
                        ..old(self)@.rack[old(self).selected_slot->0 as int]
                    },
                ),
                ..old(self)@
            }),
            !(match old(self).selected_slot {
                Some(i) => i < old(self)@.rack.len(),
                None => false,
            }) ==> final(self)@ == old(self)@,
    {
        match self.selected_slot {
            Some(sel) => {
                if sel < self.rack.len() {
                    let ghost before = self.rack@;
                    let mut slot = self.rack.remove(sel);
                    if component_state.len() > 0 {
                        slot.component_state = Some(component_state);
                    }
                    if controller_state.len() > 0 {
                        slot.controller_state = Some(controller_state);
                    }
                    let ghost changed = slot@;
                    self.rack.insert(sel, slot);
                    assert(slots_view(self.rack@) =~= slots_view(before).update(sel as int, changed));
                }
            },
            None => {},
        }
    }

    /// Record whether the session was saved to `path`; the status line
    /// says so and is reported.
    pub fn session_saved(&mut self, path: &str, result: Result<(), String>) -> (updates: Vec<SupervisorUpdate>)
        ensures
            final(self)@ == (WorkerModel {
                status_message: match result {
                    Ok(_) => "Session saved to "@ + path@,
                    Err(e) => "✗ Save failed: "@ + e@,
                },
                ..old(self)@
            }),
            updates@.len() == 1,
            reports_status(updates@[0], final(self).status_message@),
    {
        let mut msg = String::new();
        match result {
            Ok(_) => {
                push_str(&mut msg, "Session saved to ");
                push_str(&mut msg, path);
            },
            Err(e) => {
                push_str(&mut msg, "✗ Save failed: ");
                push_str(&mut msg, e.as_str());
            },
        }
        self.status_message = msg;
        let mut updates: Vec<SupervisorUpdate> = Vec::new();
        updates.push(self.status_update());
        updates
    }

    /// Take the transport and the rack of a session read from `path` (the
    /// engine having deactivated its plugin): the slots keep their saved
    /// plugin state but no cached parameters or staged changes, nothing is
    /// selected or shown, and the status line counts the slots. A session
    /// that could not be read changes only the status line. The caller
    /// then reports the full state.
    pub fn session_loaded(&mut self, path: &str, result: Result<(TransportUpdate, Vec<RackSlotState>), String>)
        ensures
            match result {
                Ok((transport, rack)) => final(self)@ == (WorkerModel {
                    transport,
                    rack: slots_view(rack@).map_values(|s: RackSlotModel| loaded_slot(s)),
                    selected_slot: None,
                    param_snapshots: Seq::empty(),
                    status_message: "Session loaded from "@ + path@ + " ("@ + decimal(rack@.len()) + " slots)"@,
                    ..old(self)@
                }),
                Err(e) => final(self)@ == (WorkerModel {
                    status_message: "✗ Load failed: "@ + e@,
                    ..old(self)@
                }),
            },
    {
        let mut msg = String::new();
        match result {
            Ok((transport, slots)) => {
                let mut rack: Vec<RackSlotState> = Vec::new();
                let mut i: usize = 0;
                while i < slots.len()
                    invariant
                        i <= slots@.len(),
                        rack@.len() == i,
                        forall|k: int| 0 <= k < i ==> #[trigger] rack@[k]@ == loaded_slot(slots@[k]@),
                    decreases slots@.len() - i,
                {
                    let s = &slots[i];
                    let no_params: Vec<ParamSnapshot> = Vec::new();
                    assert(params_view(no_params@) =~= Seq::<ParamModel>::empty());
                    rack.push(
                        RackSlotState {
                            name: s.name.clone(),
                            vendor: s.vendor.clone(),
                            category: s.category.clone(),
                            path: s.path.clone(),
                            cid: s.cid,
                            bypassed: s.bypassed,
                            param_cache: no_params,
                            staged_changes: Vec::new(),
                            component_state: copy_opt_bytes(&s.component_state),
                            controller_state: copy_opt_bytes(&s.controller_state),
                        },
                    );
                    i = i + 1;
                }
                assert(slots_view(rack@) =~= slots_view(slots@).map_values(|s: RackSlotModel| loaded_slot(s)));
                self.param_snapshots = Vec::new();
                assert(params_view(self.param_snapshots@) =~= Seq::<ParamModel>::empty());
                self.transport = transport;
                self.rack = rack;
                self.selected_slot = None;
                push_str(&mut msg, "Session loaded from ");
                push_str(&mut msg, path);
                push_str(&mut msg, " (");
                push_decimal(&mut msg, slots.len() as u64);
                push_str(&mut msg, " slots)");
            },
            Err(e) => {
                push_str(&mut msg, "✗ Load failed: ");
                push_str(&mut msg, e.as_str());
            },
        }
        self.status_message = msg;
    }
}

/// `u` is what a removal reports: the rack (with the active slot
/// `active`), the parameters and the status line of `m`.
pub open spec fn removal_reported(u: Seq<SupervisorUpdate>, m: WorkerModel, active: Option<usize>) -> bool {
    &&& u.len() == 3
    &&& reports_rack(u[0], m.rack, active, m.selected_slot)
    &&& reports_params(u[1], m.param_snapshots)
    &&& reports_status(u[2], m.status_message)
}

/// Work a GUI action leaves to the process that owns the engine, the
/// plugin files and the disk, before anything is reported.
pub enum OutsideWork {
    /// Scan the plugin folders (`custom_paths`, else the default ones),
    /// then call `scan_finished`.
    Scan,
    /// Deactivate the engine's plugin, then send these updates.
    DeactivateThenSend(Vec<SupervisorUpdate>),
    /// Activate the plugin of slot `index` (bundle `path`, class `cid`);
    /// on success apply its saved state and `take_staged_changes`, then call
    /// `activation_finished`, else `activation_failed`.
    Activate { index: usize, path: String, cid: [u8; 16], name: String },
    /// Deactivate the engine's plugin, then call `deactivated`.
    Deactivate,
    /// Set parameter `id` of the active plugin; nothing is reported.
    SetParameter { id: u32, value: u64 },
    /// Render `value` as text (three decimals), then call
    /// `stage_parameter` with it.
    RenderStagedValue { slot_index: usize, id: u32, value: u64 },
    /// Put the engine's live parameters into `param_snapshots`, then send
    /// `params_update`.
    LoadLiveParams,
    /// Switch the engine's test tone.
    SetTone(bool),
    /// Hand the transport to the engine when a plugin is active.
    SetTransport(TransportUpdate),
    /// Open the editor of the named plugin, then call `editor_opened`.
    OpenEditor(String),
    /// Capture the active plugin's state (`keep_live_state`), save the
    /// session to this path, then call `session_saved`.
    SaveSession(String),
    /// Read the session at this path; on success deactivate the engine's
    /// plugin and restore its device choices. Then call `session_loaded`
    /// and send the `full_state`.
    LoadSession(String),
    /// Select the audio output device.
    SelectAudioDevice(Option<String>),
    /// Select the MIDI input port.
    SelectMidiPort(Option<String>),
    /// Refresh the device lists, then call `devices_refreshed`.
    RefreshDevices,
    /// Switch process isolation.
    SetProcessIsolation(bool),
    /// Capture the active plugin's state, then call
    /// `capture_plugin_state` for this slot.
    CapturePluginState(usize),
    /// Load the preset at this path onto the active plugin, then call
    /// `preset_loaded`.
    LoadPreset(String),
    /// Save the active plugin's state as preset `name` of class `cid` at
    /// `path`, then call `preset_saved`.
    SavePreset { path: String, name: String, cid: [u8; 16] },
    /// List the user presets of the named plugin, then send `preset_list`.
    ListPresets(String),
}

/// What a GUI action leads to.
pub enum WorkerStep {
    /// Send these updates; nothing else is to be done.
    Reply(Vec<SupervisorUpdate>),
    /// Do this work first.
    Outside(OutsideWork),
}

/// The list of presets for the active plugin: no factory presets, and the
/// user presets found on disk.
pub fn preset_list(user_presets: Vec<PresetInfo>) -> (u: SupervisorUpdate)
    ensures
        u matches SupervisorUpdate::PresetList { factory_presets, user_presets: found } && factory_presets@.len() == 0
            && found == user_presets,
{
    SupervisorUpdate::PresetList { factory_presets: Vec::new(), user_presets }
}

/// `step` sends exactly one update, `u`.
pub open spec fn replies_one(step: WorkerStep, u: SupervisorUpdate) -> bool {
    step matches WorkerStep::Reply(v) && v@ == seq![u]
}

/// `step` asks for `work` first.
pub open spec fn asks(step: WorkerStep, work: OutsideWork) -> bool {
    step == WorkerStep::Outside(work)
}

impl AudioWorkerState {
    /// Handle one GUI action, given the engine's active slot: update what
    /// this worker keeps and say what to send, or what outside work comes
    /// first (see `OutsideWork`).
    pub fn handle_action(&mut self, action: GuiAction, active_slot: Option<usize>) -> (step: WorkerStep)
        ensures
            match action {
                GuiAction::Ping => replies_one(step, SupervisorUpdate::Pong) && final(self)@ == old(self)@,
                GuiAction::Shutdown => replies_one(step, SupervisorUpdate::ShutdownAck) && final(self)@ == old(self)@,
                GuiAction::ScanPlugins => asks(step, OutsideWork::Scan) && final(self)@ == (WorkerModel {
                    status_message: "Scanning for plugins…"@,
                    ..old(self)@
                }),
                GuiAction::AddToRack { module_index, class_index } => step matches WorkerStep::Reply(u) && (
                class_exists(old(self)@, module_index, class_index) ==> {
                    &&& final(self)@ == after_add(old(self)@, module_index, class_index)
                    &&& u@.len() == 2
                    &&& reports_rack(u@[0], final(self)@.rack, active_slot, final(self).selected_slot)
                    &&& reports_status(u@[1], final(self).status_message@)
                }) && (!class_exists(old(self)@, module_index, class_index) ==> {
                    &&& final(self)@ == old(self)@
                    &&& u@.len() == 1
                    &&& reports_status(u@[0], "Invalid module/class index."@)
                }),
                GuiAction::RemoveFromRack { index } => {
                    let deactivate = index < old(self)@.rack.len() && active_slot == Some(index);
                    &&& index >= old(self)@.rack.len() ==> final(self)@ == old(self)@
                    &&& index < old(self)@.rack.len() ==> final(self)@ == after_remove(old(self)@, index, deactivate)
                    &&& (match step {
                        WorkerStep::Reply(u) => !deactivate && removal_reported(u@, final(self)@, active_slot),
                        WorkerStep::Outside(OutsideWork::DeactivateThenSend(u)) => deactivate && removal_reported(
                            u@,
                            final(self)@,
                            None,
                        ),
                        _ => false,
                    })
                },
                GuiAction::ActivateSlot { index } => final(self)@ == old(self)@ && (if index < old(self)@.rack.len() {
                    step matches WorkerStep::Outside(OutsideWork::Activate { index: i, path, cid, name }) && i == index
                        && path@ == old(self)@.rack[index as int].path && cid@ == old(self)@.rack[index as int].cid
                        && name@ == old(self)@.rack[index as int].name
                } else {
                    step matches WorkerStep::Reply(u) && u@.len() == 1 && reports_status(u@[0], old(self).status_message@)
                }),
                GuiAction::DeactivateSlot => asks(step, OutsideWork::Deactivate) && final(self)@ == old(self)@,
                GuiAction::SetParameter { id, value } => asks(step, OutsideWork::SetParameter { id, value })
                    && final(self)@ == old(self)@,
                GuiAction::StageParameter { slot_index, id, value } => asks(
                    step,
                    OutsideWork::RenderStagedValue { slot_index, id, value },
                ) && final(self)@ == old(self)@,
                GuiAction::SelectSlot { index } => {
                    let live = index is Some && active_slot == index;
                    &&& final(self)@ == (WorkerModel {
                        selected_slot: index,
                        param_snapshots: if live {
                            old(self)@.param_snapshots
                        } else {
                            inactive_view(old(self)@, index)
                        },
                        ..old(self)@
                    })
                    &&& live ==> asks(step, OutsideWork::LoadLiveParams)
                    &&& !live ==> (step matches WorkerStep::Reply(u) && u@.len() == 1 && reports_params(
                        u@[0],
                        final(self)@.param_snapshots,
                    ))
                },
                GuiAction::SetToneEnabled { enabled } => asks(step, OutsideWork::SetTone(enabled)) && final(self)@
                    == (WorkerModel { tone_enabled: enabled, ..old(self)@ }),
                GuiAction::SetTransport { playing, tempo, time_sig_num, time_sig_den } => {
                    let t = TransportUpdate { playing, tempo, time_sig_num, time_sig_den };
                    asks(step, OutsideWork::SetTransport(t)) && final(self)@ == (WorkerModel {
                        transport: t,
                        ..old(self)@
                    })
                },
                GuiAction::OpenEditor => {
                    &&& final(self)@ == old(self)@
                    &&& step matches WorkerStep::Outside(OutsideWork::OpenEditor(name)) && name@ == slot_name_or(
                        old(self)@.rack,
                        old(self).selected_slot,
                        Seq::empty(),
                    )
                },
                GuiAction::SaveSession { path } => asks(step, OutsideWork::SaveSession(path)) && final(self)@
                    == old(self)@,
                GuiAction::LoadSession { path } => asks(step, OutsideWork::LoadSession(path)) && final(self)@
                    == old(self)@,
                GuiAction::SelectAudioDevice { name } => asks(step, OutsideWork::SelectAudioDevice(name))
                    && final(self)@ == old(self)@,
                GuiAction::SelectMidiPort { name } => asks(step, OutsideWork::SelectMidiPort(name)) && final(self)@
                    == old(self)@,
                GuiAction::RefreshDevices => asks(step, OutsideWork::RefreshDevices) && final(self)@ == old(self)@,
                GuiAction::SetProcessIsolation { enabled } => asks(step, OutsideWork::SetProcessIsolation(enabled))
                    && final(self)@ == old(self)@,
                GuiAction::CapturePluginState { slot_index } => asks(step, OutsideWork::CapturePluginState(slot_index))
                    && final(self)@ == old(self)@,
                GuiAction::LoadPreset { path } => asks(step, OutsideWork::LoadPreset(path)) && final(self)@
                    == old(self)@,
                GuiAction::SavePreset { path, name } => {
                    &&& final(self)@ == old(self)@
                    &&& step matches WorkerStep::Outside(OutsideWork::SavePreset { path: p, name: n, cid }) && p == path
                        && n == name && cid@ == (match active_slot {
                    Some(i) => if i < old(self)@.rack.len() {
                        old(self)@.rack[i as int].cid
                    } else {
                        Seq::new(16, |k: int| 0u8)
                    },
                    None => Seq::new(16, |k: int| 0u8),
                    })
                },
                GuiAction::ListPresets => {
                    &&& final(self)@ == old(self)@
                    &&& step matches WorkerStep::Outside(OutsideWork::ListPresets(name)) && name@ == slot_name_or(
                        old(self)@.rack,
                        active_slot,
                        Seq::empty(),
                    )
                },
            },
    {
        match action {
            GuiAction::Ping => {
                let mut u: Vec<SupervisorUpdate> = Vec::new();
                u.push(SupervisorUpdate::Pong);
                assert(u@ =~= seq![SupervisorUpdate::Pong]);
                WorkerStep::Reply(u)
            },
            GuiAction::Shutdown => {
                let mut u: Vec<SupervisorUpdate> = Vec::new();
                u.push(SupervisorUpdate::ShutdownAck);
                assert(u@ =~= seq![SupervisorUpdate::ShutdownAck]);
                WorkerStep::Reply(u)
            },
            GuiAction::ScanPlugins => {
                let mut msg = String::new();
                push_str(&mut msg, "Scanning for plugins…");
                self.status_message = msg;
                WorkerStep::Outside(OutsideWork::Scan)
            },
            GuiAction::AddToRack { module_index, class_index } => WorkerStep::Reply(
                self.add_to_rack(module_index, class_index, active_slot),
            ),
            GuiAction::RemoveFromRack { index } => {
                let r = self.remove_from_rack(index, active_slot);
                if r.deactivate {
                    WorkerStep::Outside(OutsideWork::DeactivateThenSend(r.updates))
                } else {
                    WorkerStep::Reply(r.updates)
                }
            },
            GuiAction::ActivateSlot { index } => {
                if index < self.rack.len() {
                    let slot = &self.rack[index];
                    WorkerStep::Outside(
                        OutsideWork::Activate {
                            index,
                            path: slot.path.clone(),
                            cid: slot.cid,
                            name: slot.name.clone(),
                        },
                    )
                } else {
                    let mut u: Vec<SupervisorUpdate> = Vec::new();
                    u.push(self.status_update());
                    WorkerStep::Reply(u)
                }
            },
            GuiAction::DeactivateSlot => WorkerStep::Outside(OutsideWork::Deactivate),
            GuiAction::SetParameter { id, value } => WorkerStep::Outside(OutsideWork::SetParameter { id, value }),
            GuiAction::StageParameter { slot_index, id, value } => WorkerStep::Outside(
                OutsideWork::RenderStagedValue { slot_index, id, value },
            ),
            GuiAction::SelectSlot { index } => {
                if self.select_slot(index, active_slot) {
                    WorkerStep::Outside(OutsideWork::LoadLiveParams)
                } else {
                    let mut u: Vec<SupervisorUpdate> = Vec::new();
                    u.push(self.params_update());
                    WorkerStep::Reply(u)
                }
            },
            GuiAction::SetToneEnabled { enabled } => {
                self.tone_enabled = enabled;
                WorkerStep::Outside(OutsideWork::SetTone(enabled))
            },
            GuiAction::SetTransport { playing, tempo, time_sig_num, time_sig_den } => {
                self.transport = TransportUpdate { playing, tempo, time_sig_num, time_sig_den };
                WorkerStep::Outside(OutsideWork::SetTransport(self.transport))
            },
            GuiAction::OpenEditor => WorkerStep::Outside(OutsideWork::OpenEditor(self.slot_name(self.selected_slot))),
            GuiAction::SaveSession { path } => WorkerStep::Outside(OutsideWork::SaveSession(path)),
            GuiAction::LoadSession { path } => WorkerStep::Outside(OutsideWork::LoadSession(path)),
            GuiAction::SelectAudioDevice { name } => WorkerStep::Outside(OutsideWork::SelectAudioDevice(name)),
            GuiAction::SelectMidiPort { name } => WorkerStep::Outside(OutsideWork::SelectMidiPort(name)),
            GuiAction::RefreshDevices => WorkerStep::Outside(OutsideWork::RefreshDevices),
            GuiAction::SetProcessIsolation { enabled } => WorkerStep::Outside(OutsideWork::SetProcessIsolation(enabled)),
            GuiAction::CapturePluginState { slot_index } => WorkerStep::Outside(
                OutsideWork::CapturePluginState(slot_index),
            ),
            GuiAction::LoadPreset { path } => WorkerStep::Outside(OutsideWork::LoadPreset(path)),
            GuiAction::SavePreset { path, name } => WorkerStep::Outside(
                OutsideWork::SavePreset { path, name, cid: self.slot_cid(active_slot) },
            ),
            GuiAction::ListPresets => WorkerStep::Outside(OutsideWork::ListPresets(self.slot_name(active_slot))),
        }
    }
}

/// The supervisor's shadow copy takes over the rack and the selection of
/// every rack report the worker sends.
pub proof fn lemma_shadow_follows_rack_report(
    s: ShadowModel,
    u: SupervisorUpdate,
    m: WorkerModel,
    active: Option<usize>,
)
    requires
        reports_rack(u, m.rack, active, m.selected_slot),
    ensures
        shadow_after(s, u).rack == m.rack,
        shadow_after(s, u).selected_slot == m.selected_slot,
        shadow_after(s, u).plugin_modules == s.plugin_modules,
{
}

/// After the shadow copy has seen a full state of the worker, it holds the
/// worker's catalogue, rack, selection, tone and transport: what a
/// restarted worker is given back.
pub proof fn lemma_shadow_keeps_full_state(s: ShadowModel, u: SupervisorUpdate, m: WorkerModel)
    requires
        u matches SupervisorUpdate::FullState { plugin_modules, rack, selected_slot, transport, tone_enabled, .. }
            && modules_view(plugin_modules@) == m.plugin_modules && slots_view(rack@) == m.rack && selected_slot
            == m.selected_slot && transport == m.transport && tone_enabled == m.tone_enabled,
    ensures
        shadow_after(s, u).plugin_modules == m.plugin_modules,
        shadow_after(s, u).rack == m.rack,
        shadow_after(s, u).selected_slot == m.selected_slot,
        shadow_after(s, u).tone_enabled == m.tone_enabled,
        shadow_after(s, u).transport == m.transport,
        shadow_after(s, u).session_path == s.session_path,
{
}

} // verus!
