//! Undo/redo history with coalescing of parameter changes.
//!
//! The history is linear: a new action clears what could be redone.
//! Consecutive changes of the same parameter of the same slot recorded
//! within the coalescing window are merged into one entry.
use vstd::prelude::*;
use crate::rack::{copy_opt_bytes, copy_params, opt_bytes, params_view, ParamModel, ParamSnapshot};
use crate::text::{decimal, push_decimal, push_str};
use crate::clock::{clock_now, millis_between};

verus! {

/// Default maximum undo depth.
pub const DEFAULT_MAX_DEPTH: usize = 100;

/// Default coalescing window for parameter changes (milliseconds).
pub const DEFAULT_COALESCE_MS: u64 = 500;

/// A reversible user action. `old_*` fields hold the value before the
/// action, `new_*` the value after it; real numbers are bit patterns.
pub enum UndoableAction {
    /// A parameter value change on a plugin.
    SetParameter { slot_index: usize, param_id: u32, old_value: u64, new_value: u64, param_name: String },
    /// A plugin was added to the rack.
    AddPlugin { slot_index: usize, name: String, vendor: String, category: String, path: String, cid: [u8; 16] },
    /// A plugin was removed from the rack.
    RemovePlugin {
        slot_index: usize,
        name: String,
        vendor: String,
        category: String,
        path: String,
        cid: [u8; 16],
        param_cache: Vec<ParamSnapshot>,
        component_state: Option<Vec<u8>>,
        controller_state: Option<Vec<u8>>,
    },
    /// A plugin was moved in the rack.
    ReorderPlugin { old_index: usize, new_index: usize },
    /// A preset was loaded on a plugin.
    LoadPreset {
        slot_index: usize,
        preset_path: String,
        preset_name: String,
        old_component_state: Option<Vec<u8>>,
        old_controller_state: Option<Vec<u8>>,
        new_component_state: Option<Vec<u8>>,
        new_controller_state: Option<Vec<u8>>,
    },
    /// The tempo was changed.
    SetTempo { old_bpm: u64, new_bpm: u64 },
    /// The time signature was changed.
    SetTimeSignature { old_numerator: u32, old_denominator: u32, new_numerator: u32, new_denominator: u32 },
}

/// The contents of an `UndoableAction`.
pub enum ActionModel {
    SetParameter { slot_index: usize, param_id: u32, old_value: u64, new_value: u64, param_name: Seq<char> },
    AddPlugin { slot_index: usize, name: Seq<char>, vendor: Seq<char>, category: Seq<char>, path: Seq<char>, cid: Seq<u8> },
    RemovePlugin {
        slot_index: usize,
        name: Seq<char>,
        vendor: Seq<char>,
        category: Seq<char>,
        path: Seq<char>,
        cid: Seq<u8>,
        param_cache: Seq<ParamModel>,
        component_state: Option<Seq<u8>>,
        controller_state: Option<Seq<u8>>,
    },
    ReorderPlugin { old_index: usize, new_index: usize },
    LoadPreset {
        slot_index: usize,
        preset_path: Seq<char>,
        preset_name: Seq<char>,
        old_component_state: Option<Seq<u8>>,
        old_controller_state: Option<Seq<u8>>,
        new_component_state: Option<Seq<u8>>,
        new_controller_state: Option<Seq<u8>>,
    },
    SetTempo { old_bpm: u64, new_bpm: u64 },
    SetTimeSignature { old_numerator: u32, old_denominator: u32, new_numerator: u32, new_denominator: u32 },
}

impl View for UndoableAction {
    type V = ActionModel;

    open spec fn view(&self) -> ActionModel {
        match self {
            UndoableAction::SetParameter { slot_index, param_id, old_value, new_value, param_name } =>
                ActionModel::SetParameter {
                slot_index: *slot_index,
                param_id: *param_id,
                old_value: *old_value,
                new_value: *new_value,
                param_name: param_name@,
            },
            UndoableAction::AddPlugin { slot_index, name, vendor, category, path, cid } =>
                ActionModel::AddPlugin {
                slot_index: *slot_index,
                name: name@,
                vendor: vendor@,
                category: category@,
                path: path@,
                cid: cid@,
            },
            UndoableAction::RemovePlugin {
                slot_index,
                name,
                vendor,
                category,
                path,
                cid,
                param_cache,
                component_state,
                controller_state,
            } => ActionModel::RemovePlugin {
                slot_index: *slot_index,
                name: name@,
                vendor: vendor@,
                category: category@,
                path: path@,
                cid: cid@,
                param_cache: params_view(param_cache@),
                component_state: opt_bytes(*component_state),
                controller_state: opt_bytes(*controller_state),
            },
            UndoableAction::ReorderPlugin { old_index, new_index } =>
                ActionModel::ReorderPlugin { old_index: *old_index, new_index: *new_index },
            UndoableAction::LoadPreset {
                slot_index,
                preset_path,
                preset_name,
                old_component_state,
                old_controller_state,
                new_component_state,
                new_controller_state,
            } => ActionModel::LoadPreset {
                slot_index: *slot_index,
                preset_path: preset_path@,
                preset_name: preset_name@,
                old_component_state: opt_bytes(*old_component_state),
                old_controller_state: opt_bytes(*old_controller_state),
                new_component_state: opt_bytes(*new_component_state),
                new_controller_state: opt_bytes(*new_controller_state),
            },
            UndoableAction::SetTempo { old_bpm, new_bpm } =>
                ActionModel::SetTempo { old_bpm: *old_bpm, new_bpm: *new_bpm },
            UndoableAction::SetTimeSignature { old_numerator, old_denominator, new_numerator, new_denominator } =>
                ActionModel::SetTimeSignature {
                old_numerator: *old_numerator,
                old_denominator: *old_denominator,
                new_numerator: *new_numerator,
                new_denominator: *new_denominator,
            },
        }
    }
}

/// The action that reverses `a`.
///
/// Adding and removing a plugin reverse each other; a removal made from an
/// addition carries no cached parameters and no saved state. Every other
/// action swaps its old and new values.
pub open spec fn inverse_of(a: ActionModel) -> ActionModel {
    match a {
        ActionModel::SetParameter { slot_index, param_id, old_value, new_value, param_name } =>
            ActionModel::SetParameter { slot_index, param_id, old_value: new_value, new_value: old_value, param_name },
        ActionModel::AddPlugin { slot_index, name, vendor, category, path, cid } => ActionModel::RemovePlugin {
            slot_index,
            name,
            vendor,
            category,
            path,
            cid,
            param_cache: Seq::empty(),
            component_state: None,
            controller_state: None,
        },
        ActionModel::RemovePlugin { slot_index, name, vendor, category, path, cid, .. } =>
            ActionModel::AddPlugin { slot_index, name, vendor, category, path, cid },
        ActionModel::ReorderPlugin { old_index, new_index } =>
            ActionModel::ReorderPlugin { old_index: new_index, new_index: old_index },
        ActionModel::LoadPreset {
            slot_index,
            preset_path,
            preset_name,
            old_component_state,
            old_controller_state,
            new_component_state,
            new_controller_state,
        } => ActionModel::LoadPreset {
            slot_index,
            preset_path,
            preset_name,
            old_component_state: new_component_state,
            old_controller_state: new_controller_state,
            new_component_state: old_component_state,
            new_controller_state: old_controller_state,
        },
        ActionModel::SetTempo { old_bpm, new_bpm } => ActionModel::SetTempo { old_bpm: new_bpm, new_bpm: old_bpm },
        ActionModel::SetTimeSignature { old_numerator, old_denominator, new_numerator, new_denominator } =>
            ActionModel::SetTimeSignature {
            old_numerator: new_numerator,
            old_denominator: new_denominator,
            new_numerator: old_numerator,
            new_denominator: old_denominator,
        },
    }
}

/// Whether `a` carries nothing that its inverse drops: anything but a
/// removal, or a removal without cached parameters or saved state.
pub open spec fn fully_reversible(a: ActionModel) -> bool {
    match a {
        ActionModel::RemovePlugin { param_cache, component_state, controller_state, .. } =>
            param_cache.len() == 0 && component_state is None && controller_state is None,
        _ => true,
    }
}

/// Reversing an action twice gives the action back, for every action whose
/// inverse drops nothing.
pub proof fn lemma_inverse_involutive(a: ActionModel)
    requires
        fully_reversible(a),
    ensures
        inverse_of(inverse_of(a)) == a,
{
    match a {
        ActionModel::RemovePlugin { param_cache, .. } => {
            assert(param_cache =~= Seq::<ParamModel>::empty());
        },
        _ => {},
    }
}

/// The text shown for `a` in the history. `value_text` is the decimal
/// rendering of the value the action sets (see `displayed_value`).
pub open spec fn description_text(a: ActionModel, value_text: Seq<char>) -> Seq<char> {
    match a {
        ActionModel::SetParameter { param_name, .. } => "Set "@ + param_name + " → "@ + value_text,
        ActionModel::AddPlugin { name, .. } => "Add '"@ + name + "'"@,
        ActionModel::RemovePlugin { name, .. } => "Remove '"@ + name + "'"@,
        ActionModel::ReorderPlugin { old_index, new_index } =>
            "Move slot "@ + decimal(old_index as nat) + " → "@ + decimal(new_index as nat),
        ActionModel::LoadPreset { preset_name, .. } => "Load preset '"@ + preset_name + "'"@,
        ActionModel::SetTempo { .. } => "Set tempo → "@ + value_text + " BPM"@,
        ActionModel::SetTimeSignature { new_numerator, new_denominator, .. } =>
            "Set time sig → "@ + decimal(new_numerator as nat) + "/"@ + decimal(new_denominator as nat),
    }
}

impl Clone for UndoableAction {
    fn clone(&self) -> (r: Self)
        ensures
            r@ == self@,
    {
        match self {
            UndoableAction::SetParameter { slot_index, param_id, old_value, new_value, param_name } =>
                UndoableAction::SetParameter {
                slot_index: *slot_index,
                param_id: *param_id,
                old_value: *old_value,
                new_value: *new_value,
                param_name: param_name.clone(),
            },
            UndoableAction::AddPlugin { slot_index, name, vendor, category, path, cid } =>
                UndoableAction::AddPlugin {
                slot_index: *slot_index,
                name: name.clone(),
                vendor: vendor.clone(),
                category: category.clone(),
                path: path.clone(),
                cid: *cid,
            },
            UndoableAction::RemovePlugin {
                slot_index,
                name,
                vendor,
                category,
                path,
                cid,
                param_cache,
                component_state,
                controller_state,
            } => UndoableAction::RemovePlugin {
                slot_index: *slot_index,
                name: name.clone(),
                vendor: vendor.clone(),
                category: category.clone(),
                path: path.clone(),
                cid: *cid,
                param_cache: copy_params(param_cache),
                component_state: copy_opt_bytes(component_state),
                controller_state: copy_opt_bytes(controller_state),
            },
            UndoableAction::ReorderPlugin { old_index, new_index } =>
                UndoableAction::ReorderPlugin { old_index: *old_index, new_index: *new_index },
            UndoableAction::LoadPreset {
                slot_index,
                preset_path,
                preset_name,
                old_component_state,
                old_controller_state,
                new_component_state,
                new_controller_state,
            } => UndoableAction::LoadPreset {
                slot_index: *slot_index,
                preset_path: preset_path.clone(),
                preset_name: preset_name.clone(),
                old_component_state: copy_opt_bytes(old_component_state),
                old_controller_state: copy_opt_bytes(old_controller_state),
                new_component_state: copy_opt_bytes(new_component_state),
                new_controller_state: copy_opt_bytes(new_controller_state),
            },
            UndoableAction::SetTempo { old_bpm, new_bpm } =>
                UndoableAction::SetTempo { old_bpm: *old_bpm, new_bpm: *new_bpm },
            UndoableAction::SetTimeSignature { old_numerator, old_denominator, new_numerator, new_denominator } =>
                UndoableAction::SetTimeSignature {
                old_numerator: *old_numerator,
                old_denominator: *old_denominator,
                new_numerator: *new_numerator,
                new_denominator: *new_denominator,
            },
        }
    }
}

impl UndoableAction {
    /// Create the inverse action (for undo).
    pub fn inverse(&self) -> (r: Self)
        ensures
            r@ == inverse_of(self@),
    {
        match self {
            UndoableAction::SetParameter { slot_index, param_id, old_value, new_value, param_name } =>
                UndoableAction::SetParameter {
                slot_index: *slot_index,
                param_id: *param_id,
                old_value: *new_value,
                new_value: *old_value,
                param_name: param_name.clone(),
            },
            UndoableAction::AddPlugin { slot_index, name, vendor, category, path, cid } => {
                let no_params: Vec<ParamSnapshot> = Vec::new();
                assert(params_view(no_params@) =~= Seq::<ParamModel>::empty());
                let r = UndoableAction::RemovePlugin {
                    slot_index: *slot_index,
                    name: name.clone(),
                    vendor: vendor.clone(),
                    category: category.clone(),
                    path: path.clone(),
                    cid: *cid,
                    param_cache: no_params,
                    component_state: None,
                    controller_state: None,
                };
                assert(r@ == inverse_of(self@));
                r
            },
            UndoableAction::RemovePlugin { slot_index, name, vendor, category, path, cid, .. } =>
                UndoableAction::AddPlugin {
                slot_index: *slot_index,
                name: name.clone(),
                vendor: vendor.clone(),
                category: category.clone(),
                path: path.clone(),
                cid: *cid,
            },
            UndoableAction::ReorderPlugin { old_index, new_index } =>
                UndoableAction::ReorderPlugin { old_index: *new_index, new_index: *old_index },
            UndoableAction::LoadPreset {
                slot_index,
                preset_path,
                preset_name,
                old_component_state,
                old_controller_state,
                new_component_state,
                new_controller_state,
            } => UndoableAction::LoadPreset {
                slot_index: *slot_index,
                preset_path: preset_path.clone(),
                preset_name: preset_name.clone(),
                old_component_state: copy_opt_bytes(new_component_state),
                old_controller_state: copy_opt_bytes(new_controller_state),
                new_component_state: copy_opt_bytes(old_component_state),
                new_controller_state: copy_opt_bytes(old_controller_state),
            },
            UndoableAction::SetTempo { old_bpm, new_bpm } =>
                UndoableAction::SetTempo { old_bpm: *new_bpm, new_bpm: *old_bpm },
            UndoableAction::SetTimeSignature { old_numerator, old_denominator, new_numerator, new_denominator } =>
                UndoableAction::SetTimeSignature {
                old_numerator: *new_numerator,
                old_denominator: *new_denominator,
                new_numerator: *old_numerator,
                new_denominator: *old_denominator,
            },
        }
    }

    /// The real number the description shows and its number of decimals:
    /// the new value of a parameter change (3 decimals) or the new tempo
    /// (1 decimal); `None` for the other actions.
    pub fn displayed_value(&self) -> (r: Option<(u64, usize)>)
        ensures
            match self@ {
                ActionModel::SetParameter { new_value, .. } => r == Some((new_value, 3usize)),
                ActionModel::SetTempo { new_bpm, .. } => r == Some((new_bpm, 1usize)),
                _ => r is None,
            },
    {
        match self {
            UndoableAction::SetParameter { new_value, .. } => Some((*new_value, 3)),
            UndoableAction::SetTempo { new_bpm, .. } => Some((*new_bpm, 1)),
            _ => None,
        }
    }

    /// Human-readable description for display in the undo history, given the
    /// rendering `value_text` of the value from `displayed_value` (ignored by
    /// actions without one).
    pub fn description(&self, value_text: &str) -> (s: String)
        ensures
            s@ == description_text(self@, value_text@),
    {
        let mut s = String::new();
        match self {
            UndoableAction::SetParameter { param_name, .. } => {
                push_str(&mut s, "Set ");
                push_str(&mut s, param_name.as_str());
                push_str(&mut s, " → ");
                push_str(&mut s, value_text);
            },
            UndoableAction::AddPlugin { name, .. } => {
                push_str(&mut s, "Add '");
                push_str(&mut s, name.as_str());
                push_str(&mut s, "'");
            },
            UndoableAction::RemovePlugin { name, .. } => {
                push_str(&mut s, "Remove '");
                push_str(&mut s, name.as_str());
                push_str(&mut s, "'");
            },
            UndoableAction::ReorderPlugin { old_index, new_index } => {
                push_str(&mut s, "Move slot ");
                push_decimal(&mut s, *old_index as u64);
                push_str(&mut s, " → ");
                push_decimal(&mut s, *new_index as u64);
            },
            UndoableAction::LoadPreset { preset_name, .. } => {
                push_str(&mut s, "Load preset '");
                push_str(&mut s, preset_name.as_str());
                push_str(&mut s, "'");
            },
            UndoableAction::SetTempo { .. } => {
                push_str(&mut s, "Set tempo → ");
                push_str(&mut s, value_text);
                push_str(&mut s, " BPM");
            },
            UndoableAction::SetTimeSignature { new_numerator, new_denominator, .. } => {
                push_str(&mut s, "Set time sig → ");
                push_decimal(&mut s, *new_numerator as u64);
                push_str(&mut s, "/");
                push_decimal(&mut s, *new_denominator as u64);
            },
        }
        s
    }
}


/// Whether `a`, recorded `elapsed_ms` after `last`, merges into `last`:
/// both change the same parameter of the same slot, within the window.
pub open spec fn coalesces_with(last: ActionModel, a: ActionModel, elapsed_ms: u64, window_ms: u64) -> bool {
    match (last, a) {
        (
            ActionModel::SetParameter { slot_index: s1, param_id: p1, .. },
            ActionModel::SetParameter { slot_index: s2, param_id: p2, .. },
        ) => s1 == s2 && p1 == p2 && elapsed_ms <= window_ms,
        _ => false,
    }
}

/// The entry that replaces `last` when `a` merges into it: the value from
/// before `last`, everything else from `a`.
pub open spec fn merged(last: ActionModel, a: ActionModel) -> ActionModel {
    match (last, a) {
        (
            ActionModel::SetParameter { old_value, .. },
            ActionModel::SetParameter { slot_index, param_id, new_value, param_name, .. },
        ) => ActionModel::SetParameter { slot_index, param_id, old_value, new_value, param_name },
        _ => a,
    }
}

/// The contents of an `UndoStack`: the undoable and redoable actions (most
/// recent last) and the settings.
pub struct HistoryModel {
    pub undo: Seq<ActionModel>,
    pub redo: Seq<ActionModel>,
    pub max_depth: nat,
    pub coalesce_window_ms: u64,
}

/// The history after recording `a`, `elapsed_ms` after the most recent
/// entry: merged into that entry, or appended with the oldest entry evicted
/// beyond the maximum depth. Either way nothing is left to redo.
pub open spec fn recorded(h: HistoryModel, a: ActionModel, elapsed_ms: u64) -> HistoryModel {
    if h.undo.len() > 0 && coalesces_with(h.undo.last(), a, elapsed_ms, h.coalesce_window_ms) {
        HistoryModel {
            undo: h.undo.update(h.undo.len() - 1, merged(h.undo.last(), a)),
            redo: Seq::empty(),
            max_depth: h.max_depth,
            coalesce_window_ms: h.coalesce_window_ms,
        }
    } else {
        let pushed = h.undo.push(a);
        HistoryModel {
            undo: if pushed.len() > h.max_depth { pushed.drop_first() } else { pushed },
            redo: Seq::empty(),
            max_depth: h.max_depth,
            coalesce_window_ms: h.coalesce_window_ms,
        }
    }
}

/// The history after an undo: the most recent action moves to the redo side.
pub open spec fn undone(h: HistoryModel) -> HistoryModel {
    if h.undo.len() == 0 {
        h
    } else {
        HistoryModel {
            undo: h.undo.drop_last(),
            redo: h.redo.push(h.undo.last()),
            max_depth: h.max_depth,
            coalesce_window_ms: h.coalesce_window_ms,
        }
    }
}

/// The history after a redo: the most recently undone action moves back.
pub open spec fn redone(h: HistoryModel) -> HistoryModel {
    if h.redo.len() == 0 {
        h
    } else {
        HistoryModel {
            undo: h.undo.push(h.redo.last()),
            redo: h.redo.drop_last(),
            max_depth: h.max_depth,
            coalesce_window_ms: h.coalesce_window_ms,
        }
    }
}

/// Redoing right after an undo restores the history.
pub proof fn lemma_redo_undoes_undo(h: HistoryModel)
    requires
        h.undo.len() > 0,
    ensures
        redone(undone(h)) == h,
{
    assert(redone(undone(h)).undo =~= h.undo);
    assert(redone(undone(h)).redo =~= h.redo);
}

/// Undoing right after a redo restores the history.
pub proof fn lemma_undo_undoes_redo(h: HistoryModel)
    requires
        h.redo.len() > 0,
    ensures
        undone(redone(h)) == h,
{
    assert(undone(redone(h)).undo =~= h.undo);
    assert(undone(redone(h)).redo =~= h.redo);
}

/// Undo and redo only move actions between the two sides: none is lost or
/// made up, so the history never outgrows its depth through them.
pub proof fn lemma_undo_redo_keep_actions(h: HistoryModel)
    ensures
        undone(h).undo.len() + undone(h).redo.len() == h.undo.len() + h.redo.len(),
        redone(h).undo.len() + redone(h).redo.len() == h.undo.len() + h.redo.len(),
        h.undo.len() > 0 ==> undone(h).undo + seq![undone(h).redo.last()] == h.undo,
        h.redo.len() > 0 ==> redone(h).undo.last() == h.redo.last(),
{
    if h.undo.len() > 0 {
        assert(undone(h).undo + seq![undone(h).redo.last()] =~= h.undo);
    }
}

/// Recording an action clears the redo side, leaves that action (or its
/// merge into the previous one) as the next to undo, and never lets the
/// history grow past its maximum depth.
pub proof fn lemma_record(h: HistoryModel, a: ActionModel, elapsed_ms: u64)
    requires
        1 <= h.max_depth,
        h.undo.len() <= h.max_depth,
    ensures
        recorded(h, a, elapsed_ms).redo.len() == 0,
        recorded(h, a, elapsed_ms).undo.len() <= h.max_depth,
        recorded(h, a, elapsed_ms).undo.len() > 0,
        recorded(h, a, elapsed_ms).undo.last() == (if h.undo.len() > 0 && coalesces_with(
            h.undo.last(),
            a,
            elapsed_ms,
            h.coalesce_window_ms,
        ) {
            merged(h.undo.last(), a)
        } else {
            a
        }),
{
}

struct UndoEntry {
    action: UndoableAction,
    timestamp: std::time::Instant,
}

spec fn entries_view(v: Seq<UndoEntry>) -> Seq<ActionModel> {
    v.map_values(|e: UndoEntry| e.action@)
}

/// The undo/redo history.
///
/// Holds a linear history of undoable actions, at most `max_depth` of them;
/// the oldest is dropped when a new one would exceed it.
pub struct UndoStack {
    undo_stack: Vec<UndoEntry>,
    redo_stack: Vec<UndoEntry>,
    max_depth: usize,
    coalesce_window_ms: u64,
}

impl View for UndoStack {
    type V = HistoryModel;

    closed spec fn view(&self) -> HistoryModel {
        HistoryModel {
            undo: entries_view(self.undo_stack@),
            redo: entries_view(self.redo_stack@),
            max_depth: self.max_depth as nat,
            coalesce_window_ms: self.coalesce_window_ms,
        }
    }
}

fn can_coalesce(last: &UndoableAction, a: &UndoableAction, elapsed_ms: u64, window_ms: u64) -> (b: bool)
    ensures
        b == coalesces_with(last@, a@, elapsed_ms, window_ms),
{
    match (last, a) {
        (
            UndoableAction::SetParameter { slot_index: s1, param_id: p1, .. },
            UndoableAction::SetParameter { slot_index: s2, param_id: p2, .. },
        ) => *s1 == *s2 && *p1 == *p2 && elapsed_ms <= window_ms,
        _ => false,
    }
}

fn merge(last: UndoableAction, a: UndoableAction) -> (m: UndoableAction)
    ensures
        m@ == merged(last@, a@),
{
    match (last, a) {
        (
            UndoableAction::SetParameter { old_value, .. },
            UndoableAction::SetParameter { slot_index, param_id, new_value, param_name, .. },
        ) => UndoableAction::SetParameter { slot_index, param_id, old_value, new_value, param_name },
        (_, a) => a,
    }
}

impl UndoStack {
    #[verifier::type_invariant]
    spec fn bounded(self) -> bool {
        &&& 1 <= self.max_depth
        &&& self.undo_stack@.len() + self.redo_stack@.len() <= self.max_depth
    }

    /// Every history keeps at least one entry of depth and never holds
    /// more actions, undoable and redoable together, than its depth.
    pub closed spec fn well_formed(self) -> bool {
        self.bounded()
    }

    /// Create a new empty history with default settings.
    pub fn new() -> (s: Self)
        ensures
            s@.undo.len() == 0,
            s@.redo.len() == 0,
            s@.max_depth == DEFAULT_MAX_DEPTH,
            s@.coalesce_window_ms == DEFAULT_COALESCE_MS,
    {
        Self::with_config(DEFAULT_MAX_DEPTH, DEFAULT_COALESCE_MS)
    }

    /// Create a history with the given maximum depth (at least 1) and
    /// coalescing window.
    pub fn with_config(max_depth: usize, coalesce_window_ms: u64) -> (s: Self)
        ensures
            s@.undo.len() == 0,
            s@.redo.len() == 0,
            s@.max_depth == (if max_depth < 1 { 1 } else { max_depth }),
            s@.coalesce_window_ms == coalesce_window_ms,
    {
        let depth = if max_depth < 1 { 1 } else { max_depth };
        let s = UndoStack { undo_stack: Vec::new(), redo_stack: Vec::new(), max_depth: depth, coalesce_window_ms };
        assert(entries_view(s.undo_stack@) =~= Seq::<ActionModel>::empty());
        assert(entries_view(s.redo_stack@) =~= Seq::<ActionModel>::empty());
        s
    }

    /// When the most recent undoable entry was recorded or last merged
    /// into; none when there is nothing to undo.
    pub closed spec fn spec_newest_timestamp(self) -> Option<std::time::Instant> {
        if self.undo_stack@.len() == 0 {
            None
        } else {
            Some(self.undo_stack@.last().timestamp)
        }
    }

    /// Record `action`, taken `elapsed_ms` after the most recent entry was
    /// recorded, at time `now`. The entry that holds it (new or merged) is
    /// stamped `now`, so the next coalescing window counts from this call.
    pub fn record(&mut self, action: UndoableAction, now: std::time::Instant, elapsed_ms: u64)
        ensures
            final(self)@ == recorded(old(self)@, action@, elapsed_ms),
            final(self).spec_newest_timestamp() == Some(now),
    {
        proof {
            use_type_invariant(&*self);
        }
        let ghost h = self@;
        let mut undo: Vec<UndoEntry> = Vec::new();
        std::mem::swap(&mut undo, &mut self.undo_stack);
        self.redo_stack = Vec::new();
        let n = undo.len();
        if n > 0 && can_coalesce(&undo[n - 1].action, &action, elapsed_ms, self.coalesce_window_ms) {
            let last = undo.pop();
            match last {
                Some(entry) => {
                    let m = merge(entry.action, action);
                    undo.push(UndoEntry { action: m, timestamp: now });
                },
                None => {},
            }
            assert(entries_view(undo@) =~= h.undo.update(h.undo.len() - 1, merged(h.undo.last(), action@)));
        } else {
            let ghost a = action@;
            undo.push(UndoEntry { action, timestamp: now });
            assert(entries_view(undo@) =~= h.undo.push(a));
            if undo.len() > self.max_depth {
                let _ = undo.remove(0);
                assert(entries_view(undo@) =~= h.undo.push(a).drop_first());
            }
        }
        self.undo_stack = undo;
        assert(entries_view(self.redo_stack@) =~= Seq::<ActionModel>::empty());
    }

    /// Record a new action at the current time.
    ///
    /// A parameter change merges into the most recent entry when that entry
    /// changed the same parameter of the same slot within the coalescing
    /// window. Whatever could be redone is dropped.
    pub fn push(&mut self, action: UndoableAction)
        ensures
            exists|elapsed_ms: u64| final(self)@ == recorded(old(self)@, action@, elapsed_ms),
    {
        let now = clock_now();
        let n = self.undo_stack.len();
        let elapsed = if n > 0 {
            millis_between(&now, &self.undo_stack[n - 1].timestamp)
        } else {
            0
        };
        self.record(action, now, elapsed);
    }

    /// Move the most recent action to the redo side and return it.
    ///
    /// The caller applies the action's inverse to the host state.
    pub fn undo(&mut self) -> (r: Option<UndoableAction>)
        ensures
            final(self)@ == undone(old(self)@),
            old(self)@.undo.len() == 0 ==> r is None,
            old(self)@.undo.len() > 0 ==> (r matches Some(a) && a@ == old(self)@.undo.last()),
    {
        proof {
            use_type_invariant(&*self);
        }
        let ghost h = self@;
        let mut undo: Vec<UndoEntry> = Vec::new();
        std::mem::swap(&mut undo, &mut self.undo_stack);
        match undo.pop() {
            Some(entry) => {
                let action = entry.action.clone();
                let mut redo: Vec<UndoEntry> = Vec::new();
                std::mem::swap(&mut redo, &mut self.redo_stack);
                redo.push(entry);
                assert(entries_view(redo@) =~= h.redo.push(h.undo.last()));
                assert(entries_view(undo@) =~= h.undo.drop_last());
                self.redo_stack = redo;
                self.undo_stack = undo;
                Some(action)
            },
            None => {
                self.undo_stack = undo;
                None
            },
        }
    }

    /// Move the most recently undone action back and return it.
    ///
    /// The caller re-applies the action to the host state.
    pub fn redo(&mut self) -> (r: Option<UndoableAction>)
        ensures
            final(self)@ == redone(old(self)@),
            old(self)@.redo.len() == 0 ==> r is None,
            old(self)@.redo.len() > 0 ==> (r matches Some(a) && a@ == old(self)@.redo.last()),
    {
        proof {
            use_type_invariant(&*self);
        }
        let ghost h = self@;
        let mut redo: Vec<UndoEntry> = Vec::new();
        std::mem::swap(&mut redo, &mut self.redo_stack);
        match redo.pop() {
            Some(entry) => {
                let action = entry.action.clone();
                let mut undo: Vec<UndoEntry> = Vec::new();
                std::mem::swap(&mut undo, &mut self.undo_stack);
                undo.push(entry);
                assert(entries_view(undo@) =~= h.undo.push(h.redo.last()));
                assert(entries_view(redo@) =~= h.redo.drop_last());
                self.undo_stack = undo;
                self.redo_stack = redo;
                Some(action)
            },
            None => {
                self.redo_stack = redo;
                None
            },
        }
    }

    /// Whether there are actions available to undo.
    pub fn can_undo(&self) -> (b: bool)
        ensures
            b == (self@.undo.len() > 0),
    {
        self.undo_stack.len() > 0
    }

    /// Whether there are actions available to redo.
    pub fn can_redo(&self) -> (b: bool)
        ensures
            b == (self@.redo.len() > 0),
    {
        self.redo_stack.len() > 0
    }

    /// The number of undoable actions.
    pub fn undo_count(&self) -> (n: usize)
        ensures
            n == self@.undo.len(),
    {
        self.undo_stack.len()
    }

    /// The number of redoable actions.
    pub fn redo_count(&self) -> (n: usize)
        ensures
            n == self@.redo.len(),
    {
        self.redo_stack.len()
    }

    /// The next action to undo, if any.
    pub fn next_undo(&self) -> (r: Option<&UndoableAction>)
        ensures
            self@.undo.len() == 0 ==> r is None,
            self@.undo.len() > 0 ==> (r matches Some(a) && a@ == self@.undo.last()),
    {
        let n = self.undo_stack.len();
        if n == 0 {
            None
        } else {
            Some(&self.undo_stack[n - 1].action)
        }
    }

    /// The next action to redo, if any.
    pub fn next_redo(&self) -> (r: Option<&UndoableAction>)
        ensures
            self@.redo.len() == 0 ==> r is None,
            self@.redo.len() > 0 ==> (r matches Some(a) && a@ == self@.redo.last()),
    {
        let n = self.redo_stack.len();
        if n == 0 {
            None
        } else {
            Some(&self.redo_stack[n - 1].action)
        }
    }

    /// The `n` most recent undoable actions, newest first.
    pub fn recent_undo(&self, n: usize) -> (r: Vec<UndoableAction>)
        ensures
            r@.len() == (if n < self@.undo.len() { n as int } else { self@.undo.len() as int }),
            forall|i: int| 0 <= i < r@.len() ==> #[trigger] r@[i]@ == self@.undo[self@.undo.len() - 1 - i],
    {
        let len = self.undo_stack.len();
        let count = if n < len { n } else { len };
        let mut r: Vec<UndoableAction> = Vec::new();
        let mut i: usize = 0;
        while i < count
            invariant
                len == self.undo_stack@.len(),
                count <= len,
                i <= count,
                r@.len() == i,
                forall|k: int| 0 <= k < i ==> #[trigger] r@[k]@ == entries_view(self.undo_stack@)[len - 1 - k],
            decreases count - i,
        {
            r.push(self.undo_stack[len - 1 - i].action.clone());
            i = i + 1;
        }
        r
    }

    /// Clear all undo/redo history.
    pub fn clear(&mut self)
        ensures
            final(self)@.undo.len() == 0,
            final(self)@.redo.len() == 0,
            final(self)@.max_depth == old(self)@.max_depth,
            final(self)@.coalesce_window_ms == old(self)@.coalesce_window_ms,
    {
        proof {
            use_type_invariant(&*self);
        }
        self.undo_stack = Vec::new();
        self.redo_stack = Vec::new();
        assert(entries_view(self.undo_stack@) =~= Seq::<ActionModel>::empty());
        assert(entries_view(self.redo_stack@) =~= Seq::<ActionModel>::empty());
    }

    /// Get the maximum depth.
    pub fn max_depth(&self) -> (d: usize)
        ensures
            d == self@.max_depth,
    {
        self.max_depth
    }

    /// Every history is well formed.
    pub fn check_well_formed(&self)
        ensures
            self.well_formed(),
            1 <= self@.max_depth,
            self@.undo.len() + self@.redo.len() <= self@.max_depth,
    {
        proof {
            use_type_invariant(self);
        }
    }
}

impl Default for UndoStack {
    fn default() -> (s: Self)
        ensures
            s@.undo.len() == 0,
            s@.redo.len() == 0,
            s@.max_depth == DEFAULT_MAX_DEPTH,
            s@.coalesce_window_ms == DEFAULT_COALESCE_MS,
    {
        Self::new()
    }
}

} // verus!
