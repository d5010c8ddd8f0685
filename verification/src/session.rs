//! Session snapshots: the transport settings, the rack and the selected
//! devices, captured from and restored into the host state.
use vstd::prelude::*;
use crate::rack::{params_view, rack_view, ParamModel, ParamSnapshot, PluginSlot, SlotModel, TransportState};

verus! {

/// Session file format version.
pub const SESSION_VERSION: &'static str = "1.0";

/// Transport settings stored in a session.
#[derive(Debug, Clone, Copy)]
pub struct TransportSnapshot {
    /// Tempo in BPM (bit pattern).
    pub tempo: u64,
    /// Time signature numerator.
    pub time_sig_num: u32,
    /// Time signature denominator.
    pub time_sig_den: u32,
}

/// A rack slot stored in a session.
pub struct SlotSnapshot {
    /// Plugin display name.
    pub name: String,
    /// Plugin vendor.
    pub vendor: String,
    /// Plugin category.
    pub category: String,
    /// Path to the .vst3 bundle.
    pub path: String,
    /// Class ID for instantiation.
    pub cid: [u8; 16],
    /// Whether the slot is bypassed.
    pub bypassed: bool,
}

/// The contents of a `SlotSnapshot`.
pub struct SnapModel {
    pub name: Seq<char>,
    pub vendor: Seq<char>,
    pub category: Seq<char>,
    pub path: Seq<char>,
    pub cid: Seq<u8>,
    pub bypassed: bool,
}

impl View for SlotSnapshot {
    type V = SnapModel;

    open spec fn view(&self) -> SnapModel {
        SnapModel {
            name: self.name@,
            vendor: self.vendor@,
            category: self.category@,
            path: self.path@,
            cid: self.cid@,
            bypassed: self.bypassed,
        }
    }
}

/// A session: the full host setup that can be saved and restored.
pub struct Session {
    /// File format version.
    pub version: String,
    /// Transport state snapshot.
    pub transport: TransportSnapshot,
    /// Plugin rack slots.
    pub rack: Vec<SlotSnapshot>,
    /// Selected audio output device name.
    pub audio_device: Option<String>,
    /// Selected MIDI input port name.
    pub midi_port: Option<String>,
}

/// The text of an optional string.
pub open spec fn opt_text(s: Option<String>) -> Option<Seq<char>> {
    match s {
        Some(t) => Some(t@),
        None => None,
    }
}

/// The contents of a stored rack.
pub open spec fn snaps_view(v: Seq<SlotSnapshot>) -> Seq<SnapModel> {
    v.map_values(|s: SlotSnapshot| s@)
}

/// What a session stores of a rack slot.
pub open spec fn captured_slot(s: SlotModel) -> SnapModel {
    SnapModel { name: s.name, vendor: s.vendor, category: s.category, path: s.path, cid: s.cid, bypassed: s.bypassed }
}

/// The rack slot a stored slot restores to: no cached parameters and no
/// staged changes.
pub open spec fn restored_slot(s: SnapModel) -> SlotModel {
    SlotModel {
        name: s.name,
        vendor: s.vendor,
        category: s.category,
        path: s.path,
        cid: s.cid,
        bypassed: s.bypassed,
        param_cache: Seq::empty(),
        staged_changes: Seq::empty(),
    }
}

/// Restoring what was captured gives back the rack, but for what a session
/// does not store (cached parameters, staged changes), and the transport
/// settings, stopped.
pub proof fn lemma_restore_captured(t: TransportState, rack: Seq<SlotModel>)
    ensures
        rack.map_values(|s: SlotModel| restored_slot(captured_slot(s))) == rack.map_values(
            |s: SlotModel|
                SlotModel { param_cache: Seq::<ParamModel>::empty(), staged_changes: Seq::<(u32, u64)>::empty(), ..s },
        ),
        ({
            let snap = TransportSnapshot { tempo: t.tempo, time_sig_num: t.time_sig_num, time_sig_den: t.time_sig_den };
            TransportState { playing: false, tempo: snap.tempo, time_sig_num: snap.time_sig_num, time_sig_den: snap.time_sig_den }
                == TransportState { playing: false, ..t }
        }),
{
    assert(rack.map_values(|s: SlotModel| restored_slot(captured_slot(s))) =~= rack.map_values(
        |s: SlotModel| SlotModel { param_cache: Seq::<ParamModel>::empty(), staged_changes: Seq::<(u32, u64)>::empty(), ..s },
    ));
}

/// A stored slot keeps each field of the rack slot it was taken from under
/// the same name, and restoring it puts each back under the same name.
pub proof fn lemma_snapshot_fields(slot: SlotModel, snap: SnapModel)
    ensures
        captured_slot(slot).name == slot.name,
        captured_slot(slot).vendor == slot.vendor,
        captured_slot(slot).category == slot.category,
        captured_slot(slot).path == slot.path,
        captured_slot(slot).cid == slot.cid,
        captured_slot(slot).bypassed == slot.bypassed,
        restored_slot(snap).name == snap.name,
        restored_slot(snap).vendor == snap.vendor,
        restored_slot(snap).category == snap.category,
        restored_slot(snap).path == snap.path,
        restored_slot(snap).cid == snap.cid,
        restored_slot(snap).bypassed == snap.bypassed,
        restored_slot(snap).param_cache.len() == 0,
        restored_slot(snap).staged_changes.len() == 0,
{
}

fn copy_opt_string(s: &Option<String>) -> (r: Option<String>)
    ensures
        opt_text(r) == opt_text(*s),
{
    match s {
        Some(t) => Some(t.clone()),
        None => None,
    }
}

impl Session {
    /// Create a session from current host state.
    pub fn capture(
        transport: &TransportState,
        rack: &[PluginSlot],
        audio_device: Option<String>,
        midi_port: Option<String>,
    ) -> (s: Session)
        ensures
            s.version@ == SESSION_VERSION@,
            s.transport.tempo == transport.tempo,
            s.transport.time_sig_num == transport.time_sig_num,
            s.transport.time_sig_den == transport.time_sig_den,
            snaps_view(s.rack@) == rack_view(rack@).map_values(|slot: SlotModel| captured_slot(slot)),
            s.rack@.len() == rack@.len(),
            forall|i: int|
                0 <= i < rack@.len() ==> {
                    &&& (#[trigger] s.rack@[i]).name@ == rack@[i].name@
                    &&& s.rack@[i].vendor@ == rack@[i].vendor@
                    &&& s.rack@[i].category@ == rack@[i].category@
                    &&& s.rack@[i].path@ == rack@[i].path@
                    &&& s.rack@[i].cid@ == rack@[i].cid@
                    &&& s.rack@[i].bypassed == rack@[i].bypassed
                },
            opt_text(s.audio_device) == opt_text(audio_device),
            opt_text(s.midi_port) == opt_text(midi_port),
    {
        let mut snaps: Vec<SlotSnapshot> = Vec::new();
        let mut i: usize = 0;
        while i < rack.len()
            invariant
                i <= rack@.len(),
                snaps@.len() == i,
                forall|k: int| 0 <= k < i ==> #[trigger] snaps@[k]@ == captured_slot(rack@[k]@),
            decreases rack@.len() - i,
        {
            let slot = &rack[i];
            snaps.push(
                SlotSnapshot {
                    name: slot.name.clone(),
                    vendor: slot.vendor.clone(),
                    category: slot.category.clone(),
                    path: slot.path.clone(),
                    cid: slot.cid,
                    bypassed: slot.bypassed,
                },
            );
            i = i + 1;
        }
        assert(snaps_view(snaps@) =~= rack_view(rack@).map_values(|slot: SlotModel| captured_slot(slot)));
        assert forall|k: int| 0 <= k < rack@.len() implies {
            &&& (#[trigger] snaps@[k]).name@ == rack@[k].name@
            &&& snaps@[k].vendor@ == rack@[k].vendor@
            &&& snaps@[k].category@ == rack@[k].category@
            &&& snaps@[k].path@ == rack@[k].path@
            &&& snaps@[k].cid@ == rack@[k].cid@
            &&& snaps@[k].bypassed == rack@[k].bypassed
        } by {
            assert(snaps@[k]@ == captured_slot(rack@[k]@));
        }
        Session {
            version: SESSION_VERSION.to_owned(),
            transport: TransportSnapshot {
                tempo: transport.tempo,
                time_sig_num: transport.time_sig_num,
                time_sig_den: transport.time_sig_den,
            },
            rack: snaps,
            audio_device,
            midi_port,
        }
    }

    /// Restore transport and rack state from this session. The transport is
    /// stopped; restored slots have no cached parameters or staged changes.
    pub fn restore(&self) -> (r: (TransportState, Vec<PluginSlot>))
        ensures
            !r.0.playing,
            r.0.tempo == self.transport.tempo,
            r.0.time_sig_num == self.transport.time_sig_num,
            r.0.time_sig_den == self.transport.time_sig_den,
            rack_view(r.1@) == snaps_view(self.rack@).map_values(|snap: SnapModel| restored_slot(snap)),
            r.1@.len() == self.rack@.len(),
            forall|i: int|
                0 <= i < self.rack@.len() ==> {
                    &&& (#[trigger] r.1@[i]).name@ == self.rack@[i].name@
                    &&& r.1@[i].vendor@ == self.rack@[i].vendor@
                    &&& r.1@[i].category@ == self.rack@[i].category@
                    &&& r.1@[i].path@ == self.rack@[i].path@
                    &&& r.1@[i].cid@ == self.rack@[i].cid@
                    &&& r.1@[i].bypassed == self.rack@[i].bypassed
                    &&& r.1@[i].param_cache@.len() == 0
                    &&& r.1@[i].staged_changes@.len() == 0
                },
    {
        let transport = TransportState {
            playing: false,
            tempo: self.transport.tempo,
            time_sig_num: self.transport.time_sig_num,
            time_sig_den: self.transport.time_sig_den,
        };
        let mut rack: Vec<PluginSlot> = Vec::new();
        let mut i: usize = 0;
        while i < self.rack.len()
            invariant
                i <= self.rack@.len(),
                rack@.len() == i,
                forall|k: int| 0 <= k < i ==> #[trigger] rack@[k]@ == restored_slot(self.rack@[k]@),
            decreases self.rack@.len() - i,
        {
            let snap = &self.rack[i];
            let no_params: Vec<ParamSnapshot> = Vec::new();
            let no_changes: Vec<(u32, u64)> = Vec::new();
            assert(params_view(no_params@) =~= Seq::<ParamModel>::empty());
            rack.push(
                PluginSlot {
                    name: snap.name.clone(),
                    vendor: snap.vendor.clone(),
                    category: snap.category.clone(),
                    path: snap.path.clone(),
                    cid: snap.cid,
                    bypassed: snap.bypassed,
                    param_cache: no_params,
                    staged_changes: no_changes,
                },
            );
            i = i + 1;
        }
        assert(rack_view(rack@) =~= snaps_view(self.rack@).map_values(|snap: SnapModel| restored_slot(snap)));
        assert forall|k: int| 0 <= k < self.rack@.len() implies {
            &&& (#[trigger] rack@[k]).name@ == self.rack@[k].name@
            &&& rack@[k].vendor@ == self.rack@[k].vendor@
            &&& rack@[k].category@ == self.rack@[k].category@
            &&& rack@[k].path@ == self.rack@[k].path@
            &&& rack@[k].cid@ == self.rack@[k].cid@
            &&& rack@[k].bypassed == self.rack@[k].bypassed
            &&& rack@[k].param_cache@.len() == 0
            &&& rack@[k].staged_changes@.len() == 0
        } by {
            assert(rack@[k]@ == restored_slot(self.rack@[k]@));
            assert(params_view(rack@[k].param_cache@).len() == rack@[k].param_cache@.len());
        }
        (transport, rack)
    }

    /// A copy of this session.
    pub fn duplicate(&self) -> (r: Session)
        ensures
            r.version@ == self.version@,
            r.transport == self.transport,
            snaps_view(r.rack@) == snaps_view(self.rack@),
            opt_text(r.audio_device) == opt_text(self.audio_device),
            opt_text(r.midi_port) == opt_text(self.midi_port),
    {
        let mut rack: Vec<SlotSnapshot> = Vec::new();
        let mut i: usize = 0;
        while i < self.rack.len()
            invariant
                i <= self.rack@.len(),
                rack@.len() == i,
                forall|k: int| 0 <= k < i ==> #[trigger] rack@[k]@ == self.rack@[k]@,
            decreases self.rack@.len() - i,
        {
            let snap = &self.rack[i];
            rack.push(
                SlotSnapshot {
                    name: snap.name.clone(),
                    vendor: snap.vendor.clone(),
                    category: snap.category.clone(),
                    path: snap.path.clone(),
                    cid: snap.cid,
                    bypassed: snap.bypassed,
                },
            );
            i = i + 1;
        }
        assert(snaps_view(rack@) =~= snaps_view(self.rack@));
        Session {
            version: self.version.clone(),
            transport: self.transport,
            rack,
            audio_device: copy_opt_string(&self.audio_device),
            midi_port: copy_opt_string(&self.midi_port),
        }
    }
}

} // verus!
