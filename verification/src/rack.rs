//! Rack slots, parameter snapshots and transport settings shared by the
//! host state, the undo history and sessions.
//!
//! Real numbers (parameter values, tempo) are carried as the IEEE-754 bit
//! patterns of their 64-bit floating-point values: this crate stores and
//! compares them but never computes with them.
use vstd::prelude::*;

verus! {

/// Bit pattern of a tempo of 120 BPM.
pub const DEFAULT_TEMPO_BITS: u64 = 0x405E_0000_0000_0000;

/// The bit pattern `x` is a NaN: all exponent bits set and a non-zero
/// fraction.
pub open spec fn is_nan_bits(x: u64) -> bool {
    x & 0x7FF0_0000_0000_0000u64 == 0x7FF0_0000_0000_0000u64 && x & 0x000F_FFFF_FFFF_FFFFu64 != 0
}

/// The bit pattern `x` is a zero of either sign.
pub open spec fn is_zero_bits(x: u64) -> bool {
    x & 0x7FFF_FFFF_FFFF_FFFFu64 == 0
}

/// The real numbers with bit patterns `a` and `b` compare equal as 64-bit
/// floating-point values: neither is a NaN, and they have the same bits or
/// are both zeros.
pub open spec fn same_real(a: u64, b: u64) -> bool {
    !is_nan_bits(a) && !is_nan_bits(b) && (a == b || (is_zero_bits(a) && is_zero_bits(b)))
}

/// Whether the real numbers with bit patterns `a` and `b` compare equal as
/// 64-bit floating-point values (NaN equals nothing, and the two zeros are
/// equal).
pub fn reals_equal(a: u64, b: u64) -> (r: bool)
    ensures
        r == same_real(a, b),
{
    let a_nan = a & 0x7FF0_0000_0000_0000u64 == 0x7FF0_0000_0000_0000u64 && a & 0x000F_FFFF_FFFF_FFFFu64 != 0;
    let b_nan = b & 0x7FF0_0000_0000_0000u64 == 0x7FF0_0000_0000_0000u64 && b & 0x000F_FFFF_FFFF_FFFFu64 != 0;
    let a_zero = a & 0x7FFF_FFFF_FFFF_FFFFu64 == 0;
    let b_zero = b & 0x7FFF_FFFF_FFFF_FFFFu64 == 0;
    !a_nan && !b_nan && (a == b || (a_zero && b_zero))
}

/// A parameter snapshot for display.
#[derive(Debug)]
pub struct ParamSnapshot {
    /// Parameter ID.
    pub id: u32,
    /// Display title.
    pub title: String,
    /// Units label (e.g. "dB", "Hz").
    pub units: String,
    /// Current normalized value [0..1] (bit pattern).
    pub value: u64,
    /// Default normalized value [0..1] (bit pattern).
    pub default: u64,
    /// Display string for the current value.
    pub display: String,
    /// Whether the parameter can be automated.
    pub can_automate: bool,
    /// Whether the parameter is read-only.
    pub is_read_only: bool,
    /// Whether this is a bypass parameter.
    pub is_bypass: bool,
}

/// The contents of a `ParamSnapshot`.
pub struct ParamModel {
    pub id: u32,
    pub title: Seq<char>,
    pub units: Seq<char>,
    pub value: u64,
    pub default: u64,
    pub display: Seq<char>,
    pub can_automate: bool,
    pub is_read_only: bool,
    pub is_bypass: bool,
}

impl View for ParamSnapshot {
    type V = ParamModel;

    open spec fn view(&self) -> ParamModel {
        ParamModel {
            id: self.id,
            title: self.title@,
            units: self.units@,
            value: self.value,
            default: self.default,
            display: self.display@,
            can_automate: self.can_automate,
            is_read_only: self.is_read_only,
            is_bypass: self.is_bypass,
        }
    }
}

impl Clone for ParamSnapshot {
    fn clone(&self) -> (r: Self)
        ensures
            r@ == self@,
    {
        ParamSnapshot {
            id: self.id,
            title: self.title.clone(),
            units: self.units.clone(),
            value: self.value,
            default: self.default,
            display: self.display.clone(),
            can_automate: self.can_automate,
            is_read_only: self.is_read_only,
            is_bypass: self.is_bypass,
        }
    }
}

/// The contents of a list of snapshots.
pub open spec fn params_view(v: Seq<ParamSnapshot>) -> Seq<ParamModel> {
    v.map_values(|p: ParamSnapshot| p@)
}

/// A copy of a list of snapshots.
pub fn copy_params(v: &Vec<ParamSnapshot>) -> (r: Vec<ParamSnapshot>)
    ensures
        params_view(r@) == params_view(v@),
{
    let mut r: Vec<ParamSnapshot> = Vec::new();
    let mut i: usize = 0;
    while i < v.len()
        invariant
            i <= v@.len(),
            r@.len() == i,
            forall|k: int| 0 <= k < i ==> #[trigger] r@[k]@ == v@[k]@,
        decreases v@.len() - i,
    {
        r.push(v[i].clone());
        i = i + 1;
    }
    assert(params_view(r@) =~= params_view(v@));
    r
}

/// A copy of a byte string.
pub fn copy_bytes(v: &Vec<u8>) -> (r: Vec<u8>)
    ensures
        r@ == v@,
{
    let mut r: Vec<u8> = Vec::new();
    let mut i: usize = 0;
    while i < v.len()
        invariant
            i <= v@.len(),
            r@ == v@.take(i as int),
        decreases v@.len() - i,
    {
        r.push(v[i]);
        i = i + 1;
        assert(r@ =~= v@.take(i as int));
    }
    assert(v@.take(v@.len() as int) =~= v@);
    r
}

/// The contents of an optional byte string.
pub open spec fn opt_bytes(v: Option<Vec<u8>>) -> Option<Seq<u8>> {
    match v {
        Some(b) => Some(b@),
        None => None,
    }
}

/// A copy of an optional byte string.
pub fn copy_opt_bytes(v: &Option<Vec<u8>>) -> (r: Option<Vec<u8>>)
    ensures
        opt_bytes(r) == opt_bytes(*v),
{
    match v {
        Some(b) => Some(copy_bytes(b)),
        None => None,
    }
}

/// A copy of a list of `(parameter id, value bit pattern)` pairs.
pub fn copy_changes(v: &Vec<(u32, u64)>) -> (r: Vec<(u32, u64)>)
    ensures
        r@ == v@,
{
    let mut r: Vec<(u32, u64)> = Vec::new();
    let mut i: usize = 0;
    while i < v.len()
        invariant
            i <= v@.len(),
            r@ == v@.take(i as int),
        decreases v@.len() - i,
    {
        r.push(v[i]);
        i = i + 1;
        assert(r@ =~= v@.take(i as int));
    }
    assert(v@.take(v@.len() as int) =~= v@);
    r
}

/// The staged changes after `id` was staged with `value`: an entry for
/// `id` takes the new value (the first one, should there be several),
/// else the change is appended.
pub open spec fn staged_after(s: Seq<(u32, u64)>, id: u32, value: u64) -> Seq<(u32, u64)> {
    if exists|i: int| 0 <= i < s.len() && s[i].0 == id {
        Seq::new(
            s.len(),
            |i: int|
                if s[i].0 == id && (forall|j: int| 0 <= j < i ==> s[j].0 != id) {
                    (id, value)
                } else {
                    s[i]
                },
        )
    } else {
        s.push((id, value))
    }
}

/// The first index of `s` whose entry has id `id`, or `s.len()`.
fn find_staged(s: &Vec<(u32, u64)>, id: u32) -> (i: usize)
    ensures
        i <= s@.len(),
        i < s@.len() ==> s@[i as int].0 == id,
        forall|j: int| 0 <= j < i ==> s@[j].0 != id,
{
    let mut i: usize = 0;
    while i < s.len()
        invariant
            i <= s@.len(),
            forall|j: int| 0 <= j < i ==> s@[j].0 != id,
        decreases s@.len() - i,
    {
        if s[i].0 == id {
            return i;
        }
        i = i + 1;
    }
    i
}

/// Stage `value` for parameter `id`.
pub fn stage_change(s: &mut Vec<(u32, u64)>, id: u32, value: u64)
    ensures
        final(s)@ == staged_after(old(s)@, id, value),
{
    let i = find_staged(s, id);
    if i < s.len() {
        let ghost before = s@;
        s.set(i, (id, value));
        assert(s@ =~= staged_after(before, id, value));
    } else {
        s.push((id, value));
    }
}

/// No two staged changes are for the same parameter.
pub open spec fn ids_unique(s: Seq<(u32, u64)>) -> bool {
    forall|i: int, j: int| 0 <= i < j < s.len() ==> s[i].0 != s[j].0
}

/// Staging a parameter twice leaves what staging it once with the second
/// value leaves.
pub proof fn lemma_restaging_overwrites(s: Seq<(u32, u64)>, id: u32, first: u64, second: u64)
    ensures
        staged_after(staged_after(s, id, first), id, second) == staged_after(s, id, second),
{
    let once = staged_after(s, id, first);
    if exists|i: int| 0 <= i < s.len() && s[i].0 == id {
        let w = choose|i: int| 0 <= i < s.len() && s[i].0 == id;
        assert(once[w].0 == id);
        assert forall|k: int| 0 <= k < s.len() implies #[trigger] once[k].0 == s[k].0 by {}
        let twice = staged_after(once, id, second);
        let direct = staged_after(s, id, second);
        assert forall|k: int| 0 <= k < s.len() implies #[trigger] twice[k] == direct[k] by {
            assert((forall|j: int| 0 <= j < k ==> once[j].0 != id) == (forall|j: int| 0 <= j < k ==> s[j].0 != id)) by {
                if forall|j: int| 0 <= j < k ==> s[j].0 != id {
                    assert forall|j: int| 0 <= j < k implies once[j].0 != id by {
                        assert(once[j].0 == s[j].0);
                    }
                }
                if forall|j: int| 0 <= j < k ==> once[j].0 != id {
                    assert forall|j: int| 0 <= j < k implies s[j].0 != id by {
                        assert(once[j].0 == s[j].0);
                    }
                }
            }
        }
        assert(twice =~= direct);
    } else {
        assert(once[s.len() as int].0 == id);
        assert forall|i: int| 0 <= i < once.len() && once[i].0 == id implies i == s.len() by {}
        assert(staged_after(once, id, second) =~= staged_after(s, id, second));
    }
}

/// Staging keeps one change per parameter, and the staged parameter then
/// has exactly the staged value.
pub proof fn lemma_staging_keeps_one_change_per_parameter(s: Seq<(u32, u64)>, id: u32, value: u64)
    requires
        ids_unique(s),
    ensures
        ids_unique(staged_after(s, id, value)),
        exists|i: int| 0 <= i < staged_after(s, id, value).len() && staged_after(s, id, value)[i] == (id, value),
        forall|i: int|
            0 <= i < staged_after(s, id, value).len() && (#[trigger] staged_after(s, id, value)[i]).0 == id
                ==> staged_after(s, id, value)[i].1 == value,
{
    let t = staged_after(s, id, value);
    if exists|i: int| 0 <= i < s.len() && s[i].0 == id {
        let w = choose|i: int| 0 <= i < s.len() && s[i].0 == id;
        assert forall|j: int| 0 <= j < w implies s[j].0 != id by {}
        assert(t[w] == (id, value));
    } else {
        assert(t[s.len() as int] == (id, value));
    }
}

/// One loaded plugin slot in the rack.
pub struct PluginSlot {
    /// Display name.
    pub name: String,
    /// Vendor.
    pub vendor: String,
    /// Category string.
    pub category: String,
    /// Path to the .vst3 bundle.
    pub path: String,
    /// Class ID (for instantiation).
    pub cid: [u8; 16],
    /// Whether the slot is bypassed.
    pub bypassed: bool,
    /// Cached parameter snapshots from the last activation.
    pub param_cache: Vec<ParamSnapshot>,
    /// Staged parameter changes `(id, value bit pattern)` to apply on the
    /// next activation.
    pub staged_changes: Vec<(u32, u64)>,
}

/// The contents of a `PluginSlot`.
pub struct SlotModel {
    pub name: Seq<char>,
    pub vendor: Seq<char>,
    pub category: Seq<char>,
    pub path: Seq<char>,
    pub cid: Seq<u8>,
    pub bypassed: bool,
    pub param_cache: Seq<ParamModel>,
    pub staged_changes: Seq<(u32, u64)>,
}

impl View for PluginSlot {
    type V = SlotModel;

    open spec fn view(&self) -> SlotModel {
        SlotModel {
            name: self.name@,
            vendor: self.vendor@,
            category: self.category@,
            path: self.path@,
            cid: self.cid@,
            bypassed: self.bypassed,
            param_cache: params_view(self.param_cache@),
            staged_changes: self.staged_changes@,
        }
    }
}

/// The contents of a rack.
pub open spec fn rack_view(r: Seq<PluginSlot>) -> Seq<SlotModel> {
    r.map_values(|s: PluginSlot| s@)
}

/// Transport state tracked by the host.
#[derive(Debug, Clone, Copy)]
pub struct TransportState {
    /// Whether playback is active.
    pub playing: bool,
    /// Tempo in BPM (bit pattern).
    pub tempo: u64,
    /// Numerator of the time signature.
    pub time_sig_num: u32,
    /// Denominator of the time signature.
    pub time_sig_den: u32,
}

impl TransportState {
    /// Stopped, 120 BPM, 4/4.
    pub open spec fn default_value() -> TransportState {
        TransportState { playing: false, tempo: DEFAULT_TEMPO_BITS, time_sig_num: 4, time_sig_den: 4 }
    }

    /// Stopped, 120 BPM, 4/4.
    pub fn initial() -> (t: Self)
        ensures
            t == Self::default_value(),
            !t.playing,
            t.tempo == DEFAULT_TEMPO_BITS,
            t.time_sig_num == 4,
            t.time_sig_den == 4,
    {
        TransportState { playing: false, tempo: DEFAULT_TEMPO_BITS, time_sig_num: 4, time_sig_den: 4 }
    }
}

impl Default for TransportState {
    fn default() -> (t: Self)
        ensures
            !t.playing,
            t.tempo == DEFAULT_TEMPO_BITS,
            t.time_sig_num == 4,
            t.time_sig_den == 4,
    {
        Self::initial()
    }
}

} // verus!
