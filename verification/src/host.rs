//! Host state that the GUI edits: the plugin catalogue, the browser
//! filter, the rack and the selection.
use vstd::prelude::*;
use crate::rack::{
    copy_params, params_view, rack_view, reals_equal, same_real, stage_change, staged_after, ParamModel, ParamSnapshot,
    PluginSlot, SlotModel, TransportState,
};
use crate::text::{decimal, push_decimal};
use crate::text::{chars_of, lowercase, lowercase_of, occurs, occurs_in, push_str, same_text};

verus! {

/// Category of the classes the browser lists.
pub const AUDIO_MODULE_CLASS: &'static str = "Audio Module Class";

/// A plugin class found in a VST3 module.
pub struct PluginClassInfo {
    /// Class display name.
    pub name: String,
    /// Class category (e.g. "Audio Module Class").
    pub category: String,
    /// Sub-categories, separated by '|'.
    pub subcategories: Option<String>,
    /// Class vendor.
    pub vendor: Option<String>,
    /// Class version.
    pub version: Option<String>,
    /// SDK version the class was built with.
    pub sdk_version: Option<String>,
    /// Class ID.
    pub cid: [u8; 16],
}

/// A scanned VST3 module (bundle) and its classes.
pub struct PluginModuleInfo {
    /// Path to the .vst3 bundle.
    pub path: String,
    /// Vendor given by the module's factory.
    pub factory_vendor: Option<String>,
    /// URL given by the module's factory.
    pub factory_url: Option<String>,
    /// E-mail given by the module's factory.
    pub factory_email: Option<String>,
    /// The classes of the module.
    pub classes: Vec<PluginClassInfo>,
}

/// The contents of a `PluginClassInfo`.
pub struct ClassModel {
    pub name: Seq<char>,
    pub category: Seq<char>,
    pub subcategories: Option<Seq<char>>,
    pub vendor: Option<Seq<char>>,
    pub version: Option<Seq<char>>,
    pub sdk_version: Option<Seq<char>>,
    pub cid: Seq<u8>,
}

impl View for PluginClassInfo {
    type V = ClassModel;

    open spec fn view(&self) -> ClassModel {
        ClassModel {
            name: self.name@,
            category: self.category@,
            subcategories: opt_str(self.subcategories),
            vendor: opt_str(self.vendor),
            version: opt_str(self.version),
            sdk_version: opt_str(self.sdk_version),
            cid: self.cid@,
        }
    }
}

/// The contents of a `PluginModuleInfo`.
pub struct ModuleModel {
    pub path: Seq<char>,
    pub factory_vendor: Option<Seq<char>>,
    pub factory_url: Option<Seq<char>>,
    pub factory_email: Option<Seq<char>>,
    pub classes: Seq<ClassModel>,
}

impl View for PluginModuleInfo {
    type V = ModuleModel;

    open spec fn view(&self) -> ModuleModel {
        ModuleModel {
            path: self.path@,
            factory_vendor: opt_str(self.factory_vendor),
            factory_url: opt_str(self.factory_url),
            factory_email: opt_str(self.factory_email),
            classes: self.classes@.map_values(|c: PluginClassInfo| c@),
        }
    }
}

/// The contents of a catalogue.
pub open spec fn modules_view(v: Seq<PluginModuleInfo>) -> Seq<ModuleModel> {
    v.map_values(|m: PluginModuleInfo| m@)
}

/// A copy of an optional string.
pub fn copy_opt_str(s: &Option<String>) -> (r: Option<String>)
    ensures
        opt_str(r) == opt_str(*s),
{
    match s {
        Some(t) => Some(t.clone()),
        None => None,
    }
}

impl Clone for PluginClassInfo {
    fn clone(&self) -> (r: Self)
        ensures
            r@ == self@,
    {
        PluginClassInfo {
            name: self.name.clone(),
            category: self.category.clone(),
            subcategories: copy_opt_str(&self.subcategories),
            vendor: copy_opt_str(&self.vendor),
            version: copy_opt_str(&self.version),
            sdk_version: copy_opt_str(&self.sdk_version),
            cid: self.cid,
        }
    }
}

impl Clone for PluginModuleInfo {
    fn clone(&self) -> (r: Self)
        ensures
            r@ == self@,
    {
        let mut classes: Vec<PluginClassInfo> = Vec::new();
        let mut i: usize = 0;
        while i < self.classes.len()
            invariant
                i <= self.classes@.len(),
                classes@.len() == i,
                forall|k: int| 0 <= k < i ==> #[trigger] classes@[k]@ == self.classes@[k]@,
            decreases self.classes@.len() - i,
        {
            classes.push(self.classes[i].clone());
            i = i + 1;
        }
        let r = PluginModuleInfo {
            path: self.path.clone(),
            factory_vendor: copy_opt_str(&self.factory_vendor),
            factory_url: copy_opt_str(&self.factory_url),
            factory_email: copy_opt_str(&self.factory_email),
            classes,
        };
        assert(r@.classes =~= self@.classes);
        r
    }
}

/// A copy of a catalogue.
pub fn copy_modules(v: &Vec<PluginModuleInfo>) -> (r: Vec<PluginModuleInfo>)
    ensures
        modules_view(r@) == modules_view(v@),
{
    let mut r: Vec<PluginModuleInfo> = Vec::new();
    let mut i: usize = 0;
    while i < v.len()
        invariant
            i <= v@.len(),
            r@.len() == i,
            forall|k: int| 0 <= k < i ==> #[trigger] r@[k]@ == v@[k]@,
        decreases v@.len() - i,
    {
        r.push(v[i].clone());
        i = i + 1;
    }
    assert(modules_view(r@) =~= modules_view(v@));
    r
}

/// The text of an optional string.
pub open spec fn opt_str(s: Option<String>) -> Option<Seq<char>> {
    match s {
        Some(t) => Some(t@),
        None => None,
    }
}

/// The vendor shown for a class: its own, else its module's, else `dflt`.
pub open spec fn class_vendor(module: PluginModuleInfo, class: PluginClassInfo, dflt: Seq<char>) -> Seq<char> {
    match class.vendor {
        Some(v) => v@,
        None => match module.factory_vendor {
            Some(v) => v@,
            None => dflt,
        },
    }
}

/// Whether the browser lists `class` of `module` under the filter text
/// `filter`: only audio module classes are listed, and the lowercase filter
/// must be empty or occur in the lowercase name, category, sub-categories
/// or vendor.
pub open spec fn class_listed(module: PluginModuleInfo, class: PluginClassInfo, filter: Seq<char>) -> bool {
    let f = lowercase_of(filter);
    let subcats = match class.subcategories {
        Some(s) => s@,
        None => ""@,
    };
    &&& class.category@ == AUDIO_MODULE_CLASS@
    &&& (f.len() == 0 || occurs_in(f, lowercase_of(class.name@)) || occurs_in(f, lowercase_of(class.category@))
        || occurs_in(f, lowercase_of(subcats)) || occurs_in(f, lowercase_of(class_vendor(module, class, ""@))))
}

/// The listed `(module index, class index)` pairs among the first `ci`
/// classes of module `mi`.
pub open spec fn listed_in_module(mods: Seq<PluginModuleInfo>, filter: Seq<char>, mi: int, ci: nat) -> Seq<(usize, usize)>
    decreases ci,
{
    if ci == 0 {
        Seq::empty()
    } else {
        let prev = listed_in_module(mods, filter, mi, (ci - 1) as nat);
        if class_listed(mods[mi], mods[mi].classes@[ci - 1], filter) {
            prev.push((mi as usize, (ci - 1) as usize))
        } else {
            prev
        }
    }
}

/// The listed `(module index, class index)` pairs of the first `mi`
/// modules, in catalogue order.
pub open spec fn listed(mods: Seq<PluginModuleInfo>, filter: Seq<char>, mi: nat) -> Seq<(usize, usize)>
    decreases mi,
{
    if mi == 0 {
        Seq::empty()
    } else {
        listed(mods, filter, (mi - 1) as nat) + listed_in_module(
            mods,
            filter,
            mi - 1,
            mods[mi - 1].classes@.len(),
        )
    }
}

/// Whether pair `a` comes before pair `b` in catalogue order: by module
/// index, then by class index.
pub open spec fn pair_before(a: (usize, usize), b: (usize, usize)) -> bool {
    a.0 < b.0 || (a.0 == b.0 && a.1 < b.1)
}

/// Within one module, the pairs listed among its first `ci` classes each
/// name that module and a listed class below `ci`, every such class is
/// named, and class indices increase.
pub proof fn lemma_listed_in_module_exactly(mods: Seq<PluginModuleInfo>, filter: Seq<char>, mi: int, ci: nat)
    requires
        0 <= mi < mods.len(),
        mods.len() <= usize::MAX,
        ci <= mods[mi].classes@.len(),
        mods[mi].classes@.len() <= usize::MAX,
    ensures
        ({
            let r = listed_in_module(mods, filter, mi, ci);
            &&& forall|i: int|
                0 <= i < r.len() ==> {
                    &&& (#[trigger] r[i]).0 as int == mi
                    &&& r[i].1 < ci
                    &&& class_listed(mods[mi], mods[mi].classes@[r[i].1 as int], filter)
                }
            &&& forall|c: int|
                0 <= c < ci && #[trigger] class_listed(mods[mi], mods[mi].classes@[c], filter) ==> exists|i: int|
                    0 <= i < r.len() && r[i] == (mi as usize, c as usize)
            &&& forall|i: int, j: int| 0 <= i < j < r.len() ==> pair_before(#[trigger] r[i], #[trigger] r[j])
        }),
    decreases ci,
{
    if ci > 0 {
        lemma_listed_in_module_exactly(mods, filter, mi, (ci - 1) as nat);
        let prev = listed_in_module(mods, filter, mi, (ci - 1) as nat);
        let r = listed_in_module(mods, filter, mi, ci);
        if class_listed(mods[mi], mods[mi].classes@[ci - 1], filter) {
            assert(r == prev.push((mi as usize, (ci - 1) as usize)));
            assert forall|c: int|
                0 <= c < ci && #[trigger] class_listed(mods[mi], mods[mi].classes@[c], filter) implies exists|i: int|
                    0 <= i < r.len() && r[i] == (mi as usize, c as usize) by {
                if c == ci - 1 {
                    assert(r[prev.len() as int] == (mi as usize, c as usize));
                } else {
                    let i = choose|i: int| 0 <= i < prev.len() && prev[i] == (mi as usize, c as usize);
                    assert(r[i] == prev[i]);
                }
            }
            assert forall|i: int, j: int| 0 <= i < j < r.len() implies pair_before(#[trigger] r[i], #[trigger] r[j]) by {
                if j < prev.len() {
                    assert(r[i] == prev[i] && r[j] == prev[j]);
                } else {
                    assert(r[i] == prev[i]);
                }
            }
            assert forall|i: int| 0 <= i < r.len() implies {
                &&& (#[trigger] r[i]).0 as int == mi
                &&& r[i].1 < ci
                &&& class_listed(mods[mi], mods[mi].classes@[r[i].1 as int], filter)
            } by {
                if i < prev.len() {
                    assert(r[i] == prev[i]);
                }
            }
        }
    }
}

/// The browser lists exactly the classes that pass the filter: every pair
/// returned is a valid `(module index, class index)` into the catalogue
/// whose class passes the filter, every class that passes appears under
/// its own pair, and the pairs come in strictly increasing catalogue
/// order, so each appears once.
pub proof fn lemma_listed_exactly(mods: Seq<PluginModuleInfo>, filter: Seq<char>, n: nat)
    requires
        n <= mods.len(),
        mods.len() <= usize::MAX,
        forall|m: int| 0 <= m < mods.len() ==> (#[trigger] mods[m]).classes@.len() <= usize::MAX,
    ensures
        ({
            let r = listed(mods, filter, n);
            &&& forall|i: int|
                0 <= i < r.len() ==> {
                    &&& (#[trigger] r[i]).0 < n
                    &&& r[i].1 < mods[r[i].0 as int].classes@.len()
                    &&& class_listed(mods[r[i].0 as int], mods[r[i].0 as int].classes@[r[i].1 as int], filter)
                }
            &&& forall|m: int, c: int|
                0 <= m < n && 0 <= c < mods[m].classes@.len() && #[trigger] class_listed(
                    mods[m],
                    mods[m].classes@[c],
                    filter,
                ) ==> exists|i: int| 0 <= i < r.len() && r[i] == (m as usize, c as usize)
            &&& forall|i: int, j: int| 0 <= i < j < r.len() ==> pair_before(#[trigger] r[i], #[trigger] r[j])
        }),
    decreases n,
{
    if n > 0 {
        let mi = n - 1;
        lemma_listed_exactly(mods, filter, (n - 1) as nat);
        lemma_listed_in_module_exactly(mods, filter, mi, mods[mi].classes@.len());
        let prev = listed(mods, filter, (n - 1) as nat);
        let l = listed_in_module(mods, filter, mi, mods[mi].classes@.len());
        let r = listed(mods, filter, n);
        assert(r == prev + l);
        assert forall|i: int| 0 <= i < r.len() implies {
            &&& (#[trigger] r[i]).0 < n
            &&& r[i].1 < mods[r[i].0 as int].classes@.len()
            &&& class_listed(mods[r[i].0 as int], mods[r[i].0 as int].classes@[r[i].1 as int], filter)
        } by {
            if i < prev.len() {
                assert(r[i] == prev[i]);
            } else {
                assert(r[i] == l[i - prev.len()]);
            }
        }
        assert forall|m: int, c: int|
            0 <= m < n && 0 <= c < mods[m].classes@.len() && #[trigger] class_listed(
                mods[m],
                mods[m].classes@[c],
                filter,
            ) implies exists|i: int| 0 <= i < r.len() && r[i] == (m as usize, c as usize) by {
            if m < n - 1 {
                let i = choose|i: int| 0 <= i < prev.len() && prev[i] == (m as usize, c as usize);
                assert(r[i] == prev[i]);
            } else {
                let k = choose|k: int| 0 <= k < l.len() && l[k] == (mi as usize, c as usize);
                assert(r[prev.len() + k] == l[k]);
            }
        }
        assert forall|i: int, j: int| 0 <= i < j < r.len() implies pair_before(#[trigger] r[i], #[trigger] r[j]) by {
            if j < prev.len() {
                assert(r[i] == prev[i] && r[j] == prev[j]);
            } else if i < prev.len() {
                assert(r[i] == prev[i]);
                assert(r[j] == l[j - prev.len()]);
            } else {
                assert(r[i] == l[i - prev.len()]);
                assert(r[j] == l[j - prev.len()]);
            }
        }
    }
}

/// Whether a class is an audio module class and matches the lowercase
/// filter `f` (given as characters) for the filter text `filter`.
fn class_matches(module: &PluginModuleInfo, class: &PluginClassInfo, filter: &str, f: &Vec<char>) -> (b: bool)
    requires
        f@ == lowercase_of(filter@),
    ensures
        b == class_listed(*module, *class, filter@),
{
    if !same_text(class.category.as_str(), AUDIO_MODULE_CLASS) {
        return false;
    }
    if f.len() == 0 {
        return true;
    }
    if occurs(f, &chars_of(lowercase(class.name.as_str()).as_str())) {
        return true;
    }
    if occurs(f, &chars_of(lowercase(class.category.as_str()).as_str())) {
        return true;
    }
    let subcats = match &class.subcategories {
        Some(s) => s.as_str(),
        None => "",
    };
    if occurs(f, &chars_of(lowercase(subcats).as_str())) {
        return true;
    }
    let vendor = match &class.vendor {
        Some(v) => v.as_str(),
        None => match &module.factory_vendor {
            Some(v) => v.as_str(),
            None => "",
        },
    };
    occurs(f, &chars_of(lowercase(vendor).as_str()))
}

/// The `(module index, class index)` pairs that the browser lists for the
/// filter text, in catalogue order.
pub fn filtered_classes(modules: &[PluginModuleInfo], filter: &str) -> (r: Vec<(usize, usize)>)
    ensures
        r@ == listed(modules@, filter@, modules@.len()),
{
    let f = chars_of(lowercase(filter).as_str());
    let mut r: Vec<(usize, usize)> = Vec::new();
    let mut mi: usize = 0;
    while mi < modules.len()
        invariant
            mi <= modules@.len(),
            f@ == lowercase_of(filter@),
            r@ == listed(modules@, filter@, mi as nat),
        decreases modules@.len() - mi,
    {
        let module = &modules[mi];
        let ghost before = r@;
        let mut ci: usize = 0;
        while ci < module.classes.len()
            invariant
                mi < modules@.len(),
                *module == modules@[mi as int],
                ci <= module.classes@.len(),
                f@ == lowercase_of(filter@),
                r@ == before + listed_in_module(modules@, filter@, mi as int, ci as nat),
            decreases module.classes@.len() - ci,
        {
            if class_matches(module, &module.classes[ci], filter, &f) {
                r.push((mi, ci));
            }
            ci = ci + 1;
            assert(r@ =~= before + listed_in_module(modules@, filter@, mi as int, ci as nat));
        }
        mi = mi + 1;
    }
    r
}

/// Filter text for the plugin browser search.
#[derive(Debug, Default, Clone)]
pub struct BrowserFilter {
    pub text: String,
}

/// Which bottom-bar tab is active.
#[derive(Debug, Clone, Copy, PartialEq, Eq, Structural)]
pub enum BottomTab {
    Transport,
    Devices,
    Session,
}

impl Default for BottomTab {
    fn default() -> (t: Self)
        ensures
            t == BottomTab::Transport,
    {
        BottomTab::Transport
    }
}

/// The rack slot made for `class` of `module`.
pub open spec fn slot_for(module: PluginModuleInfo, class: PluginClassInfo) -> SlotModel {
    SlotModel {
        name: class.name@,
        vendor: class_vendor(module, class, "Unknown"@),
        category: class.category@,
        path: module.path@,
        cid: class.cid@,
        bypassed: false,
        param_cache: Seq::empty(),
        staged_changes: Seq::empty(),
    }
}

/// The rack and what the GUI shows about it.
pub struct RackState {
    /// Plugin slots in the rack.
    pub rack: Vec<PluginSlot>,
    /// Currently selected slot (for the parameter view).
    pub selected_slot: Option<usize>,
    /// Parameter snapshots shown for the selected or active plugin.
    pub param_snapshots: Vec<ParamSnapshot>,
    /// Status message shown at the bottom.
    pub status_message: String,
}

impl RackState {
    /// An empty rack with nothing selected.
    pub fn new() -> (s: Self)
        ensures
            s.rack@.len() == 0,
            s.selected_slot is None,
            s.param_snapshots@.len() == 0,
            s.status_message@.len() == 0,
    {
        RackState { rack: Vec::new(), selected_slot: None, param_snapshots: Vec::new(), status_message: String::new() }
    }

    /// Append a slot for `class` of `module`; the vendor is the class's,
    /// else the module's, else "Unknown".
    pub fn add_to_rack(&mut self, module: &PluginModuleInfo, class: &PluginClassInfo)
        ensures
            rack_view(final(self).rack@) == rack_view(old(self).rack@).push(slot_for(*module, *class)),
            final(self).selected_slot == old(self).selected_slot,
            params_view(final(self).param_snapshots@) == params_view(old(self).param_snapshots@),
            final(self).status_message@ == "Added '"@ + class.name@ + "' to the rack."@,
    {
        let vendor = match &class.vendor {
            Some(v) => v.clone(),
            None => match &module.factory_vendor {
                Some(v) => v.clone(),
                None => "Unknown".to_owned(),
            },
        };
        let no_params: Vec<ParamSnapshot> = Vec::new();
        assert(params_view(no_params@) =~= Seq::<ParamModel>::empty());
        let slot = PluginSlot {
            name: class.name.clone(),
            vendor,
            category: class.category.clone(),
            path: module.path.clone(),
            cid: class.cid,
            bypassed: false,
            param_cache: no_params,
            staged_changes: Vec::new(),
        };
        let mut msg = String::new();
        push_str(&mut msg, "Added '");
        push_str(&mut msg, class.name.as_str());
        push_str(&mut msg, "' to the rack.");
        self.status_message = msg;
        let ghost before = self.rack@;
        self.rack.push(slot);
        assert(rack_view(self.rack@) =~= rack_view(before).push(slot_for(*module, *class)));
    }

    /// Remove the slot at `index`; `active_slot` is the slot the audio
    /// engine plays. Returns whether the removed slot was the active one
    /// (the caller then deactivates the plugin). The selection follows the
    /// slots it pointed at; removing the selected slot clears it and the
    /// parameter view. An index past the end changes nothing.
    pub fn remove_from_rack(&mut self, index: usize, active_slot: Option<usize>) -> (was_active: bool)
        ensures
            index >= old(self).rack@.len() ==> {
                &&& !was_active
                &&& rack_view(final(self).rack@) == rack_view(old(self).rack@)
                &&& final(self).selected_slot == old(self).selected_slot
                &&& params_view(final(self).param_snapshots@) == params_view(old(self).param_snapshots@)
                &&& final(self).status_message@ == old(self).status_message@
            },
            index < old(self).rack@.len() ==> {
                &&& was_active == (active_slot == Some(index))
                &&& rack_view(final(self).rack@) == rack_view(old(self).rack@).remove(index as int)
                &&& final(self).selected_slot == (match old(self).selected_slot {
                    Some(s) => if s == index {
                        None
                    } else if s > index {
                        Some((s - 1) as usize)
                    } else {
                        Some(s)
                    },
                    None => None,
                })
                &&& (was_active || old(self).selected_slot == Some(index)) ==> final(self).param_snapshots@.len() == 0
                &&& !(was_active || old(self).selected_slot == Some(index)) ==> params_view(
                    final(self).param_snapshots@,
                ) == params_view(old(self).param_snapshots@)
                &&& final(self).status_message@ == "Removed '"@ + old(self).rack@[index as int].name@
                    + "' from the rack."@
            },
    {
        if index >= self.rack.len() {
            return false;
        }
        let mut msg = String::new();
        push_str(&mut msg, "Removed '");
        push_str(&mut msg, self.rack[index].name.as_str());
        push_str(&mut msg, "' from the rack.");
        let was_active = match active_slot {
            Some(a) => a == index,
            None => false,
        };
        if was_active {
            self.param_snapshots = Vec::new();
        }
        let ghost before = self.rack@;
        let _ = self.rack.remove(index);
        assert(rack_view(self.rack@) =~= rack_view(before).remove(index as int));
        match self.selected_slot {
            Some(sel) => {
                if sel == index {
                    self.selected_slot = None;
                    self.param_snapshots = Vec::new();
                } else if sel > index {
                    self.selected_slot = Some(sel - 1);
                }
            },
            None => {},
        }
        self.status_message = msg;
        was_active
    }
}

impl RackState {
    /// Bring the parameter view up to date, given the slot the engine
    /// plays. Nothing selected clears the view; an inactive selected slot
    /// shows its cached parameters (none if the selection is past the
    /// rack). Returns whether the selected slot is the active one: the
    /// caller then loads the live parameters from the engine (see
    /// `cache_active_params`).
    pub fn refresh_params(&mut self, active_slot: Option<usize>) -> (live: bool)
        ensures
            live == (old(self).selected_slot is Some && active_slot == old(self).selected_slot),
            rack_view(final(self).rack@) == rack_view(old(self).rack@),
            final(self).selected_slot == old(self).selected_slot,
            final(self).status_message@ == old(self).status_message@,
            old(self).selected_slot is None ==> final(self).param_snapshots@.len() == 0,
            live ==> params_view(final(self).param_snapshots@) == params_view(old(self).param_snapshots@),
            old(self).selected_slot is Some && !live ==> (if old(self).selected_slot->0 < old(self).rack@.len() {
                params_view(final(self).param_snapshots@) == params_view(
                    old(self).rack@[old(self).selected_slot->0 as int].param_cache@,
                )
            } else {
                final(self).param_snapshots@.len() == 0
            }),
    {
        match self.selected_slot {
            None => {
                self.param_snapshots = Vec::new();
                false
            },
            Some(idx) => {
                let live = match active_slot {
                    Some(a) => a == idx,
                    None => false,
                };
                if !live {
                    if idx < self.rack.len() {
                        self.param_snapshots = copy_params(&self.rack[idx].param_cache);
                    } else {
                        self.param_snapshots = Vec::new();
                    }
                }
                live
            },
        }
    }

    /// Show `snapshots`, the live parameters of the active slot `index`,
    /// and keep them as that slot's cache.
    pub fn cache_active_params(&mut self, index: usize, snapshots: Vec<ParamSnapshot>)
        ensures
            params_view(final(self).param_snapshots@) == params_view(snapshots@),
            final(self).rack@.len() == old(self).rack@.len(),
            forall|i: int|
                0 <= i < old(self).rack@.len() ==> (#[trigger] final(self).rack@[i])@ == (if i == index {
                    SlotModel { param_cache: params_view(snapshots@), ..old(self).rack@[i]@ }
                } else {
                    old(self).rack@[i]@
                }),
            final(self).selected_slot == old(self).selected_slot,
            final(self).status_message@ == old(self).status_message@,
    {
        if index < self.rack.len() {
            let cache = copy_params(&snapshots);
            let ghost before = self.rack@;
            let mut slot = self.rack.remove(index);
            slot.param_cache = cache;
            self.rack.insert(index, slot);
            assert forall|i: int| 0 <= i < before.len() implies (#[trigger] self.rack@[i])@ == (if i == index {
                SlotModel { param_cache: params_view(snapshots@), ..before[i]@ }
            } else {
                before[i]@
            }) by {
                if i < index {
                    assert(self.rack@[i] == before[i]);
                } else if i > index {
                    assert(self.rack@[i] == before[i]);
                }
            }
        }
        self.param_snapshots = snapshots;
    }

    /// Take the staged parameter changes of slot `index` (to apply them on
    /// activation), leaving none staged.
    pub fn take_staged_changes(&mut self, index: usize) -> (changes: Vec<(u32, u64)>)
        ensures
            index < old(self).rack@.len() ==> changes@ == old(self).rack@[index as int].staged_changes@,
            index >= old(self).rack@.len() ==> changes@.len() == 0,
            final(self).rack@.len() == old(self).rack@.len(),
            forall|i: int|
                0 <= i < old(self).rack@.len() ==> (#[trigger] final(self).rack@[i])@ == (if i == index {
                    SlotModel { staged_changes: Seq::empty(), ..old(self).rack@[i]@ }
                } else {
                    old(self).rack@[i]@
                }),
            params_view(final(self).param_snapshots@) == params_view(old(self).param_snapshots@),
            final(self).selected_slot == old(self).selected_slot,
            final(self).status_message@ == old(self).status_message@,
    {
        if index >= self.rack.len() {
            return Vec::new();
        }
        let ghost before = self.rack@;
        let mut slot = self.rack.remove(index);
        let mut changes: Vec<(u32, u64)> = Vec::new();
        std::mem::swap(&mut changes, &mut slot.staged_changes);
        self.rack.insert(index, slot);
        assert forall|i: int| 0 <= i < before.len() implies (#[trigger] self.rack@[i])@ == (if i == index {
            SlotModel { staged_changes: Seq::empty(), ..before[i]@ }
        } else {
            before[i]@
        }) by {
            if i < index {
                assert(self.rack@[i] == before[i]);
            } else if i > index {
                assert(self.rack@[i] == before[i]);
            } else {
                assert(self.rack@[i].staged_changes@ =~= Seq::<(u32, u64)>::empty());
            }
        }
        changes
    }

    /// Report a successful activation of `name`: the status says how many
    /// staged changes were applied, if any; the activated slot becomes the
    /// selection.
    pub fn activated(&mut self, index: usize, name: &str, staged_count: usize)
        ensures
            final(self).selected_slot == Some(index),
            final(self).status_message@ == "▶ '"@ + name@ + "' active — processing audio."@ + (if staged_count > 0 {
                " ("@ + decimal(staged_count as nat) + " staged change(s) applied)"@
            } else {
                Seq::<char>::empty()
            }),
            rack_view(final(self).rack@) == rack_view(old(self).rack@),
            params_view(final(self).param_snapshots@) == params_view(old(self).param_snapshots@),
    {
        let mut msg = String::new();
        push_str(&mut msg, "▶ '");
        push_str(&mut msg, name);
        push_str(&mut msg, "' active — processing audio.");
        if staged_count > 0 {
            push_str(&mut msg, " (");
            push_decimal(&mut msg, staged_count as u64);
            push_str(&mut msg, " staged change(s) applied)");
        }
        self.status_message = msg;
        self.selected_slot = Some(index);
    }
}

impl RackState {
    /// Record the engine's deactivation of the plugin of slot `was_active`
    /// (if any): the parameters shown become that slot's cache, and the
    /// status line says whether the plugin crashed while being torn down
    /// (naming the slot; without one the deactivation is plain).
    pub fn deactivated(&mut self, was_active: Option<usize>, crashed: bool)
        ensures
            rack_view(final(self).rack@) == (match was_active {
                Some(a) => if a < old(self).rack@.len() {
                    rack_view(old(self).rack@).update(
                        a as int,
                        SlotModel { param_cache: params_view(old(self).param_snapshots@), ..old(self).rack@[a as int]@ },
                    )
                } else {
                    rack_view(old(self).rack@)
                },
                None => rack_view(old(self).rack@),
            }),
            final(self).selected_slot == old(self).selected_slot,
            params_view(final(self).param_snapshots@) == params_view(old(self).param_snapshots@),
            final(self).status_message@ == (match was_active {
                Some(a) => if crashed && a < old(self).rack@.len() {
                    "⚠ '"@ + old(self).rack@[a as int].name@
                        + "' crashed during deactivation — restart the host to reuse this plugin."@
                } else {
                    "Plugin deactivated."@
                },
                None => "Plugin deactivated."@,
            }),
    {
        let mut msg = String::new();
        let mut named = false;
        match was_active {
            Some(a) => {
                if a < self.rack.len() {
                    let ghost before = self.rack@;
                    let mut slot = self.rack.remove(a);
                    slot.param_cache = copy_params(&self.param_snapshots);
                    if crashed {
                        push_str(&mut msg, "⚠ '");
                        push_str(&mut msg, slot.name.as_str());
                        push_str(&mut msg, "' crashed during deactivation — restart the host to reuse this plugin.");
                        named = true;
                    }
                    self.rack.insert(a, slot);
                    assert(rack_view(self.rack@) =~= rack_view(before).update(
                        a as int,
                        SlotModel { param_cache: params_view(self.param_snapshots@), ..before[a as int]@ },
                    ));
                }
            },
            None => {},
        }
        if !named {
            push_str(&mut msg, "Plugin deactivated.");
        }
        self.status_message = msg;
    }

    /// Record that the engine could not activate `name` and why.
    pub fn activation_failed(&mut self, name: &str, error: &str)
        ensures
            final(self).status_message@ == "✗ Failed to activate '"@ + name@ + "': "@ + error@,
            rack_view(final(self).rack@) == rack_view(old(self).rack@),
            final(self).selected_slot == old(self).selected_slot,
            params_view(final(self).param_snapshots@) == params_view(old(self).param_snapshots@),
    {
        let mut msg = String::new();
        push_str(&mut msg, "✗ Failed to activate '");
        push_str(&mut msg, name);
        push_str(&mut msg, "': ");
        push_str(&mut msg, error);
        self.status_message = msg;
    }

    /// The name of the plugin whose editor is to be opened: the selected
    /// slot's (empty if the selection is past the rack). Without a
    /// selection there is none, and the status line says so.
    pub fn editor_request(&mut self) -> (name: Option<String>)
        ensures
            old(self).selected_slot is None ==> name is None && final(self).status_message@ == "No plugin selected."@,
            old(self).selected_slot matches Some(i) ==> (name matches Some(n) && n@ == (if i < old(self).rack@.len() {
                old(self).rack@[i as int].name@
            } else {
                Seq::<char>::empty()
            })) && final(self).status_message@ == old(self).status_message@,
            rack_view(final(self).rack@) == rack_view(old(self).rack@),
            final(self).selected_slot == old(self).selected_slot,
            params_view(final(self).param_snapshots@) == params_view(old(self).param_snapshots@),
    {
        match self.selected_slot {
            None => {
                let mut msg = String::new();
                push_str(&mut msg, "No plugin selected.");
                self.status_message = msg;
                None
            },
            Some(i) => {
                if i < self.rack.len() {
                    Some(self.rack[i].name.clone())
                } else {
                    Some(String::new())
                }
            },
        }
    }

    /// Record whether the engine opened the editor of `name`.
    pub fn editor_opened(&mut self, name: &str, result: Result<(), String>)
        ensures
            final(self).status_message@ == (match result {
                Ok(_) => "🎹 Editor opened for '"@ + name@ + "'."@,
                Err(e) => "✗ Editor failed: "@ + e@,
            }),
            rack_view(final(self).rack@) == rack_view(old(self).rack@),
            final(self).selected_slot == old(self).selected_slot,
            params_view(final(self).param_snapshots@) == params_view(old(self).param_snapshots@),
    {
        let mut msg = String::new();
        match result {
            Ok(_) => {
                push_str(&mut msg, "🎹 Editor opened for '");
                push_str(&mut msg, name);
                push_str(&mut msg, "'.");
            },
            Err(e) => {
                push_str(&mut msg, "✗ Editor failed: ");
                push_str(&mut msg, e.as_str());
            },
        }
        self.status_message = msg;
    }

    /// Record whether the session was saved to `path`.
    pub fn session_saved(&mut self, path: &str, result: Result<(), String>)
        ensures
            final(self).status_message@ == (match result {
                Ok(_) => "Session saved to "@ + path@,
                Err(e) => "✗ Save failed: "@ + e@,
            }),
            rack_view(final(self).rack@) == rack_view(old(self).rack@),
            final(self).selected_slot == old(self).selected_slot,
            params_view(final(self).param_snapshots@) == params_view(old(self).param_snapshots@),
    {
        let mut msg = String::new();
        match result {
            Ok(_) => {
                push_str(&mut msg, "Session saved to ");
                push_str(&mut msg, path);
            },
            Err(e) => {
                push_str(&mut msg, "✗ Save failed: ");
                push_str(&mut msg, e.as_str());
            },
        }
        self.status_message = msg;
    }

    /// Take the rack of a session read from `path` (the engine having
    /// deactivated its plugin): nothing is selected or shown, and the status
    /// line counts the slots. A session that could not be read changes
    /// only the status line.
    pub fn session_loaded(&mut self, path: &str, result: Result<Vec<PluginSlot>, String>)
        ensures
            match result {
                Ok(rack) => {
                    &&& rack_view(final(self).rack@) == rack_view(rack@)
                    &&& final(self).selected_slot is None
                    &&& final(self).param_snapshots@.len() == 0
                    &&& final(self).status_message@ == "Session loaded from "@ + path@ + " ("@ + decimal(
                        rack@.len(),
                    ) + " slots)"@
                },
                Err(e) => {
                    &&& rack_view(final(self).rack@) == rack_view(old(self).rack@)
                    &&& final(self).selected_slot == old(self).selected_slot
                    &&& params_view(final(self).param_snapshots@) == params_view(old(self).param_snapshots@)
                    &&& final(self).status_message@ == "✗ Load failed: "@ + e@
                },
            },
    {
        let mut msg = String::new();
        match result {
            Ok(rack) => {
                self.param_snapshots = Vec::new();
                self.rack = rack;
                self.selected_slot = None;
                push_str(&mut msg, "Session loaded from ");
                push_str(&mut msg, path);
                push_str(&mut msg, " (");
                push_decimal(&mut msg, self.rack.len() as u64);
                push_str(&mut msg, " slots)");
            },
            Err(e) => {
                push_str(&mut msg, "✗ Load failed: ");
                push_str(&mut msg, e.as_str());
            },
        }
        self.status_message = msg;
    }
}

impl RackState {
    /// Stage `value` (shown as `display`) for parameter `id` of the inactive
    /// slot at `index`, to be applied when it is activated: an earlier
    /// staged value for `id` is replaced, and the slot's cached parameter
    /// takes the value so that the view shows it. A slot index past the end
    /// changes nothing.
    pub fn stage_parameter(&mut self, index: usize, id: u32, value: u64, display: String)
        ensures
            index < old(self).rack@.len() ==> rack_view(final(self).rack@) == rack_view(old(self).rack@).update(
                index as int,
                SlotModel {
                    staged_changes: staged_after(old(self).rack@[index as int].staged_changes@, id, value),
                    param_cache: params_after_change(
                        params_view(old(self).rack@[index as int].param_cache@),
                        id,
                        value,
                        Some(display@),
                    ),
                    ..old(self).rack@[index as int]@
                },
            ),
            index >= old(self).rack@.len() ==> rack_view(final(self).rack@) == rack_view(old(self).rack@),
            final(self).selected_slot == old(self).selected_slot,
            params_view(final(self).param_snapshots@) == params_view(old(self).param_snapshots@),
            final(self).status_message@ == old(self).status_message@,
    {
        if index < self.rack.len() {
            let ghost before = self.rack@;
            let ghost display_text = display@;
            let mut slot = self.rack.remove(index);
            stage_change(&mut slot.staged_changes, id, value);
            apply_param_change(&mut slot.param_cache, id, value, Some(display));
            self.rack.insert(index, slot);
            assert(rack_view(self.rack@) =~= rack_view(before).update(
                index as int,
                SlotModel {
                    staged_changes: staged_after(before[index as int].staged_changes@, id, value),
                    param_cache: params_after_change(
                        params_view(before[index as int].param_cache@),
                        id,
                        value,
                        Some(display_text),
                    ),
                    ..before[index as int]@
                },
            ));
        }
    }

    /// Report the device lists the engine found after a refresh.
    pub fn devices_refreshed(&mut self, audio_devices: usize, midi_ports: usize)
        ensures
            final(self).status_message@ == "Devices refreshed — "@ + decimal(audio_devices as nat) + " audio, "@
                + decimal(midi_ports as nat) + " MIDI"@,
            rack_view(final(self).rack@) == rack_view(old(self).rack@),
            final(self).selected_slot == old(self).selected_slot,
            params_view(final(self).param_snapshots@) == params_view(old(self).param_snapshots@),
    {
        let mut msg = String::new();
        push_str(&mut msg, "Devices refreshed — ");
        push_decimal(&mut msg, audio_devices as u64);
        push_str(&mut msg, " audio, ");
        push_decimal(&mut msg, midi_ports as u64);
        push_str(&mut msg, " MIDI");
        self.status_message = msg;
    }

    /// Report that the engine refused a live parameter change.
    pub fn param_change_failed(&mut self, error: &str)
        ensures
            final(self).status_message@ == "⚠ Parameter change failed: "@ + error@,
            rack_view(final(self).rack@) == rack_view(old(self).rack@),
            final(self).selected_slot == old(self).selected_slot,
            params_view(final(self).param_snapshots@) == params_view(old(self).param_snapshots@),
    {
        let mut msg = String::new();
        push_str(&mut msg, "⚠ Parameter change failed: ");
        push_str(&mut msg, error);
        self.status_message = msg;
    }

    /// The heading of the parameter view: the selected slot's name and
    /// vendor, or "Parameters" and no vendor when the selection is past
    /// the rack or there is none.
    pub fn panel_heading(&self) -> (h: (String, String))
        ensures
            (match self.selected_slot {
                Some(i) => i < self.rack@.len(),
                None => false,
            }) ==> h.0@ == self.rack@[self.selected_slot->0 as int].name@ && h.1@ == self.rack@[
                self.selected_slot->0 as int].vendor@,
            !(match self.selected_slot {
                Some(i) => i < self.rack@.len(),
                None => false,
            }) ==> h.0@ == "Parameters"@ && h.1@.len() == 0,
    {
        match self.selected_slot {
            Some(i) => {
                if i < self.rack.len() {
                    return (self.rack[i].name.clone(), self.rack[i].vendor.clone());
                }
            },
            None => {},
        }
        ("Parameters".to_string(), String::new())
    }
}

impl RackState {
    /// Record that the plugin of slot `crashed_slot` crashed while
    /// processing and the engine deactivated it; the status line names it
    /// ("Unknown" without such a slot).
    pub fn plugin_crashed(&mut self, crashed_slot: Option<usize>)
        ensures
            final(self).status_message@ == "⚠ '"@ + (match crashed_slot {
                Some(i) => if i < old(self).rack@.len() {
                    old(self).rack@[i as int].name@
                } else {
                    "Unknown"@
                },
                None => "Unknown"@,
            }) + "' crashed — deactivated safely. The host is unaffected."@,
            rack_view(final(self).rack@) == rack_view(old(self).rack@),
            final(self).selected_slot == old(self).selected_slot,
            params_view(final(self).param_snapshots@) == params_view(old(self).param_snapshots@),
    {
        let mut msg = String::new();
        push_str(&mut msg, "⚠ '");
        match crashed_slot {
            Some(i) => {
                if i < self.rack.len() {
                    push_str(&mut msg, self.rack[i].name.as_str());
                } else {
                    push_str(&mut msg, "Unknown");
                }
            },
            None => push_str(&mut msg, "Unknown"),
        }
        push_str(&mut msg, "' crashed — deactivated safely. The host is unaffected.");
        self.status_message = msg;
    }
}

/// Why the engine refuses to activate plugin `name` from bundle `path`:
/// a plugin whose bundle crashed during an earlier deactivation stays
/// loaded in a broken state, so it is refused until the host restarts.
/// No refusal for any other bundle.
pub fn tainted_refusal(tainted_paths: &Vec<String>, path: &str, name: &str) -> (r: Option<String>)
    ensures
        (exists|i: int| 0 <= i < tainted_paths@.len() && #[trigger] tainted_paths@[i]@ == path@) ==> (r matches Some(
            m,
        ) && m@ == "Plugin '"@ + name@
            + "' crashed during a prior deactivation and cannot be reloaded. Restart the host to use this plugin again."@),
        !(exists|i: int| 0 <= i < tainted_paths@.len() && #[trigger] tainted_paths@[i]@ == path@) ==> r is None,
{
    let mut i: usize = 0;
    while i < tainted_paths.len()
        invariant
            i <= tainted_paths@.len(),
            forall|k: int| 0 <= k < i ==> #[trigger] tainted_paths@[k]@ != path@,
        decreases tainted_paths@.len() - i,
    {
        if same_text(tainted_paths[i].as_str(), path) {
            let mut m = String::new();
            push_str(&mut m, "Plugin '");
            push_str(&mut m, name);
            push_str(
                &mut m,
                "' crashed during a prior deactivation and cannot be reloaded. Restart the host to use this plugin again.",
            );
            return Some(m);
        }
        i = i + 1;
    }
    None
}

/// Frames between two heap checks in malloc-debug mode.
pub const HEAP_CHECK_INTERVAL: u32 = 60;

/// Whether heap corruption was seen, and when the next heap check is due.
pub struct HeapWatch {
    counter: u32,
    detected: bool,
}

impl HeapWatch {
    #[verifier::type_invariant]
    spec fn counter_below_interval(self) -> bool {
        self.counter < HEAP_CHECK_INTERVAL
    }

    /// Frames counted since the last heap check.
    pub closed spec fn frames(self) -> nat {
        self.counter as nat
    }

    /// Whether heap corruption was seen.
    pub closed spec fn seen(self) -> bool {
        self.detected
    }

    /// Nothing seen, no frame counted.
    pub fn new() -> (w: Self)
        ensures
            w.frames() == 0,
            !w.seen(),
    {
        HeapWatch { counter: 0, detected: false }
    }

    /// Whether heap corruption was seen.
    pub fn corruption_detected(&self) -> (b: bool)
        ensures
            b == self.seen(),
    {
        self.detected
    }

    /// Frames counted since the last heap check.
    pub fn frame_count(&self) -> (n: u32)
        ensures
            n == self.frames(),
    {
        self.counter
    }

    /// Take over the engine's own finding: once it saw corruption, so does
    /// the watch.
    pub fn note_engine_flag(&mut self, engine_detected: bool)
        ensures
            final(self).seen() == (old(self).seen() || engine_detected),
            final(self).frames() == old(self).frames(),
    {
        proof {
            use_type_invariant(&*self);
        }
        if engine_detected && !self.detected {
            self.detected = true;
        }
    }

    /// Count one frame; in malloc-debug mode every sixtieth frame is due
    /// for a heap check (and the count starts over).
    pub fn tick(&mut self, malloc_debug: bool) -> (check_now: bool)
        ensures
            !malloc_debug ==> !check_now && final(self).frames() == old(self).frames(),
            malloc_debug ==> check_now == (old(self).frames() + 1 >= HEAP_CHECK_INTERVAL),
            malloc_debug ==> final(self).frames() == (if check_now { 0 } else { old(self).frames() + 1 }),
            final(self).seen() == old(self).seen(),
    {
        proof {
            use_type_invariant(&*self);
        }
        if !malloc_debug {
            return false;
        }
        let next = self.counter + 1;
        if next >= HEAP_CHECK_INTERVAL {
            self.counter = 0;
            true
        } else {
            self.counter = next;
            false
        }
    }

    /// Record the result of a heap check; returns whether this is the first
    /// sign of corruption (the engine is then told too).
    pub fn checked(&mut self, healthy: bool) -> (newly_detected: bool)
        ensures
            newly_detected == (!healthy && !old(self).seen()),
            final(self).seen() == (old(self).seen() || !healthy),
            final(self).frames() == old(self).frames(),
    {
        proof {
            use_type_invariant(&*self);
        }
        if !healthy && !self.detected {
            self.detected = true;
            true
        } else {
            false
        }
    }
}

/// The parameter list after parameter `id` took `value` (and `display`,
/// when one is given): the first entry with that id changes, the others
/// stay as they were.
pub open spec fn params_after_change(ps: Seq<ParamModel>, id: u32, value: u64, display: Option<Seq<char>>) -> Seq<
    ParamModel,
> {
    Seq::new(
        ps.len(),
        |i: int|
            if ps[i].id == id && (forall|j: int| 0 <= j < i ==> ps[j].id != id) {
                ParamModel {
                    value,
                    display: match display {
                        Some(d) => d,
                        None => ps[i].display,
                    },
                    ..ps[i]
                }
            } else {
                ps[i]
            },
    )
}

/// The parameter list after the engine reported that parameter `id` now
/// has `value` (and, if the engine could render it, `display`); without an
/// entry for `id` nothing changes.
pub fn apply_param_change(snapshots: &mut Vec<ParamSnapshot>, id: u32, value: u64, display: Option<String>)
    ensures
        params_view(final(snapshots)@) == params_after_change(params_view(old(snapshots)@), id, value, opt_str(display)),
{
    let ghost ps = params_view(snapshots@);
    let mut i: usize = 0;
    while i < snapshots.len()
        invariant
            snapshots@ == old(snapshots)@,
            ps == params_view(old(snapshots)@),
            i <= snapshots@.len(),
            forall|j: int| 0 <= j < i ==> old(snapshots)@[j].id != id,
        decreases snapshots@.len() - i,
    {
        if snapshots[i].id == id {
            let ghost before = snapshots@;
            let mut snap = snapshots.remove(i);
            snap.value = value;
            match display {
                Some(d) => {
                    snap.display = d;
                },
                None => {},
            }
            snapshots.insert(i, snap);
            assert forall|k: int| 0 <= k < before.len() implies (#[trigger] params_view(snapshots@)[k])
                == params_after_change(ps, id, value, opt_str(display))[k] by {
                if k < i {
                    assert(snapshots@[k] == before[k]);
                } else if k > i {
                    assert(snapshots@[k] == before[k]);
                    assert(ps[i as int].id == id);
                }
            }
            assert(params_view(snapshots@) =~= params_after_change(ps, id, value, opt_str(display)));
            return;
        }
        i = i + 1;
    }
    assert(params_view(snapshots@) =~= params_after_change(ps, id, value, opt_str(display)));
}

/// Which engine setters a transport edit calls.
#[derive(Debug, Clone, Copy)]
pub struct TransportChanges {
    /// New tempo (bit pattern), if it changed.
    pub tempo: Option<u64>,
    /// New time signature, if it changed.
    pub time_signature: Option<(u32, u32)>,
    /// New play state, if it changed.
    pub playing: Option<bool>,
}

/// The transport values last handed to the engine.
#[derive(Debug, Clone, Copy)]
pub struct TransportSync {
    pub prev_tempo: u64,
    pub prev_time_sig_num: u32,
    pub prev_time_sig_den: u32,
    pub prev_playing: bool,
}

impl TransportSync {
    /// What the engine starts with: stopped, 120 BPM, 4/4.
    pub fn new() -> (s: Self)
        ensures
            s.prev_tempo == TransportState::default_value().tempo,
            s.prev_time_sig_num == 4,
            s.prev_time_sig_den == 4,
            !s.prev_playing,
    {
        let t = TransportState::initial();
        TransportSync { prev_tempo: t.tempo, prev_time_sig_num: 4, prev_time_sig_den: 4, prev_playing: false }
    }

    /// The changes to hand to the engine for the edited transport `t`; with
    /// no active plugin nothing is handed on and nothing is remembered.
    pub fn sync(&mut self, t: &TransportState, engine_active: bool) -> (c: TransportChanges)
        ensures
            !engine_active ==> *final(self) == *old(self) && c.tempo is None && c.time_signature is None
                && c.playing is None,
            engine_active ==> {
                &&& c.tempo == (if !same_real(t.tempo, old(self).prev_tempo) {
                    Some(t.tempo)
                } else {
                    None::<u64>
                })
                &&& c.time_signature == (if t.time_sig_num != old(self).prev_time_sig_num || t.time_sig_den
                    != old(self).prev_time_sig_den {
                    Some((t.time_sig_num, t.time_sig_den))
                } else {
                    None::<(u32, u32)>
                })
                &&& c.playing == (if t.playing != old(self).prev_playing { Some(t.playing) } else { None::<bool> })
                &&& final(self).prev_tempo == (if !same_real(t.tempo, old(self).prev_tempo) {
                    t.tempo
                } else {
                    old(self).prev_tempo
                })
                &&& final(self).prev_time_sig_num == t.time_sig_num
                &&& final(self).prev_time_sig_den == t.time_sig_den
                &&& final(self).prev_playing == t.playing
            },
    {
        if !engine_active {
            return TransportChanges { tempo: None, time_signature: None, playing: None };
        }
        let tempo = if !reals_equal(t.tempo, self.prev_tempo) {
            self.prev_tempo = t.tempo;
            Some(t.tempo)
        } else {
            None
        };
        let time_signature = if t.time_sig_num != self.prev_time_sig_num || t.time_sig_den != self.prev_time_sig_den {
            self.prev_time_sig_num = t.time_sig_num;
            self.prev_time_sig_den = t.time_sig_den;
            Some((t.time_sig_num, t.time_sig_den))
        } else {
            None
        };
        let playing = if t.playing != self.prev_playing {
            self.prev_playing = t.playing;
            Some(t.playing)
        } else {
            None
        };
        TransportChanges { tempo, time_signature, playing }
    }
}

} // verus!
