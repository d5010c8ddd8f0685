//! What the rack and the parameter view show, shared by the in-process
//! host window and the GUI process: which parameter view to draw, which
//! parameters the search keeps, how values and slots are labelled, and
//! what an edit turns into.
use vstd::prelude::*;
use crate::protocol::GuiAction;
use crate::rack::{params_view, ParamModel, ParamSnapshot};
use crate::text::{chars_of, decimal, lowercase, lowercase_of, occurs, occurs_in, push_decimal, push_str};

verus! {

/// Which parameter view to draw.
#[derive(Debug, Clone, Copy, PartialEq, Eq, Structural)]
pub enum PanelMode {
    /// No slot is selected: invite the user to pick one.
    NoSelection,
    /// The selected slot is inactive and nothing is cached for it: invite
    /// the user to activate it.
    ActivatePrompt,
    /// The selected slot is active but exposes no parameters.
    NoParameters,
    /// Show the parameters; `inactive` adds the notice that changes wait
    /// for the next activation.
    Parameters { inactive: bool },
}

/// The parameter view for the selection `selected`, the engine's active
/// slot `active` and `shown` parameters on display.
pub open spec fn panel_mode_of(selected: Option<usize>, active: Option<usize>, shown: nat) -> PanelMode {
    match selected {
        None => PanelMode::NoSelection,
        Some(i) => if active != Some(i) && shown == 0 {
            PanelMode::ActivatePrompt
        } else if shown == 0 {
            PanelMode::NoParameters
        } else {
            PanelMode::Parameters { inactive: active != Some(i) }
        },
    }
}

/// Decide which parameter view to draw.
pub fn panel_mode(selected: Option<usize>, active: Option<usize>, shown: usize) -> (m: PanelMode)
    ensures
        m == panel_mode_of(selected, active, shown as nat),
{
    match selected {
        None => PanelMode::NoSelection,
        Some(i) => {
            let is_active = match active {
                Some(a) => a == i,
                None => false,
            };
            if !is_active && shown == 0 {
                PanelMode::ActivatePrompt
            } else if shown == 0 {
                PanelMode::NoParameters
            } else {
                PanelMode::Parameters { inactive: !is_active }
            }
        },
    }
}

/// Whether the parameter titled `title` passes the search `filter`: the
/// lowercase filter is empty or occurs in the lowercase title.
pub open spec fn param_visible(title: Seq<char>, filter: Seq<char>) -> bool {
    lowercase_of(filter).len() == 0 || occurs_in(lowercase_of(filter), lowercase_of(title))
}

/// The indices of the first `n` parameters that pass `filter`, in order.
pub open spec fn visible_prefix(params: Seq<ParamModel>, filter: Seq<char>, n: nat) -> Seq<usize>
    decreases n,
{
    if n == 0 {
        Seq::empty()
    } else {
        let rest = visible_prefix(params, filter, (n - 1) as nat);
        if param_visible(params[n - 1].title, filter) {
            rest.push((n - 1) as usize)
        } else {
            rest
        }
    }
}

/// The indices of the parameters that pass the search `filter`, in order.
pub fn visible_params(params: &Vec<ParamSnapshot>, filter: &str) -> (r: Vec<usize>)
    ensures
        r@ == visible_prefix(params_view(params@), filter@, params@.len()),
{
    let f = chars_of(lowercase(filter).as_str());
    let mut r: Vec<usize> = Vec::new();
    let mut i: usize = 0;
    while i < params.len()
        invariant
            i <= params@.len(),
            f@ == lowercase_of(filter@),
            r@ == visible_prefix(params_view(params@), filter@, i as nat),
        decreases params@.len() - i,
    {
        let keep = if f.len() == 0 {
            true
        } else {
            let t = chars_of(lowercase(params[i].title.as_str()).as_str());
            occurs(&f, &t)
        };
        if keep {
            r.push(i);
        }
        i = i + 1;
    }
    r
}

/// The value shown beside a parameter: its display text, followed by its
/// units after a space when it has any.
pub fn value_label(display: &str, units: &str) -> (s: String)
    ensures
        s@ == display@ + (if units@.len() == 0 {
            Seq::<char>::empty()
        } else {
            " "@ + units@
        }),
{
    let mut s = String::new();
    push_str(&mut s, display);
    if units.unicode_len() > 0 {
        push_str(&mut s, " ");
        push_str(&mut s, units);
    }
    s
}

/// The slot number shown on the row of slot `index`: its position counted
/// from one, right-aligned in two columns.
pub open spec fn badge_text(index: nat) -> Seq<char> {
    if index + 1 < 10 {
        " "@ + decimal(index + 1)
    } else {
        decimal(index + 1)
    }
}

/// How one rack row is drawn.
pub struct SlotRow {
    /// The slot number.
    pub badge: String,
    /// The line under the name: the vendor, marked when the slot is active.
    pub subtitle: String,
    /// The bypass button's icon.
    pub bypass_icon: &'static str,
    /// Whether the row offers the editor button.
    pub editor_button: bool,
    /// Whether the row offers the stop button (else the activate button).
    pub stop_button: bool,
}

/// How the row of slot `index` with vendor `vendor` is drawn: active rows
/// offer stopping, and the editor when the plugin has one outside safe
/// mode; inactive rows offer activation.
pub fn slot_row(index: usize, vendor: &str, bypassed: bool, active: bool, has_editor: bool, safe_mode: bool) -> (r:
    SlotRow)
    requires
        index < usize::MAX,
    ensures
        r.badge@ == badge_text(index as nat),
        r.subtitle@ == vendor@ + (if active {
            " • active"@
        } else {
            Seq::<char>::empty()
        }),
        r.bypass_icon@ == (if bypassed {
            "🔇"@
        } else {
            "🔊"@
        }),
        r.editor_button == (active && has_editor && !safe_mode),
        r.stop_button == active,
{
    let mut badge = String::new();
    let n = index + 1;
    if n < 10 {
        push_str(&mut badge, " ");
    }
    push_decimal(&mut badge, n as u64);
    let mut subtitle = String::new();
    push_str(&mut subtitle, vendor);
    if active {
        push_str(&mut subtitle, " • active");
    }
    let bypass_icon: &'static str = if bypassed {
        "🔇"
    } else {
        "🔊"
    };
    SlotRow { badge, subtitle, bypass_icon, editor_button: active && has_editor && !safe_mode, stop_button: active }
}

/// The action the GUI sends for a slider edit of parameter `id` of the
/// selected slot `slot_index`: a live change when the slot is active,
/// else a staged one.
pub fn param_edit_action(active: bool, slot_index: usize, id: u32, value: u64) -> (a: GuiAction)
    ensures
        active ==> a == (GuiAction::SetParameter { id, value }),
        !active ==> a == (GuiAction::StageParameter { slot_index, id, value }),
{
    if active {
        GuiAction::SetParameter { id, value }
    } else {
        GuiAction::StageParameter { slot_index, id, value }
    }
}

/// What the user clicked in the rack during one frame.
#[derive(Debug, Clone, Copy)]
pub struct RackClicks {
    /// The selection after the frame (a click on a row selects it).
    pub selected: Option<usize>,
    /// The row whose remove button was clicked.
    pub remove: Option<usize>,
    /// Whether the stop button of the active row was clicked.
    pub deactivate: bool,
    /// The row whose activate button was clicked.
    pub activate: Option<usize>,
    /// Whether the editor button was clicked.
    pub open_editor: bool,
}

/// The actions a frame's clicks send, in this order: a changed selection,
/// a removal, a deactivation, an activation, an editor request.
pub open spec fn click_actions(previous: Option<usize>, c: RackClicks) -> Seq<GuiAction> {
    let s1: Seq<GuiAction> = if c.selected != previous {
        seq![GuiAction::SelectSlot { index: c.selected }]
    } else {
        Seq::empty()
    };
    let s2 = match c.remove {
        Some(i) => s1.push(GuiAction::RemoveFromRack { index: i }),
        None => s1,
    };
    let s3 = if c.deactivate {
        s2.push(GuiAction::DeactivateSlot)
    } else {
        s2
    };
    let s4 = match c.activate {
        Some(i) => s3.push(GuiAction::ActivateSlot { index: i }),
        None => s3,
    };
    if c.open_editor {
        s4.push(GuiAction::OpenEditor)
    } else {
        s4
    }
}

/// The actions to send for a frame's clicks, given the selection before
/// the frame.
pub fn rack_click_actions(previous: Option<usize>, clicks: RackClicks) -> (r: Vec<GuiAction>)
    ensures
        r@ == click_actions(previous, clicks),
{
    let mut r: Vec<GuiAction> = Vec::new();
    let changed = match (clicks.selected, previous) {
        (Some(a), Some(b)) => a != b,
        (None, None) => false,
        _ => true,
    };
    if changed {
        r.push(GuiAction::SelectSlot { index: clicks.selected });
    }
    match clicks.remove {
        Some(i) => r.push(GuiAction::RemoveFromRack { index: i }),
        None => {},
    }
    if clicks.deactivate {
        r.push(GuiAction::DeactivateSlot);
    }
    match clicks.activate {
        Some(i) => r.push(GuiAction::ActivateSlot { index: i }),
        None => {},
    }
    if clicks.open_editor {
        r.push(GuiAction::OpenEditor);
    }
    assert(r@ =~= click_actions(previous, clicks));
    r
}

/// The engine line of the transport bar: sample rate, block size and
/// device, followed by the number of open editors when there are any.
pub fn engine_status_line(sample_rate: u32, buffer_size: u32, device_name: &str, editors_open: usize) -> (s: String)
    ensures
        s@ == decimal(sample_rate as nat) + " Hz • "@ + decimal(buffer_size as nat) + " frames • "@ + device_name@
            + (if editors_open > 0 {
            " | "@ + decimal(editors_open as nat) + " editor(s)"@
        } else {
            Seq::<char>::empty()
        }),
{
    let mut s = String::new();
    push_decimal(&mut s, sample_rate as u64);
    push_str(&mut s, " Hz • ");
    push_decimal(&mut s, buffer_size as u64);
    push_str(&mut s, " frames • ");
    push_str(&mut s, device_name);
    if editors_open > 0 {
        push_str(&mut s, " | ");
        push_decimal(&mut s, editors_open as u64);
        push_str(&mut s, " editor(s)");
    }
    s
}

} // verus!
