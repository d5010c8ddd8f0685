use rs_vst_host::panel::{
    engine_status_line, panel_mode, param_edit_action, rack_click_actions, slot_row, value_label, visible_params, PanelMode, RackClicks,
};
use rs_vst_host::protocol::GuiAction;
use rs_vst_host::rack::ParamSnapshot;

fn param(id: u32, title: &str) -> ParamSnapshot {
    ParamSnapshot {
        id,
        title: title.into(),
        units: String::new(),
        value: 0.5f64.to_bits(),
        default: 0.5f64.to_bits(),
        display: "0.500".into(),
        can_automate: true,
        is_read_only: false,
        is_bypass: false,
    }
}

#[test]
fn test_panel_mode_cases() {
    assert_eq!(panel_mode(None, Some(0), 3), PanelMode::NoSelection);
    assert_eq!(panel_mode(Some(1), Some(0), 0), PanelMode::ActivatePrompt);
    assert_eq!(panel_mode(Some(1), None, 0), PanelMode::ActivatePrompt);
    assert_eq!(panel_mode(Some(0), Some(0), 0), PanelMode::NoParameters);
    assert_eq!(panel_mode(Some(0), Some(0), 2), PanelMode::Parameters { inactive: false });
    assert_eq!(panel_mode(Some(2), Some(0), 2), PanelMode::Parameters { inactive: true });
}

#[test]
fn test_visible_params_filter_is_case_insensitive() {
    let params = vec![param(1, "Volume"), param(2, "Pan"), param(3, "Filter Cutoff"), param(4, "VOLUME 2")];
    assert_eq!(visible_params(&params, ""), vec![0, 1, 2, 3]);
    assert_eq!(visible_params(&params, "vol"), vec![0, 3]);
    assert_eq!(visible_params(&params, "CUT"), vec![2]);
    assert!(visible_params(&params, "resonance").is_empty());
}

#[test]
fn test_value_label_units() {
    assert_eq!(value_label("-3.0", "dB"), "-3.0 dB");
    assert_eq!(value_label("0.500", ""), "0.500");
}

#[test]
fn test_slot_row_controls() {
    let row = slot_row(0, "Acme", false, true, true, false);
    assert_eq!(row.badge, " 1");
    assert_eq!(row.subtitle, "Acme • active");
    assert_eq!(row.bypass_icon, "🔊");
    assert!(row.editor_button && row.stop_button);
    let row = slot_row(11, "Acme", true, true, true, true);
    assert_eq!(row.badge, "12");
    assert!(!row.editor_button);
    assert_eq!(row.bypass_icon, "🔇");
    let row = slot_row(3, "Acme", false, false, true, false);
    assert_eq!(row.subtitle, "Acme");
    assert!(!row.stop_button && !row.editor_button);
}

#[test]
fn test_param_edit_action_live_or_staged() {
    assert!(matches!(param_edit_action(true, 2, 7, 9), GuiAction::SetParameter { id: 7, value: 9 }));
    assert!(matches!(
        param_edit_action(false, 2, 7, 9),
        GuiAction::StageParameter { slot_index: 2, id: 7, value: 9 }
    ));
}

#[test]
fn test_rack_click_actions_order() {
    let clicks = RackClicks { selected: Some(2), remove: Some(0), deactivate: true, activate: Some(1), open_editor: true };
    let actions = rack_click_actions(Some(1), clicks);
    assert_eq!(actions.len(), 5);
    assert!(matches!(actions[0], GuiAction::SelectSlot { index: Some(2) }));
    assert!(matches!(actions[1], GuiAction::RemoveFromRack { index: 0 }));
    assert!(matches!(actions[2], GuiAction::DeactivateSlot));
    assert!(matches!(actions[3], GuiAction::ActivateSlot { index: 1 }));
    assert!(matches!(actions[4], GuiAction::OpenEditor));
    let idle = RackClicks { selected: Some(1), remove: None, deactivate: false, activate: None, open_editor: false };
    assert!(rack_click_actions(Some(1), idle).is_empty());
    let deselect = RackClicks { selected: None, ..idle };
    assert!(matches!(rack_click_actions(Some(1), deselect)[0], GuiAction::SelectSlot { index: None }));
}

#[test]
fn test_engine_status_line() {
    assert_eq!(engine_status_line(48000, 256, "Speakers", 0), "48000 Hz • 256 frames • Speakers");
    assert_eq!(engine_status_line(44100, 512, "USB", 2), "44100 Hz • 512 frames • USB | 2 editor(s)");
}
