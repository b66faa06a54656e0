use native_overlay::color::OverlayColor;
use native_overlay::commands::NativeOverlayCommand;
use native_overlay::vst3::{
    draw_native_vst3_slot_row, draw_overlay_vst3_gui_icon, NativeOverlayVst3Slot,
    NativeOverlayVst3SlotState, Vst3SlotStatus,
};

fn slot(name: &str) -> NativeOverlayVst3Slot {
    NativeOverlayVst3Slot {
        idx: 0,
        name: name.to_string(),
        path: "C:/plugins/eq.vst3".to_string(),
        bypass: false,
        placeholder: false,
        state: NativeOverlayVst3SlotState::Ready,
        has_latency: true,
        auto_bypassed_for_latency: false,
        gui_visible: false,
    }
}

#[test]
fn slot_row_numbers_from_one_and_toggles_bypass() {
    let s = slot("EQ");
    let mut commands = Vec::new();
    let view = draw_native_vst3_slot_row(&s, true, false, false, &mut commands);
    assert_eq!(view.label, "1. EQ");
    assert!(view.checkbox_enabled && view.checked);
    assert_eq!(view.status, None);
    assert!(view.show_latency && !view.show_auto_off);
    assert_eq!(view.gui_tooltip, "プラグイン GUI を表示");
    assert!(matches!(
        &commands[..],
        [NativeOverlayCommand::Vst3SetBypass { idx: 0, path, bypass: true }] if path == "C:/plugins/eq.vst3"
    ));
}

#[test]
fn slot_row_label_is_cut_at_42_characters() {
    let mut s = slot(&"n".repeat(50));
    s.idx = 9;
    let mut commands = Vec::new();
    let view = draw_native_vst3_slot_row(&s, false, false, false, &mut commands);
    let expected = format!("10. {}...", "n".repeat(38));
    assert_eq!(view.label, expected);
    assert!(commands.is_empty());
}

#[test]
fn slot_row_window_button_shows_or_hides_the_window() {
    let mut s = slot("Comp");
    let mut commands = Vec::new();
    draw_native_vst3_slot_row(&s, false, true, true, &mut commands);
    s.gui_visible = true;
    let view = draw_native_vst3_slot_row(&s, false, true, true, &mut commands);
    assert_eq!(view.gui_tooltip, "プラグイン GUI を閉じる");
    assert_eq!(view.gui_icon.stroke, OverlayColor::Rgb(245, 132, 28));
    assert!(matches!(commands[0], NativeOverlayCommand::Vst3ShowSlotGui { idx: 0, .. }));
    assert!(matches!(commands[1], NativeOverlayCommand::Vst3HideSlotGui { idx: 0, .. }));
}

#[test]
fn slot_row_placeholder_is_read_only() {
    let mut s = slot("Loading…");
    s.placeholder = true;
    s.bypass = true;
    s.auto_bypassed_for_latency = true;
    let mut commands = Vec::new();
    let view = draw_native_vst3_slot_row(&s, false, false, true, &mut commands);
    assert!(!view.checkbox_enabled && !view.checked);
    assert_eq!(view.status, Some(Vst3SlotStatus::Reading));
    assert!(!view.show_latency && view.show_auto_off);
    assert_eq!(view.gui_icon.stroke, OverlayColor::Gray(84));
    assert!(commands.is_empty());
}

#[test]
fn slot_row_reports_loading_and_errors() {
    let mut s = slot("X");
    s.state = NativeOverlayVst3SlotState::Loading;
    let mut commands = Vec::new();
    assert_eq!(draw_native_vst3_slot_row(&s, false, false, false, &mut commands).status, Some(Vst3SlotStatus::Loading));
    s.state = NativeOverlayVst3SlotState::Error;
    assert_eq!(draw_native_vst3_slot_row(&s, false, false, false, &mut commands).status, Some(Vst3SlotStatus::Error));
}

#[test]
fn gui_icon_colours_follow_window_state() {
    let c = draw_overlay_vst3_gui_icon(true, false, true);
    assert_eq!(c.bg, OverlayColor::RgbaUnmultiplied(255, 255, 255, 34));
    assert_eq!(c.stroke, OverlayColor::Gray(132));
    assert_eq!(c.fill, OverlayColor::RgbaUnmultiplied(132, 132, 132, 20));
    let c = draw_overlay_vst3_gui_icon(false, true, true);
    assert_eq!(c.bg, OverlayColor::RgbaUnmultiplied(80, 140, 220, 190));
    assert_eq!(c.fill, OverlayColor::RgbaUnmultiplied(245, 132, 28, 34));
}

#[test]
fn slot_row_placeholder_sends_no_command() {
    let mut s = slot("Loading plug-in");
    s.placeholder = true;
    let mut commands = Vec::new();
    let view = draw_native_vst3_slot_row(&s, true, true, true, &mut commands);
    assert!(!view.checkbox_enabled);
    assert_eq!(view.status, Some(Vst3SlotStatus::Reading));
    assert!(commands.is_empty());
}
