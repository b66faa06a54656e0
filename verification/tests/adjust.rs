use native_overlay::adjust::{
    draw_native_video_adjustment_body, NativeCreativeLutChoice, NativeScaleFilterKind, NativeVideoAdjustmentEvents,
    NativeVideoAdjustmentTab, NativeVideoScaleState,
};
use native_overlay::color::OverlayColor;
use native_overlay::commands::NativeOverlayCommand;

fn keys() -> Vec<String> {
    (1..=10).map(|i| (i % 10).to_string()).collect()
}

fn kinds() -> Vec<NativeScaleFilterKind> {
    vec![NativeScaleFilterKind::OsDefault, NativeScaleFilterKind::Other, NativeScaleFilterKind::Anime]
}

fn scale() -> NativeVideoScaleState {
    NativeVideoScaleState { filter: 0, smoothing_percent: 50, anime4k_budget: 1 }
}

fn luts() -> Vec<NativeCreativeLutChoice> {
    vec![
        NativeCreativeLutChoice { id: 7, name: "ウォームフィルム".to_string(), builtin: true, loaded: true, error: None },
        NativeCreativeLutChoice { id: 9, name: "Mine".to_string(), builtin: false, loaded: false, error: None },
        NativeCreativeLutChoice {
            id: 11,
            name: "Broken".to_string(),
            builtin: false,
            loaded: false,
            error: Some("bad header".to_string()),
        },
    ]
}

fn events() -> NativeVideoAdjustmentEvents {
    NativeVideoAdjustmentEvents {
        tab_hovered: (false, false),
        tab_clicked: None,
        grade_changed: false,
        grade_persist: false,
        filter_picked: None,
        budget_picked: None,
        remeasure_clicked: false,
        smoothing_set: None,
        lut_picked: None,
        lut_strength_changed: false,
        lut_strength_persist: false,
        reset_all_clicked: false,
        load_clicked: None,
        save_clicked: None,
    }
}

#[test]
fn adjustment_tabs_switch_on_click() {
    let mut tab = NativeVideoAdjustmentTab::ColorTone;
    let mut sc = scale();
    let mut lut = None;
    let mut commands = Vec::new();
    let mut ev = events();
    ev.tab_hovered = (false, true);
    ev.tab_clicked = Some(NativeVideoAdjustmentTab::Filter);
    let view = draw_native_video_adjustment_body(
        &mut tab, &mut sc, &mut lut, &kinds(), false, &luts(), &[], &keys(), &ev, &mut commands,
    );
    assert_eq!(tab, NativeVideoAdjustmentTab::Filter);
    assert_eq!(view.tabs.0, (OverlayColor::RgbaUnmultiplied(80, 140, 220, 190), OverlayColor::White));
    assert_eq!(view.tabs.1, (OverlayColor::RgbaUnmultiplied(255, 255, 255, 34), OverlayColor::Gray(190)));
    assert!(view.filter_tab.is_some());
    assert!(commands.is_empty());
}

#[test]
fn adjustment_slots_load_only_saved_presets() {
    let mut tab = NativeVideoAdjustmentTab::Filter;
    let mut sc = scale();
    let mut lut = None;
    let slots = vec![Some("Warm".to_string()), None];
    let mut commands = Vec::new();
    let mut ev = events();
    ev.load_clicked = Some(1);
    let view = draw_native_video_adjustment_body(
        &mut tab, &mut sc, &mut lut, &kinds(), false, &luts(), &slots, &keys(), &ev, &mut commands,
    );
    assert!(commands.is_empty());
    assert!(view.slots[0].load_enabled);
    assert!(!view.slots[1].load_enabled);
    assert!(!view.slots[5].load_enabled);
    assert_eq!(view.slots[0].load_tooltip, "Warm\nCtrl+1 で読み込む");
    assert_eq!(view.slots[1].load_tooltip, "スロット2 は空です");
    assert_eq!(view.slots[0].save_tooltip, "現在の動画補正をスロット1に保存\n現在: Warm");
    assert_eq!(view.slots[9].save_tooltip, "現在の動画補正をスロット0に保存");

    ev.load_clicked = Some(0);
    ev.save_clicked = Some(9);
    draw_native_video_adjustment_body(
        &mut tab, &mut sc, &mut lut, &kinds(), false, &luts(), &slots, &keys(), &ev, &mut commands,
    );
    assert!(matches!(commands[0], NativeOverlayCommand::VideoAdjustLoadSlot { slot_idx: 0 }));
    assert!(matches!(commands[1], NativeOverlayCommand::VideoAdjustSaveSlot { slot_idx: 9 }));
}

#[test]
fn adjustment_filter_tab_commands_come_in_order_with_adjustments_last() {
    let mut tab = NativeVideoAdjustmentTab::Filter;
    let mut sc = scale();
    let mut lut = None;
    let mut commands = Vec::new();
    let mut ev = events();
    ev.filter_picked = Some(2);
    ev.budget_picked = Some(3);
    ev.remeasure_clicked = true;
    ev.smoothing_set = Some(70);
    ev.lut_picked = Some(Some(9));
    ev.save_clicked = Some(2);
    let view = draw_native_video_adjustment_body(
        &mut tab, &mut sc, &mut lut, &kinds(), false, &luts(), &[], &keys(), &ev, &mut commands,
    );
    assert_eq!(sc, NativeVideoScaleState { filter: 2, smoothing_percent: 70, anime4k_budget: 3 });
    assert_eq!(lut, Some(9));
    assert!(matches!(
        commands[..],
        [
            NativeOverlayCommand::RequestVideoScaleSettings { filter: 2, smoothing_percent: 50 },
            NativeOverlayCommand::SetVideoAnime4kBudget { budget: 3 },
            NativeOverlayCommand::RemeasureVideoAnime4k,
            NativeOverlayCommand::RequestVideoScaleSettings { filter: 2, smoothing_percent: 70 },
            NativeOverlayCommand::VideoAdjustSaveSlot { slot_idx: 2 },
            NativeOverlayCommand::SetVideoAdjustments { persist: true },
        ]
    ));
    let f = view.filter_tab.unwrap();
    assert!(f.show_anime4k && f.remeasure_enabled && f.show_smoothing);
    assert_eq!(f.lut_selected_name, "なし");
    assert_eq!(f.lut_entries, vec!["プリセット: ウォームフィルム", "Mine", "Broken"]);
    assert!(f.show_lut_strength);
    assert_eq!(f.lut_status.as_deref(), Some("LUTを読み込み中…"));
}

#[test]
fn adjustment_remeasure_is_disabled_while_measuring_and_os_default_has_no_smoothing() {
    let mut tab = NativeVideoAdjustmentTab::Filter;
    let mut sc = NativeVideoScaleState { filter: 2, smoothing_percent: 50, anime4k_budget: 1 };
    let mut lut = Some(11);
    let mut commands = Vec::new();
    let mut ev = events();
    ev.remeasure_clicked = true;
    let view = draw_native_video_adjustment_body(
        &mut tab, &mut sc, &mut lut, &kinds(), true, &luts(), &[], &keys(), &ev, &mut commands,
    );
    assert!(commands.is_empty());
    let f = view.filter_tab.unwrap();
    assert!(!f.remeasure_enabled);
    assert_eq!(f.lut_selected_name, "Broken");
    assert_eq!(f.lut_status.as_deref(), Some("LUTを読み込めません: bad header"));

    ev = events();
    ev.filter_picked = Some(0);
    ev.smoothing_set = Some(10);
    ev.budget_picked = Some(0);
    let view = draw_native_video_adjustment_body(
        &mut tab, &mut sc, &mut lut, &kinds(), false, &luts(), &[], &keys(), &ev, &mut commands,
    );
    assert!(matches!(
        commands[..],
        [NativeOverlayCommand::RequestVideoScaleSettings { filter: 0, smoothing_percent: 50 }]
    ));
    assert_eq!(sc.smoothing_percent, 50);
    let f = view.filter_tab.unwrap();
    assert!(!f.show_anime4k && !f.show_smoothing);
}

#[test]
fn adjustment_unknown_lut_and_reset_all() {
    let mut tab = NativeVideoAdjustmentTab::Filter;
    let mut sc = scale();
    let mut lut = Some(42);
    let mut commands = Vec::new();
    let mut ev = events();
    ev.reset_all_clicked = true;
    let view = draw_native_video_adjustment_body(
        &mut tab, &mut sc, &mut lut, &kinds(), false, &luts(), &[], &keys(), &ev, &mut commands,
    );
    assert_eq!(view.filter_tab.unwrap().lut_selected_name, "（未登録）");
    assert_eq!(lut, None);
    assert!(matches!(commands[..], [NativeOverlayCommand::SetVideoAdjustments { persist: true }]));
}

#[test]
fn adjustment_tone_sliders_count_only_on_their_tab() {
    let mut tab = NativeVideoAdjustmentTab::ColorTone;
    let mut sc = scale();
    let mut lut = None;
    let mut commands = Vec::new();
    let mut ev = events();
    ev.grade_changed = true;
    ev.filter_picked = Some(1);
    let view = draw_native_video_adjustment_body(
        &mut tab, &mut sc, &mut lut, &kinds(), false, &luts(), &[], &keys(), &ev, &mut commands,
    );
    assert!(view.filter_tab.is_none());
    assert_eq!(sc, scale());
    assert!(matches!(commands[..], [NativeOverlayCommand::SetVideoAdjustments { persist: false }]));
}
