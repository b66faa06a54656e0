use native_overlay::color::OverlayColor;
use native_overlay::commands::NativeOverlayCommand;
use native_overlay::hud::{
    draw_native_center_status, draw_native_navigation_preview, draw_native_normalize_progress,
    draw_native_panel_callout, draw_native_perf_overlay, draw_native_ring_guide_overlay,
    draw_native_video_left_panel, draw_overlay_speed_control, draw_overlay_volume_slider,
    native_panel_callout_arrow_direction, video_jump_panel_options, NativeOverlayPerfSnapshot,
    NativeOverlayRingGuide, NativeOverlayRingGuideSlot, NativeSpeedAction, NativeVideoLeftPanelTab,
    NativeVolumeAction,
};

#[test]
fn left_panel_tabs_and_close() {
    let mut tab = NativeVideoLeftPanelTab::Jump;
    let view = draw_native_video_left_panel(&mut tab, (false, true), Some(NativeVideoLeftPanelTab::Adjustment), true, false, true);
    assert_eq!(tab, NativeVideoLeftPanelTab::Adjustment);
    assert_eq!(view.tabs.0, (OverlayColor::RgbaUnmultiplied(80, 140, 220, 190), OverlayColor::White));
    assert_eq!(view.tabs.1, (OverlayColor::RgbaUnmultiplied(255, 255, 255, 34), OverlayColor::Gray(190)));
    assert_eq!(view.close_bg, Some(OverlayColor::Transparent));
    assert!(view.close_clicked);
    let view = draw_native_video_left_panel(&mut tab, (false, false), None, false, false, true);
    assert!(view.close_bg.is_none() && !view.close_clicked);
    let opts = video_jump_panel_options();
    assert_eq!(opts.title, "ジャンプ");
    assert!(opts.show_thumbnails && opts.show_pins);
}

#[test]
fn normalize_cancel_by_click_or_escape() {
    let mut commands = Vec::new();
    let view = draw_native_normalize_progress(false, 0, true, false, true, &mut commands);
    assert!(view.indeterminate);
    assert_eq!(view.cancel_color, OverlayColor::Rgb(255, 120, 120));
    assert_eq!(view.cancel_tooltip, "キャンセル [ESC]");
    assert!(matches!(commands[..], [NativeOverlayCommand::CancelNormalizeScan]));
    let view = draw_native_normalize_progress(false, 5000, false, false, false, &mut commands);
    assert!(!view.indeterminate);
    assert_eq!(commands.len(), 1);
}

#[test]
fn center_status_is_red_for_errors() {
    assert_eq!(draw_native_center_status(true), OverlayColor::Rgb(255, 120, 120));
    assert_eq!(draw_native_center_status(false), OverlayColor::Rgb(238, 238, 238));
}

#[test]
fn speed_control_opens_chooses_and_resets() {
    let mut open = false;
    assert_eq!(draw_overlay_speed_control(true, false, true, false, None, &mut open), (None, false));
    assert!(open);
    assert_eq!(
        draw_overlay_speed_control(false, false, false, false, Some(3), &mut open),
        (Some(NativeSpeedAction::Choose { index: 3 }), false)
    );
    assert!(!open);
    open = true;
    assert_eq!(draw_overlay_speed_control(false, true, true, false, Some(1), &mut open), (Some(NativeSpeedAction::Reset), true));
    assert!(!open);
    open = true;
    assert_eq!(draw_overlay_speed_control(false, false, false, true, None, &mut open), (None, false));
    assert!(!open);
}

#[test]
fn volume_fader_actions() {
    assert_eq!(draw_overlay_volume_slider(true, true, false, true, false), Some(NativeVolumeAction::Reset));
    assert_eq!(draw_overlay_volume_slider(false, true, false, true, false), Some(NativeVolumeAction::Pointer { persist: true }));
    assert_eq!(draw_overlay_volume_slider(false, false, true, true, false), Some(NativeVolumeAction::Pointer { persist: false }));
    assert_eq!(draw_overlay_volume_slider(false, false, true, true, true), Some(NativeVolumeAction::DragEnd));
    assert_eq!(draw_overlay_volume_slider(false, true, false, false, false), None);
}

#[test]
fn perf_header_warns_and_makes_room_for_underrun() {
    let snap = NativeOverlayPerfSnapshot { late_drop: 3, wait_timeout: 0, audio_active: true, audio_underrun_active: true };
    let v = draw_native_perf_overlay(&snap, false, false);
    assert_eq!(v.drop_text, "drop 3 timeout 0");
    assert_eq!(v.drop_color, OverlayColor::Rgb(255, 112, 112));
    assert!(v.show_underrun && v.short_clock && !v.show_lead);
    assert_eq!(v.av_label, "vid");
    let calm = NativeOverlayPerfSnapshot { late_drop: 0, wait_timeout: 0, audio_active: true, audio_underrun_active: false };
    let v = draw_native_perf_overlay(&calm, true, true);
    assert_eq!(v.drop_color, OverlayColor::Rgb(154, 236, 178));
    assert!(!v.show_underrun && !v.short_clock && v.show_lead);
    assert_eq!(v.av_label, "A/V");
}

#[test]
fn ring_guide_has_eight_segments() {
    let guide = NativeOverlayRingGuide {
        slots: vec![
            NativeOverlayRingGuideSlot { action_label: "早送りと巻き戻しの切替".to_string() },
            NativeOverlayRingGuideSlot { action_label: "閉じる".to_string() },
        ],
        selected_slot: Some(1),
    };
    let v = draw_native_ring_guide_overlay(&guide);
    assert_eq!(v.len(), 8);
    assert_eq!(v[0].label, "早送りと巻き戻しの切替");
    assert_eq!(v[1].label, "閉じる");
    assert!(v[1].selected);
    assert_eq!(v[1].stroke, OverlayColor::White);
    assert_eq!(v[0].fill, OverlayColor::RgbaUnmultiplied(0, 0, 0, 118));
    assert_eq!(v[5].label, "");
}

#[test]
fn ring_guide_cuts_long_labels() {
    let guide = NativeOverlayRingGuide {
        slots: vec![NativeOverlayRingGuideSlot { action_label: "abcdefghijklmnop".to_string() }],
        selected_slot: None,
    };
    assert_eq!(draw_native_ring_guide_overlay(&guide)[0].label, "abcdefghijk...");
}

#[test]
fn panel_callouts_point_in_or_out() {
    assert_eq!(native_panel_callout_arrow_direction(true, false), 1);
    assert_eq!(native_panel_callout_arrow_direction(true, true), -1);
    assert_eq!(native_panel_callout_arrow_direction(false, false), -1);
    let v = draw_native_panel_callout(false, true, true, true);
    assert_eq!(v.area_id, "native_right_panel_callout");
    assert_eq!(v.tooltip, "情報パネルを開閉");
    assert_eq!(v.arrow_direction, 1);
    assert_eq!(v.fill, OverlayColor::RgbaUnmultiplied(48, 120, 190, 225));
    assert!(v.clicked);
}

#[test]
fn navigation_preview_title_and_close() {
    let mut commands = Vec::new();
    assert_eq!(draw_native_navigation_preview(&"  ".to_string(), true, &mut commands), "video");
    assert_eq!(draw_native_navigation_preview(&"next.mp4".to_string(), false, &mut commands), "next.mp4");
    assert!(matches!(commands[..], [NativeOverlayCommand::CloseFullscreen]));
}
