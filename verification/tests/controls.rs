use native_overlay::color::{draw_overlay_button_bg, native_hud_dim_color, OverlayColor};
use native_overlay::commands::{NativeOverlayCommand, NativeVideoBar};
use native_overlay::controls::{
    draw_native_bar_lock_button, draw_native_frame_step_button, draw_native_panorama_projection_popup,
    draw_native_ring_segment_label, draw_native_touch_panel_handle, draw_overlay_info_icon,
    draw_overlay_panorama_reset_icon, draw_overlay_skip_to_marker_icon, draw_overlay_video_zoom_icon,
    NativeFrameStepHold,
};

#[test]
fn native_bar_lock_button_click_emits_the_selected_toggle_command() {
    let mut commands = Vec::new();
    draw_native_bar_lock_button(true, true, false, NativeVideoBar::Seek, &mut commands);
    assert!(commands.iter().any(|command| matches!(
        command,
        NativeOverlayCommand::ToggleBarLock { bar: NativeVideoBar::Seek }
    )));
}

#[test]
fn bar_lock_button_shows_the_lock_and_ignores_hover_only() {
    let mut commands = Vec::new();
    let bg = draw_native_bar_lock_button(true, false, true, NativeVideoBar::Top, &mut commands);
    assert_eq!(bg, OverlayColor::RgbaUnmultiplied(80, 140, 220, 190));
    assert!(commands.is_empty());
    let bg = draw_native_bar_lock_button(true, false, false, NativeVideoBar::Top, &mut commands);
    assert_eq!(bg, OverlayColor::RgbaUnmultiplied(255, 255, 255, 34));
}

#[test]
fn button_background_depends_on_state() {
    assert_eq!(draw_overlay_button_bg(false, false), OverlayColor::Transparent);
    assert_eq!(draw_overlay_button_bg(true, false), OverlayColor::RgbaUnmultiplied(255, 255, 255, 34));
    assert_eq!(draw_overlay_button_bg(true, true), OverlayColor::RgbaUnmultiplied(80, 140, 220, 190));
    assert_eq!(native_hud_dim_color(), OverlayColor::RgbaUnmultiplied(0, 0, 0, 86));
}

const MS: u64 = 1_000_000;

#[test]
fn frame_step_press_steps_at_once_then_every_100ms() {
    let mut hold = None;
    let mut commands = Vec::new();
    assert!(draw_native_frame_step_button(1, true, true, 1_000 * MS, &mut hold, &mut commands));
    assert_eq!(hold, Some(NativeFrameStepHold { direction: 1, last_step_at_ns: 1_000 * MS }));
    assert_eq!(commands.len(), 1);
    assert!(draw_native_frame_step_button(1, false, true, 1_099 * MS, &mut hold, &mut commands));
    assert_eq!(commands.len(), 1);
    assert!(draw_native_frame_step_button(1, false, true, 1_100 * MS, &mut hold, &mut commands));
    assert_eq!(commands.len(), 2);
    assert_eq!(hold, Some(NativeFrameStepHold { direction: 1, last_step_at_ns: 1_100 * MS }));
    assert!(matches!(commands[1], NativeOverlayCommand::FrameStep { direction: 1 }));
}

#[test]
fn frame_step_release_stops_and_other_direction_restarts() {
    let mut hold = Some(NativeFrameStepHold { direction: 1, last_step_at_ns: 0 });
    let mut commands = Vec::new();
    assert!(!draw_native_frame_step_button(1, false, false, 500 * MS, &mut hold, &mut commands));
    assert!(commands.is_empty());
    assert!(!draw_native_frame_step_button(-1, false, true, 500 * MS, &mut hold, &mut commands));
    assert!(commands.is_empty());
    assert!(draw_native_frame_step_button(-1, true, true, 500 * MS, &mut hold, &mut commands));
    assert_eq!(hold, Some(NativeFrameStepHold { direction: -1, last_step_at_ns: 500 * MS }));
    assert!(matches!(commands[0], NativeOverlayCommand::FrameStep { direction: -1 }));
}

#[test]
fn frame_step_clock_going_back_does_not_step() {
    let mut hold = Some(NativeFrameStepHold { direction: 1, last_step_at_ns: 900 * MS });
    let mut commands = Vec::new();
    assert!(draw_native_frame_step_button(1, true, true, 100 * MS, &mut hold, &mut commands));
    assert!(commands.is_empty());
}

#[test]
fn touch_handle_names_its_side() {
    let left = draw_native_touch_panel_handle(true, true, false);
    assert_eq!(left.area_id, "native_left_touch_panel_handle");
    assert_eq!(left.hit_id, "native_left_touch_panel_handle_hit");
    assert_eq!(left.fill, OverlayColor::RgbaUnmultiplied(65, 125, 205, 235));
    assert_eq!(left.arrow_direction, 1);
    assert_eq!(left.tooltip, "パネルを開く");
    let right = draw_native_touch_panel_handle(false, false, true);
    assert_eq!(right.area_id, "native_right_touch_panel_handle");
    assert_eq!(right.fill, OverlayColor::RgbaUnmultiplied(35, 70, 115, 210));
    assert_eq!(right.arrow_direction, -1);
    assert!(right.clicked);
}

#[test]
fn icon_colours_fade_when_disabled() {
    assert_eq!(draw_overlay_video_zoom_icon(true), OverlayColor::White);
    assert_eq!(draw_overlay_video_zoom_icon(false), OverlayColor::Gray(110));
    assert_eq!(draw_overlay_panorama_reset_icon(false), OverlayColor::RgbaUnmultiplied(180, 180, 180, 140));
    assert_eq!(draw_overlay_info_icon(true), (OverlayColor::Rgb(95, 175, 255), true));
    assert_eq!(draw_overlay_info_icon(false), (OverlayColor::White, false));
    assert_eq!(draw_overlay_skip_to_marker_icon(-3, false), (OverlayColor::RgbaUnmultiplied(238, 238, 238, 90), -1));
    assert_eq!(draw_overlay_skip_to_marker_icon(0, true), (OverlayColor::Rgb(238, 238, 238), 1));
    assert_eq!(
        draw_native_ring_segment_label(true),
        (OverlayColor::RgbaUnmultiplied(22, 44, 72, 232), OverlayColor::WhiteAlpha(210))
    );
}

#[test]
fn projection_popup_selects_a_row_and_closes() {
    let mut open = true;
    let mut commands = Vec::new();
    let rows = draw_native_panorama_projection_popup(4, 1, Some(2), Some(3), false, &mut open, &mut commands).unwrap();
    assert_eq!(rows.len(), 4);
    assert_eq!(rows[0], OverlayColor::Transparent);
    assert_eq!(rows[1], OverlayColor::RgbaUnmultiplied(80, 140, 220, 200));
    assert_eq!(rows[2], OverlayColor::RgbaUnmultiplied(80, 80, 80, 200));
    assert!(!open);
    assert!(matches!(commands[0], NativeOverlayCommand::SetPanoramaProjection { row: 3 }));
}

#[test]
fn projection_popup_closes_on_a_press_outside_and_stays_closed() {
    let mut open = true;
    let mut commands = Vec::new();
    assert!(draw_native_panorama_projection_popup(4, 0, None, None, false, &mut open, &mut commands).is_some());
    assert!(open);
    assert!(draw_native_panorama_projection_popup(4, 0, None, None, true, &mut open, &mut commands).is_some());
    assert!(!open);
    assert!(draw_native_panorama_projection_popup(4, 0, None, Some(1), false, &mut open, &mut commands).is_none());
    assert!(commands.is_empty());
}
