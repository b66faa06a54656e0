use native_overlay::color::OverlayColor;
use native_overlay::commands::{NativeOverlayCommand, NativeVideoBar};
use native_overlay::topbar::{
    draw_native_top_bar, draw_native_top_button, draw_native_top_button_enabled, NativeOverlayShortcutLabels,
    NativeTopBarAction, NativeTopBarInput, NativeTopBarMetadata, NativeTopButtonGlyph, PanoramaDetection,
};

fn shortcuts() -> NativeOverlayShortcutLabels {
    NativeOverlayShortcutLabels {
        window_mode: Some("F11".to_string()),
        panorama: Some("P".to_string()),
        panorama_projection: None,
        toggle_audio_mode: None,
        tile_mode: Some("T".to_string()),
        perf_overlay: None,
    }
}

fn input(detection: Option<PanoramaDetection>) -> NativeTopBarInput {
    NativeTopBarInput {
        metadata: Some(NativeTopBarMetadata {
            title: Some("  ".to_string()),
            file_name: "movie.mp4".to_string(),
            panorama_detection: detection,
            shortcuts: shortcuts(),
        }),
        projection_label: None,
        video_zoomed: false,
        fallback_file_name: " fallback ".to_string(),
        perf_visible: true,
        vst3_available: false,
        vst3_panel_visible: false,
        audio_only: false,
        side_panel_click_to_show: true,
        side_panel_label: "クリック".to_string(),
        side_panel_toggled_label: "常時".to_string(),
        top_bar_locked: false,
    }
}

fn ids(view: &native_overlay::topbar::NativeTopBarView) -> Vec<&str> {
    view.buttons.iter().map(|b| b.id.as_str()).collect()
}

#[test]
fn top_bar_title_falls_back_from_title_to_file_name_to_fallback() {
    let mut popup = false;
    let mut commands = Vec::new();
    let view = draw_native_top_bar(&input(None), None, false, false, &mut popup, &mut commands);
    assert_eq!(view.title, "movie.mp4");
    let mut no_meta = input(None);
    no_meta.metadata = None;
    assert_eq!(draw_native_top_bar(&no_meta, None, false, false, &mut popup, &mut commands).title, "fallback");
    no_meta.fallback_file_name = "   ".to_string();
    assert_eq!(draw_native_top_bar(&no_meta, None, false, false, &mut popup, &mut commands).title, "video");
    let mut titled = input(None);
    if let Some(m) = titled.metadata.as_mut() {
        m.title = Some("Title".to_string());
    }
    assert_eq!(draw_native_top_bar(&titled, None, false, false, &mut popup, &mut commands).title, "Title");
    assert!(commands.is_empty());
}

#[test]
fn top_bar_lists_buttons_from_the_right() {
    let mut popup = false;
    let mut commands = Vec::new();
    let view = draw_native_top_bar(&input(None), None, false, false, &mut popup, &mut commands);
    assert_eq!(
        ids(&view),
        vec![
            "native_top_close",
            "native_top_window_toggle",
            "native_top_panorama",
            "native_top_side_panel_mode",
            "native_top_audio_mode",
            "native_top_tile",
            "native_top_perf",
        ]
    );
    assert_eq!(view.buttons[1].tooltip, "ウィンドウ / 全画面 切り替え [F11]");
    assert_eq!(view.buttons[2].tooltip, "360 度動画の情報を読み込み中");
    assert!(!view.buttons[2].enabled);
    assert_eq!(view.buttons[3].tooltip, "パネル表示: クリック\nクリックで「常時」に切り替え");
    assert_eq!(view.buttons[3].glyph, NativeTopButtonGlyph::Info { click_to_show: true });
    assert_eq!(view.buttons[5].tooltip, "サムネイル一覧 [T]");
    assert!(view.buttons[6].active);
    assert!(view.show_subtitle);
    assert_eq!(view.lock_tooltip, "上部情報バーを固定表示");
}

#[test]
fn top_bar_panorama_buttons_and_projection_list() {
    let mut inp = input(Some(PanoramaDetection::Auto));
    inp.projection_label = Some("正距円筒".to_string());
    let mut popup = true;
    let mut commands = Vec::new();
    let view = draw_native_top_bar(&inp, Some(3), false, false, &mut popup, &mut commands);
    assert_eq!(view.buttons[2].tooltip, "360 度表示 [P]");
    assert!(view.buttons[2].active && view.buttons[2].enabled);
    assert_eq!(view.buttons[3].id, "native_top_panorama_projection");
    assert_eq!(view.buttons[3].tooltip, "投影方式: 正距円筒\nクリックで一覧から選択");
    assert!(view.buttons[3].active);
    assert!(matches!(view.buttons[3].action, NativeTopBarAction::ToggleProjectionPopup));
    assert_eq!(view.buttons[4].tooltip, "初期視点に戻す");
    assert!(!popup);
    assert!(commands.is_empty());
    let tile = view.buttons.iter().find(|b| b.id == "native_top_tile").unwrap();
    assert!(!tile.enabled);
    assert_eq!(tile.tooltip, "表示モード中はサムネイル一覧を開けません");
}

#[test]
fn top_bar_closes_the_projection_list_without_the_360_view() {
    let mut popup = true;
    let mut commands = Vec::new();
    draw_native_top_bar(&input(Some(PanoramaDetection::Hint)), None, false, false, &mut popup, &mut commands);
    assert!(!popup);
}

#[test]
fn top_bar_zoom_and_audio_only_variants() {
    let mut zoom = input(Some(PanoramaDetection::Flat));
    zoom.video_zoomed = true;
    let mut popup = false;
    let mut commands = Vec::new();
    let view = draw_native_top_bar(&zoom, Some(3), false, false, &mut popup, &mut commands);
    assert_eq!(view.buttons[2].glyph, NativeTopButtonGlyph::VideoZoom);
    assert_eq!(view.buttons[2].tooltip, "拡大表示 [P]");
    assert_eq!(view.buttons[3].id, "native_top_video_zoom_reset");
    assert!(view.show_zoom_scale);
    assert!(matches!(commands[..], [NativeOverlayCommand::ResetVideoZoom]));

    let mut audio = input(Some(PanoramaDetection::Flat));
    audio.audio_only = true;
    audio.vst3_available = true;
    audio.vst3_panel_visible = true;
    audio.top_bar_locked = true;
    let view = draw_native_top_bar(&audio, None, true, true, &mut popup, &mut commands);
    assert_eq!(
        ids(&view),
        vec!["native_top_close", "native_top_window_toggle", "native_top_panorama", "native_top_side_panel_mode", "native_top_vst3"]
    );
    assert!(!view.buttons[2].enabled);
    assert!(view.buttons[4].active);
    assert!(!view.show_subtitle);
    assert_eq!(view.lock_tooltip, "上部情報バー固定を解除");
    assert_eq!(view.lock_bg, OverlayColor::RgbaUnmultiplied(80, 140, 220, 190));
    assert!(matches!(commands[1], NativeOverlayCommand::ToggleBarLock { bar: NativeVideoBar::Top }));
}

#[test]
fn top_bar_close_comes_before_the_lock() {
    let mut popup = false;
    let mut commands = Vec::new();
    draw_native_top_bar(&input(None), Some(0), false, true, &mut popup, &mut commands);
    assert!(matches!(commands[0], NativeOverlayCommand::CloseFullscreen));
    assert!(matches!(commands[1], NativeOverlayCommand::ToggleBarLock { .. }));
    draw_native_top_bar(&input(None), Some(2), false, false, &mut popup, &mut commands);
    assert_eq!(commands.len(), 2);
}

#[test]
fn top_buttons_ignore_clicks_when_disabled() {
    let mut commands = Vec::new();
    let bg = draw_native_top_button_enabled(true, true, false, false, NativeOverlayCommand::TogglePanorama, &mut commands);
    assert_eq!(bg, OverlayColor::Transparent);
    assert!(commands.is_empty());
    let bg = draw_native_top_button(true, true, false, NativeOverlayCommand::ToggleVst3Gui, &mut commands);
    assert_eq!(bg, OverlayColor::RgbaUnmultiplied(255, 255, 255, 34));
    assert!(matches!(commands[..], [NativeOverlayCommand::ToggleVst3Gui]));
}

#[test]
fn top_bar_panorama_click_appends_only_its_own_command_when_enabled() {
    let mut popup = false;
    let mut commands = vec![NativeOverlayCommand::TogglePanorama];
    draw_native_top_bar(&input(Some(PanoramaDetection::Flat)), Some(2), false, false, &mut popup, &mut commands);
    assert_eq!(commands.len(), 2);
    assert!(commands.iter().all(|c| matches!(c, NativeOverlayCommand::TogglePanorama)));

    let mut unknown = input(None);
    unknown.metadata = None;
    let mut commands = vec![NativeOverlayCommand::TogglePanorama];
    let view = draw_native_top_bar(&unknown, Some(2), false, false, &mut popup, &mut commands);
    assert!(!view.buttons[2].enabled);
    assert_eq!(commands.len(), 1);
}
