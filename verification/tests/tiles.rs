use native_overlay::color::OverlayColor;
use native_overlay::commands::NativeOverlayCommand;
use native_overlay::tiles::{
    draw_native_tile_overlay, draw_native_top_bar_tile, NativeOverlayTileOverlay, NativeTileTopBarMetadata,
};

fn state() -> NativeOverlayTileOverlay {
    NativeOverlayTileOverlay {
        tile_count: 7,
        columns: 3,
        selected_idx: Some(4),
        progress_done: 2,
        progress_total: 7,
        finished: false,
        preparing_message: None,
        interval_unset: false,
        interval_text: "10秒".to_string(),
        fallback_file_name: "clip".to_string(),
    }
}

fn meta() -> NativeTileTopBarMetadata {
    NativeTileTopBarMetadata {
        title: None,
        file_name: "movie.mkv".to_string(),
        width: 1920,
        height: 1080,
        fps_text: "29.97fps".to_string(),
        video_codec: "h264".to_string(),
        duration_text: "1:00".to_string(),
        tile_mode_shortcut: Some("T".to_string()),
    }
}

#[test]
fn tile_top_bar_shows_details_and_progress() {
    let mut commands = Vec::new();
    let view = draw_native_top_bar_tile(&Some(meta()), &state(), Some(1), &mut commands);
    assert_eq!(view.title, "movie.mkv");
    assert_eq!(view.sub_text, "1920x1080  29.97fps  h264  1:00  間隔 10秒  2/7");
    assert_eq!(view.buttons[0].tooltip, "動画に戻る [T / Esc]");
    assert_eq!(view.buttons[1].tooltip, "サムネ列数を増やす [Ctrl+ホイール下]");
    assert!(matches!(commands[..], [NativeOverlayCommand::TileColumnsDelta { delta: 1 }]));
}

#[test]
fn tile_top_bar_without_metadata_or_interval() {
    let mut s = state();
    s.finished = true;
    let mut commands = Vec::new();
    let view = draw_native_top_bar_tile(&None, &s, Some(0), &mut commands);
    assert_eq!(view.title, "clip");
    assert_eq!(view.sub_text, "間隔 10秒");
    assert_eq!(view.buttons[0].tooltip, "動画に戻る [Esc]");
    assert!(matches!(commands[..], [NativeOverlayCommand::ToggleTileMode]));
    s.interval_unset = true;
    s.progress_total = 0;
    assert_eq!(draw_native_top_bar_tile(&None, &s, None, &mut commands).sub_text, "タイルを準備中...");
    s.preparing_message = Some("開いています".to_string());
    assert_eq!(draw_native_top_bar_tile(&None, &s, None, &mut commands).sub_text, "開いています");
}

#[test]
fn tile_grid_places_thumbnails_in_rows() {
    let mut commands = Vec::new();
    let view = draw_native_tile_overlay(&state(), Some(6), &mut commands);
    assert!(view.preparing.is_none());
    assert_eq!(view.cells.len(), 7);
    assert_eq!((view.cells[4].col, view.cells[4].row), (1, 1));
    assert_eq!((view.cells[6].col, view.cells[6].row), (0, 2));
    assert!(view.cells[4].selected);
    assert_eq!(view.cells[4].label_color, OverlayColor::Rgb(28, 22, 8));
    assert_eq!(view.cells[0].label_color, OverlayColor::Rgb(220, 220, 220));
    assert!(matches!(commands[..], [NativeOverlayCommand::TileSeek { tile_idx: 6 }]));
}

#[test]
fn tile_grid_waits_and_ignores_clicks_past_the_end() {
    let mut s = state();
    s.progress_done = 0;
    s.columns = 0;
    let mut commands = Vec::new();
    let view = draw_native_tile_overlay(&s, Some(7), &mut commands);
    assert_eq!(view.preparing.as_deref(), Some("タイルを準備中..."));
    assert_eq!((view.cells[2].col, view.cells[2].row), (0, 2));
    assert!(commands.is_empty());
}
