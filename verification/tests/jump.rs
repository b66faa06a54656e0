use native_overlay::color::OverlayColor;
use native_overlay::commands::NativeOverlayCommand;
use native_overlay::jump::{
    draw_native_jump_row, find_now_playing_marker, NativeBookmarkTitleEdit, NativeOverlayJumpEntry,
    NativeOverlayTimelineMarkerKind,
};

fn bookmark(id: i64, title: Option<&str>) -> NativeOverlayJumpEntry {
    NativeOverlayJumpEntry {
        pts_key: time_order_key(0.0),
        kind: NativeOverlayTimelineMarkerKind::Bookmark,
        title: title.map(|t| t.to_string()),
        bookmark_id: Some(id),
    }
}

#[test]
fn jump_row_click_seeks_to_its_entry() {
    let entry = NativeOverlayJumpEntry { pts_key: time_order_key(0.0), kind: NativeOverlayTimelineMarkerKind::Chapter, title: None, bookmark_id: None };
    let mut edit = None;
    let mut commands = Vec::new();
    let view = draw_native_jump_row(4, &entry, true, true, false, false, false, false, false, &mut edit, &mut commands);
    assert_eq!(view.kind_label, "CH");
    assert_eq!(view.kind_color, OverlayColor::Rgb(115, 210, 255));
    assert_eq!(view.hover_fill, Some(OverlayColor::RgbaUnmultiplied(255, 255, 255, 22)));
    assert!(!view.show_title);
    assert!(view.edit_button.is_none() && view.delete_button.is_none());
    assert!(matches!(commands[..], [NativeOverlayCommand::Seek { entry_idx: 4 }]));
}

#[test]
fn jump_row_delete_does_not_also_seek() {
    let entry = bookmark(7, Some("Intro"));
    let mut edit = None;
    let mut commands = Vec::new();
    let view = draw_native_jump_row(0, &entry, false, true, false, false, true, true, false, &mut edit, &mut commands);
    assert_eq!(view.kind_label, "BM");
    assert!(view.show_title);
    assert_eq!(view.delete_button.as_ref().map(|(_, tip)| tip.as_str()), Some("ブックマークを削除"));
    assert_eq!(view.delete_button.as_ref().map(|(bg, _)| *bg), Some(OverlayColor::RgbaUnmultiplied(255, 255, 255, 34)));
    assert!(matches!(commands[..], [NativeOverlayCommand::DeleteBookmark { id: 7 }]));
    assert!(edit.is_none());
}

#[test]
fn jump_row_edit_starts_title_editing() {
    let entry = bookmark(9, None);
    let mut edit: Option<NativeBookmarkTitleEdit> = None;
    let mut commands = Vec::new();
    let view = draw_native_jump_row(1, &entry, false, true, true, true, false, false, false, &mut edit, &mut commands);
    assert_eq!(view.edit_button, Some((OverlayColor::RgbaUnmultiplied(255, 255, 255, 34), OverlayColor::Rgb(255, 235, 160))));
    let e = edit.unwrap();
    assert_eq!(e.id, 9);
    assert_eq!(e.title, "");
    assert!(e.request_focus);
    assert!(commands.is_empty());
}

#[test]
fn jump_row_pin_can_be_removed_and_long_titles_get_a_tooltip() {
    let pin = NativeOverlayJumpEntry {
        pts_key: time_order_key(0.0),
        kind: NativeOverlayTimelineMarkerKind::Pin,
        title: Some("  ".to_string()),
        bookmark_id: None,
    };
    let mut edit = None;
    let mut commands = Vec::new();
    let view = draw_native_jump_row(2, &pin, false, false, false, false, false, true, true, &mut edit, &mut commands);
    assert_eq!(view.kind_label, "PIN");
    assert!(!view.show_title);
    assert!(view.row_tooltip.is_none());
    assert_eq!(view.delete_button.as_ref().map(|(_, tip)| tip.as_str()), Some("ピン留めを解除"));
    assert!(matches!(commands[..], [NativeOverlayCommand::DeletePin]));

    let long = bookmark(3, Some("A long chapter title"));
    let view = draw_native_jump_row(3, &long, false, false, false, false, false, false, true, &mut edit, &mut commands);
    assert_eq!(view.row_tooltip.as_deref(), Some("A long chapter title"));
}

/// The order key of a time in seconds: keys compare as the times do.
fn time_order_key(secs: f64) -> Option<i64> {
    if secs.is_nan() {
        return None;
    }
    let bits = (secs + 0.0).to_bits() as i64;
    Some(if bits < 0 { bits ^ i64::MAX } else { bits })
}

fn marker(pts: f64, kind: NativeOverlayTimelineMarkerKind, title: &str) -> NativeOverlayJumpEntry {
    NativeOverlayJumpEntry { pts_key: time_order_key(pts), kind, title: Some(title.to_string()), bookmark_id: None }
}

#[test]
fn find_now_playing_returns_latest_marker_before_position() {
    let entries = vec![
        marker(0.0, NativeOverlayTimelineMarkerKind::Chapter, "OP"),
        marker(15.0, NativeOverlayTimelineMarkerKind::Bookmark, "サビ"),
        marker(25.0, NativeOverlayTimelineMarkerKind::Chapter, "Aメロ"),
        marker(60.0, NativeOverlayTimelineMarkerKind::Chapter, "Bメロ"),
    ];
    let now = find_now_playing_marker(&entries, time_order_key(30.0)).unwrap();
    assert_eq!(now.pts_key, time_order_key(25.0));
    assert_eq!(now.title.as_deref(), Some("Aメロ"));
}

#[test]
fn find_now_playing_picks_closest_regardless_of_kind() {
    let entries = vec![
        marker(15.0, NativeOverlayTimelineMarkerKind::Chapter, "前章"),
        marker(20.0, NativeOverlayTimelineMarkerKind::Bookmark, "ハイライト"),
    ];
    let now = find_now_playing_marker(&entries, time_order_key(25.0)).unwrap();
    assert_eq!(now.pts_key, time_order_key(20.0));
    assert_eq!(now.title.as_deref(), Some("ハイライト"));
}

#[test]
fn find_now_playing_excludes_pins() {
    let entries = vec![
        marker(10.0, NativeOverlayTimelineMarkerKind::Chapter, "OP"),
        marker(30.0, NativeOverlayTimelineMarkerKind::Pin, "Pinned frame"),
    ];
    let now = find_now_playing_marker(&entries, time_order_key(60.0)).unwrap();
    assert_eq!(now.pts_key, time_order_key(10.0));
    assert_eq!(now.title.as_deref(), Some("OP"));
}

#[test]
fn find_now_playing_returns_none_when_all_markers_in_future() {
    let entries = vec![
        marker(60.0, NativeOverlayTimelineMarkerKind::Chapter, "Bメロ"),
        marker(90.0, NativeOverlayTimelineMarkerKind::Chapter, "サビ"),
    ];
    assert!(find_now_playing_marker(&entries, time_order_key(30.0)).is_none());
}

#[test]
fn find_now_playing_returns_none_when_only_pins_exist() {
    let entries = vec![
        marker(5.0, NativeOverlayTimelineMarkerKind::Pin, "Pin 1"),
        marker(15.0, NativeOverlayTimelineMarkerKind::Pin, "Pin 2"),
    ];
    assert!(find_now_playing_marker(&entries, time_order_key(60.0)).is_none());
}

#[test]
fn find_now_playing_returns_none_for_empty_entries() {
    let entries: Vec<NativeOverlayJumpEntry> = vec![];
    assert!(find_now_playing_marker(&entries, time_order_key(30.0)).is_none());
}

#[test]
fn find_now_playing_includes_marker_at_exact_position() {
    let entries = vec![marker(30.0, NativeOverlayTimelineMarkerKind::Chapter, "ちょうど 30 秒")];
    let now = find_now_playing_marker(&entries, time_order_key(30.0)).unwrap();
    assert_eq!(now.pts_key, time_order_key(30.0));
}

#[test]
fn find_now_playing_prefers_the_later_listed_of_equal_times() {
    let entries = vec![
        marker(12.0, NativeOverlayTimelineMarkerKind::Bookmark, "first"),
        marker(12.0, NativeOverlayTimelineMarkerKind::Chapter, "second"),
        marker(11.0, NativeOverlayTimelineMarkerKind::Chapter, "earlier"),
    ];
    assert_eq!(find_now_playing_marker(&entries, time_order_key(12.0)).unwrap().title.as_deref(), Some("second"));
}

#[test]
fn find_now_playing_tells_times_apart_below_a_millisecond() {
    let entries = vec![
        marker(29.9996, NativeOverlayTimelineMarkerKind::Bookmark, "just before"),
        marker(30.0004, NativeOverlayTimelineMarkerKind::Chapter, "just after"),
    ];
    let now = find_now_playing_marker(&entries, time_order_key(30.0)).unwrap();
    assert_eq!(now.title.as_deref(), Some("just before"));
    assert!(find_now_playing_marker(&entries, time_order_key(f64::NAN)).is_none());
    assert_eq!(time_order_key(-0.0), time_order_key(0.0));
    assert!(time_order_key(-1.5) < time_order_key(-0.5) && time_order_key(-0.5) < time_order_key(0.25));
}
