use native_overlay::ring::{
    draw_native_overlay_scrollbar, draw_native_ring_picker_overlay, native_ring_row_window,
    NativeOverlayRingDrill, NativeOverlayRingPicker, NativeOverlayRingPickerRow, NativeRingPickerView,
};

fn picker(n: usize, selected: Option<usize>) -> NativeOverlayRingPicker {
    NativeOverlayRingPicker {
        title: "リング".to_string(),
        rows: (0..n)
            .map(|i| NativeOverlayRingPickerRow { label: format!("L{i}"), value: format!("V{i}") })
            .collect(),
        selected_row: selected,
        footer: "footer".to_string(),
        drill: None,
    }
}

#[test]
fn ring_window_centres_the_selection() {
    let w = native_ring_row_window(20, Some(10), 5);
    assert_eq!((w.start, w.end, w.visible), (8, 13, 5));
    let w = native_ring_row_window(20, Some(1), 5);
    assert_eq!((w.start, w.end), (0, 5));
    let w = native_ring_row_window(20, Some(19), 5);
    assert_eq!((w.start, w.end), (15, 20));
    let w = native_ring_row_window(20, Some(99), 5);
    assert_eq!((w.start, w.end), (15, 20));
}

#[test]
fn ring_window_small_lists_and_no_room() {
    let w = native_ring_row_window(3, None, 10);
    assert_eq!((w.start, w.end, w.visible), (0, 3, 3));
    let w = native_ring_row_window(0, Some(2), 0);
    assert_eq!((w.start, w.end, w.visible), (0, 0, 1));
    let w = native_ring_row_window(4, Some(3), 0);
    assert_eq!((w.start, w.end, w.visible), (3, 4, 1));
}

#[test]
fn scrollbar_only_when_rows_overflow() {
    assert_eq!(draw_native_overlay_scrollbar(10, 10), None);
    assert_eq!(draw_native_overlay_scrollbar(10, 0), None);
    assert_eq!(draw_native_overlay_scrollbar(12, 5), Some(7));
}

#[test]
fn ring_picker_rows_show_the_window() {
    match draw_native_ring_picker_overlay(&picker(20, Some(10)), 5) {
        NativeRingPickerView::Rows { title, window, rows, has_scrollbar, footer } => {
            assert_eq!(title, "リング");
            assert_eq!(footer, "footer");
            assert_eq!(window.start, 8);
            assert!(has_scrollbar);
            let labels: Vec<&str> = rows.iter().map(|r| r.label.as_str()).collect();
            assert_eq!(labels, vec!["L8", "L9", "L10", "L11", "L12"]);
            assert!(rows[2].selected && !rows[1].selected);
        }
        NativeRingPickerView::Drill { .. } => panic!("expected rows"),
    }
}

#[test]
fn ring_picker_drill_marks_the_clamped_selection() {
    let mut p = picker(2, None);
    p.drill = Some(NativeOverlayRingDrill {
        title: "x".repeat(40),
        items: vec!["a".to_string(), "b".to_string()],
        selected: 7,
        footer: "f".to_string(),
    });
    match draw_native_ring_picker_overlay(&p, 5) {
        NativeRingPickerView::Drill { subtitle, items, .. } => {
            assert_eq!(subtitle, format!("{}...", "x".repeat(36)));
            assert_eq!(items, vec![("a".to_string(), false), ("b".to_string(), true)]);
        }
        NativeRingPickerView::Rows { .. } => panic!("expected drill"),
    }
}
