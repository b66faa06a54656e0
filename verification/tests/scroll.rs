use native_overlay::scroll::native_metadata_panel_scroll_style;

#[test]
fn metadata_panel_scrollbar_stays_visible_without_hover() {
    let scroll = native_metadata_panel_scroll_style();
    assert!(!scroll.floating);
    assert!(scroll.foreground_color);
    assert!(scroll.bar_width >= 8);
    assert!(scroll.allocated_width() >= 10);
}

#[test]
fn metadata_panel_scrollbar_takes_its_margins_and_width() {
    let scroll = native_metadata_panel_scroll_style();
    assert_eq!(scroll.bar_width, 8);
    assert_eq!(scroll.bar_inner_margin, 4);
    assert_eq!(scroll.bar_outer_margin, 2);
    assert_eq!(scroll.allocated_width(), 14);
}
