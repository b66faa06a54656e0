use native_overlay::labels::{native_joined_shortcuts, native_label_with_shortcut, truncate_overlay_text};

#[test]
fn label_gets_its_shortcut_in_brackets() {
    assert_eq!(native_label_with_shortcut("再生", Some("Space")), "再生 [Space]");
    assert_eq!(native_label_with_shortcut("再生", Some(" K ")), "再生 [ K ]");
}

#[test]
fn label_without_a_usable_shortcut_stays_bare() {
    assert_eq!(native_label_with_shortcut("再生", None), "再生");
    assert_eq!(native_label_with_shortcut("再生", Some("   ")), "再生");
    assert_eq!(native_label_with_shortcut("再生", Some("")), "再生");
}

#[test]
fn shortcuts_are_trimmed_and_joined() {
    let joined = native_joined_shortcuts(&[Some(" A "), None, Some("  "), Some("B")]);
    assert_eq!(joined.as_deref(), Some("A / B"));
    assert_eq!(native_joined_shortcuts(&[Some("Ctrl+S")]).as_deref(), Some("Ctrl+S"));
}

#[test]
fn no_shortcut_gives_none() {
    assert_eq!(native_joined_shortcuts(&[]), None);
    assert_eq!(native_joined_shortcuts(&[None, Some(""), Some(" \t")]), None);
}

#[test]
fn long_text_is_cut_with_an_ellipsis() {
    assert_eq!(truncate_overlay_text("abcdef", 3), "abc...");
    assert_eq!(truncate_overlay_text("日本語テキスト", 2), "日本...");
}

#[test]
fn short_text_is_kept_whole() {
    assert_eq!(truncate_overlay_text("abc", 3), "abc");
    assert_eq!(truncate_overlay_text("ab", 3), "ab");
    assert_eq!(truncate_overlay_text("", 0), "");
    assert_eq!(truncate_overlay_text("a", 0), "...");
}
