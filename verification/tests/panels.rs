use native_overlay::bookmarks::{
    apply_bulk_bookmark_paste, draw_native_bookmark_title_editor, draw_native_bulk_bookmark_dialog,
    NativeBulkBookmarkDialog, NativeBulkBookmarkEvents, NativeBulkBookmarkParse,
};
use native_overlay::color::OverlayColor;
use native_overlay::commands::NativeOverlayCommand;
use native_overlay::help::{
    draw_native_shortcut_help_dialog, NativeOverlayShortcutHelp, NativeShortcutHelpRow, NativeShortcutHelpSection,
};
use native_overlay::info_panel::{
    draw_native_metadata_panel, native_metadata_rows, NativeMetadataPanelBody, NativeMetadataPanelEvents,
    NativeMetadataPanelInfo, PresentPathSnapshot,
};
use native_overlay::jump::{
    draw_native_jump_panel_body, NativeBookmarkTitleEdit, NativeJumpPanelOptions, NativeOverlayJumpEntry,
    NativeOverlayTimelineMarkerKind,
};
use native_overlay::jump::NativeOverlayTimelineMarkerKind::{Bookmark, Chapter, Pin};
use native_overlay::status::{DeinterlaceStatusSnapshot, NativeOverlayVst3ChainSlot, VideoDeinterlaceMode};
use native_overlay::tag_panel::NativeTagPickerEvents;
use native_overlay::tags::{NativeOverlayCurrentTag, NativeOverlayTagDef, NativeOverlayTagMetadata};
use native_overlay::vst3::{
    draw_native_vst3_panel, NativeOverlayVst3Panel, NativeOverlayVst3Slot, NativeOverlayVst3SlotState,
    NativeVst3PanelEvents, NativeVst3PanelView,
};

fn info() -> NativeMetadataPanelInfo {
    NativeMetadataPanelInfo {
        file_name: "movie.mp4".to_string(),
        title: None,
        artist: Some("  Artist  ".to_string()),
        original_url: None,
        description: Some("line1\\nline2".to_string()),
        probe_info_available: true,
        width: 1280,
        height: 720,
        fps_text: "30.00fps".to_string(),
        video_codec: "h264".to_string(),
        video_decoder: String::new(),
        audio_codec: Some("aac".to_string()),
        audio_bit_rate_bps: 128_000,
        audio_bit_rate_text: "128kbps".to_string(),
        bit_rate_text: "2.0Mbps".to_string(),
        duration_text: "1:00".to_string(),
        chapter_count: 0,
        gpu_path_active: true,
        hw_decode_active: false,
        d3d11va_supported: true,
        last_present_path: PresentPathSnapshot::Cpu,
        deinterlace_mode: VideoDeinterlaceMode::Off,
        deinterlace_status: DeinterlaceStatusSnapshot::Inactive,
        interlace_detected: false,
    }
}

#[test]
fn info_rows_drop_empty_values_and_clean_the_rest() {
    let rows = native_metadata_rows(&info());
    let labels: Vec<&str> = rows.iter().map(|r| r.0.as_str()).collect();
    assert_eq!(
        labels,
        vec![
            "ファイル", "タイトル", "アーティスト", "説明", "解像度", "フレームレート", "コーデック", "音声",
            "総ビットレート", "長さ", "チャプター", "GPU経路", "デコード", "フレーム表示", "デインターレース", "D3D11VA",
        ]
    );
    assert_eq!(rows[1].1, "movie.mp4");
    assert_eq!(rows[2].1, "Artist");
    assert_eq!(rows[3].1, "line1\nline2");
    assert_eq!(rows[4].1, "1280x720");
    assert_eq!(rows[7].1, "aac (128kbps)");
    assert_eq!(rows[10].1, "0");
    assert_eq!(rows[11].1, "利用可能");
    assert_eq!(rows[12].1, "SW");
    assert_eq!(rows[13].1, "CPU (アップロード)");
    assert_eq!(rows[14].1, "オフ");
    assert_eq!(rows[15].1, "対応");
}

#[test]
fn info_rows_before_probing_keep_only_known_text() {
    let mut i = info();
    i.probe_info_available = false;
    let rows = native_metadata_rows(&i);
    let labels: Vec<&str> = rows.iter().map(|r| r.0.as_str()).collect();
    assert_eq!(labels, vec!["ファイル", "アーティスト", "説明", "コーデック"]);
}

fn no_picker() -> NativeTagPickerEvents {
    NativeTagPickerEvents {
        normalized: String::new(),
        query_key: String::new(),
        back_clicked: false,
        add_clicked: false,
        input_has_focus: false,
        enter_pressed: false,
        pinned_tab_clicked: false,
        recent_tab_clicked: false,
        row_clicked: None,
    }
}

fn events() -> NativeMetadataPanelEvents {
    NativeMetadataPanelEvents {
        lock_hovered: false,
        lock_clicked: false,
        close_hovered: false,
        close_clicked: false,
        escape_pressed: false,
        picker: no_picker(),
        rating_clicked: None,
        plus_clicked: false,
        tag_clicked: None,
        search_clicked: None,
        link_clicked: None,
    }
}

fn tags() -> NativeOverlayTagMetadata {
    NativeOverlayTagMetadata {
        item_key: "item".to_string(),
        current_tags: vec![NativeOverlayCurrentTag { tag_key: "cat".to_string(), display_name: "Cat".to_string() }],
        shortcut_tags: vec![],
        tag_choices: vec![],
    }
}

#[test]
fn info_panel_main_body_with_rating_and_link() {
    let mut ev = events();
    ev.rating_clicked = Some(4);
    ev.link_clicked = Some("https://example.com".to_string());
    ev.lock_clicked = true;
    let (mut open, mut input, mut focus, mut recent) = (false, String::new(), false, false);
    let mut sticky_key = None;
    let mut sticky: Vec<NativeOverlayTagDef> = Vec::new();
    let mut commands = Vec::new();
    let view = draw_native_metadata_panel(
        &info(), &tags(), &ev, true, false, &mut open, &mut input, &mut focus, &mut sticky_key, &mut sticky,
        &mut recent, &mut commands,
    );
    assert_eq!(view.lock_hint, "パネルを固定 (映像に重ねず、前後へ移動しても表示したまま)");
    assert_eq!(view.close_bg, Some(OverlayColor::Transparent));
    assert_eq!(sticky_key.as_deref(), Some("item"));
    assert_eq!(sticky.len(), 1);
    match view.body {
        NativeMetadataPanelBody::Main { tags, separator, rows } => {
            assert_eq!(tags.buttons.len(), 1);
            assert_eq!(tags.buttons[0].label, "#Cat");
            assert!(separator);
            assert_eq!(rows.len(), 16);
        }
        _ => panic!("expected the main body"),
    }
    assert!(matches!(commands[0], NativeOverlayCommand::ToggleInfoPanelLock));
    assert!(matches!(commands[1], NativeOverlayCommand::SetRating { stars: 4 }));
    assert!(matches!(&commands[2], NativeOverlayCommand::OpenExternalUrl { url } if url == "https://example.com"));
}

#[test]
fn info_panel_escape_closes_the_picker_and_a_new_item_resets_it() {
    let mut ev = events();
    ev.escape_pressed = true;
    let (mut open, mut input, mut focus, mut recent) = (true, "ab".to_string(), true, true);
    let mut sticky_key = Some("item".to_string());
    let mut sticky: Vec<NativeOverlayTagDef> = Vec::new();
    let mut commands = Vec::new();
    let view = draw_native_metadata_panel(
        &info(), &tags(), &ev, false, true, &mut open, &mut input, &mut focus, &mut sticky_key, &mut sticky,
        &mut recent, &mut commands,
    );
    assert!(matches!(view.body, NativeMetadataPanelBody::PickerClosed));
    assert!(view.close_bg.is_none());
    assert_eq!(view.lock_hint, "固定を解除 (映像へ重ねる一時表示に戻す)");
    assert!(!open && input.is_empty() && !focus && !recent);

    let (mut open, mut input, mut focus, mut recent) = (true, "ab".to_string(), true, false);
    let mut other_key = Some("other".to_string());
    let view = draw_native_metadata_panel(
        &info(), &tags(), &events(), false, false, &mut open, &mut input, &mut focus, &mut other_key, &mut sticky,
        &mut recent, &mut commands,
    );
    assert!(matches!(view.body, NativeMetadataPanelBody::Main { .. }));
    assert!(!open);
    assert!(commands.is_empty());
}

#[test]
fn info_panel_close_button_closes_the_picker() {
    let mut ev = events();
    ev.close_clicked = true;
    let (mut open, mut input, mut focus, mut recent) = (true, String::new(), false, false);
    let mut sticky_key = Some("item".to_string());
    let mut sticky: Vec<NativeOverlayTagDef> = Vec::new();
    let mut commands = Vec::new();
    let view = draw_native_metadata_panel(
        &info(), &tags(), &ev, true, false, &mut open, &mut input, &mut focus, &mut sticky_key, &mut sticky,
        &mut recent, &mut commands,
    );
    assert!(matches!(view.body, NativeMetadataPanelBody::Main { .. }));
    assert!(!open);
    assert!(matches!(commands[..], [NativeOverlayCommand::ToggleClickInfoOpen]));
}

#[test]
fn title_editor_saves_clears_or_cancels() {
    let edit = NativeBookmarkTitleEdit { id: 5, title: "New".to_string(), request_focus: false };
    let mut state = Some(edit.clone());
    let mut commands = Vec::new();
    assert!(draw_native_bookmark_title_editor(&mut state, false, false, false, &mut commands));
    assert!(state.is_some() && commands.is_empty());
    assert!(draw_native_bookmark_title_editor(&mut state, true, false, false, &mut commands));
    assert!(state.is_none());
    assert!(matches!(&commands[0], NativeOverlayCommand::SetBookmarkTitle { id: 5, title } if title == "New"));
    let mut state = Some(edit.clone());
    draw_native_bookmark_title_editor(&mut state, false, true, false, &mut commands);
    assert!(matches!(&commands[1], NativeOverlayCommand::SetBookmarkTitle { id: 5, title } if title.is_empty()));
    let mut state = Some(edit);
    draw_native_bookmark_title_editor(&mut state, false, false, true, &mut commands);
    assert!(state.is_none());
    assert_eq!(commands.len(), 2);
    assert!(!draw_native_bookmark_title_editor(&mut state, true, false, false, &mut commands));
}

fn dialog(text: &str) -> NativeBulkBookmarkDialog {
    NativeBulkBookmarkDialog {
        textarea: text.to_string(),
        pending_paste: None,
        request_focus: true,
        confirm_clear_all: false,
        export_seconds_only: false,
    }
}

fn quiet() -> NativeBulkBookmarkEvents {
    NativeBulkBookmarkEvents {
        close_clicked: false,
        register_clicked: false,
        cancel_clicked: false,
        export_clicked: false,
        seconds_only_toggled: false,
        clear_all_clicked: false,
        confirm_clear_clicked: false,
        abort_clear_clicked: false,
        any_focus: true,
    }
}

#[test]
fn bulk_paste_goes_on_a_new_line() {
    let mut d = dialog("0:13 A");
    d.pending_paste = Some("2:00 B".to_string());
    apply_bulk_bookmark_paste(&mut d);
    assert_eq!(d.textarea, "0:13 A\n2:00 B");
    assert!(d.pending_paste.is_none());
    d.pending_paste = Some("3:00 C".to_string());
    d.textarea.push('\n');
    apply_bulk_bookmark_paste(&mut d);
    assert_eq!(d.textarea, "0:13 A\n2:00 B\n3:00 C");
    let mut empty = dialog("");
    empty.pending_paste = Some("x".to_string());
    apply_bulk_bookmark_paste(&mut empty);
    assert_eq!(empty.textarea, "x");
}

#[test]
fn bulk_dialog_preview_and_register() {
    let parse = NativeBulkBookmarkParse { entry_count: 2, error_lines: vec![] };
    let mut state = Some(dialog("0:13 A\n2:00 B"));
    let mut commands = Vec::new();
    let mut ev = quiet();
    ev.export_clicked = true;
    ev.seconds_only_toggled = true;
    let view = draw_native_bulk_bookmark_dialog("動画", &parse, ev, false, &mut state, &mut commands).unwrap();
    assert_eq!(view.preview, "解釈成功: 2 件");
    assert_eq!(view.preview_color, OverlayColor::Rgb(170, 220, 170));
    assert_eq!(view.register_label, "登録 (2 件)");
    assert!(view.register_enabled && view.focus_textarea);
    assert_eq!(view.clear_all_label, "この動画のブックマークをすべて削除");
    assert!(matches!(commands[..], [NativeOverlayCommand::ExportBookmarksToClipboard { seconds_only: true }]));
    let d = state.as_ref().unwrap();
    assert!(d.export_seconds_only && !d.request_focus);

    let mut ev = quiet();
    ev.register_clicked = true;
    draw_native_bulk_bookmark_dialog("動画", &parse, ev, false, &mut state, &mut commands);
    assert!(state.is_none());
    assert!(matches!(commands[1], NativeOverlayCommand::BulkAddBookmarks));
    assert!(draw_native_bulk_bookmark_dialog("動画", &parse, quiet(), false, &mut state, &mut commands).is_none());
}

#[test]
fn bulk_dialog_reports_unread_lines_and_confirms_deletion() {
    let parse = NativeBulkBookmarkParse { entry_count: 0, error_lines: (1..=10).collect() };
    let mut state = Some(dialog("junk"));
    let mut commands = Vec::new();
    let mut ev = quiet();
    ev.register_clicked = true;
    ev.clear_all_clicked = true;
    let view = draw_native_bulk_bookmark_dialog("音声", &parse, ev, true, &mut state, &mut commands).unwrap();
    assert_eq!(view.preview, "解釈成功: 0 件 / 解釈できなかった行: 10 件 (行番号: 1, 2, 3, 4, 5, 6, 7, 8)");
    assert_eq!(view.preview_color, OverlayColor::Rgb(240, 200, 130));
    assert!(!view.register_enabled);
    assert_eq!(view.close_bg, OverlayColor::RgbaUnmultiplied(255, 255, 255, 34));
    assert!(commands.is_empty());
    assert!(state.as_ref().unwrap().confirm_clear_all);

    let mut ev = quiet();
    ev.confirm_clear_clicked = true;
    let view = draw_native_bulk_bookmark_dialog("音声", &parse, ev, false, &mut state, &mut commands).unwrap();
    assert!(view.confirming);
    assert!(state.is_none());
    assert!(matches!(commands[..], [NativeOverlayCommand::ClearAllBookmarksForCurrent]));
}

#[test]
fn bulk_dialog_waits_for_a_paste_and_can_abort_deletion() {
    let parse = NativeBulkBookmarkParse { entry_count: 0, error_lines: vec![] };
    let mut d = dialog("  \n ");
    d.confirm_clear_all = true;
    let mut state = Some(d);
    let mut commands = Vec::new();
    let mut ev = quiet();
    ev.abort_clear_clicked = true;
    let view = draw_native_bulk_bookmark_dialog("動画", &parse, ev, false, &mut state, &mut commands).unwrap();
    assert_eq!(view.preview, "貼り付け待ち");
    assert!(!state.as_ref().unwrap().confirm_clear_all);
    let mut ev = quiet();
    ev.close_clicked = true;
    draw_native_bulk_bookmark_dialog("動画", &parse, ev, false, &mut state, &mut commands);
    assert!(state.is_none());
    assert!(commands.is_empty());
}

fn help() -> NativeOverlayShortcutHelp {
    let row = |k: &str, d: &str| NativeShortcutHelpRow { keys: k.to_string(), description: d.to_string() };
    NativeOverlayShortcutHelp {
        sections: vec![
            NativeShortcutHelpSection { title: "再生".to_string(), rows: vec![row("Space", "再生/一時停止")] },
            NativeShortcutHelpSection { title: "空".to_string(), rows: vec![] },
        ],
        video_zoom_rows: vec![row("Ctrl+0", "リセット")],
        touch_rows: vec![row("ダブルタップ", "全画面")],
        fixed_rows: vec![row("Esc", "閉じる")],
    }
}

#[test]
fn shortcut_help_lists_groups_with_lines() {
    let mut open = true;
    let view = draw_native_shortcut_help_dialog(&help(), false, true, false, false, &mut open).unwrap();
    let titles: Vec<&str> = view.groups.iter().map(|g| g.title.as_str()).collect();
    assert_eq!(titles, vec!["再生", "タッチ操作", "固定キー"]);
    assert_eq!(view.groups[0].rows, vec![("Space".to_string(), "再生/一時停止".to_string())]);
    assert!(open);
    let view = draw_native_shortcut_help_dialog(&help(), true, false, true, true, &mut open).unwrap();
    let titles: Vec<&str> = view.groups.iter().map(|g| g.title.as_str()).collect();
    assert_eq!(titles, vec!["再生", "拡大表示中", "固定キー"]);
    assert_eq!(view.close_bg, OverlayColor::RgbaUnmultiplied(255, 255, 255, 34));
    assert!(!open);
    assert!(draw_native_shortcut_help_dialog(&help(), true, true, false, false, &mut open).is_none());
}

fn options() -> NativeJumpPanelOptions {
    NativeJumpPanelOptions {
        title: "ジャンプ".to_string(),
        empty_text: "なし".to_string(),
        show_pin_button: true,
        show_bulk_button: true,
        show_pins: true,
        show_chapters: false,
        show_section_headers: true,
        show_thumbnails: true,
    }
}

fn entry(kind: NativeOverlayTimelineMarkerKind) -> NativeOverlayJumpEntry {
    NativeOverlayJumpEntry { pts_key: Some(0), kind, title: None, bookmark_id: None }
}

#[test]
fn jump_panel_groups_entries_by_kind() {
    let entries = vec![entry(Chapter), entry(Bookmark), entry(Pin), entry(Bookmark)];
    let mut bulk = None;
    let mut commands = Vec::new();
    let view = draw_native_jump_panel_body(
        &options(), &entries, Some("P"), None, false, true, false, true, true, true, &mut bulk, &mut commands,
    );
    assert_eq!(view.sections.len(), 2);
    assert_eq!(view.sections[0].kind, Pin);
    assert_eq!(view.sections[0].entries, vec![2]);
    assert_eq!(view.sections[0].header.as_ref().map(|h| h.0.as_str()), Some("ピン留め"));
    assert_eq!(view.sections[1].entries, vec![1, 3]);
    assert_eq!(view.pin_button.as_ref().map(|p| p.1.as_str()), Some("現在位置をピン留め [P]"));
    assert_eq!(view.bookmark_button.1, "現在位置をブックマーク");
    assert_eq!(view.bookmark_button.0, OverlayColor::RgbaUnmultiplied(255, 255, 255, 34));
    assert!(bulk.as_ref().is_some_and(|d: &NativeBulkBookmarkDialog| d.request_focus && d.textarea.is_empty()));
    assert!(matches!(commands[..], [NativeOverlayCommand::SetPinAt, NativeOverlayCommand::AddBookmarkAt]));
}

#[test]
fn jump_panel_without_headers_or_pins() {
    let mut opts = options();
    opts.show_pin_button = false;
    opts.show_bulk_button = false;
    opts.show_pins = false;
    opts.show_chapters = true;
    opts.show_section_headers = false;
    let entries = vec![entry(NativeOverlayTimelineMarkerKind::Pin), entry(NativeOverlayTimelineMarkerKind::Chapter)];
    let mut bulk = None;
    let mut commands = Vec::new();
    let view = draw_native_jump_panel_body(
        &opts, &entries, None, None, false, true, false, true, false, false, &mut bulk, &mut commands,
    );
    assert!(view.pin_button.is_none() && view.bulk_button.is_none());
    assert_eq!(view.sections.len(), 1);
    assert!(view.sections[0].header.is_none());
    assert_eq!(view.sections[0].entries, vec![1]);
    assert!(bulk.is_none() && commands.is_empty());
    let none = draw_native_jump_panel_body(&opts, &[], None, None, false, false, false, false, false, false, &mut bulk, &mut commands);
    assert!(none.sections.is_empty());
}

fn vst3_panel() -> NativeOverlayVst3Panel {
    NativeOverlayVst3Panel {
        state_text: "2 plug-ins".to_string(),
        disabled_reason: None,
        video_compact: true,
        slots: vec![NativeOverlayVst3Slot {
            idx: 0,
            name: "EQ".to_string(),
            path: "eq.vst3".to_string(),
            bypass: false,
            placeholder: false,
            state: NativeOverlayVst3SlotState::Ready,
            has_latency: false,
            auto_bypassed_for_latency: false,
            gui_visible: false,
        }],
        chain_slots: vec![
            NativeOverlayVst3ChainSlot { idx: 4, key_label: "F5".to_string(), name: None, plugin_count: 0 },
            NativeOverlayVst3ChainSlot { idx: 5, key_label: "F6".to_string(), name: Some("Mix".to_string()), plugin_count: 2 },
        ],
    }
}

fn vst3_events() -> NativeVst3PanelEvents {
    NativeVst3PanelEvents {
        full_clicked: false,
        compact_clicked: false,
        slot_toggled: None,
        slot_gui_hovered: None,
        slot_gui_clicked: None,
        load_clicked: None,
        save_clicked: None,
    }
}

#[test]
fn vst3_panel_modes_rows_and_chain_slots() {
    let mut ev = vst3_events();
    ev.full_clicked = true;
    ev.slot_toggled = Some(0);
    ev.load_clicked = Some(0);
    ev.save_clicked = Some(1);
    let mut commands = Vec::new();
    match draw_native_vst3_panel(&vst3_panel(), ev, &mut commands) {
        NativeVst3PanelView::Active { video_modes, rows, chain_buttons } => {
            assert_eq!(video_modes, (false, true));
            assert_eq!(rows[0].label, "1. EQ");
            assert!(!chain_buttons[0].load_enabled && chain_buttons[1].load_enabled);
            assert_eq!(chain_buttons[0].tooltip, "VST3 Slot F5 は空です");
            assert_eq!(chain_buttons[1].tooltip, "Mix\n2 件");
        }
        NativeVst3PanelView::Paused { .. } => panic!("expected the active panel"),
    }
    assert!(matches!(commands[0], NativeOverlayCommand::SetVst3VideoCompact { compact: false }));
    assert!(matches!(commands[1], NativeOverlayCommand::Vst3SetBypass { idx: 0, bypass: true, .. }));
    assert!(matches!(commands[2], NativeOverlayCommand::Vst3SaveChainSlot { slot_idx: 5 }));
    assert_eq!(commands.len(), 3);
}

#[test]
fn vst3_panel_paused_shows_only_the_reason() {
    let mut p = vst3_panel();
    p.disabled_reason = Some("crash".to_string());
    let mut ev = vst3_events();
    ev.compact_clicked = true;
    let mut commands = Vec::new();
    match draw_native_vst3_panel(&p, ev, &mut commands) {
        NativeVst3PanelView::Paused { reason } => assert_eq!(reason, "crash"),
        NativeVst3PanelView::Active { .. } => panic!("expected the paused panel"),
    }
    assert!(commands.is_empty());
}
