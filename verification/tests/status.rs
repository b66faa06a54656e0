use native_overlay::status::{
    format_deinterlace_status, native_vst3_chain_slot_tooltip, DeinterlaceStatusSnapshot,
    NativeOverlayVst3ChainSlot, VideoDeinterlaceMode,
};

#[test]
fn deinterlace_off_ignores_the_decoder() {
    for status in [
        DeinterlaceStatusSnapshot::Active,
        DeinterlaceStatusSnapshot::Failed,
        DeinterlaceStatusSnapshot::Pending,
        DeinterlaceStatusSnapshot::Inactive,
    ] {
        assert_eq!(format_deinterlace_status(VideoDeinterlaceMode::Off, status, true), "オフ");
    }
}

#[test]
fn deinterlace_on_reports_the_filter_state() {
    let on = VideoDeinterlaceMode::On;
    assert_eq!(format_deinterlace_status(on, DeinterlaceStatusSnapshot::Active, false), "常時 (適用中)");
    assert_eq!(format_deinterlace_status(on, DeinterlaceStatusSnapshot::Failed, false), "常時 (初期化失敗)");
    assert_eq!(format_deinterlace_status(on, DeinterlaceStatusSnapshot::Pending, false), "常時 (準備中)");
    assert_eq!(format_deinterlace_status(on, DeinterlaceStatusSnapshot::Inactive, true), "常時 (準備中)");
}

#[test]
fn deinterlace_auto_tells_waiting_from_progressive() {
    let auto = VideoDeinterlaceMode::Auto;
    assert_eq!(format_deinterlace_status(auto, DeinterlaceStatusSnapshot::Active, false), "自動 - 適用中");
    assert_eq!(format_deinterlace_status(auto, DeinterlaceStatusSnapshot::Failed, false), "自動 - 初期化失敗");
    assert_eq!(format_deinterlace_status(auto, DeinterlaceStatusSnapshot::Pending, false), "自動 - 確認中");
    assert_eq!(format_deinterlace_status(auto, DeinterlaceStatusSnapshot::Inactive, true), "自動 - 待機中");
    assert_eq!(
        format_deinterlace_status(auto, DeinterlaceStatusSnapshot::Inactive, false),
        "自動 - プログレッシブ"
    );
}

#[test]
fn chain_slot_tooltip_names_the_chain_and_its_size() {
    let slot = NativeOverlayVst3ChainSlot {
        idx: 0,
        key_label: "F1".to_string(),
        name: Some("Vocal".to_string()),
        plugin_count: 12,
    };
    assert_eq!(native_vst3_chain_slot_tooltip(&slot), "Vocal\n12 件");
    let zero = NativeOverlayVst3ChainSlot { idx: 1, key_label: "F2".to_string(), name: Some("X".to_string()), plugin_count: 0 };
    assert_eq!(native_vst3_chain_slot_tooltip(&zero), "X\n0 件");
}

#[test]
fn chain_slot_tooltip_says_when_the_slot_is_empty() {
    let slot = NativeOverlayVst3ChainSlot { idx: 1, key_label: "F3".to_string(), name: None, plugin_count: 5 };
    assert_eq!(native_vst3_chain_slot_tooltip(&slot), "VST3 Slot F3 は空です");
}
