use vstd::prelude::*;

use crate::text::{decimal, decimal_chars, string_from_chars, concat2, concat3};

verus! {

/// The deinterlace setting the video was opened with.
#[derive(Clone, Copy, Debug, PartialEq, Eq, Structural)]
pub enum VideoDeinterlaceMode {
    Off,
    On,
    Auto,
}

/// What the decoder reports of its deinterlace filter.
#[derive(Clone, Copy, Debug, PartialEq, Eq, Structural)]
pub enum DeinterlaceStatusSnapshot {
    Active,
    Failed,
    Pending,
    Inactive,
}

/// The text of the "デインターレース" row.
pub open spec fn deinterlace_status_text(
    mode: VideoDeinterlaceMode,
    status: DeinterlaceStatusSnapshot,
    interlace_detected: bool,
) -> Seq<char> {
    match mode {
        VideoDeinterlaceMode::Off => "オフ"@,
        VideoDeinterlaceMode::On => match status {
            DeinterlaceStatusSnapshot::Active => "常時 (適用中)"@,
            DeinterlaceStatusSnapshot::Failed => "常時 (初期化失敗)"@,
            _ => "常時 (準備中)"@,
        },
        VideoDeinterlaceMode::Auto => match status {
            DeinterlaceStatusSnapshot::Active => "自動 - 適用中"@,
            DeinterlaceStatusSnapshot::Failed => "自動 - 初期化失敗"@,
            DeinterlaceStatusSnapshot::Pending => "自動 - 確認中"@,
            DeinterlaceStatusSnapshot::Inactive => if interlace_detected {
                "自動 - 待機中"@
            } else {
                "自動 - プログレッシブ"@
            },
        },
    }
}

/// The deinterlace row's text for the chosen `mode`, the decoder's `status`
/// and whether interlacing was detected.
pub fn format_deinterlace_status(
    mode: VideoDeinterlaceMode,
    status: DeinterlaceStatusSnapshot,
    interlace_detected: bool,
) -> (s: String)
    ensures
        s@ == deinterlace_status_text(mode, status, interlace_detected),
{
    match mode {
        VideoDeinterlaceMode::Off => "オフ".to_owned(),
        VideoDeinterlaceMode::On => match status {
            DeinterlaceStatusSnapshot::Active => "常時 (適用中)".to_owned(),
            DeinterlaceStatusSnapshot::Failed => "常時 (初期化失敗)".to_owned(),
            DeinterlaceStatusSnapshot::Pending | DeinterlaceStatusSnapshot::Inactive => "常時 (準備中)".to_owned(),
        },
        VideoDeinterlaceMode::Auto => match status {
            DeinterlaceStatusSnapshot::Active => "自動 - 適用中".to_owned(),
            DeinterlaceStatusSnapshot::Failed => "自動 - 初期化失敗".to_owned(),
            DeinterlaceStatusSnapshot::Pending => "自動 - 確認中".to_owned(),
            DeinterlaceStatusSnapshot::Inactive => {
                if interlace_detected {
                    "自動 - 待機中".to_owned()
                } else {
                    "自動 - プログレッシブ".to_owned()
                }
            },
        },
    }
}

/// One of the saved VST3 chain slots, as its button shows it.
#[derive(Clone, Debug)]
pub struct NativeOverlayVst3ChainSlot {
    /// The slot's number.
    pub idx: usize,
    /// The key that loads the slot.
    pub key_label: String,
    /// The chain's name, when the slot holds one.
    pub name: Option<String>,
    /// How many plug-ins the chain holds.
    pub plugin_count: usize,
}

/// The tooltip of a chain slot button.
pub open spec fn chain_slot_tooltip(
    key_label: Seq<char>,
    name: Option<Seq<char>>,
    plugin_count: nat,
) -> Seq<char> {
    match name {
        Some(n) => n + "\n"@ + decimal(plugin_count) + " 件"@,
        None => "VST3 Slot "@ + key_label + " は空です"@,
    }
}

/// The tooltip of a chain slot button: the chain's name and plug-in count,
/// or that the slot is empty.
pub fn native_vst3_chain_slot_tooltip(slot: &NativeOverlayVst3ChainSlot) -> (s: String)
    ensures
        s@ == chain_slot_tooltip(
            slot.key_label@,
            match slot.name {
                Some(n) => Some(n@),
                None => None,
            },
            slot.plugin_count as nat,
        ),
{
    match &slot.name {
        Some(name) => {
            let digits = decimal_chars(slot.plugin_count as u64);
            let count = string_from_chars(&digits);
            let head = concat2(name.as_str(), "\n");
            concat3(head.as_str(), count.as_str(), " 件")
        },
        None => concat3("VST3 Slot ", slot.key_label.as_str(), " は空です"),
    }
}

} // verus!
