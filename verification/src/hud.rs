use vstd::prelude::*;

use crate::color::{button_bg, draw_overlay_button_bg, OverlayColor};
use crate::commands::{commands_view, push_command, CommandModel, NativeOverlayCommand};
use crate::controls::draw_native_ring_segment_label;
use crate::jump::NativeJumpPanelOptions;
use crate::labels::{truncate_overlay_text, truncated};
use crate::text::{concat2, concat3, decimal, decimal_chars, is_blank, string_from_chars, trim};

verus! {

/// The tabs of the left panel.
#[derive(Clone, Copy, Debug, PartialEq, Eq, Structural)]
pub enum NativeVideoLeftPanelTab {
    /// "ジャンプ": pins, bookmarks and chapters.
    Jump,
    /// "画像補正": the video adjustments.
    Adjustment,
}

/// The jump panel as the video's left panel shows it: everything, with
/// thumbnails.
pub fn video_jump_panel_options() -> (o: NativeJumpPanelOptions)
    ensures
        o.title@ == "ジャンプ"@,
        o.empty_text@ == "ピン・ブックマーク・チャプターはまだありません"@,
        o.show_pin_button && o.show_bulk_button && o.show_pins && o.show_chapters,
        o.show_section_headers && o.show_thumbnails,
{
    NativeJumpPanelOptions {
        title: "ジャンプ".to_owned(),
        empty_text: "ピン・ブックマーク・チャプターはまだありません".to_owned(),
        show_pin_button: true,
        show_bulk_button: true,
        show_pins: true,
        show_chapters: true,
        show_section_headers: true,
        show_thumbnails: true,
    }
}

/// A tab: its background and text colour.
pub open spec fn tab_colors(hovered: bool, selected: bool) -> (OverlayColor, OverlayColor) {
    (button_bg(hovered, selected), if selected { OverlayColor::White } else { OverlayColor::Gray(190) })
}

/// What the left panel's frame shows: its two tabs, and its close button
/// when it opens on click.
pub struct NativeLeftPanelView {
    pub tabs: ((OverlayColor, OverlayColor), (OverlayColor, OverlayColor)),
    pub close_bg: Option<OverlayColor>,
    /// Whether the close button was clicked.
    pub close_clicked: bool,
}

/// The left panel's tabs and close button for one frame. A click on a tab
/// selects it; each tab is drawn with the selection as it stands when it is
/// drawn. The body under the tabs is the jump panel or the adjustments.
pub fn draw_native_video_left_panel(
    panel_tab: &mut NativeVideoLeftPanelTab,
    tab_hovered: (bool, bool),
    tab_clicked: Option<NativeVideoLeftPanelTab>,
    click_to_show: bool,
    close_hovered: bool,
    close_clicked: bool,
) -> (view: NativeLeftPanelView)
    ensures
        view.tabs.0 == tab_colors(tab_hovered.0, *old(panel_tab) == NativeVideoLeftPanelTab::Jump),
        view.tabs.1 == tab_colors(
            tab_hovered.1,
            *old(panel_tab) == NativeVideoLeftPanelTab::Adjustment && tab_clicked != Some(NativeVideoLeftPanelTab::Jump),
        ),
        *final(panel_tab) == match tab_clicked {
            Some(t) => t,
            None => *old(panel_tab),
        },
        view.close_bg == (if click_to_show { Some(button_bg(close_hovered, false)) } else { None::<OverlayColor> }),
        view.close_clicked == (click_to_show && close_clicked),
{
    let jump_selected = *panel_tab == NativeVideoLeftPanelTab::Jump;
    let jump = (draw_overlay_button_bg(tab_hovered.0, jump_selected), if jump_selected {
        OverlayColor::White
    } else {
        OverlayColor::Gray(190)
    });
    if tab_clicked == Some(NativeVideoLeftPanelTab::Jump) {
        *panel_tab = NativeVideoLeftPanelTab::Jump;
    }
    let adjust_selected = *panel_tab == NativeVideoLeftPanelTab::Adjustment;
    let adjust = (draw_overlay_button_bg(tab_hovered.1, adjust_selected), if adjust_selected {
        OverlayColor::White
    } else {
        OverlayColor::Gray(190)
    });
    if tab_clicked == Some(NativeVideoLeftPanelTab::Adjustment) {
        *panel_tab = NativeVideoLeftPanelTab::Adjustment;
    }
    let close_bg = if click_to_show { Some(draw_overlay_button_bg(close_hovered, false)) } else { None };
    NativeLeftPanelView { tabs: (jump, adjust), close_bg, close_clicked: click_to_show && close_clicked }
}

/// What the loudness scan panel shows.
pub struct NativeNormalizeProgressView {
    /// A moving bar while the length is unknown, else the share done.
    pub indeterminate: bool,
    /// The cancel "×": reddish under the pointer.
    pub cancel_color: OverlayColor,
    pub cancel_tooltip: String,
}

/// The loudness scan panel for one frame. The "×" or Escape stops the scan.
pub fn draw_native_normalize_progress(
    indeterminate: bool,
    duration_ms: u64,
    cancel_hovered: bool,
    cancel_clicked: bool,
    escape_pressed: bool,
    commands: &mut Vec<NativeOverlayCommand>,
) -> (view: NativeNormalizeProgressView)
    ensures
        view.indeterminate == (indeterminate || duration_ms == 0),
        view.cancel_color == (if cancel_hovered { OverlayColor::Rgb(255, 120, 120) } else { OverlayColor::Gray(180) }),
        view.cancel_tooltip@ == "キャンセル [ESC]"@,
        commands_view(final(commands)@) == commands_view(old(commands)@) + if cancel_clicked || escape_pressed {
            seq![CommandModel::CancelNormalizeScan]
        } else {
            Seq::empty()
        },
{
    if cancel_clicked || escape_pressed {
        push_command(commands, NativeOverlayCommand::CancelNormalizeScan);
    } else {
        assert(commands_view(commands@) =~= commands_view(old(commands)@) + Seq::empty());
    }
    NativeNormalizeProgressView {
        indeterminate: indeterminate || duration_ms == 0,
        cancel_color: if cancel_hovered { OverlayColor::Rgb(255, 120, 120) } else { OverlayColor::Gray(180) },
        cancel_tooltip: "キャンセル [ESC]".to_owned(),
    }
}

/// The title colour of the status box in the middle: red for an error.
pub fn draw_native_center_status(is_error: bool) -> (c: OverlayColor)
    ensures
        c == (if is_error { OverlayColor::Rgb(255, 120, 120) } else { OverlayColor::Rgb(238, 238, 238) }),
{
    if is_error { OverlayColor::Rgb(255, 120, 120) } else { OverlayColor::Rgb(238, 238, 238) }
}

/// What a click on the playback speed control does.
#[derive(Clone, Copy, Debug, PartialEq, Eq, Structural)]
pub enum NativeSpeedAction {
    /// Back to normal speed (double click).
    Reset,
    /// Use the speed of choice `index` of the list.
    Choose { index: usize },
}

/// The playback speed button and its list for one frame. A double click
/// resets the speed and closes the list; a click opens or closes it. While
/// the list is open, a click outside it (not on the button) closes it, and a
/// chosen speed closes it too. Returns what to do, and whether the button's
/// tooltip is shown (only while the list is closed).
pub fn draw_overlay_speed_control(
    button_clicked: bool,
    button_double_clicked: bool,
    button_hovered: bool,
    clicked_outside_list: bool,
    chosen: Option<usize>,
    popup_open: &mut bool,
) -> (r: (Option<NativeSpeedAction>, bool))
    ensures
        ({
            let open1 = if button_double_clicked { false } else if button_clicked { !*old(popup_open) } else { *old(popup_open) };
            let open2 = if open1 && clicked_outside_list && !button_hovered { false } else { open1 };
            &&& r.1 == !open1
            &&& *final(popup_open) == (if open1 && chosen is Some { false } else { open2 })
            &&& r.0 == (if open1 && chosen is Some {
                Some(NativeSpeedAction::Choose { index: chosen->0 })
            } else if button_double_clicked {
                Some(NativeSpeedAction::Reset)
            } else {
                None
            })
        }),
{
    let mut result: Option<NativeSpeedAction> = None;
    if button_double_clicked {
        *popup_open = false;
        result = Some(NativeSpeedAction::Reset);
    } else if button_clicked {
        *popup_open = !*popup_open;
    }
    let tooltip = !*popup_open;
    if *popup_open {
        let chosen_now = chosen;
        if clicked_outside_list && !button_hovered {
            *popup_open = false;
        }
        match chosen_now {
            Some(index) => {
                *popup_open = false;
                result = Some(NativeSpeedAction::Choose { index });
            },
            None => {},
        }
    }
    (result, tooltip)
}

/// What the volume fader asks for in one frame.
#[derive(Clone, Copy, Debug, PartialEq, Eq, Structural)]
pub enum NativeVolumeAction {
    /// Back to 0 dB, kept (double click).
    Reset,
    /// The level under the pointer, kept when it was a plain click.
    Pointer { persist: bool },
    /// The drag ended: keep the last level it set.
    DragEnd,
}

/// The volume fader's reaction to the pointer: a double click resets it;
/// else a click or drag sets the level under the pointer; the end of a drag
/// keeps the last level, which wins over the rest.
pub fn draw_overlay_volume_slider(
    double_clicked: bool,
    clicked: bool,
    dragged: bool,
    has_pointer: bool,
    drag_stopped: bool,
) -> (a: Option<NativeVolumeAction>)
    ensures
        a == (if drag_stopped {
            Some(NativeVolumeAction::DragEnd)
        } else if double_clicked {
            Some(NativeVolumeAction::Reset)
        } else if (clicked || dragged) && has_pointer {
            Some(NativeVolumeAction::Pointer { persist: clicked && !dragged })
        } else {
            None
        }),
{
    let mut out = None;
    if double_clicked {
        out = Some(NativeVolumeAction::Reset);
    } else if (clicked || dragged) && has_pointer {
        out = Some(NativeVolumeAction::Pointer { persist: clicked && !dragged });
    }
    if drag_stopped {
        out = Some(NativeVolumeAction::DragEnd);
    }
    out
}

/// What the performance panel's header counts.
#[derive(Clone, Copy, Debug)]
pub struct NativeOverlayPerfSnapshot {
    pub late_drop: u64,
    pub wait_timeout: u64,
    pub audio_active: bool,
    pub audio_underrun_active: bool,
}

/// The decisions of the performance panel's header.
pub struct NativePerfHeaderView {
    /// "drop N timeout M", red when either is above zero, else green.
    pub drop_text: String,
    pub drop_color: OverlayColor,
    /// The clock line is shortened to "late …" to leave room for UNDERRUN.
    pub short_clock: bool,
    /// "A/V" while the audio offset is known, else "vid" (video drift).
    pub av_label: String,
    pub show_lead: bool,
    pub show_underrun: bool,
}

/// The header decisions of the performance panel. `wide_enough` is whether
/// the panel is at least 380 points wide, and `av_offset_known` whether the
/// audio offset is a number.
pub fn draw_native_perf_overlay(
    latest: &NativeOverlayPerfSnapshot,
    wide_enough: bool,
    av_offset_known: bool,
) -> (v: NativePerfHeaderView)
    ensures
        v.drop_text@ == "drop "@ + decimal(latest.late_drop as nat) + " timeout "@ + decimal(latest.wait_timeout as nat),
        v.drop_color == (if latest.late_drop > 0 || latest.wait_timeout > 0 {
            OverlayColor::Rgb(255, 112, 112)
        } else {
            OverlayColor::Rgb(154, 236, 178)
        }),
        v.show_underrun == (latest.audio_active && latest.audio_underrun_active),
        v.short_clock == (v.show_underrun && !wide_enough),
        v.show_lead == (latest.audio_active && !v.show_underrun && wide_enough),
        v.av_label@ == (if av_offset_known { "A/V"@ } else { "vid"@ }),
{
    let drops = string_from_chars(&decimal_chars(latest.late_drop));
    let timeouts = string_from_chars(&decimal_chars(latest.wait_timeout));
    let head = concat3("drop ", drops.as_str(), " timeout ");
    let drop_text = concat2(head.as_str(), timeouts.as_str());
    let drop_color = if latest.late_drop > 0 || latest.wait_timeout > 0 {
        OverlayColor::Rgb(255, 112, 112)
    } else {
        OverlayColor::Rgb(154, 236, 178)
    };
    let show_underrun = latest.audio_active && latest.audio_underrun_active;
    NativePerfHeaderView {
        drop_text,
        drop_color,
        short_clock: show_underrun && !wide_enough,
        av_label: if av_offset_known { "A/V".to_owned() } else { "vid".to_owned() },
        show_lead: latest.audio_active && !show_underrun && wide_enough,
        show_underrun,
    }
}

/// An action of the ring guide: its label.
#[derive(Clone, Debug)]
pub struct NativeOverlayRingGuideSlot {
    pub action_label: String,
}

/// The ring of actions shown while the right button is held.
#[derive(Clone, Debug)]
pub struct NativeOverlayRingGuide {
    /// The actions, clockwise from the top.
    pub slots: Vec<NativeOverlayRingGuideSlot>,
    pub selected_slot: Option<usize>,
}

/// A segment of the ring guide.
pub struct NativeRingSegmentView {
    pub selected: bool,
    pub fill: OverlayColor,
    /// White and thicker on the selected segment.
    pub stroke: OverlayColor,
    pub label: String,
    pub label_fill: OverlayColor,
    pub label_outline: OverlayColor,
}

/// The eight segments of the ring guide, clockwise from the top: the
/// selected one in blue, each with its action's label cut to 11 characters
/// (none past the last action).
pub fn draw_native_ring_guide_overlay(guide: &NativeOverlayRingGuide) -> (v: Vec<NativeRingSegmentView>)
    ensures
        v.len() == 8,
        forall|i: int| 0 <= i < 8 ==> {
            let sel = guide.selected_slot == Some(i as usize);
            &&& (#[trigger] v@[i]).selected == sel
            &&& v@[i].fill == (if sel { OverlayColor::RgbaUnmultiplied(72, 126, 190, 218) } else { OverlayColor::RgbaUnmultiplied(0, 0, 0, 118) })
            &&& v@[i].stroke == (if sel { OverlayColor::White } else { OverlayColor::WhiteAlpha(120) })
            &&& v@[i].label@ == truncated(if i < guide.slots.len() { guide.slots@[i].action_label@ } else { Seq::empty() }, 11)
            &&& (v@[i].label_fill, v@[i].label_outline) == (if sel {
                (OverlayColor::RgbaUnmultiplied(22, 44, 72, 232), OverlayColor::WhiteAlpha(210))
            } else {
                (OverlayColor::RgbaUnmultiplied(0, 0, 0, 214), OverlayColor::WhiteAlpha(150))
            })
        },
{
    let mut v: Vec<NativeRingSegmentView> = Vec::new();
    let mut i: usize = 0;
    while i < 8
        invariant
            i <= 8,
            v.len() == i,
            forall|k: int| 0 <= k < i ==> {
                let sel = guide.selected_slot == Some(k as usize);
                &&& (#[trigger] v@[k]).selected == sel
                &&& v@[k].fill == (if sel { OverlayColor::RgbaUnmultiplied(72, 126, 190, 218) } else { OverlayColor::RgbaUnmultiplied(0, 0, 0, 118) })
                &&& v@[k].stroke == (if sel { OverlayColor::White } else { OverlayColor::WhiteAlpha(120) })
                &&& v@[k].label@ == truncated(if k < guide.slots.len() { guide.slots@[k].action_label@ } else { Seq::empty() }, 11)
                &&& (v@[k].label_fill, v@[k].label_outline) == (if sel {
                    (OverlayColor::RgbaUnmultiplied(22, 44, 72, 232), OverlayColor::WhiteAlpha(210))
                } else {
                    (OverlayColor::RgbaUnmultiplied(0, 0, 0, 214), OverlayColor::WhiteAlpha(150))
                })
            },
        decreases 8 - i,
    {
        let selected = guide.selected_slot == Some(i);
        let label = if i < guide.slots.len() {
            truncate_overlay_text(guide.slots[i].action_label.as_str(), 11)
        } else {
            String::new()
        };
        let (label_fill, label_outline) = draw_native_ring_segment_label(selected);
        v.push(NativeRingSegmentView {
            selected,
            fill: if selected { OverlayColor::RgbaUnmultiplied(72, 126, 190, 218) } else { OverlayColor::RgbaUnmultiplied(0, 0, 0, 118) },
            stroke: if selected { OverlayColor::White } else { OverlayColor::WhiteAlpha(120) },
            label,
            label_fill,
            label_outline,
        });
        i += 1;
    }
    v
}

/// Which way a side panel's arrow points: into the screen while the panel
/// is closed, out of it while open (1 is to the right).
pub fn native_panel_callout_arrow_direction(left: bool, open: bool) -> (d: i32)
    ensures
        d == (if left != open { 1i32 } else { -1i32 }),
{
    let inward: i32 = if left { 1 } else { -1 };
    if open { -inward } else { inward }
}

/// What the edge bar that opens or closes a side panel shows.
pub struct NativePanelCalloutView {
    pub area_id: String,
    pub hit_id: String,
    pub fill: OverlayColor,
    pub arrow_direction: i32,
    pub tooltip: String,
    pub clicked: bool,
}

/// The bar on the `left` or right edge that opens or closes its panel, for one frame.
pub fn draw_native_panel_callout(left: bool, open: bool, hovered: bool, clicked: bool) -> (v: NativePanelCalloutView)
    ensures
        v.area_id@ == (if left { "native_left_panel_callout"@ } else { "native_right_panel_callout"@ }),
        v.hit_id@ == (if left { "native_left_panel_callout_hit"@ } else { "native_right_panel_callout_hit"@ }),
        v.fill == (if hovered {
            OverlayColor::RgbaUnmultiplied(48, 120, 190, 225)
        } else {
            OverlayColor::RgbaUnmultiplied(20, 36, 54, 205)
        }),
        v.arrow_direction == (if left != open { 1i32 } else { -1i32 }),
        v.tooltip@ == (if left { "ジャンプパネルを開閉"@ } else { "情報パネルを開閉"@ }),
        v.clicked == clicked,
{
    NativePanelCalloutView {
        area_id: if left { "native_left_panel_callout".to_owned() } else { "native_right_panel_callout".to_owned() },
        hit_id: if left { "native_left_panel_callout_hit".to_owned() } else { "native_right_panel_callout_hit".to_owned() },
        fill: if hovered {
            OverlayColor::RgbaUnmultiplied(48, 120, 190, 225)
        } else {
            OverlayColor::RgbaUnmultiplied(20, 36, 54, 205)
        },
        arrow_direction: native_panel_callout_arrow_direction(left, open),
        tooltip: if left { "ジャンプパネルを開閉".to_owned() } else { "情報パネルを開閉".to_owned() },
        clicked,
    }
}

/// The title of the top bar shown while the next file loads: its name, or
/// "video" when the name is blank.
pub fn draw_native_navigation_preview(file_name: &String, close_clicked: bool, commands: &mut Vec<NativeOverlayCommand>) -> (title: String)
    ensures
        title@ == (if trim(file_name@).len() == 0 { "video"@ } else { file_name@ }),
        commands_view(final(commands)@) == commands_view(old(commands)@) + if close_clicked {
            seq![CommandModel::CloseFullscreen]
        } else {
            Seq::empty()
        },
{
    if close_clicked {
        push_command(commands, NativeOverlayCommand::CloseFullscreen);
    } else {
        assert(commands_view(commands@) =~= commands_view(old(commands)@) + Seq::empty());
    }
    if is_blank(file_name.as_str()) { "video".to_owned() } else { file_name.clone() }
}

} // verus!
