use vstd::prelude::*;

use crate::color::{button_bg, draw_overlay_button_bg, OverlayColor};
use crate::commands::{commands_view, push_command, CommandModel, NativeOverlayCommand};
use crate::metadata::{clean_text, metadata_clean_text};
use crate::status::{deinterlace_status_text, format_deinterlace_status, DeinterlaceStatusSnapshot, VideoDeinterlaceMode};
use crate::text::{concat2, concat3, decimal, decimal_chars, is_blank, string_from_chars, trim};
use crate::tags::{
    defs_view, opt_string_view, sync_native_tag_sticky, synced_sticky, visible_tag_choices,
    NativeOverlayTagDef, NativeOverlayTagMetadata,
};
use crate::tag_panel::{
    close_native_tag_picker, closed_picker, draw_native_tag_panel, draw_native_tag_picker_panel,
    picker_panel_commands, picker_panel_next, picker_state, picker_view_shows, tag_click_commands,
    tag_panel_next, tag_panel_shows, NativeTagPanelView, NativeTagPickerEvents, NativeTagPickerView,
    PickerStateModel,
};

verus! {

/// How the last frame reached the screen.
#[derive(Clone, Copy, Debug, PartialEq, Eq, Structural)]
pub enum PresentPathSnapshot {
    Gpu,
    Cpu,
    Pending,
}

/// What the info panel lists about the file. Rates, bit rates and the
/// duration come already written out (`fps_text`, `bit_rate_text`,
/// `audio_bit_rate_text`, `duration_text`).
#[derive(Clone, Debug)]
pub struct NativeMetadataPanelInfo {
    pub file_name: String,
    pub title: Option<String>,
    pub artist: Option<String>,
    pub original_url: Option<String>,
    pub description: Option<String>,
    /// Whether the file was probed, so that its technical details are known.
    pub probe_info_available: bool,
    pub width: u32,
    pub height: u32,
    pub fps_text: String,
    pub video_codec: String,
    pub video_decoder: String,
    pub audio_codec: Option<String>,
    pub audio_bit_rate_bps: i64,
    pub audio_bit_rate_text: String,
    pub bit_rate_text: String,
    pub duration_text: String,
    pub chapter_count: usize,
    pub gpu_path_active: bool,
    pub hw_decode_active: bool,
    pub d3d11va_supported: bool,
    pub last_present_path: PresentPathSnapshot,
    pub deinterlace_mode: VideoDeinterlaceMode,
    pub deinterlace_status: DeinterlaceStatusSnapshot,
    pub interlace_detected: bool,
}

/// The characters of an optional string, or nothing.
pub open spec fn or_empty(o: Option<String>) -> Seq<char> {
    match o {
        Some(s) => s@,
        None => Seq::empty(),
    }
}

/// A detail known only once the file was probed.
pub open spec fn probed(info: NativeMetadataPanelInfo, v: Seq<char>) -> Seq<char> {
    if info.probe_info_available { v } else { Seq::empty() }
}

/// The title row: the title when it is not blank, else the file name once probed.
pub open spec fn info_title(info: NativeMetadataPanelInfo) -> Seq<char> {
    if info.title matches Some(t) && trim(t@).len() > 0 {
        info.title->0@
    } else {
        probed(info, info.file_name@)
    }
}

/// The audio row: codec and bit rate, the codec alone, or "なし".
pub open spec fn info_audio(info: NativeMetadataPanelInfo) -> Seq<char> {
    match info.audio_codec {
        Some(c) => if info.audio_bit_rate_bps > 0 {
            c@ + " ("@ + info.audio_bit_rate_text@ + ")"@
        } else {
            c@
        },
        None => "なし"@,
    }
}

/// The text for how frames reach the screen.
pub open spec fn present_path_text(p: PresentPathSnapshot) -> Seq<char> {
    match p {
        PresentPathSnapshot::Gpu => "GPU (D3D11)"@,
        PresentPathSnapshot::Cpu => "CPU (アップロード)"@,
        PresentPathSnapshot::Pending => "確認中"@,
    }
}

/// The panel's first rows: what the file is.
pub open spec fn info_rows_about(info: NativeMetadataPanelInfo) -> Seq<(Seq<char>, Seq<char>)> {
    seq![
        ("ファイル"@, info.file_name@),
        ("タイトル"@, info_title(info)),
        ("アーティスト"@, or_empty(info.artist)),
        ("元動画URL"@, or_empty(info.original_url)),
        ("説明"@, or_empty(info.description)),
        ("解像度"@, probed(info, decimal(info.width as nat) + "x"@ + decimal(info.height as nat))),
        ("フレームレート"@, probed(info, info.fps_text@)),
        ("コーデック"@, info.video_codec@),
        ("デコーダ"@, info.video_decoder@),
    ]
}

/// The panel's last rows: how the file is played.
pub open spec fn info_rows_playback(info: NativeMetadataPanelInfo) -> Seq<(Seq<char>, Seq<char>)> {
    seq![
        ("音声"@, probed(info, info_audio(info))),
        ("総ビットレート"@, probed(info, info.bit_rate_text@)),
        ("長さ"@, probed(info, info.duration_text@)),
        ("チャプター"@, probed(info, decimal(info.chapter_count as nat))),
        ("GPU経路"@, probed(info, if info.gpu_path_active { "利用可能"@ } else { "未利用"@ })),
        ("デコード"@, probed(info, if info.hw_decode_active { "HW"@ } else { "SW"@ })),
        ("フレーム表示"@, probed(info, present_path_text(info.last_present_path))),
        ("デインターレース"@, probed(info, deinterlace_status_text(info.deinterlace_mode, info.deinterlace_status, info.interlace_detected))),
        ("D3D11VA"@, probed(info, if info.d3d11va_supported { "対応"@ } else { "非対応"@ })),
    ]
}

/// Every row of the panel, label and value, before empty rows are dropped.
pub open spec fn info_rows(info: NativeMetadataPanelInfo) -> Seq<(Seq<char>, Seq<char>)> {
    info_rows_about(info) + info_rows_playback(info)
}

/// The rows that are shown: those whose cleaned value is not empty, with
/// their values cleaned.
pub open spec fn shown_rows(rows: Seq<(Seq<char>, Seq<char>)>) -> Seq<(Seq<char>, Seq<char>)>
    decreases rows.len(),
{
    if rows.len() == 0 {
        Seq::empty()
    } else {
        let p = shown_rows(rows.drop_last());
        let c = clean_text(rows.last().1);
        if c.len() > 0 {
            p.push((rows.last().0, c))
        } else {
            p
        }
    }
}

/// The plain values of a list of rows.
pub open spec fn rows_view(v: Seq<(String, String)>) -> Seq<(Seq<char>, Seq<char>)> {
    v.map_values(|r: (String, String)| (r.0@, r.1@))
}

fn push_row(v: &mut Vec<(String, String)>, label: &str, value: String)
    ensures
        rows_view(final(v)@) == rows_view(old(v)@).push((label@, value@)),
{
    v.push((label.to_owned(), value));
    assert(rows_view(v@) =~= rows_view(old(v)@).push((label@, value@)));
}

fn probed_value(info: &NativeMetadataPanelInfo, v: String) -> (r: String)
    ensures
        r@ == probed(*info, v@),
{
    if info.probe_info_available { v } else { String::new() }
}

fn opt_value(o: &Option<String>) -> (r: String)
    ensures
        r@ == or_empty(*o),
{
    match o {
        Some(s) => s.clone(),
        None => String::new(),
    }
}

fn about_rows(info: &NativeMetadataPanelInfo) -> (v: Vec<(String, String)>)
    ensures
        rows_view(v@) == info_rows_about(*info),
{
    let mut v: Vec<(String, String)> = Vec::new();
    push_row(&mut v, "ファイル", info.file_name.clone());
    let title_ok = match &info.title {
        Some(t) => !is_blank(t.as_str()),
        None => false,
    };
    let title = if title_ok {
        opt_value(&info.title)
    } else {
        probed_value(info, info.file_name.clone())
    };
    push_row(&mut v, "タイトル", title);
    push_row(&mut v, "アーティスト", opt_value(&info.artist));
    push_row(&mut v, "元動画URL", opt_value(&info.original_url));
    push_row(&mut v, "説明", opt_value(&info.description));
    let w = string_from_chars(&decimal_chars(info.width as u64));
    let h = string_from_chars(&decimal_chars(info.height as u64));
    push_row(&mut v, "解像度", probed_value(info, concat3(w.as_str(), "x", h.as_str())));
    push_row(&mut v, "フレームレート", probed_value(info, info.fps_text.clone()));
    push_row(&mut v, "コーデック", info.video_codec.clone());
    push_row(&mut v, "デコーダ", info.video_decoder.clone());
    assert(rows_view(v@) =~= info_rows_about(*info));
    v
}

#[verifier::rlimit(50)]
fn add_playback_rows(info: &NativeMetadataPanelInfo, v: &mut Vec<(String, String)>)
    ensures
        rows_view(final(v)@) == rows_view(old(v)@) + info_rows_playback(*info),
{
    let audio = match &info.audio_codec {
        Some(c) => if info.audio_bit_rate_bps > 0 {
            let head = concat3(c.as_str(), " (", info.audio_bit_rate_text.as_str());
            concat2(head.as_str(), ")")
        } else {
            c.clone()
        },
        None => "なし".to_owned(),
    };
    push_row(v, "音声", probed_value(info, audio));
    push_row(v, "総ビットレート", probed_value(info, info.bit_rate_text.clone()));
    push_row(v, "長さ", probed_value(info, info.duration_text.clone()));
    let chapters = string_from_chars(&decimal_chars(info.chapter_count as u64));
    push_row(v, "チャプター", probed_value(info, chapters));
    let gpu = if info.gpu_path_active { "利用可能".to_owned() } else { "未利用".to_owned() };
    push_row(v, "GPU経路", probed_value(info, gpu));
    let decode = if info.hw_decode_active { "HW".to_owned() } else { "SW".to_owned() };
    push_row(v, "デコード", probed_value(info, decode));
    let path = match info.last_present_path {
        PresentPathSnapshot::Gpu => "GPU (D3D11)".to_owned(),
        PresentPathSnapshot::Cpu => "CPU (アップロード)".to_owned(),
        PresentPathSnapshot::Pending => "確認中".to_owned(),
    };
    push_row(v, "フレーム表示", probed_value(info, path));
    let deint = format_deinterlace_status(info.deinterlace_mode, info.deinterlace_status, info.interlace_detected);
    push_row(v, "デインターレース", probed_value(info, deint));
    let d3d = if info.d3d11va_supported { "対応".to_owned() } else { "非対応".to_owned() };
    push_row(v, "D3D11VA", probed_value(info, d3d));
    assert(rows_view(v@) =~= rows_view(old(v)@) + info_rows_playback(*info));
}

fn all_info_rows(info: &NativeMetadataPanelInfo) -> (v: Vec<(String, String)>)
    ensures
        rows_view(v@) == info_rows(*info),
{
    let mut v = about_rows(info);
    add_playback_rows(info, &mut v);
    v
}

/// The label and cleaned value of every row that the info panel shows.
pub fn native_metadata_rows(info: &NativeMetadataPanelInfo) -> (r: Vec<(String, String)>)
    ensures
        rows_view(r@) == shown_rows(info_rows(*info)),
{
    let all = all_info_rows(info);
    let ghost rv = rows_view(all@);
    let mut out: Vec<(String, String)> = Vec::new();
    let mut i: usize = 0;
    while i < all.len()
        invariant
            i <= all.len(),
            rv == rows_view(all@),
            rows_view(out@) == shown_rows(rv.take(i as int)),
        decreases all.len() - i,
    {
        assert(rv.take(i + 1).drop_last() =~= rv.take(i as int));
        assert(rv.take(i + 1).last() == rv[i as int]);
        let cleaned = metadata_clean_text(all[i].1.as_str());
        if !cleaned.as_str().is_empty() {
            push_row(&mut out, all[i].0.as_str(), cleaned);
        }
        i += 1;
    }
    assert(rv.take(i as int) =~= rv);
    out
}

/// What happened in the info panel in one frame: the pointer on and clicks
/// on its lock and close buttons, Escape, the picker's events, a star
/// rating chosen, the tag row's clicks, and a link clicked in a row.
#[derive(Clone, Debug)]
pub struct NativeMetadataPanelEvents {
    pub lock_hovered: bool,
    pub lock_clicked: bool,
    pub close_hovered: bool,
    pub close_clicked: bool,
    pub escape_pressed: bool,
    pub picker: NativeTagPickerEvents,
    pub rating_clicked: Option<u8>,
    pub plus_clicked: bool,
    pub tag_clicked: Option<usize>,
    pub search_clicked: Option<usize>,
    pub link_clicked: Option<String>,
}

/// What the panel shows under its header.
pub enum NativeMetadataPanelBody {
    /// Escape closed the picker; nothing more is drawn this frame.
    PickerClosed,
    /// The tag picker.
    Picker(NativeTagPickerView),
    /// Stars, the tag row, a separator when `separator`, then the rows.
    Main { tags: NativeTagPanelView, separator: bool, rows: Vec<(String, String)> },
}

/// What the info panel shows in one frame.
pub struct NativeMetadataPanelView {
    pub lock_bg: OverlayColor,
    pub lock_hint: String,
    /// The close button's background, when the panel has one.
    pub close_bg: Option<OverlayColor>,
    pub body: NativeMetadataPanelBody,
}

/// The lock button's tooltip.
pub open spec fn lock_hint(locked: bool) -> Seq<char> {
    if locked {
        "固定を解除 (映像へ重ねる一時表示に戻す)"@
    } else {
        "パネルを固定 (映像に重ねず、前後へ移動しても表示したまま)"@
    }
}

/// The panel has a close button: it opens on click and is not locked.
pub open spec fn has_close_button(click_to_show: bool, locked: bool) -> bool {
    click_to_show && !locked
}

/// The commands of the panel's header: the lock's, then the close button's.
pub open spec fn header_commands(ev: NativeMetadataPanelEvents, click_to_show: bool, locked: bool) -> Seq<
    CommandModel,
> {
    (if ev.lock_clicked { seq![CommandModel::ToggleInfoPanelLock] } else { Seq::empty() }) + (if has_close_button(
        click_to_show,
        locked,
    ) && ev.close_clicked {
        seq![CommandModel::ToggleClickInfoOpen]
    } else {
        Seq::empty()
    })
}

/// The picker's state once the header and the sticky tags are handled:
/// closed by the close button, and reset for a new item.
pub open spec fn panel_picker_start(
    before: PickerStateModel,
    ev: NativeMetadataPanelEvents,
    click_to_show: bool,
    locked: bool,
    item_changed: bool,
) -> PickerStateModel {
    if item_changed {
        closed_picker()
    } else if has_close_button(click_to_show, locked) && ev.close_clicked {
        picker_state(false, before.input, before.focus_request, before.recent_tab)
    } else {
        before
    }
}

/// The commands of the main body: the rating, the tag row's, then a link's.
pub open spec fn main_body_commands(
    ev: NativeMetadataPanelEvents,
    tags: NativeOverlayTagMetadata,
    sticky: Seq<crate::tags::TagDefModel>,
) -> Seq<CommandModel> {
    (match ev.rating_clicked {
        Some(s) => seq![CommandModel::SetRating { stars: s }],
        None => Seq::empty(),
    }) + tag_click_commands(visible_tag_choices(tags, sticky), ev.tag_clicked, ev.search_clicked) + (
    match ev.link_clicked {
        Some(u) => seq![CommandModel::OpenExternalUrl { url: u@ }],
        None => Seq::empty(),
    })
}

/// The panel below its header: syncing the sticky tags (a new item closes
/// the picker), then Escape, the picker, or the main body.
fn metadata_panel_body(
    tags: &NativeOverlayTagMetadata,
    events: &NativeMetadataPanelEvents,
    rows: Vec<(String, String)>,
    tag_picker_open: &mut bool,
    tag_picker_input: &mut String,
    tag_picker_focus_request: &mut bool,
    sticky_item_key: &mut Option<String>,
    sticky_tags: &mut Vec<NativeOverlayTagDef>,
    tag_picker_recent_tab: &mut bool,
    commands: &mut Vec<NativeOverlayCommand>,
) -> (body: NativeMetadataPanelBody)
    ensures
        ({
            let before = picker_state(
                *old(tag_picker_open),
                old(tag_picker_input)@,
                *old(tag_picker_focus_request),
                *old(tag_picker_recent_tab),
            );
            let after = picker_state(
                *final(tag_picker_open),
                final(tag_picker_input)@,
                *final(tag_picker_focus_request),
                *final(tag_picker_recent_tab),
            );
            let changed = opt_string_view(*old(sticky_item_key)) != Some(tags.item_key@);
            let start = if changed { closed_picker() } else { before };
            let sticky = synced_sticky(*tags, opt_string_view(*old(sticky_item_key)), defs_view(old(sticky_tags)@));
            let head = commands_view(old(commands)@);
            &&& opt_string_view(*final(sticky_item_key)) == Some(tags.item_key@)
            &&& defs_view(final(sticky_tags)@) == sticky
            &&& (start.open && events.escape_pressed) ==> {
                &&& body is PickerClosed
                &&& after == closed_picker()
                &&& commands_view(final(commands)@) == head
            }
            &&& (start.open && !events.escape_pressed) ==> {
                &&& body matches NativeMetadataPanelBody::Picker(v) && picker_view_shows(
                    v,
                    *tags,
                    events.picker,
                    start,
                )
                &&& after == picker_panel_next(*tags, events.picker, start)
                &&& commands_view(final(commands)@) == head + picker_panel_commands(
                    *tags,
                    events.picker,
                    start,
                )
            }
            &&& !start.open ==> {
                &&& body matches NativeMetadataPanelBody::Main { tags: t, separator, rows: r } && {
                    &&& tag_panel_shows(t, *tags, sticky, false)
                    &&& rows_view(r@) == rows_view(rows@)
                    &&& separator == ((tags.shortcut_tags.len() > 0 || tags.current_tags.len() > 0
                        || after.open) && r.len() > 0)
                }
                &&& after == tag_panel_next(start, events.plus_clicked)
                &&& commands_view(final(commands)@) == head + main_body_commands(*events, *tags, sticky)
            }
        }),
{
    let ghost head = commands_view(commands@);
    if sync_native_tag_sticky(tags, sticky_item_key, sticky_tags) {
        close_native_tag_picker(
            tag_picker_open,
            tag_picker_input,
            tag_picker_focus_request,
            tag_picker_recent_tab,
        );
    }
    if *tag_picker_open {
        if events.escape_pressed {
            close_native_tag_picker(
                tag_picker_open,
                tag_picker_input,
                tag_picker_focus_request,
                tag_picker_recent_tab,
            );
            return NativeMetadataPanelBody::PickerClosed;
        }
        let v = draw_native_tag_picker_panel(
            tags,
            &events.picker,
            tag_picker_open,
            tag_picker_input,
            tag_picker_focus_request,
            tag_picker_recent_tab,
            commands,
        );
        return NativeMetadataPanelBody::Picker(v);
    }
    match events.rating_clicked {
        Some(stars) => push_command(commands, NativeOverlayCommand::SetRating { stars }),
        None => {},
    }
    let ghost before_tags = commands_view(commands@);
    let t = draw_native_tag_panel(
        tags,
        sticky_tags,
        events.plus_clicked,
        events.tag_clicked,
        events.search_clicked,
        tag_picker_open,
        tag_picker_input,
        tag_picker_focus_request,
        tag_picker_recent_tab,
        commands,
    );
    let separator = (tags.shortcut_tags.len() > 0 || tags.current_tags.len() > 0 || *tag_picker_open)
        && rows.len() > 0;
    match &events.link_clicked {
        Some(url) => push_command(commands, NativeOverlayCommand::OpenExternalUrl { url: url.clone() }),
        None => {},
    }
    proof {
        let rating = match events.rating_clicked {
            Some(s) => seq![CommandModel::SetRating { stars: s }],
            None => Seq::<CommandModel>::empty(),
        };
        assert(before_tags =~= head + rating);
        assert(commands_view(commands@) =~= head + main_body_commands(*events, *tags, defs_view(sticky_tags@)));
    }
    NativeMetadataPanelBody::Main { tags: t, separator, rows }
}

/// The info panel beside the video for one frame. Its header has the lock
/// button and, when the panel opens on click and is not locked, a close
/// button that also closes the tag picker. The item's tags are kept in the
/// sticky list, and a new item closes the picker. While the picker is open,
/// Escape closes it, else the picker is shown; otherwise the panel shows the
/// stars, the tag row and the rows of file details.
pub fn draw_native_metadata_panel(
    info: &NativeMetadataPanelInfo,
    tags: &NativeOverlayTagMetadata,
    events: &NativeMetadataPanelEvents,
    click_to_show: bool,
    info_panel_locked: bool,
    tag_picker_open: &mut bool,
    tag_picker_input: &mut String,
    tag_picker_focus_request: &mut bool,
    sticky_item_key: &mut Option<String>,
    sticky_tags: &mut Vec<NativeOverlayTagDef>,
    tag_picker_recent_tab: &mut bool,
    commands: &mut Vec<NativeOverlayCommand>,
) -> (view: NativeMetadataPanelView)
    ensures
        ({
            let before = picker_state(
                *old(tag_picker_open),
                old(tag_picker_input)@,
                *old(tag_picker_focus_request),
                *old(tag_picker_recent_tab),
            );
            let after = picker_state(
                *final(tag_picker_open),
                final(tag_picker_input)@,
                *final(tag_picker_focus_request),
                *final(tag_picker_recent_tab),
            );
            let changed = opt_string_view(*old(sticky_item_key)) != Some(tags.item_key@);
            let start = panel_picker_start(before, *events, click_to_show, info_panel_locked, changed);
            let sticky = synced_sticky(*tags, opt_string_view(*old(sticky_item_key)), defs_view(old(sticky_tags)@));
            let head = commands_view(old(commands)@) + header_commands(*events, click_to_show, info_panel_locked);
            &&& view.lock_bg == button_bg(events.lock_hovered, info_panel_locked)
            &&& view.lock_hint@ == lock_hint(info_panel_locked)
            &&& view.close_bg == (if has_close_button(click_to_show, info_panel_locked) {
                Some(button_bg(events.close_hovered, false))
            } else {
                None::<OverlayColor>
            })
            &&& opt_string_view(*final(sticky_item_key)) == Some(tags.item_key@)
            &&& defs_view(final(sticky_tags)@) == sticky
            &&& (start.open && events.escape_pressed) ==> {
                &&& view.body is PickerClosed
                &&& after == closed_picker()
                &&& commands_view(final(commands)@) == head
            }
            &&& (start.open && !events.escape_pressed) ==> {
                &&& view.body matches NativeMetadataPanelBody::Picker(v) && picker_view_shows(
                    v,
                    *tags,
                    events.picker,
                    start,
                )
                &&& after == picker_panel_next(*tags, events.picker, start)
                &&& commands_view(final(commands)@) == head + picker_panel_commands(
                    *tags,
                    events.picker,
                    start,
                )
            }
            &&& !start.open ==> {
                &&& view.body matches NativeMetadataPanelBody::Main { tags: t, separator, rows } && {
                    &&& tag_panel_shows(t, *tags, sticky, false)
                    &&& rows_view(rows@) == shown_rows(info_rows(*info))
                    &&& separator == ((tags.shortcut_tags.len() > 0 || tags.current_tags.len() > 0
                        || after.open) && rows.len() > 0)
                }
                &&& after == tag_panel_next(start, events.plus_clicked)
                &&& commands_view(final(commands)@) == head + main_body_commands(*events, *tags, sticky)
            }
        }),
{
    let ghost start_cmds = commands_view(commands@);
    let lock_bg = draw_overlay_button_bg(events.lock_hovered, info_panel_locked);
    let lock_hint = if info_panel_locked {
        "固定を解除 (映像へ重ねる一時表示に戻す)".to_owned()
    } else {
        "パネルを固定 (映像に重ねず、前後へ移動しても表示したまま)".to_owned()
    };
    if events.lock_clicked {
        push_command(commands, NativeOverlayCommand::ToggleInfoPanelLock);
    }
    let close_bg = if click_to_show && !info_panel_locked {
        if events.close_clicked {
            *tag_picker_open = false;
            push_command(commands, NativeOverlayCommand::ToggleClickInfoOpen);
        }
        Some(draw_overlay_button_bg(events.close_hovered, false))
    } else {
        None
    };
    proof {
        assert(commands_view(commands@) =~= start_cmds + header_commands(*events, click_to_show, info_panel_locked));
    }
    let rows = native_metadata_rows(info);
    let body = metadata_panel_body(
        tags,
        events,
        rows,
        tag_picker_open,
        tag_picker_input,
        tag_picker_focus_request,
        sticky_item_key,
        sticky_tags,
        tag_picker_recent_tab,
        commands,
    );
    NativeMetadataPanelView { lock_bg, lock_hint, close_bg, body }
}

/// A row whose cleaned value is not empty is shown, with that value.
proof fn lemma_shown_rows_keep(rows: Seq<(Seq<char>, Seq<char>)>, j: int) -> (k: int)
    requires
        0 <= j < rows.len(),
        clean_text(rows[j].1).len() > 0,
    ensures
        0 <= k < shown_rows(rows).len(),
        shown_rows(rows)[k] == (rows[j].0, clean_text(rows[j].1)),
    decreases rows.len(),
{
    let p = shown_rows(rows.drop_last());
    if j == rows.len() - 1 {
        p.len() as int
    } else {
        let k = lemma_shown_rows_keep(rows.drop_last(), j);
        assert(rows.drop_last()[j] == rows[j]);
        k
    }
}

/// The title row shows the item's title, cleaned, whenever the title is not
/// blank, whether or not the file was probed; only without such a title does
/// it fall back to the file name, once probed.
pub proof fn lemma_title_row_shows_title(info: NativeMetadataPanelInfo)
    ensures
        info.title matches Some(t) && trim(t@).len() > 0 && clean_text(t@).len() > 0 ==> exists|k: int|
            0 <= k < shown_rows(info_rows(info)).len() && #[trigger] shown_rows(info_rows(info))[k] == (
                "タイトル"@,
                clean_text(info.title->0@),
            ),
        !(info.title matches Some(t) && trim(t@).len() > 0) && info.probe_info_available && clean_text(
            info.file_name@,
        ).len() > 0 ==> exists|k: int|
            0 <= k < shown_rows(info_rows(info)).len() && #[trigger] shown_rows(info_rows(info))[k] == (
                "タイトル"@,
                clean_text(info.file_name@),
            ),
{
    let rows = info_rows(info);
    assert(rows[1] == ("タイトル"@, info_title(info)));
    if info.title matches Some(t) && trim(t@).len() > 0 && clean_text(t@).len() > 0 {
        let k = lemma_shown_rows_keep(rows, 1);
    }
    if !(info.title matches Some(t) && trim(t@).len() > 0) && info.probe_info_available && clean_text(
        info.file_name@,
    ).len() > 0 {
        let k = lemma_shown_rows_keep(rows, 1);
    }
}

} // verus!
