use vstd::prelude::*;

use crate::color::OverlayColor;
use crate::commands::{commands_view, push_command, CommandModel, NativeOverlayCommand, NativeVideoBar};
use crate::controls::draw_native_bar_lock_button;
use crate::labels::{label_with_shortcut, native_label_with_shortcut, opt_view};
use crate::text::{concat2, concat3, is_blank, trim, trimmed_chars, string_from_chars};

verus! {

/// The keyboard shortcuts shown in the top bar's tooltips.
#[derive(Clone, Debug)]
pub struct NativeOverlayShortcutLabels {
    pub window_mode: Option<String>,
    pub panorama: Option<String>,
    pub panorama_projection: Option<String>,
    pub toggle_audio_mode: Option<String>,
    pub tile_mode: Option<String>,
    pub perf_overlay: Option<String>,
}

/// What was found out about showing the video in 360 degrees.
#[derive(Clone, Copy, Debug, PartialEq, Eq, Structural)]
pub enum PanoramaDetection {
    /// The file says it is a 360 degree video.
    Auto,
    /// Its 2:1 shape suggests one.
    Hint,
    /// It is a flat video, which can be zoomed instead.
    Flat,
}

/// What the top bar reads of the current file.
#[derive(Clone, Debug)]
pub struct NativeTopBarMetadata {
    pub title: Option<String>,
    pub file_name: String,
    /// `None` while the file is still being looked at.
    pub panorama_detection: Option<PanoramaDetection>,
    pub shortcuts: NativeOverlayShortcutLabels,
}

/// The state the top bar is drawn from.
#[derive(Clone, Debug)]
pub struct NativeTopBarInput {
    pub metadata: Option<NativeTopBarMetadata>,
    /// The name of the current 360 degree projection, while the 360 degree view is on.
    pub projection_label: Option<String>,
    /// Whether the flat video is zoomed.
    pub video_zoomed: bool,
    pub fallback_file_name: String,
    pub perf_visible: bool,
    pub vst3_available: bool,
    pub vst3_panel_visible: bool,
    /// Whether only the audio of the file is played.
    pub audio_only: bool,
    /// Whether the side panels open on click, with the names of the current
    /// and the other panel mode.
    pub side_panel_click_to_show: bool,
    pub side_panel_label: String,
    pub side_panel_toggled_label: String,
    pub top_bar_locked: bool,
}

/// The glyph of a top bar button.
#[derive(Clone, Copy, Debug, PartialEq, Eq, Structural)]
pub enum NativeTopButtonGlyph {
    Close,
    WindowToggle,
    Panorama,
    VideoZoom,
    PanoramaProjection,
    PanoramaReset,
    Info { click_to_show: bool },
    AudioMode,
    TileGrid,
    PerfGraph,
    Vst3,
    TileColumnsMore,
    TileColumnsLess,
}

/// What a click on a top bar button does.
#[derive(Clone, Debug)]
pub enum NativeTopBarAction {
    Command(NativeOverlayCommand),
    /// Open or close the projection list.
    ToggleProjectionPopup,
}

/// The plain value of a button's action.
pub enum TopBarActionModel {
    Command(CommandModel),
    ToggleProjectionPopup,
}

impl View for NativeTopBarAction {
    type V = TopBarActionModel;

    open spec fn view(&self) -> TopBarActionModel {
        match self {
            NativeTopBarAction::Command(c) => TopBarActionModel::Command(c@),
            NativeTopBarAction::ToggleProjectionPopup => TopBarActionModel::ToggleProjectionPopup,
        }
    }
}

/// A button of the top bar, in the order they are laid out from the right.
#[derive(Clone, Debug)]
pub struct NativeTopBarButton {
    pub id: String,
    pub glyph: NativeTopButtonGlyph,
    /// Drawn with the active background.
    pub active: bool,
    /// Reacts to clicks (else it only shows its tooltip).
    pub enabled: bool,
    pub tooltip: String,
    pub action: NativeTopBarAction,
}

/// The plain value of a button.
pub struct TopButtonModel {
    pub id: Seq<char>,
    pub glyph: NativeTopButtonGlyph,
    pub active: bool,
    pub enabled: bool,
    pub tooltip: Seq<char>,
    pub action: TopBarActionModel,
}

impl View for NativeTopBarButton {
    type V = TopButtonModel;

    open spec fn view(&self) -> TopButtonModel {
        TopButtonModel {
            id: self.id@,
            glyph: self.glyph,
            active: self.active,
            enabled: self.enabled,
            tooltip: self.tooltip@,
            action: self.action@,
        }
    }
}

/// The plain values of a list of buttons.
pub open spec fn buttons_view(v: Seq<NativeTopBarButton>) -> Seq<TopButtonModel> {
    v.map_values(|b: NativeTopBarButton| b@)
}

/// A shortcut of the top bar.
#[derive(Clone, Copy, Debug, PartialEq, Eq, Structural)]
pub enum ShortcutKind {
    WindowMode,
    Panorama,
    PanoramaProjection,
    ToggleAudioMode,
    TileMode,
    PerfOverlay,
}

/// The characters of an optional string.
pub open spec fn opt_chars(o: Option<String>) -> Option<Seq<char>> {
    match o {
        Some(s) => Some(s@),
        None => None,
    }
}

/// The shortcut of kind `k`, when the file's metadata names one.
pub open spec fn shortcut_of(m: Option<NativeTopBarMetadata>, k: ShortcutKind) -> Option<Seq<char>> {
    match m {
        Some(m) => opt_chars(
            match k {
                ShortcutKind::WindowMode => m.shortcuts.window_mode,
                ShortcutKind::Panorama => m.shortcuts.panorama,
                ShortcutKind::PanoramaProjection => m.shortcuts.panorama_projection,
                ShortcutKind::ToggleAudioMode => m.shortcuts.toggle_audio_mode,
                ShortcutKind::TileMode => m.shortcuts.tile_mode,
                ShortcutKind::PerfOverlay => m.shortcuts.perf_overlay,
            },
        ),
        None => None,
    }
}

fn shortcut_str(m: &Option<NativeTopBarMetadata>, k: ShortcutKind) -> (r: Option<&str>)
    ensures
        opt_view(r) == shortcut_of(*m, k),
{
    match m {
        Some(m) => {
            let o = match k {
                ShortcutKind::WindowMode => &m.shortcuts.window_mode,
                ShortcutKind::Panorama => &m.shortcuts.panorama,
                ShortcutKind::PanoramaProjection => &m.shortcuts.panorama_projection,
                ShortcutKind::ToggleAudioMode => &m.shortcuts.toggle_audio_mode,
                ShortcutKind::TileMode => &m.shortcuts.tile_mode,
                ShortcutKind::PerfOverlay => &m.shortcuts.perf_overlay,
            };
            match o {
                Some(s) => Some(s.as_str()),
                None => None,
            }
        },
        None => None,
    }
}

/// The name shown in a top bar: the title when it is not blank, else the
/// file name when it is not blank, else the trimmed fallback name, else
/// "video". `meta` is the title and file name, when the file is known.
pub open spec fn choose_title(meta: Option<(Option<String>, String)>, fallback: Seq<char>) -> Seq<char> {
    let f = trim(fallback);
    let last = if f.len() == 0 { "video"@ } else { f };
    match meta {
        Some((title, file_name)) => if title matches Some(t) && trim(t@).len() > 0 {
            title->0@
        } else if trim(file_name@).len() > 0 {
            file_name@
        } else {
            last
        },
        None => last,
    }
}

/// The name shown in the top bar.
pub open spec fn top_bar_title(inp: NativeTopBarInput) -> Seq<char> {
    choose_title(
        match inp.metadata {
            Some(m) => Some((m.title, m.file_name)),
            None => None,
        },
        inp.fallback_file_name@,
    )
}

/// What was found out about 360 degree viewing.
pub open spec fn detection(inp: NativeTopBarInput) -> Option<PanoramaDetection> {
    match inp.metadata {
        Some(m) => m.panorama_detection,
        None => None,
    }
}

/// The file can be shown in 360 degrees.
pub open spec fn panorama_enabled(inp: NativeTopBarInput) -> bool {
    detection(inp) == Some(PanoramaDetection::Auto) || detection(inp) == Some(PanoramaDetection::Hint)
}

/// The 360 degree view is on.
pub open spec fn panorama_active(inp: NativeTopBarInput) -> bool {
    panorama_enabled(inp) && inp.projection_label is Some
}

/// The flat video can be zoomed.
pub open spec fn zoom_available(inp: NativeTopBarInput) -> bool {
    detection(inp) == Some(PanoramaDetection::Flat) && !inp.audio_only
}

/// The flat video is zoomed.
pub open spec fn zoom_active(inp: NativeTopBarInput) -> bool {
    zoom_available(inp) && inp.video_zoomed
}

/// A button's plain value.
pub open spec fn top_button(
    id: Seq<char>,
    glyph: NativeTopButtonGlyph,
    active: bool,
    enabled: bool,
    tooltip: Seq<char>,
    action: TopBarActionModel,
) -> TopButtonModel {
    TopButtonModel { id, glyph, active, enabled, tooltip, action }
}

/// The tooltip of the 360 degree / zoom button.
pub open spec fn display_mode_tooltip(inp: NativeTopBarInput) -> Seq<char> {
    let sc = shortcut_of(inp.metadata, ShortcutKind::Panorama);
    match detection(inp) {
        None => "360 度動画の情報を読み込み中"@,
        Some(PanoramaDetection::Auto) => label_with_shortcut("360 度表示"@, sc),
        Some(PanoramaDetection::Hint) => label_with_shortcut("360 度表示 (2:1 候補)"@, sc),
        Some(PanoramaDetection::Flat) => label_with_shortcut("拡大表示"@, sc),
    }
}

/// The buttons of the top bar from the right: close, window, 360 degree or
/// zoom; the projection and view reset buttons while the 360 degree view is
/// on; the zoom reset while zoomed; the side panel mode; for video, the audio
/// view, thumbnail grid and performance graph; and the VST3 panel when there
/// is one. `popup_open` is whether the projection list is open.
pub open spec fn top_bar_buttons(inp: NativeTopBarInput, popup_open: bool) -> Seq<TopButtonModel> {
    let m = inp.metadata;
    let controls = !inp.audio_only;
    let base = seq![
        top_button("native_top_close"@, NativeTopButtonGlyph::Close, false, true, "動画を終了"@,
            TopBarActionModel::Command(CommandModel::CloseFullscreen)),
        top_button("native_top_window_toggle"@, NativeTopButtonGlyph::WindowToggle, false, true,
            label_with_shortcut("ウィンドウ / 全画面 切り替え"@, shortcut_of(m, ShortcutKind::WindowMode)),
            TopBarActionModel::Command(CommandModel::ToggleWindowMode)),
        top_button("native_top_panorama"@,
            if zoom_available(inp) { NativeTopButtonGlyph::VideoZoom } else { NativeTopButtonGlyph::Panorama },
            panorama_active(inp) || zoom_active(inp), panorama_enabled(inp) || zoom_available(inp),
            display_mode_tooltip(inp), TopBarActionModel::Command(CommandModel::TogglePanorama)),
    ];
    let pano = if panorama_active(inp) {
        seq![
            top_button("native_top_panorama_projection"@, NativeTopButtonGlyph::PanoramaProjection,
                popup_open, controls,
                if controls {
                    label_with_shortcut(
                        "投影方式: "@ + inp.projection_label->0@ + "\nクリックで一覧から選択"@,
                        shortcut_of(m, ShortcutKind::PanoramaProjection),
                    )
                } else {
                    "音声モード中は投影方式を変更できません"@
                },
                TopBarActionModel::ToggleProjectionPopup),
            top_button("native_top_panorama_reset"@, NativeTopButtonGlyph::PanoramaReset, false, controls,
                if controls { "初期視点に戻す"@ } else { "音声モード中は視点をリセットできません"@ },
                TopBarActionModel::Command(CommandModel::ResetPanorama)),
        ]
    } else {
        Seq::empty()
    };
    let zoom = if zoom_active(inp) {
        seq![top_button("native_top_video_zoom_reset"@, NativeTopButtonGlyph::PanoramaReset, false, true,
            "表示位置と倍率をリセット"@, TopBarActionModel::Command(CommandModel::ResetVideoZoom))]
    } else {
        Seq::empty()
    };
    let info = seq![top_button("native_top_side_panel_mode"@,
        NativeTopButtonGlyph::Info { click_to_show: inp.side_panel_click_to_show },
        inp.side_panel_click_to_show, true,
        "パネル表示: "@ + inp.side_panel_label@ + "\nクリックで「"@ + inp.side_panel_toggled_label@ + "」に切り替え"@,
        TopBarActionModel::Command(CommandModel::ToggleSidePanelMode))];
    let video = if !inp.audio_only {
        seq![
            top_button("native_top_audio_mode"@, NativeTopButtonGlyph::AudioMode, false, true,
                label_with_shortcut("音声モード (映像を切って波形表示)"@, shortcut_of(m, ShortcutKind::ToggleAudioMode)),
                TopBarActionModel::Command(CommandModel::ToggleAudioMode)),
            top_button("native_top_tile"@, NativeTopButtonGlyph::TileGrid, false,
                inp.projection_label is None && !inp.video_zoomed,
                if inp.projection_label is Some || inp.video_zoomed {
                    "表示モード中はサムネイル一覧を開けません"@
                } else {
                    label_with_shortcut("サムネイル一覧"@, shortcut_of(m, ShortcutKind::TileMode))
                },
                TopBarActionModel::Command(CommandModel::ToggleTileMode)),
            top_button("native_top_perf"@, NativeTopButtonGlyph::PerfGraph, inp.perf_visible, true,
                label_with_shortcut("Perfグラフ"@, shortcut_of(m, ShortcutKind::PerfOverlay)),
                TopBarActionModel::Command(CommandModel::TogglePerfOverlay)),
        ]
    } else {
        Seq::empty()
    };
    let vst = if inp.vst3_available {
        seq![top_button("native_top_vst3"@, NativeTopButtonGlyph::Vst3, inp.vst3_panel_visible, true,
            "VST3 パネル表示/非表示"@, TopBarActionModel::Command(CommandModel::ToggleVst3Gui))]
    } else {
        Seq::empty()
    };
    base + pano + zoom + info + video + vst
}

pub(crate) fn title_string(title: Option<&String>, file_name: Option<&String>, fallback: &String) -> (r: String)
    requires
        title is Some ==> file_name is Some,
    ensures
        r@ == choose_title(
            match file_name {
                Some(f) => Some((
                    match title {
                        Some(t) => Some(*t),
                        None => None,
                    },
                    *f,
                )),
                None => None,
            },
            fallback@,
        ),
{
    let trimmed = trimmed_chars(fallback.as_str());
    let last = if trimmed.len() == 0 {
        "video".to_owned()
    } else {
        string_from_chars(&trimmed)
    };
    match file_name {
        Some(f) => {
            match title {
                Some(t) => {
                    if !is_blank(t.as_str()) {
                        return t.clone();
                    }
                },
                None => {},
            }
            if !is_blank(f.as_str()) {
                f.clone()
            } else {
                last
            }
        },
        None => last,
    }
}

fn top_bar_title_string(inp: &NativeTopBarInput) -> (r: String)
    ensures
        r@ == top_bar_title(*inp),
{
    match &inp.metadata {
        Some(m) => title_string(
            match &m.title {
                Some(t) => Some(t),
                None => None,
            },
            Some(&m.file_name),
            &inp.fallback_file_name,
        ),
        None => title_string(None, None, &inp.fallback_file_name),
    }
}

pub(crate) fn button(
    id: &str,
    glyph: NativeTopButtonGlyph,
    active: bool,
    enabled: bool,
    tooltip: String,
    action: NativeTopBarAction,
) -> (b: NativeTopBarButton)
    ensures
        b@ == top_button(id@, glyph, active, enabled, tooltip@, action@),
{
    NativeTopBarButton { id: id.to_owned(), glyph, active, enabled, tooltip, action }
}

pub(crate) fn command_button(
    id: &str,
    glyph: NativeTopButtonGlyph,
    active: bool,
    enabled: bool,
    tooltip: String,
    command: NativeOverlayCommand,
) -> (b: NativeTopBarButton)
    ensures
        b@ == top_button(id@, glyph, active, enabled, tooltip@, TopBarActionModel::Command(command@)),
{
    button(id, glyph, active, enabled, tooltip, NativeTopBarAction::Command(command))
}

pub(crate) fn push_button(v: &mut Vec<NativeTopBarButton>, b: NativeTopBarButton)
    ensures
        buttons_view(final(v)@) == buttons_view(old(v)@).push(b@),
{
    v.push(b);
    assert(buttons_view(v@) =~= buttons_view(old(v)@).push(b@));
}

/// The buttons of the top bar, as `top_bar_buttons` lists them.
fn top_bar_button_list(inp: &NativeTopBarInput, popup_open: bool) -> (v: Vec<NativeTopBarButton>)
    ensures
        buttons_view(v@) == top_bar_buttons(*inp, popup_open),
{
    let m = &inp.metadata;
    let det: Option<PanoramaDetection> = match m {
        Some(md) => md.panorama_detection,
        None => None,
    };
    let pano_enabled = det == Some(PanoramaDetection::Auto) || det == Some(PanoramaDetection::Hint);
    let pano_active = pano_enabled && inp.projection_label.is_some();
    let zoom_available = det == Some(PanoramaDetection::Flat) && !inp.audio_only;
    let zoom_active = zoom_available && inp.video_zoomed;
    let controls = !inp.audio_only;
    let mut v: Vec<NativeTopBarButton> = Vec::new();
    push_button(
        &mut v,
        command_button("native_top_close", NativeTopButtonGlyph::Close, false, true, "動画を終了".to_owned(),
            NativeOverlayCommand::CloseFullscreen),
    );
    push_button(
        &mut v,
        command_button("native_top_window_toggle", NativeTopButtonGlyph::WindowToggle, false, true,
            native_label_with_shortcut("ウィンドウ / 全画面 切り替え", shortcut_str(m, ShortcutKind::WindowMode)),
            NativeOverlayCommand::ToggleWindowMode),
    );
    let pano_sc = shortcut_str(m, ShortcutKind::Panorama);
    let display_tooltip = match det {
        None => "360 度動画の情報を読み込み中".to_owned(),
        Some(PanoramaDetection::Auto) => native_label_with_shortcut("360 度表示", pano_sc),
        Some(PanoramaDetection::Hint) => native_label_with_shortcut("360 度表示 (2:1 候補)", pano_sc),
        Some(PanoramaDetection::Flat) => native_label_with_shortcut("拡大表示", pano_sc),
    };
    push_button(
        &mut v,
        command_button("native_top_panorama",
            if zoom_available { NativeTopButtonGlyph::VideoZoom } else { NativeTopButtonGlyph::Panorama },
            pano_active || zoom_active, pano_enabled || zoom_available, display_tooltip,
            NativeOverlayCommand::TogglePanorama),
    );
    let ghost base = buttons_view(v@);
    if pano_active {
        let label = match &inp.projection_label {
            Some(l) => l.clone(),
            None => String::new(),
        };
        let tooltip = if controls {
            let text = concat3("投影方式: ", label.as_str(), "\nクリックで一覧から選択");
            native_label_with_shortcut(text.as_str(), shortcut_str(m, ShortcutKind::PanoramaProjection))
        } else {
            "音声モード中は投影方式を変更できません".to_owned()
        };
        push_button(
            &mut v,
            button("native_top_panorama_projection", NativeTopButtonGlyph::PanoramaProjection, popup_open,
                controls, tooltip, NativeTopBarAction::ToggleProjectionPopup),
        );
        push_button(
            &mut v,
            command_button("native_top_panorama_reset", NativeTopButtonGlyph::PanoramaReset, false, controls,
                if controls { "初期視点に戻す".to_owned() } else { "音声モード中は視点をリセットできません".to_owned() },
                NativeOverlayCommand::ResetPanorama),
        );
    }
    let ghost with_pano = buttons_view(v@);
    if zoom_active {
        push_button(
            &mut v,
            command_button("native_top_video_zoom_reset", NativeTopButtonGlyph::PanoramaReset, false, true,
                "表示位置と倍率をリセット".to_owned(), NativeOverlayCommand::ResetVideoZoom),
        );
    }
    let ghost with_zoom = buttons_view(v@);
    let head = concat3("パネル表示: ", inp.side_panel_label.as_str(), "\nクリックで「");
    let info_tip = concat3(head.as_str(), inp.side_panel_toggled_label.as_str(), "」に切り替え");
    push_button(
        &mut v,
        command_button("native_top_side_panel_mode",
            NativeTopButtonGlyph::Info { click_to_show: inp.side_panel_click_to_show },
            inp.side_panel_click_to_show, true, info_tip, NativeOverlayCommand::ToggleSidePanelMode),
    );
    let ghost with_info = buttons_view(v@);
    if !inp.audio_only {
        push_button(
            &mut v,
            command_button("native_top_audio_mode", NativeTopButtonGlyph::AudioMode, false, true,
                native_label_with_shortcut("音声モード (映像を切って波形表示)", shortcut_str(m, ShortcutKind::ToggleAudioMode)),
                NativeOverlayCommand::ToggleAudioMode),
        );
        let shown = inp.projection_label.is_some() || inp.video_zoomed;
        let tile_tip = if shown {
            "表示モード中はサムネイル一覧を開けません".to_owned()
        } else {
            native_label_with_shortcut("サムネイル一覧", shortcut_str(m, ShortcutKind::TileMode))
        };
        push_button(
            &mut v,
            command_button("native_top_tile", NativeTopButtonGlyph::TileGrid, false, !shown, tile_tip,
                NativeOverlayCommand::ToggleTileMode),
        );
        push_button(
            &mut v,
            command_button("native_top_perf", NativeTopButtonGlyph::PerfGraph, inp.perf_visible, true,
                native_label_with_shortcut("Perfグラフ", shortcut_str(m, ShortcutKind::PerfOverlay)),
                NativeOverlayCommand::TogglePerfOverlay),
        );
    }
    let ghost with_video = buttons_view(v@);
    if inp.vst3_available {
        push_button(
            &mut v,
            command_button("native_top_vst3", NativeTopButtonGlyph::Vst3, inp.vst3_panel_visible, true,
                "VST3 パネル表示/非表示".to_owned(), NativeOverlayCommand::ToggleVst3Gui),
        );
    }
    proof {
        let sp = top_bar_buttons(*inp, popup_open);
        assert(buttons_view(v@) =~= sp);
    }
    v
}

/// What the top bar shows in one frame, from the right.
pub struct NativeTopBarView {
    /// The name on the first line.
    pub title: String,
    /// Whether the second line (size, rate, codec and time) is shown.
    pub show_subtitle: bool,
    pub buttons: Vec<NativeTopBarButton>,
    /// The lock button's background and tooltip.
    pub lock_bg: OverlayColor,
    pub lock_tooltip: String,
    /// Whether the zoom percentage is shown beside the zoom reset.
    pub show_zoom_scale: bool,
}

/// Whether the projection list stays open at the start of the frame: only
/// while the 360 degree view is on for video.
pub open spec fn projection_popup_kept(inp: NativeTopBarInput, popup_open: bool) -> bool {
    popup_open && panorama_active(inp) && !inp.audio_only
}

/// The command of a click on button `clicked`, if it is an enabled button
/// that sends one.
pub open spec fn click_command(bs: Seq<TopButtonModel>, clicked: Option<usize>) -> Seq<CommandModel> {
    match clicked {
        Some(i) if i < bs.len() && bs[i as int].enabled => match bs[i as int].action {
            TopBarActionModel::Command(c) => seq![c],
            TopBarActionModel::ToggleProjectionPopup => Seq::empty(),
        },
        _ => Seq::empty(),
    }
}

/// The top bar for one frame. `clicked` is the button (of the returned list)
/// clicked; `lock_hovered` and `lock_clicked` concern the bar's lock button.
/// The projection list closes unless the 360 degree view is on for video,
/// and its button opens or closes it. After this, the caller draws the list
/// while `popup_open` holds.
pub fn draw_native_top_bar(
    input: &NativeTopBarInput,
    clicked: Option<usize>,
    lock_hovered: bool,
    lock_clicked: bool,
    popup_open: &mut bool,
    commands: &mut Vec<NativeOverlayCommand>,
) -> (view: NativeTopBarView)
    ensures
        ({
            let kept = projection_popup_kept(*input, *old(popup_open));
            let bs = top_bar_buttons(*input, kept);
            let lock_cmd = if lock_clicked {
                seq![CommandModel::ToggleBarLock { bar: NativeVideoBar::Top }]
            } else {
                Seq::empty()
            };
            let first = if clicked == Some(0usize) { click_command(bs, clicked) } else { Seq::empty() };
            let rest = if clicked != Some(0usize) { click_command(bs, clicked) } else { Seq::empty() };
            &&& view.title@ == top_bar_title(*input)
            &&& view.show_subtitle == !input.audio_only
            &&& buttons_view(view.buttons@) == bs
            &&& view.lock_bg == crate::color::button_bg(lock_hovered, input.top_bar_locked)
            &&& view.lock_tooltip@ == (if input.top_bar_locked {
                "上部情報バー固定を解除"@
            } else {
                "上部情報バーを固定表示"@
            })
            &&& view.show_zoom_scale == zoom_active(*input)
            &&& commands_view(final(commands)@) == commands_view(old(commands)@) + first + lock_cmd + rest
            &&& *final(popup_open) == (if panorama_active(*input) && !input.audio_only && clicked
                == Some(3usize) {
                !kept
            } else {
                kept
            })
        }),
{
    let det: Option<PanoramaDetection> = match &input.metadata {
        Some(md) => md.panorama_detection,
        None => None,
    };
    let pano_active = (det == Some(PanoramaDetection::Auto) || det == Some(PanoramaDetection::Hint))
        && input.projection_label.is_some();
    if input.projection_label.is_none() || input.audio_only || !pano_active {
        *popup_open = false;
    }
    let title = top_bar_title_string(input);
    let buttons = top_bar_button_list(input, *popup_open);
    let ghost bs = buttons_view(buttons@);
    let ghost start = commands_view(commands@);
    if clicked == Some(0usize) {
        push_command(commands, NativeOverlayCommand::CloseFullscreen);
    }
    let lock_bg = draw_native_bar_lock_button(
        lock_hovered,
        lock_clicked,
        input.top_bar_locked,
        NativeVideoBar::Top,
        commands,
    );
    let ghost after_lock = commands_view(commands@);
    match clicked {
        Some(i) => {
            if i > 0 && i < buttons.len() && buttons[i].enabled {
                assert(bs[i as int] == buttons@[i as int]@);
                match &buttons[i].action {
                    NativeTopBarAction::Command(c) => {
                        push_command(commands, c.clone_command());
                    },
                    NativeTopBarAction::ToggleProjectionPopup => {
                        *popup_open = !*popup_open;
                    },
                }
            }
        },
        None => {},
    }
    let lock_tooltip = if input.top_bar_locked {
        "上部情報バー固定を解除".to_owned()
    } else {
        "上部情報バーを固定表示".to_owned()
    };
    let zoom_active = det == Some(PanoramaDetection::Flat) && !input.audio_only && input.video_zoomed;
    NativeTopBarView {
        title,
        show_subtitle: !input.audio_only,
        buttons,
        lock_bg,
        lock_tooltip,
        show_zoom_scale: zoom_active,
    }
}

/// A top bar button for one frame: its background (hover counts only
/// when it is enabled), and its command when it is enabled and clicked.
pub fn draw_native_top_button_enabled(
    hovered: bool,
    clicked: bool,
    active: bool,
    enabled: bool,
    command: NativeOverlayCommand,
    commands: &mut Vec<NativeOverlayCommand>,
) -> (bg: OverlayColor)
    ensures
        bg == crate::color::button_bg(enabled && hovered, active),
        commands_view(final(commands)@) == commands_view(old(commands)@) + if enabled && clicked {
            seq![command@]
        } else {
            Seq::empty()
        },
{
    let bg = crate::color::draw_overlay_button_bg(enabled && hovered, active);
    if enabled && clicked {
        push_command(commands, command);
    } else {
        assert(commands_view(commands@) =~= commands_view(old(commands)@) + Seq::empty());
    }
    bg
}

/// A top bar button that always reacts, for one frame.
pub fn draw_native_top_button(
    hovered: bool,
    clicked: bool,
    active: bool,
    command: NativeOverlayCommand,
    commands: &mut Vec<NativeOverlayCommand>,
) -> (bg: OverlayColor)
    ensures
        bg == crate::color::button_bg(hovered, active),
        commands_view(final(commands)@) == commands_view(old(commands)@) + if clicked {
            seq![command@]
        } else {
            Seq::empty()
        },
{
    draw_native_top_button_enabled(hovered, clicked, active, true, command, commands)
}

/// The projection list can only stay open while the 360 degree view is on
/// for video; and the thumbnail grid cannot be opened while a display mode
/// is on.
pub proof fn lemma_top_bar_modes(inp: NativeTopBarInput, popup_open: bool, clicked: Option<usize>)
    ensures
        (if panorama_active(inp) && !inp.audio_only && clicked == Some(3usize) {
            !projection_popup_kept(inp, popup_open)
        } else {
            projection_popup_kept(inp, popup_open)
        }) ==> panorama_active(inp) && !inp.audio_only,
        !inp.audio_only ==> ({
            let bs = top_bar_buttons(inp, projection_popup_kept(inp, popup_open));
            exists|i: int| 0 <= i < bs.len() && bs[i].id == "native_top_tile"@ && (bs[i].enabled
                <==> (inp.projection_label is None && !inp.video_zoomed))
        }),
{
    let kept = projection_popup_kept(inp, popup_open);
    let bs = top_bar_buttons(inp, kept);
    if !inp.audio_only {
        let k = 3 + (if panorama_active(inp) { 2int } else { 0 }) + (if zoom_active(inp) { 1int } else { 0 }) + 2;
        assert(bs[k].id == "native_top_tile"@);
    }
}

} // verus!
