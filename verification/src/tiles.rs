use vstd::prelude::*;

use crate::color::OverlayColor;
use crate::commands::{commands_view, push_command, CommandModel, NativeOverlayCommand};
use crate::labels::{joined_shortcuts, label_with_shortcut, native_joined_shortcuts, native_label_with_shortcut, opt_view, opt_views};
use crate::text::{concat2, concat3, decimal, decimal_chars, string_from_chars};
use crate::topbar::{
    buttons_view, choose_title, command_button, push_button, title_string, top_button, NativeTopBarButton,
    NativeTopButtonGlyph, TopBarActionModel, TopButtonModel,
};

verus! {

/// The thumbnail grid's state. The thumbnails stand for times in the video
/// that the caller keeps; here they are counted and numbered from 0.
#[derive(Clone, Debug)]
pub struct NativeOverlayTileOverlay {
    pub tile_count: usize,
    pub columns: usize,
    pub selected_idx: Option<usize>,
    pub progress_done: usize,
    pub progress_total: usize,
    pub finished: bool,
    /// What the file is doing while it opens, when it is still opening.
    pub preparing_message: Option<String>,
    /// Whether no interval between thumbnails is set yet.
    pub interval_unset: bool,
    /// The interval between thumbnails, written out.
    pub interval_text: String,
    pub fallback_file_name: String,
}

/// What the grid's top bar reads of the file; rate and duration come
/// written out.
#[derive(Clone, Debug)]
pub struct NativeTileTopBarMetadata {
    pub title: Option<String>,
    pub file_name: String,
    pub width: u32,
    pub height: u32,
    pub fps_text: String,
    pub video_codec: String,
    pub duration_text: String,
    pub tile_mode_shortcut: Option<String>,
}

/// The progress shown after the interval: "  done/total" while thumbnails
/// are still being made.
pub open spec fn tile_counter(s: NativeOverlayTileOverlay) -> Seq<char> {
    if s.progress_total > 0 && !s.finished {
        "  "@ + decimal(s.progress_done as nat) + "/"@ + decimal(s.progress_total as nat)
    } else {
        Seq::empty()
    }
}

/// The second line of the grid's top bar.
pub open spec fn tile_sub_text(m: Option<NativeTileTopBarMetadata>, s: NativeOverlayTileOverlay) -> Seq<char> {
    match s.preparing_message {
        Some(msg) => msg@,
        None => if s.interval_unset && s.progress_total == 0 {
            "タイルを準備中..."@
        } else {
            match m {
                Some(m) => decimal(m.width as nat) + "x"@ + decimal(m.height as nat) + "  "@ + m.fps_text@ + "  "@
                    + m.video_codec@ + "  "@ + m.duration_text@ + "  "@ + ("間隔 "@ + s.interval_text@ + tile_counter(s)),
                None => "間隔 "@ + s.interval_text@ + tile_counter(s),
            }
        },
    }
}

/// The grid's top bar buttons from the right: back to the video, more
/// columns, fewer columns.
pub open spec fn tile_top_bar_buttons(m: Option<NativeTileTopBarMetadata>) -> Seq<TopButtonModel> {
    let sc: Option<Seq<char>> = match m {
        Some(m) => match m.tile_mode_shortcut {
            Some(t) => Some(t@),
            None => None,
        },
        None => None,
    };
    seq![
        top_button("native_tile_top_close"@, NativeTopButtonGlyph::Close, false, true,
            label_with_shortcut("動画に戻る"@, joined_shortcuts(seq![sc, Some("Esc"@)])),
            TopBarActionModel::Command(CommandModel::ToggleTileMode)),
        top_button("native_tile_columns_more"@, NativeTopButtonGlyph::TileColumnsMore, false, true,
            "サムネ列数を増やす [Ctrl+ホイール下]"@, TopBarActionModel::Command(CommandModel::TileColumnsDelta { delta: 1i32 })),
        top_button("native_tile_columns_less"@, NativeTopButtonGlyph::TileColumnsLess, false, true,
            "サムネ列数を減らす [Ctrl+ホイール上]"@, TopBarActionModel::Command(CommandModel::TileColumnsDelta { delta: -1i32 })),
    ]
}

/// What the grid's top bar shows.
pub struct NativeTileTopBarView {
    pub title: String,
    pub sub_text: String,
    pub buttons: Vec<NativeTopBarButton>,
}

fn tile_counter_text(s: &NativeOverlayTileOverlay) -> (r: String)
    ensures
        r@ == tile_counter(*s),
{
    if s.progress_total > 0 && !s.finished {
        let done = string_from_chars(&decimal_chars(s.progress_done as u64));
        let total = string_from_chars(&decimal_chars(s.progress_total as u64));
        let a = concat3("  ", done.as_str(), "/");
        concat2(a.as_str(), total.as_str())
    } else {
        String::new()
    }
}

fn tile_sub(m: &Option<NativeTileTopBarMetadata>, s: &NativeOverlayTileOverlay) -> (r: String)
    ensures
        r@ == tile_sub_text(*m, *s),
{
    match &s.preparing_message {
        Some(msg) => msg.clone(),
        None => if s.interval_unset && s.progress_total == 0 {
            "タイルを準備中...".to_owned()
        } else {
            let counter = tile_counter_text(s);
            let tail = concat3("間隔 ", s.interval_text.as_str(), counter.as_str());
            match m {
                Some(md) => {
                    let w = string_from_chars(&decimal_chars(md.width as u64));
                    let h = string_from_chars(&decimal_chars(md.height as u64));
                    let a = concat3(w.as_str(), "x", h.as_str());
                    let b = concat3(a.as_str(), "  ", md.fps_text.as_str());
                    let c = concat3(b.as_str(), "  ", md.video_codec.as_str());
                    let d = concat3(c.as_str(), "  ", md.duration_text.as_str());
                    let r = concat3(d.as_str(), "  ", tail.as_str());
                    assert(r@ =~= tile_sub_text(*m, *s));
                    r
                },
                None => tail,
            }
        },
    }
}

/// The top bar over the thumbnail grid for one frame: the file's name, its
/// details with the interval and progress, and the back and column buttons.
/// `clicked` is the button (of the returned list) clicked.
pub fn draw_native_top_bar_tile(
    metadata: &Option<NativeTileTopBarMetadata>,
    tile_state: &NativeOverlayTileOverlay,
    clicked: Option<usize>,
    commands: &mut Vec<NativeOverlayCommand>,
) -> (view: NativeTileTopBarView)
    ensures
        view.title@ == choose_title(
            match *metadata {
                Some(m) => Some((m.title, m.file_name)),
                None => None,
            },
            tile_state.fallback_file_name@,
        ),
        view.sub_text@ == tile_sub_text(*metadata, *tile_state),
        buttons_view(view.buttons@) == tile_top_bar_buttons(*metadata),
        commands_view(final(commands)@) == commands_view(old(commands)@) + match clicked {
            Some(i) if i < 3 => match tile_top_bar_buttons(*metadata)[i as int].action {
                TopBarActionModel::Command(c) => seq![c],
                TopBarActionModel::ToggleProjectionPopup => Seq::empty(),
            },
            _ => Seq::empty(),
        },
{
    let title = match metadata {
        Some(m) => title_string(
            match &m.title {
                Some(t) => Some(t),
                None => None,
            },
            Some(&m.file_name),
            &tile_state.fallback_file_name,
        ),
        None => title_string(None, None, &tile_state.fallback_file_name),
    };
    let sub_text = tile_sub(metadata, tile_state);
    let sc: Option<&str> = match metadata {
        Some(m) => match &m.tile_mode_shortcut {
            Some(t) => Some(t.as_str()),
            None => None,
        },
        None => None,
    };
    let list = [sc, Some("Esc")];
    proof {
        let s0: Option<Seq<char>> = match metadata {
            Some(m) => match &m.tile_mode_shortcut {
                Some(t) => Some(t@),
                None => None,
            },
            None => None,
        };
        assert(opt_views(list@) =~= seq![s0, Some("Esc"@)]);
    }
    let back = native_joined_shortcuts(&list);
    let back_tip = native_label_with_shortcut(
        "動画に戻る",
        match &back {
            Some(b) => Some(b.as_str()),
            None => None,
        },
    );
    let mut buttons: Vec<NativeTopBarButton> = Vec::new();
    push_button(
        &mut buttons,
        command_button("native_tile_top_close", NativeTopButtonGlyph::Close, false, true, back_tip,
            NativeOverlayCommand::ToggleTileMode),
    );
    push_button(
        &mut buttons,
        command_button("native_tile_columns_more", NativeTopButtonGlyph::TileColumnsMore, false, true,
            "サムネ列数を増やす [Ctrl+ホイール下]".to_owned(), NativeOverlayCommand::TileColumnsDelta { delta: 1 }),
    );
    push_button(
        &mut buttons,
        command_button("native_tile_columns_less", NativeTopButtonGlyph::TileColumnsLess, false, true,
            "サムネ列数を減らす [Ctrl+ホイール上]".to_owned(), NativeOverlayCommand::TileColumnsDelta { delta: -1 }),
    );
    assert(buttons_view(buttons@) =~= tile_top_bar_buttons(*metadata));
    match clicked {
        Some(i) => {
            if i == 0 {
                push_command(commands, NativeOverlayCommand::ToggleTileMode);
            } else if i == 1 {
                push_command(commands, NativeOverlayCommand::TileColumnsDelta { delta: 1 });
            } else if i == 2 {
                push_command(commands, NativeOverlayCommand::TileColumnsDelta { delta: -1 });
            } else {
                assert(commands_view(commands@) =~= commands_view(old(commands)@) + Seq::empty());
            }
        },
        None => {
            assert(commands_view(commands@) =~= commands_view(old(commands)@) + Seq::empty());
        },
    }
    NativeTileTopBarView { title, sub_text, buttons }
}

/// A thumbnail of the grid: its column and row, and whether it is selected.
#[derive(Clone, Copy, Debug)]
pub struct NativeTileCell {
    pub col: usize,
    pub row: usize,
    pub selected: bool,
    /// The colour of its time label: dark on the selected thumbnail's yellow.
    pub label_color: OverlayColor,
}

/// What the thumbnail grid shows.
pub struct NativeTileOverlayView {
    /// The message in the middle while nothing is ready yet.
    pub preparing: Option<String>,
    pub cells: Vec<NativeTileCell>,
}

/// The column count used, at least one.
pub open spec fn tile_columns(s: NativeOverlayTileOverlay) -> nat {
    if s.columns == 0 { 1 } else { s.columns as nat }
}

/// The thumbnail grid for one frame: the message while nothing is ready,
/// and each thumbnail's place, left to right and top to bottom. A click on
/// thumbnail `clicked` seeks to its time.
pub fn draw_native_tile_overlay(
    state: &NativeOverlayTileOverlay,
    clicked: Option<usize>,
    commands: &mut Vec<NativeOverlayCommand>,
) -> (view: NativeTileOverlayView)
    ensures
        (state.progress_done == 0 && !state.finished) ==> (view.preparing matches Some(p) && p@ == match state.preparing_message {
            Some(m) => m@,
            None => "タイルを準備中..."@,
        }),
        !(state.progress_done == 0 && !state.finished) ==> view.preparing is None,
        view.cells.len() == state.tile_count,
        forall|i: int| 0 <= i < state.tile_count ==> {
            let sel = state.selected_idx == Some(i as usize);
            &&& (#[trigger] view.cells@[i]).col == i % (tile_columns(*state) as int)
            &&& view.cells@[i].row == i / (tile_columns(*state) as int)
            &&& view.cells@[i].selected == sel
            &&& view.cells@[i].label_color == (if sel { OverlayColor::Rgb(28, 22, 8) } else { OverlayColor::Rgb(220, 220, 220) })
        },
        commands_view(final(commands)@) == commands_view(old(commands)@) + match clicked {
            Some(i) if i < state.tile_count => seq![CommandModel::TileSeek { tile_idx: i }],
            _ => Seq::empty(),
        },
{
    let preparing = if state.progress_done == 0 && !state.finished {
        match &state.preparing_message {
            Some(m) => Some(m.clone()),
            None => Some("タイルを準備中...".to_owned()),
        }
    } else {
        None
    };
    let columns: usize = if state.columns == 0 { 1 } else { state.columns };
    let mut cells: Vec<NativeTileCell> = Vec::new();
    let mut i: usize = 0;
    while i < state.tile_count
        invariant
            i <= state.tile_count,
            columns == tile_columns(*state),
            cells.len() == i,
            forall|k: int| 0 <= k < i ==> {
                let sel = state.selected_idx == Some(k as usize);
                &&& (#[trigger] cells@[k]).col == k % (columns as int)
                &&& cells@[k].row == k / (columns as int)
                &&& cells@[k].selected == sel
                &&& cells@[k].label_color == (if sel { OverlayColor::Rgb(28, 22, 8) } else { OverlayColor::Rgb(220, 220, 220) })
            },
        decreases state.tile_count - i,
    {
        let selected = state.selected_idx == Some(i);
        let label_color = if selected { OverlayColor::Rgb(28, 22, 8) } else { OverlayColor::Rgb(220, 220, 220) };
        cells.push(NativeTileCell { col: i % columns, row: i / columns, selected, label_color });
        i += 1;
    }
    match clicked {
        Some(k) => {
            if k < state.tile_count {
                push_command(commands, NativeOverlayCommand::TileSeek { tile_idx: k });
            } else {
                assert(commands_view(commands@) =~= commands_view(old(commands)@) + Seq::empty());
            }
        },
        None => {
            assert(commands_view(commands@) =~= commands_view(old(commands)@) + Seq::empty());
        },
    }
    NativeTileOverlayView { preparing, cells }
}

} // verus!
