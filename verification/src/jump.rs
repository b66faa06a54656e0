use vstd::prelude::*;

use crate::color::{button_bg, draw_overlay_button_bg, OverlayColor};
use crate::commands::{commands_view, push_command, CommandModel, NativeOverlayCommand};
use crate::text::{is_blank, trim};
use crate::labels::{label_with_shortcut, native_label_with_shortcut, opt_view};
use crate::bookmarks::NativeBulkBookmarkDialog;

verus! {

/// What a timeline marker or jump entry is.
#[derive(Clone, Copy, Debug, PartialEq, Eq, Structural)]
pub enum NativeOverlayTimelineMarkerKind {
    Pin,
    Bookmark,
    Chapter,
}

/// What the jump list reads of an entry; its thumbnail stays with the caller.
#[derive(Clone, Debug)]
pub struct NativeOverlayJumpEntry {
    /// Where the entry sits in the video, as an order key: the keys of two
    /// times compare exactly as the times do, and a time that is not a
    /// number has none.
    pub pts_key: Option<i64>,
    pub kind: NativeOverlayTimelineMarkerKind,
    pub title: Option<String>,
    /// The bookmark behind the entry, when it is one.
    pub bookmark_id: Option<i64>,
}

/// A bookmark whose title is being edited.
#[derive(Clone, Debug)]
pub struct NativeBookmarkTitleEdit {
    pub id: i64,
    pub title: String,
    pub request_focus: bool,
}

/// The badge and its colour for an entry's kind.
pub open spec fn kind_badge(kind: NativeOverlayTimelineMarkerKind) -> (Seq<char>, OverlayColor) {
    match kind {
        NativeOverlayTimelineMarkerKind::Pin => ("PIN"@, OverlayColor::Rgb(140, 245, 170)),
        NativeOverlayTimelineMarkerKind::Bookmark => ("BM"@, OverlayColor::Rgb(255, 220, 82)),
        NativeOverlayTimelineMarkerKind::Chapter => ("CH"@, OverlayColor::Rgb(115, 210, 255)),
    }
}

/// What a row of the jump list shows.
pub struct NativeJumpRowView {
    /// The row's highlight while hovered.
    pub hover_fill: Option<OverlayColor>,
    pub kind_label: String,
    pub kind_color: OverlayColor,
    /// Whether the title is shown under the badge (it is there and not blank).
    pub show_title: bool,
    /// For a bookmark, the edit button: its background and pencil colour.
    pub edit_button: Option<(OverlayColor, OverlayColor)>,
    /// For a bookmark or the pin, the "X" button: its background and tooltip.
    pub delete_button: Option<(OverlayColor, String)>,
    /// The full title as the row's tooltip, when the shown title wraps or is cut.
    pub row_tooltip: Option<String>,
}

/// Whether the row shows `title`.
pub open spec fn title_shown(title: Option<String>) -> bool {
    title matches Some(t) && trim(t@).len() > 0
}

/// The commands of a row for one frame: deleting the bookmark or the pin
/// when "X" was clicked, else seeking to the entry when the row was clicked
/// and the edit button was not.
pub open spec fn jump_row_commands(
    idx: usize,
    kind: NativeOverlayTimelineMarkerKind,
    bookmark_id: Option<i64>,
    row_clicked: bool,
    edit_clicked: bool,
    delete_clicked: bool,
) -> Seq<CommandModel> {
    let has_edit = bookmark_id is Some;
    let has_delete = bookmark_id is Some || kind == NativeOverlayTimelineMarkerKind::Pin;
    let edit = has_edit && edit_clicked;
    let delete = has_delete && delete_clicked;
    let d = if delete {
        match bookmark_id {
            Some(id) => seq![CommandModel::DeleteBookmark { id }],
            None => seq![CommandModel::DeletePin],
        }
    } else {
        Seq::empty()
    };
    if row_clicked && !delete && !edit {
        d.push(CommandModel::Seek { entry_idx: idx })
    } else {
        d
    }
}

/// A row does at most one thing per frame: "X" wins over the row's own
/// click, and so does the edit button.
pub proof fn lemma_jump_row_one_action(
    idx: usize,
    kind: NativeOverlayTimelineMarkerKind,
    bookmark_id: Option<i64>,
    row_clicked: bool,
    edit_clicked: bool,
    delete_clicked: bool,
)
    ensures
        jump_row_commands(idx, kind, bookmark_id, row_clicked, edit_clicked, delete_clicked).len() <= 1,
        delete_clicked && (bookmark_id is Some || kind == NativeOverlayTimelineMarkerKind::Pin)
            ==> !jump_row_commands(idx, kind, bookmark_id, row_clicked, edit_clicked, delete_clicked).contains(
            CommandModel::Seek { entry_idx: idx },
        ),
{
    let c = jump_row_commands(idx, kind, bookmark_id, row_clicked, edit_clicked, delete_clicked);
    if delete_clicked && (bookmark_id is Some || kind == NativeOverlayTimelineMarkerKind::Pin) {
        assert(c.len() == 1);
        assert(c[0] != CommandModel::Seek { entry_idx: idx });
    }
}

/// The row of the jump list for entry `idx`, for one frame. The hover and
/// click arguments are those of the row, its edit button and its "X" button
/// (only a bookmark has both buttons, the pin only "X"); `title_wrapped` is
/// whether the laid-out title was cut or took more than one line. A click on
/// the edit button starts editing the bookmark's title with focus.
pub fn draw_native_jump_row(
    idx: usize,
    entry: &NativeOverlayJumpEntry,
    row_hovered: bool,
    row_clicked: bool,
    edit_hovered: bool,
    edit_clicked: bool,
    delete_hovered: bool,
    delete_clicked: bool,
    title_wrapped: bool,
    bookmark_title_edit: &mut Option<NativeBookmarkTitleEdit>,
    commands: &mut Vec<NativeOverlayCommand>,
) -> (view: NativeJumpRowView)
    ensures
        view.hover_fill == (if row_hovered {
            Some(OverlayColor::RgbaUnmultiplied(255, 255, 255, 22))
        } else {
            None::<OverlayColor>
        }),
        (view.kind_label@, view.kind_color) == kind_badge(entry.kind),
        view.show_title == title_shown(entry.title),
        view.edit_button == (match entry.bookmark_id {
            Some(_) => Some(
                (
                    button_bg(edit_hovered, false),
                    if edit_hovered {
                        OverlayColor::Rgb(255, 235, 160)
                    } else {
                        OverlayColor::Rgb(225, 210, 150)
                    },
                ),
            ),
            None => None,
        }),
        entry.bookmark_id is Some ==> (view.delete_button matches Some((bg, tip)) && bg
            == button_bg(delete_hovered, false) && tip@ == "ブックマークを削除"@),
        entry.bookmark_id is None && entry.kind == NativeOverlayTimelineMarkerKind::Pin
            ==> (view.delete_button matches Some((bg, tip)) && bg == button_bg(delete_hovered, false)
            && tip@ == "ピン留めを解除"@),
        entry.bookmark_id is None && entry.kind != NativeOverlayTimelineMarkerKind::Pin
            ==> view.delete_button is None,
        view.row_tooltip matches Some(t) ==> entry.title matches Some(full) && t@ == full@,
        view.row_tooltip is Some <==> (title_shown(entry.title) && title_wrapped),
        (entry.bookmark_id is Some && edit_clicked) ==> (*final(bookmark_title_edit)
            matches Some(e) && e.id == entry.bookmark_id->0 && e.request_focus && e.title@
            == match entry.title {
            Some(t) => t@,
            None => Seq::<char>::empty(),
        }),
        !(entry.bookmark_id is Some && edit_clicked) ==> *final(bookmark_title_edit) == *old(
            bookmark_title_edit,
        ),
        commands_view(final(commands)@) == commands_view(old(commands)@) + jump_row_commands(
            idx,
            entry.kind,
            entry.bookmark_id,
            row_clicked,
            edit_clicked,
            delete_clicked,
        ),
{
    let hover_fill = if row_hovered {
        Some(OverlayColor::RgbaUnmultiplied(255, 255, 255, 22))
    } else {
        None
    };
    let (kind_label, kind_color) = match entry.kind {
        NativeOverlayTimelineMarkerKind::Pin => ("PIN".to_owned(), OverlayColor::Rgb(140, 245, 170)),
        NativeOverlayTimelineMarkerKind::Bookmark => ("BM".to_owned(), OverlayColor::Rgb(255, 220, 82)),
        NativeOverlayTimelineMarkerKind::Chapter => ("CH".to_owned(), OverlayColor::Rgb(115, 210, 255)),
    };
    let show_title = match &entry.title {
        Some(t) => !is_blank(t.as_str()),
        None => false,
    };
    let mut delete_done = false;
    let mut edit_done = false;
    let mut edit_button: Option<(OverlayColor, OverlayColor)> = None;
    let mut delete_button: Option<(OverlayColor, String)> = None;
    let ghost start = commands_view(commands@);
    match entry.bookmark_id {
        Some(id) => {
            let pencil = if edit_hovered {
                OverlayColor::Rgb(255, 235, 160)
            } else {
                OverlayColor::Rgb(225, 210, 150)
            };
            edit_button = Some((draw_overlay_button_bg(edit_hovered, false), pencil));
            if edit_clicked {
                edit_done = true;
                let title = match &entry.title {
                    Some(t) => t.clone(),
                    None => String::new(),
                };
                *bookmark_title_edit = Some(NativeBookmarkTitleEdit { id, title, request_focus: true });
            }
            delete_button = Some((draw_overlay_button_bg(delete_hovered, false), "ブックマークを削除".to_owned()));
            if delete_clicked {
                delete_done = true;
                push_command(commands, NativeOverlayCommand::DeleteBookmark { id });
            }
        },
        None => {
            if entry.kind == NativeOverlayTimelineMarkerKind::Pin {
                delete_button = Some((draw_overlay_button_bg(delete_hovered, false), "ピン留めを解除".to_owned()));
                if delete_clicked {
                    delete_done = true;
                    push_command(commands, NativeOverlayCommand::DeletePin);
                }
            }
        },
    }
    let ghost mid = commands_view(commands@);
    assert(mid == start + jump_row_commands(idx, entry.kind, entry.bookmark_id, false, edit_clicked, delete_clicked));
    let row_tooltip = if show_title && title_wrapped {
        match &entry.title {
            Some(t) => Some(t.clone()),
            None => None,
        }
    } else {
        None
    };
    if row_clicked && !delete_done && !edit_done {
        push_command(commands, NativeOverlayCommand::Seek { entry_idx: idx });
    }
    NativeJumpRowView { hover_fill, kind_label, kind_color, show_title, edit_button, delete_button, row_tooltip }
}

/// How the jump panel is set up: its title and empty text, which header
/// buttons and which sections it has, and whether rows show thumbnails.
#[derive(Clone, Debug)]
pub struct NativeJumpPanelOptions {
    pub title: String,
    pub empty_text: String,
    pub show_pin_button: bool,
    pub show_bulk_button: bool,
    pub show_pins: bool,
    pub show_chapters: bool,
    pub show_section_headers: bool,
    pub show_thumbnails: bool,
}

/// A section of the jump list: the entries of one kind, by their index in
/// the list, under an optional heading and its colour.
pub struct NativeJumpSection {
    pub kind: NativeOverlayTimelineMarkerKind,
    pub header: Option<(String, OverlayColor)>,
    pub entries: Vec<usize>,
}

/// What the jump panel shows in one frame.
pub struct NativeJumpPanelView {
    /// The bulk bookmark button's background, when the panel has it.
    pub bulk_button: Option<OverlayColor>,
    /// The pin button's background and tooltip, when the panel has it.
    pub pin_button: Option<(OverlayColor, String)>,
    /// The bookmark button's background and tooltip.
    pub bookmark_button: (OverlayColor, String),
    /// The sections, or none with the empty text when the list is empty.
    pub sections: Vec<NativeJumpSection>,
}

/// The indices, in order, of the entries of kind `kind` among `kinds`.
pub open spec fn kind_indices(kinds: Seq<NativeOverlayTimelineMarkerKind>, kind: NativeOverlayTimelineMarkerKind) -> Seq<usize>
    decreases kinds.len(),
{
    if kinds.len() == 0 {
        Seq::empty()
    } else {
        let p = kind_indices(kinds.drop_last(), kind);
        if kinds.last() == kind {
            p.push((kinds.len() - 1) as usize)
        } else {
            p
        }
    }
}

/// The kinds of a list of entries.
pub open spec fn entry_kinds(entries: Seq<NativeOverlayJumpEntry>) -> Seq<NativeOverlayTimelineMarkerKind> {
    entries.map_values(|e: NativeOverlayJumpEntry| e.kind)
}

/// The section heading of a kind.
pub open spec fn section_heading(kind: NativeOverlayTimelineMarkerKind) -> (Seq<char>, OverlayColor) {
    match kind {
        NativeOverlayTimelineMarkerKind::Pin => ("ピン留め"@, OverlayColor::Rgb(140, 245, 170)),
        NativeOverlayTimelineMarkerKind::Bookmark => ("ブックマーク"@, OverlayColor::Rgb(255, 220, 82)),
        NativeOverlayTimelineMarkerKind::Chapter => ("チャプター"@, OverlayColor::Rgb(115, 210, 255)),
    }
}

/// The sections, as kind and entry indices: pins, bookmarks, then chapters,
/// each when the panel shows that kind and has entries of it.
pub open spec fn jump_sections(
    entries: Seq<NativeOverlayJumpEntry>,
    show_pins: bool,
    show_chapters: bool,
) -> Seq<(NativeOverlayTimelineMarkerKind, Seq<usize>)> {
    let k = entry_kinds(entries);
    let pins = kind_indices(k, NativeOverlayTimelineMarkerKind::Pin);
    let marks = kind_indices(k, NativeOverlayTimelineMarkerKind::Bookmark);
    let chapters = kind_indices(k, NativeOverlayTimelineMarkerKind::Chapter);
    (if show_pins && pins.len() > 0 { seq![(NativeOverlayTimelineMarkerKind::Pin, pins)] } else { Seq::empty() })
        + (if marks.len() > 0 { seq![(NativeOverlayTimelineMarkerKind::Bookmark, marks)] } else { Seq::empty() })
        + (if show_chapters && chapters.len() > 0 { seq![(NativeOverlayTimelineMarkerKind::Chapter, chapters)] } else { Seq::empty() })
}

/// `s` shows the section `(kind, idx)`, headed when `headers`.
pub open spec fn section_shows(s: NativeJumpSection, sec: (NativeOverlayTimelineMarkerKind, Seq<usize>), headers: bool) -> bool {
    &&& s.kind == sec.0
    &&& s.entries@ == sec.1
    &&& (if headers {
        s.header matches Some((l, c)) && (l@, c) == section_heading(sec.0)
    } else {
        s.header is None
    })
}

/// Each kind's section lists exactly the entries of that kind, each once, in
/// list order.
pub proof fn lemma_kind_indices(kinds: Seq<NativeOverlayTimelineMarkerKind>, kind: NativeOverlayTimelineMarkerKind)
    requires
        kinds.len() <= usize::MAX,
    ensures
        forall|j: int| 0 <= j < kind_indices(kinds, kind).len() ==> {
            let i = #[trigger] kind_indices(kinds, kind)[j];
            i < kinds.len() && kinds[i as int] == kind
        },
        forall|a: int, b: int|
            0 <= a < b < kind_indices(kinds, kind).len() ==> #[trigger] kind_indices(kinds, kind)[a]
                < #[trigger] kind_indices(kinds, kind)[b],
        forall|i: int| 0 <= i < kinds.len() && #[trigger] kinds[i] == kind ==> kind_indices(kinds, kind).contains(i as usize),
    decreases kinds.len(),
{
    if kinds.len() > 0 {
        let d = kinds.drop_last();
        lemma_kind_indices(d, kind);
        let p = kind_indices(d, kind);
        let r = kind_indices(kinds, kind);
        assert forall|j: int| 0 <= j < p.len() implies (#[trigger] p[j]) < d.len() && kinds[p[j] as int] == kind by {
            assert(d[p[j] as int] == kinds[p[j] as int]);
        }
        if kinds.last() == kind {
            assert(r == p.push((kinds.len() - 1) as usize));
            assert forall|a: int, b: int| 0 <= a < b < r.len() implies #[trigger] r[a] < #[trigger] r[b] by {
                if b == r.len() - 1 {
                    assert(p[a] < d.len());
                }
            }
        }
        assert forall|i: int| 0 <= i < kinds.len() && #[trigger] kinds[i] == kind implies r.contains(i as usize) by {
            if i < kinds.len() - 1 {
                assert(d[i] == kinds[i]);
                assert(p.contains(i as usize));
                let w = choose|w: int| 0 <= w < p.len() && p[w] == i as usize;
                assert(r[w] == i as usize);
            } else {
                assert(r[r.len() - 1] == i as usize);
            }
        }
    }
}

fn indices_of_kind(entries: &[NativeOverlayJumpEntry], kind: NativeOverlayTimelineMarkerKind) -> (r: Vec<usize>)
    ensures
        r@ == kind_indices(entry_kinds(entries@), kind),
{
    let ghost k = entry_kinds(entries@);
    let mut r: Vec<usize> = Vec::new();
    let mut i: usize = 0;
    while i < entries.len()
        invariant
            i <= entries.len(),
            k == entry_kinds(entries@),
            r@ == kind_indices(k.take(i as int), kind),
        decreases entries.len() - i,
    {
        assert(k.take(i + 1).drop_last() =~= k.take(i as int));
        assert(k.take(i + 1).last() == entries@[i as int].kind);
        if entries[i].kind == kind {
            r.push(i);
        }
        i += 1;
    }
    assert(k.take(i as int) =~= k);
    r
}

fn section(kind: NativeOverlayTimelineMarkerKind, headers: bool, entries: Vec<usize>) -> (s: NativeJumpSection)
    ensures
        section_shows(s, (kind, entries@), headers),
{
    let header = if headers {
        match kind {
            NativeOverlayTimelineMarkerKind::Pin => Some(("ピン留め".to_owned(), OverlayColor::Rgb(140, 245, 170))),
            NativeOverlayTimelineMarkerKind::Bookmark => Some(("ブックマーク".to_owned(), OverlayColor::Rgb(255, 220, 82))),
            NativeOverlayTimelineMarkerKind::Chapter => Some(("チャプター".to_owned(), OverlayColor::Rgb(115, 210, 255))),
        }
    } else {
        None
    };
    NativeJumpSection { kind, header, entries }
}

/// The commands of the panel's header buttons: pinning, then bookmarking
/// the current position.
pub open spec fn jump_header_commands(show_pin_button: bool, pin_clicked: bool, bookmark_clicked: bool) -> Seq<CommandModel> {
    (if show_pin_button && pin_clicked { seq![CommandModel::SetPinAt] } else { Seq::empty() })
        + (if bookmark_clicked { seq![CommandModel::AddBookmarkAt] } else { Seq::empty() })
}

/// The jump panel for one frame, apart from its rows (each drawn by
/// `draw_native_jump_row`). The bulk button opens the bulk bookmark dialog
/// when it is not open yet; the pin and bookmark buttons mark the current
/// position. The entries are listed in sections by kind.
pub fn draw_native_jump_panel_body(
    opts: &NativeJumpPanelOptions,
    entries: &[NativeOverlayJumpEntry],
    pin_shortcut: Option<&str>,
    bookmark_shortcut: Option<&str>,
    bulk_hovered: bool,
    bulk_clicked: bool,
    pin_hovered: bool,
    pin_clicked: bool,
    bookmark_hovered: bool,
    bookmark_clicked: bool,
    bulk_bookmark_dialog: &mut Option<NativeBulkBookmarkDialog>,
    commands: &mut Vec<NativeOverlayCommand>,
) -> (view: NativeJumpPanelView)
    ensures
        view.bulk_button == (if opts.show_bulk_button {
            Some(button_bg(bulk_hovered, false))
        } else {
            None::<OverlayColor>
        }),
        opts.show_pin_button ==> (view.pin_button matches Some((bg, tip)) && bg == button_bg(pin_hovered, false)
            && tip@ == label_with_shortcut("現在位置をピン留め"@, opt_view(pin_shortcut))),
        !opts.show_pin_button ==> view.pin_button is None,
        view.bookmark_button.0 == button_bg(bookmark_hovered, false),
        view.bookmark_button.1@ == label_with_shortcut("現在位置をブックマーク"@, opt_view(bookmark_shortcut)),
        (opts.show_bulk_button && bulk_clicked && *old(bulk_bookmark_dialog) is None) ==> (
        *final(bulk_bookmark_dialog) matches Some(d) && d.textarea@.len() == 0 && d.pending_paste is None
            && d.request_focus && !d.confirm_clear_all && !d.export_seconds_only),
        !(opts.show_bulk_button && bulk_clicked && *old(bulk_bookmark_dialog) is None)
            ==> *final(bulk_bookmark_dialog) == *old(bulk_bookmark_dialog),
        commands_view(final(commands)@) == commands_view(old(commands)@) + jump_header_commands(
            opts.show_pin_button,
            pin_clicked,
            bookmark_clicked,
        ),
        entries.len() == 0 ==> view.sections.len() == 0,
        view.sections.len() == jump_sections(entries@, opts.show_pins, opts.show_chapters).len(),
        forall|i: int|
            0 <= i < view.sections.len() ==> section_shows(
                #[trigger] view.sections@[i],
                jump_sections(entries@, opts.show_pins, opts.show_chapters)[i],
                opts.show_section_headers,
            ),
{
    let ghost start = commands_view(commands@);
    let bulk_button = if opts.show_bulk_button {
        if bulk_clicked && bulk_bookmark_dialog.is_none() {
            *bulk_bookmark_dialog = Some(NativeBulkBookmarkDialog {
                textarea: String::new(),
                pending_paste: None,
                request_focus: true,
                confirm_clear_all: false,
                export_seconds_only: false,
            });
        }
        Some(draw_overlay_button_bg(bulk_hovered, false))
    } else {
        None
    };
    let pin_button = if opts.show_pin_button {
        let tip = native_label_with_shortcut("現在位置をピン留め", pin_shortcut);
        if pin_clicked {
            push_command(commands, NativeOverlayCommand::SetPinAt);
        }
        Some((draw_overlay_button_bg(pin_hovered, false), tip))
    } else {
        None
    };
    let ghost mid = commands_view(commands@);
    let bookmark_tip = native_label_with_shortcut("現在位置をブックマーク", bookmark_shortcut);
    if bookmark_clicked {
        push_command(commands, NativeOverlayCommand::AddBookmarkAt);
    }
    proof {
        assert(commands_view(commands@) =~= start + jump_header_commands(opts.show_pin_button, pin_clicked, bookmark_clicked));
    }
    let bookmark_button = (draw_overlay_button_bg(bookmark_hovered, false), bookmark_tip);
    let mut sections: Vec<NativeJumpSection> = Vec::new();
    let ghost secs = jump_sections(entries@, opts.show_pins, opts.show_chapters);
    if entries.len() > 0 {
        let pins = indices_of_kind(entries, NativeOverlayTimelineMarkerKind::Pin);
        let marks = indices_of_kind(entries, NativeOverlayTimelineMarkerKind::Bookmark);
        let chapters = indices_of_kind(entries, NativeOverlayTimelineMarkerKind::Chapter);
        let ghost p = if opts.show_pins && pins@.len() > 0 {
            seq![(NativeOverlayTimelineMarkerKind::Pin, pins@)]
        } else {
            Seq::empty()
        };
        let ghost b = if marks@.len() > 0 {
            seq![(NativeOverlayTimelineMarkerKind::Bookmark, marks@)]
        } else {
            Seq::empty()
        };
        let ghost c = if opts.show_chapters && chapters@.len() > 0 {
            seq![(NativeOverlayTimelineMarkerKind::Chapter, chapters@)]
        } else {
            Seq::empty()
        };
        if opts.show_pins && pins.len() > 0 {
            sections.push(section(NativeOverlayTimelineMarkerKind::Pin, opts.show_section_headers, pins));
        }
        assert(sections.len() == p.len());
        assert(forall|i: int| 0 <= i < sections.len() ==> section_shows(#[trigger] sections@[i], p[i], opts.show_section_headers));
        if marks.len() > 0 {
            sections.push(section(NativeOverlayTimelineMarkerKind::Bookmark, opts.show_section_headers, marks));
        }
        assert(sections.len() == (p + b).len());
        assert(forall|i: int| 0 <= i < sections.len() ==> section_shows(#[trigger] sections@[i], (p + b)[i], opts.show_section_headers));
        if opts.show_chapters && chapters.len() > 0 {
            sections.push(section(NativeOverlayTimelineMarkerKind::Chapter, opts.show_section_headers, chapters));
        }
        assert(secs =~= p + b + c);
    } else {
        proof {
            assert(entry_kinds(entries@) =~= Seq::<NativeOverlayTimelineMarkerKind>::empty());
            assert(secs =~= Seq::<(NativeOverlayTimelineMarkerKind, Seq<usize>)>::empty());
        }
    }
    NativeJumpPanelView { bulk_button, pin_button, bookmark_button, sections }
}

/// The order key of `e`'s time (0 when it has none).
pub open spec fn pts_of(e: NativeOverlayJumpEntry) -> int {
    match e.pts_key {
        Some(k) => k as int,
        None => 0,
    }
}

/// Whether `e` can be the marker now playing at the time with order key
/// `position_key`: a chapter or a bookmark at or before that time. Pins
/// mark frames, not sections, and never count; nor does anything when a
/// time is not a number.
pub open spec fn now_playing_candidate(e: NativeOverlayJumpEntry, position_key: Option<i64>) -> bool {
    &&& (e.kind == NativeOverlayTimelineMarkerKind::Chapter || e.kind == NativeOverlayTimelineMarkerKind::Bookmark)
    &&& e.pts_key is Some
    &&& position_key is Some
    &&& e.pts_key->0 <= position_key->0
}

/// Where in `s` the marker now playing is: the latest candidate, and of
/// equally late ones the one listed last.
pub open spec fn now_playing_index(s: Seq<NativeOverlayJumpEntry>, position_key: Option<i64>) -> Option<int>
    decreases s.len(),
{
    if s.len() == 0 {
        None
    } else {
        let p = now_playing_index(s.drop_last(), position_key);
        let i = s.len() - 1;
        if now_playing_candidate(s[i], position_key) && (p is None || pts_of(s[p->0]) <= pts_of(s[i])) {
            Some(i)
        } else {
            p
        }
    }
}

/// The chapter or bookmark now playing at the time with order key
/// `position_key`: of those at or before it, the latest, whatever its kind.
/// `None` when every marker lies ahead, when there are only pins, or when
/// there are no entries.
pub fn find_now_playing_marker(entries: &[NativeOverlayJumpEntry], position_key: Option<i64>) -> (r: Option<
    &NativeOverlayJumpEntry,
>)
    ensures
        r == match now_playing_index(entries@, position_key) {
            Some(i) => Some(&entries@[i]),
            None => None,
        },
{
    let mut best: Option<usize> = None;
    let mut i: usize = 0;
    while i < entries.len()
        invariant
            i <= entries.len(),
            match best {
                Some(b) => now_playing_index(entries@.take(i as int), position_key) == Some(b as int),
                None => now_playing_index(entries@.take(i as int), position_key) is None,
            },
        decreases entries.len() - i,
    {
        let ghost pre = entries@.take(i as int);
        let ghost now = entries@.take(i + 1);
        assert(now.drop_last() =~= pre);
        assert(now[i as int] == entries@[i as int]);
        proof {
            if let Some(b) = best {
                assert(now_playing_index(pre, position_key) == Some(b as int));
                lemma_now_playing_in_range(pre, position_key);
                lemma_now_playing_is_latest_candidate(pre, position_key);
                assert(pre[b as int] == entries@[b as int]);
            }
        }
        let e = &entries[i];
        let kind_ok = e.kind == NativeOverlayTimelineMarkerKind::Chapter || e.kind
            == NativeOverlayTimelineMarkerKind::Bookmark;
        let (candidate, here) = match (e.pts_key, position_key) {
            (Some(k), Some(p)) => (kind_ok && k <= p, k),
            _ => (false, 0),
        };
        if candidate {
            let later = match best {
                Some(b) => match entries[b].pts_key {
                    Some(kb) => kb <= here,
                    None => true,
                },
                None => true,
            };
            if later {
                best = Some(i);
            }
        }
        i += 1;
    }
    assert(entries@.take(entries.len() as int) =~= entries@);
    proof {
        lemma_now_playing_in_range(entries@, position_key);
    }
    match best {
        Some(b) => Some(&entries[b]),
        None => None,
    }
}

/// The index that `now_playing_index` gives lies within the entries.
proof fn lemma_now_playing_in_range(s: Seq<NativeOverlayJumpEntry>, position_key: Option<i64>)
    ensures
        now_playing_index(s, position_key) matches Some(i) ==> 0 <= i < s.len(),
    decreases s.len(),
{
    if s.len() > 0 {
        lemma_now_playing_in_range(s.drop_last(), position_key);
    }
}

/// The marker now playing is a chapter or bookmark at or before the
/// position, no candidate is later than it and none listed after it is as
/// late; there is none exactly when no entry is a candidate.
pub proof fn lemma_now_playing_is_latest_candidate(s: Seq<NativeOverlayJumpEntry>, position_key: Option<i64>)
    ensures
        now_playing_index(s, position_key) is None <==> forall|j: int|
            0 <= j < s.len() ==> !now_playing_candidate(#[trigger] s[j], position_key),
        now_playing_index(s, position_key) matches Some(i) ==> {
            &&& 0 <= i < s.len()
            &&& now_playing_candidate(s[i], position_key)
            &&& forall|j: int|
                0 <= j < s.len() && now_playing_candidate(#[trigger] s[j], position_key) ==> pts_of(s[j])
                    <= pts_of(s[i]) && (j > i ==> pts_of(s[j]) < pts_of(s[i]))
        },
    decreases s.len(),
{
    if s.len() > 0 {
        let p = s.drop_last();
        lemma_now_playing_is_latest_candidate(p, position_key);
        assert forall|j: int| 0 <= j < p.len() implies p[j] == s[j] by {}
    }
}

} // verus!
