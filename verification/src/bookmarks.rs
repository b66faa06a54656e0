use vstd::prelude::*;

use crate::color::{button_bg, draw_overlay_button_bg, OverlayColor};
use crate::commands::{commands_view, push_command, CommandModel, NativeOverlayCommand};
use crate::jump::NativeBookmarkTitleEdit;
use crate::text::{chars_of, concat2, concat3, decimal, decimal_chars, extend_chars, is_blank, join, lemma_join_push, string_from_chars, trim};

verus! {

/// Whether the title editor is still open, and the command of its buttons:
/// "保存" saves the typed title, "名称なし" clears it, "キャンセル" closes
/// without saving.
pub open spec fn title_editor_command(edit: Option<NativeBookmarkTitleEdit>, save: bool, clear: bool) -> Seq<CommandModel> {
    match edit {
        Some(e) => if save || clear {
            seq![CommandModel::SetBookmarkTitle { id: e.id, title: if clear { Seq::empty() } else { e.title@ } }]
        } else {
            Seq::empty()
        },
        None => Seq::empty(),
    }
}

/// The bookmark title editor for one frame, after its text field took the
/// typing. Returns whether it was shown. Saving, clearing or cancelling
/// closes it.
pub fn draw_native_bookmark_title_editor(
    edit: &mut Option<NativeBookmarkTitleEdit>,
    save_clicked: bool,
    clear_clicked: bool,
    cancel_clicked: bool,
    commands: &mut Vec<NativeOverlayCommand>,
) -> (shown: bool)
    ensures
        shown == (*old(edit) is Some),
        commands_view(final(commands)@) == commands_view(old(commands)@) + title_editor_command(
            *old(edit),
            save_clicked,
            clear_clicked,
        ),
        (*old(edit) is Some && (save_clicked || clear_clicked || cancel_clicked)) ==> *final(edit) is None,
        !(*old(edit) is Some && (save_clicked || clear_clicked || cancel_clicked)) ==> *final(edit) == *old(edit),
{
    if edit.is_none() {
        assert(commands_view(commands@) =~= commands_view(old(commands)@) + Seq::empty());
        return false;
    }
    if save_clicked || clear_clicked {
        let state = edit.take().unwrap();
        let title = if clear_clicked { String::new() } else { state.title };
        push_command(commands, NativeOverlayCommand::SetBookmarkTitle { id: state.id, title });
    } else {
        assert(commands_view(commands@) =~= commands_view(old(commands)@) + Seq::empty());
        if cancel_clicked {
            *edit = None;
        }
    }
    true
}

/// The bulk bookmark dialog's state.
#[derive(Clone, Debug)]
pub struct NativeBulkBookmarkDialog {
    /// The pasted lines.
    pub textarea: String,
    /// Text pasted with Ctrl+V that is still to be added.
    pub pending_paste: Option<String>,
    pub request_focus: bool,
    /// Whether "delete all" waits for confirmation.
    pub confirm_clear_all: bool,
    pub export_seconds_only: bool,
}

/// The text after a paste: the pasted text at the end, on a line of its own.
pub open spec fn with_paste(text: Seq<char>, paste: Seq<char>) -> Seq<char> {
    if text.len() > 0 && text.last() != '\n' {
        text.push('\n') + paste
    } else {
        text + paste
    }
}

/// A paste never changes what was there: the old text comes first, the
/// pasted text last, and a non-empty old text ends its last line before it.
pub proof fn lemma_paste_appends(text: Seq<char>, paste: Seq<char>)
    ensures
        with_paste(text, paste).len() >= text.len() + paste.len(),
        with_paste(text, paste).take(text.len() as int) == text,
        with_paste(text, paste).skip(with_paste(text, paste).len() - paste.len()) == paste,
        text.len() > 0 ==> with_paste(text, paste)[with_paste(text, paste).len() - paste.len() - 1] == '\n',
{
    let r = with_paste(text, paste);
    if text.len() > 0 && text.last() != '\n' {
        assert(r.take(text.len() as int) =~= text);
        assert(r.skip(r.len() - paste.len()) =~= paste);
    } else {
        assert(r.take(text.len() as int) =~= text);
        assert(r.skip(r.len() - paste.len()) =~= paste);
    }
}

/// Adds the text pasted with Ctrl+V to the end of the dialog's text, on a
/// new line, whether or not the text field has focus.
pub fn apply_bulk_bookmark_paste(dialog: &mut NativeBulkBookmarkDialog)
    ensures
        final(dialog).pending_paste is None,
        final(dialog).textarea@ == match old(dialog).pending_paste {
            Some(p) => with_paste(old(dialog).textarea@, p@),
            None => old(dialog).textarea@,
        },
        final(dialog).request_focus == old(dialog).request_focus,
        final(dialog).confirm_clear_all == old(dialog).confirm_clear_all,
        final(dialog).export_seconds_only == old(dialog).export_seconds_only,
{
    let pending = dialog.pending_paste.take();
    match pending {
        Some(text) => {
            let mut v = chars_of(dialog.textarea.as_str());
            if v.len() > 0 && v[v.len() - 1] != '\n' {
                v.push('\n');
            }
            let p = chars_of(text.as_str());
            extend_chars(&mut v, &p);
            dialog.textarea = string_from_chars(&v);
        },
        None => {},
    }
}

/// What the dialog read from its text: how many bookmarks, and the numbers
/// of the lines it could not read.
pub struct NativeBulkBookmarkParse {
    pub entry_count: usize,
    pub error_lines: Vec<usize>,
}

/// The numbers of the lines not read, the first eight, joined by ", ".
pub open spec fn error_line_list(lines: Seq<usize>) -> Seq<char> {
    let shown = if lines.len() > 8 { lines.take(8) } else { lines };
    join(shown.map_values(|n: usize| decimal(n as nat)), ", "@)
}

/// The preview under the text: waiting for a paste, or what was read.
pub open spec fn bulk_preview(text: Seq<char>, entries: nat, errors: Seq<usize>) -> Seq<char> {
    if trim(text).len() == 0 {
        "貼り付け待ち"@
    } else if errors.len() == 0 {
        "解釈成功: "@ + decimal(entries) + " 件"@
    } else {
        "解釈成功: "@ + decimal(entries) + " 件 / 解釈できなかった行: "@ + decimal(errors.len()) + " 件 (行番号: "@
            + error_line_list(errors) + ")"@
    }
}

/// What happened in the dialog in one frame.
#[derive(Clone, Copy, Debug)]
pub struct NativeBulkBookmarkEvents {
    /// "×" at the top.
    pub close_clicked: bool,
    pub register_clicked: bool,
    pub cancel_clicked: bool,
    pub export_clicked: bool,
    /// The "秒単位にする" checkbox was clicked.
    pub seconds_only_toggled: bool,
    /// "この…のブックマークをすべて削除".
    pub clear_all_clicked: bool,
    /// "削除を実行".
    pub confirm_clear_clicked: bool,
    /// "やめる".
    pub abort_clear_clicked: bool,
    /// Whether any widget has the keyboard focus.
    pub any_focus: bool,
}

/// What the dialog shows in one frame.
pub struct NativeBulkBookmarkView {
    pub close_bg: OverlayColor,
    /// Whether the text field takes the focus.
    pub focus_textarea: bool,
    pub preview: String,
    /// Green when every line was read, else amber.
    pub preview_color: OverlayColor,
    pub register_label: String,
    pub register_enabled: bool,
    pub export_tooltip: String,
    /// "この…のブックマークをすべて削除", shown unless the dialog asks to confirm.
    pub clear_all_label: String,
    /// Whether the dialog asks to confirm deleting everything.
    pub confirming: bool,
}

/// The commands of the dialog: an export, then deleting everything (when
/// the dialog was asking to confirm), or registering what was read.
pub open spec fn bulk_commands(
    ev: NativeBulkBookmarkEvents,
    confirming: bool,
    seconds_only: bool,
    entries: nat,
) -> Seq<CommandModel> {
    let export = if ev.export_clicked {
        seq![CommandModel::ExportBookmarksToClipboard { seconds_only }]
    } else {
        Seq::empty()
    };
    let fin = if confirming && ev.confirm_clear_clicked {
        seq![CommandModel::ClearAllBookmarksForCurrent]
    } else if entries > 0 && ev.register_clicked {
        seq![CommandModel::BulkAddBookmarks]
    } else {
        Seq::empty()
    };
    export + fin
}

fn error_list_text(lines: &Vec<usize>) -> (s: String)
    ensures
        s@ == error_line_list(lines@),
{
    let n: usize = if lines.len() > 8 { 8 } else { lines.len() };
    let ghost shown = if lines@.len() > 8 { lines@.take(8) } else { lines@ };
    let ghost parts = shown.map_values(|k: usize| decimal(k as nat));
    assert(shown.len() == n);
    let mut out: Vec<char> = Vec::new();
    let mut i: usize = 0;
    while i < n
        invariant
            i <= n <= lines.len(),
            shown.len() == n,
            forall|k: int| 0 <= k < n ==> shown[k] == lines@[k],
            parts == shown.map_values(|k: usize| decimal(k as nat)),
            out@ == join(parts.take(i as int), ", "@),
        decreases n - i,
    {
        proof {
            lemma_join_push(parts.take(i as int), ", "@, parts[i as int]);
            assert(parts.take(i + 1) =~= parts.take(i as int).push(parts[i as int]));
        }
        if i > 0 {
            let sep = chars_of(", ");
            extend_chars(&mut out, &sep);
        }
        let d = decimal_chars(lines[i] as u64);
        extend_chars(&mut out, &d);
        i += 1;
    }
    assert(parts.take(n as int) =~= parts);
    string_from_chars(&out)
}

fn bulk_preview_text(text: &String, parse: &NativeBulkBookmarkParse) -> (s: String)
    ensures
        s@ == bulk_preview(text@, parse.entry_count as nat, parse.error_lines@),
{
    if is_blank(text.as_str()) {
        "貼り付け待ち".to_owned()
    } else if parse.error_lines.len() == 0 {
        let n = string_from_chars(&decimal_chars(parse.entry_count as u64));
        concat3("解釈成功: ", n.as_str(), " 件")
    } else {
        let n = string_from_chars(&decimal_chars(parse.entry_count as u64));
        let e = string_from_chars(&decimal_chars(parse.error_lines.len() as u64));
        let list = error_list_text(&parse.error_lines);
        let a = concat3("解釈成功: ", n.as_str(), " 件 / 解釈できなかった行: ");
        let b = concat3(a.as_str(), e.as_str(), " 件 (行番号: ");
        concat3(b.as_str(), list.as_str(), ")")
    }
}

/// `v` is what the dialog in state `d` shows.
pub open spec fn bulk_view_shows(
    v: NativeBulkBookmarkView,
    subject_noun: Seq<char>,
    parse: NativeBulkBookmarkParse,
    d: NativeBulkBookmarkDialog,
    events: NativeBulkBookmarkEvents,
    close_hovered: bool,
) -> bool {
    let n = parse.entry_count as nat;
    &&& v.close_bg == button_bg(close_hovered, false)
    &&& v.focus_textarea == (d.request_focus || (!d.confirm_clear_all && !events.any_focus))
    &&& v.preview@ == bulk_preview(d.textarea@, n, parse.error_lines@)
    &&& v.preview_color == (if parse.error_lines.len() == 0 {
        OverlayColor::Rgb(170, 220, 170)
    } else {
        OverlayColor::Rgb(240, 200, 130)
    })
    &&& v.register_label@ == "登録 ("@ + decimal(n) + " 件)"@
    &&& v.register_enabled == (n > 0)
    &&& v.export_tooltip@ == "現在の"@ + subject_noun
        + "に登録されているブックマークを「mm:ss タイトル」\n形式の行ごとにクリップボードへコピーします。"@
    &&& v.clear_all_label@ == "この"@ + subject_noun + "のブックマークをすべて削除"@
    &&& v.confirming == d.confirm_clear_all
}

fn bulk_dialog_view(
    subject_noun: &str,
    parse: &NativeBulkBookmarkParse,
    d: &NativeBulkBookmarkDialog,
    events: NativeBulkBookmarkEvents,
    close_hovered: bool,
) -> (v: NativeBulkBookmarkView)
    ensures
        bulk_view_shows(v, subject_noun@, *parse, *d, events, close_hovered),
{
    let count = string_from_chars(&decimal_chars(parse.entry_count as u64));
    NativeBulkBookmarkView {
        close_bg: draw_overlay_button_bg(close_hovered, false),
        focus_textarea: d.request_focus || (!d.confirm_clear_all && !events.any_focus),
        preview: bulk_preview_text(&d.textarea, parse),
        preview_color: if parse.error_lines.len() == 0 {
            OverlayColor::Rgb(170, 220, 170)
        } else {
            OverlayColor::Rgb(240, 200, 130)
        },
        register_label: concat3("登録 (", count.as_str(), " 件)"),
        register_enabled: parse.entry_count > 0,
        export_tooltip: concat3(
            "現在の",
            subject_noun,
            "に登録されているブックマークを「mm:ss タイトル」\n形式の行ごとにクリップボードへコピーします。",
        ),
        clear_all_label: concat3("この", subject_noun, "のブックマークをすべて削除"),
        confirming: d.confirm_clear_all,
    }
}

/// The dialog closes: confirmed deletion, registering something, "キャンセル" or "×".
pub open spec fn bulk_dialog_closes(ev: NativeBulkBookmarkEvents, confirming: bool, entries: nat) -> bool {
    (confirming && ev.confirm_clear_clicked) || (entries > 0 && ev.register_clicked) || ev.cancel_clicked
        || ev.close_clicked
}

/// The bulk bookmark dialog for one frame, once a paste was added
/// (`apply_bulk_bookmark_paste`) and its text read (`parse`). `subject_noun`
/// names what the bookmarks belong to ("動画" or "音声"). Exporting keeps the
/// dialog open; confirmed deletion, registering (when something was read),
/// "キャンセル" and "×" close it, the first two with their command. Returns
/// `None` when the dialog is not open.
pub fn draw_native_bulk_bookmark_dialog(
    subject_noun: &str,
    parse: &NativeBulkBookmarkParse,
    events: NativeBulkBookmarkEvents,
    close_hovered: bool,
    dialog: &mut Option<NativeBulkBookmarkDialog>,
    commands: &mut Vec<NativeOverlayCommand>,
) -> (view: Option<NativeBulkBookmarkView>)
    ensures
        *old(dialog) is None ==> view is None && *final(dialog) is None && commands_view(final(commands)@)
            == commands_view(old(commands)@),
        *old(dialog) matches Some(d) ==> {
            let seconds_only = d.export_seconds_only != events.seconds_only_toggled;
            let n = parse.entry_count as nat;
            &&& (view matches Some(v) && bulk_view_shows(v, subject_noun@, *parse, d, events, close_hovered))
            &&& commands_view(final(commands)@) == commands_view(old(commands)@) + bulk_commands(
                events,
                d.confirm_clear_all,
                seconds_only,
                n,
            )
            &&& bulk_dialog_closes(events, d.confirm_clear_all, n) ==> *final(dialog) is None
            &&& !bulk_dialog_closes(events, d.confirm_clear_all, n) ==> (*final(dialog) matches Some(e) && {
                &&& e.textarea@ == d.textarea@
                &&& e.pending_paste == d.pending_paste
                &&& !e.request_focus
                &&& e.export_seconds_only == seconds_only
                &&& e.confirm_clear_all == (if d.confirm_clear_all {
                    !events.abort_clear_clicked
                } else {
                    events.clear_all_clicked
                })
            })
        },
{
    let mut state = match dialog.take() {
        Some(d) => d,
        None => {
            assert(commands_view(commands@) =~= commands_view(old(commands)@));
            return None;
        },
    };
    let view = bulk_dialog_view(subject_noun, parse, &state, events, close_hovered);
    state.request_focus = false;
    let was_confirming = state.confirm_clear_all;
    let register = parse.entry_count > 0 && events.register_clicked;
    let cancel = events.cancel_clicked || events.close_clicked;
    if events.seconds_only_toggled {
        state.export_seconds_only = !state.export_seconds_only;
    }
    let confirm_clear_now = was_confirming && events.confirm_clear_clicked;
    if was_confirming {
        if events.abort_clear_clicked {
            state.confirm_clear_all = false;
        }
    } else if events.clear_all_clicked {
        state.confirm_clear_all = true;
    }
    let ghost start = commands_view(commands@);
    if events.export_clicked {
        push_command(commands, NativeOverlayCommand::ExportBookmarksToClipboard { seconds_only: state.export_seconds_only });
    }
    if confirm_clear_now {
        push_command(commands, NativeOverlayCommand::ClearAllBookmarksForCurrent);
    } else if register {
        push_command(commands, NativeOverlayCommand::BulkAddBookmarks);
    } else if !cancel {
        *dialog = Some(state);
    }
    proof {
        assert(commands_view(commands@) =~= start + bulk_commands(
            events,
            was_confirming,
            state.export_seconds_only,
            parse.entry_count as nat,
        ));
    }
    Some(view)
}

} // verus!
