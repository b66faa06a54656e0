use vstd::prelude::*;

use crate::color::OverlayColor;
use crate::commands::{commands_view, push_command, CommandModel, NativeOverlayCommand};
use crate::picker::{native_picker_choices, native_tag_input_valid, picker_choices, tag_input_valid};
use crate::tags::{
    current_keys, defs_view, native_tag_is_on, native_visible_tag_choices, visible_tag_choices,
    NativeOverlayTagDef, NativeOverlayTagMetadata, TagDefModel,
};
use crate::text::{chars_of, concat2, concat3, decimal, decimal_chars, has_whitespace, has_ws, string_from_chars};

verus! {

/// Text, fill and outline colours of a tag button.
pub open spec fn tag_button_visuals(is_on: bool) -> (OverlayColor, OverlayColor, OverlayColor) {
    if is_on {
        (
            OverlayColor::Rgb(236, 255, 238),
            OverlayColor::RgbaUnmultiplied(26, 108, 62, 246),
            OverlayColor::Rgb(132, 236, 156),
        )
    } else {
        (
            OverlayColor::Rgb(248, 250, 255),
            OverlayColor::RgbaUnmultiplied(35, 38, 50, 246),
            OverlayColor::Rgb(132, 146, 174),
        )
    }
}

/// The colours of a tag button: green while the item carries the tag.
pub fn native_tag_button_visuals(is_on: bool) -> (r: (OverlayColor, OverlayColor, OverlayColor))
    ensures
        r == tag_button_visuals(is_on),
{
    if is_on {
        (
            OverlayColor::Rgb(236, 255, 238),
            OverlayColor::RgbaUnmultiplied(26, 108, 62, 246),
            OverlayColor::Rgb(132, 236, 156),
        )
    } else {
        (
            OverlayColor::Rgb(248, 250, 255),
            OverlayColor::RgbaUnmultiplied(35, 38, 50, 246),
            OverlayColor::Rgb(132, 146, 174),
        )
    }
}

/// Closes the tag picker: not open, no text, no focus request, pinned tab.
pub fn close_native_tag_picker(
    tag_picker_open: &mut bool,
    tag_picker_input: &mut String,
    tag_picker_focus_request: &mut bool,
    tag_picker_recent_tab: &mut bool,
)
    ensures
        !*final(tag_picker_open),
        final(tag_picker_input)@ == Seq::<char>::empty(),
        !*final(tag_picker_focus_request),
        !*final(tag_picker_recent_tab),
{
    *tag_picker_open = false;
    *tag_picker_input = String::new();
    *tag_picker_focus_request = false;
    *tag_picker_recent_tab = false;
}

/// The tab shown after the picker's tabs were clicked: the recent tab when
/// it was clicked, else the pinned tab when that was clicked, else unchanged.
pub open spec fn tab_after_clicks(recent_tab: bool, pinned_clicked: bool, recent_clicked: bool) -> bool {
    if recent_clicked {
        true
    } else if pinned_clicked {
        false
    } else {
        recent_tab
    }
}

/// Applies clicks on the picker's tabs ("ピン留め", then "最近"). Returns
/// whether each tab was drawn selected: the pinned tab before its click took
/// effect, the recent tab after it.
pub fn draw_native_tag_picker_tabs(
    recent_tab: &mut bool,
    pinned_clicked: bool,
    recent_clicked: bool,
) -> (selected: (bool, bool))
    ensures
        *final(recent_tab) == tab_after_clicks(*old(recent_tab), pinned_clicked, recent_clicked),
        selected.0 == !*old(recent_tab),
        selected.1 == (if pinned_clicked { false } else { *old(recent_tab) }),
{
    let pinned_selected = !*recent_tab;
    if pinned_clicked {
        *recent_tab = false;
    }
    let recent_selected = *recent_tab;
    if recent_clicked {
        *recent_tab = true;
    }
    (pinned_selected, recent_selected)
}

/// A tag button of the info panel.
pub struct NativeTagButton {
    /// `#` and the tag's name.
    pub label: String,
    /// What a click does.
    pub tooltip: String,
    /// Whether the item carries the tag.
    pub is_on: bool,
    pub text_color: OverlayColor,
    pub fill_color: OverlayColor,
    pub stroke_color: OverlayColor,
}

/// What the info panel's tag row shows.
pub struct NativeTagPanelView {
    /// "×" while the picker is open, else "＋".
    pub plus_label: String,
    pub plus_tooltip: String,
    /// One button per visible tag; none means "（タグなし）" is shown.
    pub buttons: Vec<NativeTagButton>,
}

/// The label of the button for the tag named `name`.
pub open spec fn hash_label(name: Seq<char>) -> Seq<char> {
    "#"@ + name
}

/// The tooltip of a tag button.
pub open spec fn tag_button_tooltip(name: Seq<char>, is_on: bool) -> Seq<char> {
    if is_on {
        "クリックで `"@ + hash_label(name) + "` を削除"@
    } else {
        "クリックで `"@ + hash_label(name) + "` を付与"@
    }
}

/// `b` shows the definition `d` for an item carrying the keys `keys`.
pub open spec fn tag_button_shows(b: NativeTagButton, d: TagDefModel, keys: Seq<Seq<char>>) -> bool {
    let on = keys.contains(d.tag_key);
    &&& b.label@ == hash_label(d.name)
    &&& b.is_on == on
    &&& b.tooltip@ == tag_button_tooltip(d.name, on)
    &&& (b.text_color, b.fill_color, b.stroke_color) == tag_button_visuals(on)
}

/// The commands for clicks on the tag buttons `v`: for each button in order,
/// "このタグで探す" from its menu, then a toggle when it was clicked.
pub open spec fn tag_click_commands(
    v: Seq<TagDefModel>,
    tag_clicked: Option<usize>,
    search_clicked: Option<usize>,
) -> Seq<CommandModel>
    decreases v.len(),
{
    if v.len() == 0 {
        Seq::empty()
    } else {
        let i = v.len() - 1;
        let p = tag_click_commands(v.drop_last(), tag_clicked, search_clicked);
        let p1 = if search_clicked == Some(i as usize) {
            p.push(CommandModel::OpenTagViewForTag { name: v[i].name })
        } else {
            p
        };
        if tag_clicked == Some(i as usize) {
            p1.push(CommandModel::ToggleTag { name: v[i].name })
        } else {
            p1
        }
    }
}

/// The tag picker's state: whether it is open, the typed text, whether the
/// text field asks for focus, and whether the recent tab is shown.
pub struct PickerStateModel {
    pub open: bool,
    pub input: Seq<char>,
    pub focus_request: bool,
    pub recent_tab: bool,
}

/// The picker's state made of its four parts.
pub open spec fn picker_state(open: bool, input: Seq<char>, focus_request: bool, recent_tab: bool) -> PickerStateModel {
    PickerStateModel { open, input, focus_request, recent_tab }
}

/// The picker once closed.
pub open spec fn closed_picker() -> PickerStateModel {
    picker_state(false, Seq::empty(), false, false)
}

/// The picker after the tag row's "＋"/"×" button: opened empty and
/// focused on the pinned tab, or closed.
pub open spec fn tag_panel_next(before: PickerStateModel, plus_clicked: bool) -> PickerStateModel {
    if plus_clicked {
        picker_state(!before.open, Seq::empty(), !before.open, false)
    } else {
        before
    }
}

/// `view` is the tag row for the item `m` with sticky tags `sticky`, drawn
/// while the picker was open or not (`was_open`).
pub open spec fn tag_panel_shows(
    view: NativeTagPanelView,
    m: NativeOverlayTagMetadata,
    sticky: Seq<TagDefModel>,
    was_open: bool,
) -> bool {
    let v = visible_tag_choices(m, sticky);
    &&& view.plus_label@ == (if was_open { "×"@ } else { "＋"@ })
    &&& view.plus_tooltip@ == (if was_open {
        "タグ入力を閉じる"@
    } else {
        "タグを検索/入力して付ける"@
    })
    &&& view.buttons.len() == v.len()
    &&& forall|i: int|
        0 <= i < view.buttons.len() ==> tag_button_shows(
            #[trigger] view.buttons@[i],
            v[i],
            current_keys(m.current_tags@),
        )
}

/// The tag row of the info panel for one frame. `plus_clicked` is a click on
/// the "＋"/"×" button, which opens the picker empty and focused on the
/// pinned tab, or closes it; `tag_clicked` and `search_clicked` are the
/// button (of the returned list) clicked, and the one whose menu entry
/// "このタグで探す" was chosen.
pub fn draw_native_tag_panel(
    metadata: &NativeOverlayTagMetadata,
    sticky_tags: &[NativeOverlayTagDef],
    plus_clicked: bool,
    tag_clicked: Option<usize>,
    search_clicked: Option<usize>,
    tag_picker_open: &mut bool,
    tag_picker_input: &mut String,
    tag_picker_focus_request: &mut bool,
    tag_picker_recent_tab: &mut bool,
    commands: &mut Vec<NativeOverlayCommand>,
) -> (view: NativeTagPanelView)
    ensures
        picker_state(
            *final(tag_picker_open),
            final(tag_picker_input)@,
            *final(tag_picker_focus_request),
            *final(tag_picker_recent_tab),
        ) == tag_panel_next(
            picker_state(
                *old(tag_picker_open),
                old(tag_picker_input)@,
                *old(tag_picker_focus_request),
                *old(tag_picker_recent_tab),
            ),
            plus_clicked,
        ),
        tag_panel_shows(view, *metadata, defs_view(sticky_tags@), *old(tag_picker_open)),
        commands_view(final(commands)@) == commands_view(old(commands)@) + tag_click_commands(
            visible_tag_choices(*metadata, defs_view(sticky_tags@)),
            tag_clicked,
            search_clicked,
        ),
{
    let visible = native_visible_tag_choices(metadata, sticky_tags);
    let ghost vv = defs_view(visible@);
    let was_open = *tag_picker_open;
    let plus_label = if was_open { "×".to_owned() } else { "＋".to_owned() };
    let plus_tooltip = if was_open {
        "タグ入力を閉じる".to_owned()
    } else {
        "タグを検索/入力して付ける".to_owned()
    };
    if plus_clicked {
        *tag_picker_open = !*tag_picker_open;
        *tag_picker_input = String::new();
        *tag_picker_focus_request = *tag_picker_open;
        *tag_picker_recent_tab = false;
    }
    let ghost keys = current_keys(metadata.current_tags@);
    let ghost start = commands_view(commands@);
    let mut buttons: Vec<NativeTagButton> = Vec::new();
    let mut i: usize = 0;
    while i < visible.len()
        invariant
            i <= visible.len(),
            vv == defs_view(visible@),
            keys == current_keys(metadata.current_tags@),
            buttons.len() == i,
            forall|k: int| 0 <= k < i ==> tag_button_shows(#[trigger] buttons@[k], vv[k], keys),
            commands_view(commands@) == start + tag_click_commands(
                vv.take(i as int),
                tag_clicked,
                search_clicked,
            ),
        decreases visible.len() - i,
    {
        let def = &visible[i];
        assert(vv[i as int] == def@);
        let label = concat2("#", def.name.as_str());
        let is_on = native_tag_is_on(&metadata.current_tags, &def.tag_key);
        let tooltip = if is_on {
            concat3("クリックで `", label.as_str(), "` を削除")
        } else {
            concat3("クリックで `", label.as_str(), "` を付与")
        };
        let (text_color, fill_color, stroke_color) = native_tag_button_visuals(is_on);
        assert(vv.take(i + 1).drop_last() =~= vv.take(i as int));
        assert(vv.take(i + 1)[i as int] == def@);
        if search_clicked == Some(i) {
            push_command(commands, NativeOverlayCommand::OpenTagViewForTag { name: def.name.clone() });
        }
        if tag_clicked == Some(i) {
            push_command(commands, NativeOverlayCommand::ToggleTag { name: def.name.clone() });
        }
        buttons.push(NativeTagButton { label, tooltip, is_on, text_color, fill_color, stroke_color });
        i += 1;
    }
    assert(vv.take(i as int) =~= vv);
    NativeTagPanelView { plus_label, plus_tooltip, buttons }
}

/// Why a typed tag name cannot be added, as the picker warns.
#[derive(Clone, Copy, Debug, PartialEq, Eq, Structural)]
pub enum TagInputProblem {
    /// "タグ名は64文字以内です。"
    TooLong,
    /// "タグ名に空白は使えません。"
    Whitespace,
}

/// The warning for the typed name `name`: too long first, then whitespace.
pub open spec fn tag_input_problem(name: Seq<char>) -> Option<TagInputProblem> {
    if name.len() > 64 {
        Some(TagInputProblem::TooLong)
    } else if has_ws(name) {
        Some(TagInputProblem::Whitespace)
    } else {
        None
    }
}

/// A name can be added exactly when it is not empty and draws no warning.
pub proof fn lemma_valid_iff_no_warning(name: Seq<char>)
    ensures
        tag_input_valid(name) <==> (name.len() > 0 && tag_input_problem(name) is None),
{
}

impl TagInputProblem {
    /// The warning's text.
    pub fn message(&self) -> (s: String)
        ensures
            s@ == (match *self {
                TagInputProblem::TooLong => "タグ名は64文字以内です。"@,
                TagInputProblem::Whitespace => "タグ名に空白は使えません。"@,
            }),
    {
        match self {
            TagInputProblem::TooLong => "タグ名は64文字以内です。".to_owned(),
            TagInputProblem::Whitespace => "タグ名に空白は使えません。".to_owned(),
        }
    }
}

/// One row of the picker's list.
pub struct NativeTagPickerRow {
    /// `#` and the tag's name.
    pub label: String,
    /// How many items carry it ("N件"), else "ピン" for a pinned tag, else nothing.
    pub meta: String,
    /// Whether the item carries the tag.
    pub is_on: bool,
    /// "外す" when the item carries the tag, else "付ける".
    pub button_label: String,
}

/// The count text of a picker row.
pub open spec fn picker_row_meta(d: TagDefModel) -> Seq<char> {
    if d.count > 0 {
        decimal(d.count as nat) + "件"@
    } else if d.pinned {
        "ピン"@
    } else {
        Seq::empty()
    }
}

/// `r` shows the definition `d` for an item carrying the keys `keys`.
pub open spec fn picker_row_shows(r: NativeTagPickerRow, d: TagDefModel, keys: Seq<Seq<char>>) -> bool {
    let on = keys.contains(d.tag_key);
    &&& r.label@ == hash_label(d.name)
    &&& r.meta@ == picker_row_meta(d)
    &&& r.is_on == on
    &&& r.button_label@ == (if on { "外す"@ } else { "付ける"@ })
}

/// The picker's rows: at most the first twelve choices.
pub open spec fn picker_rows(m: NativeOverlayTagMetadata, query: Seq<char>, recent: bool) -> Seq<
    TagDefModel,
> {
    let c = picker_choices(m, query, recent);
    if c.len() > 12 {
        c.take(12)
    } else {
        c
    }
}

/// The picker never lists more than twelve rows.
pub proof fn lemma_picker_rows_at_most_twelve(m: NativeOverlayTagMetadata, query: Seq<char>, recent: bool)
    ensures
        picker_rows(m, query, recent).len() <= 12,
{
}

/// What the tag picker shows in one frame.
pub struct NativeTagPickerView {
    /// Whether "付ける" next to the text field can be clicked.
    pub add_enabled: bool,
    /// The warning under the text field, if any.
    pub problem: Option<TagInputProblem>,
    /// Whether each tab is drawn selected (pinned, recent).
    pub tabs_selected: (bool, bool),
    /// The rows; none means "候補なし" is shown.
    pub rows: Vec<NativeTagPickerRow>,
}

/// The command for a click on the button of a picker row.
pub open spec fn picker_row_command(d: TagDefModel, keys: Seq<Seq<char>>) -> CommandModel {
    if keys.contains(d.tag_key) {
        CommandModel::RemoveTag { name: d.name }
    } else {
        CommandModel::AddTag { name: d.name }
    }
}

fn picker_row(metadata: &NativeOverlayTagMetadata, d: &NativeOverlayTagDef) -> (r: NativeTagPickerRow)
    ensures
        picker_row_shows(r, d@, current_keys(metadata.current_tags@)),
{
    let label = concat2("#", d.name.as_str());
    let meta = if d.count > 0 {
        let digits = decimal_chars(d.count);
        let n = string_from_chars(&digits);
        concat2(n.as_str(), "件")
    } else if d.pinned {
        "ピン".to_owned()
    } else {
        String::new()
    };
    let is_on = native_tag_is_on(&metadata.current_tags, &d.tag_key);
    let button_label = if is_on { "外す".to_owned() } else { "付ける".to_owned() };
    NativeTagPickerRow { label, meta, is_on, button_label }
}

/// The tag picker for one frame. `normalized` is the typed text, trimmed
/// and normalized as a tag name, and `query_key` its tag key. A valid name is
/// added when "付ける" was clicked or Enter was pressed in the focused field;
/// the field is then emptied and focused again, so the rest of the frame
/// goes on with an empty name and query. `row_clicked` is the row (of the
/// returned list) whose button was clicked: it takes the tag off the item
/// or puts it on. Either way the picker is to close after the frame.
pub fn draw_native_tag_picker(
    metadata: &NativeOverlayTagMetadata,
    normalized: &String,
    query_key: &String,
    add_clicked: bool,
    input_has_focus: bool,
    enter_pressed: bool,
    pinned_tab_clicked: bool,
    recent_tab_clicked: bool,
    row_clicked: Option<usize>,
    input: &mut String,
    focus_request: &mut bool,
    recent_tab: &mut bool,
    commands: &mut Vec<NativeOverlayCommand>,
    close_after_apply: &mut bool,
) -> (view: NativeTagPickerView)
    ensures
        ({
            let submitted = tag_input_valid(normalized@) && (add_clicked || (input_has_focus
                && enter_pressed));
            let name = if submitted { Seq::<char>::empty() } else { normalized@ };
            let query = if submitted { Seq::<char>::empty() } else { query_key@ };
            let tab = tab_after_clicks(*old(recent_tab), pinned_tab_clicked, recent_tab_clicked);
            let rows = picker_rows(*metadata, query, tab);
            let keys = current_keys(metadata.current_tags@);
            let row_cmd = match row_clicked {
                Some(i) if i < rows.len() => seq![picker_row_command(rows[i as int], keys)],
                _ => Seq::empty(),
            };
            let add_cmd = if submitted {
                seq![CommandModel::AddTag { name: normalized@ }]
            } else {
                Seq::empty()
            };
            &&& view.add_enabled == tag_input_valid(normalized@)
            &&& submitted ==> final(input)@ == Seq::<char>::empty() && *final(focus_request)
            &&& !submitted ==> final(input)@ == old(input)@ && *final(focus_request) == *old(
                focus_request,
            )
            &&& view.problem == tag_input_problem(name)
            &&& *final(recent_tab) == tab
            &&& view.tabs_selected == (!*old(recent_tab), if pinned_tab_clicked {
                false
            } else {
                *old(recent_tab)
            })
            &&& view.rows.len() == rows.len()
            &&& forall|i: int|
                0 <= i < rows.len() ==> picker_row_shows(#[trigger] view.rows@[i], rows[i], keys)
            &&& commands_view(final(commands)@) == commands_view(old(commands)@) + add_cmd + row_cmd
            &&& *final(close_after_apply) == (*old(close_after_apply) || submitted || row_cmd.len()
                > 0)
        }),
{
    let ghost start = commands_view(commands@);
    let valid = native_tag_input_valid(normalized.as_str());
    let submitted = valid && (add_clicked || (input_has_focus && enter_pressed));
    if submitted {
        push_command(commands, NativeOverlayCommand::AddTag { name: normalized.clone() });
        *input = String::new();
        *focus_request = true;
        *close_after_apply = true;
    }
    let name = if submitted { String::new() } else { normalized.clone() };
    let query = if submitted { String::new() } else { query_key.clone() };
    let name_chars = chars_of(name.as_str());
    let problem = if name_chars.len() > 64 {
        Some(TagInputProblem::TooLong)
    } else if has_whitespace(&name_chars) {
        Some(TagInputProblem::Whitespace)
    } else {
        None
    };
    let tabs_selected = draw_native_tag_picker_tabs(recent_tab, pinned_tab_clicked, recent_tab_clicked);
    let choices = native_picker_choices(metadata, &query, *recent_tab);
    let ghost cv = defs_view(choices@);
    let ghost rows_spec = picker_rows(*metadata, query@, *recent_tab);
    let n: usize = if choices.len() > 12 { 12 } else { choices.len() };
    assert(rows_spec =~= cv.take(n as int));
    let ghost keys = current_keys(metadata.current_tags@);
    let mut rows: Vec<NativeTagPickerRow> = Vec::new();
    let mut i: usize = 0;
    while i < n
        invariant
            i <= n <= choices.len(),
            cv == defs_view(choices@),
            keys == current_keys(metadata.current_tags@),
            rows.len() == i,
            forall|k: int| 0 <= k < i ==> picker_row_shows(#[trigger] rows@[k], cv[k], keys),
        decreases n - i,
    {
        let r = picker_row(metadata, &choices[i]);
        rows.push(r);
        i += 1;
    }
    let ghost mid = commands_view(commands@);
    match row_clicked {
        Some(k) => {
            if k < n {
                let d = &choices[k];
                assert(cv[k as int] == d@);
                if native_tag_is_on(&metadata.current_tags, &d.tag_key) {
                    push_command(commands, NativeOverlayCommand::RemoveTag { name: d.name.clone() });
                } else {
                    push_command(commands, NativeOverlayCommand::AddTag { name: d.name.clone() });
                }
                *close_after_apply = true;
            }
        },
        None => {},
    }
    NativeTagPickerView { add_enabled: valid, problem, tabs_selected, rows }
}

/// What happened in the picker panel in one frame. `normalized` is the text
/// field's content (as it stands after "戻る"), trimmed and normalized as a
/// tag name, and `query_key` its tag key; the clicks are on "戻る", on
/// "付ける" beside the field, on the two tabs and on a row's button.
#[derive(Clone, Debug)]
pub struct NativeTagPickerEvents {
    pub normalized: String,
    pub query_key: String,
    pub back_clicked: bool,
    pub add_clicked: bool,
    pub input_has_focus: bool,
    pub enter_pressed: bool,
    pub pinned_tab_clicked: bool,
    pub recent_tab_clicked: bool,
    pub row_clicked: Option<usize>,
}

/// The typed name is added this frame.
pub open spec fn picker_submitted(ev: NativeTagPickerEvents) -> bool {
    tag_input_valid(ev.normalized@) && (ev.add_clicked || (ev.input_has_focus && ev.enter_pressed))
}

/// The tab shown once "戻る" and the tabs have been handled.
pub open spec fn picker_tab(ev: NativeTagPickerEvents, before: PickerStateModel) -> bool {
    tab_after_clicks(
        if ev.back_clicked { false } else { before.recent_tab },
        ev.pinned_tab_clicked,
        ev.recent_tab_clicked,
    )
}

/// The rows the picker panel lists: for an added name, the empty query.
pub open spec fn picker_panel_rows(m: NativeOverlayTagMetadata, ev: NativeTagPickerEvents, before: PickerStateModel) -> Seq<
    TagDefModel,
> {
    picker_rows(m, if picker_submitted(ev) { Seq::empty() } else { ev.query_key@ }, picker_tab(ev, before))
}

/// The command of a click on a row's button, if the row is listed.
pub open spec fn picker_row_commands(
    m: NativeOverlayTagMetadata,
    ev: NativeTagPickerEvents,
    before: PickerStateModel,
) -> Seq<CommandModel> {
    let rows = picker_panel_rows(m, ev, before);
    match ev.row_clicked {
        Some(i) if i < rows.len() => seq![picker_row_command(rows[i as int], current_keys(m.current_tags@))],
        _ => Seq::empty(),
    }
}

/// The commands of the picker panel: adding the typed name, then the row's.
pub open spec fn picker_panel_commands(
    m: NativeOverlayTagMetadata,
    ev: NativeTagPickerEvents,
    before: PickerStateModel,
) -> Seq<CommandModel> {
    let add = if picker_submitted(ev) {
        seq![CommandModel::AddTag { name: ev.normalized@ }]
    } else {
        Seq::empty()
    };
    add + picker_row_commands(m, ev, before)
}

/// The picker's state after the panel: closed once a tag was added or
/// removed; else closed by "戻る", or with the tabs' choice.
pub open spec fn picker_panel_next(
    m: NativeOverlayTagMetadata,
    ev: NativeTagPickerEvents,
    before: PickerStateModel,
) -> PickerStateModel {
    if picker_submitted(ev) || picker_row_commands(m, ev, before).len() > 0 {
        closed_picker()
    } else if ev.back_clicked {
        picker_state(false, Seq::empty(), false, picker_tab(ev, before))
    } else {
        picker_state(before.open, before.input, before.focus_request, picker_tab(ev, before))
    }
}

/// `view` is what the picker panel shows.
pub open spec fn picker_view_shows(
    view: NativeTagPickerView,
    m: NativeOverlayTagMetadata,
    ev: NativeTagPickerEvents,
    before: PickerStateModel,
) -> bool {
    let rows = picker_panel_rows(m, ev, before);
    let tab0 = if ev.back_clicked { false } else { before.recent_tab };
    &&& view.add_enabled == tag_input_valid(ev.normalized@)
    &&& view.problem == tag_input_problem(if picker_submitted(ev) { Seq::<char>::empty() } else { ev.normalized@ })
    &&& view.tabs_selected == (!tab0, if ev.pinned_tab_clicked { false } else { tab0 })
    &&& view.rows.len() == rows.len()
    &&& forall|i: int|
        0 <= i < rows.len() ==> picker_row_shows(#[trigger] view.rows@[i], rows[i], current_keys(m.current_tags@))
}

/// The picker panel for one frame: "戻る" closes the picker before the
/// picker itself is handled, and the picker closes again after adding or
/// removing a tag.
pub fn draw_native_tag_picker_panel(
    metadata: &NativeOverlayTagMetadata,
    events: &NativeTagPickerEvents,
    tag_picker_open: &mut bool,
    tag_picker_input: &mut String,
    tag_picker_focus_request: &mut bool,
    tag_picker_recent_tab: &mut bool,
    commands: &mut Vec<NativeOverlayCommand>,
) -> (view: NativeTagPickerView)
    ensures
        ({
            let before = picker_state(
                *old(tag_picker_open),
                old(tag_picker_input)@,
                *old(tag_picker_focus_request),
                *old(tag_picker_recent_tab),
            );
            &&& picker_state(
                *final(tag_picker_open),
                final(tag_picker_input)@,
                *final(tag_picker_focus_request),
                *final(tag_picker_recent_tab),
            ) == picker_panel_next(*metadata, *events, before)
            &&& picker_view_shows(view, *metadata, *events, before)
            &&& commands_view(final(commands)@) == commands_view(old(commands)@) + picker_panel_commands(
                *metadata,
                *events,
                before,
            )
        }),
{
    if events.back_clicked {
        close_native_tag_picker(
            tag_picker_open,
            tag_picker_input,
            tag_picker_focus_request,
            tag_picker_recent_tab,
        );
    }
    let mut close_after_apply = false;
    let view = draw_native_tag_picker(
        metadata,
        &events.normalized,
        &events.query_key,
        events.add_clicked,
        events.input_has_focus,
        events.enter_pressed,
        events.pinned_tab_clicked,
        events.recent_tab_clicked,
        events.row_clicked,
        tag_picker_input,
        tag_picker_focus_request,
        tag_picker_recent_tab,
        commands,
        &mut close_after_apply,
    );
    if close_after_apply {
        close_native_tag_picker(
            tag_picker_open,
            tag_picker_input,
            tag_picker_focus_request,
            tag_picker_recent_tab,
        );
    }
    view
}

} // verus!
