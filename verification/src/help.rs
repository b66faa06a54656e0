use vstd::prelude::*;

use crate::color::{button_bg, draw_overlay_button_bg, OverlayColor};

verus! {

/// A line of the shortcut list: the keys and what they do.
#[derive(Clone, Debug)]
pub struct NativeShortcutHelpRow {
    pub keys: String,
    pub description: String,
}

/// A titled group of shortcut lines.
#[derive(Clone, Debug)]
pub struct NativeShortcutHelpSection {
    pub title: String,
    pub rows: Vec<NativeShortcutHelpRow>,
}

/// Everything the shortcut list can show.
#[derive(Clone, Debug)]
pub struct NativeOverlayShortcutHelp {
    pub sections: Vec<NativeShortcutHelpSection>,
    /// Lines that only apply while the video is zoomed.
    pub video_zoom_rows: Vec<NativeShortcutHelpRow>,
    /// Touch gestures.
    pub touch_rows: Vec<NativeShortcutHelpRow>,
    /// Keys that cannot be reassigned.
    pub fixed_rows: Vec<NativeShortcutHelpRow>,
}

/// A group as shown: its title and its lines (keys, description).
pub type HelpGroupModel = (Seq<char>, Seq<(Seq<char>, Seq<char>)>);

/// The plain values of a list of lines.
pub open spec fn help_rows_view(rows: Seq<NativeShortcutHelpRow>) -> Seq<(Seq<char>, Seq<char>)> {
    rows.map_values(|r: NativeShortcutHelpRow| (r.keys@, r.description@))
}

/// The sections that have lines, in order.
pub open spec fn nonempty_sections(s: Seq<NativeShortcutHelpSection>) -> Seq<HelpGroupModel>
    decreases s.len(),
{
    if s.len() == 0 {
        Seq::empty()
    } else {
        let p = nonempty_sections(s.drop_last());
        if s.last().rows@.len() > 0 {
            p.push((s.last().title@, help_rows_view(s.last().rows@)))
        } else {
            p
        }
    }
}

/// The groups the dialog lists: the sections that have lines, then the
/// zoom lines ("拡大表示中") and the touch lines ("タッチ操作") when asked
/// for, then the fixed keys ("固定キー"), each only when it has lines.
pub open spec fn help_groups(h: NativeOverlayShortcutHelp, zoom: bool, touch: bool) -> Seq<HelpGroupModel> {
    nonempty_sections(h.sections@) + (if zoom && h.video_zoom_rows@.len() > 0 {
        seq![("拡大表示中"@, help_rows_view(h.video_zoom_rows@))]
    } else {
        Seq::empty()
    }) + (if touch && h.touch_rows@.len() > 0 {
        seq![("タッチ操作"@, help_rows_view(h.touch_rows@))]
    } else {
        Seq::empty()
    }) + (if h.fixed_rows@.len() > 0 {
        seq![("固定キー"@, help_rows_view(h.fixed_rows@))]
    } else {
        Seq::empty()
    })
}

/// A group to show.
pub struct NativeShortcutHelpGroup {
    pub title: String,
    pub rows: Vec<(String, String)>,
}

/// The plain value of a group.
pub open spec fn group_view(g: NativeShortcutHelpGroup) -> HelpGroupModel {
    (g.title@, g.rows@.map_values(|r: (String, String)| (r.0@, r.1@)))
}

/// The plain values of a list of groups.
pub open spec fn groups_view(v: Seq<NativeShortcutHelpGroup>) -> Seq<HelpGroupModel> {
    v.map_values(|g: NativeShortcutHelpGroup| group_view(g))
}

/// What the shortcut dialog shows in one frame.
pub struct NativeShortcutHelpView {
    pub close_bg: OverlayColor,
    pub groups: Vec<NativeShortcutHelpGroup>,
}

fn copy_rows(rows: &Vec<NativeShortcutHelpRow>) -> (r: Vec<(String, String)>)
    ensures
        r@.map_values(|x: (String, String)| (x.0@, x.1@)) == help_rows_view(rows@),
{
    let mut r: Vec<(String, String)> = Vec::new();
    let mut i: usize = 0;
    while i < rows.len()
        invariant
            i <= rows.len(),
            r@.map_values(|x: (String, String)| (x.0@, x.1@)) == help_rows_view(rows@.take(i as int)),
        decreases rows.len() - i,
    {
        let ghost before = r@;
        let k = rows[i].keys.clone();
        let d = rows[i].description.clone();
        r.push((k, d));
        assert(rows@.take(i + 1) =~= rows@.take(i as int).push(rows@[i as int]));
        assert(help_rows_view(rows@.take(i + 1)) =~= help_rows_view(rows@.take(i as int)).push((k@, d@)));
        assert(r@.map_values(|x: (String, String)| (x.0@, x.1@)) =~= before.map_values(
            |x: (String, String)| (x.0@, x.1@),
        ).push((k@, d@)));
        i += 1;
    }
    assert(rows@.take(i as int) =~= rows@);
    r
}

fn push_group(v: &mut Vec<NativeShortcutHelpGroup>, title: String, rows: &Vec<NativeShortcutHelpRow>)
    ensures
        groups_view(final(v)@) == groups_view(old(v)@).push((title@, help_rows_view(rows@))),
{
    let copied = copy_rows(rows);
    let g = NativeShortcutHelpGroup { title, rows: copied };
    v.push(g);
    assert(groups_view(v@) =~= groups_view(old(v)@).push((title@, help_rows_view(rows@))));
}

/// The shortcut dialog for one frame. `close_clicked` is a click on "×" or
/// on "閉じる", either of which closes it. Returns `None` when it is closed.
pub fn draw_native_shortcut_help_dialog(
    help: &NativeOverlayShortcutHelp,
    show_video_zoom_rows: bool,
    show_touch_rows: bool,
    close_hovered: bool,
    close_clicked: bool,
    open: &mut bool,
) -> (view: Option<NativeShortcutHelpView>)
    ensures
        !*old(open) ==> view is None && !*final(open),
        *old(open) ==> (view matches Some(v) && v.close_bg == button_bg(close_hovered, false) && groups_view(
            v.groups@,
        ) == help_groups(*help, show_video_zoom_rows, show_touch_rows)),
        *old(open) ==> *final(open) == !close_clicked,
{
    if !*open {
        return None;
    }
    let mut groups: Vec<NativeShortcutHelpGroup> = Vec::new();
    let ghost secs = help.sections@;
    let mut i: usize = 0;
    while i < help.sections.len()
        invariant
            i <= help.sections.len(),
            secs == help.sections@,
            groups_view(groups@) == nonempty_sections(secs.take(i as int)),
        decreases help.sections.len() - i,
    {
        assert(secs.take(i + 1).drop_last() =~= secs.take(i as int));
        assert(secs.take(i + 1).last() == secs[i as int]);
        let section = &help.sections[i];
        if section.rows.len() > 0 {
            push_group(&mut groups, section.title.clone(), &section.rows);
        }
        i += 1;
    }
    assert(secs.take(i as int) =~= secs);
    let ghost g0 = groups_view(groups@);
    if show_video_zoom_rows && help.video_zoom_rows.len() > 0 {
        push_group(&mut groups, "拡大表示中".to_owned(), &help.video_zoom_rows);
    }
    let ghost g1 = groups_view(groups@);
    if show_touch_rows && help.touch_rows.len() > 0 {
        push_group(&mut groups, "タッチ操作".to_owned(), &help.touch_rows);
    }
    let ghost g2 = groups_view(groups@);
    if help.fixed_rows.len() > 0 {
        push_group(&mut groups, "固定キー".to_owned(), &help.fixed_rows);
    }
    assert(groups_view(groups@) =~= help_groups(*help, show_video_zoom_rows, show_touch_rows));
    if close_clicked {
        *open = false;
    }
    Some(NativeShortcutHelpView { close_bg: draw_overlay_button_bg(close_hovered, false), groups })
}

} // verus!
