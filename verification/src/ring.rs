use vstd::prelude::*;

use crate::color::OverlayColor;
use crate::labels::{truncate_overlay_text, truncated};

verus! {

/// A row of the ring picker: a name and its current value.
#[derive(Clone, Debug)]
pub struct NativeOverlayRingPickerRow {
    pub label: String,
    pub value: String,
}

/// A list opened from a ring picker row, with the item that is selected.
#[derive(Clone, Debug)]
pub struct NativeOverlayRingDrill {
    pub title: String,
    pub items: Vec<String>,
    pub selected: usize,
    pub footer: String,
}

/// The ring picker shown in the middle of the video.
#[derive(Clone, Debug)]
pub struct NativeOverlayRingPicker {
    pub title: String,
    pub rows: Vec<NativeOverlayRingPickerRow>,
    pub selected_row: Option<usize>,
    pub footer: String,
    pub drill: Option<NativeOverlayRingDrill>,
}

/// The part of a long list that is shown: from `start` up to `end`, with
/// `visible` rows of room, around the selected row.
pub struct RowWindow {
    pub start: usize,
    pub end: usize,
    pub visible: usize,
}

/// How many rows fit: as many as there is room for, at least one, and no
/// more than there are rows (one when there are none).
pub open spec fn visible_rows(len: nat, capacity: nat) -> nat {
    let room = if capacity == 0 { 1 } else { capacity };
    let most = if len == 0 { 1 } else { len };
    if room < most { room } else { most }
}

/// The selected row, held to the last row.
pub open spec fn clamped_selection(len: nat, selected: Option<usize>) -> Option<nat> {
    match selected {
        Some(r) => Some(if len == 0 { 0 } else if r < len { r as nat } else { (len - 1) as nat }),
        None => None,
    }
}

/// `a - b`, or 0 when `b` is larger.
pub open spec fn sat_sub(a: nat, b: nat) -> nat {
    if a >= b { (a - b) as nat } else { 0 }
}

/// The first row shown: half a window above the selected row (or the first
/// row), but never so low that the window runs past the end.
pub open spec fn window_start(len: nat, selected: Option<usize>, capacity: nat) -> nat {
    let v = visible_rows(len, capacity);
    let focus = match clamped_selection(len, selected) {
        Some(r) => r,
        None => 0,
    };
    let a = sat_sub(focus, v / 2);
    let b = sat_sub(len, v);
    if a < b { a } else { b }
}

/// The window of rows shown for `len` rows, the selection and room for
/// `capacity` rows.
pub fn native_ring_row_window(len: usize, selected: Option<usize>, capacity: usize) -> (w: RowWindow)
    ensures
        w.visible == visible_rows(len as nat, capacity as nat),
        w.start == window_start(len as nat, selected, capacity as nat),
        w.end == (if w.start + w.visible < len { w.start + w.visible } else { len as int }),
{
    let room = if capacity == 0 { 1 } else { capacity };
    let most = if len == 0 { 1 } else { len };
    let visible = if room < most { room } else { most };
    let focus = match selected {
        Some(r) => if len == 0 { 0 } else if r < len { r } else { len - 1 },
        None => 0,
    };
    let half = visible / 2;
    let a = if focus >= half { focus - half } else { 0 };
    let b = if len >= visible { len - visible } else { 0 };
    let start = if a < b { a } else { b };
    let end = if start < len && len - start > visible { start + visible } else { len };
    RowWindow { start, end, visible }
}

/// The window always shows the selected row, and as many rows as fit.
pub proof fn lemma_ring_window_shows_selection(len: nat, selected: Option<usize>, capacity: nat)
    requires
        len > 0,
    ensures
        ({
            let v = visible_rows(len, capacity);
            let s = window_start(len, selected, capacity);
            let e: int = if s + v < len { (s + v) as int } else { len as int };
            &&& 0 <= s <= e <= len
            &&& e - s == v
            &&& (clamped_selection(len, selected) matches Some(r) ==> s <= r < e)
        }),
{
}

/// Whether a scroll bar is drawn beside `visible_rows` of `total_rows` rows,
/// and if so how far the list can scroll (at least one row).
pub fn draw_native_overlay_scrollbar(total_rows: usize, visible_rows: usize) -> (max_scroll: Option<usize>)
    ensures
        (total_rows <= visible_rows || visible_rows == 0) ==> max_scroll is None,
        !(total_rows <= visible_rows || visible_rows == 0) ==> max_scroll == Some(
            (total_rows - visible_rows) as usize,
        ),
{
    if total_rows <= visible_rows || visible_rows == 0 {
        None
    } else {
        Some(total_rows - visible_rows)
    }
}

/// A shown row: the cut label and value, and whether it is selected.
pub struct NativeRingRowView {
    pub label: String,
    pub value: String,
    pub selected: bool,
}

/// What the ring picker shows.
pub enum NativeRingPickerView {
    /// A drilled-in list: its title, items (cut, with the selected one), footer.
    Drill { title: String, subtitle: String, items: Vec<(String, bool)>, footer: String },
    /// The rows in the window, whether there is a scroll bar, and the footer.
    Rows { title: String, window: RowWindow, rows: Vec<NativeRingRowView>, has_scrollbar: bool, footer: String },
}

/// The fill and text alpha of a row: blue with full white text when selected.
pub open spec fn ring_row_fill(selected: bool) -> OverlayColor {
    if selected { OverlayColor::Rgb(56, 94, 138) } else { OverlayColor::Transparent }
}

/// The ring picker for one frame; `capacity` is how many rows its height
/// has room for. Titles, labels and values are cut to fit.
pub fn draw_native_ring_picker_overlay(picker: &NativeOverlayRingPicker, capacity: usize) -> (view: NativeRingPickerView)
    ensures
        match view {
            NativeRingPickerView::Drill { title, subtitle, items, footer } => {
                &&& picker.drill matches Some(d)
                &&& title@ == truncated(picker.title@, 36)
                &&& subtitle@ == truncated(d.title@, 36)
                &&& footer@ == truncated(d.footer@, 54)
                &&& items.len() == d.items.len()
                &&& forall|i: int| 0 <= i < items.len() ==> {
                    &&& (#[trigger] items@[i]).0@ == truncated(d.items@[i]@, 44)
                    &&& items@[i].1 == (i == (if d.selected < d.items.len() { d.selected as int } else { d.items.len() - 1 }))
                }
            },
            NativeRingPickerView::Rows { title, window, rows, has_scrollbar, footer } => {
                let len = picker.rows.len() as nat;
                &&& picker.drill is None
                &&& title@ == truncated(picker.title@, 36)
                &&& footer@ == truncated(picker.footer@, 54)
                &&& window.visible == visible_rows(len, capacity as nat)
                &&& window.start == window_start(len, picker.selected_row, capacity as nat)
                &&& window.end == (if window.start + window.visible < len { window.start + window.visible } else { len as int })
                &&& has_scrollbar == (len > window.visible)
                &&& rows.len() == window.end - window.start
                &&& forall|i: int| 0 <= i < rows.len() ==> {
                    let k = window.start + i;
                    &&& (#[trigger] rows@[i]).label@ == truncated(picker.rows@[k].label@, 16)
                    &&& rows@[i].value@ == truncated(picker.rows@[k].value@, 32)
                    &&& rows@[i].selected == (clamped_selection(len, picker.selected_row) == Some(k as nat))
                }
            },
        },
{
    let title = truncate_overlay_text(picker.title.as_str(), 36);
    match &picker.drill {
        Some(d) => {
            let subtitle = truncate_overlay_text(d.title.as_str(), 36);
            let footer = truncate_overlay_text(d.footer.as_str(), 54);
            let selected = if d.selected < d.items.len() {
                d.selected
            } else if d.items.len() > 0 {
                d.items.len() - 1
            } else {
                0
            };
            let mut items: Vec<(String, bool)> = Vec::new();
            let mut i: usize = 0;
            while i < d.items.len()
                invariant
                    i <= d.items.len(),
                    items.len() == i,
                    d.items.len() > 0 ==> selected == (if d.selected < d.items.len() { d.selected as int } else { d.items.len() - 1 }),
                    forall|k: int| 0 <= k < i ==> {
                        &&& (#[trigger] items@[k]).0@ == truncated(d.items@[k]@, 44)
                        &&& items@[k].1 == (k == (if d.selected < d.items.len() { d.selected as int } else { d.items.len() - 1 }))
                    },
                decreases d.items.len() - i,
            {
                let t = truncate_overlay_text(d.items[i].as_str(), 44);
                items.push((t, i == selected));
                i += 1;
            }
            NativeRingPickerView::Drill { title, subtitle, items, footer }
        },
        None => {
            let footer = truncate_overlay_text(picker.footer.as_str(), 54);
            let len = picker.rows.len();
            let window = native_ring_row_window(len, picker.selected_row, capacity);
            let has_scrollbar = len > window.visible;
            let sel: Option<usize> = match picker.selected_row {
                Some(r) => Some(if len == 0 { 0 } else if r < len { r } else { len - 1 }),
                None => None,
            };
            let mut rows: Vec<NativeRingRowView> = Vec::new();
            let mut k: usize = window.start;
            while k < window.end
                invariant
                    window.start <= k <= window.end <= len == picker.rows.len(),
                    rows.len() == k - window.start,
                    sel == match clamped_selection(len as nat, picker.selected_row) {
                        Some(r) => Some(r as usize),
                        None => None::<usize>,
                    },
                    forall|i: int| 0 <= i < rows.len() ==> {
                        let q = window.start + i;
                        &&& (#[trigger] rows@[i]).label@ == truncated(picker.rows@[q].label@, 16)
                        &&& rows@[i].value@ == truncated(picker.rows@[q].value@, 32)
                        &&& rows@[i].selected == (clamped_selection(len as nat, picker.selected_row) == Some(q as nat))
                    },
                decreases window.end - k,
            {
                let row = &picker.rows[k];
                let label = truncate_overlay_text(row.label.as_str(), 16);
                let value = truncate_overlay_text(row.value.as_str(), 32);
                let selected = sel == Some(k);
                rows.push(NativeRingRowView { label, value, selected });
                k += 1;
            }
            NativeRingPickerView::Rows { title, window, rows, has_scrollbar, footer }
        },
    }
}

} // verus!
