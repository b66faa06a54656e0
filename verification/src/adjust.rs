use vstd::prelude::*;

use crate::color::{button_bg, draw_overlay_button_bg, OverlayColor};
use crate::commands::{commands_view, push_command, CommandModel, NativeOverlayCommand};
use crate::text::{concat2, concat3};

verus! {

/// The tabs of the video adjustment panel.
#[derive(Clone, Copy, Debug, PartialEq, Eq, Structural)]
pub enum NativeVideoAdjustmentTab {
    /// "色調": brightness, contrast, levels.
    ColorTone,
    /// "フィルタ": scaling and LUT.
    Filter,
}

/// How many preset slots the panel offers.
pub const NATIVE_VIDEO_ADJUST_SLOTS: usize = 10;

/// A tab button: its background and text colour.
pub open spec fn adjustment_tab_colors(hovered: bool, selected: bool) -> (OverlayColor, OverlayColor) {
    (button_bg(hovered, selected), if selected { OverlayColor::White } else { OverlayColor::Gray(190) })
}

/// The name saved in slot `i`, when there is one.
pub open spec fn slot_name(slots: Seq<Option<String>>, i: int) -> Option<Seq<char>> {
    if 0 <= i < slots.len() {
        match slots[i] {
            Some(n) => Some(n@),
            None => None,
        }
    } else {
        None
    }
}

/// The tooltip of the load button of a slot with key `key`.
pub open spec fn load_slot_tooltip(key: Seq<char>, name: Option<Seq<char>>) -> Seq<char> {
    match name {
        Some(n) => n + "\nCtrl+"@ + key + " で読み込む"@,
        None => "スロット"@ + key + " は空です"@,
    }
}

/// The tooltip of the save button of a slot with key `key`.
pub open spec fn save_slot_tooltip(key: Seq<char>, name: Option<Seq<char>>) -> Seq<char> {
    match name {
        Some(n) => "現在の動画補正をスロット"@ + key + "に保存\n現在: "@ + n,
        None => "現在の動画補正をスロット"@ + key + "に保存"@,
    }
}

/// A preset slot's buttons: whether "load" can be clicked, and both tooltips.
pub struct NativeAdjustSlotButtons {
    pub load_enabled: bool,
    pub load_tooltip: String,
    pub save_tooltip: String,
}

/// How the panel treats a scale filter.
#[derive(Clone, Copy, Debug, PartialEq, Eq, Structural)]
pub enum NativeScaleFilterKind {
    /// The system's own scaling: no smoothing setting.
    OsDefault,
    /// Anime4K: with a quality budget and a cost measurement.
    Anime,
    /// Any other filter.
    Other,
}

/// The scaling settings that the filter tab edits in place.
#[derive(Clone, Copy, Debug, PartialEq, Eq, Structural)]
pub struct NativeVideoScaleState {
    /// The scale filter, by its place in the filter list.
    pub filter: usize,
    /// How much downscaling is smoothed, in percent.
    pub smoothing_percent: u32,
    /// The Anime4K quality budget, by its place in the budget list.
    pub anime4k_budget: usize,
}

/// A creative LUT that can be picked.
#[derive(Clone, Debug)]
pub struct NativeCreativeLutChoice {
    pub id: u64,
    pub name: String,
    /// Whether it comes with the player rather than from the user.
    pub builtin: bool,
    pub loaded: bool,
    /// Why it could not be read, if it could not.
    pub error: Option<String>,
}

/// What the user did in the video adjustment panel in one frame. Sliders
/// work on fractional values, so for them the caller reports only whether
/// the value changed and whether the change is final (the slider was let
/// go, set by typing, or put back with its reset arrow).
#[derive(Clone, Copy, Debug)]
pub struct NativeVideoAdjustmentEvents {
    /// The pointer on the "色調" and "フィルタ" tabs.
    pub tab_hovered: (bool, bool),
    pub tab_clicked: Option<NativeVideoAdjustmentTab>,
    /// The colour tone sliders.
    pub grade_changed: bool,
    pub grade_persist: bool,
    /// A scale filter picked from the list, by its place in it.
    pub filter_picked: Option<usize>,
    /// An Anime4K budget picked from the list, by its place in it.
    pub budget_picked: Option<usize>,
    pub remeasure_clicked: bool,
    /// The smoothing slider moved to this value, as the settings' rule
    /// brings it into range.
    pub smoothing_set: Option<u32>,
    /// A LUT picked from the list: `Some(None)` for "なし".
    pub lut_picked: Option<Option<u64>>,
    /// The LUT strength slider and its reset arrow.
    pub lut_strength_changed: bool,
    pub lut_strength_persist: bool,
    pub reset_all_clicked: bool,
    /// A preset slot's "load" or "save" button, by slot.
    pub load_clicked: Option<usize>,
    pub save_clicked: Option<usize>,
}

/// What the filter tab shows.
pub struct NativeVideoFilterTabView {
    /// Whether the Anime4K budget list, status and re-measure button are shown.
    pub show_anime4k: bool,
    /// Whether "もう一度測定" can be clicked (not while measuring).
    pub remeasure_enabled: bool,
    /// Whether the smoothing slider is shown.
    pub show_smoothing: bool,
    /// The LUT list's closed text.
    pub lut_selected_name: String,
    /// The LUT list's entries after "なし".
    pub lut_entries: Vec<String>,
    /// Whether the strength slider of the chosen LUT is shown.
    pub show_lut_strength: bool,
    /// The chosen LUT's trouble, if it has one.
    pub lut_status: Option<String>,
}

/// The video adjustment panel for one frame.
pub struct NativeVideoAdjustmentView {
    /// Background and text colour of the "色調" and "フィルタ" tabs.
    pub tabs: ((OverlayColor, OverlayColor), (OverlayColor, OverlayColor)),
    /// The filter tab, when it is the one shown.
    pub filter_tab: Option<NativeVideoFilterTabView>,
    pub slots: Vec<NativeAdjustSlotButtons>,
}

fn slot_buttons(preset_slots: &[Option<String>], key: &String, i: usize) -> (b: NativeAdjustSlotButtons)
    ensures
        b.load_enabled == (slot_name(preset_slots@, i as int) is Some),
        b.load_tooltip@ == load_slot_tooltip(key@, slot_name(preset_slots@, i as int)),
        b.save_tooltip@ == save_slot_tooltip(key@, slot_name(preset_slots@, i as int)),
{
    let name: Option<&String> = if i < preset_slots.len() {
        match &preset_slots[i] {
            Some(n) => Some(n),
            None => None,
        }
    } else {
        None
    };
    match name {
        Some(n) => {
            let head = concat2(n.as_str(), "\nCtrl+");
            let load_tooltip = concat3(head.as_str(), key.as_str(), " で読み込む");
            let save_head = concat3("現在の動画補正をスロット", key.as_str(), "に保存\n現在: ");
            let save_tooltip = concat2(save_head.as_str(), n.as_str());
            NativeAdjustSlotButtons { load_enabled: true, load_tooltip, save_tooltip }
        },
        None => {
            let load_tooltip = concat3("スロット", key.as_str(), " は空です");
            let save_tooltip = concat3("現在の動画補正をスロット", key.as_str(), "に保存");
            NativeAdjustSlotButtons { load_enabled: false, load_tooltip, save_tooltip }
        },
    }
}

/// The slot commands: loading the clicked slot when it holds a preset, then
/// saving into the clicked slot.
pub open spec fn slot_commands(
    slots: Seq<Option<String>>,
    load_clicked: Option<usize>,
    save_clicked: Option<usize>,
) -> Seq<CommandModel> {
    let load = match load_clicked {
        Some(i) if i < NATIVE_VIDEO_ADJUST_SLOTS && slot_name(slots, i as int) is Some => seq![
            CommandModel::VideoAdjustLoadSlot { slot_idx: i },
        ],
        _ => Seq::empty(),
    };
    let save = match save_clicked {
        Some(i) if i < NATIVE_VIDEO_ADJUST_SLOTS => seq![CommandModel::VideoAdjustSaveSlot { slot_idx: i }],
        _ => Seq::empty(),
    };
    load + save
}

/// The first LUT in `luts` with id `id`.
pub open spec fn find_lut(luts: Seq<NativeCreativeLutChoice>, id: u64) -> Option<int>
    decreases luts.len(),
{
    if luts.len() == 0 {
        None
    } else {
        let p = find_lut(luts.drop_last(), id);
        if p is Some {
            p
        } else if luts.last().id == id {
            Some(luts.len() - 1)
        } else {
            None
        }
    }
}

/// `find_lut` gives an index within the list whose LUT has the id, and a
/// match in a prefix stays the match of the whole list.
proof fn lemma_find_lut(luts: Seq<NativeCreativeLutChoice>, id: u64, n: int)
    requires
        0 <= n <= luts.len(),
    ensures
        find_lut(luts, id) matches Some(k) ==> 0 <= k < luts.len() && luts[k].id == id,
        find_lut(luts.take(n), id) matches Some(k) ==> find_lut(luts, id) == Some(k),
    decreases luts.len(),
{
    if n == luts.len() {
        assert(luts.take(n) =~= luts);
    }
    if luts.len() > 0 {
        let p = luts.drop_last();
        if n < luts.len() {
            assert(p.take(n) =~= luts.take(n));
            lemma_find_lut(p, id, n);
        } else {
            lemma_find_lut(p, id, 0);
        }
    }
}

/// The place of the first LUT with id `id`.
fn find_lut_index(luts: &[NativeCreativeLutChoice], id: u64) -> (r: Option<usize>)
    ensures
        match r {
            Some(k) => k < luts.len() && find_lut(luts@, id) == Some(k as int),
            None => find_lut(luts@, id) is None,
        },
{
    let mut i: usize = 0;
    while i < luts.len()
        invariant
            i <= luts.len(),
            find_lut(luts@.take(i as int), id) is None,
        decreases luts.len() - i,
    {
        let ghost now = luts@.take(i + 1);
        assert(now.drop_last() =~= luts@.take(i as int));
        if luts[i].id == id {
            proof {
                lemma_find_lut(luts@, id, i + 1);
            }
            return Some(i);
        }
        i += 1;
    }
    assert(luts@.take(luts.len() as int) =~= luts@);
    None
}

/// The LUT list's closed text: the chosen LUT's name, "（未登録）" for a
/// chosen id that no listed LUT has, "なし" when none is chosen.
pub open spec fn lut_selected_name(luts: Seq<NativeCreativeLutChoice>, id: Option<u64>) -> Seq<char> {
    match id {
        None => "なし"@,
        Some(i) => match find_lut(luts, i) {
            Some(k) => luts[k].name@,
            None => "（未登録）"@,
        },
    }
}

/// A LUT's entry in the list: built-in ones are marked as presets.
pub open spec fn lut_entry_label(e: NativeCreativeLutChoice) -> Seq<char> {
    if e.builtin {
        "プリセット: "@ + e.name@
    } else {
        e.name@
    }
}

/// The chosen LUT's trouble: that it cannot be read, or that it is still
/// being read.
pub open spec fn lut_status(luts: Seq<NativeCreativeLutChoice>, id: Option<u64>) -> Option<Seq<char>> {
    match id {
        Some(i) => match find_lut(luts, i) {
            Some(k) => match luts[k].error {
                Some(e) => Some("LUTを読み込めません: "@ + e@),
                None => if !luts[k].loaded {
                    Some("LUTを読み込み中…"@)
                } else {
                    None
                },
            },
            None => None,
        },
        None => None,
    }
}

/// The tab shown after this frame's clicks.
pub open spec fn tab_after(tab: NativeVideoAdjustmentTab, clicked: Option<NativeVideoAdjustmentTab>) -> NativeVideoAdjustmentTab {
    match clicked {
        Some(t) => t,
        None => tab,
    }
}

/// The scale filter after a pick from the list.
pub open spec fn filter_after(kinds: Seq<NativeScaleFilterKind>, st: NativeVideoScaleState, ev: NativeVideoAdjustmentEvents) -> usize {
    match ev.filter_picked {
        Some(i) if i < kinds.len() => i,
        _ => st.filter,
    }
}

/// The scaling settings after the filter tab's events.
pub open spec fn scale_after(kinds: Seq<NativeScaleFilterKind>, st: NativeVideoScaleState, ev: NativeVideoAdjustmentEvents) -> NativeVideoScaleState {
    let f = filter_after(kinds, st, ev);
    let anime = kinds[f as int] == NativeScaleFilterKind::Anime;
    let smooth = kinds[f as int] != NativeScaleFilterKind::OsDefault;
    NativeVideoScaleState {
        filter: f,
        smoothing_percent: match ev.smoothing_set {
            Some(v) if smooth => v,
            _ => st.smoothing_percent,
        },
        anime4k_budget: match ev.budget_picked {
            Some(b) if anime => b,
            _ => st.anime4k_budget,
        },
    }
}

/// The filter tab's commands, in order: the new filter (with the smoothing
/// as it was), for Anime4K a new budget and a re-measure (not while
/// measuring), then for a filter other than the system's a new smoothing.
pub open spec fn filter_tab_commands(
    kinds: Seq<NativeScaleFilterKind>,
    st: NativeVideoScaleState,
    measuring: bool,
    ev: NativeVideoAdjustmentEvents,
) -> Seq<CommandModel> {
    let f = filter_after(kinds, st, ev);
    let anime = kinds[f as int] == NativeScaleFilterKind::Anime;
    let after = scale_after(kinds, st, ev);
    let c1 = if f != st.filter {
        seq![CommandModel::RequestVideoScaleSettings { filter: f, smoothing_percent: st.smoothing_percent }]
    } else {
        Seq::empty()
    };
    let c2 = if anime && after.anime4k_budget != st.anime4k_budget {
        seq![CommandModel::SetVideoAnime4kBudget { budget: after.anime4k_budget }]
    } else {
        Seq::empty()
    };
    let c3 = if anime && ev.remeasure_clicked && !measuring {
        seq![CommandModel::RemeasureVideoAnime4k]
    } else {
        Seq::empty()
    };
    let c4 = if kinds[f as int] != NativeScaleFilterKind::OsDefault && ev.smoothing_set is Some {
        seq![CommandModel::RequestVideoScaleSettings { filter: f, smoothing_percent: after.smoothing_percent }]
    } else {
        Seq::empty()
    };
    c1 + c2 + c3 + c4
}

/// The chosen LUT after a pick from the list (only on the filter tab).
pub open spec fn lut_after_pick(lut: Option<u64>, filter_tab: bool, ev: NativeVideoAdjustmentEvents) -> Option<u64> {
    match ev.lut_picked {
        Some(x) if filter_tab => x,
        _ => lut,
    }
}

/// Whether the adjustments changed this frame, and whether the change is to
/// be saved: a colour tone slider (on its tab), another LUT (both), the
/// chosen LUT's strength, and "すべてリセット" (both).
pub open spec fn adjustments_changed(
    tab: NativeVideoAdjustmentTab,
    lut: Option<u64>,
    ev: NativeVideoAdjustmentEvents,
) -> (bool, bool) {
    let filter_tab = tab == NativeVideoAdjustmentTab::Filter;
    let tone = tab == NativeVideoAdjustmentTab::ColorTone;
    let picked = lut_after_pick(lut, filter_tab, ev);
    let lut_changed = picked != lut;
    let strength = filter_tab && picked is Some;
    (
        (tone && ev.grade_changed) || lut_changed || (strength && ev.lut_strength_changed) || ev.reset_all_clicked,
        (tone && ev.grade_persist) || lut_changed || (strength && ev.lut_strength_persist) || ev.reset_all_clicked,
    )
}

/// The panel's commands, in order: the filter tab's (when it is shown), the
/// preset slots', and last the adjustments themselves when they changed or
/// are to be saved.
pub open spec fn adjustment_commands(
    tab: NativeVideoAdjustmentTab,
    kinds: Seq<NativeScaleFilterKind>,
    st: NativeVideoScaleState,
    measuring: bool,
    lut: Option<u64>,
    slots: Seq<Option<String>>,
    ev: NativeVideoAdjustmentEvents,
) -> Seq<CommandModel> {
    let t = tab_after(tab, ev.tab_clicked);
    let (changed, persist) = adjustments_changed(t, lut, ev);
    (if t == NativeVideoAdjustmentTab::Filter {
        filter_tab_commands(kinds, st, measuring, ev)
    } else {
        Seq::empty()
    }) + slot_commands(slots, ev.load_clicked, ev.save_clicked) + (if changed || persist {
        seq![CommandModel::SetVideoAdjustments { persist }]
    } else {
        Seq::empty()
    })
}

/// Whether `v` shows the filter tab as it stands after this frame's events.
pub open spec fn filter_tab_shows(
    v: NativeVideoFilterTabView,
    kinds: Seq<NativeScaleFilterKind>,
    st: NativeVideoScaleState,
    measuring: bool,
    lut: Option<u64>,
    luts: Seq<NativeCreativeLutChoice>,
    ev: NativeVideoAdjustmentEvents,
) -> bool {
    let f = filter_after(kinds, st, ev);
    let picked = lut_after_pick(lut, true, ev);
    &&& v.show_anime4k == (kinds[f as int] == NativeScaleFilterKind::Anime)
    &&& v.remeasure_enabled == !measuring
    &&& v.show_smoothing == (kinds[f as int] != NativeScaleFilterKind::OsDefault)
    &&& v.lut_selected_name@ == lut_selected_name(luts, lut)
    &&& v.lut_entries@.len() == luts.len()
    &&& forall|i: int| 0 <= i < luts.len() ==> (#[trigger] v.lut_entries@[i])@ == lut_entry_label(luts[i])
    &&& v.show_lut_strength == (picked is Some)
    &&& opt_view(v.lut_status) == lut_status(luts, picked)
}

/// The characters of an optional string.
pub open spec fn opt_view(o: Option<String>) -> Option<Seq<char>> {
    match o {
        Some(s) => Some(s@),
        None => None,
    }
}

/// The adjustments are applied last whenever they changed: moving the
/// chosen LUT's strength on the filter tab applies it (and saves it when the
/// move is final); picking another LUT, and "すべてリセット", apply and save;
/// a colour tone slider on its tab applies (and saves when final). When
/// nothing of that happened, the adjustments are not sent.
pub proof fn lemma_adjustments_sent_when_changed(
    tab: NativeVideoAdjustmentTab,
    kinds: Seq<NativeScaleFilterKind>,
    st: NativeVideoScaleState,
    measuring: bool,
    lut: Option<u64>,
    slots: Seq<Option<String>>,
    ev: NativeVideoAdjustmentEvents,
)
    ensures
        ({
            let cmds = adjustment_commands(tab, kinds, st, measuring, lut, slots, ev);
            let t = tab_after(tab, ev.tab_clicked);
            let filter_on = t == NativeVideoAdjustmentTab::Filter;
            let tone_on = t == NativeVideoAdjustmentTab::ColorTone;
            let picked = lut_after_pick(lut, filter_on, ev);
            let strength = filter_on && picked is Some;
            &&& strength && (ev.lut_strength_changed || ev.lut_strength_persist) ==> (cmds.len() > 0
                && cmds.last() is SetVideoAdjustments && (ev.lut_strength_persist ==> cmds.last()->persist))
            &&& picked != lut ==> cmds.len() > 0 && cmds.last() == CommandModel::SetVideoAdjustments { persist: true }
            &&& ev.reset_all_clicked ==> cmds.len() > 0 && cmds.last() == CommandModel::SetVideoAdjustments {
                persist: true,
            }
            &&& tone_on && (ev.grade_changed || ev.grade_persist) ==> (cmds.len() > 0
                && cmds.last() is SetVideoAdjustments && (ev.grade_persist ==> cmds.last()->persist))
            &&& !(strength && (ev.lut_strength_changed || ev.lut_strength_persist)) && picked == lut
                && !ev.reset_all_clicked && !(tone_on && (ev.grade_changed || ev.grade_persist)) ==> forall|
                i: int,
            | 0 <= i < cmds.len() ==> !(#[trigger] cmds[i] is SetVideoAdjustments)
        }),
{
    let t = tab_after(tab, ev.tab_clicked);
    let fc = if t == NativeVideoAdjustmentTab::Filter {
        filter_tab_commands(kinds, st, measuring, ev)
    } else {
        Seq::empty()
    };
    let sc = slot_commands(slots, ev.load_clicked, ev.save_clicked);
    let cmds = adjustment_commands(tab, kinds, st, measuring, lut, slots, ev);
    let (c, p) = adjustments_changed(t, lut, ev);
    if c || p {
        assert(cmds == fc + sc + seq![CommandModel::SetVideoAdjustments { persist: p }]);
    } else {
        assert(cmds == fc + sc + Seq::<CommandModel>::empty());
        assert forall|i: int| 0 <= i < cmds.len() implies !(#[trigger] cmds[i] is SetVideoAdjustments) by {
            if i < fc.len() {
                assert(cmds[i] == fc[i]);
            } else {
                assert(cmds[i] == sc[i - fc.len()]);
            }
        }
    }
}

/// The filter tab's part of the frame: applies the picks and reports the
/// commands as `filter_tab_commands` lists them.
fn filter_tab(
    kinds: &[NativeScaleFilterKind],
    scale: &mut NativeVideoScaleState,
    measuring: bool,
    ev: &NativeVideoAdjustmentEvents,
    commands: &mut Vec<NativeOverlayCommand>,
)
    requires
        old(scale).filter < kinds.len(),
    ensures
        *final(scale) == scale_after(kinds@, *old(scale), *ev),
        final(scale).filter < kinds.len(),
        commands_view(final(commands)@) == commands_view(old(commands)@) + filter_tab_commands(
            kinds@,
            *old(scale),
            measuring,
            *ev,
        ),
{
    let ghost start = commands_view(commands@);
    let st = *scale;
    match ev.filter_picked {
        Some(i) => {
            if i < kinds.len() {
                scale.filter = i;
            }
        },
        None => {},
    }
    let f = scale.filter;
    if f != st.filter {
        push_command(
            commands,
            NativeOverlayCommand::RequestVideoScaleSettings { filter: f, smoothing_percent: st.smoothing_percent },
        );
    }
    let ghost c1 = commands_view(commands@);
    let anime = kinds[f] == NativeScaleFilterKind::Anime;
    if anime {
        match ev.budget_picked {
            Some(b) => {
                scale.anime4k_budget = b;
            },
            None => {},
        }
        if scale.anime4k_budget != st.anime4k_budget {
            push_command(commands, NativeOverlayCommand::SetVideoAnime4kBudget { budget: scale.anime4k_budget });
        }
        if ev.remeasure_clicked && !measuring {
            push_command(commands, NativeOverlayCommand::RemeasureVideoAnime4k);
        }
    }
    let ghost c3 = commands_view(commands@);
    if kinds[f] != NativeScaleFilterKind::OsDefault {
        match ev.smoothing_set {
            Some(v) => {
                scale.smoothing_percent = v;
                push_command(
                    commands,
                    NativeOverlayCommand::RequestVideoScaleSettings { filter: f, smoothing_percent: v },
                );
            },
            None => {},
        }
    }
    proof {
        let after = scale_after(kinds@, st, *ev);
        assert(*scale == after);
        let a1 = if f != st.filter {
            seq![CommandModel::RequestVideoScaleSettings { filter: f, smoothing_percent: st.smoothing_percent }]
        } else {
            Seq::empty()
        };
        let a2 = if anime && after.anime4k_budget != st.anime4k_budget {
            seq![CommandModel::SetVideoAnime4kBudget { budget: after.anime4k_budget }]
        } else {
            Seq::empty()
        };
        let a3 = if anime && ev.remeasure_clicked && !measuring {
            seq![CommandModel::RemeasureVideoAnime4k]
        } else {
            Seq::empty()
        };
        let a4 = if kinds@[f as int] != NativeScaleFilterKind::OsDefault && ev.smoothing_set is Some {
            seq![CommandModel::RequestVideoScaleSettings { filter: f, smoothing_percent: after.smoothing_percent }]
        } else {
            Seq::empty()
        };
        assert(c1 =~= start + a1);
        assert(c3 =~= start + a1 + a2 + a3);
        assert(commands_view(commands@) =~= start + (a1 + a2 + a3 + a4));
    }
}

/// The filter tab's view.
fn filter_tab_view(
    kinds: &[NativeScaleFilterKind],
    scale: &NativeVideoScaleState,
    measuring: bool,
    lut_before: Option<u64>,
    lut_now: Option<u64>,
    luts: &[NativeCreativeLutChoice],
) -> (v: NativeVideoFilterTabView)
    requires
        scale.filter < kinds.len(),
    ensures
        v.show_anime4k == (kinds@[scale.filter as int] == NativeScaleFilterKind::Anime),
        v.remeasure_enabled == !measuring,
        v.show_smoothing == (kinds@[scale.filter as int] != NativeScaleFilterKind::OsDefault),
        v.lut_selected_name@ == lut_selected_name(luts@, lut_before),
        v.lut_entries@.len() == luts.len(),
        forall|i: int| 0 <= i < luts.len() ==> (#[trigger] v.lut_entries@[i])@ == lut_entry_label(luts@[i]),
        v.show_lut_strength == (lut_now is Some),
        opt_view(v.lut_status) == lut_status(luts@, lut_now),
{
    let lut_selected_name = match lut_before {
        None => "なし".to_owned(),
        Some(id) => match find_lut_index(luts, id) {
            Some(k) => luts[k].name.clone(),
            None => "（未登録）".to_owned(),
        },
    };
    let mut lut_entries: Vec<String> = Vec::new();
    let mut i: usize = 0;
    while i < luts.len()
        invariant
            i <= luts.len(),
            lut_entries@.len() == i,
            forall|k: int| 0 <= k < i ==> (#[trigger] lut_entries@[k])@ == lut_entry_label(luts@[k]),
        decreases luts.len() - i,
    {
        let e = &luts[i];
        let label = if e.builtin {
            concat2("プリセット: ", e.name.as_str())
        } else {
            e.name.clone()
        };
        lut_entries.push(label);
        i += 1;
    }
    let lut_status = match lut_now {
        Some(id) => match find_lut_index(luts, id) {
            Some(k) => match &luts[k].error {
                Some(e) => Some(concat2("LUTを読み込めません: ", e.as_str())),
                None => if !luts[k].loaded {
                    Some("LUTを読み込み中…".to_owned())
                } else {
                    None
                },
            },
            None => None,
        },
        None => None,
    };
    NativeVideoFilterTabView {
        show_anime4k: kinds[scale.filter] == NativeScaleFilterKind::Anime,
        remeasure_enabled: !measuring,
        show_smoothing: kinds[scale.filter] != NativeScaleFilterKind::OsDefault,
        lut_selected_name,
        lut_entries,
        show_lut_strength: lut_now.is_some(),
        lut_status,
    }
}

/// The shown tab's part of the frame: its events applied, whether the
/// adjustments changed and are to be saved, and the filter tab's view.
fn tab_events(
    shown: NativeVideoAdjustmentTab,
    scale: &mut NativeVideoScaleState,
    lut_id: &mut Option<u64>,
    kinds: &[NativeScaleFilterKind],
    measuring: bool,
    luts: &[NativeCreativeLutChoice],
    ev: &NativeVideoAdjustmentEvents,
    commands: &mut Vec<NativeOverlayCommand>,
) -> (r: (bool, bool, Option<NativeVideoFilterTabView>))
    requires
        old(scale).filter < kinds.len(),
    ensures
        ({
            let filter_on = shown == NativeVideoAdjustmentTab::Filter;
            let picked = lut_after_pick(*old(lut_id), filter_on, *ev);
            &&& *final(scale) == (if filter_on {
                scale_after(kinds@, *old(scale), *ev)
            } else {
                *old(scale)
            })
            &&& *final(lut_id) == (if ev.reset_all_clicked {
                None
            } else {
                picked
            })
            &&& (r.0, r.1) == adjustments_changed(shown, *old(lut_id), *ev)
            &&& (filter_on <==> r.2 is Some)
            &&& (r.2 matches Some(v) ==> filter_tab_shows(v, kinds@, *old(scale), measuring, *old(lut_id), luts@, *ev))
            &&& commands_view(final(commands)@) == commands_view(old(commands)@) + (if filter_on {
                filter_tab_commands(kinds@, *old(scale), measuring, *ev)
            } else {
                Seq::empty()
            })
        }),
{
    let lut_before = *lut_id;
    let mut changed = false;
    let mut persist = false;
    let mut view: Option<NativeVideoFilterTabView> = None;
    if shown == NativeVideoAdjustmentTab::ColorTone {
        changed = ev.grade_changed;
        persist = ev.grade_persist;
        assert(commands_view(commands@) =~= commands_view(old(commands)@) + Seq::empty());
    } else {
        let ghost scale0 = *scale;
        filter_tab(kinds, scale, measuring, ev, commands);
        match ev.lut_picked {
            Some(x) => {
                *lut_id = x;
            },
            None => {},
        }
        if *lut_id != lut_before {
            changed = true;
            persist = true;
        }
        if lut_id.is_some() {
            changed = changed || ev.lut_strength_changed;
            persist = persist || ev.lut_strength_persist;
        }
        view = Some(filter_tab_view(kinds, scale, measuring, lut_before, *lut_id, luts));
        assert(scale.filter == filter_after(kinds@, scale0, *ev));
    }
    if ev.reset_all_clicked {
        *lut_id = None;
        changed = true;
        persist = true;
    }
    (changed, persist, view)
}

/// The preset slots' buttons, in slot order.
fn slot_button_list(preset_slots: &[Option<String>], slot_keys: &[String]) -> (slots: Vec<NativeAdjustSlotButtons>)
    requires
        slot_keys.len() == NATIVE_VIDEO_ADJUST_SLOTS,
    ensures
        slots.len() == NATIVE_VIDEO_ADJUST_SLOTS,
        forall|i: int|
            0 <= i < NATIVE_VIDEO_ADJUST_SLOTS ==> {
                &&& (#[trigger] slots@[i]).load_enabled == (slot_name(preset_slots@, i) is Some)
                &&& slots@[i].load_tooltip@ == load_slot_tooltip(slot_keys@[i]@, slot_name(preset_slots@, i))
                &&& slots@[i].save_tooltip@ == save_slot_tooltip(slot_keys@[i]@, slot_name(preset_slots@, i))
            },
{
    let mut slots: Vec<NativeAdjustSlotButtons> = Vec::new();
    let mut i: usize = 0;
    while i < NATIVE_VIDEO_ADJUST_SLOTS
        invariant
            i <= NATIVE_VIDEO_ADJUST_SLOTS == slot_keys.len(),
            slots.len() == i,
            forall|k: int|
                0 <= k < i ==> {
                    &&& (#[trigger] slots@[k]).load_enabled == (slot_name(preset_slots@, k) is Some)
                    &&& slots@[k].load_tooltip@ == load_slot_tooltip(slot_keys@[k]@, slot_name(preset_slots@, k))
                    &&& slots@[k].save_tooltip@ == save_slot_tooltip(slot_keys@[k]@, slot_name(preset_slots@, k))
                },
        decreases NATIVE_VIDEO_ADJUST_SLOTS - i,
    {
        let b = slot_buttons(preset_slots, &slot_keys[i], i);
        slots.push(b);
        i += 1;
    }
    slots
}

/// Pushes the preset slots' commands as `slot_commands` lists them.
fn push_slot_commands(
    preset_slots: &[Option<String>],
    load_clicked: Option<usize>,
    save_clicked: Option<usize>,
    commands: &mut Vec<NativeOverlayCommand>,
)
    ensures
        commands_view(final(commands)@) == commands_view(old(commands)@) + slot_commands(
            preset_slots@,
            load_clicked,
            save_clicked,
        ),
{
    let ghost start = commands_view(commands@);
    match load_clicked {
        Some(k) => {
            if k < NATIVE_VIDEO_ADJUST_SLOTS && k < preset_slots.len() && preset_slots[k].is_some() {
                push_command(commands, NativeOverlayCommand::VideoAdjustLoadSlot { slot_idx: k });
            }
        },
        None => {},
    }
    match save_clicked {
        Some(k) => {
            if k < NATIVE_VIDEO_ADJUST_SLOTS {
                push_command(commands, NativeOverlayCommand::VideoAdjustSaveSlot { slot_idx: k });
            }
        },
        None => {},
    }
    proof {
        let load = match load_clicked {
            Some(i) if i < NATIVE_VIDEO_ADJUST_SLOTS && slot_name(preset_slots@, i as int) is Some => seq![
                CommandModel::VideoAdjustLoadSlot { slot_idx: i },
            ],
            _ => Seq::empty(),
        };
        let save = match save_clicked {
            Some(i) if i < NATIVE_VIDEO_ADJUST_SLOTS => seq![CommandModel::VideoAdjustSaveSlot { slot_idx: i }],
            _ => Seq::empty(),
        };
        assert(commands_view(commands@) =~= start + (load + save));
    }
}

/// The video adjustment panel for one frame. A click on a tab selects it
/// (the tabs are drawn as they were before the click) and the tab shown
/// after it takes the frame's events: on the colour tone tab its sliders; on
/// the filter tab the scale filter, the Anime4K budget and re-measure (for
/// Anime4K), the smoothing (for any filter but the system's), and the LUT.
/// "すべてリセット" puts the adjustments back to their defaults, without a
/// LUT. A preset slot's "load" button works only when the slot holds a
/// preset. `slot_keys` name the slots, in slot order; `scale.filter` is a
/// place in `filter_kinds`. The adjustments' fractional values stay with the
/// caller, which attaches them to the final `SetVideoAdjustments`.
#[verifier::spinoff_prover]
#[verifier::rlimit(40)]
pub fn draw_native_video_adjustment_body(
    tab: &mut NativeVideoAdjustmentTab,
    scale: &mut NativeVideoScaleState,
    lut_id: &mut Option<u64>,
    filter_kinds: &[NativeScaleFilterKind],
    anime4k_measuring: bool,
    creative_luts: &[NativeCreativeLutChoice],
    preset_slots: &[Option<String>],
    slot_keys: &[String],
    events: &NativeVideoAdjustmentEvents,
    commands: &mut Vec<NativeOverlayCommand>,
) -> (view: NativeVideoAdjustmentView)
    requires
        slot_keys.len() == NATIVE_VIDEO_ADJUST_SLOTS,
        old(scale).filter < filter_kinds.len(),
    ensures
        ({
            let t = tab_after(*old(tab), events.tab_clicked);
            let filter_on = t == NativeVideoAdjustmentTab::Filter;
            let picked = lut_after_pick(*old(lut_id), filter_on, *events);
            &&& view.tabs.0 == adjustment_tab_colors(
                events.tab_hovered.0,
                *old(tab) == NativeVideoAdjustmentTab::ColorTone,
            )
            &&& view.tabs.1 == adjustment_tab_colors(
                events.tab_hovered.1,
                *old(tab) == NativeVideoAdjustmentTab::Filter && events.tab_clicked != Some(
                    NativeVideoAdjustmentTab::ColorTone,
                ),
            )
            &&& *final(tab) == t
            &&& *final(scale) == (if filter_on {
                scale_after(filter_kinds@, *old(scale), *events)
            } else {
                *old(scale)
            })
            &&& *final(lut_id) == (if events.reset_all_clicked {
                None
            } else {
                picked
            })
            &&& (filter_on <==> view.filter_tab is Some)
            &&& (view.filter_tab matches Some(v) ==> filter_tab_shows(
                v,
                filter_kinds@,
                *old(scale),
                anime4k_measuring,
                *old(lut_id),
                creative_luts@,
                *events,
            ))
            &&& commands_view(final(commands)@) == commands_view(old(commands)@) + adjustment_commands(
                *old(tab),
                filter_kinds@,
                *old(scale),
                anime4k_measuring,
                *old(lut_id),
                preset_slots@,
                *events,
            )
        }),
        view.slots.len() == NATIVE_VIDEO_ADJUST_SLOTS,
        forall|i: int|
            0 <= i < NATIVE_VIDEO_ADJUST_SLOTS ==> {
                &&& (#[trigger] view.slots@[i]).load_enabled == (slot_name(preset_slots@, i) is Some)
                &&& view.slots@[i].load_tooltip@ == load_slot_tooltip(
                    slot_keys@[i]@,
                    slot_name(preset_slots@, i),
                )
                &&& view.slots@[i].save_tooltip@ == save_slot_tooltip(
                    slot_keys@[i]@,
                    slot_name(preset_slots@, i),
                )
            },
{
    let ev = events;
    let before = *tab;
    let tone = draw_overlay_button_bg(ev.tab_hovered.0, before == NativeVideoAdjustmentTab::ColorTone);
    let tone_text = if before == NativeVideoAdjustmentTab::ColorTone {
        OverlayColor::White
    } else {
        OverlayColor::Gray(190)
    };
    if ev.tab_clicked == Some(NativeVideoAdjustmentTab::ColorTone) {
        *tab = NativeVideoAdjustmentTab::ColorTone;
    }
    let now = *tab;
    let filter = draw_overlay_button_bg(ev.tab_hovered.1, now == NativeVideoAdjustmentTab::Filter);
    let filter_text = if now == NativeVideoAdjustmentTab::Filter {
        OverlayColor::White
    } else {
        OverlayColor::Gray(190)
    };
    if ev.tab_clicked == Some(NativeVideoAdjustmentTab::Filter) {
        *tab = NativeVideoAdjustmentTab::Filter;
    }
    let shown = *tab;
    let ghost start = commands_view(commands@);
    let ghost old_scale = *scale;
    let ghost old_lut = *lut_id;
    let (changed, persist, filter_tab_view_opt) = tab_events(
        shown, scale, lut_id, filter_kinds, anime4k_measuring, creative_luts, ev, commands,
    );
    let slots = slot_button_list(preset_slots, slot_keys);
    push_slot_commands(preset_slots, ev.load_clicked, ev.save_clicked, commands);
    let ghost after_slots = commands_view(commands@);
    if changed || persist {
        push_command(commands, NativeOverlayCommand::SetVideoAdjustments { persist });
    }
    proof {
        let t = tab_after(before, ev.tab_clicked);
        assert(t == shown);
        let fc = if shown == NativeVideoAdjustmentTab::Filter {
            filter_tab_commands(filter_kinds@, old_scale, anime4k_measuring, *ev)
        } else {
            Seq::empty()
        };
        let sc = slot_commands(preset_slots@, ev.load_clicked, ev.save_clicked);
        let fin = if changed || persist {
            seq![CommandModel::SetVideoAdjustments { persist }]
        } else {
            Seq::empty()
        };
        assert(after_slots == start + fc + sc);
        assert(commands_view(commands@) =~= start + (fc + sc + fin));
        assert(adjustment_commands(before, filter_kinds@, old_scale, anime4k_measuring, old_lut, preset_slots@, *ev)
            =~= fc + sc + fin);
    }
    NativeVideoAdjustmentView {
        tabs: ((tone, tone_text), (filter, filter_text)),
        filter_tab: filter_tab_view_opt,
        slots,
    }
}

} // verus!
