use vstd::prelude::*;

use crate::color::{button_bg, draw_overlay_button_bg, OverlayColor};
use crate::commands::{commands_view, push_command, CommandModel, NativeOverlayCommand};
use crate::labels::{truncate_overlay_text, truncated};
use crate::text::{concat3, decimal, decimal_chars, string_from_chars};
use crate::status::{chain_slot_tooltip, native_vst3_chain_slot_tooltip, NativeOverlayVst3ChainSlot};

verus! {

/// The colours of the button that shows or hides a plug-in's window:
/// its background, the outline of the window glyph and the glyph's fill.
pub struct Vst3GuiIconColors {
    pub bg: OverlayColor,
    pub stroke: OverlayColor,
    pub fill: OverlayColor,
}

/// The window glyph's outline: dark gray when the button is disabled,
/// orange while the window is shown, else gray.
pub open spec fn vst3_gui_icon_stroke(visible: bool, enabled: bool) -> OverlayColor {
    if !enabled {
        OverlayColor::Gray(84)
    } else if visible {
        OverlayColor::Rgb(245, 132, 28)
    } else {
        OverlayColor::Gray(132)
    }
}

/// The window glyph's fill: a faint orange while the window is shown, else a faint gray.
pub open spec fn vst3_gui_icon_fill(visible: bool) -> OverlayColor {
    if visible {
        OverlayColor::RgbaUnmultiplied(245, 132, 28, 34)
    } else {
        OverlayColor::RgbaUnmultiplied(132, 132, 132, 20)
    }
}

/// The colours that the plug-in window button is painted with; the glyph
/// itself is a 15 by 12 point box centred in the button.
pub fn draw_overlay_vst3_gui_icon(hovered: bool, visible: bool, enabled: bool) -> (c: Vst3GuiIconColors)
    ensures
        c.bg == button_bg(hovered, visible),
        c.stroke == vst3_gui_icon_stroke(visible, enabled),
        c.fill == vst3_gui_icon_fill(visible),
{
    let bg = draw_overlay_button_bg(hovered, visible);
    let stroke = if !enabled {
        OverlayColor::Gray(84)
    } else if visible {
        OverlayColor::Rgb(245, 132, 28)
    } else {
        OverlayColor::Gray(132)
    };
    let fill = if visible {
        OverlayColor::RgbaUnmultiplied(245, 132, 28, 34)
    } else {
        OverlayColor::RgbaUnmultiplied(132, 132, 132, 20)
    };
    Vst3GuiIconColors { bg, stroke, fill }
}

/// The load state of a plug-in in the chain.
#[derive(Clone, Copy, Debug, PartialEq, Eq, Structural)]
pub enum NativeOverlayVst3SlotState {
    Ready,
    Loading,
    Error,
}

/// One plug-in of the audio chain, as its row reads it.
#[derive(Clone, Debug)]
pub struct NativeOverlayVst3Slot {
    /// The slot's place in the chain, from 0.
    pub idx: usize,
    pub name: String,
    pub path: String,
    /// Whether the plug-in is switched off.
    pub bypass: bool,
    /// Whether the row stands for a plug-in still being read in.
    pub placeholder: bool,
    pub state: NativeOverlayVst3SlotState,
    /// Whether the plug-in reports a latency above zero.
    pub has_latency: bool,
    /// Whether it was switched off for its latency.
    pub auto_bypassed_for_latency: bool,
    /// Whether its window is shown.
    pub gui_visible: bool,
}

/// A small state label after the checkbox.
#[derive(Clone, Copy, Debug, PartialEq, Eq, Structural)]
pub enum Vst3SlotStatus {
    /// "読込中", gray.
    Reading,
    /// "loading", light blue.
    Loading,
    /// "error", red.
    Error,
}

/// What a plug-in row shows.
pub struct NativeVst3SlotRowView {
    /// "N. name", cut to 42 characters.
    pub label: String,
    /// Whether the on/off checkbox can be used.
    pub checkbox_enabled: bool,
    /// Whether the checkbox is drawn ticked (the plug-in is on).
    pub checked: bool,
    pub status: Option<Vst3SlotStatus>,
    /// Whether the latency is shown (in milliseconds, by the caller).
    pub show_latency: bool,
    /// Whether "auto-OFF" is shown.
    pub show_auto_off: bool,
    pub gui_icon: Vst3GuiIconColors,
    pub gui_tooltip: String,
}

/// The status label of a row.
pub open spec fn vst3_slot_status(placeholder: bool, state: NativeOverlayVst3SlotState) -> Option<Vst3SlotStatus> {
    if placeholder {
        Some(Vst3SlotStatus::Reading)
    } else if state == NativeOverlayVst3SlotState::Loading {
        Some(Vst3SlotStatus::Loading)
    } else if state == NativeOverlayVst3SlotState::Error {
        Some(Vst3SlotStatus::Error)
    } else {
        None
    }
}

/// The commands for a row: switching the plug-in when its checkbox was
/// toggled, then showing or hiding its window when that button was clicked;
/// both only for a loaded plug-in, as a placeholder row's controls are
/// disabled.
pub open spec fn vst3_row_commands(
    idx: usize,
    path: Seq<char>,
    bypass: bool,
    placeholder: bool,
    gui_visible: bool,
    checkbox_toggled: bool,
    gui_clicked: bool,
) -> Seq<CommandModel> {
    let a = if checkbox_toggled && !placeholder {
        seq![CommandModel::Vst3SetBypass { idx, path, bypass: !bypass }]
    } else {
        Seq::empty()
    };
    let b = if gui_clicked && !placeholder {
        if gui_visible {
            seq![CommandModel::Vst3HideSlotGui { idx, path }]
        } else {
            seq![CommandModel::Vst3ShowSlotGui { idx, path }]
        }
    } else {
        Seq::empty()
    };
    a + b
}

/// The row of one plug-in for one frame. `checkbox_toggled` is a click that
/// flipped its on/off checkbox; `gui_hovered` and `gui_clicked` are the
/// pointer on and a click on its window button.
pub fn draw_native_vst3_slot_row(
    slot: &NativeOverlayVst3Slot,
    checkbox_toggled: bool,
    gui_hovered: bool,
    gui_clicked: bool,
    commands: &mut Vec<NativeOverlayCommand>,
) -> (view: NativeVst3SlotRowView)
    requires
        slot.idx < usize::MAX,
    ensures
        view.label@ == truncated(decimal(slot.idx as nat + 1) + ". "@ + slot.name@, 42),
        view.checkbox_enabled == !slot.placeholder,
        view.checked == !slot.bypass,
        view.status == vst3_slot_status(slot.placeholder, slot.state),
        view.show_latency == (slot.has_latency && !slot.bypass),
        view.show_auto_off == (slot.auto_bypassed_for_latency && slot.bypass),
        view.gui_icon.bg == button_bg(gui_hovered, slot.gui_visible),
        view.gui_icon.stroke == vst3_gui_icon_stroke(slot.gui_visible, !slot.placeholder),
        view.gui_icon.fill == vst3_gui_icon_fill(slot.gui_visible),
        view.gui_tooltip@ == (if slot.gui_visible {
            "プラグイン GUI を閉じる"@
        } else {
            "プラグイン GUI を表示"@
        }),
        commands_view(final(commands)@) == commands_view(old(commands)@) + vst3_row_commands(
            slot.idx,
            slot.path@,
            slot.bypass,
            slot.placeholder,
            slot.gui_visible,
            checkbox_toggled,
            gui_clicked,
        ),
        slot.placeholder ==> commands_view(final(commands)@) == commands_view(old(commands)@),
{
    let ghost start = commands_view(commands@);
    let digits = decimal_chars((slot.idx + 1) as u64);
    let number = string_from_chars(&digits);
    let full = concat3(number.as_str(), ". ", slot.name.as_str());
    let label = truncate_overlay_text(full.as_str(), 42);
    if checkbox_toggled && !slot.placeholder {
        push_command(
            commands,
            NativeOverlayCommand::Vst3SetBypass { idx: slot.idx, path: slot.path.clone(), bypass: !slot.bypass },
        );
    }
    let ghost mid = commands_view(commands@);
    let status = if slot.placeholder {
        Some(Vst3SlotStatus::Reading)
    } else if slot.state == NativeOverlayVst3SlotState::Loading {
        Some(Vst3SlotStatus::Loading)
    } else if slot.state == NativeOverlayVst3SlotState::Error {
        Some(Vst3SlotStatus::Error)
    } else {
        None
    };
    let gui_icon = draw_overlay_vst3_gui_icon(gui_hovered, slot.gui_visible, !slot.placeholder);
    let gui_tooltip = if slot.gui_visible {
        "プラグイン GUI を閉じる".to_owned()
    } else {
        "プラグイン GUI を表示".to_owned()
    };
    if gui_clicked && !slot.placeholder {
        if slot.gui_visible {
            push_command(commands, NativeOverlayCommand::Vst3HideSlotGui { idx: slot.idx, path: slot.path.clone() });
        } else {
            push_command(commands, NativeOverlayCommand::Vst3ShowSlotGui { idx: slot.idx, path: slot.path.clone() });
        }
    }
    NativeVst3SlotRowView {
        label,
        checkbox_enabled: !slot.placeholder,
        checked: !slot.bypass,
        status,
        show_latency: slot.has_latency && !slot.bypass,
        show_auto_off: slot.auto_bypassed_for_latency && slot.bypass,
        gui_icon,
        gui_tooltip,
    }
}

/// The VST3 panel's content.
#[derive(Clone, Debug)]
pub struct NativeOverlayVst3Panel {
    /// The chain's state, shown beside the title.
    pub state_text: String,
    /// Why VST3 is paused for this session, if it is.
    pub disabled_reason: Option<String>,
    /// Whether the video is shrunk to the top right quarter.
    pub video_compact: bool,
    pub slots: Vec<NativeOverlayVst3Slot>,
    pub chain_slots: Vec<NativeOverlayVst3ChainSlot>,
}

/// What happened in the VST3 panel in one frame: the video size buttons,
/// a plug-in row's checkbox or window button (by row), and a chain slot's
/// load or save button (by slot).
#[derive(Clone, Copy, Debug)]
pub struct NativeVst3PanelEvents {
    pub full_clicked: bool,
    pub compact_clicked: bool,
    pub slot_toggled: Option<usize>,
    pub slot_gui_hovered: Option<usize>,
    pub slot_gui_clicked: Option<usize>,
    pub load_clicked: Option<usize>,
    pub save_clicked: Option<usize>,
}

/// A chain slot's buttons: its key, whether "load" works, and the tooltip.
pub struct NativeVst3ChainButton {
    pub key_label: String,
    pub load_enabled: bool,
    pub tooltip: String,
}

/// What the VST3 panel shows in one frame.
pub enum NativeVst3PanelView {
    /// VST3 is paused: the notice and its reason.
    Paused { reason: String },
    Active {
        /// Whether "フル" and "右上 1/4" are drawn selected.
        video_modes: (bool, bool),
        /// The rows; none means "プラグイン未設定" is shown.
        rows: Vec<NativeVst3SlotRowView>,
        chain_buttons: Vec<NativeVst3ChainButton>,
    },
}

/// The commands of the plug-in rows, row by row.
pub open spec fn slot_rows_commands(slots: Seq<NativeOverlayVst3Slot>, ev: NativeVst3PanelEvents) -> Seq<CommandModel>
    decreases slots.len(),
{
    if slots.len() == 0 {
        Seq::empty()
    } else {
        let i = slots.len() - 1;
        let s = slots.last();
        slot_rows_commands(slots.drop_last(), ev) + vst3_row_commands(
            s.idx,
            s.path@,
            s.bypass,
            s.placeholder,
            s.gui_visible,
            ev.slot_toggled == Some(i as usize),
            ev.slot_gui_clicked == Some(i as usize),
        )
    }
}

/// The commands of the chain slot buttons: loading a slot that holds a
/// chain, then saving.
pub open spec fn chain_slot_commands(chains: Seq<NativeOverlayVst3ChainSlot>, ev: NativeVst3PanelEvents) -> Seq<CommandModel> {
    (match ev.load_clicked {
        Some(i) if i < chains.len() && chains[i as int].name is Some => seq![
            CommandModel::Vst3LoadChainSlot { slot_idx: chains[i as int].idx },
        ],
        _ => Seq::empty(),
    }) + (match ev.save_clicked {
        Some(i) if i < chains.len() => seq![CommandModel::Vst3SaveChainSlot { slot_idx: chains[i as int].idx }],
        _ => Seq::empty(),
    })
}

/// The commands of the panel while VST3 runs: the video size buttons, the
/// rows', then the chain slots'.
pub open spec fn vst3_panel_commands(panel: NativeOverlayVst3Panel, ev: NativeVst3PanelEvents) -> Seq<CommandModel> {
    (if ev.full_clicked { seq![CommandModel::SetVst3VideoCompact { compact: false }] } else { Seq::empty() })
        + (if ev.compact_clicked { seq![CommandModel::SetVst3VideoCompact { compact: true }] } else { Seq::empty() })
        + slot_rows_commands(panel.slots@, ev) + chain_slot_commands(panel.chain_slots@, ev)
}

/// The VST3 panel for one frame (its position on screen is the caller's).
/// While VST3 is paused it only says why; otherwise it offers the video
/// size, the plug-in rows and the saved chain slots.
pub fn draw_native_vst3_panel(
    panel: &NativeOverlayVst3Panel,
    events: NativeVst3PanelEvents,
    commands: &mut Vec<NativeOverlayCommand>,
) -> (view: NativeVst3PanelView)
    requires
        forall|i: int| 0 <= i < panel.slots@.len() ==> (#[trigger] panel.slots@[i]).idx < usize::MAX,
    ensures
        panel.disabled_reason matches Some(r) ==> (view matches NativeVst3PanelView::Paused { reason } && reason@
            == r@) && commands_view(final(commands)@) == commands_view(old(commands)@),
        panel.disabled_reason is None ==> {
            &&& (view matches NativeVst3PanelView::Active { video_modes, rows, chain_buttons } && {
                &&& video_modes == (!panel.video_compact, panel.video_compact)
                &&& rows.len() == panel.slots.len()
                &&& forall|i: int| 0 <= i < rows.len() ==> {
                    &&& (#[trigger] rows@[i]).label@ == truncated(
                        decimal(panel.slots@[i].idx as nat + 1) + ". "@ + panel.slots@[i].name@,
                        42,
                    )
                    &&& rows@[i].status == vst3_slot_status(panel.slots@[i].placeholder, panel.slots@[i].state)
                    &&& rows@[i].gui_icon.bg == button_bg(events.slot_gui_hovered == Some(i as usize), panel.slots@[i].gui_visible)
                }
                &&& chain_buttons.len() == panel.chain_slots.len()
                &&& forall|i: int| 0 <= i < chain_buttons.len() ==> {
                    &&& (#[trigger] chain_buttons@[i]).key_label@ == panel.chain_slots@[i].key_label@
                    &&& chain_buttons@[i].load_enabled == (panel.chain_slots@[i].name is Some)
                    &&& chain_buttons@[i].tooltip@ == chain_slot_tooltip(
                        panel.chain_slots@[i].key_label@,
                        match panel.chain_slots@[i].name {
                            Some(n) => Some(n@),
                            None => None,
                        },
                        panel.chain_slots@[i].plugin_count as nat,
                    )
                }
            })
            &&& commands_view(final(commands)@) == commands_view(old(commands)@) + vst3_panel_commands(*panel, events)
        },
{
    match &panel.disabled_reason {
        Some(r) => {
            assert(commands_view(commands@) =~= commands_view(old(commands)@));
            return NativeVst3PanelView::Paused { reason: r.clone() };
        },
        None => {},
    }
    let ghost start = commands_view(commands@);
    if events.full_clicked {
        push_command(commands, NativeOverlayCommand::SetVst3VideoCompact { compact: false });
    }
    if events.compact_clicked {
        push_command(commands, NativeOverlayCommand::SetVst3VideoCompact { compact: true });
    }
    let ghost after_modes = commands_view(commands@);
    let ghost slots = panel.slots@;
    let mut rows: Vec<NativeVst3SlotRowView> = Vec::new();
    let mut i: usize = 0;
    while i < panel.slots.len()
        invariant
            i <= panel.slots.len(),
            slots == panel.slots@,
            forall|k: int| 0 <= k < slots.len() ==> (#[trigger] slots[k]).idx < usize::MAX,
            rows.len() == i,
            forall|k: int| 0 <= k < i ==> {
                &&& (#[trigger] rows@[k]).label@ == truncated(
                    decimal(slots[k].idx as nat + 1) + ". "@ + slots[k].name@,
                    42,
                )
                &&& rows@[k].status == vst3_slot_status(slots[k].placeholder, slots[k].state)
                &&& rows@[k].gui_icon.bg == button_bg(events.slot_gui_hovered == Some(k as usize), slots[k].gui_visible)
            },
            commands_view(commands@) == after_modes + slot_rows_commands(slots.take(i as int), events),
        decreases panel.slots.len() - i,
    {
        assert(slots.take(i + 1).drop_last() =~= slots.take(i as int));
        assert(slots.take(i + 1).last() == slots[i as int]);
        let r = draw_native_vst3_slot_row(
            &panel.slots[i],
            events.slot_toggled == Some(i),
            events.slot_gui_hovered == Some(i),
            events.slot_gui_clicked == Some(i),
            commands,
        );
        rows.push(r);
        i += 1;
    }
    assert(slots.take(i as int) =~= slots);
    let ghost after_rows = commands_view(commands@);
    let ghost chains = panel.chain_slots@;
    let mut chain_buttons: Vec<NativeVst3ChainButton> = Vec::new();
    let mut j: usize = 0;
    while j < panel.chain_slots.len()
        invariant
            j <= panel.chain_slots.len(),
            chains == panel.chain_slots@,
            chain_buttons.len() == j,
            forall|k: int| 0 <= k < j ==> {
                &&& (#[trigger] chain_buttons@[k]).key_label@ == chains[k].key_label@
                &&& chain_buttons@[k].load_enabled == (chains[k].name is Some)
                &&& chain_buttons@[k].tooltip@ == chain_slot_tooltip(
                    chains[k].key_label@,
                    match chains[k].name {
                        Some(n) => Some(n@),
                        None => None,
                    },
                    chains[k].plugin_count as nat,
                )
            },
        decreases panel.chain_slots.len() - j,
    {
        let c = &panel.chain_slots[j];
        let b = NativeVst3ChainButton {
            key_label: c.key_label.clone(),
            load_enabled: c.name.is_some(),
            tooltip: native_vst3_chain_slot_tooltip(c),
        };
        chain_buttons.push(b);
        j += 1;
    }
    match events.load_clicked {
        Some(k) => {
            if k < panel.chain_slots.len() && panel.chain_slots[k].name.is_some() {
                push_command(commands, NativeOverlayCommand::Vst3LoadChainSlot { slot_idx: panel.chain_slots[k].idx });
            }
        },
        None => {},
    }
    let ghost after_load = commands_view(commands@);
    match events.save_clicked {
        Some(k) => {
            if k < panel.chain_slots.len() {
                push_command(commands, NativeOverlayCommand::Vst3SaveChainSlot { slot_idx: panel.chain_slots[k].idx });
            }
        },
        None => {},
    }
    proof {
        let load = match events.load_clicked {
            Some(i) if i < chains.len() && chains[i as int].name is Some => seq![
                CommandModel::Vst3LoadChainSlot { slot_idx: chains[i as int].idx },
            ],
            _ => Seq::<CommandModel>::empty(),
        };
        assert(after_load =~= after_rows + load);
        assert(commands_view(commands@) =~= commands_view(old(commands)@) + vst3_panel_commands(*panel, events));
    }
    NativeVst3PanelView::Active {
        video_modes: (!panel.video_compact, panel.video_compact),
        rows,
        chain_buttons,
    }
}

} // verus!
