use vstd::prelude::*;

use crate::color::{button_bg, draw_overlay_button_bg, OverlayColor};
use crate::commands::{commands_view, push_command, CommandModel, NativeOverlayCommand, NativeVideoBar};

verus! {

/// The lock button of a HUD bar for one frame: its background is the
/// active blue while the bar is locked, and a click asks to toggle the lock
/// of `bar`.
pub fn draw_native_bar_lock_button(
    hovered: bool,
    clicked: bool,
    locked: bool,
    bar: NativeVideoBar,
    commands: &mut Vec<NativeOverlayCommand>,
) -> (bg: OverlayColor)
    ensures
        bg == button_bg(hovered, locked),
        commands_view(final(commands)@) == commands_view(old(commands)@) + if clicked {
            seq![CommandModel::ToggleBarLock { bar }]
        } else {
            Seq::empty()
        },
{
    let bg = draw_overlay_button_bg(hovered, locked);
    if clicked {
        push_command(commands, NativeOverlayCommand::ToggleBarLock { bar });
    } else {
        assert(commands_view(commands@) =~= commands_view(old(commands)@) + Seq::empty());
    }
    bg
}

/// Nanoseconds between repeated frame steps while a step button is held.
pub const FRAME_STEP_REPEAT_NS: u64 = 100_000_000;

/// A frame-step button being held: its direction and when it last stepped,
/// in nanoseconds on the caller's monotonic clock.
#[derive(Clone, Copy, Debug, PartialEq, Eq, Structural)]
pub struct NativeFrameStepHold {
    pub direction: i32,
    pub last_step_at_ns: u64,
}

/// What one frame of a frame-step button does: the hold it leaves, whether
/// it steps, and whether the button counts as held down.
pub open spec fn frame_step_next(
    hold: Option<NativeFrameStepHold>,
    direction: i32,
    pressed_on_button: bool,
    primary_down: bool,
    now_ns: u64,
) -> (Option<NativeFrameStepHold>, bool, bool) {
    let held = hold matches Some(h) && h.direction == direction;
    let down = pressed_on_button || (primary_down && held);
    if !down {
        (hold, false, false)
    } else if held {
        let h = hold->0;
        if now_ns >= h.last_step_at_ns && now_ns - h.last_step_at_ns >= FRAME_STEP_REPEAT_NS {
            (Some(NativeFrameStepHold { direction, last_step_at_ns: now_ns }), true, true)
        } else {
            (hold, false, true)
        }
    } else {
        (Some(NativeFrameStepHold { direction, last_step_at_ns: now_ns }), true, true)
    }
}

/// A frame-step button for one frame. The button is down while the pointer
/// presses it, or while the primary button stays down after this button
/// started the hold. A new hold steps at once; a continuing hold steps again
/// once 100 ms have passed since its last step. Returns whether it is down.
pub fn draw_native_frame_step_button(
    direction: i32,
    pressed_on_button: bool,
    primary_down: bool,
    now_ns: u64,
    hold: &mut Option<NativeFrameStepHold>,
    commands: &mut Vec<NativeOverlayCommand>,
) -> (down: bool)
    ensures
        ({
            let (h, stepped, d) = frame_step_next(
                *old(hold),
                direction,
                pressed_on_button,
                primary_down,
                now_ns,
            );
            &&& *final(hold) == h
            &&& down == d
            &&& commands_view(final(commands)@) == commands_view(old(commands)@) + if stepped {
                seq![CommandModel::FrameStep { direction }]
            } else {
                Seq::empty()
            }
        }),
{
    let held = match hold {
        Some(state) => state.direction == direction,
        None => false,
    };
    let down = pressed_on_button || (primary_down && held);
    if down {
        if held {
            let last = hold.unwrap().last_step_at_ns;
            if now_ns >= last && now_ns - last >= FRAME_STEP_REPEAT_NS {
                *hold = Some(NativeFrameStepHold { direction, last_step_at_ns: now_ns });
                push_command(commands, NativeOverlayCommand::FrameStep { direction });
            } else {
                assert(commands_view(commands@) =~= commands_view(old(commands)@) + Seq::empty());
            }
        } else {
            *hold = Some(NativeFrameStepHold { direction, last_step_at_ns: now_ns });
            push_command(commands, NativeOverlayCommand::FrameStep { direction });
        }
    } else {
        assert(commands_view(commands@) =~= commands_view(old(commands)@) + Seq::empty());
    }
    down
}

/// While a button is held, it steps at most once per 100 ms: a step on a
/// continuing hold comes at least that long after the previous step, and
/// it restarts the wait from now.
pub proof fn lemma_frame_step_repeat_interval(
    hold: NativeFrameStepHold,
    pressed_on_button: bool,
    primary_down: bool,
    now_ns: u64,
)
    ensures
        ({
            let (h, stepped, _) = frame_step_next(
                Some(hold),
                hold.direction,
                pressed_on_button,
                primary_down,
                now_ns,
            );
            &&& stepped ==> now_ns >= hold.last_step_at_ns + FRAME_STEP_REPEAT_NS
            &&& stepped ==> h == Some(NativeFrameStepHold { direction: hold.direction, last_step_at_ns: now_ns })
            &&& !stepped ==> h == Some(hold)
        }),
{
}

/// Pressing a button that no hold is running for steps at once and starts a
/// hold in its direction.
pub proof fn lemma_frame_step_fresh_press(
    hold: Option<NativeFrameStepHold>,
    direction: i32,
    primary_down: bool,
    now_ns: u64,
)
    requires
        !(hold matches Some(h) && h.direction == direction),
    ensures
        frame_step_next(hold, direction, true, primary_down, now_ns) == (
            Some(NativeFrameStepHold { direction, last_step_at_ns: now_ns }),
            true,
            true,
        ),
{
}

/// What the edge handle that opens a side panel shows.
pub struct NativeTouchPanelHandleView {
    /// The id of the handle's area and of its hit region.
    pub area_id: String,
    pub hit_id: String,
    /// A lighter blue while hovered.
    pub fill: OverlayColor,
    pub outline: OverlayColor,
    /// Which way the arrow points: 1 to the right (into the screen from the
    /// left edge), -1 to the left.
    pub arrow_direction: i32,
    pub tooltip: String,
    /// Whether the handle was clicked.
    pub clicked: bool,
}

/// The handle on the `left` or right edge that opens a side panel, for one frame.
pub fn draw_native_touch_panel_handle(left: bool, hovered: bool, clicked: bool) -> (v: NativeTouchPanelHandleView)
    ensures
        v.area_id@ == (if left {
            "native_left_touch_panel_handle"@
        } else {
            "native_right_touch_panel_handle"@
        }),
        v.hit_id@ == (if left {
            "native_left_touch_panel_handle_hit"@
        } else {
            "native_right_touch_panel_handle_hit"@
        }),
        v.fill == (if hovered {
            OverlayColor::RgbaUnmultiplied(65, 125, 205, 235)
        } else {
            OverlayColor::RgbaUnmultiplied(35, 70, 115, 210)
        }),
        v.outline == OverlayColor::Rgb(95, 175, 255),
        v.arrow_direction == (if left { 1i32 } else { -1i32 }),
        v.tooltip@ == "パネルを開く"@,
        v.clicked == clicked,
{
    let area_id = if left {
        "native_left_touch_panel_handle".to_owned()
    } else {
        "native_right_touch_panel_handle".to_owned()
    };
    let hit_id = if left {
        "native_left_touch_panel_handle_hit".to_owned()
    } else {
        "native_right_touch_panel_handle_hit".to_owned()
    };
    let fill = if hovered {
        OverlayColor::RgbaUnmultiplied(65, 125, 205, 235)
    } else {
        OverlayColor::RgbaUnmultiplied(35, 70, 115, 210)
    };
    NativeTouchPanelHandleView {
        area_id,
        hit_id,
        fill,
        outline: OverlayColor::Rgb(95, 175, 255),
        arrow_direction: if left { 1 } else { -1 },
        tooltip: "パネルを開く".to_owned(),
        clicked,
    }
}

/// The colour of the video zoom glyph: white when zoom can be reset, else gray.
pub fn draw_overlay_video_zoom_icon(enabled: bool) -> (c: OverlayColor)
    ensures
        c == (if enabled { OverlayColor::White } else { OverlayColor::Gray(110) }),
{
    if enabled { OverlayColor::White } else { OverlayColor::Gray(110) }
}

/// The colour of the panorama reset glyph: white when there is a view to
/// reset, else a translucent gray.
pub fn draw_overlay_panorama_reset_icon(enabled: bool) -> (c: OverlayColor)
    ensures
        c == (if enabled {
            OverlayColor::White
        } else {
            OverlayColor::RgbaUnmultiplied(180, 180, 180, 140)
        }),
{
    if enabled {
        OverlayColor::White
    } else {
        OverlayColor::RgbaUnmultiplied(180, 180, 180, 140)
    }
}

/// How the info glyph is drawn: blue, with a pointer beside it, when the
/// panel opens on click; plain white otherwise.
pub fn draw_overlay_info_icon(click_to_show: bool) -> (r: (OverlayColor, bool))
    ensures
        r == (if click_to_show {
            (OverlayColor::Rgb(95, 175, 255), true)
        } else {
            (OverlayColor::White, false)
        }),
{
    if click_to_show {
        (OverlayColor::Rgb(95, 175, 255), true)
    } else {
        (OverlayColor::White, false)
    }
}

/// How the skip-to-marker glyph is drawn: its colour (faded when there is
/// no marker to skip to) and the side its bar stands on (-1 for the previous
/// marker, 1 for the next).
pub fn draw_overlay_skip_to_marker_icon(direction: i32, enabled: bool) -> (r: (OverlayColor, i32))
    ensures
        r.0 == (if enabled {
            OverlayColor::Rgb(238, 238, 238)
        } else {
            OverlayColor::RgbaUnmultiplied(238, 238, 238, 90)
        }),
        r.1 == (if direction < 0 { -1i32 } else { 1i32 }),
{
    let color = if enabled {
        OverlayColor::Rgb(238, 238, 238)
    } else {
        OverlayColor::RgbaUnmultiplied(238, 238, 238, 90)
    };
    (color, if direction < 0 { -1 } else { 1 })
}

/// The fill and outline colours of a ring picker label: darker blue and a
/// brighter outline on the selected segment.
pub fn draw_native_ring_segment_label(selected: bool) -> (r: (OverlayColor, OverlayColor))
    ensures
        r == (if selected {
            (OverlayColor::RgbaUnmultiplied(22, 44, 72, 232), OverlayColor::WhiteAlpha(210))
        } else {
            (OverlayColor::RgbaUnmultiplied(0, 0, 0, 214), OverlayColor::WhiteAlpha(150))
        }),
{
    if selected {
        (OverlayColor::RgbaUnmultiplied(22, 44, 72, 232), OverlayColor::WhiteAlpha(210))
    } else {
        (OverlayColor::RgbaUnmultiplied(0, 0, 0, 214), OverlayColor::WhiteAlpha(150))
    }
}

/// The background of a row of the projection popup: blue for the
/// projection in use, gray under the pointer, else none.
pub open spec fn projection_row_bg(is_current: bool, hovered: bool) -> OverlayColor {
    if is_current {
        OverlayColor::RgbaUnmultiplied(80, 140, 220, 200)
    } else if hovered {
        OverlayColor::RgbaUnmultiplied(80, 80, 80, 200)
    } else {
        OverlayColor::Transparent
    }
}

/// The panorama projection popup for one frame, its rows being the
/// projections in their fixed order. Nothing is drawn while it is closed.
/// A click on a row selects that projection and closes the popup; else a
/// press outside both the popup and its button closes it. Returns the rows'
/// backgrounds, or `None` when the popup was closed at the start.
pub fn draw_native_panorama_projection_popup(
    row_count: usize,
    current_row: usize,
    hovered_row: Option<usize>,
    clicked_row: Option<usize>,
    pressed_outside: bool,
    popup_open: &mut bool,
    commands: &mut Vec<NativeOverlayCommand>,
) -> (rows: Option<Vec<OverlayColor>>)
    ensures
        !*old(popup_open) ==> rows is None && !*final(popup_open) && commands_view(final(commands)@)
            == commands_view(old(commands)@),
        *old(popup_open) ==> {
            let selected = match clicked_row {
                Some(r) if r < row_count => Some(r),
                _ => None,
            };
            &&& rows matches Some(v) && v.len() == row_count && forall|i: int|
                0 <= i < row_count ==> #[trigger] v@[i] == projection_row_bg(
                    i == current_row,
                    hovered_row == Some(i as usize),
                )
            &&& *final(popup_open) == (selected is None && !pressed_outside)
            &&& commands_view(final(commands)@) == commands_view(old(commands)@) + match selected {
                Some(r) => seq![CommandModel::SetPanoramaProjection { row: r }],
                None => Seq::empty(),
            }
        },
{
    if !*popup_open {
        return None;
    }
    let mut v: Vec<OverlayColor> = Vec::new();
    let mut i: usize = 0;
    while i < row_count
        invariant
            i <= row_count,
            v.len() == i,
            forall|k: int|
                0 <= k < i ==> #[trigger] v@[k] == projection_row_bg(
                    k == current_row,
                    hovered_row == Some(k as usize),
                ),
        decreases row_count - i,
    {
        let is_current = i == current_row;
        let hovered = hovered_row == Some(i);
        let bg = if is_current {
            OverlayColor::RgbaUnmultiplied(80, 140, 220, 200)
        } else if hovered {
            OverlayColor::RgbaUnmultiplied(80, 80, 80, 200)
        } else {
            OverlayColor::Transparent
        };
        v.push(bg);
        i += 1;
    }
    let selected = match clicked_row {
        Some(r) => if r < row_count { Some(r) } else { None },
        None => None,
    };
    match selected {
        Some(r) => {
            push_command(commands, NativeOverlayCommand::SetPanoramaProjection { row: r });
            *popup_open = false;
        },
        None => {
            assert(commands_view(commands@) =~= commands_view(old(commands)@) + Seq::empty());
            if pressed_outside {
                *popup_open = false;
            }
        },
    }
    Some(v)
}

} // verus!
