use vstd::prelude::*;

verus! {

/// A scroll bar style, its widths in whole points.
#[derive(Clone, Copy, Debug, PartialEq, Eq, Structural)]
pub struct NativeScrollStyle {
    /// Whether the bar floats over the content instead of taking room beside it.
    pub floating: bool,
    pub bar_width: u32,
    pub bar_inner_margin: u32,
    pub bar_outer_margin: u32,
    /// The room kept for a bar that floats.
    pub floating_allocated_width: u32,
    /// Whether the bar is drawn in the foreground colour.
    pub foreground_color: bool,
}

impl NativeScrollStyle {
    /// The room the bar takes beside the content: for a floating bar the
    /// room kept for it, else its inner margin, its width and its outer
    /// margin.
    pub fn allocated_width(&self) -> (w: u32)
        requires
            !self.floating ==> self.bar_inner_margin + self.bar_width + self.bar_outer_margin <= u32::MAX,
        ensures
            w == (if self.floating {
                self.floating_allocated_width as int
            } else {
                self.bar_inner_margin + self.bar_width + self.bar_outer_margin
            }),
    {
        if self.floating {
            self.floating_allocated_width
        } else {
            self.bar_inner_margin + self.bar_width + self.bar_outer_margin
        }
    }
}

/// The metadata panel's scroll bar: a solid bar, 8 points wide with margins
/// of 4 inside and 2 outside (none kept for floating, as a solid bar has),
/// in the foreground colour, so that it stays visible without hovering.
pub fn native_metadata_panel_scroll_style() -> (s: NativeScrollStyle)
    ensures
        s == (NativeScrollStyle {
            floating: false,
            bar_width: 8,
            bar_inner_margin: 4,
            bar_outer_margin: 2,
            floating_allocated_width: 0,
            foreground_color: true,
        }),
{
    NativeScrollStyle {
        floating: false,
        bar_width: 8,
        bar_inner_margin: 4,
        bar_outer_margin: 2,
        floating_allocated_width: 0,
        foreground_color: true,
    }
}

} // verus!
