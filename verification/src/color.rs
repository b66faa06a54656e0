use vstd::prelude::*;

verus! {

/// A colour as the overlay names it, by the constructor it is built with:
/// opaque RGB, opaque gray, RGBA with straight alpha, white with an alpha,
/// plain white, or fully transparent.
#[derive(Clone, Copy, Debug, PartialEq, Eq, Structural)]
pub enum OverlayColor {
    Rgb(u8, u8, u8),
    Gray(u8),
    RgbaUnmultiplied(u8, u8, u8, u8),
    WhiteAlpha(u8),
    White,
    Transparent,
}

/// The dim layer laid over the video behind the HUD.
pub fn native_hud_dim_color() -> (c: OverlayColor)
    ensures
        c == OverlayColor::RgbaUnmultiplied(0, 0, 0, 86),
{
    OverlayColor::RgbaUnmultiplied(0, 0, 0, 86)
}

/// The background of an overlay button: blue while active, a faint white
/// while hovered, else nothing.
pub open spec fn button_bg(hovered: bool, active: bool) -> OverlayColor {
    if active {
        OverlayColor::RgbaUnmultiplied(80, 140, 220, 190)
    } else if hovered {
        OverlayColor::RgbaUnmultiplied(255, 255, 255, 34)
    } else {
        OverlayColor::Transparent
    }
}

/// The colour an overlay button's background is filled with.
pub fn draw_overlay_button_bg(hovered: bool, active: bool) -> (c: OverlayColor)
    ensures
        c == button_bg(hovered, active),
{
    if active {
        OverlayColor::RgbaUnmultiplied(80, 140, 220, 190)
    } else if hovered {
        OverlayColor::RgbaUnmultiplied(255, 255, 255, 34)
    } else {
        OverlayColor::Transparent
    }
}

} // verus!
