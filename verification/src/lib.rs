//! Text, tag and panel logic behind the native video overlay: label and
//! shortcut formatting, metadata text clean-up, tag choice lists and the
//! small state decisions that the overlay widgets take each frame.

pub mod text;
pub mod color;
pub mod commands;
pub mod labels;
pub mod metadata;
pub mod tags;
pub mod picker;
pub mod tag_panel;
pub mod perf;
pub mod status;
pub mod vst3;
pub mod controls;
pub mod jump;
pub mod adjust;
pub mod scroll;
pub mod topbar;
pub mod info_panel;
pub mod bookmarks;
pub mod help;
pub mod ring;
pub mod tiles;
pub mod hud;
