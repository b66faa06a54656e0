use vstd::prelude::*;

verus! {

/// A bar of the video HUD that can be locked visible.
#[derive(Clone, Copy, Debug, PartialEq, Eq, Structural)]
pub enum NativeVideoBar {
    Top,
    Seek,
}

/// A request that the overlay hands to the player.
#[derive(Clone, Debug)]
pub enum NativeOverlayCommand {
    /// Toggle the tag named `name` on the current item.
    ToggleTag { name: String },
    /// Open the tag view for the tag named `name`.
    OpenTagViewForTag { name: String },
    /// Add the tag named `name` to the current item.
    AddTag { name: String },
    /// Remove the tag named `name` from the current item.
    RemoveTag { name: String },
    /// Toggle whether `bar` stays visible.
    ToggleBarLock { bar: NativeVideoBar },
    /// Step one frame back (`direction < 0`) or forward.
    FrameStep { direction: i32 },
    /// Delete the bookmark `id`.
    DeleteBookmark { id: i64 },
    /// Remove the frame pin.
    DeletePin,
    /// Seek to the jump entry at `entry_idx` in the jump list.
    Seek { entry_idx: usize },
    /// Turn the plug-in in chain slot `idx` off (`bypass`) or on.
    Vst3SetBypass { idx: usize, path: String, bypass: bool },
    /// Hide the plug-in window of slot `idx`.
    Vst3HideSlotGui { idx: usize, path: String },
    /// Show the plug-in window of slot `idx`.
    Vst3ShowSlotGui { idx: usize, path: String },
    /// Use the panorama projection in row `row` of the projection list.
    SetPanoramaProjection { row: usize },
    /// Load the video adjustments saved in slot `slot_idx`.
    VideoAdjustLoadSlot { slot_idx: usize },
    /// Save the current video adjustments in slot `slot_idx`.
    VideoAdjustSaveSlot { slot_idx: usize },
    /// Scale the video with filter `filter` (its place in the filter list)
    /// and smooth downscaling by `smoothing_percent`.
    RequestVideoScaleSettings { filter: usize, smoothing_percent: u32 },
    /// Use Anime4K quality budget `budget` (its place in the budget list).
    SetVideoAnime4kBudget { budget: usize },
    /// Measure Anime4K's cost again.
    RemeasureVideoAnime4k,
    /// Apply the panel's video adjustments, and save them when `persist`.
    SetVideoAdjustments { persist: bool },
    /// Leave the video.
    CloseFullscreen,
    /// Switch between window and full screen.
    ToggleWindowMode,
    /// Turn the 360 degree view (or the zoomed view) on or off.
    TogglePanorama,
    /// Go back to the initial 360 degree view.
    ResetPanorama,
    /// Reset the zoomed view's position and scale.
    ResetVideoZoom,
    /// Switch how the side panels open.
    ToggleSidePanelMode,
    /// Switch to the audio view.
    ToggleAudioMode,
    /// Open or close the thumbnail grid.
    ToggleTileMode,
    /// Show or hide the performance graph.
    TogglePerfOverlay,
    /// Show or hide the VST3 panel.
    ToggleVst3Gui,
    /// Lock the info panel open, or let it go back to showing on demand.
    ToggleInfoPanelLock,
    /// Open or close the info panel that opens on click.
    ToggleClickInfoOpen,
    /// Give the item `stars` stars.
    SetRating { stars: u8 },
    /// Open `url` in the browser.
    OpenExternalUrl { url: String },
    /// Give bookmark `id` the title `title` (empty: no title).
    SetBookmarkTitle { id: i64, title: String },
    /// Copy the current bookmarks to the clipboard, in whole seconds when `seconds_only`.
    ExportBookmarksToClipboard { seconds_only: bool },
    /// Delete every bookmark of the current file.
    ClearAllBookmarksForCurrent,
    /// Register the bookmarks read from the bulk dialog's text.
    BulkAddBookmarks,
    /// Pin the current position.
    SetPinAt,
    /// Bookmark the current position.
    AddBookmarkAt,
    /// Shrink the video to the top right quarter (`compact`) or show it whole.
    SetVst3VideoCompact { compact: bool },
    /// Load the plug-in chain saved in slot `slot_idx`.
    Vst3LoadChainSlot { slot_idx: usize },
    /// Save the plug-in chain in slot `slot_idx`.
    Vst3SaveChainSlot { slot_idx: usize },
    /// Show `delta` more (or fewer) columns of thumbnails.
    TileColumnsDelta { delta: i32 },
    /// Seek to the time of thumbnail `tile_idx`.
    TileSeek { tile_idx: usize },
    /// Stop the loudness scan.
    CancelNormalizeScan,
}

/// The plain value of a command, its strings taken as characters.
pub enum CommandModel {
    ToggleTag { name: Seq<char> },
    OpenTagViewForTag { name: Seq<char> },
    AddTag { name: Seq<char> },
    RemoveTag { name: Seq<char> },
    ToggleBarLock { bar: NativeVideoBar },
    FrameStep { direction: i32 },
    DeleteBookmark { id: i64 },
    DeletePin,
    Seek { entry_idx: usize },
    Vst3SetBypass { idx: usize, path: Seq<char>, bypass: bool },
    Vst3HideSlotGui { idx: usize, path: Seq<char> },
    Vst3ShowSlotGui { idx: usize, path: Seq<char> },
    SetPanoramaProjection { row: usize },
    VideoAdjustLoadSlot { slot_idx: usize },
    VideoAdjustSaveSlot { slot_idx: usize },
    RequestVideoScaleSettings { filter: usize, smoothing_percent: u32 },
    SetVideoAnime4kBudget { budget: usize },
    RemeasureVideoAnime4k,
    SetVideoAdjustments { persist: bool },
    CloseFullscreen,
    ToggleWindowMode,
    TogglePanorama,
    ResetPanorama,
    ResetVideoZoom,
    ToggleSidePanelMode,
    ToggleAudioMode,
    ToggleTileMode,
    TogglePerfOverlay,
    ToggleVst3Gui,
    ToggleInfoPanelLock,
    ToggleClickInfoOpen,
    SetRating { stars: u8 },
    OpenExternalUrl { url: Seq<char> },
    SetBookmarkTitle { id: i64, title: Seq<char> },
    ExportBookmarksToClipboard { seconds_only: bool },
    ClearAllBookmarksForCurrent,
    BulkAddBookmarks,
    SetPinAt,
    AddBookmarkAt,
    SetVst3VideoCompact { compact: bool },
    Vst3LoadChainSlot { slot_idx: usize },
    Vst3SaveChainSlot { slot_idx: usize },
    TileColumnsDelta { delta: i32 },
    TileSeek { tile_idx: usize },
    CancelNormalizeScan,
}

impl View for NativeOverlayCommand {
    type V = CommandModel;

    open spec fn view(&self) -> CommandModel {
        match self {
            NativeOverlayCommand::ToggleTag { name } => CommandModel::ToggleTag { name: name@ },
            NativeOverlayCommand::OpenTagViewForTag { name } => CommandModel::OpenTagViewForTag {
                name: name@,
            },
            NativeOverlayCommand::AddTag { name } => CommandModel::AddTag { name: name@ },
            NativeOverlayCommand::RemoveTag { name } => CommandModel::RemoveTag { name: name@ },
            NativeOverlayCommand::ToggleBarLock { bar } => CommandModel::ToggleBarLock { bar: *bar },
            NativeOverlayCommand::FrameStep { direction } => CommandModel::FrameStep {
                direction: *direction,
            },
            NativeOverlayCommand::DeleteBookmark { id } => CommandModel::DeleteBookmark { id: *id },
            NativeOverlayCommand::DeletePin => CommandModel::DeletePin,
            NativeOverlayCommand::Seek { entry_idx } => CommandModel::Seek { entry_idx: *entry_idx },
            NativeOverlayCommand::Vst3SetBypass { idx, path, bypass } => CommandModel::Vst3SetBypass {
                idx: *idx,
                path: path@,
                bypass: *bypass,
            },
            NativeOverlayCommand::Vst3HideSlotGui { idx, path } => CommandModel::Vst3HideSlotGui {
                idx: *idx,
                path: path@,
            },
            NativeOverlayCommand::Vst3ShowSlotGui { idx, path } => CommandModel::Vst3ShowSlotGui {
                idx: *idx,
                path: path@,
            },
            NativeOverlayCommand::SetPanoramaProjection { row } => CommandModel::SetPanoramaProjection {
                row: *row,
            },
            NativeOverlayCommand::VideoAdjustLoadSlot { slot_idx } => CommandModel::VideoAdjustLoadSlot {
                slot_idx: *slot_idx,
            },
            NativeOverlayCommand::VideoAdjustSaveSlot { slot_idx } => CommandModel::VideoAdjustSaveSlot {
                slot_idx: *slot_idx,
            },
            NativeOverlayCommand::RequestVideoScaleSettings { filter, smoothing_percent } =>
                CommandModel::RequestVideoScaleSettings { filter: *filter, smoothing_percent: *smoothing_percent },
            NativeOverlayCommand::SetVideoAnime4kBudget { budget } => CommandModel::SetVideoAnime4kBudget {
                budget: *budget,
            },
            NativeOverlayCommand::RemeasureVideoAnime4k => CommandModel::RemeasureVideoAnime4k,
            NativeOverlayCommand::SetVideoAdjustments { persist } => CommandModel::SetVideoAdjustments {
                persist: *persist,
            },
            NativeOverlayCommand::CloseFullscreen => CommandModel::CloseFullscreen,
            NativeOverlayCommand::ToggleWindowMode => CommandModel::ToggleWindowMode,
            NativeOverlayCommand::TogglePanorama => CommandModel::TogglePanorama,
            NativeOverlayCommand::ResetPanorama => CommandModel::ResetPanorama,
            NativeOverlayCommand::ResetVideoZoom => CommandModel::ResetVideoZoom,
            NativeOverlayCommand::ToggleSidePanelMode => CommandModel::ToggleSidePanelMode,
            NativeOverlayCommand::ToggleAudioMode => CommandModel::ToggleAudioMode,
            NativeOverlayCommand::ToggleTileMode => CommandModel::ToggleTileMode,
            NativeOverlayCommand::TogglePerfOverlay => CommandModel::TogglePerfOverlay,
            NativeOverlayCommand::ToggleVst3Gui => CommandModel::ToggleVst3Gui,
            NativeOverlayCommand::ToggleInfoPanelLock => CommandModel::ToggleInfoPanelLock,
            NativeOverlayCommand::ToggleClickInfoOpen => CommandModel::ToggleClickInfoOpen,
            NativeOverlayCommand::SetRating { stars } => CommandModel::SetRating { stars: *stars },
            NativeOverlayCommand::OpenExternalUrl { url } => CommandModel::OpenExternalUrl { url: url@ },
            NativeOverlayCommand::SetBookmarkTitle { id, title } => CommandModel::SetBookmarkTitle {
                id: *id,
                title: title@,
            },
            NativeOverlayCommand::ExportBookmarksToClipboard { seconds_only } => CommandModel::ExportBookmarksToClipboard {
                seconds_only: *seconds_only,
            },
            NativeOverlayCommand::ClearAllBookmarksForCurrent => CommandModel::ClearAllBookmarksForCurrent,
            NativeOverlayCommand::BulkAddBookmarks => CommandModel::BulkAddBookmarks,
            NativeOverlayCommand::SetPinAt => CommandModel::SetPinAt,
            NativeOverlayCommand::AddBookmarkAt => CommandModel::AddBookmarkAt,
            NativeOverlayCommand::SetVst3VideoCompact { compact } => CommandModel::SetVst3VideoCompact {
                compact: *compact,
            },
            NativeOverlayCommand::Vst3LoadChainSlot { slot_idx } => CommandModel::Vst3LoadChainSlot {
                slot_idx: *slot_idx,
            },
            NativeOverlayCommand::Vst3SaveChainSlot { slot_idx } => CommandModel::Vst3SaveChainSlot {
                slot_idx: *slot_idx,
            },
            NativeOverlayCommand::TileColumnsDelta { delta } => CommandModel::TileColumnsDelta { delta: *delta },
            NativeOverlayCommand::TileSeek { tile_idx } => CommandModel::TileSeek { tile_idx: *tile_idx },
            NativeOverlayCommand::CancelNormalizeScan => CommandModel::CancelNormalizeScan,
        }
    }
}

impl NativeOverlayCommand {
    /// A copy of the command.
    pub fn clone_command(&self) -> (c: NativeOverlayCommand)
        ensures
            c@ == self@,
    {
        match self {
            NativeOverlayCommand::ToggleTag { name } => NativeOverlayCommand::ToggleTag { name: name.clone() },
            NativeOverlayCommand::OpenTagViewForTag { name } => NativeOverlayCommand::OpenTagViewForTag {
                name: name.clone(),
            },
            NativeOverlayCommand::AddTag { name } => NativeOverlayCommand::AddTag { name: name.clone() },
            NativeOverlayCommand::RemoveTag { name } => NativeOverlayCommand::RemoveTag { name: name.clone() },
            NativeOverlayCommand::ToggleBarLock { bar } => NativeOverlayCommand::ToggleBarLock { bar: *bar },
            NativeOverlayCommand::FrameStep { direction } => NativeOverlayCommand::FrameStep {
                direction: *direction,
            },
            NativeOverlayCommand::DeleteBookmark { id } => NativeOverlayCommand::DeleteBookmark { id: *id },
            NativeOverlayCommand::DeletePin => NativeOverlayCommand::DeletePin,
            NativeOverlayCommand::Seek { entry_idx } => NativeOverlayCommand::Seek { entry_idx: *entry_idx },
            NativeOverlayCommand::Vst3SetBypass { idx, path, bypass } => NativeOverlayCommand::Vst3SetBypass {
                idx: *idx,
                path: path.clone(),
                bypass: *bypass,
            },
            NativeOverlayCommand::Vst3HideSlotGui { idx, path } => NativeOverlayCommand::Vst3HideSlotGui {
                idx: *idx,
                path: path.clone(),
            },
            NativeOverlayCommand::Vst3ShowSlotGui { idx, path } => NativeOverlayCommand::Vst3ShowSlotGui {
                idx: *idx,
                path: path.clone(),
            },
            NativeOverlayCommand::SetPanoramaProjection { row } => NativeOverlayCommand::SetPanoramaProjection {
                row: *row,
            },
            NativeOverlayCommand::VideoAdjustLoadSlot { slot_idx } => NativeOverlayCommand::VideoAdjustLoadSlot {
                slot_idx: *slot_idx,
            },
            NativeOverlayCommand::VideoAdjustSaveSlot { slot_idx } => NativeOverlayCommand::VideoAdjustSaveSlot {
                slot_idx: *slot_idx,
            },
            NativeOverlayCommand::RequestVideoScaleSettings { filter, smoothing_percent } =>
                NativeOverlayCommand::RequestVideoScaleSettings {
                    filter: *filter,
                    smoothing_percent: *smoothing_percent,
                },
            NativeOverlayCommand::SetVideoAnime4kBudget { budget } => NativeOverlayCommand::SetVideoAnime4kBudget {
                budget: *budget,
            },
            NativeOverlayCommand::RemeasureVideoAnime4k => NativeOverlayCommand::RemeasureVideoAnime4k,
            NativeOverlayCommand::SetVideoAdjustments { persist } => NativeOverlayCommand::SetVideoAdjustments {
                persist: *persist,
            },
            NativeOverlayCommand::CloseFullscreen => NativeOverlayCommand::CloseFullscreen,
            NativeOverlayCommand::ToggleWindowMode => NativeOverlayCommand::ToggleWindowMode,
            NativeOverlayCommand::TogglePanorama => NativeOverlayCommand::TogglePanorama,
            NativeOverlayCommand::ResetPanorama => NativeOverlayCommand::ResetPanorama,
            NativeOverlayCommand::ResetVideoZoom => NativeOverlayCommand::ResetVideoZoom,
            NativeOverlayCommand::ToggleSidePanelMode => NativeOverlayCommand::ToggleSidePanelMode,
            NativeOverlayCommand::ToggleAudioMode => NativeOverlayCommand::ToggleAudioMode,
            NativeOverlayCommand::ToggleTileMode => NativeOverlayCommand::ToggleTileMode,
            NativeOverlayCommand::TogglePerfOverlay => NativeOverlayCommand::TogglePerfOverlay,
            NativeOverlayCommand::ToggleVst3Gui => NativeOverlayCommand::ToggleVst3Gui,
            NativeOverlayCommand::ToggleInfoPanelLock => NativeOverlayCommand::ToggleInfoPanelLock,
            NativeOverlayCommand::ToggleClickInfoOpen => NativeOverlayCommand::ToggleClickInfoOpen,
            NativeOverlayCommand::SetRating { stars } => NativeOverlayCommand::SetRating { stars: *stars },
            NativeOverlayCommand::OpenExternalUrl { url } => NativeOverlayCommand::OpenExternalUrl {
                url: url.clone(),
            },
            NativeOverlayCommand::SetBookmarkTitle { id, title } => NativeOverlayCommand::SetBookmarkTitle {
                id: *id,
                title: title.clone(),
            },
            NativeOverlayCommand::ExportBookmarksToClipboard { seconds_only } => NativeOverlayCommand::ExportBookmarksToClipboard {
                seconds_only: *seconds_only,
            },
            NativeOverlayCommand::ClearAllBookmarksForCurrent => NativeOverlayCommand::ClearAllBookmarksForCurrent,
            NativeOverlayCommand::BulkAddBookmarks => NativeOverlayCommand::BulkAddBookmarks,
            NativeOverlayCommand::SetPinAt => NativeOverlayCommand::SetPinAt,
            NativeOverlayCommand::AddBookmarkAt => NativeOverlayCommand::AddBookmarkAt,
            NativeOverlayCommand::SetVst3VideoCompact { compact } => NativeOverlayCommand::SetVst3VideoCompact {
                compact: *compact,
            },
            NativeOverlayCommand::Vst3LoadChainSlot { slot_idx } => NativeOverlayCommand::Vst3LoadChainSlot {
                slot_idx: *slot_idx,
            },
            NativeOverlayCommand::Vst3SaveChainSlot { slot_idx } => NativeOverlayCommand::Vst3SaveChainSlot {
                slot_idx: *slot_idx,
            },
            NativeOverlayCommand::TileColumnsDelta { delta } => NativeOverlayCommand::TileColumnsDelta {
                delta: *delta,
            },
            NativeOverlayCommand::TileSeek { tile_idx } => NativeOverlayCommand::TileSeek { tile_idx: *tile_idx },
            NativeOverlayCommand::CancelNormalizeScan => NativeOverlayCommand::CancelNormalizeScan,
        }
    }
}

/// The plain values of a list of commands.
pub open spec fn commands_view(v: Seq<NativeOverlayCommand>) -> Seq<CommandModel> {
    v.map_values(|c: NativeOverlayCommand| c@)
}

/// Appends `c` to `commands`.
pub fn push_command(commands: &mut Vec<NativeOverlayCommand>, c: NativeOverlayCommand)
    ensures
        commands_view(final(commands)@) == commands_view(old(commands)@).push(c@),
{
    commands.push(c);
    assert(commands_view(commands@) =~= commands_view(old(commands)@).push(c@));
}

} // verus!
