//! Which of the game's display settings the resolution patch overrides.
use crate::text::str_eq;
use crate::version::{GameMajor, GameVersion};
use vstd::prelude::*;

verus! {

/// A Lua global of the game's scripts that depends on the screen size.
#[derive(Clone, Copy, Debug, PartialEq, Eq, Structural)]
pub enum ScreenGlobal {
    /// `SCREEN_XSIZE`: the screen's width.
    ScreenWidth,
    /// `SCREEN_YSIZE`: the screen's height.
    ScreenHeight,
    /// `MINIMAP_DISP_X`: the minimap's horizontal position.
    MinimapX,
    /// `MINIMAP_DISP_Y`: the minimap's vertical position.
    MinimapY,
}

/// The screen-size global that a Lua global name refers to.
pub open spec fn screen_global_named(name: Seq<char>) -> Option<ScreenGlobal> {
    if name == "SCREEN_XSIZE"@ {
        Some(ScreenGlobal::ScreenWidth)
    } else if name == "SCREEN_YSIZE"@ {
        Some(ScreenGlobal::ScreenHeight)
    } else if name == "MINIMAP_DISP_X"@ {
        Some(ScreenGlobal::MinimapX)
    } else if name == "MINIMAP_DISP_Y"@ {
        Some(ScreenGlobal::MinimapY)
    } else {
        None
    }
}

/// Whether a Lua global that the game reads is one to be set from the
/// configured resolution first, and which.
pub fn screen_global(name: &str) -> (g: Option<ScreenGlobal>)
    ensures
        g == screen_global_named(name@),
{
    if str_eq(name, "SCREEN_XSIZE") {
        Some(ScreenGlobal::ScreenWidth)
    } else if str_eq(name, "SCREEN_YSIZE") {
        Some(ScreenGlobal::ScreenHeight)
    } else if str_eq(name, "MINIMAP_DISP_X") {
        Some(ScreenGlobal::MinimapX)
    } else if str_eq(name, "MINIMAP_DISP_Y") {
        Some(ScreenGlobal::MinimapY)
    } else {
        None
    }
}

/// Width of the viewport in which the game draws its minimap at 640x480.
pub const MINIMAP_VIEWPORT_WIDTH: i32 = 88;
/// Height of the viewport in which the game draws its minimap at 640x480.
pub const MINIMAP_VIEWPORT_HEIGHT: i32 = 82;

/// Whether a viewport the game sets is the minimap's, which is scaled to
/// the configured resolution.
pub fn is_minimap_viewport(width: i32, height: i32) -> (r: bool)
    ensures
        r == (width == 88 && height == 82),
{
    width == MINIMAP_VIEWPORT_WIDTH && height == MINIMAP_VIEWPORT_HEIGHT
}

/// Where, in the game's graphics singleton, the flag that says whether a
/// frame is to be presented lies: at 0x48 in the first game, at 0x54 in the
/// later ones.
pub open spec fn frame_flag_offset_of(version: GameVersion) -> usize {
    if version.major == GameMajor::WM3 {
        0x48
    } else {
        0x54
    }
}

/// The offset of the graphics singleton's frame flag for a game version.
pub fn frame_flag_offset(version: &GameVersion) -> (offset: usize)
    ensures
        offset == frame_flag_offset_of(*version),
{
    if version.is_wm3() {
        0x48
    } else {
        0x54
    }
}

/// What presenting a frame does: scale it into the window (with black bars),
/// leave it as it is, or look first whether the game is showing a saved
/// frame.
#[derive(Clone, Copy, Debug, PartialEq, Eq, Structural)]
pub enum BlitDecision {
    Blit,
    Skip,
    CheckSavedFrame,
}

/// The decision from the frame flag: set, the frame is scaled; clear, the
/// first game leaves it, the later ones look at the saved frame.
pub open spec fn blit_decision_of(version: GameVersion, frame_flag: u16) -> BlitDecision {
    if frame_flag != 0 {
        BlitDecision::Blit
    } else if version.major == GameMajor::WM3 {
        BlitDecision::Skip
    } else {
        BlitDecision::CheckSavedFrame
    }
}

/// Decides what presenting a frame does, from the frame flag read at
/// `frame_flag_offset`.
pub fn blit_decision(version: &GameVersion, frame_flag: u16) -> (d: BlitDecision)
    ensures
        d == blit_decision_of(*version, frame_flag),
{
    if frame_flag != 0 {
        BlitDecision::Blit
    } else if version.is_wm3() {
        BlitDecision::Skip
    } else {
        BlitDecision::CheckSavedFrame
    }
}

/// Whether a frame is scaled when the game may be showing a saved frame: only
/// when the render buffer's saved-frame word is zero.
pub fn blit_unless_saved(saved_frame: u32) -> (r: bool)
    ensures
        r == (saved_frame == 0),
{
    saved_frame == 0
}

/// Law of frame presentation: the frame flag lies at 0x48 exactly for the
/// first game and at 0x54 for every other version, and the games that read
/// it at 0x48 are exactly those that leave a frame with a clear flag as it
/// is.
pub proof fn lemma_frame_flag_offset(version: GameVersion)
    ensures
        frame_flag_offset_of(version) == 0x48 <==> version.major == GameMajor::WM3,
        frame_flag_offset_of(version) == 0x54 <==> version.major != GameMajor::WM3,
        frame_flag_offset_of(version) == 0x48 <==> blit_decision_of(version, 0)
            == BlitDecision::Skip,
{
}

} // verus!
