//! Dimensions of the playing field and the pace of the game.

use vstd::prelude::*;

verus! {

/// Width of the playing field in columns. A new wall is placed this far ahead
/// of the player.
pub const SCREEN_WIDTH: i32 = 80;

/// Height of the playing field in rows. Row 0 is the top.
pub const SCREEN_HEIGHT: i32 = 50;

/// Time, in microseconds, that has to build up before the next physics tick.
pub const FRAME_DURATION: u64 = 30_000;

/// Number of frames for which a fresh encouragement stays on screen.
pub const ENCOURAGEMENT_DELAY_START: i32 = 60;

} // verus!
