//! Fixed display geometry, in dots.  A "char" is an 8-dot-tall byte strip:
//! every region stores one byte per column per char row.

use vstd::prelude::*;

verus! {

/// Width of every region in chars.
pub const CHAR_WIDTH: i32 = 28;

/// Status bar (score display) above the playfield: 28 x 4 chars.
pub const TOP_WIDTH: i32 = 8 * 28;
pub const TOP_HEIGHT: i32 = 8 * 4;

/// The playfield itself: 28 x 26 chars.
pub const GAME_WIDTH: i32 = 8 * 28;
pub const GAME_HEIGHT: i32 = 8 * 26;

/// Status footer (remaining lives) below the playfield: 28 x 2 chars.
pub const BOTTOM_WIDTH: i32 = 8 * 28;
pub const BOTTOM_HEIGHT: i32 = 8 * 2;

/// The three regions stitched vertically into one image.
pub const ALL_WIDTH: i32 = 8 * 28;
pub const ALL_HEIGHT: i32 = TOP_HEIGHT + GAME_HEIGHT + BOTTOM_HEIGHT;

/// How many display pixels one dot occupies on screen.
pub const SCALE: i32 = 3;

} // verus!
