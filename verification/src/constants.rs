//! Table geometry (in whole pixels) and frame-based timings.
//!
//! Every length here is an exact integer on the table; the physics that
//! works in floating point converts them where it needs to.

use vstd::prelude::*;

verus! {

/// Canvas width.
pub const W: i32 = 420;
/// Canvas height.
pub const H: i32 = 660;
/// Thickness of the side walls.
pub const WALL: i32 = 16;
/// Width of the plunger lane on the right.
pub const LANE_W: i32 = 40;
/// x of the divider between the playfield and the plunger lane.
pub const LANE_DIVIDER_X: i32 = W - WALL - LANE_W;

/// Width of the playfield between the two side walls.
pub const PLAYFIELD_W: i32 = W - 2 * WALL;
/// Radius of the half-circle roof spanning the playfield: half its width.
pub const LANE_CURVE_R: i32 = 194;
/// y where the roof's half circle meets the straight walls.
pub const LANE_TOP: i32 = LANE_CURVE_R;
/// Centre of the roof's half circle, in the middle of the canvas.
pub const LANE_CURVE_CENTER_X: i32 = 210;
pub const LANE_CURVE_CENTER_Y: i32 = LANE_TOP;
/// Number of chords the roof is drawn with.
pub const LANE_CURVE_STEPS: u32 = 32;

/// Where a ball waits for launch, in the middle of the plunger lane.
pub const PLUNGER_X: i32 = 384;
pub const PLUNGER_Y: i32 = H - 60;

/// Radii and lengths of the moving and fixed parts.
pub const BALL_R: i32 = 9;
pub const FLIP_LEN: i32 = 65;
pub const FLIP_R: i32 = 7;
pub const GUIDE_R: i32 = 4;
pub const SLINGSHOT_R: i32 = 6;
pub const KICKBACK_CATCH_R: i32 = 20;

/// Frames a drained ball lingers before the drain is handled.
pub const DYING_FRAMES: i32 = 25;
/// Frames a bumper lights up after a hit.
pub const BUMPER_FLASH_FRAMES: i32 = 18;
/// Frames a slingshot lights up after a kick.
pub const SLINGSHOT_FLASH_FRAMES: i32 = 12;
/// Frames a kickback lights up after catching a ball.
pub const KICKBACK_FLASH_FRAMES: i32 = 12;
/// Frames the ball save stays active after a launch (~3 s at 60 fps).
pub const BALL_SAVE_FRAMES: i32 = 180;
/// Frames between two hits that still continue a combo (~1.5 s at 60 fps).
pub const COMBO_WINDOW_FRAMES: i32 = 90;
/// Frames a touch of an outlane guide keeps a kickback rescue possible.
pub const OUTLANE_GRACE_FRAMES: i32 = 20;
/// Frames after a nudge before the nudge count starts over (~2 s at 60 fps).
pub const NUDGE_RESET_FRAMES: u32 = 120;
/// Nudges that tilt the table.
pub const TILT_NUDGES: i32 = 3;
/// Balls at the start of a game.
pub const BALLS_PER_GAME: i32 = 3;

/// Points of a bumper hit at 1x.
pub const BUMPER_POINTS: i64 = 50;
/// Points of a hit on the special bumper at 1x.
pub const SPECIAL_BUMPER_POINTS: i64 = 100;
/// Points of a slingshot kick at 1x.
pub const SLINGSHOT_POINTS: i64 = 10;

/// The combo multiplier is counted in halves: the multiplier of a hit is
/// this count divided by two. A fresh chain starts at 1x.
pub const COMBO_BASE: u32 = 2;
/// Each chained hit adds 0.5x.
pub const COMBO_STEP: u32 = 1;
/// The multiplier never exceeds 4x.
pub const COMBO_MAX: u32 = 8;

/// The halved dimensions are exact: the roof spans the playfield, its centre
/// is the middle of the canvas, and the plunger sits in the middle of the
/// lane between the divider and the right wall.
pub proof fn lemma_derived_geometry()
    ensures
        2 * LANE_CURVE_R == PLAYFIELD_W,
        2 * LANE_CURVE_CENTER_X == W,
        2 * PLUNGER_X == LANE_DIVIDER_X + (W - WALL),
        LANE_DIVIDER_X == 364,
        PLAYFIELD_W == 388,
        PLUNGER_Y == 600,
{
}

} // verus!
