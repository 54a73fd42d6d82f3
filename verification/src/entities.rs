//! Where everything stands on the table: bumpers, posts, slingshots,
//! kickbacks, guides, the roof and the lane gate. Coordinates are pixels.
//! Bumpers, slingshots and kickbacks light up for a few frames when hit.

use vstd::prelude::*;

use crate::constants::{
    H, LANE_CURVE_CENTER_X, LANE_CURVE_CENTER_Y, LANE_CURVE_R, LANE_DIVIDER_X, LANE_TOP, W, WALL,
};

verus! {

/// Which side a flipper is on.
#[derive(Clone, Copy, Debug, PartialEq, Eq, Structural)]
pub enum Dir {
    Left,
    Right,
}

/// Where a flipper turns, and on which side it is.
#[derive(Clone, Copy, Debug, PartialEq, Eq, Structural)]
pub struct FlipperMount {
    pub px: i32,
    pub py: i32,
    pub dir: Dir,
}

#[derive(Clone, Copy, Debug, PartialEq, Eq, Structural)]
pub struct Bumper {
    pub x: i32,
    pub y: i32,
    pub r: i32,
    /// Frames left of the bumper's light after a hit.
    pub flash: i32,
    /// The special bumper scores more.
    pub special: bool,
}

#[derive(Clone, Copy, Debug, PartialEq, Eq, Structural)]
pub struct Post {
    pub x: i32,
    pub y: i32,
    pub r: i32,
}

/// A line segment with no state of its own: guides, the lane divider, the
/// gate.
#[derive(Clone, Copy, Debug, PartialEq, Eq, Structural)]
pub struct Segment {
    pub x1: i32,
    pub y1: i32,
    pub x2: i32,
    pub y2: i32,
}

/// A segment that lights up when it acts: slingshots and kickbacks.
#[derive(Clone, Copy, Debug, PartialEq, Eq, Structural)]
pub struct FlashSegment {
    pub x1: i32,
    pub y1: i32,
    pub x2: i32,
    pub y2: i32,
    /// Frames left of the light.
    pub flash: i32,
}

/// A circle; the roof collides as its upper half.
#[derive(Clone, Copy, Debug, PartialEq, Eq, Structural)]
pub struct Arc {
    pub center_x: i32,
    pub center_y: i32,
    pub r: i32,
}

/// The middle of the playfield between the left wall and the lane divider;
/// the symmetric parts of the table are mirrored about it.
pub const TABLE_CENTER_X: i32 = 190;
/// Distance of each flipper's pivot from the table's middle.
pub const FLIPPER_HALF_SPAN: i32 = 80;
/// Pivot of the left flipper.
pub const FLIPPER_PX: i32 = TABLE_CENTER_X - FLIPPER_HALF_SPAN;
pub const FLIPPER_PY: i32 = H - 85;
/// How far the outlane guides' lower ends sit from the wall and divider.
pub const OUTLANE_INSET: i32 = 28;
/// How far the outlane guides' upper ends sit from the wall and divider.
pub const OUTLANE_GAP: i32 = 30;

/// The table's middle lies halfway between the left wall and the divider.
pub proof fn lemma_table_center()
    ensures
        2 * TABLE_CENTER_X == WALL + LANE_DIVIDER_X,
        FLIPPER_PX == 110,
{
}

pub open spec fn flipper_mount_layout() -> Seq<FlipperMount> {
    seq![
        FlipperMount { px: FLIPPER_PX, py: FLIPPER_PY, dir: Dir::Left },
        FlipperMount { px: (TABLE_CENTER_X + FLIPPER_HALF_SPAN) as i32, py: FLIPPER_PY, dir: Dir::Right },
    ]
}

pub open spec fn bumper_layout() -> Seq<Bumper> {
    seq![
        Bumper { x: 120, y: 200, r: 20, flash: 0, special: false },
        Bumper { x: 240, y: 170, r: 20, flash: 0, special: false },
        Bumper { x: 190, y: 280, r: 20, flash: 0, special: false },
        Bumper { x: 340, y: 230, r: 18, flash: 0, special: true },
    ]
}

pub open spec fn post_layout() -> Seq<Post> {
    seq![Post { x: 40, y: 290, r: 12 }]
}

pub open spec fn slingshot_layout() -> Seq<FlashSegment> {
    seq![
        FlashSegment { x1: 47, y1: (H - 234) as i32, x2: 70, y2: (H - 185) as i32, flash: 0 },
        FlashSegment {
            x1: (W - 87) as i32,
            y1: (H - 234) as i32,
            x2: (W - 110) as i32,
            y2: (H - 185) as i32,
            flash: 0,
        },
    ]
}

pub open spec fn kickback_layout() -> Seq<FlashSegment> {
    seq![
        FlashSegment { x1: 40, y1: 543, x2: 115, y2: 620, flash: 0 },
        FlashSegment { x1: 340, y1: 543, x2: 265, y2: 620, flash: 0 },
    ]
}

pub open spec fn outlane_guide_layout() -> Seq<Segment> {
    seq![
        Segment {
            x1: (WALL + OUTLANE_GAP) as i32,
            y1: (H - 115) as i32,
            x2: (WALL + OUTLANE_INSET) as i32,
            y2: (H - 20) as i32,
        },
        Segment {
            x1: (LANE_DIVIDER_X - OUTLANE_GAP) as i32,
            y1: (H - 115) as i32,
            x2: (LANE_DIVIDER_X - OUTLANE_INSET) as i32,
            y2: (H - 20) as i32,
        },
    ]
}

/// The two main guides leading to the flippers.
pub open spec fn main_guide_layout() -> Seq<Segment> {
    seq![
        Segment { x1: 45, y1: (H - 150) as i32, x2: FLIPPER_PX, y2: (H - 90) as i32 },
        Segment {
            x1: 335,
            y1: (H - 150) as i32,
            x2: (TABLE_CENTER_X + FLIPPER_HALF_SPAN) as i32,
            y2: (H - 90) as i32,
        },
    ]
}

/// The wall between the playfield and the plunger lane.
pub open spec fn lane_divider() -> Segment {
    Segment { x1: LANE_DIVIDER_X, y1: LANE_TOP, x2: LANE_DIVIDER_X, y2: H }
}

/// All guides: the main guides, the outlane guides and the lane divider.
pub open spec fn guide_layout() -> Seq<Segment> {
    main_guide_layout() + outlane_guide_layout() + seq![lane_divider()]
}

/// The one-way gate at the mouth of the plunger lane.
pub open spec fn lane_gate_layout() -> Segment {
    Segment { x1: LANE_DIVIDER_X, y1: LANE_TOP, x2: (W - WALL - 5) as i32, y2: (LANE_TOP - 45) as i32 }
}

/// The roof's circle.
pub open spec fn lane_curve_arc_layout() -> Arc {
    Arc { center_x: LANE_CURVE_CENTER_X, center_y: LANE_CURVE_CENTER_Y, r: LANE_CURVE_R }
}

/// The pivots of the left and right flipper.
pub fn flipper_mounts() -> (r: Vec<FlipperMount>)
    ensures
        r@ == flipper_mount_layout(),
{
    let mut v: Vec<FlipperMount> = Vec::new();
    v.push(FlipperMount { px: FLIPPER_PX, py: FLIPPER_PY, dir: Dir::Left });
    v.push(FlipperMount { px: TABLE_CENTER_X + FLIPPER_HALF_SPAN, py: FLIPPER_PY, dir: Dir::Right });
    v
}

pub fn bumpers() -> (r: Vec<Bumper>)
    ensures
        r@ == bumper_layout(),
{
    let mut v: Vec<Bumper> = Vec::new();
    v.push(Bumper { x: 120, y: 200, r: 20, flash: 0, special: false });
    v.push(Bumper { x: 240, y: 170, r: 20, flash: 0, special: false });
    v.push(Bumper { x: 190, y: 280, r: 20, flash: 0, special: false });
    // The special bumper stands apart from the triangle and scores more.
    v.push(Bumper { x: 340, y: 230, r: 18, flash: 0, special: true });
    v
}

pub fn posts() -> (r: Vec<Post>)
    ensures
        r@ == post_layout(),
{
    let mut v: Vec<Post> = Vec::new();
    v.push(Post { x: 40, y: 290, r: 12 });
    v
}

pub fn slingshots() -> (r: Vec<FlashSegment>)
    ensures
        r@ == slingshot_layout(),
{
    let mut v: Vec<FlashSegment> = Vec::new();
    v.push(FlashSegment { x1: 47, y1: H - 234, x2: 70, y2: H - 185, flash: 0 });
    v.push(FlashSegment { x1: W - 87, y1: H - 234, x2: W - 110, y2: H - 185, flash: 0 });
    v
}

pub fn kickbacks() -> (r: Vec<FlashSegment>)
    ensures
        r@ == kickback_layout(),
{
    let mut v: Vec<FlashSegment> = Vec::new();
    v.push(FlashSegment { x1: 40, y1: 543, x2: 115, y2: 620, flash: 0 });
    v.push(FlashSegment { x1: 340, y1: 543, x2: 265, y2: 620, flash: 0 });
    v
}

pub fn outlane_guides() -> (r: Vec<Segment>)
    ensures
        r@ == outlane_guide_layout(),
{
    let mut v: Vec<Segment> = Vec::new();
    v.push(Segment { x1: WALL + OUTLANE_GAP, y1: H - 115, x2: WALL + OUTLANE_INSET, y2: H - 20 });
    v.push(
        Segment {
            x1: LANE_DIVIDER_X - OUTLANE_GAP,
            y1: H - 115,
            x2: LANE_DIVIDER_X - OUTLANE_INSET,
            y2: H - 20,
        },
    );
    v
}

pub fn guides() -> (r: Vec<Segment>)
    ensures
        r@ == guide_layout(),
{
    let mut segs: Vec<Segment> = Vec::new();
    segs.push(Segment { x1: 45, y1: H - 150, x2: FLIPPER_PX, y2: H - 90 });
    segs.push(
        Segment { x1: 335, y1: H - 150, x2: TABLE_CENTER_X + FLIPPER_HALF_SPAN, y2: H - 90 },
    );
    let mut outlanes = outlane_guides();
    segs.append(&mut outlanes);
    segs.push(Segment { x1: LANE_DIVIDER_X, y1: LANE_TOP, x2: LANE_DIVIDER_X, y2: H });
    segs
}

pub fn lane_curve_arc() -> (r: Arc)
    ensures
        r == lane_curve_arc_layout(),
{
    Arc { center_x: LANE_CURVE_CENTER_X, center_y: LANE_CURVE_CENTER_Y, r: LANE_CURVE_R }
}

pub fn lane_gate() -> (r: Segment)
    ensures
        r == lane_gate_layout(),
{
    Segment { x1: LANE_DIVIDER_X, y1: LANE_TOP, x2: W - WALL - 5, y2: LANE_TOP - 45 }
}

/// Frames left of a light after one more frame.
pub open spec fn flash_tick(flash: i32) -> i32 {
    if flash > 0 { (flash - 1) as i32 } else { flash }
}

impl Bumper {
    /// One frame of the bumper's light.
    pub fn tick_flash(&mut self)
        ensures
            *final(self) == (Bumper { flash: flash_tick(old(self).flash), ..*old(self) }),
    {
        if self.flash > 0 {
            self.flash = self.flash - 1;
        }
    }
}

impl FlashSegment {
    /// The segment without its light.
    pub fn segment(&self) -> (r: Segment)
        ensures
            r == (Segment { x1: self.x1, y1: self.y1, x2: self.x2, y2: self.y2 }),
    {
        Segment { x1: self.x1, y1: self.y1, x2: self.x2, y2: self.y2 }
    }

    /// One frame of the segment's light.
    pub fn tick_flash(&mut self)
        ensures
            *final(self) == (FlashSegment { flash: flash_tick(old(self).flash), ..*old(self) }),
    {
        if self.flash > 0 {
            self.flash = self.flash - 1;
        }
    }
}

/// Whether a flipper is driven up this frame: its side's button is held
/// and the table is not tilted.
pub fn flipper_pressed(dir: Dir, tilted: bool, left_pressing: bool, right_pressing: bool) -> (r:
    bool)
    ensures
        r == (!tilted && ((dir == Dir::Left && left_pressing) || (dir == Dir::Right
            && right_pressing))),
{
    !tilted && (match dir {
        Dir::Left => left_pressing,
        Dir::Right => right_pressing,
    })
}

/// `x` mirrored about the table's middle.
pub open spec fn mirror_x(x: int) -> int {
    2 * TABLE_CENTER_X - x
}

/// `b` is `a` mirrored about the table's middle.
pub open spec fn mirrors(a: Segment, b: Segment) -> bool {
    &&& b.x1 == mirror_x(a.x1 as int)
    &&& b.y1 == a.y1
    &&& b.x2 == mirror_x(a.x2 as int)
    &&& b.y2 == a.y2
}

/// The flash segment `b` is `a` mirrored about the table's middle.
pub open spec fn mirrors_flash(a: FlashSegment, b: FlashSegment) -> bool {
    &&& b.x1 == mirror_x(a.x1 as int)
    &&& b.y1 == a.y1
    &&& b.x2 == mirror_x(a.x2 as int)
    &&& b.y2 == a.y2
    &&& b.flash == a.flash
}

/// The table is symmetric about its middle: the right flipper, main guide,
/// outlane guide, slingshot and kickback are the mirror images of the left
/// ones.
pub proof fn lemma_table_is_mirror_symmetric()
    ensures
        flipper_mount_layout()[1].px == mirror_x(flipper_mount_layout()[0].px as int),
        flipper_mount_layout()[1].py == flipper_mount_layout()[0].py,
        flipper_mount_layout()[0].dir == Dir::Left,
        flipper_mount_layout()[1].dir == Dir::Right,
        mirrors(main_guide_layout()[0], main_guide_layout()[1]),
        mirrors(outlane_guide_layout()[0], outlane_guide_layout()[1]),
        mirrors_flash(slingshot_layout()[0], slingshot_layout()[1]),
        mirrors_flash(kickback_layout()[0], kickback_layout()[1]),
        main_guide_layout()[0].x2 == flipper_mount_layout()[0].px,
        main_guide_layout()[1].x2 == flipper_mount_layout()[1].px,
{
}

} // verus!
