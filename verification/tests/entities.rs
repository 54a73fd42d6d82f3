use pinball_core::constants::{LANE_CURVE_STEPS, LANE_DIVIDER_X, LANE_TOP};
use pinball_core::entities::{
    bumpers, flipper_mounts, flipper_pressed, guides, kickbacks, lane_curve_arc, lane_gate,
    outlane_guides, posts, slingshots, Bumper, Dir, FlashSegment, TABLE_CENTER_X,
};

#[test]
fn counts_match_js() {
    assert_eq!(flipper_mounts().len(), 2);
    assert_eq!(bumpers().len(), 4);
    assert_eq!(posts().len(), 1);
    assert_eq!(slingshots().len(), 2);
    assert_eq!(kickbacks().len(), 2);
    assert_eq!(outlane_guides().len(), 2);
    assert_eq!(guides().len(), 5); // 2 main guides + 2 outlane guides + the lane divider
    assert_eq!(LANE_CURVE_STEPS, 32);
}

#[test]
fn key_coordinates_match_js() {
    let f = flipper_mounts();
    assert_eq!(f[0].px as f64, 110.0);
    assert_eq!(f[1].px as f64, 270.0);

    let b = bumpers();
    assert!(b[3].special);
    assert!(!b[0].special);

    let gate = lane_gate();
    assert_eq!(gate.x1, LANE_DIVIDER_X);
    assert_eq!(gate.y1, LANE_TOP);
}

#[test]
fn right_side_mirrors_left_side() {
    let m = |x: i32| 2 * TABLE_CENTER_X - x;
    let f = flipper_mounts();
    assert_eq!(f[1].px, m(f[0].px));
    assert_eq!((f[0].dir, f[1].dir), (Dir::Left, Dir::Right));
    for pair in [slingshots(), kickbacks()] {
        assert_eq!(pair[1].x1, m(pair[0].x1));
        assert_eq!(pair[1].x2, m(pair[0].x2));
        assert_eq!((pair[1].y1, pair[1].y2), (pair[0].y1, pair[0].y2));
    }
    let g = guides();
    for (l, r) in [(0, 1), (2, 3)] {
        assert_eq!(g[r].x1, m(g[l].x1));
        assert_eq!(g[r].x2, m(g[l].x2));
    }
    assert_eq!(g[4].x1, LANE_DIVIDER_X);
    assert_eq!(g[2], outlane_guides()[0]);
}

#[test]
fn roof_spans_the_playfield() {
    let arc = lane_curve_arc();
    assert_eq!((arc.center_x, arc.center_y, arc.r), (210, 194, 194));
}

#[test]
fn flash_counts_down_to_zero() {
    let mut b = Bumper { x: 0, y: 0, r: 20, flash: 2, special: false };
    b.tick_flash();
    assert_eq!(b.flash, 1);
    b.tick_flash();
    b.tick_flash();
    assert_eq!(b.flash, 0);

    let mut s = FlashSegment { x1: 1, y1: 2, x2: 3, y2: 4, flash: 1 };
    s.tick_flash();
    assert_eq!(s.flash, 0);
    assert_eq!((s.segment().x1, s.segment().y2), (1, 4));
}

#[test]
fn flipper_follows_its_own_button_unless_tilted() {
    assert!(flipper_pressed(Dir::Left, false, true, false));
    assert!(!flipper_pressed(Dir::Right, false, true, false));
    assert!(flipper_pressed(Dir::Right, false, false, true));
    assert!(!flipper_pressed(Dir::Left, true, true, true));
    assert!(!flipper_pressed(Dir::Right, true, true, true));
}
