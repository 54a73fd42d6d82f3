use pinball_core::constants::{
    LANE_CURVE_CENTER_X, LANE_CURVE_R, LANE_DIVIDER_X, LANE_TOP, PLAYFIELD_W, PLUNGER_X,
    PLUNGER_Y, W, WALL,
};

#[test]
fn matches_js_derived_values() {
    assert_eq!(LANE_DIVIDER_X as f64, 364.0);
    assert_eq!(PLAYFIELD_W as f64, 388.0);
    assert_eq!(LANE_CURVE_R as f64, 194.0);
    assert_eq!(PLUNGER_X as f64, 384.0);
    assert_eq!(PLUNGER_Y as f64, 600.0);
}

#[test]
fn halved_dimensions_are_exact() {
    assert_eq!(2 * LANE_CURVE_R, PLAYFIELD_W);
    assert_eq!(LANE_TOP, LANE_CURVE_R);
    assert_eq!(2 * LANE_CURVE_CENTER_X, W);
    assert_eq!(2 * PLUNGER_X, LANE_DIVIDER_X + (W - WALL));
}
