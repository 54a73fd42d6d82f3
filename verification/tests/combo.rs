use pinball_core::combo::Combo;
use pinball_core::constants::{COMBO_BASE, COMBO_MAX, COMBO_WINDOW_FRAMES};

/// The multiplier a count of halves stands for.
fn times(halves: u32) -> f64 {
    halves as f64 / 2.0
}

#[test]
fn chains_within_window_and_resets_after_it_expires() {
    let mut combo = Combo::default();
    assert_eq!(times(combo.register_hit()), 1.0);
    assert_eq!(times(combo.register_hit()), 1.0 + 0.5);
    assert_eq!(times(combo.register_hit()), 1.0 + 2.0 * 0.5);

    for _ in 0..COMBO_WINDOW_FRAMES {
        combo.tick();
    }
    // Window has fully expired: the next hit starts the chain over at 1x.
    assert_eq!(times(combo.register_hit()), 1.0);
}

#[test]
fn caps_at_combo_max() {
    let mut combo = Combo::default();
    for _ in 0..20 {
        combo.register_hit();
    }
    assert_eq!(combo.multiplier(), COMBO_MAX);
    assert_eq!(times(combo.multiplier()), 4.0);
}

#[test]
fn hit_one_frame_before_expiry_still_chains() {
    let mut combo = Combo::default();
    combo.register_hit();
    for _ in 0..COMBO_WINDOW_FRAMES - 1 {
        combo.tick();
    }
    assert_eq!(combo.frames_left(), 1);
    assert_eq!(combo.register_hit(), 3);
    assert_eq!(combo.frames_left(), COMBO_WINDOW_FRAMES);
}

#[test]
fn reset_returns_to_one_x() {
    let mut combo = Combo::default();
    combo.register_hit();
    combo.register_hit();
    combo.reset();
    assert_eq!(combo.multiplier(), COMBO_BASE);
    assert_eq!(combo.frames_left(), 0);
    assert_eq!(combo.register_hit(), COMBO_BASE);
}
