use pinball_core::ball_save::BallSave;
use pinball_core::constants::BALL_SAVE_FRAMES;

#[test]
fn active_until_ticked_out() {
    let mut bs = BallSave::default();
    assert!(!bs.is_active());
    bs.start();
    assert!(bs.is_active());
    for _ in 0..BALL_SAVE_FRAMES {
        bs.tick();
    }
    assert!(!bs.is_active());
}

#[test]
fn consume_ends_it_immediately() {
    let mut bs = BallSave::default();
    bs.start();
    bs.consume();
    assert!(!bs.is_active());
}

#[test]
fn still_active_one_tick_before_the_end() {
    let mut bs = BallSave::default();
    bs.start();
    assert_eq!(bs.frames_left(), 180);
    for _ in 0..BALL_SAVE_FRAMES - 1 {
        bs.tick();
    }
    assert!(bs.is_active());
    assert_eq!(bs.frames_left(), 1);
    bs.tick();
    assert_eq!(bs.frames_left(), 0);
    bs.tick();
    assert_eq!(bs.frames_left(), 0, "the countdown stops at zero");
}
