use pinball_core::constants::{BALL_SAVE_FRAMES, DYING_FRAMES, NUDGE_RESET_FRAMES};
use pinball_core::state::{BallStatus, DrainEvent, GameState, LaunchOutcome, NudgeEvent};

/// A game whose first ball was launched with enough charge.
fn launched_game() -> GameState {
    let mut g = GameState::new(0);
    g.trigger_launch(true);
    g
}

#[test]
fn launch_costs_a_ball_and_spawns_it_at_the_plunger() {
    let mut g = GameState::new(0);
    let outcome = g.trigger_launch(true);
    assert_eq!(outcome, Some(LaunchOutcome::Launched));
    assert_eq!(g.balls_left, 2);
    let b = g.ball.expect("ball should be spawned");
    assert_eq!(b, BallStatus::default());
    assert!(g.is_ball_save_active());
}

#[test]
fn weak_charge_does_not_launch() {
    let mut g = GameState::new(0);
    assert_eq!(g.trigger_launch(false), None);
    assert!(g.ball.is_none());
    assert_eq!(g.balls_left, 3);
}

#[test]
fn relaunch_does_not_cost_a_ball() {
    let mut g = launched_game();
    g.ball.as_mut().unwrap().waiting = true;

    let outcome = g.trigger_launch(true);
    assert_eq!(outcome, Some(LaunchOutcome::Relaunched));
    assert_eq!(g.balls_left, 2, "relaunch must not consume another ball");
    assert!(!g.ball.unwrap().waiting);
}

#[test]
fn no_launch_while_a_ball_is_in_play_or_after_game_over() {
    let mut g = launched_game();
    assert_eq!(g.trigger_launch(true), None, "the ball in play is not waiting");
    assert_eq!(g.balls_left, 2);

    let mut over = GameState::new(0);
    over.over = true;
    assert_eq!(over.trigger_launch(true), None);
    assert_eq!(over.balls_left, 3);
}

#[test]
fn nudge_counts_up_and_tilts_on_third() {
    let mut g = launched_game();
    assert_eq!(g.nudge_game(), Some(NudgeEvent::Warning { count: 1 }));
    assert_eq!(g.nudge_game(), Some(NudgeEvent::Warning { count: 2 }));
    assert_eq!(g.nudge_game(), Some(NudgeEvent::Tilted));
    assert!(g.tilted);
}

#[test]
fn nudge_does_nothing_once_tilted_or_without_a_ball() {
    let mut g = GameState::new(0);
    assert_eq!(g.nudge_game(), None, "no ball in play yet");

    g.trigger_launch(true);
    g.tilted = true;
    assert_eq!(g.nudge_game(), None, "already tilted");
}

#[test]
fn nudge_reset_clears_count_after_window_and_reports_message_reset() {
    let mut g = launched_game();
    g.nudge_game();

    for _ in 0..NUDGE_RESET_FRAMES - 1 {
        assert!(!g.tick_nudge_reset());
    }
    assert!(g.tick_nudge_reset(), "final tick should fire the reset");
    assert_eq!(g.nudge_count, 0);
}

#[test]
fn nudge_reset_event_fires_once_after_the_window() {
    let mut g = launched_game();
    g.nudge_game();
    let mut fired = 0;
    for _ in 0..200 {
        if g.tick_nudge_reset() {
            fired += 1;
        }
    }
    assert_eq!(fired, 1);
}

#[test]
fn nudge_reset_is_quiet_when_tilted() {
    let mut g = launched_game();
    g.nudge_game();
    g.nudge_game();
    g.nudge_game();
    let mut fired = 0;
    for _ in 0..200 {
        if g.tick_nudge_reset() {
            fired += 1;
        }
    }
    assert_eq!(fired, 0);
    assert_eq!(g.nudge_count, 0, "the count still starts over");
    assert!(g.tilted, "but the tilt lasts until the drain");
}

#[test]
fn ball_save_rescues_drain_without_losing_a_ball() {
    let mut g = launched_game(); // starts ball-save

    let event = g.handle_drain();
    assert_eq!(event, DrainEvent::BallSaved);
    assert_eq!(g.balls_left, 2, "ball-save must not cost an extra ball");
    assert!(g.ball.is_some(), "a new ball should be auto-launched");
    assert!(!g.is_ball_save_active(), "ball-save is consumed by the rescue");
}

#[test]
fn tilt_forfeits_ball_save() {
    let mut g = launched_game(); // starts ball-save
    g.tilted = true;

    let event = g.handle_drain();
    assert_eq!(event, DrainEvent::BallsRemain);
    assert_eq!(g.balls_left, 2);
    assert!(!g.tilted, "the drain clears the tilt");
}

#[test]
fn drain_on_last_ball_ends_game_and_reports_new_high_score() {
    let mut g = GameState::new(100);
    g.balls_left = 1;
    g.trigger_launch(true); // balls_left -> 0
    for _ in 0..BALL_SAVE_FRAMES {
        g.tick_ball_save(); // let ball-save expire so this drain really ends the game
    }
    g.score = 250;

    let event = g.handle_drain();
    assert_eq!(event, DrainEvent::GameOver { score: 250, is_new_high_score: true });
    assert!(g.over);
    assert_eq!(g.high_score, 250);
}

#[test]
fn drain_does_not_report_new_high_score_when_lower() {
    let mut g = GameState::new(999);
    g.balls_left = 1;
    g.trigger_launch(true);
    for _ in 0..BALL_SAVE_FRAMES {
        g.tick_ball_save();
    }
    g.score = 10;

    let event = g.handle_drain();
    assert_eq!(event, DrainEvent::GameOver { score: 10, is_new_high_score: false });
    assert_eq!(g.high_score, 999);
}

#[test]
fn bumper_score_uses_combo_multiplier_and_special_bonus() {
    let mut g = GameState::new(0);
    assert_eq!(g.score_bumper_hit(false), 50);
    assert_eq!(g.score, 50);
    // Second hit within the combo window steps the multiplier to 1.5x.
    assert_eq!(g.score_bumper_hit(true), 150); // 100 * 1.5
    assert_eq!(g.score, 200);
}

#[test]
fn slingshot_score_follows_the_combo_to_its_cap() {
    let mut g = GameState::new(0);
    let gains: Vec<i64> = (0..8).map(|_| g.score_slingshot_hit()).collect();
    assert_eq!(gains, vec![10, 15, 20, 25, 30, 35, 40, 40]);
    assert_eq!(g.score, 215);
    assert_eq!(g.combo_multiplier(), 8);
}

#[test]
fn a_drain_ends_the_combo() {
    let mut g = launched_game();
    g.score_bumper_hit(false);
    g.score_bumper_hit(false);
    assert_eq!(g.combo_multiplier(), 3);
    for _ in 0..BALL_SAVE_FRAMES {
        g.tick_ball_save();
    }
    assert_eq!(g.handle_drain(), DrainEvent::BallsRemain);
    assert_eq!(g.combo_multiplier(), 2);
    assert_eq!(g.combo_frames_left(), 0);
}

#[test]
fn ball_dies_after_falling_below_bottom_and_eventually_drains() {
    let mut g = launched_game();
    for _ in 0..BALL_SAVE_FRAMES {
        g.tick_ball_save();
    }
    g.ball.as_mut().unwrap().start_dying();
    assert!(g.ball.unwrap().dying);
    assert!(g.ball_active());

    let mut drained = None;
    for frame in 1..=DYING_FRAMES {
        if let Some(event) = g.tick_dying_ball() {
            drained = Some((frame, event));
            break;
        }
    }
    assert_eq!(drained, Some((DYING_FRAMES, DrainEvent::BallsRemain)));
    assert!(g.ball.is_none());
}

#[test]
fn saved_drain_of_a_dying_ball_puts_a_fresh_ball_in_play() {
    let mut g = launched_game();
    g.ball.as_mut().unwrap().start_dying();
    g.ball.as_mut().unwrap().dying_timer = 1;
    assert_eq!(g.tick_dying_ball(), Some(DrainEvent::BallSaved));
    assert_eq!(g.ball, Some(BallStatus::default()));
}

#[test]
fn ball_returned_to_the_plunger_waits_and_relaunches_for_free() {
    let mut g = launched_game();
    let b = g.ball.as_mut().unwrap();
    b.has_escaped = true;
    b.touch_outlane();
    assert!(b.can_kickback());
    b.catch_in_kickback();
    assert!(b.waiting);
    assert!(!b.can_kickback(), "a kickback rescue uses the grace up");
    assert!(!g.ball_active());

    assert_eq!(g.trigger_launch(true), Some(LaunchOutcome::Relaunched));
    assert_eq!(g.balls_left, 2);
    let b = g.ball.unwrap();
    assert!(!b.waiting && !b.has_escaped);
}

#[test]
fn outlane_grace_runs_out() {
    let mut b = BallStatus::default();
    b.touch_outlane();
    for _ in 0..19 {
        b.tick_outlane_grace();
    }
    assert!(b.can_kickback());
    b.tick_outlane_grace();
    assert!(!b.can_kickback());
    b.return_from_lane();
    assert!(b.waiting);
}

#[test]
fn reset_clears_run_state_but_keeps_high_score() {
    let mut g = GameState::new(500);
    g.score = 999;
    g.balls_left = 0;
    g.over = true;
    g.tilted = true;
    g.reset();

    assert_eq!(g.score, 0);
    assert_eq!(g.balls_left, 3);
    assert!(!g.over);
    assert!(!g.tilted);
    assert!(g.ball.is_none());
    assert_eq!(g.high_score, 500);
}
