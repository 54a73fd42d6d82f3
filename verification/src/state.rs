//! The game state machine: balls, score, launches, nudges and tilt, drains
//! and the high score.
//!
//! Every operation reports what happened as a typed event, and each is
//! stated as a step function on [`GameView`], the plain value a game holds.
//! What the rules need of the ball in play is a [`BallStatus`]; where the
//! ball is and how it moves is the caller's physics.

use vstd::prelude::*;

use crate::ball_save::BallSave;
use crate::combo::{combo_hit, combo_in_range, combo_reset, combo_tick, Combo, ComboView};
use crate::constants::{
    BALLS_PER_GAME, BALL_SAVE_FRAMES, BUMPER_POINTS, COMBO_BASE, COMBO_MAX, COMBO_WINDOW_FRAMES,
    DYING_FRAMES, NUDGE_RESET_FRAMES, OUTLANE_GRACE_FRAMES, SLINGSHOT_POINTS,
    SPECIAL_BUMPER_POINTS, TILT_NUDGES,
};
use crate::countdown::countdown_tick;

verus! {

/// What the rules read and write of a ball in play.
#[derive(Clone, Copy, Debug, PartialEq, Eq, Structural)]
pub struct BallStatus {
    /// The ball fell out the bottom and is counting down to its drain.
    pub dying: bool,
    /// Frames left before a dying ball drains.
    pub dying_timer: i32,
    /// The ball rests on the plunger, ready to be launched again.
    pub waiting: bool,
    /// The ball has left the plunger lane, so the lane's gate is closed.
    pub has_escaped: bool,
    /// Frames left in which a kickback may still rescue the ball.
    pub outlane_grace: i32,
}

/// A ball just put on the plunger.
pub open spec fn fresh_ball() -> BallStatus {
    BallStatus {
        dying: false,
        dying_timer: 0,
        waiting: false,
        has_escaped: false,
        outlane_grace: 0,
    }
}

impl Default for BallStatus {
    /// A ball just put on the plunger.
    fn default() -> (r: Self)
        ensures
            r == fresh_ball(),
    {
        BallStatus {
            dying: false,
            dying_timer: 0,
            waiting: false,
            has_escaped: false,
            outlane_grace: 0,
        }
    }
}

/// The ball after it fell out the bottom: dying, with a full dying timer.
pub open spec fn ball_started_dying(b: BallStatus) -> BallStatus {
    BallStatus { dying: true, dying_timer: DYING_FRAMES, ..b }
}

/// The ball after it touched an outlane guide: a full outlane grace.
pub open spec fn ball_touched_outlane(b: BallStatus) -> BallStatus {
    BallStatus { outlane_grace: OUTLANE_GRACE_FRAMES, ..b }
}

/// The ball after one frame of its outlane grace.
pub open spec fn ball_grace_ticked(b: BallStatus) -> BallStatus {
    BallStatus {
        outlane_grace: if b.outlane_grace > 0 {
            (b.outlane_grace - 1) as i32
        } else {
            b.outlane_grace
        },
        ..b
    }
}

/// The ball after a kickback caught it: waiting on the plunger, grace used up.
pub open spec fn ball_caught_in_kickback(b: BallStatus) -> BallStatus {
    BallStatus { waiting: true, outlane_grace: 0, ..b }
}

/// The ball after it rolled back down the plunger lane: waiting.
pub open spec fn ball_returned_from_lane(b: BallStatus) -> BallStatus {
    BallStatus { waiting: true, ..b }
}

impl BallStatus {
    /// The ball fell out the bottom: it drains after `DYING_FRAMES` frames.
    pub fn start_dying(&mut self)
        ensures
            *final(self) == ball_started_dying(*old(self)),
    {
        self.dying = true;
        self.dying_timer = DYING_FRAMES;
    }

    /// The ball touched an outlane guide: a kickback may rescue it for the
    /// next `OUTLANE_GRACE_FRAMES` frames.
    pub fn touch_outlane(&mut self)
        ensures
            *final(self) == ball_touched_outlane(*old(self)),
    {
        self.outlane_grace = OUTLANE_GRACE_FRAMES;
    }

    /// One frame passes for the outlane grace.
    pub fn tick_outlane_grace(&mut self)
        ensures
            *final(self) == ball_grace_ticked(*old(self)),
    {
        if self.outlane_grace > 0 {
            self.outlane_grace = self.outlane_grace - 1;
        }
    }

    /// Whether a kickback may catch the ball now.
    pub fn can_kickback(&self) -> (r: bool)
        ensures
            r == (self.outlane_grace > 0),
    {
        self.outlane_grace > 0
    }

    /// A kickback caught the ball and returned it to the plunger; the grace
    /// is used up.
    pub fn catch_in_kickback(&mut self)
        ensures
            *final(self) == ball_caught_in_kickback(*old(self)),
    {
        self.waiting = true;
        self.outlane_grace = 0;
    }

    /// The ball rolled back down the plunger lane and waits on the plunger.
    pub fn return_from_lane(&mut self)
        ensures
            *final(self) == ball_returned_from_lane(*old(self)),
    {
        self.waiting = true;
    }
}

/// What happens to a ball's timers and flags: falling out starts a full
/// dying countdown and keeps the rest; an outlane touch gives a full grace
/// that later runs out one frame at a time, and a kickback can catch the ball
/// only while grace is left; a catch or a roll back down the lane leaves the
/// ball waiting on the plunger, the catch using the grace up. Nothing else of
/// the ball changes.
pub proof fn lemma_ball_status_changes(b: BallStatus, frames: nat)
    ensures
        ball_started_dying(b).dying,
        ball_started_dying(b).dying_timer == DYING_FRAMES,
        ball_started_dying(b).waiting == b.waiting,
        ball_started_dying(b).has_escaped == b.has_escaped,
        ball_started_dying(b).outlane_grace == b.outlane_grace,
        ball_touched_outlane(b).outlane_grace == OUTLANE_GRACE_FRAMES,
        ball_touched_outlane(b).dying == b.dying,
        ball_touched_outlane(b).dying_timer == b.dying_timer,
        ball_touched_outlane(b).waiting == b.waiting,
        ball_touched_outlane(b).has_escaped == b.has_escaped,
        ball_grace_ticked(b).outlane_grace == if b.outlane_grace > 0 {
            b.outlane_grace - 1
        } else {
            b.outlane_grace as int
        },
        ball_grace_ticked(b).dying == b.dying,
        ball_grace_ticked(b).dying_timer == b.dying_timer,
        ball_grace_ticked(b).waiting == b.waiting,
        ball_grace_ticked(b).has_escaped == b.has_escaped,
        ball_caught_in_kickback(b).waiting,
        ball_caught_in_kickback(b).outlane_grace == 0,
        ball_caught_in_kickback(b).dying == b.dying,
        ball_caught_in_kickback(b).dying_timer == b.dying_timer,
        ball_caught_in_kickback(b).has_escaped == b.has_escaped,
        ball_returned_from_lane(b).waiting,
        ball_returned_from_lane(b).outlane_grace == b.outlane_grace,
        ball_returned_from_lane(b).dying == b.dying,
        ball_returned_from_lane(b).dying_timer == b.dying_timer,
        ball_returned_from_lane(b).has_escaped == b.has_escaped,
        (grace_after(ball_touched_outlane(b), frames).outlane_grace > 0) == (frames
            < OUTLANE_GRACE_FRAMES),
{
    lemma_grace_after(ball_touched_outlane(b), frames);
}

/// The ball after `frames` frames of outlane grace.
pub open spec fn grace_after(b: BallStatus, frames: nat) -> BallStatus
    decreases frames,
{
    if frames == 0 {
        b
    } else {
        ball_grace_ticked(grace_after(b, (frames - 1) as nat))
    }
}

proof fn lemma_grace_after(b: BallStatus, frames: nat)
    requires
        b.outlane_grace >= 0,
    ensures
        grace_after(b, frames).outlane_grace == if b.outlane_grace >= frames {
            b.outlane_grace - frames
        } else {
            0
        },
    decreases frames,
{
    if frames > 0 {
        lemma_grace_after(b, (frames - 1) as nat);
    }
}

/// What a launch did.
#[derive(Clone, Copy, Debug, PartialEq, Eq, Structural)]
pub enum LaunchOutcome {
    /// A fresh ball was launched, costing one of the balls left.
    Launched,
    /// The ball waiting on the plunger was fired again; it costs no ball.
    Relaunched,
}

/// What a nudge did.
#[derive(Clone, Copy, Debug, PartialEq, Eq, Structural)]
pub enum NudgeEvent {
    /// The nudge counted; `count` nudges so far in this window.
    Warning { count: i32 },
    /// The nudge tilted the table: flippers are dead until the next ball.
    Tilted,
}

/// What a drain did.
#[derive(Clone, Copy, Debug, PartialEq, Eq, Structural)]
pub enum DrainEvent {
    /// The ball save was active: a new ball was put in play, no ball lost.
    BallSaved,
    /// Balls remain.
    BallsRemain,
    /// That was the last ball.
    GameOver { score: i64, is_new_high_score: bool },
}

/// The plain value a game holds.
pub struct GameView {
    pub score: int,
    pub balls_left: int,
    pub over: bool,
    pub ball: Option<BallStatus>,
    pub tilted: bool,
    pub nudge_count: int,
    pub high_score: int,
    /// Frames left before the nudge count starts over.
    pub nudge_window: int,
    /// Frames left of the ball save.
    pub ball_save: int,
    pub combo: ComboView,
}

/// A game that has not started, with the given high score.
pub open spec fn new_game(high_score: int) -> GameView {
    GameView {
        score: 0,
        balls_left: BALLS_PER_GAME as int,
        over: false,
        ball: None,
        tilted: false,
        nudge_count: 0,
        high_score,
        nudge_window: 0,
        ball_save: 0,
        combo: combo_reset(),
    }
}

/// The launch rules. Nothing happens when the game is over or the launch
/// was not charged enough. Without a ball in play, a fresh ball is launched
/// if any is left; a ball waiting on the plunger is fired again for free.
/// Either launch arms the ball save.
pub open spec fn launch_step(g: GameView, charged: bool) -> (GameView, Option<LaunchOutcome>) {
    if g.over || !charged {
        (g, None)
    } else if g.ball is None && g.balls_left > 0 {
        (
            GameView {
                balls_left: g.balls_left - 1,
                ball: Some(fresh_ball()),
                ball_save: BALL_SAVE_FRAMES as int,
                ..g
            },
            Some(LaunchOutcome::Launched),
        )
    } else if g.ball is Some && g.ball->0.waiting {
        (
            GameView {
                ball: Some(BallStatus { waiting: false, has_escaped: false, ..g.ball->0 }),
                ball_save: BALL_SAVE_FRAMES as int,
                ..g
            },
            Some(LaunchOutcome::Relaunched),
        )
    } else {
        (g, None)
    }
}

/// The nudge rules. A nudge counts only with a ball in play, on a table
/// that is neither tilted nor over; it opens the nudge window again, and
/// the `TILT_NUDGES`th nudge tilts the table.
pub open spec fn nudge_step(g: GameView) -> (GameView, Option<NudgeEvent>) {
    if g.tilted || g.ball is None || g.over {
        (g, None)
    } else {
        let count = g.nudge_count + 1;
        (
            GameView {
                nudge_count: count,
                nudge_window: NUDGE_RESET_FRAMES as int,
                tilted: count >= TILT_NUDGES,
                ..g
            },
            if count >= TILT_NUDGES {
                Some(NudgeEvent::Tilted)
            } else {
                Some(NudgeEvent::Warning { count: count as i32 })
            },
        )
    }
}

/// One frame of the nudge window. When the window runs out the nudge count
/// starts over, and the result says whether the idle message is due: the
/// table is not tilted, the game not over, and a ball is in play.
pub open spec fn nudge_reset_step(g: GameView) -> (GameView, bool) {
    if g.nudge_window == 0 {
        (g, false)
    } else if g.nudge_window - 1 > 0 {
        (GameView { nudge_window: g.nudge_window - 1, ..g }, false)
    } else {
        (
            GameView { nudge_window: 0, nudge_count: 0, ..g },
            !g.tilted && !g.over && g.ball is Some,
        )
    }
}

/// Points of a hit worth `points` at 1x, with the multiplier counted in
/// halves.
pub open spec fn hit_gain(points: int, multiplier: int) -> int {
    points * multiplier / 2
}

/// Points at 1x of a bumper hit.
pub open spec fn bumper_points(special: bool) -> int {
    if special {
        SPECIAL_BUMPER_POINTS as int
    } else {
        BUMPER_POINTS as int
    }
}

/// A scoring hit: the combo registers the hit, and the score grows by the
/// hit's points times the multiplier the combo reached.
pub open spec fn score_step(g: GameView, points: int) -> (GameView, int) {
    let c = combo_hit(g.combo);
    let gain = hit_gain(points, c.multiplier);
    (GameView { combo: c, score: g.score + gain, ..g }, gain)
}

/// The drain rules. A drain always clears the tilt and the nudge count.
/// Without a tilt, an active ball save puts a new ball in play and uses the
/// ball save up. Otherwise the ball save and the combo end; on the last ball
/// the game is over, and a score above the high score becomes the new high
/// score.
pub open spec fn drain_step(g: GameView) -> (GameView, DrainEvent) {
    let cleared = GameView { tilted: false, nudge_count: 0, ..g };
    if !g.tilted && g.ball_save > 0 {
        (GameView { ball_save: 0, ball: Some(fresh_ball()), ..cleared }, DrainEvent::BallSaved)
    } else {
        let ended = GameView { ball_save: 0, combo: combo_reset(), ..cleared };
        if g.balls_left == 0 {
            let is_new_high_score = g.score > g.high_score;
            (
                GameView {
                    over: true,
                    high_score: if is_new_high_score {
                        g.score
                    } else {
                        g.high_score
                    },
                    ..ended
                },
                DrainEvent::GameOver { score: g.score as i64, is_new_high_score },
            )
        } else {
            (ended, DrainEvent::BallsRemain)
        }
    }
}

/// One frame of a dying ball: its timer counts down, and when it runs out
/// the ball is gone and the drain is handled.
pub open spec fn dying_step(g: GameView) -> (GameView, Option<DrainEvent>) {
    let b = g.ball->0;
    let timer = b.dying_timer - 1;
    if timer <= 0 {
        let (after, event) = drain_step(GameView { ball: None, ..g });
        (after, Some(event))
    } else {
        (GameView { ball: Some(BallStatus { dying_timer: timer as i32, ..b }), ..g }, None)
    }
}

/// One frame of the ball save.
pub open spec fn ball_save_frame(g: GameView) -> GameView {
    GameView { ball_save: countdown_tick(g.ball_save), ..g }
}

/// One frame of the combo window.
pub open spec fn combo_frame(g: GameView) -> GameView {
    GameView { combo: combo_tick(g.combo), ..g }
}

/// A new game: everything but the high score starts over.
pub open spec fn reset_step(g: GameView) -> GameView {
    new_game(g.high_score)
}


/// The game after `n` frames of the nudge window.
pub open spec fn nudge_resets(g: GameView, n: nat) -> GameView
    decreases n,
{
    if n == 0 {
        g
    } else {
        nudge_reset_step(nudge_resets(g, (n - 1) as nat)).0
    }
}

/// The high score outlives games: no operation lowers it, a reset keeps it,
/// and only a drain may raise it.
pub proof fn lemma_high_score_never_decreases(g: GameView, charged: bool, points: int)
    ensures
        launch_step(g, charged).0.high_score == g.high_score,
        nudge_step(g).0.high_score == g.high_score,
        nudge_reset_step(g).0.high_score == g.high_score,
        score_step(g, points).0.high_score == g.high_score,
        drain_step(g).0.high_score >= g.high_score,
        dying_step(g).0.high_score >= g.high_score,
        reset_step(g).high_score == g.high_score,
{
}

/// Only a fresh launch spends a ball, exactly one; a relaunch, a nudge, a
/// hit and a drain (saved or not) leave the balls left as they are.
pub proof fn lemma_only_a_fresh_launch_spends_a_ball(g: GameView, charged: bool, points: int)
    ensures
        launch_step(g, charged).0.balls_left == if launch_step(g, charged).1 == Some(
            LaunchOutcome::Launched,
        ) {
            g.balls_left - 1
        } else {
            g.balls_left
        },
        launch_step(g, charged).1 == Some(LaunchOutcome::Launched) ==> g.balls_left > 0,
        nudge_step(g).0.balls_left == g.balls_left,
        nudge_reset_step(g).0.balls_left == g.balls_left,
        score_step(g, points).0.balls_left == g.balls_left,
        drain_step(g).0.balls_left == g.balls_left,
        dying_step(g).0.balls_left == g.balls_left,
{
}

/// An undercharged launch or a finished game never launches, and every
/// launch arms a full ball save.
pub proof fn lemma_launch_needs_charge(g: GameView, charged: bool)
    ensures
        !charged || g.over ==> launch_step(g, charged) == (g, None::<LaunchOutcome>),
        launch_step(g, charged).1 is Some ==> launch_step(g, charged).0.ball_save
            == BALL_SAVE_FRAMES && launch_step(g, charged).0.ball is Some
            && !launch_step(g, charged).0.ball->0.waiting,
{
}

/// With a ball in play on a table that is neither tilted nor over, the
/// first two nudges warn with their count, the third tilts the table, and
/// after that nudges do nothing.
pub proof fn lemma_third_nudge_tilts(g: GameView)
    requires
        g.ball is Some,
        !g.tilted,
        !g.over,
        g.nudge_count == 0,
    ensures
        nudge_step(g).1 == Some(NudgeEvent::Warning { count: 1 }),
        nudge_step(nudge_step(g).0).1 == Some(NudgeEvent::Warning { count: 2 }),
        nudge_step(nudge_step(nudge_step(g).0).0).1 == Some(NudgeEvent::Tilted),
        nudge_step(nudge_step(nudge_step(g).0).0).0.tilted,
        nudge_step(nudge_step(nudge_step(nudge_step(g).0).0).0).1 is None,
{
}

/// The outcomes of a drain: it never costs a ball by itself and always
/// clears the tilt and the nudge count and uses the ball save up; it is
/// saved exactly when the ball save is active and the table not tilted (a
/// tilt forfeits the ball save); otherwise the game is over exactly on the
/// last ball, and then the high score becomes the larger of the old high
/// score and the score.
pub proof fn lemma_drain_outcomes(g: GameView)
    ensures
        drain_step(g).0.balls_left == g.balls_left,
        !drain_step(g).0.tilted,
        drain_step(g).0.nudge_count == 0,
        drain_step(g).0.ball_save == 0,
        (drain_step(g).1 == DrainEvent::BallSaved) == (!g.tilted && g.ball_save > 0),
        drain_step(g).1 == DrainEvent::BallSaved ==> drain_step(g).0.ball == Some(fresh_ball())
            && drain_step(g).0.combo == g.combo,
        drain_step(g).1 is GameOver == ((g.tilted || g.ball_save <= 0) && g.balls_left == 0),
        drain_step(g).1 is GameOver ==> {
            &&& drain_step(g).0.over
            &&& drain_step(g).1 == DrainEvent::GameOver {
                score: g.score as i64,
                is_new_high_score: g.score > g.high_score,
            }
            &&& drain_step(g).0.high_score == if g.score > g.high_score {
                g.score
            } else {
                g.high_score
            }
        },
        drain_step(g).1 == DrainEvent::BallsRemain ==> drain_step(g).0.over == g.over
            && drain_step(g).0.combo == combo_reset(),
{
}

/// A scoring hit is worth between its points at 1x and four times them,
/// and the score grows by exactly the gain.
pub proof fn lemma_hit_gain_bounds(g: GameView, points: int)
    requires
        combo_in_range(g.combo),
        points >= 0,
    ensures
        points <= score_step(g, points).1 <= 4 * points,
        score_step(g, points).0.score == g.score + score_step(g, points).1,
{
    let m = combo_hit(g.combo).multiplier;
    assert(2 <= m <= 8);
    assert(points * 2 <= points * m <= points * 8) by (nonlinear_arith)
        requires
            2 <= m <= 8,
            points >= 0,
    ;
}

/// Frames of the nudge window count down one by one, and once it has run
/// out the nudge count is back at zero.
proof fn lemma_nudge_resets(g: GameView, n: nat)
    requires
        g.nudge_window >= 1,
    ensures
        n < g.nudge_window ==> nudge_resets(g, n) == (GameView {
            nudge_window: g.nudge_window - n,
            ..g
        }),
        n >= g.nudge_window ==> nudge_resets(g, n) == (GameView {
            nudge_window: 0,
            nudge_count: 0,
            ..g
        }),
    decreases n,
{
    if n > 0 {
        lemma_nudge_resets(g, (n - 1) as nat);
    }
}

/// After a nudge opens the window, the message reset fires on exactly one
/// frame, the last one of the window, provided the table is not tilted, the
/// game not over and a ball in play; on every other frame it stays quiet.
pub proof fn lemma_nudge_reset_fires_once(g: GameView, n: nat)
    requires
        g.nudge_window >= 1,
    ensures
        nudge_reset_step(nudge_resets(g, n)).1 == (n == g.nudge_window - 1 && !g.tilted
            && !g.over && g.ball is Some),
        n >= g.nudge_window ==> nudge_resets(g, n).nudge_count == 0,
{
    lemma_nudge_resets(g, n);
}

/// A drain never touches the score: the points of every earlier ball carry
/// over, and a game-over event reports the whole game's score. Nor does it
/// touch the balls left or the nudge window.
pub proof fn lemma_drain_keeps_score(g: GameView)
    ensures
        drain_step(g).0.score == g.score,
        drain_step(g).0.balls_left == g.balls_left,
        drain_step(g).0.nudge_window == g.nudge_window,
        i64::MIN <= g.score <= i64::MAX ==> (drain_step(g).1 matches DrainEvent::GameOver {
            score,
            ..
        } ==> score == g.score),
        g.ball is Some ==> dying_step(g).0.score == g.score,
{
}

/// A charged launch in a game that is not over always fires a ball waiting
/// on the plunger again, whatever the balls left; the relaunch costs no ball
/// and changes nothing of the ball but `waiting` and `has_escaped`. A fresh
/// launch happens exactly when no ball is in play and a ball is left.
pub proof fn lemma_launch_outcomes(g: GameView, charged: bool)
    ensures
        charged && !g.over && g.ball is Some && g.ball->0.waiting ==> {
            let (after, outcome) = launch_step(g, charged);
            &&& outcome == Some(LaunchOutcome::Relaunched)
            &&& after.ball is Some
            &&& !after.ball->0.waiting
            &&& !after.ball->0.has_escaped
            &&& after.ball->0.dying == g.ball->0.dying
            &&& after.ball->0.dying_timer == g.ball->0.dying_timer
            &&& after.ball->0.outlane_grace == g.ball->0.outlane_grace
            &&& after.balls_left == g.balls_left
            &&& after.ball_save == BALL_SAVE_FRAMES
        },
        (launch_step(g, charged).1 == Some(LaunchOutcome::Launched)) == (charged && !g.over
            && g.ball is None && g.balls_left > 0),
        (launch_step(g, charged).1 == Some(LaunchOutcome::Relaunched)) == (charged && !g.over
            && g.ball is Some && g.ball->0.waiting),
        launch_step(g, charged).0.score == g.score,
        launch_step(g, charged).0.over == g.over,
        launch_step(g, charged).0.tilted == g.tilted,
        launch_step(g, charged).0.nudge_count == g.nudge_count,
        launch_step(g, charged).0.nudge_window == g.nudge_window,
        launch_step(g, charged).0.combo == g.combo,
{
}

/// A fresh launch puts a fresh ball in play: not dying, not waiting, still
/// in the plunger lane, no grace. A drain that is not saved leaves the ball
/// and the game's end state alone unless it ends the game, and only a
/// game-ending drain can change the high score.
pub proof fn lemma_fresh_launch_and_unsaved_drain(g: GameView, charged: bool)
    ensures
        launch_step(g, charged).1 == Some(LaunchOutcome::Launched) ==> {
            let b = launch_step(g, charged).0.ball->0;
            &&& launch_step(g, charged).0.ball is Some
            &&& !b.dying && b.dying_timer == 0 && !b.waiting && !b.has_escaped
                && b.outlane_grace == 0
            &&& launch_step(g, charged).0.balls_left == g.balls_left - 1
            &&& launch_step(g, charged).0.ball_save == BALL_SAVE_FRAMES
        },
        drain_step(g).1 != DrainEvent::BallSaved ==> drain_step(g).0.ball == g.ball,
        drain_step(g).1 == DrainEvent::BallSaved ==> {
            let b = drain_step(g).0.ball->0;
            &&& drain_step(g).0.ball is Some
            &&& !b.dying && b.dying_timer == 0 && !b.waiting && !b.has_escaped
                && b.outlane_grace == 0
            &&& drain_step(g).0.over == g.over
            &&& drain_step(g).0.high_score == g.high_score
        },
        drain_step(g).1 == DrainEvent::BallsRemain ==> drain_step(g).0.high_score
            == g.high_score,
        drain_step(g).0.over == (g.over || drain_step(g).1 is GameOver),
{
}

/// Every counted nudge opens the nudge window in full, whatever was left of
/// it, counts one more nudge and tilts on the `TILT_NUDGES`th; it touches
/// nothing else. So the count starts over only `NUDGE_RESET_FRAMES` frames
/// after the last nudge.
pub proof fn lemma_nudge_restarts_window(g: GameView, n: nat)
    ensures
        nudge_step(g).1 is Some == (!g.tilted && g.ball is Some && !g.over),
        nudge_step(g).1 is Some ==> {
            let after = nudge_step(g).0;
            &&& after.nudge_window == NUDGE_RESET_FRAMES
            &&& after.nudge_count == g.nudge_count + 1
            &&& after.tilted == (g.nudge_count + 1 >= TILT_NUDGES)
            &&& n < NUDGE_RESET_FRAMES ==> nudge_resets(after, n).nudge_count == g.nudge_count
                + 1
            &&& n >= NUDGE_RESET_FRAMES ==> nudge_resets(after, n).nudge_count == 0
        },
        nudge_step(g).0.score == g.score,
        nudge_step(g).0.balls_left == g.balls_left,
        nudge_step(g).0.over == g.over,
        nudge_step(g).0.ball == g.ball,
        nudge_step(g).0.high_score == g.high_score,
        nudge_step(g).0.ball_save == g.ball_save,
        nudge_step(g).0.combo == g.combo,
{
    if nudge_step(g).1 is Some {
        lemma_nudge_resets(nudge_step(g).0, n);
    }
}

/// Every scoring hit is worth exactly its points at 1x times the multiplier
/// (in halves) that the combo reaches with that hit, for a plain bumper, the
/// special bumper and a slingshot alike; the score grows by that gain and
/// nothing but the score and the combo changes.
pub proof fn lemma_hit_scores_with_multiplier(g: GameView, points: int)
    ensures
        score_step(g, points).1 == points * combo_hit(g.combo).multiplier / 2,
        score_step(g, points).0.score == g.score + points * combo_hit(g.combo).multiplier / 2,
        score_step(g, points).0.combo == combo_hit(g.combo),
        score_step(g, points).0.balls_left == g.balls_left,
        score_step(g, points).0.ball == g.ball,
        score_step(g, points).0.high_score == g.high_score,
        score_step(g, points).0.ball_save == g.ball_save,
        bumper_points(false) == 50,
        bumper_points(true) == 100,
        SLINGSHOT_POINTS == 10,
{
}

/// A dying frame that does not drain only counts the ball's dying timer down
/// by one: the ball stays dying and keeps all its other fields, and the game
/// is otherwise unchanged. It drains exactly when the timer was at most one,
/// and then the ball is out of play unless the ball save puts a new one in.
pub proof fn lemma_dying_frame(g: GameView)
    requires
        g.ball is Some,
    ensures
        dying_step(g).1 is None == (g.ball->0.dying_timer > 1),
        dying_step(g).1 is None ==> {
            let (after, _) = dying_step(g);
            &&& after.ball is Some
            &&& after.ball->0.dying_timer == g.ball->0.dying_timer - 1
            &&& after.ball->0.dying == g.ball->0.dying
            &&& after.ball->0.waiting == g.ball->0.waiting
            &&& after.ball->0.has_escaped == g.ball->0.has_escaped
            &&& after.ball->0.outlane_grace == g.ball->0.outlane_grace
            &&& after.score == g.score
            &&& after.balls_left == g.balls_left
            &&& after.tilted == g.tilted
            &&& after.ball_save == g.ball_save
            &&& after.combo == g.combo
        },
        dying_step(g).1 is Some ==> dying_step(g).0.ball == if dying_step(g).1 == Some(
            DrainEvent::BallSaved,
        ) {
            Some(fresh_ball())
        } else {
            None::<BallStatus>
        },
{
}

/// A frame of the nudge window touches only the window and, when it runs
/// out, the nudge count.
pub proof fn lemma_nudge_reset_frame(g: GameView)
    ensures
        nudge_reset_step(g).0.score == g.score,
        nudge_reset_step(g).0.balls_left == g.balls_left,
        nudge_reset_step(g).0.ball == g.ball,
        nudge_reset_step(g).0.tilted == g.tilted,
        nudge_reset_step(g).0.over == g.over,
        nudge_reset_step(g).0.ball_save == g.ball_save,
        nudge_reset_step(g).0.combo == g.combo,
        g.nudge_window > 0 ==> nudge_reset_step(g).0.nudge_window == g.nudge_window - 1,
        g.nudge_window > 1 ==> nudge_reset_step(g).0.nudge_count == g.nudge_count,
        g.nudge_window == 1 ==> nudge_reset_step(g).0.nudge_count == 0,
        g.nudge_window == 0 ==> nudge_reset_step(g) == (g, false),
{
}

/// The ball save and the combo each count their own frames down by one,
/// stopping at zero, and touch nothing else of the game.
pub proof fn lemma_timer_frames(g: GameView)
    ensures
        ball_save_frame(g).ball_save == if g.ball_save > 0 {
            g.ball_save - 1
        } else {
            0
        },
        ball_save_frame(g).combo == g.combo,
        ball_save_frame(g).score == g.score,
        ball_save_frame(g).balls_left == g.balls_left,
        ball_save_frame(g).ball == g.ball,
        ball_save_frame(g).tilted == g.tilted,
        ball_save_frame(g).nudge_window == g.nudge_window,
        combo_frame(g).combo.frames_left == if g.combo.frames_left > 0 {
            g.combo.frames_left - 1
        } else {
            0
        },
        combo_frame(g).combo.multiplier == g.combo.multiplier,
        combo_frame(g).ball_save == g.ball_save,
        combo_frame(g).score == g.score,
        combo_frame(g).balls_left == g.balls_left,
        combo_frame(g).ball == g.ball,
        combo_frame(g).tilted == g.tilted,
        combo_frame(g).nudge_window == g.nudge_window,
{
}

/// A new game has no score, all its balls, no ball in play, no tilt,
/// nudges or timers, a 1x combo and the given high score.
pub proof fn lemma_new_game(high_score: int)
    ensures
        new_game(high_score).score == 0,
        new_game(high_score).balls_left == 3,
        !new_game(high_score).over,
        new_game(high_score).ball is None,
        !new_game(high_score).tilted,
        new_game(high_score).nudge_count == 0,
        new_game(high_score).nudge_window == 0,
        new_game(high_score).ball_save == 0,
        new_game(high_score).combo.multiplier == 2,
        new_game(high_score).combo.frames_left == 0,
        new_game(high_score).high_score == high_score,
{
}

/// A reset starts a full game: no score, all balls, no ball in play, no
/// tilt, nudges or timers, and the same high score.
pub proof fn lemma_reset_starts_over(g: GameView)
    ensures
        reset_step(g).score == 0,
        reset_step(g).balls_left == BALLS_PER_GAME,
        !reset_step(g).over,
        reset_step(g).ball is None,
        !reset_step(g).tilted,
        reset_step(g).nudge_count == 0,
        reset_step(g).nudge_window == 0,
        reset_step(g).ball_save == 0,
        reset_step(g).combo == combo_reset(),
        reset_step(g).high_score == g.high_score,
{
}

/// The state of one game.
pub struct GameState {
    pub score: i64,
    pub balls_left: i32,
    pub over: bool,
    pub ball: Option<BallStatus>,
    pub tilted: bool,
    pub nudge_count: i32,
    pub high_score: i64,
    /// Frames left before the nudge count starts over.
    pub nudge_reset_frames_left: u32,
    pub ball_save: BallSave,
    pub combo: Combo,
}

impl View for GameState {
    type V = GameView;

    open spec fn view(&self) -> GameView {
        GameView {
            score: self.score as int,
            balls_left: self.balls_left as int,
            over: self.over,
            ball: self.ball,
            tilted: self.tilted,
            nudge_count: self.nudge_count as int,
            high_score: self.high_score as int,
            nudge_window: self.nudge_reset_frames_left as int,
            ball_save: self.ball_save@,
            combo: self.combo@,
        }
    }
}

impl GameState {
    /// A game that has not started; `high_score` is the best score so far.
    pub fn new(high_score: i64) -> (r: Self)
        ensures
            r@ == new_game(high_score as int),
    {
        GameState {
            score: 0,
            balls_left: BALLS_PER_GAME,
            over: false,
            ball: None,
            tilted: false,
            nudge_count: 0,
            high_score,
            nudge_reset_frames_left: 0,
            ball_save: BallSave::default(),
            combo: Combo::default(),
        }
    }

    /// The launch was released; `charged` says whether it was charged
    /// enough to fire. Decides between a fresh launch and a relaunch of the
    /// ball waiting on the plunger.
    pub fn trigger_launch(&mut self, charged: bool) -> (r: Option<LaunchOutcome>)
        ensures
            (final(self)@, r) == launch_step(old(self)@, charged),
    {
        if self.over || !charged {
            return None;
        }
        if self.ball.is_none() && self.balls_left > 0 {
            self.balls_left = self.balls_left - 1;
            self.ball = Some(BallStatus::default());
            self.ball_save.start();
            return Some(LaunchOutcome::Launched);
        }
        if let Some(b) = self.ball {
            if b.waiting {
                self.ball = Some(BallStatus { waiting: false, has_escaped: false, ..b });
                self.ball_save.start();
                return Some(LaunchOutcome::Relaunched);
            }
        }
        None
    }

    /// The table was nudged. On `Some`, the nudge counted and the caller
    /// pushes the ball and shakes the table.
    pub fn nudge_game(&mut self) -> (r: Option<NudgeEvent>)
        requires
            old(self).tilted || old(self).ball is None || old(self).over || old(self).nudge_count
                < i32::MAX,
        ensures
            (final(self)@, r) == nudge_step(old(self)@),
    {
        if self.tilted || self.ball.is_none() || self.over {
            return None;
        }
        self.nudge_count = self.nudge_count + 1;
        self.nudge_reset_frames_left = NUDGE_RESET_FRAMES;
        if self.nudge_count >= TILT_NUDGES {
            self.tilted = true;
            Some(NudgeEvent::Tilted)
        } else {
            Some(NudgeEvent::Warning { count: self.nudge_count })
        }
    }

    /// One frame of the nudge window. Returns `true` on exactly the frame
    /// the window runs out while the idle message is due.
    pub fn tick_nudge_reset(&mut self) -> (r: bool)
        ensures
            (final(self)@, r) == nudge_reset_step(old(self)@),
    {
        if self.nudge_reset_frames_left == 0 {
            return false;
        }
        self.nudge_reset_frames_left = self.nudge_reset_frames_left - 1;
        if self.nudge_reset_frames_left > 0 {
            return false;
        }
        self.nudge_count = 0;
        !self.tilted && !self.over && self.ball.is_some()
    }

    /// One frame of the ball save.
    pub fn tick_ball_save(&mut self)
        ensures
            final(self)@ == ball_save_frame(old(self)@),
    {
        self.ball_save.tick();
    }

    /// One frame of the combo window.
    pub fn tick_combo(&mut self)
        ensures
            final(self)@ == combo_frame(old(self)@),
    {
        self.combo.tick();
    }

    /// Whether a drain now would be saved (unless the table is tilted).
    pub fn is_ball_save_active(&self) -> (r: bool)
        ensures
            r == (self@.ball_save > 0),
    {
        self.ball_save.is_active()
    }

    /// Frames left of the ball save, out of `BALL_SAVE_FRAMES`.
    pub fn ball_save_frames_left(&self) -> (r: i32)
        ensures
            r == self@.ball_save,
            0 <= r <= BALL_SAVE_FRAMES,
    {
        self.ball_save.frames_left()
    }

    /// The combo multiplier, in halves.
    pub fn combo_multiplier(&self) -> (r: u32)
        ensures
            r == self@.combo.multiplier,
            COMBO_BASE <= r <= COMBO_MAX,
    {
        self.combo.multiplier()
    }

    /// Frames left in the combo window, out of `COMBO_WINDOW_FRAMES`.
    pub fn combo_frames_left(&self) -> (r: i32)
        ensures
            r == self@.combo.frames_left,
            0 <= r <= COMBO_WINDOW_FRAMES,
    {
        self.combo.frames_left()
    }

    /// Whether a ball is in play and not waiting on the plunger.
    pub fn ball_active(&self) -> (r: bool)
        ensures
            r == (self.ball is Some && !self.ball->0.waiting),
    {
        match self.ball {
            Some(b) => !b.waiting,
            None => false,
        }
    }

    /// Whether holding the launch button charges the plunger: only while no
    /// ball is active and the game is not over.
    pub fn can_charge(&self) -> (r: bool)
        ensures
            r == (!(self.ball is Some && !self.ball->0.waiting) && !self.over),
    {
        !self.ball_active() && !self.over
    }

    /// A bumper was hit: applies the combo multiplier and adds to the score.
    /// Returns the points gained.
    pub fn score_bumper_hit(&mut self, special: bool) -> (r: i64)
        requires
            old(self)@.score + score_step(old(self)@, bumper_points(special)).1 <= i64::MAX,
        ensures
            (final(self)@, r as int) == score_step(old(self)@, bumper_points(special)),
    {
        let mult = self.combo.register_hit();
        let m = mult as i64;
        let gain: i64 = if special {
            assert(hit_gain(SPECIAL_BUMPER_POINTS as int, m as int) == 50 * m) by {
                assert(SPECIAL_BUMPER_POINTS * m == 100 * m);
            }
            50 * m
        } else {
            assert(hit_gain(BUMPER_POINTS as int, m as int) == 25 * m) by {
                assert(BUMPER_POINTS * m == 50 * m);
            }
            25 * m
        };
        self.score = self.score + gain;
        gain
    }

    /// A slingshot kicked: applies the combo multiplier and adds to the
    /// score. Returns the points gained.
    pub fn score_slingshot_hit(&mut self) -> (r: i64)
        requires
            old(self)@.score + score_step(old(self)@, SLINGSHOT_POINTS as int).1 <= i64::MAX,
        ensures
            (final(self)@, r as int) == score_step(old(self)@, SLINGSHOT_POINTS as int),
    {
        let mult = self.combo.register_hit();
        let m = mult as i64;
        let gain: i64 = 5 * m;
        assert(gain == hit_gain(SLINGSHOT_POINTS as int, m as int)) by {
            assert(SLINGSHOT_POINTS * m == 10 * m);
        }
        self.score = self.score + gain;
        gain
    }

    /// The ball fell out the bottom and its dying frames ran out.
    pub fn handle_drain(&mut self) -> (r: DrainEvent)
        ensures
            (final(self)@, r) == drain_step(old(self)@),
    {
        let was_tilted = self.tilted;
        self.tilted = false;
        self.nudge_count = 0;

        if !was_tilted && self.ball_save.is_active() {
            self.ball_save.consume();
            self.ball = Some(BallStatus::default());
            return DrainEvent::BallSaved;
        }
        self.ball_save.consume();
        self.combo.reset();

        if self.balls_left == 0 {
            self.over = true;
            let is_new_high_score = self.score > self.high_score;
            if is_new_high_score {
                self.high_score = self.score;
            }
            DrainEvent::GameOver { score: self.score, is_new_high_score }
        } else {
            DrainEvent::BallsRemain
        }
    }

    /// One frame of a dying ball; when its timer runs out the ball is taken
    /// out of play and the drain is handled.
    pub fn tick_dying_ball(&mut self) -> (r: Option<DrainEvent>)
        requires
            old(self).ball is Some,
            old(self).ball->0.dying_timer > i32::MIN,
        ensures
            (final(self)@, r) == dying_step(old(self)@),
    {
        let mut b = self.ball.unwrap();
        b.dying_timer = b.dying_timer - 1;
        if b.dying_timer <= 0 {
            self.ball = None;
            Some(self.handle_drain())
        } else {
            self.ball = Some(b);
            None
        }
    }

    /// Starts a new game; the high score outlives it.
    pub fn reset(&mut self)
        ensures
            final(self)@ == reset_step(old(self)@),
    {
        self.score = 0;
        self.balls_left = BALLS_PER_GAME;
        self.over = false;
        self.ball = None;
        self.tilted = false;
        self.nudge_count = 0;
        self.nudge_reset_frames_left = 0;
        self.ball_save.consume();
        self.combo.reset();
    }
}

} // verus!
