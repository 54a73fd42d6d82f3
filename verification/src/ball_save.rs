//! The ball save: a countdown started on launch and consumed on a drain.

use vstd::prelude::*;

use crate::constants::BALL_SAVE_FRAMES;
use crate::countdown::{countdown_after, countdown_tick, lemma_countdown_after};

verus! {

/// A countdown timer, active while frames are left.
#[derive(Clone, Copy, Debug)]
pub struct BallSave {
    frames_left: i32,
}

impl View for BallSave {
    type V = int;

    /// The frames left before the ball save runs out.
    closed spec fn view(&self) -> int {
        self.frames_left as int
    }
}

impl BallSave {
    #[verifier::type_invariant]
    spec fn frames_in_range(self) -> bool {
        0 <= self.frames_left <= BALL_SAVE_FRAMES
    }

    /// Arms the ball save for a full period.
    pub fn start(&mut self)
        ensures
            final(self)@ == BALL_SAVE_FRAMES,
    {
        self.frames_left = BALL_SAVE_FRAMES;
    }

    /// Ends the ball save at once.
    pub fn consume(&mut self)
        ensures
            final(self)@ == 0,
    {
        self.frames_left = 0;
    }

    /// Counts one frame down, stopping at zero.
    pub fn tick(&mut self)
        ensures
            final(self)@ == countdown_tick(old(self)@),
            0 <= final(self)@ <= BALL_SAVE_FRAMES,
    {
        proof {
            use_type_invariant(&*self);
        }
        if self.frames_left > 0 {
            self.frames_left = self.frames_left - 1;
        }
    }

    /// Whether a drain right now would be saved.
    pub fn is_active(&self) -> (r: bool)
        ensures
            r == (self@ > 0),
    {
        self.frames_left > 0
    }

    /// The frames left; the share of the period left is this over
    /// `BALL_SAVE_FRAMES`.
    pub fn frames_left(&self) -> (r: i32)
        ensures
            r == self@,
            0 <= r <= BALL_SAVE_FRAMES,
    {
        proof {
            use_type_invariant(self);
        }
        self.frames_left
    }
}

impl Default for BallSave {
    /// An inactive ball save.
    fn default() -> (r: Self)
        ensures
            r@ == 0,
    {
        BallSave { frames_left: 0 }
    }
}

/// A ball save started by a launch protects against a drain during exactly
/// the next `BALL_SAVE_FRAMES - 1` ticks and runs out on tick
/// `BALL_SAVE_FRAMES`.
pub proof fn lemma_ball_save_lasts_its_period(ticks: nat)
    ensures
        (countdown_after(BALL_SAVE_FRAMES as int, ticks) > 0) == (ticks < BALL_SAVE_FRAMES),
{
    lemma_countdown_after(BALL_SAVE_FRAMES as int, ticks);
}

} // verus!
