//! The combo multiplier: hits in quick succession raise the multiplier
//! that scores are worth, up to a cap; a pause longer than the window
//! starts the chain over at 1x.
//!
//! The multiplier moves in steps of a half, so it is kept exactly as a count
//! of halves (see `COMBO_BASE`, `COMBO_STEP`, `COMBO_MAX`).

use vstd::prelude::*;

use crate::constants::{COMBO_BASE, COMBO_MAX, COMBO_STEP, COMBO_WINDOW_FRAMES};
use crate::countdown::{countdown_after, countdown_tick, lemma_countdown_after};

verus! {

/// What a combo holds: its multiplier in halves, and the frames left in
/// which a hit continues the chain.
pub struct ComboView {
    pub multiplier: int,
    pub frames_left: int,
}

/// A combo that has not been hit: 1x, window closed.
pub open spec fn combo_reset() -> ComboView {
    ComboView { multiplier: COMBO_BASE as int, frames_left: 0 }
}

/// A combo's multiplier lies between 1x and 4x, and its window between
/// closed and a full window.
pub open spec fn combo_in_range(c: ComboView) -> bool {
    &&& COMBO_BASE <= c.multiplier <= COMBO_MAX
    &&& 0 <= c.frames_left <= COMBO_WINDOW_FRAMES
}

/// A hit inside the window raises the multiplier one step, up to the cap;
/// a hit after the window closed starts over at 1x. Either way the window
/// opens again in full.
pub open spec fn combo_hit(c: ComboView) -> ComboView {
    ComboView {
        multiplier: if c.frames_left > 0 {
            if c.multiplier + COMBO_STEP <= COMBO_MAX {
                c.multiplier + COMBO_STEP
            } else {
                COMBO_MAX as int
            }
        } else {
            COMBO_BASE as int
        },
        frames_left: COMBO_WINDOW_FRAMES as int,
    }
}

/// One frame passes: the window shrinks, the multiplier stays.
pub open spec fn combo_tick(c: ComboView) -> ComboView {
    ComboView { multiplier: c.multiplier, frames_left: countdown_tick(c.frames_left) }
}

/// The combo after `n` hits in a row, with no frame between them.
pub open spec fn combo_hits(c: ComboView, n: nat) -> ComboView
    decreases n,
{
    if n == 0 { c } else { combo_hit(combo_hits(c, (n - 1) as nat)) }
}

/// The combo after `n` frames without a hit.
pub open spec fn combo_ticks(c: ComboView, n: nat) -> ComboView
    decreases n,
{
    if n == 0 { c } else { combo_tick(combo_ticks(c, (n - 1) as nat)) }
}

/// The combo timer of a game.
#[derive(Clone, Copy, Debug)]
pub struct Combo {
    multiplier: u32,
    frames_left: i32,
}

impl View for Combo {
    type V = ComboView;

    closed spec fn view(&self) -> ComboView {
        ComboView { multiplier: self.multiplier as int, frames_left: self.frames_left as int }
    }
}

impl Combo {
    #[verifier::type_invariant]
    spec fn in_range(self) -> bool {
        combo_in_range(self@)
    }

    /// Registers a hit and returns the multiplier it scores with, in halves.
    pub fn register_hit(&mut self) -> (r: u32)
        ensures
            final(self)@ == combo_hit(old(self)@),
            r == final(self)@.multiplier,
            combo_in_range(final(self)@),
    {
        proof {
            use_type_invariant(&*self);
        }
        self.multiplier = if self.frames_left > 0 {
            if self.multiplier + COMBO_STEP <= COMBO_MAX {
                self.multiplier + COMBO_STEP
            } else {
                COMBO_MAX
            }
        } else {
            COMBO_BASE
        };
        self.frames_left = COMBO_WINDOW_FRAMES;
        self.multiplier
    }

    /// One frame passes.
    pub fn tick(&mut self)
        ensures
            final(self)@ == combo_tick(old(self)@),
            combo_in_range(final(self)@),
    {
        proof {
            use_type_invariant(&*self);
        }
        if self.frames_left > 0 {
            self.frames_left = self.frames_left - 1;
        }
    }

    /// Ends the chain: back to 1x, window closed.
    pub fn reset(&mut self)
        ensures
            final(self)@ == combo_reset(),
    {
        *self = Combo { multiplier: COMBO_BASE, frames_left: 0 };
    }

    /// The current multiplier, in halves.
    pub fn multiplier(&self) -> (r: u32)
        ensures
            r == self@.multiplier,
            COMBO_BASE <= r <= COMBO_MAX,
    {
        proof {
            use_type_invariant(self);
        }
        self.multiplier
    }

    /// The frames left in the window; the share of the window left is this
    /// over `COMBO_WINDOW_FRAMES`.
    pub fn frames_left(&self) -> (r: i32)
        ensures
            r == self@.frames_left,
            0 <= r <= COMBO_WINDOW_FRAMES,
    {
        proof {
            use_type_invariant(self);
        }
        self.frames_left
    }
}

impl Default for Combo {
    /// A combo that has not been hit.
    fn default() -> (r: Self)
        ensures
            r@ == combo_reset(),
    {
        Combo { multiplier: COMBO_BASE, frames_left: 0 }
    }
}

/// Hits in a row from a fresh combo score 1x, 1.5x, 2x, ... up to 4x: after
/// `n` hits the multiplier is `COMBO_BASE + (n - 1) * COMBO_STEP` halves, or
/// the cap.
pub proof fn lemma_hits_in_a_row(n: nat)
    requires
        n >= 1,
    ensures
        combo_hits(combo_reset(), n).multiplier == if COMBO_BASE + (n - 1) * COMBO_STEP
            <= COMBO_MAX {
            COMBO_BASE + (n - 1) * COMBO_STEP
        } else {
            COMBO_MAX as int
        },
        combo_hits(combo_reset(), n).frames_left == COMBO_WINDOW_FRAMES,
    decreases n,
{
    reveal_with_fuel(combo_hits, 2);
    if n > 1 {
        lemma_hits_in_a_row((n - 1) as nat);
    }
}

/// Every combo reachable by hits and frames keeps its multiplier within
/// 1x..4x and its window within a full window.
pub proof fn lemma_combo_stays_in_range(c: ComboView, hits: nat, ticks: nat)
    requires
        combo_in_range(c),
    ensures
        combo_in_range(combo_hits(c, hits)),
        combo_in_range(combo_ticks(c, ticks)),
    decreases hits + ticks,
{
    if hits > 0 {
        lemma_combo_stays_in_range(c, (hits - 1) as nat, ticks);
    }
    if ticks > 0 {
        lemma_combo_stays_in_range(c, hits, (ticks - 1) as nat);
    }
}

/// The frames of a combo count down like any countdown.
proof fn lemma_combo_ticks_window(c: ComboView, n: nat)
    ensures
        combo_ticks(c, n).frames_left == countdown_after(c.frames_left, n),
        combo_ticks(c, n).multiplier == c.multiplier,
    decreases n,
{
    if n > 0 {
        lemma_combo_ticks_window(c, (n - 1) as nat);
    }
}

/// Once a full window of frames has passed without a hit, the next hit
/// starts the chain over at 1x; a hit after fewer frames continues it.
pub proof fn lemma_window_expiry(c: ComboView, ticks: nat)
    requires
        combo_in_range(c),
        c.frames_left == COMBO_WINDOW_FRAMES,
    ensures
        ticks >= COMBO_WINDOW_FRAMES ==> combo_hit(combo_ticks(c, ticks)).multiplier
            == COMBO_BASE,
        ticks < COMBO_WINDOW_FRAMES ==> combo_hit(combo_ticks(c, ticks)) == combo_hit(c),
{
    lemma_combo_ticks_window(c, ticks);
    lemma_countdown_after(c.frames_left, ticks);
}

} // verus!
