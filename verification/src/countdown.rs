//! Frame countdowns that stop at zero, as used by every timer of the table.

use vstd::prelude::*;

verus! {

/// Frames left after one tick of a countdown that stops at zero.
pub open spec fn countdown_tick(frames: int) -> int {
    if frames > 0 { frames - 1 } else { 0 }
}

/// Frames left after `ticks` ticks of a countdown that stops at zero.
pub open spec fn countdown_after(frames: int, ticks: nat) -> int
    decreases ticks,
{
    if ticks == 0 { frames } else { countdown_tick(countdown_after(frames, (ticks - 1) as nat)) }
}

/// A countdown stops at zero: after `ticks` ticks, `frames - ticks` frames are
/// left, or none.
pub proof fn lemma_countdown_after(frames: int, ticks: nat)
    requires
        frames >= 0,
    ensures
        countdown_after(frames, ticks) == if frames >= ticks { frames - ticks } else { 0 },
    decreases ticks,
{
    if ticks > 0 {
        lemma_countdown_after(frames, (ticks - 1) as nat);
    }
}

} // verus!
