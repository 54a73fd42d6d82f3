//! Rules and bookkeeping of a pinball table: the table's integer geometry,
//! the ball-save and combo timers, the discrete game state machine (balls,
//! score, nudge/tilt, drains, high score) and the per-ball timers.
//!
//! Ball motion and collision response are floating-point physics and live
//! with the caller; this crate owns every decision that does not depend on
//! them and reports what happened as typed events.

pub mod constants;
pub mod countdown;
pub mod ball_save;
pub mod combo;
pub mod entities;
pub mod state;
