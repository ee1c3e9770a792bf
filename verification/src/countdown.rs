//! The pre-roll countdown.
//!
//! The driver renders one frame per second until the countdown is done. The
//! remaining seconds are computed from the wall-clock time elapsed since the
//! stage was entered — not from a decrement counter — so rendering delays do
//! not accumulate drift. No command is honored during the countdown. The
//! driver owns the clock and the sleep; this module decides what each frame
//! shows and when the stage ends.

use vstd::prelude::*;

verus! {

/// One frame of the countdown: the seconds still to show, whether the
/// lead-in label accompanies them, and whether the stage is over.
#[derive(Clone, Copy, Debug, PartialEq, Eq, Structural)]
pub struct CountdownFrame {
    /// Whole seconds still to show, counting down to zero.
    pub remaining: u64,
    /// The lead-in label is shown above every frame but the last.
    pub show_label: bool,
    /// The stage ends once the whole countdown has elapsed.
    pub done: bool,
}

/// The seconds still to show after `elapsed_secs` of a countdown from
/// `total_secs`: their difference, never below zero.
pub open spec fn spec_countdown_remaining(total_secs: int, elapsed_secs: int) -> int {
    if elapsed_secs >= total_secs {
        0
    } else {
        total_secs - elapsed_secs
    }
}

/// Decide the countdown frame for the wall-clock seconds elapsed since the
/// stage was entered.
pub fn countdown_frame(total_secs: u64, elapsed_secs: u64) -> (f: CountdownFrame)
    ensures
        f.remaining as int == spec_countdown_remaining(total_secs as int, elapsed_secs as int),
        f.show_label == (f.remaining > 0),
        f.done == (elapsed_secs >= total_secs),
{
    let remaining = if elapsed_secs >= total_secs {
        0
    } else {
        total_secs - elapsed_secs
    };
    CountdownFrame { remaining, show_label: remaining > 0, done: elapsed_secs >= total_secs }
}

} // verus!
