//! Words-per-minute rate arithmetic: the clamped range and the per-token
//! hold duration derived from a rate.

use vstd::prelude::*;

verus! {

/// Highest words-per-minute rate a session may use.
pub const MAX_WPM: u64 = 1000;

/// Lowest words-per-minute rate a session may use.
pub const MIN_WPM: u64 = 150;

/// A rate clamped into the inclusive range `[MIN_WPM, MAX_WPM]`.
pub open spec fn spec_clamp_wpm(r: int) -> int {
    if r < MIN_WPM as int {
        MIN_WPM as int
    } else if r > MAX_WPM as int {
        MAX_WPM as int
    } else {
        r
    }
}

/// True of a rate that lies inside the allowed range.
pub open spec fn wpm_in_range(r: int) -> bool {
    MIN_WPM as int <= r <= MAX_WPM as int
}

/// Clamp a requested rate into the allowed range.
pub fn clamp_wpm(r: u64) -> (c: u64)
    ensures
        c as int == spec_clamp_wpm(r as int),
        wpm_in_range(c as int),
{
    if r < MIN_WPM {
        MIN_WPM
    } else if r > MAX_WPM {
        MAX_WPM
    } else {
        r
    }
}

/// How long one token stays visible at the given rate, in milliseconds:
/// sixty seconds divided by the words shown per minute.
pub open spec fn spec_hold_duration_ms(rate: int) -> int
    recommends
        rate > 0,
{
    60000int / rate
}

/// Per-token hold duration in milliseconds for a rate in range.
pub fn hold_duration_ms(rate: u64) -> (d: u64)
    requires
        wpm_in_range(rate as int),
    ensures
        d as int == spec_hold_duration_ms(rate as int),
        60 <= d <= 400,
{
    proof {
        assert(60 <= 60000int / (rate as int) <= 400) by (nonlinear_arith)
            requires
                150 <= rate as int <= 1000,
        ;
    }
    60000 / rate
}

/// A lower rate never holds a token for less time than a higher rate.
pub proof fn lemma_hold_duration_antitone(r1: int, r2: int)
    requires
        wpm_in_range(r1),
        wpm_in_range(r2),
        r1 <= r2,
    ensures
        spec_hold_duration_ms(r1) >= spec_hold_duration_ms(r2),
{
    assert(60000int / r1 >= 60000int / r2) by (nonlinear_arith)
        requires
            150 <= r1 <= r2 <= 1000,
    ;
}

/// Between two rates whose integer-division hold durations differ at all,
/// the lower rate holds each token strictly longer. (Two distinct rates can
/// share a duration: integer division maps both 249 and 250 to 240 ms.)
pub proof fn lemma_hold_duration_strict(r1: int, r2: int)
    requires
        wpm_in_range(r1),
        wpm_in_range(r2),
        r1 < r2,
        spec_hold_duration_ms(r1) != spec_hold_duration_ms(r2),
    ensures
        spec_hold_duration_ms(r1) > spec_hold_duration_ms(r2),
{
    lemma_hold_duration_antitone(r1, r2);
}

} // verus!
