//! Rock-paper-scissors: turning a uniform draw from `[0, 1)` into an outcome.
//!
//! A uniform single-precision draw from `[0, 1)` is `k / 2^24` for an integer
//! `k < 2^24`; that numerator is the sample here. At single precision `0.33`
//! is `11072963 / 2^25` and `0.66` is `11072963 / 2^24`, so `x <= 0.33` holds
//! exactly when `k <= 5536481`, and `x <= 0.66` exactly when `k <= 11072963`.

use vstd::prelude::*;

verus! {

/// The number of distinct samples: the numerator stays below it.
pub const SAMPLE_RANGE: u32 = 16777216;

/// The largest sample at or below `0.33`.
pub const LOST_MAX: u32 = 5536481;

/// The largest sample at or below `0.66`.
pub const WIN_MAX: u32 = 11072963;

/// The outcome of one game, from the player's side.
#[derive(Clone, Copy, Debug, PartialEq, Eq, Structural)]
pub enum RpsOutcome {
    Lost,
    Win,
    Tied,
}

/// The outcome that a sample gives.
pub open spec fn outcome_of(sample: int) -> RpsOutcome {
    if sample <= LOST_MAX {
        RpsOutcome::Lost
    } else if sample <= WIN_MAX {
        RpsOutcome::Win
    } else {
        RpsOutcome::Tied
    }
}

/// The reply text of an outcome.
pub open spec fn outcome_text(o: RpsOutcome) -> Seq<char> {
    match o {
        RpsOutcome::Lost => "You lost"@,
        RpsOutcome::Win => "You win"@,
        RpsOutcome::Tied => "We tied"@,
    }
}

impl RpsOutcome {
    /// The reply text of this outcome.
    pub fn text(&self) -> (r: String)
        ensures
            r@ == outcome_text(*self),
    {
        match self {
            RpsOutcome::Lost => String::from_str("You lost"),
            RpsOutcome::Win => String::from_str("You win"),
            RpsOutcome::Tied => String::from_str("We tied"),
        }
    }
}

/// The outcome of a game for a sample below `SAMPLE_RANGE`.
pub fn rps_outcome(sample: u32) -> (r: RpsOutcome)
    requires
        sample < SAMPLE_RANGE,
    ensures
        r == outcome_of(sample as int),
{
    if sample <= LOST_MAX {
        RpsOutcome::Lost
    } else if sample <= WIN_MAX {
        RpsOutcome::Win
    } else {
        RpsOutcome::Tied
    }
}

/// Relies on rand::random: a value drawn from the thread-local generator.
/// Nothing is promised of the value.
pub assume_specification<T>[ rand::random::<T> ]() -> (r: T)
    where
        rand::distributions::Standard: rand::distributions::Distribution<T>,
;

/// Draws a uniform sample: the 24 high bits of a random `u32`, the bits that
/// make a uniform `f32` in `[0, 1)`.
pub fn draw_sample() -> (r: u32)
    ensures
        r < SAMPLE_RANGE,
{
    let raw: u32 = rand::random();
    let sample = raw >> 8u32;
    assert(raw >> 8u32 < 16777216u32) by (bit_vector);
    sample
}

} // verus!
