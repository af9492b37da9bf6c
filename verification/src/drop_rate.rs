//! The packet drop rate and the random draw that decides on one fragment.

use rand::Rng;
use vstd::prelude::*;

verus! {

/// Number of equally likely outcomes of one draw: a draw is a value below
/// this bound.
pub const DRAW_RANGE: u32 = 8_388_608;

/// The packet drop rate of a node, as the number of draws out of
/// [`DRAW_RANGE`] on which a fragment is dropped. No value is refused: one at
/// or above `DRAW_RANGE` drops on every draw.
#[derive(Clone, Copy, Debug, PartialEq, Eq)]
pub struct DropRate {
    pub dropping_draws: u32,
}

impl DropRate {
    /// Whether a fragment is dropped on `draw`.
    pub open spec fn drops(self, draw: u32) -> bool {
        draw < self.dropping_draws
    }

    /// The rate that drops on no draw.
    pub open spec fn never(self) -> bool {
        self.dropping_draws == 0
    }

    /// A rate that drops on every draw.
    pub open spec fn always(self) -> bool {
        self.dropping_draws >= DRAW_RANGE
    }

    pub fn new(dropping_draws: u32) -> (rate: Self)
        ensures
            rate.dropping_draws == dropping_draws,
    {
        DropRate { dropping_draws }
    }

    /// The rate of a node that forwards every fragment.
    pub fn zero() -> (rate: Self)
        ensures
            rate.never(),
            rate.dropping_draws == 0,
    {
        DropRate { dropping_draws: 0 }
    }

    /// The rate of a node that forwards no fragment.
    pub fn one() -> (rate: Self)
        ensures
            rate.always(),
            rate.dropping_draws == DRAW_RANGE,
    {
        DropRate { dropping_draws: DRAW_RANGE }
    }

    /// Decides on one fragment, given the draw made for it.
    pub fn decide(&self, draw: u32) -> (dropped: bool)
        ensures
            dropped == self.drops(draw),
    {
        draw < self.dropping_draws
    }
}

/// One draw from the thread's random number generator `rand::rng()`, by
/// `rand::Rng::random_range` on the range from zero up to but without
/// `bound`. Believed of it, not proved: the value lies in that range. Which
/// value comes is left open; two draws may differ. The range must not be
/// empty, or `random_range` panics.
#[verifier::external_body]
pub(crate) fn draw_below(bound: u32) -> (draw: u32)
    requires
        bound > 0,
    ensures
        draw < bound,
{
    rand::rng().random_range(0..bound)
}

} // verus!
