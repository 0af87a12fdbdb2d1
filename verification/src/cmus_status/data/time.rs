//! How far the current track has played.

use vstd::prelude::*;

verus! {

pub type Seconds = u32;

#[derive(Debug, Clone, Copy, PartialEq, Eq, Structural)]
pub struct CmusTime {
    pub duration: Seconds,
    pub position: Seconds,
}

/// `count * position / duration`, rounded to the nearest whole number; a half
/// is rounded up.
pub open spec fn rounded_share(count: nat, position: nat, duration: nat) -> nat
    recommends
        duration > 0,
{
    (2 * count * position + duration) / (2 * duration)
}

/// The share of nothing is nothing, the share of everything is everything,
/// and no share is more than the whole.
pub proof fn rounded_share_bounds(count: nat, position: nat, duration: nat)
    requires
        0 < duration,
        position <= duration,
    ensures
        rounded_share(count, position, duration) <= count,
        rounded_share(count, 0, duration) == 0,
        rounded_share(count, duration, duration) == count,
{
    let d = duration as int;
    let c = count as int;
    let p = position as int;
    assert(2 * c * 0 + d == d) by (nonlinear_arith);
    assert(d / (2 * d) == 0) by (nonlinear_arith)
        requires
            d > 0,
    ;
    assert((2 * c * d + d) / (2 * d) == c) by (nonlinear_arith)
        requires
            d > 0,
            c >= 0,
    ;
    assert((2 * c * p + d) / (2 * d) <= c) by (nonlinear_arith)
        requires
            d > 0,
            c >= 0,
            0 <= p <= d,
    ;
}

impl CmusTime {
    /// A track has a length, and the player is somewhere inside it.
    pub open spec fn wf(self) -> bool {
        0 < self.duration && self.position <= self.duration
    }

    /// Whether the time is [well formed](Self::wf).
    pub fn is_well_formed(&self) -> (b: bool)
        ensures
            b == self.wf(),
    {
        0 < self.duration && self.position <= self.duration
    }

    /// How many of `width` characters stand for the part of the track that
    /// has been played.
    pub fn filled_characters(&self, width: usize) -> (filled: usize)
        requires
            self.wf(),
        ensures
            filled == rounded_share(width as nat, self.position as nat, self.duration as nat),
            filled <= width,
    {
        proof {
            rounded_share_bounds(width as nat, self.position as nat, self.duration as nat);
            assert(2 * (width as nat) * (self.position as nat) <= 2 * 0x1_0000_0000_0000_0000
                * 0x1_0000_0000) by (nonlinear_arith)
                requires
                    width <= 0xffff_ffff_ffff_ffff,
                    self.position <= 0xffff_ffff,
            ;
        }
        let doubled: u128 = 2 * (width as u128) * (self.position as u128);
        let share: u128 = (doubled + self.duration as u128) / (2 * (self.duration as u128));
        share as usize
    }
}

} // verus!
