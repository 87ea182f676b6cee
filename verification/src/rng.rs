//! Seedable pseudorandom generator.
//!
//! The simulation owns one of these and threads it through every randomized
//! choice (obstacle types, vehicle types, speeds, spawn gates), so that a
//! whole run is a deterministic function of the seed.  The generator is a
//! 64-bit linear congruential generator; draws take the high bits, which
//! have the longest period.

use vstd::prelude::*;

verus! {

/// Multiplier of the linear congruential step.
pub const LCG_MUL: u64 = 6364136223846793005;

/// Increment of the linear congruential step.
pub const LCG_INC: u64 = 1442695040888963407;

/// One step of the generator: multiply and add, modulo 2^64.
#[verifier::opaque]
pub open spec fn lcg_next(s: u64) -> u64 {
    vstd::wrapping::u64_specs::wrapping_add(
        vstd::wrapping::u64_specs::wrapping_mul(s, LCG_MUL),
        LCG_INC,
    )
}

/// The value drawn from state `s` when asked for a value below `n`.
#[verifier::opaque]
pub open spec fn lcg_draw(s: u64, n: u32) -> u32
    recommends
        n > 0,
{
    (((lcg_next(s) / 0x2_0000_0000) as u64) % n as u64) as u32
}

/// A draw below `n` really is below `n`.
pub broadcast proof fn lemma_lcg_draw_bound(s: u64, n: u32)
    requires
        n > 0,
    ensures
        #[trigger] lcg_draw(s, n) < n,
{
    reveal(lcg_draw);
}

/// Seedable pseudorandom generator for the simulation's randomized choices.
#[derive(Clone, Copy, Debug, PartialEq, Eq, Structural)]
pub struct GameRng {
    pub state: u64,
}

impl GameRng {
    /// A generator whose whole stream of draws is fixed by `seed`.
    pub fn new(seed: u64) -> (r: GameRng)
        ensures
            r.state == seed,
    {
        GameRng { state: seed }
    }

    /// Draw a value uniformly below `n`, advancing the generator state.
    pub fn next_below(&mut self, n: u32) -> (r: u32)
        requires
            n > 0,
        ensures
            final(self).state == lcg_next(old(self).state),
            r == lcg_draw(old(self).state, n),
            r < n,
    {
        proof {
            reveal(lcg_next);
            reveal(lcg_draw);
        }
        let next: u64 = self.state.wrapping_mul(LCG_MUL).wrapping_add(LCG_INC);
        self.state = next;
        let high: u64 = next / 0x2_0000_0000;
        (high % n as u64) as u32
    }
}

} // verus!
