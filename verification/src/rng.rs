//! Deterministic, seedable random source for particle spawning. Injecting
//! the seed makes spawn sequences reproducible; the generator is a linear
//! congruential step on 64 bits.

use vstd::prelude::*;

verus! {

pub const LCG_MUL: u64 = 6364136223846793005;
pub const LCG_ADD: u64 = 1442695040888963407;

/// One generator step: multiply and add, modulo 2^64.
pub open spec fn next_state(s: u64) -> u64 {
    (((s as int) * (LCG_MUL as int) + LCG_ADD as int) % 0x1_0000_0000_0000_0000) as u64
}

/// The value `gen_range` draws from state `s` for the range `[lo, hi]`.
pub open spec fn range_val(s: u64, lo: int, hi: int) -> int
    recommends
        lo <= hi,
{
    lo + (next_state(s) as int) % (hi - lo + 1)
}

#[derive(Clone, Copy, PartialEq, Eq, Structural, Debug)]
pub struct SimRng {
    pub state: u64,
}

impl SimRng {
    /// A generator whose whole future is fixed by `seed`.
    pub fn new(seed: u64) -> (r: SimRng)
        ensures
            r.state == seed,
    {
        SimRng { state: seed }
    }

    /// Advance the state once and return it.
    pub fn next_u64(&mut self) -> (r: u64)
        ensures
            final(self).state == next_state(old(self).state),
            r == final(self).state,
    {
        proof {
            assert((self.state as int) * (LCG_MUL as int) + (LCG_ADD as int)
                <= u128::MAX) by (nonlinear_arith)
                requires
                    0 <= self.state < 0x1_0000_0000_0000_0000,
                    LCG_MUL == 6364136223846793005u64,
                    LCG_ADD == 1442695040888963407u64,
            ;
        }
        let wide: u128 = (self.state as u128) * (LCG_MUL as u128) + (LCG_ADD as u128);
        let next: u64 = (wide % 0x1_0000_0000_0000_0000_u128) as u64;
        self.state = next;
        next
    }

    /// A value drawn uniformly from `[lo, hi]`, advancing the state once.
    pub fn gen_range(&mut self, lo: i64, hi: i64) -> (r: i64)
        requires
            lo <= hi,
            -1_000_000_000_000 <= lo,
            hi <= 1_000_000_000_000,
        ensures
            final(self).state == next_state(old(self).state),
            r == range_val(old(self).state, lo as int, hi as int),
            lo <= r <= hi,
    {
        let raw = self.next_u64();
        let span: u64 = (hi - lo) as u64 + 1;
        let off: u64 = raw % span;
        lo + (off as i64)
    }
}

} // verus!
