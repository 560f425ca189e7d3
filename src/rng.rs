use vstd::prelude::*;

verus! {

/// The multiplier of the generator's linear congruence.
pub const MULTIPLIER: u64 = 6364136223846793005;

/// The increment of the generator's linear congruence.
pub const INCREMENT: u64 = 1442695040888963407;

/// A draw lies in `0 .. UNIT`; it stands for the fraction `draw / UNIT` of one.
pub const UNIT: u64 = 1_000_000_000;

/// The state that follows `s`: `s * MULTIPLIER + INCREMENT`, modulo 2^64.
#[verifier::opaque]
pub open spec fn next_state(s: u64) -> u64 {
    ((s as int * MULTIPLIER as int + INCREMENT as int) % 0x1_0000_0000_0000_0000) as u64
}

/// The draw that state `s` yields: its upper 32 bits scaled into `0 .. UNIT`.
#[verifier::opaque]
pub open spec fn draw_of(s: u64) -> nat {
    ((s as int / 0x1_0000_0000) * UNIT as int / 0x1_0000_0000) as nat
}

/// A seeded source of uniform draws in `0 .. UNIT`.
///
/// Each draw advances the state once and reads the draw off the new state,
/// so that the sequence of draws is a function of the seed alone.
#[derive(Clone, Copy, Debug, PartialEq, Eq)]
pub struct LinearCongruentialGenerator {
    pub state: u64,
}

impl LinearCongruentialGenerator {
    /// A generator whose state is the seed.
    pub fn new(seed: u64) -> (r: Self)
        ensures
            r.state == seed,
    {
        LinearCongruentialGenerator { state: seed }
    }

    /// Advances the state and returns the draw of the new state.
    pub fn next_unit(&mut self) -> (r: u64)
        ensures
            final(self).state == next_state(old(self).state),
            r == draw_of(final(self).state),
            r < UNIT,
    {
        proof {
            reveal(next_state);
            reveal(draw_of);
        }
        let product = self.state.wrapping_mul(MULTIPLIER);
        let s = product.wrapping_add(INCREMENT);
        proof {
            let m: int = 0x1_0000_0000_0000_0000;
            let x: int = old(self).state as int * MULTIPLIER as int;
            assert(product as int == x % m);
            vstd::arithmetic::div_mod::lemma_add_mod_noop(x, INCREMENT as int, m);
            vstd::arithmetic::div_mod::lemma_small_mod(INCREMENT as nat, m as nat);
            if product as int + INCREMENT as int >= m {
                vstd::arithmetic::div_mod::lemma_mod_sub_multiples_vanish(
                    product as int + INCREMENT as int,
                    m,
                );
                vstd::arithmetic::div_mod::lemma_small_mod(
                    (product as int + INCREMENT as int - m) as nat,
                    m as nat,
                );
            } else {
                vstd::arithmetic::div_mod::lemma_small_mod(
                    (product as int + INCREMENT as int) as nat,
                    m as nat,
                );
            }
        }
        self.state = s;
        let high = s / 0x1_0000_0000;
        assert(high * UNIT < 0x1_0000_0000 * UNIT) by (nonlinear_arith)
            requires
                high < 0x1_0000_0000,
        ;
        let r = high * UNIT / 0x1_0000_0000;
        assert(r < UNIT) by (nonlinear_arith)
            requires
                r == high * UNIT / 0x1_0000_0000,
                high < 0x1_0000_0000,
        ;
        r
    }
}

} // verus!
