//! The generator itself.
use vstd::prelude::*;

use crate::model::{
    advance, jump_bit, jump_sum, jumped, lemma_step_zero_iff, output, output32, rotl, seed_state,
    step, State, DEFAULT_S0, DEFAULT_S1, JUMP0, JUMP1,
};

verus! {

/// `x` rotated left by `n` bits.
fn rotate_left(x: u64, n: u64) -> (r: u64)
    requires
        0 < n < 64,
    ensures
        r == rotl(x, n),
{
    (x << n) | (x >> (64 - n))
}

/// A Xoroshiro128+ generator: 128 bits of state, a shift/rotate-based linear
/// transition and the wrapping sum of the two state words as output.
#[derive(Clone, Debug)]
pub struct Xoroshiro128Rng {
    s0: u64,
    s1: u64,
}

impl View for Xoroshiro128Rng {
    type V = State;

    closed spec fn view(&self) -> State {
        (self.s0, self.s1)
    }
}

impl Xoroshiro128Rng {
    /// A generator whose state is exactly `seed`, unchecked: a zero seed
    /// gives the all-zero stream.
    pub fn from_seed(seed: [u64; 2]) -> (r: Xoroshiro128Rng)
        ensures
            r@ == seed_state(seed),
    {
        Xoroshiro128Rng { s0: seed[0], s1: seed[1] }
    }

    /// A generator with a fixed non-zero seed: every one yields the same
    /// stream. Meant for tests and benchmarks, not for randomness.
    pub fn new_unseeded() -> (r: Xoroshiro128Rng)
        ensures
            r@ == (DEFAULT_S0, DEFAULT_S1),
            r@ != (0u64, 0u64),
    {
        Xoroshiro128Rng::from_seed([DEFAULT_S0, DEFAULT_S1])
    }

    /// Sets the state to `seed`, whatever it was, with nothing discarded.
    pub fn reseed(&mut self, seed: [u64; 2])
        ensures
            final(self)@ == seed_state(seed),
    {
        self.s0 = seed[0];
        self.s1 = seed[1];
    }

    /// The seeding step of a generator drawn from an entropy source, given
    /// one draw of two words. A zero draw would leave the generator stuck at
    /// zero, so it yields `None` and the caller draws again. Otherwise the
    /// draw becomes the state and one output is discarded.
    pub fn from_entropy_draw(draw: [u64; 2]) -> (r: Option<Xoroshiro128Rng>)
        ensures
            r is None <==> draw[0] == 0 && draw[1] == 0,
            r matches Some(g) ==> g@ == step(seed_state(draw)) && g@ != (0u64, 0u64),
    {
        if draw[0] == 0 && draw[1] == 0 {
            None
        } else {
            let mut g = Xoroshiro128Rng::from_seed(draw);
            g.next_u64();
            proof {
                lemma_step_zero_iff(seed_state(draw));
            }
            Some(g)
        }
    }

    /// Returns the low 32 bits of the next 64-bit output; the state advances
    /// once, as for `next_u64`.
    pub fn next_u32(&mut self) -> (r: u32)
        ensures
            r == output32(old(self)@),
            r as int == output(old(self)@) as int % 0x1_0000_0000,
            final(self)@ == step(old(self)@),
    {
        let x = self.next_u64();
        let r = x as u32;
        assert(r == x % 0x1_0000_0000) by (bit_vector)
            requires
                r == x as u32,
        ;
        r
    }

    /// Returns the next 64-bit output and advances the state once.
    pub fn next_u64(&mut self) -> (r: u64)
        ensures
            r == output(old(self)@),
            final(self)@ == step(old(self)@),
    {
        let s0 = self.s0;
        let mut s1 = self.s1;
        let result = s0.wrapping_add(s1);
        s1 = s1 ^ s0;
        self.s0 = rotate_left(s0, 55) ^ s1 ^ (s1 << 14u64);
        self.s1 = rotate_left(s1, 36);
        result
    }

    /// Jumps ahead in the stream. The jump polynomial is the one for 2^64
    /// steps, so a jump stands for 2^64 calls of `next_u64` and splits one
    /// stream into non-overlapping ones for parallel use. The contract states
    /// the computation: the new state is the exclusive or of the states
    /// reached after `k` steps, over every `k < 128` whose coefficient in the
    /// jump polynomial is set.
    pub fn jump(&mut self)
        ensures
            final(self)@ == jumped(old(self)@),
    {
        let ghost start = self@;
        let mut a0: u64 = 0;
        let mut a1: u64 = 0;
        let mut j: usize = 0;
        while j < 2
            invariant
                j <= 2,
                self@ == advance(start, (64 * j) as nat),
                (a0, a1) == jump_sum(start, (64 * j) as nat),
            decreases 2 - j,
        {
            let v: u64 = if j == 0 { JUMP0 } else { JUMP1 };
            let mut b: u64 = 0;
            while b < 64
                invariant
                    j < 2,
                    b <= 64,
                    v == (if j == 0 { JUMP0 } else { JUMP1 }),
                    self@ == advance(start, (64 * j + b) as nat),
                    (a0, a1) == jump_sum(start, (64 * j + b) as nat),
                decreases 64 - b,
            {
                let ghost k = (64 * j + b) as nat;
                let set = v & (1u64 << b) != 0;
                proof {
                    assert(set == ((v >> b) & 1 == 1)) by (bit_vector)
                        requires
                            b < 64,
                            set == (v & (1u64 << b) != 0),
                    ;
                    if j == 0 {
                        assert(jump_bit(k) == ((JUMP0 >> b) & 1 == 1));
                    } else {
                        assert(jump_bit(k) == ((JUMP1 >> b) & 1 == 1));
                    }
                }
                if set {
                    a0 = a0 ^ self.s0;
                    a1 = a1 ^ self.s1;
                }
                self.next_u64();
                b = b + 1;
            }
            j = j + 1;
        }
        self.s0 = a0;
        self.s1 = a1;
    }
}

} // verus!
