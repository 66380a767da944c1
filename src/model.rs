//! The mathematical model of the generator: its state as a pair of 64-bit
//! words, the transition, the output function and the jump polynomial.
use vstd::prelude::*;

verus! {

/// The state of a generator: the words `s0` and `s1`.
pub type State = (u64, u64);

/// First word of the jump polynomial (its low 64 coefficients).
pub const JUMP0: u64 = 0xbeac0467eba5facb;

/// Second word of the jump polynomial (its high 64 coefficients).
pub const JUMP1: u64 = 0xd86b048b86aa9922;

/// `x` rotated left by `n` bits, for `0 < n < 64`.
pub open spec fn rotl(x: u64, n: u64) -> u64 {
    (x << n) | (x >> (64 - n) as u64)
}

/// First word of the fixed seed of an unseeded generator.
pub const DEFAULT_S0: u64 = 0x193a6754a8a7d469;

/// Second word of the fixed seed of an unseeded generator.
pub const DEFAULT_S1: u64 = 0x97830e05113ba7bb;

/// The state that a seed pair sets.
pub open spec fn seed_state(seed: [u64; 2]) -> State {
    (seed[0], seed[1])
}

/// The 64-bit output drawn from state `s`: `s0 + s1` modulo 2^64.
pub open spec fn output(s: State) -> u64 {
    ((s.0 + s.1) % 0x1_0000_0000_0000_0000) as u64
}

/// The 32-bit output drawn from state `s`: the low 32 bits of the 64-bit one.
pub open spec fn output32(s: State) -> u32 {
    (output(s) % 0x1_0000_0000) as u32
}

/// The state that follows `s`.
pub open spec fn step(s: State) -> State {
    let t = s.1 ^ s.0;
    (rotl(s.0, 55) ^ t ^ (t << 14u64), rotl(t, 36))
}

/// The state reached from `s` after `n` outputs.
pub open spec fn advance(s: State, n: nat) -> State
    decreases n,
{
    if n == 0 {
        s
    } else {
        step(advance(s, (n - 1) as nat))
    }
}

/// The first `n` 64-bit outputs of a generator in state `s`.
pub open spec fn outputs(s: State, n: nat) -> Seq<u64> {
    Seq::new(n, |i: int| output(advance(s, i as nat)))
}

/// The first `n` 32-bit outputs of a generator in state `s`.
pub open spec fn outputs32(s: State, n: nat) -> Seq<u32> {
    Seq::new(n, |i: int| output32(advance(s, i as nat)))
}

/// Whether coefficient `k` (for `k < 128`) of the jump polynomial is set.
pub open spec fn jump_bit(k: nat) -> bool {
    if k < 64 {
        (JUMP0 >> (k as u64)) & 1 == 1
    } else {
        (JUMP1 >> ((k - 64) as u64)) & 1 == 1
    }
}

/// Word-wise exclusive or of two states.
pub open spec fn xor_state(a: State, b: State) -> State {
    (a.0 ^ b.0, a.1 ^ b.1)
}

/// The exclusive or of the states `advance(s, k)` over every `k < n` whose
/// coefficient in the jump polynomial is set.
pub open spec fn jump_sum(s: State, n: nat) -> State
    decreases n,
{
    if n == 0 {
        (0u64, 0u64)
    } else {
        let prev = jump_sum(s, (n - 1) as nat);
        if jump_bit((n - 1) as nat) {
            xor_state(prev, advance(s, (n - 1) as nat))
        } else {
            prev
        }
    }
}

/// The state that a jump leads to from `s`.
pub open spec fn jumped(s: State) -> State {
    jump_sum(s, 128)
}

/// Only the all-zero state steps to the all-zero state.
pub proof fn lemma_step_zero_iff(s: State)
    ensures
        (step(s) == (0u64, 0u64)) == (s == (0u64, 0u64)),
{
    let a = s.0;
    let b = s.1;
    assert((rotl(a, 55) ^ (b ^ a) ^ ((b ^ a) << 14u64) == 0 && rotl(b ^ a, 36) == 0) == (a == 0
        && b == 0)) by (bit_vector);
}

} // verus!
