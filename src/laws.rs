//! Properties of the generator's streams, stated over the model and proved.
use vstd::prelude::*;

use crate::model::{
    advance, jump_bit, jump_sum, jumped, lemma_step_zero_iff, output, outputs, outputs32, rotl,
    seed_state, step, xor_state, State,
};
use crate::xoroshiro::Xoroshiro128Rng;

verus! {

/// Stepping first and then advancing `n` times is advancing `n + 1` times.
pub proof fn lemma_advance_after_step(s: State, n: nat)
    ensures
        advance(step(s), n) == advance(s, n + 1),
    decreases n,
{
    if n > 0 {
        lemma_advance_after_step(s, (n - 1) as nat);
        assert(advance(s, n + 1) == step(advance(s, n)));
        assert(advance(step(s), n) == step(advance(step(s), (n - 1) as nat)));
    } else {
        assert(advance(s, 1) == step(advance(s, 0)));
    }
}

/// The stream of a state is its first output followed by the stream of the
/// state after it: `n + 1` successive calls of `next_u64` return exactly
/// `outputs(s, n + 1)`.
pub proof fn lemma_outputs_unfold(s: State, n: nat)
    ensures
        outputs(s, n + 1) == seq![output(s)] + outputs(step(s), n),
{
    assert forall|i: int| 0 <= i < n implies #[trigger] advance(step(s), i as nat) == advance(
        s,
        (i + 1) as nat,
    ) by {
        lemma_advance_after_step(s, i as nat);
    }
    assert(outputs(s, n + 1) =~= seq![output(s)] + outputs(step(s), n));
}

/// Determinism: two generators built from the same seed pair produce the
/// same first `n` outputs, for every `n`.
pub proof fn lemma_determinism(seed: [u64; 2], g1: Xoroshiro128Rng, g2: Xoroshiro128Rng, n: nat)
    requires
        g1@ == seed_state(seed),
        g2@ == seed_state(seed),
    ensures
        outputs(g1@, n) == outputs(seed_state(seed), n),
        outputs(g1@, n) == outputs(g2@, n),
{
}

/// Reseeding forgets the past: whatever state `before` a generator was in
/// (after any number of steps), once `reseed(seed)` turned it into
/// `reseeded`, it produces the same first `n` outputs as a generator `fresh`
/// built from `seed` directly.
pub proof fn lemma_reseed_independence(
    before: Xoroshiro128Rng,
    seed: [u64; 2],
    reseeded: Xoroshiro128Rng,
    fresh: Xoroshiro128Rng,
    n: nat,
)
    requires
        reseeded@ == seed_state(seed),
        fresh@ == seed_state(seed),
    ensures
        outputs(reseeded@, n) == outputs(fresh@, n),
        outputs(reseeded@, n) == outputs(seed_state(seed), n),
{
}

/// The 32-bit output at each step is the low 32 bits of the 64-bit output
/// at that step.
pub proof fn lemma_truncation(s: State, n: nat)
    ensures
        forall|i: int|
            0 <= i < n ==> #[trigger] outputs32(s, n)[i] as int == outputs(s, n)[i] as int
                % 0x1_0000_0000,
{
}

/// The all-zero state is a fixed point: seeded with `(0, 0)`, a generator
/// stays there and every output is zero.
pub proof fn lemma_zero_seed(n: nat)
    ensures
        advance((0u64, 0u64), n) == (0u64, 0u64),
        outputs((0u64, 0u64), n) == Seq::new(n, |i: int| 0u64),
        outputs32((0u64, 0u64), n) == Seq::new(n, |i: int| 0u32),
    decreases n,
{
    lemma_step_zero_iff((0u64, 0u64));
    if n > 0 {
        lemma_zero_seed((n - 1) as nat);
    }
    assert forall|i: int| 0 <= i < n implies #[trigger] advance((0u64, 0u64), i as nat) == (0u64, 0u64) by {
        lemma_zero_seed(i as nat);
    }
    assert(outputs((0u64, 0u64), n) =~= Seq::new(n, |i: int| 0u64));
    assert(outputs32((0u64, 0u64), n) =~= Seq::new(n, |i: int| 0u32));
}

/// A state other than `(0, 0)` never reaches `(0, 0)`: a generator seeded
/// from entropy, which starts away from zero, never degenerates.
pub proof fn lemma_nonzero_stays_nonzero(s: State, n: nat)
    requires
        s != (0u64, 0u64),
    ensures
        advance(s, n) != (0u64, 0u64),
    decreases n,
{
    if n > 0 {
        lemma_nonzero_stays_nonzero(s, (n - 1) as nat);
        lemma_step_zero_iff(advance(s, (n - 1) as nat));
    }
}

/// The transition is linear over word-wise exclusive or.
pub proof fn lemma_step_linear(a: State, b: State)
    ensures
        step(xor_state(a, b)) == xor_state(step(a), step(b)),
{
    let (a0, a1, b0, b1) = (a.0, a.1, b.0, b.1);
    let (ta, tb) = (a1 ^ a0, b1 ^ b0);
    assert(rotl(a0 ^ b0, 55) ^ (ta ^ tb) ^ ((ta ^ tb) << 14u64) == (rotl(a0, 55) ^ ta ^ (ta
        << 14u64)) ^ (rotl(b0, 55) ^ tb ^ (tb << 14u64))) by (bit_vector);
    assert(rotl(ta ^ tb, 36) == rotl(ta, 36) ^ rotl(tb, 36)) by (bit_vector);
    assert((a1 ^ b1) ^ (a0 ^ b0) == ta ^ tb) by (bit_vector)
        requires
            ta == a1 ^ a0,
            tb == b1 ^ b0,
    ;
}

proof fn lemma_jump_sum_after_step(s: State, n: nat)
    ensures
        jump_sum(step(s), n) == step(jump_sum(s, n)),
    decreases n,
{
    if n == 0 {
        lemma_step_zero_iff((0u64, 0u64));
    } else {
        let m = (n - 1) as nat;
        lemma_jump_sum_after_step(s, m);
        lemma_advance_after_step(s, m);
        if jump_bit(m) {
            lemma_step_linear(jump_sum(s, m), advance(s, m));
        }
    }
}

/// A jump commutes with the transition: jumping from the state `n` steps
/// along a stream gives the state `n` steps along the jumped stream, as an
/// advance by any fixed number of steps would. So after a jump, the `m`
/// outputs that follow any `n` draws are those of the jumped stream.
pub proof fn lemma_jump_commutes_with_advance(s: State, n: nat, m: nat)
    ensures
        jumped(advance(s, n)) == advance(jumped(s), n),
        outputs(jumped(advance(s, n)), m) == outputs(advance(jumped(s), n), m),
    decreases n,
{
    if n > 0 {
        let k = (n - 1) as nat;
        lemma_jump_commutes_with_advance(s, k, m);
        lemma_jump_sum_after_step(advance(s, k), 128);
    }
}

} // verus!
