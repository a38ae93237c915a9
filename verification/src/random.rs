use vstd::prelude::*;

verus! {

/// Increment added to the generator state on every draw (the SplitMix64
/// "golden gamma" constant).
pub const GOLDEN_GAMMA: u64 = 0x9E37_79B9_7F4A_7C15;

/// First multiplier of the SplitMix64 output mixing function.
pub const MIX_MULTIPLIER_1: u64 = 0xBF58_476D_1CE4_E5B9;

/// Second multiplier of the SplitMix64 output mixing function.
pub const MIX_MULTIPLIER_2: u64 = 0x94D0_49BB_1331_11EB;

/// The generator state that follows `s`: one step of the SplitMix64 stream.
pub open spec fn next_generator_state(s: u64) -> u64 {
    vstd::wrapping::u64_specs::wrapping_add(s, GOLDEN_GAMMA)
}

/// The SplitMix64 output mixing function applied to a state word.
pub open spec fn mix_state(z: u64) -> u64 {
    let a = vstd::wrapping::u64_specs::wrapping_mul(z ^ (z >> 30), MIX_MULTIPLIER_1);
    let b = vstd::wrapping::u64_specs::wrapping_mul(a ^ (a >> 27), MIX_MULTIPLIER_2);
    b ^ (b >> 31)
}

/// The value a generator with state `s` hands out on its next draw.
pub open spec fn generator_output(s: u64) -> u64 {
    mix_state(next_generator_state(s))
}

/// The generator state after `k` draws starting from state `s`.
pub open spec fn state_after(s: u64, k: nat) -> u64
    decreases k,
{
    if k == 0 {
        s
    } else {
        next_generator_state(state_after(s, (k - 1) as nat))
    }
}

/// Taking `a + b` steps is the same as taking `a` steps and then `b` more.
pub proof fn lemma_state_after_add(s: u64, a: nat, b: nat)
    ensures
        state_after(s, a + b) == state_after(state_after(s, a), b),
    decreases b,
{
    if b > 0 {
        lemma_state_after_add(s, a, (b - 1) as nat);
    }
}

/// Deterministic pseudo-random source: a SplitMix64 stream.
///
/// The whole generator is one 64-bit state word; every draw advances the
/// state by a fixed increment and hands out a mixed copy of the new state.
/// The sequence of draws is a pure function of the seed, which is what makes
/// a generation pass reproducible.
pub struct RandomDeterministic {
    state: u64,
}

impl View for RandomDeterministic {
    type V = u64;

    closed spec fn view(&self) -> u64 {
        self.state
    }
}

impl RandomDeterministic {
    /// A fresh generator whose state is exactly the given seed.
    pub fn new_from_seed(seed: u64) -> (r: RandomDeterministic)
        ensures
            r@ == seed,
    {
        RandomDeterministic { state: seed }
    }

    /// Draw one 64-bit value and advance the state by one step.
    pub fn next_u64(&mut self) -> (r: u64)
        ensures
            final(self)@ == next_generator_state(old(self)@),
            r == generator_output(old(self)@),
    {
        self.state = self.state.wrapping_add(GOLDEN_GAMMA);
        let z = self.state;
        let a = (z ^ (z >> 30)).wrapping_mul(MIX_MULTIPLIER_1);
        let b = (a ^ (a >> 27)).wrapping_mul(MIX_MULTIPLIER_2);
        b ^ (b >> 31)
    }
}

} // verus!
