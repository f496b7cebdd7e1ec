//! The keystream that hides a protected value from casual memory scans.
//!
//! The stream is a 64-bit linear congruential generator that is always run
//! from its seed: byte `i` of the stream depends on the seed and on `i` alone.

use vstd::prelude::*;

verus! {

/// The multiplier of the congruential step.
pub const MASK_MULTIPLIER: u64 = 6364136223846793005;

/// One step of the generator: `state * MASK_MULTIPLIER + 1` modulo 2^64.
pub open spec fn mask_step(state: u64) -> u64 {
    ((state as int * MASK_MULTIPLIER as int + 1) % 0x1_0000_0000_0000_0000) as u64
}

/// The byte that a state emits: bits 32 to 39.
pub open spec fn mask_output(state: u64) -> u8 {
    ((state as int / 0x1_0000_0000) % 0x100) as u8
}

/// The state of a generator started from `seed` after `n` steps.
pub open spec fn mask_state(seed: u64, n: nat) -> u64
    decreases n,
{
    if n == 0 {
        seed
    } else {
        mask_step(mask_state(seed, (n - 1) as nat))
    }
}

/// Byte `i` of the keystream of `seed`, counted from 0.
pub open spec fn mask_byte(seed: u64, i: nat) -> u8 {
    mask_output(mask_state(seed, i + 1))
}

/// `data` with each byte combined by XOR with the keystream byte of its index.
pub open spec fn masked(seed: u64, data: Seq<u8>) -> Seq<u8> {
    Seq::new(data.len(), |i: int| data[i] ^ mask_byte(seed, i as nat))
}

/// Masking twice with the same seed gives the data back.
pub proof fn lemma_mask_self_inverse(seed: u64, data: Seq<u8>)
    ensures
        masked(seed, masked(seed, data)) == data,
{
    assert forall|i: int| 0 <= i < data.len() implies masked(seed, masked(seed, data))[i]
        == data[i] by {
        let d: u8 = data[i];
        let k: u8 = mask_byte(seed, i as nat);
        assert((d ^ k) ^ k == d) by (bit_vector);
    }
    assert(masked(seed, masked(seed, data)) =~= data);
}

/// The generator of the keystream.
pub struct ByteMaskGenerator {
    state: u64,
}

impl ByteMaskGenerator {
    /// The current state of the generator.
    pub closed spec fn spec_state(&self) -> u64 {
        self.state
    }

    /// Creates a generator whose state is `seed`.
    pub fn new(seed: u64) -> (g: Self)
        ensures
            g.spec_state() == seed,
    {
        Self { state: seed }
    }

    /// Returns the current state.
    pub fn state(&self) -> (s: u64)
        ensures
            s == self.spec_state(),
    {
        self.state
    }

    /// Advances the generator by one step and returns the byte of the new state.
    pub fn next(&mut self) -> (b: u8)
        ensures
            final(self).spec_state() == mask_step(old(self).spec_state()),
            b == mask_output(final(self).spec_state()),
    {
        let stepped: u64 = self.state.wrapping_mul(MASK_MULTIPLIER).wrapping_add(1);
        assert(stepped == mask_step(self.state)) by {
            // Reducing the product first and the sum after gives what
            // reducing the sum gives.
            let product: int = self.state as int * MASK_MULTIPLIER as int;
            assert((product + 1) % 0x1_0000_0000_0000_0000 == (product % 0x1_0000_0000_0000_0000
                + 1) % 0x1_0000_0000_0000_0000) by (nonlinear_arith);
        }
        self.state = stepped;
        let b: u8 = ((stepped >> 32) & 0xFF) as u8;
        assert(((stepped >> 32) & 0xFF) == (stepped as int / 0x1_0000_0000) % 0x100) by (bit_vector);
        b
    }
}

} // verus!
