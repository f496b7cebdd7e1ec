//! Values that are kept in memory in an obfuscated form and decoded only
//! when they are asked for.

use std::num::NonZeroU64;
use std::sync::Arc;
use vstd::prelude::*;
use crate::mem::mask::{lemma_mask_self_inverse, mask_byte, mask_state, masked, ByteMaskGenerator};
use crate::mem::secret::SecretBytes;

verus! {

/// A secret that is stored encoded and handed out decoded.
///
/// How the secret is encoded is up to the type that implements this trait.
pub trait ProtectedValue: Send + Sync {
    /// The secret that this value guards. It is a function of the value
    /// alone: every call of [`Self::get_secret`] gives the same bytes.
    ///
    /// A type says here what it guards. One that does not leaves it open
    /// which bytes these are.
    open spec fn secret(&self) -> Seq<u8> {
        arbitrary()
    }

    /// Returns a fresh copy of the secret. The stored form is not touched.
    fn get_secret(&self) -> (s: SecretBytes)
        ensures
            s.wf(),
            s@ == self.secret(),
    ;
}

/// Draws a seed for the mask.
///
/// Trusted: calls `rand::random` for a `NonZeroU64`, which draws 64-bit
/// values from the thread's generator until one is not zero. Which value
/// comes is not specified.
#[verifier::external_body]
fn random_seed() -> (seed: u64)
    ensures
        seed != 0,
{
    rand::random::<NonZeroU64>().get()
}

/// A protected value for every platform: the secret is stored combined by
/// XOR with a keystream, and the seed of the keystream beside it.
pub struct DefaultProtectedValue {
    secret: SecretBytes,
    seed: u64,
}

impl DefaultProtectedValue {
    #[verifier::type_invariant]
    spec fn inv(&self) -> bool {
        &&& self.secret.spec_buffer().len() == self.secret.spec_len()
        &&& self.secret.spec_want_lock()
        &&& self.seed != 0
    }

    /// The stored, masked bytes.
    pub closed spec fn spec_masked(&self) -> Seq<u8> {
        self.secret@
    }

    /// Whether the stored bytes are locked in RAM.
    pub closed spec fn spec_locked(&self) -> bool {
        self.secret.spec_locked()
    }

    /// The seed of the mask.
    pub closed spec fn spec_seed(&self) -> u64 {
        self.seed
    }

    /// Protects a copy of `value` under a fresh random seed.
    pub fn new(value: &[u8]) -> (p: Self)
        ensures
            p.spec_seed() != 0,
            p.spec_masked() == masked(p.spec_seed(), value@),
            p.secret() == value@,
    {
        Self::with_seed(value, random_seed())
    }

    /// Protects a copy of `value` under `seed`.
    pub fn with_seed(value: &[u8], seed: u64) -> (p: Self)
        requires
            seed != 0,
        ensures
            p.spec_seed() == seed,
            p.spec_masked() == masked(seed, value@),
            p.secret() == value@,
    {
        let mut secret = SecretBytes::with_value(value, true);
        Self::apply_mask(seed, secret.mut_value());
        proof {
            lemma_mask_self_inverse(seed, value@);
            assert(secret.spec_buffer() =~= masked(seed, value@));
            assert(secret@ =~= masked(seed, value@));
        }
        Self { secret, seed }
    }

    /// Combines each byte of `value` by XOR with the keystream of `seed`,
    /// which is started anew at each call.
    pub fn apply_mask(seed: u64, value: &mut [u8])
        ensures
            final(value)@ == masked(seed, old(value)@),
    {
        let mut g = ByteMaskGenerator::new(seed);
        let n: usize = value.len();
        let mut i: usize = 0;
        while i < n
            invariant
                i <= n,
                n == old(value)@.len(),
                value@.len() == n,
                g.spec_state() == mask_state(seed, i as nat),
                forall|j: int| 0 <= j < i ==> value@[j] == old(value)@[j] ^ mask_byte(seed, j as nat),
                forall|j: int| i <= j < n ==> value@[j] == old(value)@[j],
            decreases n - i,
        {
            let k: u8 = g.next();
            value[i] = value[i] ^ k;
            i += 1;
        }
        assert(value@ =~= masked(seed, old(value)@));
    }

    /// Returns the stored, masked bytes.
    pub fn masked_secret(&self) -> (s: &SecretBytes)
        ensures
            s.wf(),
            s@ == self.spec_masked(),
            s.spec_buffer() == self.spec_masked(),
            s.spec_locked() == self.spec_locked(),
            s.spec_want_lock(),
    {
        proof {
            use_type_invariant(self);
        }
        &self.secret
    }

    /// Returns the seed of the mask.
    pub fn seed(&self) -> (seed: u64)
        ensures
            seed == self.spec_seed(),
            seed != 0,
    {
        proof {
            use_type_invariant(self);
        }
        self.seed
    }
}

impl ProtectedValue for DefaultProtectedValue {
    /// The stored bytes with the mask taken off.
    open spec fn secret(&self) -> Seq<u8> {
        masked(self.spec_seed(), self.spec_masked())
    }

    /// Copies the stored bytes and takes the mask off the copy. The copy
    /// is as long as the secret and has no spare bytes. It is asked to be
    /// locked in RAM, as the stored bytes were, and makes its own attempt.
    fn get_secret(&self) -> (s: SecretBytes)
        ensures
            s.spec_buffer() == self.secret(),
            s.spec_want_lock(),
            s.spec_locked() ==> self.secret().len() > 0,
    {
        proof {
            use_type_invariant(self);
        }
        let mut ret = self.secret.clone();
        Self::apply_mask(self.seed, ret.mut_value());
        proof {
            assert(ret.spec_buffer() =~= masked(self.seed, self.secret@));
            assert(ret@ =~= ret.spec_buffer());
        }
        ret
    }
}

/// What is protected is what is revealed: a value that stores `plain`
/// masked under its seed guards `plain`.
pub proof fn lemma_protect_reveal_round_trip(p: DefaultProtectedValue, plain: Seq<u8>)
    requires
        p.spec_masked() == masked(p.spec_seed(), plain),
    ensures
        p.secret() == plain,
{
    lemma_mask_self_inverse(p.spec_seed(), plain);
}

/// Protects `value` by the method that every platform has, and returns it
/// behind an [`Arc`], so that the stored form exists once however many hold
/// it.
pub fn create_protected_value(value: &[u8]) -> (p: Arc<DefaultProtectedValue>)
    ensures
        p.secret() == value@,
{
    Arc::new(DefaultProtectedValue::new(value))
}

} // verus!
