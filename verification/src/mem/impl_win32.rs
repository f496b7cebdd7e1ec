//! The protected value for Windows, which keeps the secret encrypted by the
//! in-place memory encryption of the operating system.
//!
//! That encryption works on whole blocks, so the secret sits in a buffer
//! that is padded to a multiple of the block size. This module sizes and
//! fills that buffer and keeps it once it is encrypted. The two calls into
//! the operating system are made by the caller, on the buffers that this
//! module hands out.
//!
//! A failure of either call is fatal. A buffer that was not encrypted is
//! never kept, and a copy that was not decrypted is never handed out: the
//! caller ends the process instead.

use vstd::prelude::*;
use windows::Win32::Security::Cryptography::CRYPTPROTECTMEMORY_BLOCK_SIZE;
use crate::mem::secret::{zeros, SecretBytes};

verus! {

/// The block size of the in-place memory encryption, in bytes.
pub const BLOCK_SIZE: usize = 16;

/// Reads the block size from the platform's own definitions.
///
/// Trusted: returns `CRYPTPROTECTMEMORY_BLOCK_SIZE` of the `windows` crate,
/// a constant that is 16.
#[verifier::external_body]
fn platform_block_size() -> (n: usize)
    ensures
        n == BLOCK_SIZE,
{
    CRYPTPROTECTMEMORY_BLOCK_SIZE as usize
}

/// The size of the buffer for a secret of `data_size` bytes: `data_size`
/// and the padding up to the next multiple of the block size. A size that
/// is a multiple already still gets a whole block of padding.
pub open spec fn spec_protected_size(data_size: int) -> int {
    data_size + (BLOCK_SIZE as int - data_size % (BLOCK_SIZE as int))
}

/// The padding is between one byte and one block, and the padded size is a
/// multiple of the block size.
pub proof fn lemma_protected_size_bounds(data_size: int)
    requires
        0 <= data_size,
    ensures
        data_size + 1 <= spec_protected_size(data_size) <= data_size + BLOCK_SIZE,
        spec_protected_size(data_size) % (BLOCK_SIZE as int) == 0,
{
}

/// A secret of exactly `k` blocks gets a buffer of `k + 1` blocks.
pub proof fn lemma_protected_size_of_whole_blocks(k: int)
    requires
        0 <= k,
    ensures
        spec_protected_size(k * BLOCK_SIZE) == (k + 1) * BLOCK_SIZE,
{
}

/// What is protected is what is revealed, where the decryption of the
/// operating system undoes its encryption.
///
/// `staged` is the buffer that [`Win32ProtectedValue::stage`] makes of
/// `value`, `stored` the buffer kept after `encrypt` has run over it, and
/// `copy` a copy of `stored` after `decrypt` has run over it. The value of
/// `copy` is then `value`, with its length and the padded size.
pub proof fn lemma_encrypted_round_trip(
    value: Seq<u8>,
    staged: SecretBytes,
    stored: SecretBytes,
    copy: SecretBytes,
    encrypt: spec_fn(Seq<u8>) -> Seq<u8>,
    decrypt: spec_fn(Seq<u8>) -> Seq<u8>,
)
    requires
        staged.spec_len() == value.len(),
        staged.spec_buffer() == value + zeros(
            (spec_protected_size(value.len() as int) - value.len()) as nat,
        ),
        stored.spec_len() == staged.spec_len(),
        stored.spec_buffer() == encrypt(staged.spec_buffer()),
        copy.spec_len() == stored.spec_len(),
        copy.spec_buffer() == decrypt(stored.spec_buffer()),
        decrypt(encrypt(staged.spec_buffer())) == staged.spec_buffer(),
    ensures
        copy@ == value,
        copy.spec_len() == value.len(),
        copy.spec_buffer().len() == spec_protected_size(value.len() as int),
{
    assert(copy@ =~= value);
}

/// A secret held in the padded buffer that the operating system has
/// encrypted in place.
pub struct Win32ProtectedValue {
    protected_data: SecretBytes,
}

impl Win32ProtectedValue {
    #[verifier::type_invariant]
    spec fn inv(&self) -> bool {
        Self::sized_for_secret(self.protected_data)
    }

    /// The stored buffer.
    pub closed spec fn spec_protected_data(&self) -> SecretBytes {
        self.protected_data
    }

    /// `buf` has the padded size that belongs to its logical length.
    pub open spec fn sized_for_secret(buf: SecretBytes) -> bool {
        buf.spec_buffer().len() == spec_protected_size(buf.spec_len() as int)
    }

    /// Returns the size of the buffer that a secret of `data_size` bytes needs.
    pub fn protected_size(data_size: usize) -> (n: usize)
        requires
            spec_protected_size(data_size as int) <= usize::MAX,
        ensures
            n == spec_protected_size(data_size as int),
    {
        let block_size: usize = platform_block_size();
        data_size + (block_size - (data_size % block_size))
    }

    /// Returns the padded buffer for `value`, still in the clear: `value`
    /// at its start, zeros behind it, and the length of `value` as its
    /// logical length. It is locked in RAM where the platform allows it.
    /// The operating system is to encrypt the whole buffer in place before
    /// it is handed to [`Self::new`].
    pub fn stage(value: &[u8]) -> (buf: SecretBytes)
        requires
            spec_protected_size(value@.len() as int) <= usize::MAX,
        ensures
            Self::sized_for_secret(buf),
            buf.spec_len() == value@.len(),
            buf@ == value@,
            buf.spec_buffer() == value@ + zeros(
                (spec_protected_size(value@.len() as int) - value@.len()) as nat,
            ),
            buf.spec_want_lock(),
    {
        let n: usize = value.len();
        let data_size: usize = Self::protected_size(n);
        let mut buf = SecretBytes::new(data_size, true);
        let whole = buf.mut_buffer();
        let mut i: usize = 0;
        while i < n
            invariant
                i <= n,
                n == value@.len(),
                n < data_size,
                whole@.len() == data_size,
                forall|j: int| 0 <= j < i ==> whole@[j] == value@[j],
                forall|j: int| i <= j < data_size ==> whole@[j] == 0u8,
            decreases n - i,
        {
            whole[i] = value[i];
            i += 1;
        }
        assert(whole@ =~= value@ + zeros((data_size - n) as nat));
        buf.set_len(n);
        assert(buf@ =~= value@);
        buf
    }

    /// Keeps `protected_data`, the buffer of [`Self::stage`] after the
    /// operating system has encrypted it in place. `encrypted` is what the
    /// operating system answered.
    ///
    /// There is no protected value without encryption: where the operating
    /// system failed, the buffer still holds the secret in the clear and
    /// the caller has to end the process.
    pub fn new(protected_data: SecretBytes, encrypted: bool) -> (p: Self)
        requires
            Self::sized_for_secret(protected_data),
            encrypted,
        ensures
            p.spec_protected_data() == protected_data,
    {
        Self { protected_data }
    }

    /// Returns the stored, encrypted buffer.
    pub fn protected_data(&self) -> (buf: &SecretBytes)
        ensures
            *buf == self.spec_protected_data(),
            Self::sized_for_secret(*buf),
    {
        proof {
            use_type_invariant(self);
        }
        &self.protected_data
    }

    /// Hands out `copy`, a buffer of [`Self::encrypted_copy`] after the
    /// operating system has decrypted it in place. `decrypted` is what the
    /// operating system answered. The value of the copy is then the secret.
    ///
    /// No copy is handed out without decryption: where the operating
    /// system failed, the caller has to end the process.
    pub fn revealed(copy: SecretBytes, decrypted: bool) -> (secret: SecretBytes)
        requires
            decrypted,
        ensures
            secret == copy,
    {
        copy
    }

    /// Returns a copy of the stored, encrypted buffer, with the logical
    /// length of the secret, for the operating system to decrypt in place.
    pub fn encrypted_copy(&self) -> (buf: SecretBytes)
        ensures
            Self::sized_for_secret(buf),
            buf.spec_buffer() == self.spec_protected_data().spec_buffer(),
            buf.spec_len() == self.spec_protected_data().spec_len(),
            buf.spec_want_lock() == self.spec_protected_data().spec_want_lock(),
            buf.spec_locked() ==> buf.spec_want_lock(),
    {
        proof {
            use_type_invariant(self);
        }
        self.protected_data.clone()
    }
}

} // verus!
