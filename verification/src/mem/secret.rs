//! A byte buffer for secrets: wiped when it is released, and locked in RAM
//! while it lives, where the platform allows it.

use std::ops::{Deref, DerefMut};
use vstd::prelude::*;
use zeroize::Zeroize;
use crate::mem::lock::{lock_mem, lock_supported, unlock_mem_core};

verus! {

/// A sequence of `n` zero bytes.
pub open spec fn zeros(n: nat) -> Seq<u8> {
    Seq::new(n, |i: int| 0u8)
}

/// Overwrites every byte of `buf` with zero, by writes that the compiler
/// may not remove.
///
/// Trusted: calls `zeroize::Zeroize::zeroize` on the slice, which stores
/// the default value of the element type, 0 for `u8`, at each index with a
/// volatile write and leaves the length as it is. Its one assertion, that
/// the length fits in `isize`, holds of every slice.
#[verifier::external_body]
fn wipe(buf: &mut [u8])
    ensures
        final(buf)@ == zeros(old(buf)@.len()),
    opens_invariants none
    no_unwind
{
    buf.zeroize();
}

/// Turns a vector into a buffer of fixed size.
///
/// Trusted: calls `Vec::into_boxed_slice`, which keeps the elements and
/// their order and gives up spare capacity.
#[verifier::external_body]
fn into_fixed(v: Vec<u8>) -> (b: Box<[u8]>)
    ensures
        b@ == v@,
{
    v.into_boxed_slice()
}

/// A byte buffer whose contents are wiped when it is dropped.
///
/// The buffer has a fixed size and a logical length that may be smaller.
/// The value is the first `len` bytes of the buffer.
///
/// Whether the buffer is to be locked in RAM is said once, when it is made.
/// Whether it is locked is what the platform answered.
pub struct SecretBytes {
    value: Box<[u8]>,
    want_lock: bool,
    locked: bool,
    len: usize,
}

impl View for SecretBytes {
    type V = Seq<u8>;

    /// The value: the first `len` bytes of the buffer.
    open spec fn view(&self) -> Seq<u8> {
        self.spec_buffer().take(self.spec_len() as int)
    }
}

impl SecretBytes {
    /// The whole buffer.
    pub closed spec fn spec_buffer(&self) -> Seq<u8> {
        self.value@
    }

    /// The logical length.
    pub closed spec fn spec_len(&self) -> usize {
        self.len
    }

    /// Whether the buffer is locked in RAM.
    pub closed spec fn spec_locked(&self) -> bool {
        self.locked
    }

    /// Whether the buffer was asked to be locked in RAM when it was made.
    pub closed spec fn spec_want_lock(&self) -> bool {
        self.want_lock
    }

    /// The logical length does not exceed the size of the buffer.
    pub open spec fn wf(&self) -> bool {
        self.spec_len() <= self.spec_buffer().len()
    }

    /// Creates a zero-filled buffer of `size` bytes, with `size` as its
    /// logical length. With `locked`, tries to lock it in RAM; whether that
    /// worked is what [`Self::locked`] reports.
    pub fn new(size: usize, locked: bool) -> (s: Self)
        ensures
            s.wf(),
            s.spec_buffer() == zeros(size as nat),
            s.spec_len() == size,
            s.spec_want_lock() == locked,
            s.spec_locked() ==> locked && size > 0,
    {
        let mut value: Vec<u8> = Vec::with_capacity(size);
        value.resize(size, 0);
        assert(value@ =~= zeros(size as nat));
        let mut ret = Self { value: into_fixed(value), want_lock: locked, locked: false, len: size };
        if locked {
            ret.lock();
        }
        ret
    }

    /// Creates a buffer that holds a copy of `value`. With `locked`, tries
    /// to lock it in RAM before the bytes are copied into it.
    pub fn with_value(value: &[u8], locked: bool) -> (s: Self)
        ensures
            s.wf(),
            s.spec_buffer() == value@,
            s.spec_len() == value@.len(),
            s.spec_want_lock() == locked,
            s.spec_locked() ==> locked && value@.len() > 0,
    {
        let n: usize = value.len();
        let mut ret = Self::new(n, locked);
        let mut i: usize = 0;
        while i < n
            invariant
                i <= n,
                n == value@.len(),
                ret.value@.len() == n,
                ret.len == n,
                ret.want_lock == locked,
                ret.locked ==> locked && n > 0,
                forall|j: int| 0 <= j < i ==> ret.value@[j] == value@[j],
            decreases n - i,
        {
            ret.value[i] = value[i];
            i += 1;
        }
        assert(ret.value@ =~= value@);
        ret
    }

    /// Returns the value for writing.
    pub fn mut_value(&mut self) -> (v: &mut [u8])
        requires
            old(self).wf(),
        ensures
            v@ == old(self)@,
            final(self).spec_buffer() == final(v)@ + old(self).spec_buffer().skip(
                old(self).spec_len() as int,
            ),
            final(self).spec_len() == old(self).spec_len(),
            final(self).spec_locked() == old(self).spec_locked(),
            final(self).spec_want_lock() == old(self).spec_want_lock(),
    {
        let all: &mut [u8] = &mut *self.value;
        let (head, _tail) = all.split_at_mut(self.len);
        head
    }

    /// Returns the value.
    pub fn value(&self) -> (v: &[u8])
        requires
            self.wf(),
        ensures
            v@ == self@,
    {
        let all: &[u8] = &*self.value;
        &all[0..self.len]
    }

    /// Returns the whole buffer for writing. It may be larger than the value.
    pub fn mut_buffer(&mut self) -> (v: &mut [u8])
        ensures
            v@ == old(self).spec_buffer(),
            final(self).spec_buffer() == final(v)@,
            final(self).spec_len() == old(self).spec_len(),
            final(self).spec_locked() == old(self).spec_locked(),
            final(self).spec_want_lock() == old(self).spec_want_lock(),
    {
        &mut *self.value
    }

    /// Returns the whole buffer. It may be larger than the value.
    pub fn buffer(&self) -> (v: &[u8])
        ensures
            v@ == self.spec_buffer(),
    {
        &*self.value
    }

    /// Returns true if the buffer is locked in RAM.
    pub fn locked(&self) -> (b: bool)
        ensures
            b == self.spec_locked(),
    {
        self.locked
    }

    /// Returns true if the buffer was asked to be locked in RAM when it was
    /// made. A copy of the buffer is asked the same.
    pub fn lock_wanted(&self) -> (b: bool)
        ensures
            b == self.spec_want_lock(),
    {
        self.want_lock
    }

    /// Returns the logical length.
    #[verifier::when_used_as_spec(spec_len)]
    pub fn len(&self) -> (n: usize)
        ensures
            n == self.spec_len(),
    {
        self.len
    }

    /// Sets the logical length to `size`, or to the size of the buffer if
    /// `size` is larger. The buffer itself is left as it is.
    pub fn set_len(&mut self, size: usize)
        ensures
            final(self).wf(),
            size <= old(self).spec_buffer().len() ==> final(self).spec_len() == size,
            size > old(self).spec_buffer().len() ==> final(self).spec_len() == old(
                self,
            ).spec_buffer().len(),
            final(self).spec_buffer() == old(self).spec_buffer(),
            final(self).spec_locked() == old(self).spec_locked(),
            final(self).spec_want_lock() == old(self).spec_want_lock(),
    {
        let cap: usize = self.buffer_len();
        self.len = if size <= cap { size } else { cap };
    }

    /// Returns true if the logical length is 0.
    pub fn is_empty(&self) -> (b: bool)
        ensures
            b == (self.spec_len() == 0),
    {
        self.len == 0
    }

    /// Returns the size of the buffer.
    pub fn buffer_len(&self) -> (n: usize)
        ensures
            n == self.spec_buffer().len(),
    {
        self.value.len()
    }

    /// Locks the buffer in RAM, unless it is empty or already locked. The
    /// flag is set only if the platform reports success.
    fn lock(&mut self)
        ensures
            final(self).spec_buffer() == old(self).spec_buffer(),
            final(self).spec_len() == old(self).spec_len(),
            final(self).spec_want_lock() == old(self).spec_want_lock(),
            old(self).spec_locked() ==> final(self).spec_locked(),
            final(self).spec_locked() ==> old(self).spec_locked() || old(self).spec_len() > 0,
    {
        if !self.is_empty() && !self.locked {
            self.locked = lock_mem(&*self.value);
        }
    }

    /// Releases the lock, if the buffer is locked. The flag is cleared only
    /// if the platform reports success.
    ///
    /// This runs while the buffer is dropped, so it goes to the platform
    /// directly: each step there must be known not to unwind.
    fn unlock(&mut self)
        ensures
            final(self).spec_buffer() == old(self).spec_buffer(),
            final(self).spec_len() == old(self).spec_len(),
            final(self).spec_want_lock() == old(self).spec_want_lock(),
            final(self).spec_locked() ==> old(self).spec_locked(),
        opens_invariants none
        no_unwind
    {
        if self.locked {
            self.locked = !unlock_mem_core(&*self.value);
        }
    }

    /// Overwrites the whole buffer with zeros, then releases the lock. This
    /// is what happens when the buffer is dropped; here the buffer lives on,
    /// with its size and its logical length.
    pub fn shred(&mut self)
        ensures
            final(self).spec_buffer() == zeros(old(self).spec_buffer().len()),
            final(self).spec_len() == old(self).spec_len(),
            final(self).spec_want_lock() == old(self).spec_want_lock(),
            final(self).spec_locked() ==> old(self).spec_locked(),
        opens_invariants none
        no_unwind
    {
        wipe(&mut *self.value);
        self.unlock();
    }

    /// Whether this platform supports memory locking.
    pub fn lock_supported() -> (supported: bool)
        ensures
            supported,
    {
        lock_supported()
    }
}

impl Clone for SecretBytes {
    /// Copies the whole buffer into a buffer of its own, with the same
    /// logical length. The copy is asked to be locked if this buffer was,
    /// and makes its own attempt: it may be locked where this one is not,
    /// and the other way round.
    fn clone(&self) -> (s: Self)
        ensures
            s.wf(),
            s.spec_buffer() == self.spec_buffer(),
            self.wf() ==> s.spec_len() == self.spec_len(),
            s.spec_want_lock() == self.spec_want_lock(),
            s.spec_locked() ==> self.spec_want_lock() && self.spec_buffer().len() > 0,
    {
        let mut ret = Self::with_value(&*self.value, self.want_lock);
        ret.set_len(self.len);
        ret
    }
}

impl Deref for SecretBytes {
    type Target = [u8];

    /// Returns the value, as [`SecretBytes::value`] does.
    fn deref(&self) -> (v: &[u8])
        ensures
            self.wf() ==> v@ == self@,
    {
        if self.len <= self.value.len() {
            self.value()
        } else {
            // No method sets a logical length beyond the buffer.
            &*self.value
        }
    }
}

impl DerefMut for SecretBytes {
    /// Returns the value for writing, as [`SecretBytes::mut_value`] does.
    fn deref_mut(&mut self) -> (v: &mut [u8])
        ensures
            old(self).wf() ==> v@ == old(self)@ && final(self).spec_buffer() == final(v)@ + old(
                self,
            ).spec_buffer().skip(old(self).spec_len() as int),
            final(self).spec_len() == old(self).spec_len(),
            final(self).spec_locked() == old(self).spec_locked(),
            final(self).spec_want_lock() == old(self).spec_want_lock(),
    {
        if self.len <= self.value.len() {
            self.mut_value()
        } else {
            // No method sets a logical length beyond the buffer.
            &mut *self.value
        }
    }
}

impl Drop for SecretBytes {
    /// Overwrites the whole buffer with zeros, then releases the lock, on
    /// whatever path the buffer goes out of use.
    fn drop(&mut self)
        ensures
            final(self).spec_buffer() == zeros(old(self).spec_buffer().len()),
            final(self).spec_len() == old(self).spec_len(),
            final(self).spec_want_lock() == old(self).spec_want_lock(),
            final(self).spec_locked() ==> old(self).spec_locked(),
        opens_invariants none
        no_unwind
    {
        self.shred();
    }
}

} // verus!
