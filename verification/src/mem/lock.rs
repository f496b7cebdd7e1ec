//! Pinning memory in RAM, so that the virtual memory system does not write
//! it to disk.

use vstd::prelude::*;

verus! {

/// Asks the operating system to keep the pages under `buf` in RAM.
///
/// Trusted: calls `region::lock` on the address of `buf` and its size in
/// bytes and forgets the guard it hands back, so that the pages stay
/// locked until [`unlock_mem_core`] releases them. `region::lock` reports a
/// size of zero and every failure of the operating system as an error,
/// which is `false` here; nothing else is claimed of the outcome.
#[verifier::external_body]
pub fn lock_mem_core<T>(buf: &[T]) -> (locked: bool)
    ensures
        buf@.len() == 0 ==> !locked,
{
    match region::lock(buf.as_ptr(), std::mem::size_of_val(buf)) {
        Ok(guard) => {
            std::mem::forget(guard);
            true
        },
        Err(_) => false,
    }
}

/// Asks the operating system to release the pages under `buf`.
///
/// Trusted: calls `region::unlock` on the address of `buf` and its size in
/// bytes, which reports a size of zero and every failure of the operating
/// system as an error, which is `false` here; nothing else is claimed of
/// the outcome.
#[verifier::external_body]
pub fn unlock_mem_core<T>(buf: &[T]) -> (unlocked: bool)
    ensures
        buf@.len() == 0 ==> !unlocked,
    opens_invariants none
    no_unwind
{
    region::unlock(buf.as_ptr(), std::mem::size_of_val(buf)).is_ok()
}

/// Whether this platform can lock memory at all.
pub fn lock_supported_core() -> (supported: bool)
    ensures
        supported,
{
    true
}

/// Tries to lock `buf` in RAM. Every successful call must be followed by a
/// call of [`unlock_mem`] on the same memory.
///
/// An empty `buf` is not handed to the operating system and gives `false`.
pub fn lock_mem<T>(buf: &[T]) -> (locked: bool)
    ensures
        buf@.len() == 0 ==> !locked,
{
    if buf.len() > 0 {
        lock_mem_core(buf)
    } else {
        false
    }
}

/// Reverts [`lock_mem`].
///
/// An empty `buf` is not handed to the operating system and gives `false`.
pub fn unlock_mem<T>(buf: &[T]) -> (unlocked: bool)
    ensures
        buf@.len() == 0 ==> !unlocked,
{
    if buf.len() > 0 {
        unlock_mem_core(buf)
    } else {
        false
    }
}

/// Whether this platform supports memory locking.
pub fn lock_supported() -> (supported: bool)
    ensures
        supported,
{
    lock_supported_core()
}

} // verus!
