//! Extensions of [`Vec`] for buffers that may hold secrets.
//!
//! Each `_secure` method does what its plain twin does, and in addition
//! wipes the memory that the vector had before it lets go of it. That costs
//! a copy, so the plain methods are there for data that needs no such care.
//!
//! The extensions are there for vectors of `bool` and of the integer types.

use vstd::prelude::*;
use zeroize::Zeroize;

verus! {

/// Returns the number of elements that `v` can hold without reallocating.
///
/// Trusted: calls `Vec::capacity`. How much the allocator gave is not
/// specified; only that it is enough for the elements that are there.
#[verifier::external_body]
fn capacity_of<T>(v: &Vec<T>) -> (capacity: usize)
    ensures
        capacity >= v@.len(),
{
    v.capacity()
}

/// Gives up the capacity that `v` does not use.
///
/// Trusted: calls `Vec::shrink_to_fit`, which leaves the elements as they
/// are.
#[verifier::external_body]
fn shrink<T>(v: &mut Vec<T>)
    ensures
        final(v)@ == old(v)@,
{
    v.shrink_to_fit();
}

/// A plain type whose vectors can be wiped.
pub trait Wipe: Copy + Sized {
    /// Overwrites with zeros all the memory that `v` holds, used or spare,
    /// by writes that the compiler may not remove, and empties `v`. The
    /// capacity stays.
    fn wipe(v: &mut Vec<Self>)
        ensures
            final(v)@ == Seq::<Self>::empty(),
    ;
}

/// Wipes and empties a vector of `bool`.
///
/// Trusted: calls `zeroize::Zeroize::zeroize` on the vector, which zeroes
/// the spare capacity and the elements with volatile writes and then calls
/// `clear`.
#[verifier::external_body]
fn wipe_bool(v: &mut Vec<bool>)
    ensures
        final(v)@ == Seq::<bool>::empty(),
{
    v.zeroize();
}

impl Wipe for bool {
    fn wipe(v: &mut Vec<bool>) {
        wipe_bool(v);
    }
}

/// Wipes and empties a vector of `u8`.
///
/// Trusted: calls `zeroize::Zeroize::zeroize` on the vector, which zeroes
/// the spare capacity and the elements with volatile writes and then calls
/// `clear`.
#[verifier::external_body]
fn wipe_u8(v: &mut Vec<u8>)
    ensures
        final(v)@ == Seq::<u8>::empty(),
{
    v.zeroize();
}

impl Wipe for u8 {
    fn wipe(v: &mut Vec<u8>) {
        wipe_u8(v);
    }
}

/// Wipes and empties a vector of `u16`.
///
/// Trusted: calls `zeroize::Zeroize::zeroize` on the vector, which zeroes
/// the spare capacity and the elements with volatile writes and then calls
/// `clear`.
#[verifier::external_body]
fn wipe_u16(v: &mut Vec<u16>)
    ensures
        final(v)@ == Seq::<u16>::empty(),
{
    v.zeroize();
}

impl Wipe for u16 {
    fn wipe(v: &mut Vec<u16>) {
        wipe_u16(v);
    }
}

/// Wipes and empties a vector of `u32`.
///
/// Trusted: calls `zeroize::Zeroize::zeroize` on the vector, which zeroes
/// the spare capacity and the elements with volatile writes and then calls
/// `clear`.
#[verifier::external_body]
fn wipe_u32(v: &mut Vec<u32>)
    ensures
        final(v)@ == Seq::<u32>::empty(),
{
    v.zeroize();
}

impl Wipe for u32 {
    fn wipe(v: &mut Vec<u32>) {
        wipe_u32(v);
    }
}

/// Wipes and empties a vector of `u64`.
///
/// Trusted: calls `zeroize::Zeroize::zeroize` on the vector, which zeroes
/// the spare capacity and the elements with volatile writes and then calls
/// `clear`.
#[verifier::external_body]
fn wipe_u64(v: &mut Vec<u64>)
    ensures
        final(v)@ == Seq::<u64>::empty(),
{
    v.zeroize();
}

impl Wipe for u64 {
    fn wipe(v: &mut Vec<u64>) {
        wipe_u64(v);
    }
}

/// Wipes and empties a vector of `u128`.
///
/// Trusted: calls `zeroize::Zeroize::zeroize` on the vector, which zeroes
/// the spare capacity and the elements with volatile writes and then calls
/// `clear`.
#[verifier::external_body]
fn wipe_u128(v: &mut Vec<u128>)
    ensures
        final(v)@ == Seq::<u128>::empty(),
{
    v.zeroize();
}

impl Wipe for u128 {
    fn wipe(v: &mut Vec<u128>) {
        wipe_u128(v);
    }
}

/// Wipes and empties a vector of `i8`.
///
/// Trusted: calls `zeroize::Zeroize::zeroize` on the vector, which zeroes
/// the spare capacity and the elements with volatile writes and then calls
/// `clear`.
#[verifier::external_body]
fn wipe_i8(v: &mut Vec<i8>)
    ensures
        final(v)@ == Seq::<i8>::empty(),
{
    v.zeroize();
}

impl Wipe for i8 {
    fn wipe(v: &mut Vec<i8>) {
        wipe_i8(v);
    }
}

/// Wipes and empties a vector of `i16`.
///
/// Trusted: calls `zeroize::Zeroize::zeroize` on the vector, which zeroes
/// the spare capacity and the elements with volatile writes and then calls
/// `clear`.
#[verifier::external_body]
fn wipe_i16(v: &mut Vec<i16>)
    ensures
        final(v)@ == Seq::<i16>::empty(),
{
    v.zeroize();
}

impl Wipe for i16 {
    fn wipe(v: &mut Vec<i16>) {
        wipe_i16(v);
    }
}

/// Wipes and empties a vector of `i32`.
///
/// Trusted: calls `zeroize::Zeroize::zeroize` on the vector, which zeroes
/// the spare capacity and the elements with volatile writes and then calls
/// `clear`.
#[verifier::external_body]
fn wipe_i32(v: &mut Vec<i32>)
    ensures
        final(v)@ == Seq::<i32>::empty(),
{
    v.zeroize();
}

impl Wipe for i32 {
    fn wipe(v: &mut Vec<i32>) {
        wipe_i32(v);
    }
}

/// Wipes and empties a vector of `i64`.
///
/// Trusted: calls `zeroize::Zeroize::zeroize` on the vector, which zeroes
/// the spare capacity and the elements with volatile writes and then calls
/// `clear`.
#[verifier::external_body]
fn wipe_i64(v: &mut Vec<i64>)
    ensures
        final(v)@ == Seq::<i64>::empty(),
{
    v.zeroize();
}

impl Wipe for i64 {
    fn wipe(v: &mut Vec<i64>) {
        wipe_i64(v);
    }
}

/// Wipes and empties a vector of `i128`.
///
/// Trusted: calls `zeroize::Zeroize::zeroize` on the vector, which zeroes
/// the spare capacity and the elements with volatile writes and then calls
/// `clear`.
#[verifier::external_body]
fn wipe_i128(v: &mut Vec<i128>)
    ensures
        final(v)@ == Seq::<i128>::empty(),
{
    v.zeroize();
}

impl Wipe for i128 {
    fn wipe(v: &mut Vec<i128>) {
        wipe_i128(v);
    }
}

/// Appends a copy of each element of `other` to `v`.
fn append<T: Copy>(v: &mut Vec<T>, other: &[T])
    ensures
        final(v)@ == old(v)@ + other@,
{
    let n: usize = other.len();
    let mut i: usize = 0;
    while i < n
        invariant
            i <= n,
            n == other@.len(),
            v@ == old(v)@ + other@.take(i as int),
        decreases n - i,
    {
        v.push(other[i]);
        i += 1;
        assert(v@ =~= old(v)@ + other@.take(i as int));
    }
    assert(other@.take(n as int) =~= other@);
}

/// Extensions of a vector of plain values.
pub trait VecExtensions<T: Copy + Sized> {
    /// The elements of the vector.
    spec fn elements(&self) -> Seq<T>;

    /// Creates a vector that holds a copy of `value`.
    fn with_value(value: &[T]) -> (v: Vec<T>)
        ensures
            v@ == value@,
    ;

    /// Makes room for at least `capacity` elements in all. Does nothing if
    /// there is room already.
    fn set_capacity_to(&mut self, capacity: usize)
        ensures
            final(self).elements() == old(self).elements(),
    ;

    /// The secure variant of [`Self::set_capacity_to`].
    fn set_capacity_to_secure(&mut self, capacity: usize)
        ensures
            final(self).elements() == old(self).elements(),
    ;

    /// Replaces the elements by a copy of `other`. The capacity grows as
    /// needed and never shrinks.
    fn set_contents_from_slice(&mut self, other: &[T])
        ensures
            final(self).elements() == other@,
    ;

    /// The secure variant of [`Self::set_contents_from_slice`].
    fn set_contents_from_slice_secure(&mut self, other: &[T])
        ensures
            final(self).elements() == other@,
    ;

    /// The secure variant of `Vec::shrink_to_fit`.
    fn shrink_to_fit_secure(&mut self)
        ensures
            final(self).elements() == old(self).elements(),
    ;

    /// The secure variant of `Vec::reserve`.
    fn reserve_secure(&mut self, additional: usize)
        requires
            old(self).elements().len() + additional <= usize::MAX,
        ensures
            final(self).elements() == old(self).elements(),
    ;

    /// The secure variant of `Vec::extend_from_slice`.
    fn extend_from_slice_secure(&mut self, other: &[T])
        requires
            old(self).elements().len() + other@.len() <= usize::MAX,
        ensures
            final(self).elements() == old(self).elements() + other@,
    ;
}

impl<T: Wipe> VecExtensions<T> for Vec<T> {
    open spec fn elements(&self) -> Seq<T> {
        self@
    }

    fn with_value(value: &[T]) -> (v: Vec<T>) {
        let mut obj: Vec<T> = Vec::with_capacity(value.len());
        obj.set_contents_from_slice(value);
        obj
    }

    fn set_capacity_to(&mut self, capacity: usize) {
        let curr_capacity: usize = capacity_of(self);
        if curr_capacity < capacity {
            self.reserve(capacity - self.len());
        }
    }

    fn set_capacity_to_secure(&mut self, capacity: usize) {
        let curr_capacity: usize = capacity_of(self);
        if curr_capacity < capacity {
            if self.is_empty() {
                // No data to move: wipe what is there and grow.
                T::wipe(self);
                self.set_capacity_to(capacity);
            } else {
                // Growing may move the data and release the old memory as
                // it is. So the data waits in a copy while the old memory is
                // wiped, and comes back once there is room.
                let mut tmp: Vec<T> = Vec::with_capacity(self.len());
                tmp.set_contents_from_slice(self.as_slice());
                T::wipe(self);
                self.set_capacity_to(capacity);
                append(self, tmp.as_slice());
                T::wipe(&mut tmp);
                assert(self@ =~= old(self)@);
            }
        }
    }

    fn set_contents_from_slice(&mut self, other: &[T]) {
        self.set_capacity_to(other.len());
        self.clear();
        append(self, other);
        assert(self@ =~= other@);
    }

    fn set_contents_from_slice_secure(&mut self, other: &[T]) {
        T::wipe(self);
        self.reserve(other.len());
        append(self, other);
        assert(self@ =~= other@);
    }

    fn shrink_to_fit_secure(&mut self) {
        let mut tmp: Vec<T> = Vec::with_capacity(self.len());
        tmp.set_contents_from_slice(self.as_slice());
        T::wipe(self);
        shrink(self);
        self.set_contents_from_slice(tmp.as_slice());
        T::wipe(&mut tmp);
    }

    fn reserve_secure(&mut self, additional: usize) {
        self.set_capacity_to_secure(self.len() + additional);
    }

    fn extend_from_slice_secure(&mut self, other: &[T]) {
        self.reserve_secure(other.len());
        append(self, other);
        assert(self@ =~= old(self)@ + other@);
    }
}

} // verus!
