//! Atoms: the named propositions at the leaves of a formula.

use num_traits::ToPrimitive;
use std::hash::Hash;
use vstd::prelude::*;

verus! {

/// An atom of a closed, enumerable universe. Atoms can be copied, compared
/// and hashed, and each maps to its position in the universe, which is where
/// a truth assignment keeps its value.
pub trait AtomIndex: Clone + Eq + Hash {
    /// The position of this atom, or `None` when it has no position that a
    /// `usize` can hold (a negative number, say).
    spec fn position(&self) -> Option<usize>;

    /// Computes [`position`](AtomIndex::position): every call on an atom
    /// returns that atom's position.
    fn index(&self) -> (i: Option<usize>)
        ensures
            i == self.position(),
    ;
}

/// The position that an integer names: itself, when it is not negative and
/// fits in a `usize`.
pub open spec fn position_of(n: int) -> Option<usize> {
    if 0 <= n <= usize::MAX {
        Some(n as usize)
    } else {
        None
    }
}

/// `ToPrimitive::to_usize` of `usize`. Trusted to return the number itself.
#[verifier::external_body]
fn usize_to_usize(n: usize) -> (i: Option<usize>)
    ensures
        i == Some(n),
{
    n.to_usize()
}

/// `ToPrimitive::to_usize` of `u32`. Trusted to return the number when it
/// fits in a `usize`, and `None` when it does not.
#[verifier::external_body]
fn u32_to_usize(n: u32) -> (i: Option<usize>)
    ensures
        i == position_of(n as int),
{
    n.to_usize()
}

/// `ToPrimitive::to_usize` of `u64`. Trusted to return the number when it
/// fits in a `usize`, and `None` when it does not.
#[verifier::external_body]
fn u64_to_usize(n: u64) -> (i: Option<usize>)
    ensures
        i == position_of(n as int),
{
    n.to_usize()
}

/// `ToPrimitive::to_usize` of `i32`. Trusted to return the number when it is
/// not negative and fits in a `usize`, and `None` otherwise.
#[verifier::external_body]
fn i32_to_usize(n: i32) -> (i: Option<usize>)
    ensures
        i == position_of(n as int),
{
    n.to_usize()
}

/// `ToPrimitive::to_usize` of `i64`. Trusted to return the number when it is
/// not negative and fits in a `usize`, and `None` otherwise.
#[verifier::external_body]
fn i64_to_usize(n: i64) -> (i: Option<usize>)
    ensures
        i == position_of(n as int),
{
    n.to_usize()
}

impl AtomIndex for usize {
    open spec fn position(&self) -> Option<usize> {
        Some(*self)
    }

    fn index(&self) -> (i: Option<usize>) {
        usize_to_usize(*self)
    }
}

impl AtomIndex for u32 {
    open spec fn position(&self) -> Option<usize> {
        position_of(*self as int)
    }

    fn index(&self) -> (i: Option<usize>) {
        u32_to_usize(*self)
    }
}

impl AtomIndex for u64 {
    open spec fn position(&self) -> Option<usize> {
        position_of(*self as int)
    }

    fn index(&self) -> (i: Option<usize>) {
        u64_to_usize(*self)
    }
}

impl AtomIndex for i32 {
    open spec fn position(&self) -> Option<usize> {
        position_of(*self as int)
    }

    fn index(&self) -> (i: Option<usize>) {
        i32_to_usize(*self)
    }
}

impl AtomIndex for i64 {
    open spec fn position(&self) -> Option<usize> {
        position_of(*self as int)
    }

    fn index(&self) -> (i: Option<usize>) {
        i64_to_usize(*self)
    }
}

} // verus!
