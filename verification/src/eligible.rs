//! Which types may live in shared memory: flat values of fixed layout that
//! own nothing on the heap and hold no pointer.

use vstd::prelude::*;

verus! {

/// `heapless::Vec`, a vector of fixed capacity that is stored inline. Nothing
/// is claimed of it; it is named so that it can be marked eligible.
#[verifier::external_type_specification]
#[verifier::external_body]
#[verifier::reject_recursive_types(T)]
pub struct ExInlineVec<T, const N: usize>(heapless::Vec<T, N>);

/// `heapless::Deque`, a double-ended queue of fixed capacity that is stored
/// inline. Nothing is claimed of it; it is named so that it can be marked
/// eligible.
#[verifier::external_type_specification]
#[verifier::external_body]
#[verifier::reject_recursive_types(T)]
pub struct ExInlineDeque<T, const N: usize>(heapless::Deque<T, N>);

/// `heapless::IndexMap`, a map of fixed capacity that is stored inline.
/// Nothing is claimed of it; it is named so that it can be marked eligible.
#[verifier::external_type_specification]
#[verifier::external_body]
#[verifier::reject_recursive_types(K)]
#[verifier::reject_recursive_types(V)]
#[verifier::reject_recursive_types(S)]
pub struct ExInlineIndexMap<K, V, S, const N: usize>(heapless::IndexMap<K, V, S, N>);

/// Marks a type as fit for shared memory. The region is mapped into
/// processes at addresses of their own, so a value in it must not own heap
/// memory nor hold a pointer. Whoever marks a type answers for that.
pub trait PGRXSharedMemory {
}

impl PGRXSharedMemory for bool {
}

impl PGRXSharedMemory for char {
}

impl PGRXSharedMemory for str {
}

impl PGRXSharedMemory for () {
}

impl PGRXSharedMemory for i8 {
}

impl PGRXSharedMemory for i16 {
}

impl PGRXSharedMemory for i32 {
}

impl PGRXSharedMemory for i64 {
}

impl PGRXSharedMemory for i128 {
}

impl PGRXSharedMemory for u8 {
}

impl PGRXSharedMemory for u16 {
}

impl PGRXSharedMemory for u32 {
}

impl PGRXSharedMemory for u64 {
}

impl PGRXSharedMemory for u128 {
}

impl PGRXSharedMemory for usize {
}

impl PGRXSharedMemory for isize {
}

impl<T> PGRXSharedMemory for [T] where T: PGRXSharedMemory + Default {
}

impl<A, B> PGRXSharedMemory for (A, B) where
    A: PGRXSharedMemory + Default,
    B: PGRXSharedMemory + Default,
 {
}

impl<A, B, C> PGRXSharedMemory for (A, B, C) where
    A: PGRXSharedMemory + Default,
    B: PGRXSharedMemory + Default,
    C: PGRXSharedMemory + Default,
 {
}

impl<A, B, C, D> PGRXSharedMemory for (A, B, C, D) where
    A: PGRXSharedMemory + Default,
    B: PGRXSharedMemory + Default,
    C: PGRXSharedMemory + Default,
    D: PGRXSharedMemory + Default,
 {
}

impl<A, B, C, D, E> PGRXSharedMemory for (A, B, C, D, E) where
    A: PGRXSharedMemory + Default,
    B: PGRXSharedMemory + Default,
    C: PGRXSharedMemory + Default,
    D: PGRXSharedMemory + Default,
    E: PGRXSharedMemory + Default,
 {
}

impl<T, const N: usize> PGRXSharedMemory for heapless::Vec<T, N> {
}

impl<T, const N: usize> PGRXSharedMemory for heapless::Deque<T, N> {
}

impl<K: Eq + std::hash::Hash, V: Default, S, const N: usize> PGRXSharedMemory for heapless::IndexMap<
    K,
    V,
    S,
    N,
> {
}

} // verus!
