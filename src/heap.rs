use vstd::prelude::*;
use std::sync::{Arc, RwLock};
use crate::value::Type;

verus! {

#[verifier::external_type_specification]
#[verifier::external_body]
#[verifier::reject_recursive_types(T)]
pub struct ExRwLock<T: ?Sized>(std::sync::RwLock<T>);

/// Relies on `RwLock::new`: it builds an unlocked lock around the value.
pub assume_specification<T>[ std::sync::RwLock::<T>::new ](t: T) -> std::sync::RwLock<T>;

/// The store shared by every engine holding a clone of one handle. The
/// engine never reads it: it only forwards the handle to native functions.
#[derive(Debug)]
pub struct Heap {
    pub values: Vec<Type>,
}

impl Heap {
    pub fn new() -> (r: Heap)
        ensures
            r.values@ == Seq::<Type>::empty(),
    {
        Heap { values: Vec::new() }
    }
}

/// A shared handle over one heap, guarded by a reader/writer lock.
pub type CrossHeap = Arc<RwLock<Heap>>;

/// Relies on `Arc::clone`: the clone is another handle to the same
/// allocation, so it compares equal to the original.
#[verifier::external_body]
pub fn clone_handle(h: &CrossHeap) -> (r: CrossHeap)
    ensures
        r == *h,
{
    h.clone()
}

/// A handle over a fresh, empty heap.
pub fn new_cross_heap() -> (r: CrossHeap) {
    Arc::new(RwLock::new(Heap::new()))
}

} // verus!
