//! Reference-counted slices: the two operations of `Arc` that this crate needs.
use std::sync::Arc;
use vstd::prelude::*;

verus! {

/// Another pointer to what `pointer` points to.
///
/// Not proved: `Arc::clone` hands out a pointer to the same allocation, so the new pointer
/// reads as the old one does.
#[verifier::external_body]
pub(crate) fn share<T: ?Sized>(pointer: &Arc<T>) -> (shared: Arc<T>)
    ensures
        shared == *pointer,
{
    Arc::clone(pointer)
}

/// A shared slice that holds the items of `items`, in their order.
///
/// Not proved: `<Arc<[T]> as From<Vec<T>>>::from` allocates a reference-counted slice and moves
/// the items of the vector into it.
#[verifier::external_body]
pub(crate) fn into_shared<T>(items: Vec<T>) -> (slice: Arc<[T]>)
    ensures
        slice@ == items@,
{
    Arc::from(items)
}

} // verus!
