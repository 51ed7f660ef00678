//! The fixed-capacity vector of tick counts that a schedule stores its
//! on/off durations in: `heapless::Vec<u64, 20>`, behind trusted contracts.
use vstd::prelude::*;

verus! {

/// Maximum number of on/off durations in a schedule.
pub const SCHEDULE_CAPACITY: usize = 20;

/// The tick counts that a vector of durations holds, in order.
pub uninterp spec fn ticks_of(v: heapless::Vec<u64, 20>) -> Seq<u64>;

#[verifier::external_type_specification]
#[verifier::external_body]
#[verifier::reject_recursive_types(T)]
pub struct ExHeaplessVec<T, const N: usize>(heapless::Vec<T, N>);

/// Relies on `heapless::Vec::new`: the new vector is empty.
#[verifier::external_body]
pub(crate) fn empty_ticks() -> (r: heapless::Vec<u64, 20>)
    ensures
        ticks_of(r) == Seq::<u64>::empty(),
{
    heapless::Vec::new()
}

/// Relies on `heapless::Vec::from_slice`: it fails, with `()`, exactly when
/// the slice is longer than the capacity; otherwise it holds the slice.
#[verifier::external_body]
pub(crate) fn ticks_from_slice(s: &[u64]) -> (r: Result<heapless::Vec<u64, 20>, ()>)
    ensures
        r is Ok <==> s@.len() <= SCHEDULE_CAPACITY,
        r is Ok ==> ticks_of(r->Ok_0) == s@,
{
    heapless::Vec::from_slice(s)
}

/// Relies on `heapless::Vec::push`: it appends the item when the vector is not
/// full, and otherwise hands the item back and leaves the vector unchanged.
#[verifier::external_body]
pub(crate) fn push_ticks(v: &mut heapless::Vec<u64, 20>, item: u64) -> (r: Result<(), u64>)
    ensures
        r is Ok <==> ticks_of(*old(v)).len() < SCHEDULE_CAPACITY,
        r is Ok ==> ticks_of(*final(v)) == ticks_of(*old(v)).push(item),
        r is Err ==> ticks_of(*final(v)) == ticks_of(*old(v)) && r->Err_0 == item,
{
    v.push(item)
}

/// Relies on `heapless::Vec::extend_from_slice`: it appends the whole slice
/// when it fits, and otherwise fails with `()` and leaves the vector unchanged.
#[verifier::external_body]
pub(crate) fn extend_ticks(v: &mut heapless::Vec<u64, 20>, s: &[u64]) -> (r: Result<(), ()>)
    ensures
        r is Ok <==> ticks_of(*old(v)).len() + s@.len() <= SCHEDULE_CAPACITY,
        r is Ok ==> ticks_of(*final(v)) == ticks_of(*old(v)) + s@,
        r is Err ==> ticks_of(*final(v)) == ticks_of(*old(v)),
{
    v.extend_from_slice(s)
}

/// Relies on `heapless::Vec::as_slice`: the slice holds the vector's items.
#[verifier::external_body]
pub(crate) fn ticks_slice(v: &heapless::Vec<u64, 20>) -> (r: &[u64])
    ensures
        r@ == ticks_of(*v),
{
    v.as_slice()
}

} // verus!
