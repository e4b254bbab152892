//! Trusted boundary around the lock-free single-producer/single-consumer
//! ring buffer that carries queued SID writes (packed into `u32` words)
//! from the protocol session to the emulation worker.
//!
//! Everything verified about the queue rests on the contracts here; the
//! bodies only call into the outside crate.

use vstd::prelude::*;

verus! {

/// The elements currently stored in a write ring, oldest first.
pub uninterp spec fn ring_items(q: atomicring::AtomicRingBuffer<u32>) -> Seq<u32>;

/// The number of elements a write ring can hold at once.
pub uninterp spec fn ring_slots(q: atomicring::AtomicRingBuffer<u32>) -> nat;

#[verifier::external_type_specification]
#[verifier::external_body]
#[verifier::reject_recursive_types(T)]
pub struct ExAtomicRingBuffer<T>(atomicring::AtomicRingBuffer<T>);

/// Relies on AtomicRingBuffer::with_capacity: builds an empty ring; the
/// allocation is rounded up to the next power of two and one slot stays
/// unused, so a power-of-two request yields exactly `cap - 1` slots.
#[verifier::external_body]
pub fn ring_with_capacity(cap: usize) -> (q: atomicring::AtomicRingBuffer<u32>)
    requires
        cap >= 2,
        (cap & (cap - 1) as usize) == 0,
        cap <= 65536,
    ensures
        ring_items(q) == Seq::<u32>::empty(),
        ring_slots(q) == (cap - 1) as nat,
{
    atomicring::AtomicRingBuffer::with_capacity(cap)
}

/// Relies on AtomicRingBuffer::try_push: appends at the tail when a slot is
/// free and reports success; a full ring is left unchanged.
#[verifier::external_body]
pub fn ring_try_push(q: &mut atomicring::AtomicRingBuffer<u32>, v: u32) -> (r: bool)
    ensures
        ring_slots(*final(q)) == ring_slots(*old(q)),
        ring_items(*old(q)).len() < ring_slots(*old(q)) ==> r && ring_items(*final(q))
            == ring_items(*old(q)).push(v),
        ring_items(*old(q)).len() >= ring_slots(*old(q)) ==> !r && ring_items(*final(q))
            == ring_items(*old(q)),
{
    q.try_push(v).is_ok()
}

/// Relies on AtomicRingBuffer::try_pop: removes and returns the oldest
/// element, or returns None when the ring is empty.
#[verifier::external_body]
pub fn ring_try_pop(q: &mut atomicring::AtomicRingBuffer<u32>) -> (r: Option<u32>)
    ensures
        ring_slots(*final(q)) == ring_slots(*old(q)),
        ring_items(*old(q)).len() == 0 ==> r is None && ring_items(*final(q)) == ring_items(
            *old(q),
        ),
        ring_items(*old(q)).len() > 0 ==> r == Some(ring_items(*old(q))[0]) && ring_items(
            *final(q),
        ) == ring_items(*old(q)).subrange(1, ring_items(*old(q)).len() as int),
{
    q.try_pop()
}

/// Relies on AtomicRingBuffer::len: the number of stored elements.
#[verifier::external_body]
pub fn ring_len(q: &atomicring::AtomicRingBuffer<u32>) -> (r: usize)
    ensures
        r == ring_items(*q).len(),
{
    q.len()
}

/// Relies on AtomicRingBuffer::clear: pops every element and discards it.
#[verifier::external_body]
pub fn ring_clear(q: &mut atomicring::AtomicRingBuffer<u32>)
    ensures
        ring_slots(*final(q)) == ring_slots(*old(q)),
        ring_items(*final(q)) == Seq::<u32>::empty(),
{
    q.clear()
}

} // verus!
