use vstd::prelude::*;
use ringbuf::traits::{Consumer, Observer, Producer};

verus! {

/// A heap-allocated ring buffer of samples (`ringbuf::HeapRb`), each sample carried
/// by the bit pattern of its `f32` value.
#[verifier::external_body]
pub struct SampleRing {
    rb: ringbuf::HeapRb<u32>,
}

/// The samples held by a ring, oldest first.
pub uninterp spec fn ring_items(ring: SampleRing) -> Seq<u32>;

/// The number of samples a ring can hold, fixed when it was made.
pub uninterp spec fn ring_capacity(ring: SampleRing) -> nat;

/// A ring never holds more samples than its capacity.
pub open spec fn ring_wf(ring: SampleRing) -> bool {
    ring_items(ring).len() <= ring_capacity(ring)
}

/// The free places of a ring.
pub open spec fn ring_vacant(ring: SampleRing) -> int {
    ring_capacity(ring) - ring_items(ring).len()
}

/// Calls `ringbuf::HeapRb::new`: an empty ring with room for `capacity` samples.
/// `new` panics on a zero capacity, which `requires` leaves out; that the allocation
/// succeeds is not stated (a failed allocation aborts).
#[verifier::external_body]
fn heap_rb_new(capacity: usize) -> (ring: SampleRing)
    requires
        capacity > 0,
    ensures
        ring_items(ring) == Seq::<u32>::empty(),
        ring_capacity(ring) == capacity,
{
    SampleRing { rb: ringbuf::HeapRb::new(capacity) }
}

/// Calls `Observer::vacant_len`: the free places of the ring, that is its capacity less
/// the samples it holds.
#[verifier::external_body]
fn heap_rb_vacant_len(ring: &SampleRing) -> (r: usize)
    ensures
        r + ring_items(*ring).len() == ring_capacity(*ring),
{
    ring.rb.vacant_len()
}

/// Calls `Observer::occupied_len`: the number of samples the ring holds.
#[verifier::external_body]
fn heap_rb_occupied_len(ring: &SampleRing) -> (r: usize)
    ensures
        r == ring_items(*ring).len(),
{
    ring.rb.occupied_len()
}

/// Calls `Producer::push_slice`: appends as many samples from the front of `elems` as
/// there are free places, and returns how many it appended.
#[verifier::external_body]
fn heap_rb_push_slice(ring: &mut SampleRing, elems: &[u32]) -> (n: usize)
    ensures
        n == if elems@.len() <= ring_vacant(*old(ring)) {
            elems@.len() as int
        } else {
            ring_vacant(*old(ring))
        },
        ring_items(*final(ring)) == ring_items(*old(ring)) + elems@.subrange(0, n as int),
        ring_capacity(*final(ring)) == ring_capacity(*old(ring)),
{
    ring.rb.push_slice(elems)
}

/// Calls `Consumer::pop_slice`: moves the oldest samples into the front of `elems`, as
/// many as fit and as the ring holds, and returns how many it moved.
#[verifier::external_body]
fn heap_rb_pop_slice(ring: &mut SampleRing, elems: &mut [u32]) -> (n: usize)
    ensures
        n == if old(elems)@.len() <= ring_items(*old(ring)).len() {
            old(elems)@.len() as int
        } else {
            ring_items(*old(ring)).len() as int
        },
        final(elems)@ == ring_items(*old(ring)).subrange(0, n as int) + old(elems)@.subrange(
            n as int,
            old(elems)@.len() as int,
        ),
        ring_items(*final(ring)) == ring_items(*old(ring)).subrange(
            n as int,
            ring_items(*old(ring)).len() as int,
        ),
        ring_capacity(*final(ring)) == ring_capacity(*old(ring)),
{
    ring.rb.pop_slice(elems)
}

impl SampleRing {
    /// An empty ring with room for `capacity` samples.
    pub fn new(capacity: usize) -> (ring: SampleRing)
        requires
            capacity > 0,
        ensures
            ring_items(ring) == Seq::<u32>::empty(),
            ring_capacity(ring) == capacity,
            ring_wf(ring),
    {
        heap_rb_new(capacity)
    }

    /// The number of free places.
    pub fn vacant_len(&self) -> (r: usize)
        ensures
            r == ring_vacant(*self),
            ring_wf(*self),
    {
        heap_rb_vacant_len(self)
    }

    /// The number of samples held.
    pub fn occupied_len(&self) -> (r: usize)
        ensures
            r == ring_items(*self).len(),
    {
        heap_rb_occupied_len(self)
    }

    /// Appends the front of `elems`, as much as there is room for; returns how much.
    pub fn push_slice(&mut self, elems: &[u32]) -> (n: usize)
        requires
            ring_wf(*old(self)),
        ensures
            n == if elems@.len() <= ring_vacant(*old(self)) {
                elems@.len() as int
            } else {
                ring_vacant(*old(self))
            },
            ring_items(*final(self)) == ring_items(*old(self)) + elems@.subrange(0, n as int),
            ring_capacity(*final(self)) == ring_capacity(*old(self)),
            ring_wf(*final(self)),
    {
        heap_rb_push_slice(self, elems)
    }

    /// Moves the oldest samples into the front of `elems`, as many as fit and as are held;
    /// returns how many.
    pub fn pop_slice(&mut self, elems: &mut [u32]) -> (n: usize)
        requires
            ring_wf(*old(self)),
        ensures
            n == if old(elems)@.len() <= ring_items(*old(self)).len() {
                old(elems)@.len() as int
            } else {
                ring_items(*old(self)).len() as int
            },
            final(elems)@ == ring_items(*old(self)).subrange(0, n as int) + old(elems)@.subrange(
                n as int,
                old(elems)@.len() as int,
            ),
            ring_items(*final(self)) == ring_items(*old(self)).subrange(
                n as int,
                ring_items(*old(self)).len() as int,
            ),
            ring_capacity(*final(self)) == ring_capacity(*old(self)),
            ring_wf(*final(self)),
    {
        heap_rb_pop_slice(self, elems)
    }
}

}
