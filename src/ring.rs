use vstd::prelude::*;

verus! {

/// The two halves of one `ringbuf` ring buffer of sample bit patterns.
///
/// Both halves are held together because a policy of dropping the oldest
/// sample on overflow needs the consumer side at push time; the contents are
/// described by `ring_items` and the bound by `ring_capacity`.
#[verifier::external_body]
pub struct SampleRing {
    producer: ringbuf::Producer<u32>,
    consumer: ringbuf::Consumer<u32>,
}

/// The items of the ring, oldest first.
pub uninterp spec fn ring_items(r: SampleRing) -> Seq<u32>;

/// The capacity that the ring was created with.
pub uninterp spec fn ring_capacity(r: SampleRing) -> nat;

/// Relies on ringbuf::RingBuffer::new and RingBuffer::split: an empty ring
/// that holds up to `capacity` items (it allocates `capacity + 1` slots).
#[verifier::external_body]
pub(crate) fn ring_new(capacity: usize) -> (r: SampleRing)
    requires
        capacity < usize::MAX,
    ensures
        ring_items(r) == Seq::<u32>::empty(),
        ring_capacity(r) == capacity,
{
    let (producer, consumer) = ringbuf::RingBuffer::<u32>::new(capacity).split();
    SampleRing { producer, consumer }
}

/// Relies on ringbuf::Producer::capacity: the capacity given at creation.
#[verifier::external_body]
pub(crate) fn ring_capacity_of(r: &SampleRing) -> (c: usize)
    ensures
        c == ring_capacity(*r),
{
    r.producer.capacity()
}

/// Relies on ringbuf::Producer::is_full: true exactly when the ring holds
/// `capacity` items.
#[verifier::external_body]
pub(crate) fn ring_is_full(r: &SampleRing) -> (b: bool)
    ensures
        b == (ring_items(*r).len() == ring_capacity(*r)),
{
    r.producer.is_full()
}

/// Relies on ringbuf::Producer::len: the number of items held.
#[verifier::external_body]
pub(crate) fn ring_len(r: &SampleRing) -> (n: usize)
    ensures
        n == ring_items(*r).len(),
        n <= ring_capacity(*r),
{
    r.producer.len()
}

/// Relies on ringbuf::Producer::push: appends the item when there is room,
/// otherwise hands it back and leaves the ring as it was.
#[verifier::external_body]
pub(crate) fn ring_push(r: &mut SampleRing, x: u32) -> (res: Result<(), u32>)
    ensures
        ring_capacity(*final(r)) == ring_capacity(*old(r)),
        ring_items(*old(r)).len() < ring_capacity(*old(r)) ==> res is Ok && ring_items(*final(r))
            == ring_items(*old(r)).push(x),
        ring_items(*old(r)).len() >= ring_capacity(*old(r)) ==> res is Err && res->Err_0 == x
            && ring_items(*final(r)) == ring_items(*old(r)),
{
    r.producer.push(x)
}

/// Relies on ringbuf::Consumer::pop: removes and returns the oldest item, or
/// returns `None` on an empty ring.
#[verifier::external_body]
pub(crate) fn ring_pop(r: &mut SampleRing) -> (res: Option<u32>)
    ensures
        ring_capacity(*final(r)) == ring_capacity(*old(r)),
        ring_items(*old(r)).len() == 0 ==> res is None && ring_items(*final(r)) == ring_items(
            *old(r),
        ),
        ring_items(*old(r)).len() > 0 ==> res == Some(ring_items(*old(r))[0]) && ring_items(
            *final(r),
        ) == ring_items(*old(r)).drop_first(),
{
    r.consumer.pop()
}

} // verus!
