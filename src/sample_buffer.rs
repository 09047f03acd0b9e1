use vstd::prelude::*;
use crate::ring::{
    SampleRing,
    ring_items,
    ring_capacity,
    ring_new,
    ring_capacity_of,
    ring_is_full,
    ring_len,
    ring_push,
    ring_pop,
};

verus! {

/// A bounded FIFO of samples (as bit patterns) between the audio callback and
/// the drain loop.
///
/// A push never fails and never grows the storage: when the buffer is full,
/// the oldest unread sample is dropped to make room. That loss is the defined
/// behaviour on overflow, not an error.
pub struct SampleBuffer {
    ring: SampleRing,
}

impl View for SampleBuffer {
    type V = Seq<u32>;

    /// The unread samples, oldest first.
    closed spec fn view(&self) -> Seq<u32> {
        ring_items(self.ring)
    }
}

/// The contents after pushing `x` onto `items` in a buffer of capacity `cap`.
pub open spec fn pushed(items: Seq<u32>, cap: nat, x: u32) -> Seq<u32> {
    if items.len() >= cap {
        items.drop_first().push(x)
    } else {
        items.push(x)
    }
}

/// The contents after pushing each of `xs`, in order.
pub open spec fn pushed_all(items: Seq<u32>, cap: nat, xs: Seq<u32>) -> Seq<u32>
    decreases xs.len(),
{
    if xs.len() == 0 {
        items
    } else {
        pushed(pushed_all(items, cap, xs.drop_last()), cap, xs.last())
    }
}

/// The last `min(cap, s.len())` elements of `s`.
pub open spec fn most_recent(s: Seq<u32>, cap: nat) -> Seq<u32> {
    if s.len() <= cap {
        s
    } else {
        s.subrange(s.len() - cap, s.len() as int)
    }
}

/// However many samples are pushed, a buffer never holds more than its
/// capacity and always holds the most recent ones, in order: of everything
/// that was in it or pushed to it, exactly the last `capacity` samples (or
/// all, if fewer).
pub proof fn lemma_push_keeps_most_recent(items: Seq<u32>, cap: nat, xs: Seq<u32>)
    requires
        0 < cap,
        items.len() <= cap,
    ensures
        pushed_all(items, cap, xs) == most_recent(items + xs, cap),
        pushed_all(items, cap, xs).len() <= cap,
    decreases xs.len(),
{
    if xs.len() > 0 {
        let ys = xs.drop_last();
        let x = xs.last();
        lemma_push_keeps_most_recent(items, cap, ys);
        let prev = items + ys;
        let all = items + xs;
        assert(all =~= prev.push(x));
        let p = pushed_all(items, cap, ys);
        assert(pushed(p, cap, x) =~= most_recent(all, cap));
    } else {
        assert(items + xs =~= items);
    }
}

impl SampleBuffer {
    /// The fixed number of samples that the buffer can hold.
    pub closed spec fn capacity_spec(&self) -> nat {
        ring_capacity(self.ring)
    }

    /// Well-formed: a positive capacity that is never exceeded.
    pub closed spec fn wf(&self) -> bool {
        0 < ring_capacity(self.ring) < usize::MAX && ring_items(self.ring).len() <= ring_capacity(
            self.ring,
        )
    }

    /// An empty buffer that holds up to `capacity` samples.
    pub fn new(capacity: usize) -> (r: SampleBuffer)
        requires
            0 < capacity < usize::MAX,
        ensures
            r.wf(),
            r@ == Seq::<u32>::empty(),
            r.capacity_spec() == capacity,
    {
        SampleBuffer { ring: ring_new(capacity) }
    }

    /// An empty buffer that holds one second of audio at `sample_rate`.
    pub fn for_sample_rate(sample_rate: u32) -> (r: SampleBuffer)
        requires
            0 < sample_rate < u32::MAX,
        ensures
            r.wf(),
            r@ == Seq::<u32>::empty(),
            r.capacity_spec() == sample_rate,
    {
        SampleBuffer::new(sample_rate as usize)
    }

    /// The capacity.
    pub fn capacity(&self) -> (c: usize)
        requires
            self.wf(),
        ensures
            c == self.capacity_spec(),
    {
        ring_capacity_of(&self.ring)
    }

    /// The number of unread samples.
    pub fn len(&self) -> (n: usize)
        requires
            self.wf(),
        ensures
            n == self@.len(),
    {
        ring_len(&self.ring)
    }

    /// Appends `x`; when the buffer is full, the oldest sample is dropped
    /// first. The capacity never changes.
    pub fn push(&mut self, x: u32)
        requires
            old(self).wf(),
        ensures
            final(self).wf(),
            final(self).capacity_spec() == old(self).capacity_spec(),
            final(self)@ == pushed(old(self)@, old(self).capacity_spec(), x),
            final(self)@.len() <= final(self).capacity_spec(),
    {
        if ring_is_full(&self.ring) {
            let _ = ring_pop(&mut self.ring);
        }
        let _ = ring_push(&mut self.ring, x);
    }

    /// Moves every unread sample, oldest first, to the end of `sink` and
    /// returns how many were moved.
    pub fn drain_into(&mut self, sink: &mut Vec<u32>) -> (count: usize)
        requires
            old(self).wf(),
        ensures
            final(self).wf(),
            final(self).capacity_spec() == old(self).capacity_spec(),
            final(self)@ == Seq::<u32>::empty(),
            final(sink)@ == old(sink)@ + old(self)@,
            count == old(self)@.len(),
    {
        let ghost start = self@;
        let ghost base = sink@;
        let mut count: usize = 0;
        loop
            invariant
                self.wf(),
                self.capacity_spec() == old(self).capacity_spec(),
                start == old(self)@,
                base == old(sink)@,
                count <= start.len() < usize::MAX,
                self@.len() == start.len() - count,
                self@ == start.subrange(count as int, start.len() as int),
                sink@ == base + start.subrange(0, count as int),
            decreases self@.len(),
        {
            match ring_pop(&mut self.ring) {
                Some(x) => {
                    sink.push(x);
                    assert(start.subrange(0, count as int).push(x) =~= start.subrange(
                        0,
                        count + 1,
                    ));
                    assert(self@ =~= start.subrange(count + 1, start.len() as int));
                    count = count + 1;
                },
                None => {
                    assert(start.subrange(0, count as int) =~= start);
                    return count;
                },
            }
        }
    }
}

} // verus!
