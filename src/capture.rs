//! The buffer between the capture callback and the processing loop: pushes
//! never block and drop what does not fit; a drain takes everything held.

use vstd::prelude::*;
use crate::rings::{SampleRing, new_sample_ring, sample_capacity, sample_contents, sample_items, sample_pop, sample_push};

verus! {

/// What a buffer holding `items`, with room for `capacity`, holds after a
/// push of `samples`: the samples that fit, oldest first; the rest are dropped.
pub open spec fn after_push(items: Seq<u32>, capacity: nat, samples: Seq<u32>) -> Seq<u32> {
    if items.len() + samples.len() <= capacity {
        items + samples
    } else {
        items + samples.take(capacity - items.len())
    }
}

/// Whether a push of `samples` onto `items` drops any sample.
pub open spec fn push_overflows(items: Seq<u32>, capacity: nat, samples: Seq<u32>) -> bool {
    items.len() + samples.len() > capacity
}

/// Captured samples, each held as the bit pattern of its `f32`.
pub struct CaptureBuffer {
    ring: SampleRing,
}

impl View for CaptureBuffer {
    type V = Seq<u32>;

    closed spec fn view(&self) -> Seq<u32> {
        sample_items(self.ring)
    }
}

impl CaptureBuffer {
    /// The number of samples the buffer can hold.
    pub closed spec fn spec_capacity(&self) -> nat {
        sample_capacity(self.ring)
    }

    pub open spec fn wf(&self) -> bool {
        0 < self.spec_capacity() && self@.len() <= self.spec_capacity()
    }

    /// An empty buffer with room for `capacity` samples.
    pub fn new(capacity: usize) -> (b: CaptureBuffer)
        requires
            0 < capacity <= usize::MAX / 4,
        ensures
            b.wf(),
            b@ == Seq::<u32>::empty(),
            b.spec_capacity() == capacity,
    {
        CaptureBuffer { ring: new_sample_ring(capacity) }
    }

    /// Pushes a batch of samples in order, dropping those that do not fit;
    /// returns whether any was dropped.
    pub fn push_batch(&mut self, samples: &[u32]) -> (overflowed: bool)
        requires
            old(self).wf(),
        ensures
            final(self).wf(),
            final(self).spec_capacity() == old(self).spec_capacity(),
            final(self)@ == after_push(old(self)@, old(self).spec_capacity(), samples@),
            overflowed == push_overflows(old(self)@, old(self).spec_capacity(), samples@),
    {
        let ghost items = self@;
        let ghost cap = self.spec_capacity();
        let mut overflowed = false;
        let mut i: usize = 0;
        while i < samples.len()
            invariant
                i <= samples@.len(),
                cap == self.spec_capacity(),
                0 < cap,
                self@.len() <= cap,
                self@ == after_push(items, cap, samples@.take(i as int)),
                overflowed == push_overflows(items, cap, samples@.take(i as int)),
            decreases samples.len() - i,
        {
            let pushed = sample_push(&mut self.ring, samples[i]);
            if pushed.is_err() {
                overflowed = true;
            }
            assert(samples@.take(i + 1) =~= samples@.take(i as int).push(samples@[i as int]));
            proof {
                if items.len() + i + 1 <= cap {
                    assert(self@ =~= after_push(items, cap, samples@.take(i + 1)));
                } else {
                    assert(samples@.take(i + 1).take(cap - items.len()) =~= samples@.take(
                        i as int,
                    ).take(cap - items.len()));
                }
            }
            i += 1;
        }
        assert(samples@.take(i as int) =~= samples@);
        overflowed
    }

    /// Removes and returns every sample held, oldest first.
    pub fn drain(&mut self) -> (drained: Vec<u32>)
        requires
            old(self).wf(),
        ensures
            final(self).wf(),
            final(self).spec_capacity() == old(self).spec_capacity(),
            drained@ == old(self)@,
            final(self)@ == Seq::<u32>::empty(),
    {
        let drained = sample_contents(&self.ring);
        let mut n: usize = 0;
        while n < drained.len()
            invariant
                n <= drained@.len(),
                drained@ == old(self)@,
                self.spec_capacity() == old(self).spec_capacity(),
                self@ == drained@.skip(n as int),
            decreases drained.len() - n,
        {
            let _ = sample_pop(&mut self.ring);
            assert(drained@.skip(n as int).drop_first() =~= drained@.skip(n + 1));
            n += 1;
        }
        assert(self@ =~= Seq::<u32>::empty());
        drained
    }

    /// The number of samples held.
    pub fn len(&self) -> (n: usize)
        requires
            self.wf(),
        ensures
            n == self@.len(),
    {
        sample_contents(&self.ring).len()
    }
}

/// Pushing a batch that fits and then draining hands back exactly what was
/// held followed by the batch, in order, and flags no overflow; a batch that
/// does not fit keeps its oldest samples up to the capacity, drops the rest,
/// and is flagged.
pub proof fn lemma_push_then_drain(items: Seq<u32>, capacity: nat, samples: Seq<u32>)
    requires
        items.len() <= capacity,
    ensures
        items.len() + samples.len() <= capacity ==> {
            &&& after_push(items, capacity, samples) == items + samples
            &&& !push_overflows(items, capacity, samples)
        },
        items.len() + samples.len() > capacity ==> {
            &&& after_push(items, capacity, samples).len() == capacity
            &&& after_push(items, capacity, samples) == items + samples.take(capacity - items.len())
            &&& push_overflows(items, capacity, samples)
        },
        items.len() == 0 && samples.len() <= capacity ==> after_push(items, capacity, samples)
            == samples,
{
    if items.len() == 0 {
        assert(items + samples =~= samples);
    }
}

} // verus!
