//! The audio window fed to each decode: the most recent iterations of
//! samples, oldest evicted first.

use vstd::prelude::*;
use crate::rings::{SampleRing, new_sample_ring, sample_capacity, sample_contents, sample_items, sample_pop, sample_push};

verus! {

/// A bounded window of samples, each held as the bit pattern of its `f32`.
pub struct AudioWindow {
    ring: SampleRing,
}

impl View for AudioWindow {
    type V = Seq<u32>;

    closed spec fn view(&self) -> Seq<u32> {
        sample_items(self.ring)
    }
}

impl AudioWindow {
    /// The number of samples the window can hold.
    pub closed spec fn spec_capacity(&self) -> nat {
        sample_capacity(self.ring)
    }

    pub open spec fn wf(&self) -> bool {
        0 < self.spec_capacity() && self@.len() <= self.spec_capacity()
    }

    /// An empty window with room for `capacity` samples.
    pub fn new(capacity: usize) -> (w: AudioWindow)
        requires
            0 < capacity <= usize::MAX / 4,
        ensures
            w.wf(),
            w@ == Seq::<u32>::empty(),
            w.spec_capacity() == capacity,
    {
        AudioWindow { ring: new_sample_ring(capacity) }
    }

    /// Drops the `count` oldest samples.
    pub fn evict(&mut self, count: usize)
        requires
            old(self).wf(),
            count <= old(self)@.len(),
        ensures
            final(self).wf(),
            final(self).spec_capacity() == old(self).spec_capacity(),
            final(self)@ == old(self)@.skip(count as int),
    {
        let mut n: usize = 0;
        while n < count
            invariant
                n <= count <= old(self)@.len(),
                self.spec_capacity() == old(self).spec_capacity(),
                self@ == old(self)@.skip(n as int),
            decreases count - n,
        {
            let _ = sample_pop(&mut self.ring);
            assert(old(self)@.skip(n as int).drop_first() =~= old(self)@.skip(n + 1));
            n += 1;
        }
    }

    /// Appends `samples`, which must fit.
    pub fn append(&mut self, samples: &Vec<u32>)
        requires
            old(self).wf(),
            old(self)@.len() + samples@.len() <= old(self).spec_capacity(),
        ensures
            final(self).wf(),
            final(self).spec_capacity() == old(self).spec_capacity(),
            final(self)@ == old(self)@ + samples@,
    {
        let mut i: usize = 0;
        while i < samples.len()
            invariant
                i <= samples@.len(),
                old(self)@.len() + samples@.len() <= old(self).spec_capacity(),
                self.spec_capacity() == old(self).spec_capacity(),
                self@ == old(self)@ + samples@.take(i as int),
            decreases samples.len() - i,
        {
            let _ = sample_push(&mut self.ring, samples[i]);
            assert(samples@.take(i + 1) =~= samples@.take(i as int).push(samples@[i as int]));
            assert(self@ =~= old(self)@ + samples@.take(i + 1));
            i += 1;
        }
        assert(samples@.take(i as int) =~= samples@);
    }

    /// The samples held, oldest first, as one contiguous list.
    pub fn contents(&self) -> (v: Vec<u32>)
        ensures
            v@ == self@,
    {
        sample_contents(&self.ring)
    }
}

} // verus!
