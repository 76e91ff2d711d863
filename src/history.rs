//! Fixed-depth records of the last iterations: how many samples each one
//! absorbed, and which tokens each one carried forward.

use vstd::prelude::*;
use crate::rings::{CountRing, TokenRing, count_capacity, count_items, count_push_overwrite, new_count_ring, new_token_ring, token_capacity, token_contents, token_items, token_push_overwrite};

verus! {

/// How many iterations of audio the window holds.
pub const NUM_ITERS: usize = 2;

/// How many iterations of carried tokens feed the next decode.
pub const NUM_ITERS_SAVED: usize = 2;

/// A full fixed-depth record `h` after `x` is pushed, and the oldest entry,
/// which the push evicts.
pub open spec fn push_evict<A>(h: Seq<A>, x: A) -> (Seq<A>, A) {
    (h.drop_first().push(x), h[0])
}

/// The record `h` after each of `xs` is pushed in turn.
pub open spec fn history_after<A>(h: Seq<A>, xs: Seq<A>) -> Seq<A>
    decreases xs.len(),
{
    if xs.len() == 0 {
        h
    } else {
        push_evict(history_after(h, xs.drop_last()), xs.last()).0
    }
}

/// The entry that the push of `xs[k]` evicts, once `xs[0..k]` have been pushed onto `h`.
pub open spec fn evicted_at<A>(h: Seq<A>, xs: Seq<A>, k: int) -> A {
    push_evict(history_after(h, xs.take(k)), xs[k]).1
}

/// All the lists of `ls`, one after another.
pub open spec fn concat_all<A>(ls: Seq<Seq<A>>) -> Seq<A>
    decreases ls.len(),
{
    if ls.len() == 0 {
        Seq::empty()
    } else {
        concat_all(ls.drop_last()) + ls.last()
    }
}

/// After pushes onto a non-empty record, it holds the last entries of the
/// record followed by the pushes, as many as its depth.
pub proof fn lemma_history_after<A>(h: Seq<A>, xs: Seq<A>)
    requires
        h.len() > 0,
    ensures
        history_after(h, xs) == (h + xs).subrange(xs.len() as int, (xs.len() + h.len()) as int),
    decreases xs.len(),
{
    if xs.len() > 0 {
        lemma_history_after(h, xs.drop_last());
        assert((h + xs.drop_last()) =~= (h + xs).drop_last());
        assert(history_after(h, xs) =~= (h + xs).subrange(xs.len() as int, (xs.len() + h.len()) as int));
    } else {
        assert(h + xs =~= h);
    }
}

/// Once as many counts as the record's depth have been pushed, each push
/// evicts the count pushed that many pushes earlier.
pub proof fn lemma_eviction_fifo(h: Seq<usize>, xs: Seq<usize>, k: int)
    requires
        h.len() == NUM_ITERS,
        NUM_ITERS <= k < xs.len(),
    ensures
        evicted_at(h, xs, k) == xs[k - NUM_ITERS],
{
    lemma_history_after(h, xs.take(k));
    assert((h + xs.take(k))[k] == xs[k - NUM_ITERS]);
}

/// The sample counts of the last `NUM_ITERS` iterations.
pub struct SampleHistory {
    ring: CountRing,
}

impl View for SampleHistory {
    type V = Seq<usize>;

    closed spec fn view(&self) -> Seq<usize> {
        count_items(self.ring)
    }
}

impl SampleHistory {
    /// The number of counts the record can hold.
    pub closed spec fn spec_capacity(&self) -> nat {
        count_capacity(self.ring)
    }

    pub open spec fn wf(&self) -> bool {
        self@.len() == NUM_ITERS && self.spec_capacity() == NUM_ITERS
    }

    /// A record of `NUM_ITERS` zero counts.
    pub fn new() -> (h: SampleHistory)
        ensures
            h.wf(),
            h@ == Seq::new(NUM_ITERS as nat, |i: int| 0usize),
    {
        let mut ring = new_count_ring(NUM_ITERS);
        let mut i: usize = 0;
        while i < NUM_ITERS
            invariant
                i <= NUM_ITERS,
                count_capacity(ring) == NUM_ITERS,
                count_items(ring) == Seq::new(i as nat, |j: int| 0usize),
            decreases NUM_ITERS - i,
        {
            let _ = count_push_overwrite(&mut ring, 0);
            assert(count_items(ring) =~= Seq::new((i + 1) as nat, |j: int| 0usize));
            i += 1;
        }
        SampleHistory { ring }
    }

    /// Records the count of a new iteration and returns the oldest count,
    /// which leaves the record.
    pub fn push_and_evict(&mut self, count: usize) -> (evicted: usize)
        requires
            old(self).wf(),
        ensures
            final(self).wf(),
            (final(self)@, evicted) == push_evict(old(self)@, count),
    {
        let evicted = count_push_overwrite(&mut self.ring, count);
        match evicted {
            Some(n) => n,
            None => 0,
        }
    }
}

/// The token ids carried by the last `NUM_ITERS_SAVED` iterations.
pub struct TokenHistory {
    ring: TokenRing,
}

impl View for TokenHistory {
    type V = Seq<Seq<i32>>;

    closed spec fn view(&self) -> Seq<Seq<i32>> {
        token_items(self.ring).map_values(|v: Vec<i32>| v@)
    }
}

impl TokenHistory {
    /// The number of token lists the record can hold.
    pub closed spec fn spec_capacity(&self) -> nat {
        token_capacity(self.ring)
    }

    pub open spec fn wf(&self) -> bool {
        self@.len() == NUM_ITERS_SAVED && self.spec_capacity() == NUM_ITERS_SAVED
    }

    /// A record of `NUM_ITERS_SAVED` empty token lists.
    pub fn new() -> (h: TokenHistory)
        ensures
            h.wf(),
            h@ == Seq::new(NUM_ITERS_SAVED as nat, |i: int| Seq::<i32>::empty()),
    {
        let mut ring = new_token_ring(NUM_ITERS_SAVED);
        let mut i: usize = 0;
        while i < NUM_ITERS_SAVED
            invariant
                i <= NUM_ITERS_SAVED,
                token_capacity(ring) == NUM_ITERS_SAVED,
                token_items(ring).len() == i,
                token_items(ring).map_values(|v: Vec<i32>| v@) == Seq::new(
                    i as nat,
                    |j: int| Seq::<i32>::empty(),
                ),
            decreases NUM_ITERS_SAVED - i,
        {
            let empty: Vec<i32> = Vec::new();
            assert(empty@ =~= Seq::<i32>::empty());
            let ghost prev = token_items(ring);
            let ghost e = empty;
            let _ = token_push_overwrite(&mut ring, empty);
            assert(token_items(ring) == prev.push(e));
            assert forall|j: int| 0 <= j <= i implies (#[trigger] token_items(ring)[j])@ == Seq::<
                i32,
            >::empty() by {
                if j < i {
                    assert(token_items(ring)[j] == prev[j]);
                    assert(prev.map_values(|v: Vec<i32>| v@)[j] == prev[j]@);
                }
            }
            assert(token_items(ring).map_values(|v: Vec<i32>| v@) =~= Seq::new(
                (i + 1) as nat,
                |j: int| Seq::<i32>::empty(),
            ));
            i += 1;
        }
        TokenHistory { ring }
    }

    /// Records the tokens carried by a new iteration and returns the oldest
    /// list, which leaves the record.
    pub fn push_and_evict(&mut self, tokens: Vec<i32>) -> (evicted: Vec<i32>)
        requires
            old(self).wf(),
        ensures
            final(self).wf(),
            (final(self)@, evicted@) == push_evict(old(self)@, tokens@),
    {
        let ghost new_view = tokens@;
        let evicted = token_push_overwrite(&mut self.ring, tokens);
        assert(self@ =~= old(self)@.drop_first().push(new_view));
        match evicted {
            Some(v) => v,
            None => Vec::new(),
        }
    }

    /// Every recorded token id, oldest list first.
    pub fn context(&self) -> (ids: Vec<i32>)
        requires
            self.wf(),
        ensures
            ids@ == concat_all(self@),
    {
        let lists = token_contents(&self.ring);
        let ghost ls = self@;
        assert(lists@.map_values(|v: Vec<i32>| v@) =~= ls);
        let mut ids: Vec<i32> = Vec::new();
        let mut i: usize = 0;
        while i < lists.len()
            invariant
                i <= lists@.len(),
                lists@.map_values(|v: Vec<i32>| v@) == ls,
                ids@ == concat_all(ls.take(i as int)),
            decreases lists.len() - i,
        {
            let list = &lists[i];
            assert(list@ == ls[i as int]);
            let ghost before = ids@;
            let mut j: usize = 0;
            while j < list.len()
                invariant
                    j <= list@.len(),
                    ids@ == before + list@.take(j as int),
                decreases list.len() - j,
            {
                ids.push(list[j]);
                assert(list@.take(j + 1) =~= list@.take(j as int).push(list@[j as int]));
                assert(ids@ =~= before + list@.take(j + 1));
                j += 1;
            }
            assert(list@.take(j as int) =~= list@);
            assert(ls.take(i + 1).drop_last() =~= ls.take(i as int));
            i += 1;
        }
        assert(ls.take(i as int) =~= ls);
        ids
    }
}

} // verus!
