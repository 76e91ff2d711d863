//! Fixed-capacity FIFO rings from the `ringbuf` crate, with what each holds
//! named for the contracts.

use vstd::prelude::*;
use std::mem::MaybeUninit;
use ringbuf::{LocalRb, Rb};

verus! {

/// A `ringbuf` local ring over a heap-allocated arena. Verus cannot take the
/// ring type itself (its storage parameter is bound by a trait of the crate),
/// so it is held here, out of Verus's sight, and read through the names below.
#[verifier::external_body]
#[verifier::reject_recursive_types(T)]
pub struct Ring<T> {
    inner: LocalRb<T, Vec<MaybeUninit<T>>>,
}

/// A ring of audio samples, each held as the bit pattern of its `f32`.
pub type SampleRing = Ring<u32>;

/// A ring of per-iteration sample counts.
pub type CountRing = Ring<usize>;

/// A ring of per-iteration token id lists.
pub type TokenRing = Ring<Vec<i32>>;

/// The samples in a sample ring, oldest first.
pub uninterp spec fn sample_items(r: SampleRing) -> Seq<u32>;

/// The number of samples a sample ring was made to hold.
pub uninterp spec fn sample_capacity(r: SampleRing) -> nat;

/// The counts in a count ring, oldest first.
pub uninterp spec fn count_items(r: CountRing) -> Seq<usize>;

/// The number of counts a count ring was made to hold.
pub uninterp spec fn count_capacity(r: CountRing) -> nat;

/// The token lists in a token ring, oldest first.
pub uninterp spec fn token_items(r: TokenRing) -> Seq<Vec<i32>>;

/// The number of token lists a token ring was made to hold.
pub uninterp spec fn token_capacity(r: TokenRing) -> nat;

/// Relies on LocalRb::new: an empty ring with room for `capacity` items. The
/// crate takes the capacity to be non-zero and keeps its counters below four
/// times it, hence the bounds.
#[verifier::external_body]
pub(crate) fn new_sample_ring(capacity: usize) -> (r: SampleRing)
    requires
        0 < capacity <= usize::MAX / 4,
    ensures
        sample_items(r) == Seq::<u32>::empty(),
        sample_capacity(r) == capacity,
{
    Ring { inner: LocalRb::new(capacity) }
}

/// Relies on Rb::push: the item is appended when the ring is not full, and
/// handed back otherwise.
#[verifier::external_body]
pub(crate) fn sample_push(r: &mut SampleRing, x: u32) -> (res: Result<(), u32>)
    ensures
        sample_capacity(*final(r)) == sample_capacity(*old(r)),
        sample_items(*old(r)).len() < sample_capacity(*old(r)) ==> res is Ok,
        sample_items(*old(r)).len() < sample_capacity(*old(r)) ==> sample_items(*final(r)) == sample_items(*old(r)).push(x),
        sample_items(*old(r)).len() >= sample_capacity(*old(r)) ==> res is Err && res->Err_0 == x,
        sample_items(*old(r)).len() >= sample_capacity(*old(r)) ==> sample_items(*final(r)) == sample_items(*old(r)),
{
    r.inner.push(x)
}

/// Relies on Rb::pop: the oldest item is removed and returned, or `None`
/// when the ring is empty.
#[verifier::external_body]
pub(crate) fn sample_pop(r: &mut SampleRing) -> (res: Option<u32>)
    ensures
        sample_capacity(*final(r)) == sample_capacity(*old(r)),
        sample_items(*old(r)).len() == 0 ==> res is None && sample_items(*final(r)) == sample_items(
            *old(r),
        ),
        sample_items(*old(r)).len() > 0 ==> res == Some(sample_items(*old(r))[0]) && sample_items(
            *final(r),
        ) == sample_items(*old(r)).drop_first(),
{
    r.inner.pop()
}

/// Relies on Rb::iter: the items, front to back, without removing them.
#[verifier::external_body]
pub(crate) fn sample_contents(r: &SampleRing) -> (v: Vec<u32>)
    ensures
        v@ == sample_items(*r),
{
    r.inner.iter().copied().collect()
}

/// Relies on LocalRb::new: an empty ring with room for `capacity` items. The
/// crate takes the capacity to be non-zero and keeps its counters below four
/// times it, hence the bounds.
#[verifier::external_body]
pub(crate) fn new_count_ring(capacity: usize) -> (r: CountRing)
    requires
        0 < capacity <= usize::MAX / 4,
    ensures
        count_items(r) == Seq::<usize>::empty(),
        count_capacity(r) == capacity,
{
    Ring { inner: LocalRb::new(capacity) }
}

/// Relies on Rb::push_overwrite: on a full ring the oldest item is removed
/// and returned before the new one is appended.
#[verifier::external_body]
pub(crate) fn count_push_overwrite(r: &mut CountRing, x: usize) -> (res: Option<usize>)
    requires
        0 < count_capacity(*old(r)),
        count_items(*old(r)).len() <= count_capacity(*old(r)),
    ensures
        count_capacity(*final(r)) == count_capacity(*old(r)),
        count_items(*old(r)).len() < count_capacity(*old(r)) ==> res is None && count_items(
            *final(r),
        ) == count_items(*old(r)).push(x),
        count_items(*old(r)).len() == count_capacity(*old(r)) ==> res == Some(
            count_items(*old(r))[0],
        ) && count_items(*final(r)) == count_items(*old(r)).drop_first().push(x),
{
    r.inner.push_overwrite(x)
}

/// Relies on LocalRb::new: an empty ring with room for `capacity` items. The
/// crate takes the capacity to be non-zero and keeps its counters below four
/// times it, hence the bounds.
#[verifier::external_body]
pub(crate) fn new_token_ring(capacity: usize) -> (r: TokenRing)
    requires
        0 < capacity <= usize::MAX / 4,
    ensures
        token_items(r) == Seq::<Vec<i32>>::empty(),
        token_capacity(r) == capacity,
{
    Ring { inner: LocalRb::new(capacity) }
}

/// Relies on Rb::push_overwrite: on a full ring the oldest item is removed
/// and returned before the new one is appended.
#[verifier::external_body]
pub(crate) fn token_push_overwrite(r: &mut TokenRing, x: Vec<i32>) -> (res: Option<Vec<i32>>)
    requires
        0 < token_capacity(*old(r)),
        token_items(*old(r)).len() <= token_capacity(*old(r)),
    ensures
        token_capacity(*final(r)) == token_capacity(*old(r)),
        token_items(*old(r)).len() < token_capacity(*old(r)) ==> res is None && token_items(
            *final(r),
        ) == token_items(*old(r)).push(x),
        token_items(*old(r)).len() == token_capacity(*old(r)) ==> res == Some(
            token_items(*old(r))[0],
        ) && token_items(*final(r)) == token_items(*old(r)).drop_first().push(x),
{
    r.inner.push_overwrite(x)
}

/// Relies on Rb::iter: the items, front to back, without removing them.
#[verifier::external_body]
pub(crate) fn token_contents(r: &TokenRing) -> (v: Vec<Vec<i32>>)
    ensures
        v@.len() == token_items(*r).len(),
        forall|i: int| 0 <= i < v@.len() ==> (#[trigger] v@[i])@ == token_items(*r)[i]@,
{
    r.inner.iter().cloned().collect()
}

} // verus!
