//! The lock-free ring buffer that carries the samples, as far as this
//! library relies on it.
//!
//! Nothing in this file is proved: each item states what the `ringbuf` crate
//! does, and the rest of the library is verified against these statements.

use ringbuf::traits::{Consumer, Observer, Producer, Split};
use vstd::prelude::*;

verus! {

/// A `ringbuf::HeapRb<u32>` that has not been split: one owner holds both
/// ends, so what it contains changes only through that owner.
#[verifier::external_body]
pub struct SampleRing {
    rb: ringbuf::HeapRb<u32>,
}

/// The write end of a split ring buffer (`ringbuf::HeapProd<u32>`). The read
/// end may run in another context at any time.
#[verifier::external_body]
pub struct SampleProducer {
    prod: ringbuf::HeapProd<u32>,
}

/// The read end of a split ring buffer (`ringbuf::HeapCons<u32>`). The write
/// end may run in another context at any time.
#[verifier::external_body]
pub struct SampleConsumer {
    cons: ringbuf::HeapCons<u32>,
}

/// The items that an unsplit ring buffer holds, oldest first.
pub uninterp spec fn ring_items(rb: SampleRing) -> Seq<u32>;

/// The number of items that an unsplit ring buffer was made to hold.
pub uninterp spec fn ring_capacity(rb: SampleRing) -> nat;

/// `HeapRb::new`: an empty ring buffer of exactly the capacity asked for.
/// It panics on a capacity of zero and on one whose storage would exceed
/// `isize::MAX` bytes, so both are excluded.
#[verifier::external_body]
pub(crate) fn ring_new(capacity: usize) -> (rb: SampleRing)
    requires
        0 < capacity,
        capacity * 4 <= isize::MAX,
    ensures
        ring_items(rb) == Seq::<u32>::empty(),
        ring_capacity(rb) == capacity,
{
    SampleRing { rb: ringbuf::HeapRb::<u32>::new(capacity) }
}

/// `Producer::push_slice` on an unsplit ring buffer: appends as many items
/// from the front of `elems` as there is room for, and returns how many.
#[verifier::external_body]
pub(crate) fn ring_push_slice(rb: &mut SampleRing, elems: &[u32]) -> (count: usize)
    requires
        ring_items(*old(rb)).len() <= ring_capacity(*old(rb)),
    ensures
        ring_capacity(*final(rb)) == ring_capacity(*old(rb)),
        count == vstd::math::min(
            elems@.len() as int,
            ring_capacity(*old(rb)) - ring_items(*old(rb)).len(),
        ),
        ring_items(*final(rb)) == ring_items(*old(rb)) + elems@.take(count as int),
{
    rb.rb.push_slice(elems)
}

/// `Observer::capacity` on an unsplit ring buffer: the capacity it was made
/// with, which never changes.
#[verifier::external_body]
pub(crate) fn ring_capacity_of(rb: &SampleRing) -> (capacity: usize)
    ensures
        capacity == ring_capacity(*rb),
{
    rb.rb.capacity().get()
}

/// `Observer::occupied_len` on an unsplit ring buffer: how many items it
/// holds.
#[verifier::external_body]
pub(crate) fn ring_len(rb: &SampleRing) -> (len: usize)
    ensures
        len == ring_items(*rb).len(),
{
    rb.rb.occupied_len()
}

/// `Producer::try_push` on an unsplit ring buffer: appends the item unless
/// the buffer is full, and says whether it did.
#[verifier::external_body]
pub(crate) fn ring_try_push(rb: &mut SampleRing, sample: u32) -> (pushed: bool)
    ensures
        ring_capacity(*final(rb)) == ring_capacity(*old(rb)),
        pushed == (ring_items(*old(rb)).len() < ring_capacity(*old(rb))),
        pushed ==> ring_items(*final(rb)) == ring_items(*old(rb)).push(sample),
        !pushed ==> ring_items(*final(rb)) == ring_items(*old(rb)),
{
    rb.rb.try_push(sample).is_ok()
}

/// `Consumer::try_pop` on an unsplit ring buffer: removes and returns the
/// oldest item, or returns `None` and changes nothing if there is none.
#[verifier::external_body]
pub(crate) fn ring_try_pop(rb: &mut SampleRing) -> (popped: Option<u32>)
    ensures
        ring_capacity(*final(rb)) == ring_capacity(*old(rb)),
        popped == (if ring_items(*old(rb)).len() > 0 {
            Some(ring_items(*old(rb)).first())
        } else {
            None
        }),
        ring_items(*final(rb)) == (if ring_items(*old(rb)).len() > 0 {
            ring_items(*old(rb)).drop_first()
        } else {
            ring_items(*old(rb))
        }),
{
    rb.rb.try_pop()
}

/// The room that the write end of a split ring buffer knows of without
/// asking the read end: the capacity, less what lies between the read
/// position it last saw and its own write position. The read end can only
/// add to the real room, so this much is certain. The write end looks again
/// only when this is zero.
pub uninterp spec fn producer_room(prod: SampleProducer) -> nat;

/// The items that the write end of a split ring buffer knows to be queued,
/// oldest first: those between the read position it last saw and its own
/// write position. The read end may have taken some of the oldest out since;
/// it cannot add any.
pub uninterp spec fn producer_items(prod: SampleProducer) -> Seq<u32>;

/// The items that the read end of a split ring buffer knows of without
/// asking the write end, oldest first: those between its own read position
/// and the write position it last saw. The write end never touches them. The
/// read end looks again only when there are none.
pub uninterp spec fn consumer_items(cons: SampleConsumer) -> Seq<u32>;

/// `Split::split`: the two ends of the ring buffer, each to be moved into a
/// context of its own. Each end starts from the positions of the buffer at
/// this moment, so the write end knows of all the room and the read end of
/// all the items.
#[verifier::external_body]
pub(crate) fn ring_split(rb: SampleRing) -> (ends: (SampleProducer, SampleConsumer))
    requires
        ring_items(rb).len() <= ring_capacity(rb),
    ensures
        producer_room(ends.0) == ring_capacity(rb) - ring_items(rb).len(),
        producer_items(ends.0) == ring_items(rb),
        consumer_items(ends.1) == ring_items(rb),
{
    let (prod, cons) = rb.rb.split();
    (SampleProducer { prod }, SampleConsumer { cons })
}

/// `Producer::try_push` on the write end: says whether the item was
/// appended. While the end knows of room it appends without looking at the
/// read end. When it knows of none it looks again, and the answer depends on
/// how far the read end has come: a refusal means that the read end has not
/// moved, and an acceptance that it has taken some of the oldest items out.
/// Either way the item, once accepted, is the newest one, and the room and
/// the items known together stay the capacity.
#[verifier::external_body]
pub(crate) fn producer_try_push(prod: &mut SampleProducer, sample: u32) -> (pushed: bool)
    ensures
        producer_room(*old(prod)) > 0 ==> pushed && producer_room(*final(prod))
            == producer_room(*old(prod)) - 1 && producer_items(*final(prod)) == producer_items(
            *old(prod),
        ).push(sample),
        !pushed ==> producer_room(*final(prod)) == 0 && producer_items(*final(prod))
            == producer_items(*old(prod)),
        pushed ==> exists|k: int|
            0 <= k <= producer_items(*old(prod)).len() && producer_items(*final(prod))
                == #[trigger] producer_items(*old(prod)).push(sample).skip(k),
        producer_room(*final(prod)) + producer_items(*final(prod)).len() == producer_room(
            *old(prod),
        ) + producer_items(*old(prod)).len(),
{
    prod.prod.try_push(sample).is_ok()
}

/// `Consumer::try_pop` on the read end: the oldest item, if there is one.
/// While the end knows of items it takes the oldest without looking at the
/// write end. When it knows of none it looks again, and the answer depends
/// on how far the write end has come; `None` means that there was still
/// none.
#[verifier::external_body]
pub(crate) fn consumer_try_pop(cons: &mut SampleConsumer) -> (popped: Option<u32>)
    ensures
        consumer_items(*old(cons)).len() > 0 ==> popped == Some(consumer_items(*old(cons)).first())
            && consumer_items(*final(cons)) == consumer_items(*old(cons)).drop_first(),
        popped is None ==> consumer_items(*final(cons)) == Seq::<u32>::empty(),
{
    cons.cons.try_pop()
}

} // verus!
