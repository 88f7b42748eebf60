//! The delay buffer: a fixed-capacity queue of samples between the capture
//! and the render side, pre-filled with silence.
//!
//! A sample is carried as the bit pattern of a 32-bit float; silence, the
//! float zero, is the pattern `0`.

use crate::ring::{
    consumer_items, consumer_try_pop, producer_items, producer_room, producer_try_push,
    ring_capacity,
    ring_capacity_of, ring_items, ring_len, ring_new, ring_push_slice, ring_split, ring_try_pop,
    ring_try_push, SampleConsumer, SampleProducer, SampleRing,
};
use vstd::prelude::*;

verus! {

/// One sample, as the bits of a 32-bit float.
pub type Sample = u32;

/// The sample that an empty buffer yields.
pub const SILENCE: Sample = 0;

/// `n` samples of silence.
pub open spec fn silence(n: nat) -> Seq<Sample> {
    Seq::new(n, |i: int| SILENCE)
}

/// The number of samples that make up the requested latency: one per
/// channel for each frame.
pub open spec fn latency_samples(latency_frames: nat, channels: nat) -> nat {
    latency_frames * channels
}

/// The capacity of a delay buffer for the requested latency: room for two
/// latency windows.
pub open spec fn buffer_capacity(latency_frames: nat, channels: nat) -> nat {
    2 * latency_samples(latency_frames, channels)
}

/// Whether a delay buffer can be built for this latency: it has at least one
/// sample, and its storage of four bytes a sample can be allocated.
pub open spec fn latency_fits(latency_frames: nat, channels: nat) -> bool {
    &&& 0 < latency_samples(latency_frames, channels)
    &&& 4 * buffer_capacity(latency_frames, channels) <= isize::MAX
}

/// By how many samples a request for `wanted` exceeds the `held` ones.
pub open spec fn shortfall(wanted: int, held: int) -> nat {
    if wanted > held {
        (wanted - held) as nat
    } else {
        0
    }
}

/// The part of a captured batch that is queued when there is room for
/// `room` samples: its front, as far as the room goes.
pub open spec fn accepted(data: Seq<Sample>, room: nat) -> Seq<Sample> {
    data.take(vstd::math::min(data.len() as int, room as int))
}

/// What a request for `wanted` samples yields from a queue: the oldest
/// samples, as far as the queue goes, and silence for the rest.
pub open spec fn delivered(queued: Seq<Sample>, wanted: nat) -> Seq<Sample> {
    queued.take(vstd::math::min(wanted as int, queued.len() as int)) + silence(
        shortfall(wanted as int, queued.len() as int),
    )
}

/// What a request for `wanted` samples leaves of a queue.
pub open spec fn left_queued(queued: Seq<Sample>, wanted: nat) -> Seq<Sample> {
    queued.skip(vstd::math::min(wanted as int, queued.len() as int))
}

/// A delay buffer held by one owner. Its view is the queue of samples,
/// oldest first.
pub struct DelayBuffer {
    ring: SampleRing,
}

impl View for DelayBuffer {
    type V = Seq<Sample>;

    closed spec fn view(&self) -> Seq<Sample> {
        ring_items(self.ring)
    }
}

impl DelayBuffer {
    /// The fixed number of samples the buffer has room for.
    pub closed spec fn spec_capacity(&self) -> nat {
        ring_capacity(self.ring)
    }

    /// The buffer never holds more than its capacity, which is not zero.
    pub open spec fn wf(&self) -> bool {
        &&& 0 < self.spec_capacity()
        &&& self@.len() <= self.spec_capacity()
    }

    /// The room left in the buffer.
    pub open spec fn spec_remaining(&self) -> nat {
        (self.spec_capacity() - self@.len()) as nat
    }

    /// Says whether a buffer can be built for this latency, and if so how
    /// many samples of latency it gives.
    pub fn sizing(latency_frames: usize, channels: u16) -> (samples: Option<usize>)
        ensures
            samples is Some <==> latency_fits(latency_frames as nat, channels as nat),
            samples matches Some(n) ==> n == latency_samples(
                latency_frames as nat,
                channels as nat,
            ),
    {
        let limit: usize = (isize::MAX as usize) / 8;
        match latency_frames.checked_mul(channels as usize) {
            Some(n) => {
                if 0 < n && n <= limit {
                    Some(n)
                } else {
                    None
                }
            },
            None => None,
        }
    }

    /// Builds the buffer for a latency of `latency_frames` frames of
    /// `channels` samples each: room for twice the latency, and one latency
    /// of silence already queued.
    pub fn new(latency_frames: usize, channels: u16) -> (buffer: DelayBuffer)
        requires
            latency_fits(latency_frames as nat, channels as nat),
        ensures
            buffer.wf(),
            buffer.spec_capacity() == buffer_capacity(latency_frames as nat, channels as nat),
            buffer@ == silence(latency_samples(latency_frames as nat, channels as nat)),
    {
        let latency: usize = latency_frames * (channels as usize);
        let mut ring = ring_new(latency * 2);
        let zeros: Vec<Sample> = vec![SILENCE; latency];
        let count = ring_push_slice(&mut ring, zeros.as_slice());
        assert(zeros@.take(count as int) =~= silence(latency as nat));
        DelayBuffer { ring }
    }

    /// The fixed number of samples the buffer has room for.
    pub fn capacity(&self) -> (capacity: usize)
        ensures
            capacity == self.spec_capacity(),
    {
        ring_capacity_of(&self.ring)
    }

    /// The number of samples queued.
    pub fn len(&self) -> (len: usize)
        ensures
            len == self@.len(),
    {
        ring_len(&self.ring)
    }

    /// The number of samples that can still be queued.
    pub fn remaining(&self) -> (remaining: usize)
        requires
            self.wf(),
        ensures
            remaining == self.spec_remaining(),
    {
        ring_capacity_of(&self.ring) - ring_len(&self.ring)
    }

    /// Queues a batch of captured samples in order. Once the buffer is full
    /// the rest of the batch is dropped, and the batch is reported as an
    /// overrun.
    pub fn push_batch(&mut self, data: &[Sample]) -> (overrun: bool)
        requires
            old(self).wf(),
        ensures
            final(self).wf(),
            final(self).spec_capacity() == old(self).spec_capacity(),
            final(self)@ == old(self)@ + accepted(data@, old(self).spec_remaining()),
            overrun == (data@.len() > old(self).spec_remaining()),
    {
        let ghost before = self@;
        let ghost room = self.spec_remaining() as int;
        let mut overrun = false;
        let mut i: usize = 0;
        while i < data.len()
            invariant
                i <= data@.len(),
                self.wf(),
                self.spec_capacity() == old(self).spec_capacity(),
                before == old(self)@,
                room == old(self).spec_remaining(),
                self@ == before + data@.take(vstd::math::min(i as int, room)),
                overrun == (i > room),
            decreases data@.len() - i,
        {
            let pushed = ring_try_push(&mut self.ring, data[i]);
            if !pushed {
                overrun = true;
            }
            proof {
                if i < room {
                    assert(data@.take(i as int).push(data@[i as int]) =~= data@.take(i + 1));
                    assert(before + data@.take(i + 1) =~= (before + data@.take(i as int)).push(
                        data@[i as int],
                    ));
                }
            }
            i += 1;
        }
        overrun
    }

    /// Fills `out` with the oldest queued samples in order. Once the buffer
    /// is empty the rest of `out` is silence, and the batch is reported as
    /// an underrun.
    pub fn pop_batch(&mut self, out: &mut Vec<Sample>) -> (underrun: bool)
        requires
            old(self).wf(),
        ensures
            final(self).wf(),
            final(self).spec_capacity() == old(self).spec_capacity(),
            final(out)@.len() == old(out)@.len(),
            final(out)@ == delivered(old(self)@, old(out)@.len()),
            final(self)@ == left_queued(old(self)@, old(out)@.len()),
            underrun == (old(out)@.len() > old(self)@.len()),
    {
        let ghost before = self@;
        let ghost held = self@.len() as int;
        let n = out.len();
        let mut underrun = false;
        let mut i: usize = 0;
        while i < n
            invariant
                i <= n,
                n == out@.len(),
                n == old(out)@.len(),
                self.wf(),
                self.spec_capacity() == old(self).spec_capacity(),
                before == old(self)@,
                held == before.len(),
                self@ == before.skip(vstd::math::min(i as int, held)),
                out@.take(i as int) == before.take(vstd::math::min(i as int, held)) + silence(
                    shortfall(i as int, held),
                ),
                underrun == (i > held),
            decreases n - i,
        {
            let popped = ring_try_pop(&mut self.ring);
            let (sample, missed) = sample_or_silence(popped);
            if missed {
                underrun = true;
            }
            let ghost filled = out@.take(i as int);
            out.set(i, sample);
            proof {
                assert(out@.take(i as int) =~= filled);
                assert(out@.take(i + 1) =~= filled.push(sample));
                if i < held {
                    assert(before.skip(i as int).drop_first() =~= before.skip(i + 1));
                    assert(before.take(i + 1) + silence(0) =~= (before.take(i as int) + silence(
                        0,
                    )).push(before[i as int]));
                } else {
                    assert(before.take(held) + silence(shortfall(i + 1, held)) =~= (before.take(
                        held,
                    ) + silence(shortfall(i as int, held))).push(SILENCE));
                }
            }
            i += 1;
        }
        assert(out@.take(n as int) =~= out@);
        underrun
    }
}

/// The capture side of a split delay buffer. The render side may take
/// samples out at any moment, so the room can grow unseen, and of the
/// samples that this side knows to be queued the oldest may be gone.
pub struct CaptureEnd {
    producer: SampleProducer,
}

/// The render side of a split delay buffer. The capture side may queue
/// samples at any moment, so the queue can grow unseen. Its view is the part
/// of the queue that this side is certain of, oldest first.
pub struct RenderEnd {
    consumer: SampleConsumer,
}

impl View for RenderEnd {
    type V = Seq<Sample>;

    closed spec fn view(&self) -> Seq<Sample> {
        consumer_items(self.consumer)
    }
}

impl CaptureEnd {
    /// The room that this side is certain of.
    pub closed spec fn spec_room(&self) -> nat {
        producer_room(self.producer)
    }

    /// The queue as this side last saw it, oldest first: what the render
    /// side has taken out since is still in it.
    pub closed spec fn spec_items(&self) -> Seq<Sample> {
        producer_items(self.producer)
    }

    /// The capacity of the buffer: the room and the queue as this side sees
    /// them.
    pub open spec fn spec_capacity(&self) -> nat {
        self.spec_room() + self.spec_items().len()
    }
}

/// Whether `queue` is what is left of `whole` after some of its oldest
/// samples were taken out.
pub open spec fn is_rest_of(queue: Seq<Sample>, whole: Seq<Sample>) -> bool {
    exists|taken: int| 0 <= taken <= whole.len() && queue == #[trigger] whole.skip(taken)
}

/// Whether `kept` is `batch` with some of its samples left out and the rest
/// in their order.
pub open spec fn is_kept_of(kept: Seq<Sample>, batch: Seq<Sample>) -> bool
    decreases batch.len(),
{
    if batch.len() == 0 {
        kept.len() == 0
    } else {
        ||| is_kept_of(kept, batch.drop_last())
        ||| (kept.len() > 0 && kept.last() == batch.last() && is_kept_of(
            kept.drop_last(),
            batch.drop_last(),
        ))
    }
}

/// What a capture side may have made of a batch, whatever the render side
/// did meanwhile. The samples `kept` are queued, in order, behind what was
/// queued, and the render side has taken some of the oldest out. The kept
/// ones are samples of the batch in their order, among them all those within
/// the room that was certain, and the batch is an overrun exactly if one was
/// left out.
pub open spec fn captured(
    queue_before: Seq<Sample>,
    room_before: nat,
    batch: Seq<Sample>,
    kept: Seq<Sample>,
    queue_after: Seq<Sample>,
    overrun: bool,
) -> bool {
    &&& is_kept_of(kept, batch)
    &&& vstd::math::min(batch.len() as int, room_before as int) <= kept.len()
    &&& kept.take(vstd::math::min(batch.len() as int, room_before as int)) == accepted(
        batch,
        room_before,
    )
    &&& is_rest_of(queue_after, queue_before + kept)
    &&& overrun == (kept.len() < batch.len())
}

/// Whether a batch counts as an overrun once one more of its samples has
/// been offered: it does if it did before or if this sample was refused.
pub fn overrun_after(overrun: bool, pushed: bool) -> (now: bool)
    ensures
        now == (overrun || !pushed),
{
    overrun || !pushed
}

impl DelayBuffer {
    /// Splits the buffer into its two sides, one for each callback context.
    /// The capture side starts out certain of all the room left, the render
    /// side of all that is queued.
    pub fn split(self) -> (ends: (CaptureEnd, RenderEnd))
        requires
            self.wf(),
        ensures
            ends.0.spec_room() == self.spec_remaining(),
            ends.0.spec_items() == self@,
            ends.0.spec_capacity() == self.spec_capacity(),
            ends.1@ == self@,
    {
        let (producer, consumer) = ring_split(self.ring);
        (CaptureEnd { producer }, RenderEnd { consumer })
    }
}

impl CaptureEnd {
    /// Offers each sample of a captured batch to the buffer, in order. A
    /// sample for which there is no room at that moment is dropped, and the
    /// batch is then reported as an overrun. This never blocks.
    ///
    /// A batch within the room that this side is certain of is queued whole,
    /// behind what was queued. Beyond that it depends on how far the render
    /// side has come; a batch that is not reported as an overrun has been
    /// queued whole all the same, and the render side has taken some of the
    /// oldest samples out meanwhile. The capacity never changes.
    pub fn push_batch(&mut self, data: &[Sample]) -> (overrun: bool)
        ensures
            final(self).spec_capacity() == old(self).spec_capacity(),
            data@.len() <= old(self).spec_room() ==> !overrun && final(self).spec_room() == old(
                self,
            ).spec_room() - data@.len() && final(self).spec_items() == old(self).spec_items()
                + data@,
            !overrun ==> is_rest_of(final(self).spec_items(), old(self).spec_items() + data@),
            overrun ==> data@.len() > old(self).spec_room(),
            exists|kept: Seq<Sample>| #[trigger]
                captured(
                    old(self).spec_items(),
                    old(self).spec_room(),
                    data@,
                    kept,
                    final(self).spec_items(),
                    overrun,
                ),
    {
        let ghost room = self.spec_room();
        let ghost queued = self.spec_items();
        let ghost mut kept: Seq<Sample> = Seq::empty();
        let mut overrun = false;
        let mut i: usize = 0;
        proof {
            assert(data@.take(0) =~= Seq::<Sample>::empty());
            assert(queued + kept =~= queued);
            assert(queued.skip(0) =~= queued);
        }
        while i < data.len()
            invariant
                i <= data@.len(),
                room == old(self).spec_room(),
                queued == old(self).spec_items(),
                self.spec_capacity() == old(self).spec_capacity(),
                i <= room ==> self.spec_room() == room - i && self.spec_items() == queued + kept,
                is_kept_of(kept, data@.take(i as int)),
                vstd::math::min(i as int, room as int) <= kept.len() <= i,
                kept.take(vstd::math::min(i as int, room as int)) == data@.take(
                    vstd::math::min(i as int, room as int),
                ),
                !overrun ==> kept == data@.take(i as int),
                is_rest_of(self.spec_items(), queued + kept),
                overrun == (kept.len() < i),
                overrun ==> i > room,
            decreases data@.len() - i,
        {
            let ghost before = self.spec_items();
            let ghost kept_before = kept;
            let pushed = producer_try_push(&mut self.producer, data[i]);
            overrun = overrun_after(overrun, pushed);
            proof {
                let sample = data@[i as int];
                let m = vstd::math::min(i as int, room as int);
                let m_next = vstd::math::min(i + 1, room as int);
                assert(data@.take(i + 1).drop_last() =~= data@.take(i as int));
                assert(data@.take(i + 1).last() == sample);
                if pushed {
                    kept = kept_before.push(sample);
                    assert(kept.drop_last() =~= kept_before);
                    let whole = queued + kept_before;
                    let taken = choose|taken: int|
                        0 <= taken <= whole.len() && before == #[trigger] whole.skip(taken);
                    let more = choose|k: int|
                        0 <= k <= before.len() && self.spec_items() == #[trigger] before.push(
                            sample,
                        ).skip(k);
                    assert(whole.push(sample) =~= queued + kept);
                    assert(before.push(sample).skip(more) =~= (queued + kept).skip(taken + more));
                    assert(kept.take(m) =~= kept_before.take(m));
                    if i < room {
                        assert(kept_before =~= data@.take(i as int));
                        assert(kept =~= data@.take(i + 1));
                        assert(kept.take(m_next) =~= data@.take(m_next));
                        assert(self.spec_items() == queued + kept);
                    } else {
                        assert(kept.take(m_next) =~= data@.take(m_next));
                    }
                    if !overrun {
                        assert(kept =~= data@.take(i + 1));
                    }
                } else {
                    assert(kept.take(m_next) =~= data@.take(m_next));
                }
            }
            i += 1;
        }
        proof {
            assert(data@.take(data@.len() as int) =~= data@);
            assert(captured(queued, room, data@, kept, self.spec_items(), overrun));
        }
        overrun
    }
}

impl RenderEnd {
    /// Fills `out` with what the buffer yields, sample by sample. Where no
    /// sample is queued at that moment the place gets silence, and the batch
    /// is then reported as an underrun. This never blocks.
    ///
    /// The samples that this side is certain of come first, in order. Beyond
    /// them it depends on how far the capture side has come.
    pub fn pop_batch(&mut self, out: &mut Vec<Sample>) -> (underrun: bool)
        ensures
            final(out)@.len() == old(out)@.len(),
            final(out)@.take(vstd::math::min(old(out)@.len() as int, old(self)@.len() as int))
                == old(self)@.take(
                vstd::math::min(old(out)@.len() as int, old(self)@.len() as int),
            ),
            old(out)@.len() <= old(self)@.len() ==> !underrun && final(self)@ == left_queued(
                old(self)@,
                old(out)@.len(),
            ),
            underrun ==> old(out)@.len() > old(self)@.len() && exists|i: int|
                old(self)@.len() <= i < final(out)@.len() && final(out)@[i] == SILENCE,
    {
        let ghost known = self@;
        let n = out.len();
        let mut underrun = false;
        let ghost mut witness: int = 0;
        let mut i: usize = 0;
        while i < n
            invariant
                i <= n,
                n == out@.len(),
                n == old(out)@.len(),
                known == old(self)@,
                out@.take(vstd::math::min(i as int, known.len() as int)) == known.take(
                    vstd::math::min(i as int, known.len() as int),
                ),
                i <= known.len() ==> !underrun && self@ == known.skip(i as int),
                underrun ==> known.len() <= witness < i && out@[witness] == SILENCE,
            decreases n - i,
        {
            let popped = consumer_try_pop(&mut self.consumer);
            let (sample, missed) = sample_or_silence(popped);
            let ghost filled = out@;
            out.set(i, sample);
            if missed {
                underrun = true;
                proof {
                    witness = i as int;
                }
            }
            proof {
                let m = vstd::math::min(i as int, known.len() as int);
                assert(out@.take(m) =~= filled.take(m));
                if i < known.len() {
                    assert(known.skip(i as int).drop_first() =~= known.skip(i + 1));
                    assert(out@.take(i + 1) =~= filled.take(i as int).push(sample));
                    assert(known.take(i + 1) =~= known.take(i as int).push(known[i as int]));
                }
            }
            i += 1;
        }
        underrun
    }
}

/// What the render side delivers for one sample: the sample that was
/// queued, or silence and a note that none was.
pub fn sample_or_silence(popped: Option<Sample>) -> (delivered: (Sample, bool))
    ensures
        delivered.0 == (match popped {
            Some(sample) => sample,
            None => SILENCE,
        }),
        delivered.1 == (popped is None),
{
    match popped {
        Some(sample) => (sample, false),
        None => (SILENCE, true),
    }
}

/// A batch that is larger than the room left fills the room exactly, and
/// the part of it that is queued is its front.
pub proof fn overrun_fills_the_room(queued: Seq<Sample>, capacity: nat, data: Seq<Sample>)
    requires
        queued.len() <= capacity,
        data.len() > capacity - queued.len(),
    ensures
        accepted(data, (capacity - queued.len()) as nat).len() == capacity - queued.len(),
        (queued + accepted(data, (capacity - queued.len()) as nat)).len() == capacity,
        accepted(data, (capacity - queued.len()) as nat) == data.take(capacity - queued.len()),
{
}

/// A batch that fits in the room left is queued whole.
pub proof fn batch_that_fits_is_queued_whole(data: Seq<Sample>, room: nat)
    requires
        data.len() <= room,
    ensures
        accepted(data, room) == data,
{
    assert(data.take(data.len() as int) =~= data);
}

/// An empty queue yields nothing but silence and stays empty.
pub proof fn empty_queue_yields_silence(wanted: nat)
    ensures
        delivered(Seq::<Sample>::empty(), wanted) == silence(wanted),
        left_queued(Seq::<Sample>::empty(), wanted) == Seq::<Sample>::empty(),
{
    assert(delivered(Seq::<Sample>::empty(), wanted) =~= silence(wanted));
    assert(left_queued(Seq::<Sample>::empty(), wanted) =~= Seq::<Sample>::empty());
}

/// A request is always met in full, and one that the queue can meet splits
/// the queue in two without loss: what is delivered, then what is left.
pub proof fn nothing_is_lost_in_delivery(queued: Seq<Sample>, wanted: nat)
    ensures
        delivered(queued, wanted).len() == wanted,
        wanted <= queued.len() ==> delivered(queued, wanted) + left_queued(queued, wanted)
            == queued,
        wanted >= queued.len() ==> left_queued(queued, wanted) == Seq::<Sample>::empty()
            && delivered(queued, wanted) == queued + silence((wanted - queued.len()) as nat),
{
    if wanted <= queued.len() {
        assert(delivered(queued, wanted) + left_queued(queued, wanted) =~= queued);
    }
    if wanted >= queued.len() {
        assert(left_queued(queued, wanted) =~= Seq::<Sample>::empty());
        assert(queued.take(queued.len() as int) =~= queued);
    }
}

/// A buffer built for a latency has room left for exactly one more latency
/// of samples: its capacity is twice what it holds.
pub proof fn new_buffer_is_half_full(latency_frames: nat, channels: nat)
    ensures
        buffer_capacity(latency_frames, channels) == 2 * silence(
            latency_samples(latency_frames, channels),
        ).len(),
        buffer_capacity(latency_frames, channels) - silence(
            latency_samples(latency_frames, channels),
        ).len() == latency_samples(latency_frames, channels),
{
}

/// The delay is kept: when a batch is queued without overrun and as many
/// samples are then requested, what comes out is what was queued before,
/// followed by the front of the batch, and the queue is as long as it was.
pub proof fn balanced_batches_keep_the_delay(
    queued: Seq<Sample>,
    capacity: nat,
    data: Seq<Sample>,
)
    requires
        queued.len() + data.len() <= capacity,
    ensures
        delivered(
            queued + accepted(data, (capacity - queued.len()) as nat),
            data.len(),
        ) == (queued + data).take(data.len() as int),
        left_queued(
            queued + accepted(data, (capacity - queued.len()) as nat),
            data.len(),
        ).len() == queued.len(),
{
    batch_that_fits_is_queued_whole(data, (capacity - queued.len()) as nat);
    assert(delivered(queued + data, data.len()) =~= (queued + data).take(data.len() as int));
}

/// The first latency window that is rendered is the silence that the
/// buffer was built with, whatever the capture side does meanwhile.
pub proof fn prefill_is_delivered_as_silence(latency: nat, wanted: nat)
    requires
        wanted <= latency,
    ensures
        delivered(silence(latency), wanted) == silence(wanted),
        left_queued(silence(latency), wanted) == silence((latency - wanted) as nat),
{
    assert(delivered(silence(latency), wanted) =~= silence(wanted));
    assert(left_queued(silence(latency), wanted) =~= silence((latency - wanted) as nat));
}

/// What is kept of a batch is no longer than the batch.
pub proof fn kept_is_no_longer(kept: Seq<Sample>, batch: Seq<Sample>)
    requires
        is_kept_of(kept, batch),
    ensures
        kept.len() <= batch.len(),
    decreases batch.len(),
{
    if batch.len() > 0 {
        if is_kept_of(kept, batch.drop_last()) {
            kept_is_no_longer(kept, batch.drop_last());
        } else {
            kept_is_no_longer(kept.drop_last(), batch.drop_last());
        }
    }
}

/// If nothing of a batch was left out, what is kept is the batch.
pub proof fn kept_whole_is_the_batch(kept: Seq<Sample>, batch: Seq<Sample>)
    requires
        is_kept_of(kept, batch),
        kept.len() == batch.len(),
    ensures
        kept == batch,
    decreases batch.len(),
{
    if batch.len() > 0 {
        if is_kept_of(kept, batch.drop_last()) {
            kept_is_no_longer(kept, batch.drop_last());
        } else {
            kept_whole_is_the_batch(kept.drop_last(), batch.drop_last());
            assert(kept =~= kept.drop_last().push(kept.last()));
            assert(batch =~= batch.drop_last().push(batch.last()));
        }
    } else {
        assert(kept =~= batch);
    }
}

/// A batch that the capture side does not report as an overrun was queued
/// whole, and one within the room that was certain is never an overrun.
pub proof fn capture_without_overrun_queues_the_batch(
    queue_before: Seq<Sample>,
    room_before: nat,
    batch: Seq<Sample>,
    kept: Seq<Sample>,
    queue_after: Seq<Sample>,
    overrun: bool,
)
    requires
        captured(queue_before, room_before, batch, kept, queue_after, overrun),
    ensures
        !overrun ==> kept == batch && is_rest_of(queue_after, queue_before + batch),
        batch.len() <= room_before ==> !overrun,
        overrun ==> kept.len() < batch.len() && room_before <= kept.len(),
{
    kept_is_no_longer(kept, batch);
    if !overrun {
        kept_whole_is_the_batch(kept, batch);
    }
}

} // verus!
