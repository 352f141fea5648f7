//! The way out for sound: a bounded single-producer, single-consumer ring
//! of frames from the `ringbuf` crate. The core keeps the writing end and
//! hands the reading end to the host, which may empty it at any time, from
//! any thread. A frame that finds the ring full is dropped.

use vstd::prelude::*;
use ringbuf::storage::Heap;
use ringbuf::traits::{Producer, Split};
use ringbuf::wrap::caching::Caching;
use ringbuf::{HeapRb, SharedRb};
use std::sync::Arc;
use crate::apu::AudioFrame;

verus! {

/// The writing end of the ring (`ringbuf`'s caching producer over a shared
/// heap ring).
#[verifier::external_body]
pub struct AudioBufferProducer {
    ring: Caching<Arc<SharedRb<Heap<AudioFrame>>>, true, false>,
}

/// The reading end of the ring (`ringbuf`'s caching consumer over a shared
/// heap ring), for the host to read through `ringbuf`'s own interface.
#[verifier::external_body]
pub struct AudioBufferConsumer {
    pub ring: Caching<Arc<SharedRb<Heap<AudioFrame>>>, false, true>,
}

/// A ring before it is split into its two ends (`ringbuf`'s shared heap
/// ring).
#[verifier::external_body]
pub struct AudioRing {
    ring: HeapRb<AudioFrame>,
}

/// The frames that a ring holds before it is split, oldest first.
pub uninterp spec fn held_frames(ring: AudioRing) -> Seq<AudioFrame>;

/// The frames that the ring has accepted from its writing end since it
/// was made, oldest first. What the reading end has taken out since does
/// not change this.
pub uninterp spec fn accepted_frames(producer: AudioBufferProducer) -> Seq<AudioFrame>;

/// `HeapRb::new`: an empty ring with room for `capacity` frames.
#[verifier::external_body]
pub(crate) fn new_audio_ring(capacity: usize) -> (ring: AudioRing)
    requires
        capacity > 0,
    ensures
        held_frames(ring) == Seq::<AudioFrame>::empty(),
{
    AudioRing { ring: HeapRb::<AudioFrame>::new(capacity) }
}

/// `Split::split`: the two ends of the ring; the writing end starts from
/// what the ring holds.
#[verifier::external_body]
pub(crate) fn split_audio_ring(ring: AudioRing) -> (ends: (
    AudioBufferProducer,
    AudioBufferConsumer,
))
    ensures
        accepted_frames(ends.0) == held_frames(ring),
{
    let (producer, consumer) = ring.ring.split();
    (AudioBufferProducer { ring: producer }, AudioBufferConsumer { ring: consumer })
}

/// `Producer::try_push`: the ring takes the frame if it has room and
/// refuses it if it is full; whether it has room depends on the reader.
#[verifier::external_body]
pub(crate) fn push_frame(producer: &mut AudioBufferProducer, frame: AudioFrame) -> (taken: bool)
    ensures
        accepted_frames(*final(producer)) == (if taken {
            accepted_frames(*old(producer)).push(frame)
        } else {
            accepted_frames(*old(producer))
        }),
{
    producer.ring.try_push(frame).is_ok()
}

/// Of `frames`, those whose flag in `taken` is set, in their order.
pub open spec fn picked(frames: Seq<AudioFrame>, taken: Seq<bool>) -> Seq<AudioFrame>
    decreases frames.len(),
{
    if frames.len() == 0 || taken.len() != frames.len() {
        Seq::empty()
    } else if taken.last() {
        picked(frames.drop_last(), taken.drop_last()).push(frames.last())
    } else {
        picked(frames.drop_last(), taken.drop_last())
    }
}

/// Whether a ring that had accepted `before` has, after it was offered
/// `frames` one by one, accepted `after`: what it accepted in addition is
/// some of `frames`, in their order.
pub open spec fn delivered(
    before: Seq<AudioFrame>,
    after: Seq<AudioFrame>,
    frames: Seq<AudioFrame>,
) -> bool {
    exists|taken: Seq<bool>| taken.len() == frames.len() && after == before + #[trigger] picked(
        frames,
        taken,
    )
}

/// Whether the writing end `after` is the writing end `before` after it
/// was offered `frames`; without a ring nothing is delivered.
pub open spec fn ring_delivered(
    before: Option<AudioBufferProducer>,
    after: Option<AudioBufferProducer>,
    frames: Seq<AudioFrame>,
) -> bool {
    match before {
        Some(ring) => after is Some && delivered(
            accepted_frames(ring),
            accepted_frames(after->0),
            frames,
        ),
        None => after is None,
    }
}

/// Offers the frames to the ring in their order.
pub fn push_frames(producer: &mut AudioBufferProducer, frames: &Vec<AudioFrame>)
    ensures
        delivered(
            accepted_frames(*old(producer)),
            accepted_frames(*final(producer)),
            frames@,
        ),
{
    let ghost start = accepted_frames(*producer);
    let ghost mut taken: Seq<bool> = Seq::empty();
    let mut index: usize = 0;
    while index < frames.len()
        invariant
            index <= frames@.len(),
            taken.len() == index,
            accepted_frames(*producer) == start + picked(frames@.take(index as int), taken),
        decreases frames@.len() - index,
    {
        let ghost before = accepted_frames(*producer);
        let accepted: bool = push_frame(producer, frames[index]);
        proof {
            let next = taken.push(accepted);
            let prefix = frames@.take(index as int + 1);
            assert(prefix.drop_last() =~= frames@.take(index as int));
            assert(next.drop_last() =~= taken);
            assert(prefix.last() == frames@[index as int]);
            if accepted {
                assert(before.push(frames@[index as int]) =~= start + picked(prefix, next));
            }
            taken = next;
        }
        index = index + 1;
    }
    proof {
        assert(frames@.take(frames@.len() as int) =~= frames@);
        assert(taken.len() == frames@.len() && accepted_frames(*producer) == start + picked(
            frames@,
            taken,
        ));
    }
}

} // verus!
