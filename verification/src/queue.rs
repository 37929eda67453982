//! The pipeline's cross-thread queues.
//!
//! Capture samples, and later decoded playback samples, travel between the
//! hardware callbacks and the coordinator through unbounded FIFO channels:
//! the sending side never blocks, the receiving side can poll without
//! blocking, and messages arrive exactly in send order. The queue here owns
//! both endpoints of one such channel, so its contents change only through
//! its own methods.

use vstd::prelude::*;
use crate::downmix::downmix;
use crate::downmix::downmix_spec;
use crate::downmix::frame_well_formed;

verus! {

/// A FIFO queue of interleaved stereo sample batches, backed by an
/// unbounded multi-producer multi-consumer channel.
#[verifier::external_body]
pub struct SampleQueue {
    tx: crossbeam_channel::Sender<Vec<i16>>,
    rx: crossbeam_channel::Receiver<Vec<i16>>,
}

/// The batches the queue holds, oldest first.
pub uninterp spec fn queue_contents(q: SampleQueue) -> Seq<Seq<i16>>;

impl SampleQueue {
    /// Relies on crossbeam_channel::unbounded: a newly created channel
    /// holds no messages.
    #[verifier::external_body]
    pub fn new() -> (q: SampleQueue)
        ensures
            queue_contents(q) == Seq::<Seq<i16>>::empty(),
    {
        let (tx, rx) = crossbeam_channel::unbounded();
        SampleQueue { tx, rx }
    }

    /// Relies on crossbeam_channel::Sender::send: on an unbounded channel
    /// it appends the message in FIFO order without blocking. Send fails
    /// only when every receiver is gone, which cannot happen while the
    /// queue owns its receiver.
    #[verifier::external_body]
    pub fn push(&mut self, batch: Vec<i16>)
        ensures
            queue_contents(*final(self)) == queue_contents(*old(self)).push(batch@),
    {
        let _ = self.tx.send(batch);
    }

    /// Relies on crossbeam_channel::Receiver::try_recv: it returns the
    /// oldest message without blocking, or reports the channel empty. With
    /// both endpoints owned here, no other thread can add or remove
    /// messages, so an empty report means the queue held nothing.
    #[verifier::external_body]
    pub fn try_pop(&mut self) -> (r: Option<Vec<i16>>)
        ensures
            match r {
                Some(batch) => {
                    &&& queue_contents(*old(self)).len() > 0
                    &&& batch@ == queue_contents(*old(self))[0]
                    &&& queue_contents(*final(self)) == queue_contents(*old(self)).drop_first()
                },
                None => {
                    &&& queue_contents(*old(self)).len() == 0
                    &&& queue_contents(*final(self)) == queue_contents(*old(self))
                },
            },
    {
        self.rx.try_recv().ok()
    }

    /// Empties the queue, returning every batch in arrival order: batches
    /// pushed first come out first, none is lost or duplicated.
    pub fn drain(&mut self) -> (r: Vec<Vec<i16>>)
        ensures
            r@.map_values(|b: Vec<i16>| b@) == queue_contents(*old(self)),
            queue_contents(*final(self)) == Seq::<Seq<i16>>::empty(),
    {
        let mut out: Vec<Vec<i16>> = Vec::new();
        let mut done = false;
        while !done
            invariant
                out@.map_values(|b: Vec<i16>| b@) + queue_contents(*self) == queue_contents(
                    *old(self),
                ),
                done ==> queue_contents(*self).len() == 0,
            decreases queue_contents(*self).len() + (if done {
                0int
            } else {
                1int
            }),
        {
            let ghost pre = queue_contents(*self);
            let next = self.try_pop();
            match next {
                Some(batch) => {
                    let ghost prev = out@.map_values(|b: Vec<i16>| b@);
                    let ghost popped = batch@;
                    out.push(batch);
                    proof {
                        assert(pre =~= seq![popped] + queue_contents(*self));
                        assert(out@.map_values(|b: Vec<i16>| b@) =~= prev.push(popped));
                        assert(prev.push(popped) + queue_contents(*self) =~= prev + (seq![popped]
                            + queue_contents(*self)));
                    }
                },
                None => {
                    done = true;
                },
            }
        }
        proof {
            assert(out@.map_values(|b: Vec<i16>| b@) =~= queue_contents(*old(self)));
        }
        out
    }
}

/// The capture half of the downmixer: folds an interleaved frame to
/// stereo and sends the result to the capture-samples queue, never
/// blocking the caller.
pub fn push_downmixed(q: &mut SampleQueue, frame: &Vec<i16>, channels: usize)
    requires
        1 <= channels <= 0xffff,
        frame_well_formed(frame@, channels as nat),
    ensures
        queue_contents(*final(q)) == queue_contents(*old(q)).push(
            downmix_spec(frame@, channels as nat),
        ),
{
    let stereo = downmix(frame, channels);
    q.push(stereo);
}

} // verus!
