//! Pipeline coordinator: the state machine that drives a capture session.
//!
//! While capturing, every arriving sample batch is appended to a growable
//! buffer; as long as the buffer holds at least one full chunk of
//! `chunk_size x channels` samples, exactly that many samples are removed
//! from the front, in strict arrival order, and handed out as a frame to
//! encode — one batch may satisfy several chunks at once. On the stop
//! signal the residual samples are flushed as one final partial frame,
//! then the stored chunks are replayed in their recorded order.
//!
//! Encoding and decoding themselves happen at the codec bridge around the
//! external engine; the coordinator only decides which samples form which
//! frame and in what order chunks flow.

use vstd::prelude::*;
use vstd::seq_lib::lemma_flatten_concat;
use crate::codec::chunk_view;
use crate::codec::EncodedChunk;
use crate::queue::queue_contents;
use crate::queue::SampleQueue;

verus! {

/// Milliseconds of audio one chunk covers.
pub const CHUNK_DURATION_MS: u64 = 40;

/// The chunk size (samples per channel) for a sampling rate: the samples
/// that elapse in the fixed chunk duration.
pub open spec fn chunk_size_spec(sample_rate: int) -> int {
    sample_rate * CHUNK_DURATION_MS / 1000
}

/// Computes the chunk size (samples per channel) for a sampling rate.
pub fn chunk_size_for(sample_rate: u32) -> (n: u32)
    ensures
        n == chunk_size_spec(sample_rate as int),
{
    ((sample_rate as u64) * CHUNK_DURATION_MS / 1000) as u32
}

/// The whole chunks of `n` samples at the front of `buf`, in order.
pub open spec fn full_chunks(buf: Seq<i16>, n: nat) -> Seq<Seq<i16>>
    decreases buf.len(),
{
    if n == 0 || buf.len() < n {
        Seq::empty()
    } else {
        seq![buf.take(n as int)] + full_chunks(buf.skip(n as int), n)
    }
}

/// What remains of `buf` after removing its whole chunks of `n` samples.
pub open spec fn chunk_rest(buf: Seq<i16>, n: nat) -> Seq<i16>
    decreases buf.len(),
{
    if n == 0 || buf.len() < n {
        buf
    } else {
        chunk_rest(buf.skip(n as int), n)
    }
}

/// Splitting a buffer into chunks conserves it: the chunks concatenated,
/// followed by the remainder, are exactly the original samples.
pub proof fn lemma_chunks_complete(buf: Seq<i16>, n: nat)
    ensures
        full_chunks(buf, n).flatten() + chunk_rest(buf, n) == buf,
    decreases buf.len(),
{
    if n == 0 || buf.len() < n {
        assert(full_chunks(buf, n).flatten() + chunk_rest(buf, n) =~= buf);
    } else {
        let head = buf.take(n as int);
        let tail = buf.skip(n as int);
        let fc = full_chunks(tail, n);
        lemma_chunks_complete(tail, n);
        lemma_flatten_concat(seq![head], fc);
        seq![head].lemma_flatten_one_element();
        assert(full_chunks(buf, n).flatten() == head + fc.flatten());
        assert((head + fc.flatten()) + chunk_rest(tail, n) =~= head + (fc.flatten() + chunk_rest(
            tail,
            n,
        )));
        assert(head + tail =~= buf);
    }
}

/// The residual buffer after feeding `batches` one after another into an
/// accumulator that started holding `carry`, draining every whole chunk
/// of `n` samples as soon as it is available.
pub open spec fn feed_rest(carry: Seq<i16>, batches: Seq<Seq<i16>>, n: nat) -> Seq<i16>
    decreases batches.len(),
{
    if batches.len() == 0 {
        carry
    } else {
        chunk_rest(feed_rest(carry, batches.drop_last(), n) + batches.last(), n)
    }
}

/// Every frame such an accumulator hands out over the whole feeding, in
/// order.
pub open spec fn feed_chunks(carry: Seq<i16>, batches: Seq<Seq<i16>>, n: nat) -> Seq<Seq<i16>>
    decreases batches.len(),
{
    if batches.len() == 0 {
        Seq::empty()
    } else {
        feed_chunks(carry, batches.drop_last(), n) + full_chunks(
            feed_rest(carry, batches.drop_last(), n) + batches.last(),
            n,
        )
    }
}

/// Chunking completeness: however a sample stream is cut into batches,
/// the frames handed out, concatenated, followed by the final residue,
/// are exactly the initial carry followed by every batch in arrival
/// order — no sample is lost, duplicated or reordered.
pub proof fn lemma_chunking_complete(carry: Seq<i16>, batches: Seq<Seq<i16>>, n: nat)
    ensures
        feed_chunks(carry, batches, n).flatten() + feed_rest(carry, batches, n) == carry
            + batches.flatten(),
    decreases batches.len(),
{
    if batches.len() == 0 {
        assert(feed_chunks(carry, batches, n).flatten() + feed_rest(carry, batches, n) =~= carry
            + batches.flatten());
    } else {
        let pre = batches.drop_last();
        let last = batches.last();
        let fr_pre = feed_rest(carry, pre, n);
        let fed = fr_pre + last;
        let fc_pre = feed_chunks(carry, pre, n);
        lemma_chunking_complete(carry, pre, n);
        lemma_chunks_complete(fed, n);
        lemma_flatten_concat(fc_pre, full_chunks(fed, n));
        assert(feed_chunks(carry, batches, n).flatten() == fc_pre.flatten() + full_chunks(
            fed,
            n,
        ).flatten());
        assert((fc_pre.flatten() + full_chunks(fed, n).flatten()) + chunk_rest(fed, n)
            =~= fc_pre.flatten() + (full_chunks(fed, n).flatten() + chunk_rest(fed, n)));
        assert(fc_pre.flatten() + fed =~= (fc_pre.flatten() + fr_pre) + last);
        assert((carry + pre.flatten()) + last =~= carry + (pre.flatten() + last));
        assert(pre + seq![last] =~= batches);
        lemma_flatten_concat(pre, seq![last]);
        seq![last].lemma_flatten_one_element();
        assert(pre.flatten() + last == batches.flatten());
        assert(feed_chunks(carry, batches, n).flatten() + feed_rest(carry, batches, n) == carry
            + batches.flatten());
    }
}

/// The phase a capture session is in.
#[derive(Clone, Copy, Debug, PartialEq, Eq, Structural)]
pub enum CoordState {
    /// Accumulating arriving batches and draining full chunks.
    Capturing,
    /// The stop signal fired; the final partial chunk is being flushed.
    Draining,
    /// Stored chunks are being replayed in recorded order.
    PlayingBack,
    /// Every chunk has been replayed.
    Done,
}

/// The pipeline coordinator: owns the accumulation buffer and the ordered
/// list of encoded chunks of one capture session.
pub struct Coordinator {
    state: CoordState,
    channels: usize,
    chunk_samples: usize,
    chunk_len: usize,
    pending: Vec<i16>,
    chunks: Vec<EncodedChunk>,
}

impl Coordinator {
    /// The coordinator's configuration is consistent: at least one
    /// channel, a chunk of at least one sample, and the chunk length in
    /// samples is the chunk size times the channel count.
    pub closed spec fn wf(self) -> bool {
        &&& 1 <= self.channels <= 2
        &&& self.chunk_samples >= 1
        &&& self.chunk_len == self.chunk_samples * self.channels
        &&& 1 <= self.chunk_len <= usize::MAX
    }

    /// The phase the session is in.
    pub closed spec fn phase(self) -> CoordState {
        self.state
    }

    /// The channel count of the accumulated stream.
    pub closed spec fn channel_count(self) -> int {
        self.channels as int
    }

    /// The chunk size: samples per channel in one full chunk.
    pub closed spec fn chunk_size(self) -> int {
        self.chunk_samples as int
    }

    /// Samples in one full chunk across all channels.
    pub closed spec fn chunk_len_spec(self) -> int {
        self.chunk_len as int
    }

    /// The samples accumulated and not yet handed out in a frame.
    pub closed spec fn pending_view(self) -> Seq<i16> {
        self.pending@
    }

    /// The stored encoded chunks, in recorded order.
    pub closed spec fn chunks_view(self) -> Seq<(Seq<u8>, int)> {
        self.chunks@.map_values(|c: EncodedChunk| chunk_view(c))
    }

    /// Starts a capture session: the chunk size is derived from the
    /// sampling rate and the fixed chunk duration, the buffer and the
    /// chunk list start empty.
    pub fn new(sample_rate: u32, channels: usize) -> (c: Coordinator)
        requires
            1 <= channels <= 2,
            chunk_size_spec(sample_rate as int) >= 1,
            chunk_size_spec(sample_rate as int) * channels <= usize::MAX,
        ensures
            c.wf(),
            c.phase() == CoordState::Capturing,
            c.channel_count() == channels as int,
            c.chunk_size() == chunk_size_spec(sample_rate as int),
            c.chunk_len_spec() == chunk_size_spec(sample_rate as int) * channels,
            c.pending_view() == Seq::<i16>::empty(),
            c.chunks_view() == Seq::<(Seq<u8>, int)>::empty(),
    {
        let chunk_samples_64: u64 = (sample_rate as u64) * CHUNK_DURATION_MS / 1000;
        proof {
            assert(chunk_samples_64 * 1 <= chunk_samples_64 * channels) by (nonlinear_arith)
                requires
                    1 <= channels,
                    chunk_samples_64 >= 0,
            ;
        }
        let chunk_samples: usize = chunk_samples_64 as usize;
        let chunk_len: usize = chunk_samples * channels;
        proof {
            assert(chunk_len >= 1) by (nonlinear_arith)
                requires
                    chunk_len == chunk_samples * channels,
                    chunk_samples >= 1,
                    channels >= 1,
            ;
        }
        let c = Coordinator {
            state: CoordState::Capturing,
            channels,
            chunk_samples,
            chunk_len,
            pending: Vec::new(),
            chunks: Vec::new(),
        };
        proof {
            assert(c.chunks@.map_values(|ch: EncodedChunk| chunk_view(ch)) =~= Seq::<
                (Seq<u8>, int),
            >::empty());
        }
        c
    }

    /// Accumulates one arriving batch and hands out every full chunk it
    /// completes, oldest samples first: the frames returned are exactly
    /// the whole chunks of the buffer followed by the batch, and the
    /// samples kept are exactly the remainder.
    pub fn on_batch(&mut self, batch: &Vec<i16>) -> (frames: Vec<Vec<i16>>)
        requires
            old(self).wf(),
            old(self).phase() == CoordState::Capturing,
            old(self).pending_view().len() + batch@.len() <= usize::MAX,
        ensures
            final(self).wf(),
            final(self).phase() == CoordState::Capturing,
            final(self).channel_count() == old(self).channel_count(),
            final(self).chunk_size() == old(self).chunk_size(),
            final(self).chunk_len_spec() == old(self).chunk_len_spec(),
            final(self).chunks_view() == old(self).chunks_view(),
            frames@.map_values(|f: Vec<i16>| f@) == full_chunks(
                old(self).pending_view() + batch@,
                old(self).chunk_len_spec() as nat,
            ),
            final(self).pending_view() == chunk_rest(
                old(self).pending_view() + batch@,
                old(self).chunk_len_spec() as nat,
            ),
            forall|i: int|
                0 <= i < frames@.len() ==> (#[trigger] frames@[i])@.len() == old(
                    self,
                ).chunk_len_spec(),
            final(self).pending_view().len() < old(self).chunk_len_spec(),
    {
        let ghost fed = old(self).pending_view() + batch@;
        let ghost n = self.chunk_len as nat;
        let mut i: usize = 0;
        while i < batch.len()
            invariant
                i <= batch@.len(),
                self.pending@.len() == old(self).pending_view().len() + i,
                self.pending@ == old(self).pending_view() + batch@.take(i as int),
                batch@.len() <= usize::MAX - old(self).pending_view().len(),
                *self == (Coordinator { pending: self.pending, ..*old(self) }),
            decreases batch@.len() - i,
        {
            self.pending.push(batch[i]);
            assert(self.pending@ =~= old(self).pending_view() + batch@.take(i + 1 as int));
            i = i + 1;
        }
        assert(self.pending@ =~= fed);
        let mut frames: Vec<Vec<i16>> = Vec::new();
        while self.pending.len() >= self.chunk_len
            invariant
                self.wf(),
                n == self.chunk_len as nat,
                full_chunks(fed, n) == frames@.map_values(|f: Vec<i16>| f@) + full_chunks(
                    self.pending@,
                    n,
                ),
                chunk_rest(fed, n) == chunk_rest(self.pending@, n),
                forall|j: int|
                    0 <= j < frames@.len() ==> (#[trigger] frames@[j])@.len() == self.chunk_len,
                *self == (Coordinator { pending: self.pending, ..*old(self) }),
            decreases self.pending@.len(),
        {
            let ghost before = self.pending@;
            let mut frame: Vec<i16> = Vec::new();
            let mut k: usize = 0;
            while k < self.chunk_len
                invariant
                    k <= self.chunk_len <= self.pending@.len(),
                    frame@ == self.pending@.take(k as int),
                    *self == (Coordinator { pending: self.pending, ..*old(self) }),
                    self.pending@ == before,
                decreases self.chunk_len - k,
            {
                frame.push(self.pending[k]);
                assert(frame@ =~= self.pending@.take(k + 1 as int));
                k = k + 1;
            }
            let tail = self.pending.split_off(self.chunk_len);
            self.pending = tail;
            let ghost prev = frames@.map_values(|f: Vec<i16>| f@);
            frames.push(frame);
            proof {
                assert(self.pending@ =~= before.skip(n as int));
                assert(full_chunks(before, n) == seq![before.take(n as int)] + full_chunks(
                    before.skip(n as int),
                    n,
                ));
                assert(frames@.map_values(|f: Vec<i16>| f@) =~= prev.push(before.take(n as int)));
                assert(prev.push(before.take(n as int)) + full_chunks(self.pending@, n) =~= prev + (
                seq![before.take(n as int)] + full_chunks(before.skip(n as int), n)));
            }
        }
        proof {
            assert(full_chunks(self.pending@, n) =~= Seq::<Seq<i16>>::empty());
            assert(frames@.map_values(|f: Vec<i16>| f@) =~= frames@.map_values(|f: Vec<i16>| f@)
                + full_chunks(self.pending@, n));
        }
        frames
    }

    /// Pumps every batch waiting in the capture-samples queue through the
    /// accumulator, in arrival order: the frames handed out and the
    /// samples kept are exactly what feeding those batches one by one
    /// yields, and the queue is left empty.
    pub fn pump_capture(&mut self, q: &mut SampleQueue) -> (frames: Vec<Vec<i16>>)
        requires
            old(self).wf(),
            old(self).phase() == CoordState::Capturing,
            old(self).pending_view().len() + flatten_len(queue_contents(*old(q)))
                <= usize::MAX,
        ensures
            final(self).wf(),
            final(self).phase() == CoordState::Capturing,
            final(self).channel_count() == old(self).channel_count(),
            final(self).chunk_size() == old(self).chunk_size(),
            final(self).chunk_len_spec() == old(self).chunk_len_spec(),
            final(self).chunks_view() == old(self).chunks_view(),
            queue_contents(*final(q)) == Seq::<Seq<i16>>::empty(),
            frames@.map_values(|f: Vec<i16>| f@) == feed_chunks(
                old(self).pending_view(),
                queue_contents(*old(q)),
                old(self).chunk_len_spec() as nat,
            ),
            final(self).pending_view() == feed_rest(
                old(self).pending_view(),
                queue_contents(*old(q)),
                old(self).chunk_len_spec() as nat,
            ),
            forall|i: int|
                0 <= i < frames@.len() ==> (#[trigger] frames@[i])@.len() == old(
                    self,
                ).chunk_len_spec(),
            queue_contents(*old(q)).len() > 0 ==> final(self).pending_view().len() < old(
                self,
            ).chunk_len_spec(),
    {
        let ghost carry = old(self).pending_view();
        let ghost all = queue_contents(*old(q));
        let ghost n = self.chunk_len as nat;
        let batches = q.drain();
        let mut frames: Vec<Vec<i16>> = Vec::new();
        let mut i: usize = 0;
        proof {
            lemma_flatten_len_take(all, 0);
        }
        while i < batches.len()
            invariant
                i <= batches@.len(),
                batches@.map_values(|b: Vec<i16>| b@) == all,
                self.wf(),
                n == self.chunk_len as nat,
                self.phase() == CoordState::Capturing,
                self.channel_count() == old(self).channel_count(),
                self.chunk_size() == old(self).chunk_size(),
                self.chunk_len_spec() == old(self).chunk_len_spec(),
                self.chunks_view() == old(self).chunks_view(),
                carry.len() + flatten_len(all) <= usize::MAX,
                frames@.map_values(|f: Vec<i16>| f@) == feed_chunks(carry, all.take(i as int), n),
                self.pending_view() == feed_rest(carry, all.take(i as int), n),
                forall|j: int|
                    0 <= j < frames@.len() ==> (#[trigger] frames@[j])@.len() == self.chunk_len,
                i == 0 ==> self.pending_view() == carry,
                i > 0 ==> self.pending_view().len() < self.chunk_len,
            decreases batches@.len() - i,
        {
            let ghost done = all.take(i as int);
            let ghost more = all.take(i + 1);
            proof {
                assert(more.drop_last() =~= done);
                assert(more.last() == all[i as int]);
                lemma_feed_rest_len(carry, done, n);
                lemma_flatten_len_take(all, i as int);
                lemma_flatten_len_take(all, i + 1);
            }
            let batch = &batches[i];
            let mut new_frames = self.on_batch(batch);
            let ghost prev = frames@.map_values(|f: Vec<i16>| f@);
            let ghost add = new_frames@.map_values(|f: Vec<i16>| f@);
            frames.append(&mut new_frames);
            proof {
                assert(frames@.map_values(|f: Vec<i16>| f@) =~= prev + add);
                assert(feed_chunks(carry, more, n) == feed_chunks(carry, done, n) + full_chunks(
                    feed_rest(carry, done, n) + all[i as int],
                    n,
                ));
                assert(feed_rest(carry, more, n) == chunk_rest(
                    feed_rest(carry, done, n) + all[i as int],
                    n,
                ));
            }
            i = i + 1;
        }
        proof {
            assert(all.take(batches@.len() as int) =~= all);
        }
        frames
    }

    /// Flushes the session on the stop signal: every accumulated residual
    /// sample is handed out as one final partial frame (or none when
    /// nothing remains), and the session moves to the draining phase.
    pub fn on_stop(&mut self) -> (residual: Option<Vec<i16>>)
        requires
            old(self).wf(),
            old(self).phase() == CoordState::Capturing,
        ensures
            final(self).wf(),
            final(self).phase() == CoordState::Draining,
            final(self).channel_count() == old(self).channel_count(),
            final(self).chunk_size() == old(self).chunk_size(),
            final(self).chunk_len_spec() == old(self).chunk_len_spec(),
            final(self).chunks_view() == old(self).chunks_view(),
            final(self).pending_view() == Seq::<i16>::empty(),
            old(self).pending_view().len() == 0 ==> residual is None,
            old(self).pending_view().len() > 0 ==> {
                &&& residual is Some
                &&& residual->Some_0@ == old(self).pending_view()
            },
    {
        self.state = CoordState::Draining;
        if self.pending.len() == 0 {
            None
        } else {
            let flushed = self.pending.split_off(0);
            assert(flushed@ =~= old(self).pending_view());
            assert(self.pending@ =~= Seq::<i16>::empty());
            Some(flushed)
        }
    }

    /// Appends one encoded chunk to the session's ordered, append-only
    /// chunk list.
    pub fn store_chunk(&mut self, chunk: EncodedChunk)
        requires
            old(self).wf(),
            old(self).phase() == CoordState::Capturing || old(self).phase()
                == CoordState::Draining,
        ensures
            final(self).wf(),
            final(self).phase() == old(self).phase(),
            final(self).channel_count() == old(self).channel_count(),
            final(self).chunk_size() == old(self).chunk_size(),
            final(self).chunk_len_spec() == old(self).chunk_len_spec(),
            final(self).pending_view() == old(self).pending_view(),
            final(self).chunks_view() == old(self).chunks_view().push(chunk_view(chunk)),
    {
        let ghost c = chunk_view(chunk);
        self.chunks.push(chunk);
        proof {
            assert(self.chunks@.map_values(|ch: EncodedChunk| chunk_view(ch)) =~= old(
                self,
            ).chunks_view().push(c));
        }
    }

    /// Begins playback once the final chunk is flushed: the stored chunks
    /// will now be handed back in recorded order.
    pub fn begin_playback(&mut self)
        requires
            old(self).wf(),
            old(self).phase() == CoordState::Draining,
        ensures
            final(self).wf(),
            final(self).phase() == CoordState::PlayingBack,
            final(self).channel_count() == old(self).channel_count(),
            final(self).chunk_size() == old(self).chunk_size(),
            final(self).chunk_len_spec() == old(self).chunk_len_spec(),
            final(self).chunks_view() == old(self).chunks_view(),
    {
        self.state = CoordState::PlayingBack;
    }

    /// Hands back the next stored chunk in recorded order; once every
    /// chunk has been replayed, reports the session done.
    pub fn next_chunk(&mut self) -> (c: Option<EncodedChunk>)
        requires
            old(self).wf(),
            old(self).phase() == CoordState::PlayingBack,
        ensures
            final(self).wf(),
            final(self).channel_count() == old(self).channel_count(),
            final(self).chunk_size() == old(self).chunk_size(),
            final(self).chunk_len_spec() == old(self).chunk_len_spec(),
            old(self).chunks_view().len() > 0 ==> {
                &&& c is Some
                &&& chunk_view(c->Some_0) == old(self).chunks_view()[0]
                &&& final(self).chunks_view() == old(self).chunks_view().drop_first()
                &&& final(self).phase() == CoordState::PlayingBack
            },
            old(self).chunks_view().len() == 0 ==> {
                &&& c is None
                &&& final(self).chunks_view() == old(self).chunks_view()
                &&& final(self).phase() == CoordState::Done
            },
    {
        if self.chunks.len() == 0 {
            self.state = CoordState::Done;
            None
        } else {
            let chunk = self.chunks.remove(0);
            proof {
                assert(self.chunks@.map_values(|ch: EncodedChunk| chunk_view(ch)) =~= old(
                    self,
                ).chunks_view().drop_first());
            }
            Some(chunk)
        }
    }
}

/// Total number of samples across a sequence of batches.
pub open spec fn flatten_len(batches: Seq<Seq<i16>>) -> int {
    batches.flatten().len() as int
}

/// A prefix of the batches holds no more samples than all of them.
proof fn lemma_flatten_len_take(batches: Seq<Seq<i16>>, i: int)
    requires
        0 <= i <= batches.len(),
    ensures
        flatten_len(batches.take(i)) <= flatten_len(batches),
        i < batches.len() ==> flatten_len(batches.take(i)) + batches[i].len() <= flatten_len(
            batches,
        ),
    decreases batches.len() - i,
{
    if i < batches.len() {
        lemma_flatten_len_take(batches, i + 1);
        lemma_flatten_concat(batches.take(i), seq![batches[i]]);
        seq![batches[i]].lemma_flatten_one_element();
        assert(batches.take(i) + seq![batches[i]] =~= batches.take(i + 1));
    } else {
        assert(batches.take(i) =~= batches);
    }
}

/// The residue of a feeding never exceeds the samples fed.
proof fn lemma_feed_rest_len(carry: Seq<i16>, batches: Seq<Seq<i16>>, n: nat)
    ensures
        feed_rest(carry, batches, n).len() <= carry.len() + flatten_len(batches),
{
    lemma_chunking_complete(carry, batches, n);
    assert((feed_chunks(carry, batches, n).flatten() + feed_rest(carry, batches, n)).len() == (
    carry + batches.flatten()).len());
}

} // verus!
