//! Playback audio buffer: the chunk accumulator of the read path.
//!
//! One buffer is created per playback session from the fully decoded
//! sample set and consumed sequentially: each call hands out the next
//! `chunk_size x channels` samples from a cursor, a trailing partial
//! chunk is returned in full rather than padded or discarded, and an
//! exhausted buffer yields nothing further.

use vstd::prelude::*;

verus! {

/// A sample frame with a channel count and a read cursor; the cursor only
/// moves forward.
pub struct AudioBuffer {
    data: Vec<i16>,
    channels: usize,
    position: usize,
}

impl AudioBuffer {
    /// The cursor never passes the end and there is at least one channel.
    pub closed spec fn wf(self) -> bool {
        &&& 1 <= self.channels
        &&& self.position <= self.data@.len()
    }

    /// The samples the buffer was created from.
    pub closed spec fn data_view(self) -> Seq<i16> {
        self.data@
    }

    /// The channel count of the interleaved data.
    pub closed spec fn channel_count(self) -> int {
        self.channels as int
    }

    /// How many samples have been read so far.
    pub closed spec fn pos(self) -> int {
        self.position as int
    }

    /// How many samples the next chunk of `chunk_size` samples per channel
    /// holds: a whole chunk, or whatever remains at the tail.
    pub open spec fn next_chunk_len(self, chunk_size: int) -> int {
        let want = chunk_size * self.channel_count();
        let remaining = self.data_view().len() - self.pos();
        if remaining < want {
            remaining
        } else {
            want
        }
    }

    /// Wraps a decoded sample set for sequential chunked reading.
    pub fn new(data: Vec<i16>, channels: usize) -> (b: AudioBuffer)
        requires
            1 <= channels,
        ensures
            b.wf(),
            b.data_view() == data@,
            b.channel_count() == channels as int,
            b.pos() == 0,
    {
        AudioBuffer { data, channels, position: 0 }
    }

    /// Hands out the next chunk: the `chunk_size x channels` samples at
    /// the cursor, or the shorter tail once fewer remain, advancing the
    /// cursor by exactly what was returned; nothing once exhausted.
    pub fn get_next_chunk(&mut self, chunk_size: usize) -> (r: Option<Vec<i16>>)
        requires
            old(self).wf(),
            chunk_size * old(self).channel_count() <= usize::MAX,
        ensures
            final(self).wf(),
            final(self).data_view() == old(self).data_view(),
            final(self).channel_count() == old(self).channel_count(),
            old(self).pos() == old(self).data_view().len() ==> {
                &&& r is None
                &&& final(self).pos() == old(self).pos()
            },
            old(self).pos() < old(self).data_view().len() ==> {
                &&& r is Some
                &&& r->Some_0@ == old(self).data_view().subrange(
                    old(self).pos(),
                    old(self).pos() + old(self).next_chunk_len(chunk_size as int),
                )
                &&& final(self).pos() == old(self).pos() + old(self).next_chunk_len(
                    chunk_size as int,
                )
            },
    {
        if self.position >= self.data.len() {
            return None;
        }
        let want = chunk_size * self.channels;
        let remaining = self.data.len() - self.position;
        let step = if remaining < want {
            remaining
        } else {
            want
        };
        let mut chunk: Vec<i16> = Vec::new();
        let mut j: usize = 0;
        while j < step
            invariant
                j <= step,
                self.position + step <= self.data@.len() <= usize::MAX,
                chunk@ == self.data@.subrange(self.position as int, self.position + j),
                *self == *old(self),
            decreases step - j,
        {
            chunk.push(self.data[self.position + j]);
            assert(chunk@ =~= self.data@.subrange(self.position as int, self.position + j + 1));
            j = j + 1;
        }
        self.position = self.position + step;
        Some(chunk)
    }
}

} // verus!
