//! Codec bridge: the verified half of the conversation with the external
//! speech/audio engine.
//!
//! The engine itself is an opaque collaborator: it turns one fixed-size
//! sample frame into a compressed packet and back, reporting an integer
//! status. It runs outside this library, so the bridge is split around it:
//! a request side that validates arguments and sizes the buffer the engine
//! fills, and a response side that interprets the engine's status, keeps
//! the distinguishing error kind, and trims the filled buffer to the
//! reported length. Every decision either side makes is verified here; the
//! engine's own work is taken from its reply, whatever it was.

use vstd::prelude::*;
use crate::error::code_of_errno;
use crate::error::OpusErrorCode;

verus! {

/// The most bytes one encoded packet can occupy; the encoder's scratch
/// buffer is always this large.
pub const MAX_PACKET_BYTES: usize = 1275;

/// One raw reply of the engine: the status it returned, and the output
/// buffer it was given to fill.
pub struct EngineReply<T> {
    /// Negative: one of the seven error codes. Non-negative: how much of
    /// `buf` the engine filled.
    pub status: i32,
    /// The output buffer as the engine left it.
    pub buf: Vec<T>,
}

/// A reply is well formed when its status is one the engine can report: a
/// documented error code, or a fill count no larger than the buffer.
pub open spec fn reply_well_formed<T>(reply: EngineReply<T>) -> bool {
    &&& reply.status >= -7
    &&& reply.status >= 0 ==> reply.status as int <= reply.buf@.len()
}

/// One compressed chunk: the packet bytes together with the frame size
/// (samples per channel) used at encode time, which a decoder must be
/// handed back exactly for correct reconstruction.
pub struct EncodedChunk {
    /// The compressed packet.
    pub data: Vec<u8>,
    /// Samples per channel the packet represents.
    pub frame_size: usize,
}

/// The mathematical value of a chunk: its bytes and its frame size.
pub open spec fn chunk_view(c: EncodedChunk) -> (Seq<u8>, int) {
    (c.data@, c.frame_size as int)
}

/// The sampling rates the engine accepts.
pub open spec fn valid_opus_rate(rate: int) -> bool {
    rate == 8000 || rate == 12000 || rate == 16000 || rate == 24000 || rate == 48000
}

/// Whether a (rate, channels) pair is a configuration the engine can be
/// constructed with: one of its five rates, and one or two channels.
pub open spec fn valid_codec_config(rate: int, channels: int) -> bool {
    valid_opus_rate(rate) && (channels == 1 || channels == 2)
}

/// The coding mode the encoder is constructed for.
#[derive(Clone, Copy, Debug, PartialEq, Eq, Structural)]
pub enum OpusApplication {
    /// Best for most VoIP applications where intelligibility matters most.
    Voip,
    /// Best for broadcast and high-fidelity use where the decoded audio
    /// should be as close as possible to the input.
    Audio,
    /// Only when the lowest achievable latency matters most.
    RestrictedLowDelay,
}

impl OpusApplication {
    /// The engine's numeric identifier for this coding mode.
    pub fn to_i32(self) -> (r: i32)
        ensures
            r == application_code(self),
    {
        match self {
            OpusApplication::Voip => 2048,
            OpusApplication::Audio => 2049,
            OpusApplication::RestrictedLowDelay => 2051,
        }
    }
}

/// The engine's numeric identifier for each coding mode.
pub open spec fn application_code(app: OpusApplication) -> int {
    match app {
        OpusApplication::Voip => 2048,
        OpusApplication::Audio => 2049,
        OpusApplication::RestrictedLowDelay => 2051,
    }
}

/// The encoder half of the bridge: remembers the configuration the engine
/// was constructed with and interprets its encode replies.
pub struct OpusEncoder {
    sample_rate: u32,
    channels: usize,
    application: OpusApplication,
}

impl OpusEncoder {
    /// The configuration this encoder was constructed with is valid.
    pub closed spec fn wf(self) -> bool {
        valid_codec_config(self.sample_rate as int, self.channels as int)
    }

    /// The sampling rate the encoder was constructed with.
    pub closed spec fn rate(self) -> int {
        self.sample_rate as int
    }

    /// The channel count the encoder was constructed with.
    pub closed spec fn channel_count(self) -> int {
        self.channels as int
    }

    /// Constructs the bridge for one encoder of the engine. The engine
    /// accepts exactly its five sampling rates and one or two channels,
    /// and reports any other configuration as a bad argument.
    pub fn new(sample_rate: i32, channels: i32, application: OpusApplication) -> (r: Result<
        OpusEncoder,
        OpusErrorCode,
    >)
        ensures
            valid_codec_config(sample_rate as int, channels as int) ==> {
                &&& r is Ok
                &&& r->Ok_0.wf()
                &&& r->Ok_0.rate() == sample_rate as int
                &&& r->Ok_0.channel_count() == channels as int
            },
            !valid_codec_config(sample_rate as int, channels as int) ==> r == Err::<
                OpusEncoder,
                OpusErrorCode,
            >(OpusErrorCode::BadArg),
    {
        let rate_ok = sample_rate == 8000 || sample_rate == 12000 || sample_rate == 16000
            || sample_rate == 24000 || sample_rate == 48000;
        if rate_ok && (channels == 1 || channels == 2) {
            Ok(OpusEncoder {
                sample_rate: sample_rate as u32,
                channels: channels as usize,
                application,
            })
        } else {
            Err(OpusErrorCode::BadArg)
        }
    }

    /// How many samples an interleaved frame of `frame_size` samples per
    /// channel holds for this encoder, when that fits the machine.
    pub fn frame_len(&self, frame_size: usize) -> (r: Option<usize>)
        requires
            self.wf(),
        ensures
            frame_size * self.channel_count() <= usize::MAX ==> r == Some(
                (frame_size * self.channel_count()) as usize,
            ),
            frame_size * self.channel_count() > usize::MAX ==> r is None,
    {
        frame_size.checked_mul(self.channels)
    }

    /// The sampling rate this encoder was constructed with, as the
    /// engine reports it back for a validly constructed encoder.
    pub fn sample_rate(&mut self) -> (r: Result<i32, OpusErrorCode>)
        requires
            old(self).wf(),
        ensures
            *final(self) == *old(self),
            r == Ok::<i32, OpusErrorCode>(old(self).rate() as i32),
    {
        Ok(self.sample_rate as i32)
    }

    /// Interprets the engine's reply to one encode request: a negative
    /// status keeps its error kind; a non-negative status yields the chunk
    /// holding exactly the bytes the engine produced, stamped with the
    /// frame size it was encoded at.
    pub fn encode(&mut self, frame_size: usize, reply: EngineReply<u8>) -> (r: Result<
        EncodedChunk,
        OpusErrorCode,
    >)
        requires
            reply_well_formed(reply),
        ensures
            *final(self) == *old(self),
            reply.status < 0 ==> r == Err::<EncodedChunk, OpusErrorCode>(
                code_of_errno(reply.status as int)->Some_0,
            ),
            reply.status >= 0 ==> {
                &&& r is Ok
                &&& chunk_view(r->Ok_0) == (
                    reply.buf@.take(reply.status as int),
                    frame_size as int,
                )
            },
    {
        if reply.status < 0 {
            Err(OpusErrorCode::from_errno(reply.status))
        } else {
            let mut data = reply.buf;
            data.truncate(reply.status as usize);
            assert(data@ =~= reply.buf@.take(reply.status as int));
            Ok(EncodedChunk { data, frame_size })
        }
    }
}

/// The decoder half of the bridge: remembers the configuration the engine
/// was constructed with, validates decode requests, and interprets the
/// engine's replies.
pub struct OpusDecoder {
    sample_rate: u32,
    channels: usize,
}

impl OpusDecoder {
    /// The configuration this decoder was constructed with is valid.
    pub closed spec fn wf(self) -> bool {
        valid_codec_config(self.sample_rate as int, self.channels as int)
    }

    /// The sampling rate the decoder was constructed with.
    pub closed spec fn rate(self) -> int {
        self.sample_rate as int
    }

    /// The channel count the decoder was constructed with.
    pub closed spec fn channel_count(self) -> int {
        self.channels as int
    }

    /// Constructs the bridge for one decoder of the engine, under the same
    /// configuration rules as the encoder.
    pub fn new(sample_rate: i32, channels: i32) -> (r: Result<OpusDecoder, OpusErrorCode>)
        ensures
            valid_codec_config(sample_rate as int, channels as int) ==> {
                &&& r is Ok
                &&& r->Ok_0.wf()
                &&& r->Ok_0.rate() == sample_rate as int
                &&& r->Ok_0.channel_count() == channels as int
            },
            !valid_codec_config(sample_rate as int, channels as int) ==> r == Err::<
                OpusDecoder,
                OpusErrorCode,
            >(OpusErrorCode::BadArg),
    {
        let rate_ok = sample_rate == 8000 || sample_rate == 12000 || sample_rate == 16000
            || sample_rate == 24000 || sample_rate == 48000;
        if rate_ok && (channels == 1 || channels == 2) {
            Ok(OpusDecoder { sample_rate: sample_rate as u32, channels: channels as usize })
        } else {
            Err(OpusErrorCode::BadArg)
        }
    }

    /// Validates one decode request and sizes the sample buffer the engine
    /// must be handed: `frame_size` samples for each channel. Requesting a
    /// decode with no packet is only meaningful as packet-loss
    /// concealment, so a missing packet demands the concealment flag.
    pub fn decode_request(
        &self,
        packet: Option<&EncodedChunk>,
        frame_size: usize,
        decode_fec: bool,
    ) -> (r: Option<usize>)
        requires
            self.wf(),
            packet is Some || decode_fec,
        ensures
            frame_size * self.channel_count() <= usize::MAX ==> r == Some(
                (frame_size * self.channel_count()) as usize,
            ),
            frame_size * self.channel_count() > usize::MAX ==> r is None,
    {
        let _ = packet;
        frame_size.checked_mul(self.channels)
    }

    /// The sampling rate this decoder was constructed with, as the
    /// engine reports it back for a validly constructed decoder.
    pub fn sample_rate(&mut self) -> (r: Result<i32, OpusErrorCode>)
        requires
            old(self).wf(),
        ensures
            *final(self) == *old(self),
            r == Ok::<i32, OpusErrorCode>(old(self).rate() as i32),
    {
        Ok(self.sample_rate as i32)
    }

    /// Interprets the engine's reply to one decode request: a negative
    /// status keeps its error kind; a non-negative status is the sample
    /// count the engine decoded, and the result is the buffer trimmed to
    /// exactly that count.
    pub fn decode(&mut self, frame_size: usize, reply: EngineReply<i16>) -> (r: Result<
        Vec<i16>,
        OpusErrorCode,
    >)
        requires
            reply_well_formed(reply),
        ensures
            *final(self) == *old(self),
            reply.status < 0 ==> r == Err::<Vec<i16>, OpusErrorCode>(
                code_of_errno(reply.status as int)->Some_0,
            ),
            reply.status >= 0 ==> {
                &&& r is Ok
                &&& r->Ok_0@ == reply.buf@.take(reply.status as int)
            },
    {
        let _ = frame_size;
        if reply.status < 0 {
            Err(OpusErrorCode::from_errno(reply.status))
        } else {
            let mut pcm = reply.buf;
            pcm.truncate(reply.status as usize);
            assert(pcm@ =~= reply.buf@.take(reply.status as int));
            Ok(pcm)
        }
    }
}

/// The version string of the codec engine build.
///
/// Relies on unsafe_libopus::opus_get_version_string, which returns a
/// fixed string naming the port and the reference version it tracks.
#[verifier::external_body]
pub fn libopus_version() -> &'static str {
    unsafe_libopus::opus_get_version_string()
}

} // verus!
