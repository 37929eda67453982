//! Verified core of a real-time audio capture, encode, decode and playback
//! pipeline: fixed-size chunk accumulation, multichannel-to-stereo downmix,
//! the codec bridge around an external speech/audio engine, and the
//! producer/consumer queues that connect a capture callback, a processing
//! loop and a playback callback.

pub mod buffer;
pub mod codec;
pub mod coordinator;
pub mod downmix;
pub mod error;
pub mod queue;
pub mod resample;
pub mod samples;

pub use buffer::AudioBuffer;
pub use codec::libopus_version;
pub use codec::EncodedChunk;
pub use codec::OpusApplication;
pub use codec::OpusDecoder;
pub use codec::OpusEncoder;
pub use coordinator::CoordState;
pub use coordinator::Coordinator;
pub use error::OpusErrorCode;
