use meowlouder::codec::EngineReply;
use meowlouder::codec::MAX_PACKET_BYTES;
use meowlouder::coordinator::Coordinator;
use meowlouder::downmix::downmix;
use meowlouder::resample::deinterleave;
use meowlouder::resample::interleave;
use meowlouder::samples::convert_u16_frame;
use meowlouder::samples::u16_to_i16;
use meowlouder::libopus_version;
use meowlouder::EncodedChunk;
use meowlouder::OpusApplication;
use meowlouder::OpusDecoder;
use meowlouder::OpusEncoder;
use meowlouder::error::map_status;
use meowlouder::OpusErrorCode;

#[test]
fn six_channel_frame_downmixes_to_stereo_pair() {
    // Even channel indices sum into left, odd into right, each divided
    // by half the channel count: [1,2,3,4,5,6] -> [(1+3+5)/3, (2+4+6)/3].
    assert_eq!(downmix(&vec![1, 2, 3, 4, 5, 6], 6), vec![3, 4]);
}

#[test]
fn downmix_division_truncates_toward_zero() {
    // Sums of -2 and -1 divided by 3 truncate to 0, not toward minus
    // infinity.
    assert_eq!(downmix(&vec![-1, -1, -1, 0, 0, 0], 6), vec![0, 0]);
}

#[test]
fn downmix_handles_multiple_time_steps() {
    let frame = vec![1, 2, 3, 4, 5, 6, 10, 20, 30, 40, 50, 60];
    assert_eq!(downmix(&frame, 6), vec![3, 4, 30, 40]);
}

#[test]
fn stereo_and_mono_pass_through_unchanged() {
    let stereo = vec![5, -7, 32767, -32768];
    assert_eq!(downmix(&stereo, 2), stereo);
    let mono = vec![0, 1, -1, 100];
    assert_eq!(downmix(&mono, 1), mono);
}

#[test]
fn downmix_split_at_group_boundary_matches_whole() {
    // Feeding the same logical frame in two calls gives the same result
    // as one call, provided the split lies on a channel-group boundary.
    let a = vec![1, 2, 3, 4, 5, 6];
    let b = vec![7, 8, 9, 10, 11, 12];
    let mut whole = a.clone();
    whole.extend_from_slice(&b);
    let mut pieced = downmix(&a, 6);
    pieced.extend_from_slice(&downmix(&b, 6));
    assert_eq!(downmix(&whole, 6), pieced);
}

#[test]
fn encoder_rejects_invalid_configurations() {
    assert_eq!(
        OpusEncoder::new(44100, 2, OpusApplication::Audio).err(),
        Some(OpusErrorCode::BadArg)
    );
    assert_eq!(
        OpusEncoder::new(48000, 3, OpusApplication::Audio).err(),
        Some(OpusErrorCode::BadArg)
    );
    assert!(OpusEncoder::new(48000, 2, OpusApplication::Audio).is_ok());
    assert!(OpusEncoder::new(8000, 1, OpusApplication::Voip).is_ok());
}

#[test]
fn decoder_rejects_invalid_configurations() {
    assert_eq!(OpusDecoder::new(11025, 1).err(), Some(OpusErrorCode::BadArg));
    assert_eq!(OpusDecoder::new(48000, 0).err(), Some(OpusErrorCode::BadArg));
    assert!(OpusDecoder::new(48000, 2).is_ok());
}

#[test]
fn encode_keeps_error_kind() {
    let mut enc = OpusEncoder::new(48000, 2, OpusApplication::Audio).unwrap();
    let reply = EngineReply { status: -3, buf: vec![0u8; MAX_PACKET_BYTES] };
    assert_eq!(enc.encode(960, reply).err(), Some(OpusErrorCode::InternalError));
    let reply = EngineReply { status: -1, buf: vec![0u8; MAX_PACKET_BYTES] };
    assert_eq!(enc.encode(960, reply).err(), Some(OpusErrorCode::BadArg));
}

#[test]
fn encode_trims_packet_to_reported_length() {
    let mut enc = OpusEncoder::new(48000, 2, OpusApplication::Audio).unwrap();
    let mut buf = vec![0u8; MAX_PACKET_BYTES];
    buf[0] = 0xab;
    buf[1] = 0xcd;
    buf[2] = 0xef;
    let chunk = enc.encode(960, EngineReply { status: 3, buf }).unwrap();
    assert_eq!(chunk.data, vec![0xab, 0xcd, 0xef]);
    assert_eq!(chunk.frame_size, 960);
}

#[test]
fn encoder_frame_len_is_samples_times_channels() {
    let enc = OpusEncoder::new(48000, 2, OpusApplication::Audio).unwrap();
    assert_eq!(enc.frame_len(960), Some(1920));
    let mono = OpusEncoder::new(48000, 1, OpusApplication::Audio).unwrap();
    assert_eq!(mono.frame_len(960), Some(960));
}

#[test]
fn decode_request_sizes_pcm_buffer() {
    let dec = OpusDecoder::new(48000, 2).unwrap();
    let chunk = EncodedChunk { data: vec![1, 2, 3], frame_size: 960 };
    assert_eq!(dec.decode_request(Some(&chunk), 960, false), Some(1920));
    assert_eq!(dec.decode_request(None, 960, true), Some(1920));
}

#[test]
fn decode_keeps_error_kind_and_trims_samples() {
    let mut dec = OpusDecoder::new(48000, 2).unwrap();
    let reply = EngineReply { status: -4, buf: vec![0i16; 1920] };
    assert_eq!(dec.decode(960, reply).err(), Some(OpusErrorCode::InvalidPacket));
    let mut buf = vec![0i16; 1920];
    buf[0] = 7;
    buf[1] = -7;
    let pcm = dec.decode(960, EngineReply { status: 960, buf }).unwrap();
    assert_eq!(pcm.len(), 960);
    assert_eq!(pcm[0], 7);
    assert_eq!(pcm[1], -7);
}

#[test]
fn error_codes_map_from_engine_status() {
    assert_eq!(OpusErrorCode::from_errno(-1), OpusErrorCode::BadArg);
    assert_eq!(OpusErrorCode::from_errno(-2), OpusErrorCode::BufferTooSmall);
    assert_eq!(OpusErrorCode::from_errno(-3), OpusErrorCode::InternalError);
    assert_eq!(OpusErrorCode::from_errno(-4), OpusErrorCode::InvalidPacket);
    assert_eq!(OpusErrorCode::from_errno(-5), OpusErrorCode::Unimplemented);
    assert_eq!(OpusErrorCode::from_errno(-6), OpusErrorCode::InvalidState);
    assert_eq!(OpusErrorCode::from_errno(-7), OpusErrorCode::AllocFail);
}

#[test]
fn status_interpretation_splits_on_sign() {
    assert_eq!(map_status(0), Ok(0));
    assert_eq!(map_status(960), Ok(960));
    assert_eq!(map_status(-1), Err(OpusErrorCode::BadArg));
    assert_eq!(map_status(-7), Err(OpusErrorCode::AllocFail));
}

#[test]
fn error_descriptions_match_engine_messages() {
    assert_eq!(OpusErrorCode::BadArg.description(), "invalid argument");
    assert_eq!(OpusErrorCode::BufferTooSmall.description(), "buffer too small");
    assert_eq!(OpusErrorCode::InternalError.description(), "internal error");
    assert_eq!(OpusErrorCode::InvalidPacket.description(), "corrupted stream");
    assert_eq!(OpusErrorCode::Unimplemented.description(), "request not implemented");
    assert_eq!(OpusErrorCode::InvalidState.description(), "invalid state");
    assert_eq!(OpusErrorCode::AllocFail.description(), "memory allocation failed");
}

#[test]
fn application_codes_match_engine_constants() {
    assert_eq!(OpusApplication::Voip.to_i32(), 2048);
    assert_eq!(OpusApplication::Audio.to_i32(), 2049);
    assert_eq!(OpusApplication::RestrictedLowDelay.to_i32(), 2051);
}

#[test]
fn unsigned_samples_center_on_zero() {
    assert_eq!(u16_to_i16(0), -32768);
    assert_eq!(u16_to_i16(32768), 0);
    assert_eq!(u16_to_i16(65535), 32767);
    assert_eq!(convert_u16_frame(&vec![0, 32768, 65535]), vec![-32768, 0, 32767]);
}

#[test]
fn planar_split_and_weave_round_trip() {
    let frame = vec![1, 2, 3, 4, 5, 6];
    let planes = deinterleave(&frame, 2);
    assert_eq!(planes.len(), 2);
    assert_eq!(planes[0], vec![1, 3, 5]);
    assert_eq!(planes[1], vec![2, 4, 6]);
    assert_eq!(interleave(&planes), frame);
}

#[test]
fn engine_version_names_the_reference_release() {
    assert!(libopus_version().contains("1.3"));
}

#[test]
fn stored_chunks_replay_in_recorded_order() {
    let mut coord = Coordinator::new(8000, 1);
    coord.store_chunk(EncodedChunk { data: vec![1], frame_size: 320 });
    coord.store_chunk(EncodedChunk { data: vec![2], frame_size: 320 });
    assert!(coord.on_stop().is_none());
    coord.store_chunk(EncodedChunk { data: vec![3], frame_size: 11 });
    coord.begin_playback();
    assert_eq!(coord.next_chunk().unwrap().data, vec![1]);
    assert_eq!(coord.next_chunk().unwrap().data, vec![2]);
    let last = coord.next_chunk().unwrap();
    assert_eq!(last.data, vec![3]);
    assert_eq!(last.frame_size, 11);
    assert!(coord.next_chunk().is_none());
}
