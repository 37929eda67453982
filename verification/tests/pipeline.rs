use meowlouder::buffer::AudioBuffer;
use meowlouder::coordinator::chunk_size_for;
use meowlouder::coordinator::Coordinator;
use meowlouder::queue::push_downmixed;
use meowlouder::queue::SampleQueue;

fn tone(len: usize) -> Vec<i16> {
    let mut v = Vec::with_capacity(len);
    let mut i: usize = 0;
    while i < len {
        v.push(((i % 200) as i16) - 100);
        i += 1;
    }
    v
}

#[test]
fn chunk_size_matches_rate() {
    assert_eq!(chunk_size_for(48000), 1920);
    assert_eq!(chunk_size_for(44100), 1764);
    assert_eq!(chunk_size_for(8000), 320);
    assert_eq!(chunk_size_for(16000), 640);
}

#[test]
fn scenario_full_and_trailing_chunks() {
    // 48000 Hz, 2 channels, 40 ms chunks: chunk size 1920 samples per
    // channel; 100 ms of audio (4800 samples per channel, 9600 samples
    // interleaved) yields two full chunks of 3840 samples and a trailing
    // chunk of 1920 samples (960 per channel), in that order.
    let mut coord = Coordinator::new(48000, 2);
    let input = tone(9600);
    let frames = coord.on_batch(&input);
    assert_eq!(frames.len(), 2);
    assert_eq!(frames[0].len(), 3840);
    assert_eq!(frames[1].len(), 3840);
    assert_eq!(frames[0][..], input[0..3840]);
    assert_eq!(frames[1][..], input[3840..7680]);
    let residual = coord.on_stop();
    let tail = residual.expect("trailing partial chunk expected");
    assert_eq!(tail.len(), 1920);
    assert_eq!(tail[..], input[7680..9600]);
}

#[test]
fn chunking_preserves_all_samples_across_batches() {
    // Batches of arbitrary sizes: the concatenation of all emitted
    // frames plus the final residual equals the concatenated input.
    let mut coord = Coordinator::new(8000, 1);
    // chunk size 320 samples
    let batches = [tone(700), tone(100), tone(11), tone(1000)];
    let mut emitted: Vec<i16> = Vec::new();
    for batch in &batches {
        for frame in coord.on_batch(batch) {
            assert_eq!(frame.len(), 320);
            emitted.extend_from_slice(&frame);
        }
    }
    if let Some(rest) = coord.on_stop() {
        assert!(rest.len() < 320);
        emitted.extend_from_slice(&rest);
    }
    let mut fed: Vec<i16> = Vec::new();
    for batch in &batches {
        fed.extend_from_slice(batch);
    }
    assert_eq!(emitted, fed);
}

#[test]
fn stop_mid_batch_flushes_everything_received() {
    // The stop signal arrives after some batches: every sample received
    // before the stop is still encoded, nothing is synthesized after.
    let mut coord = Coordinator::new(8000, 1);
    let first = tone(500);
    let second = tone(77);
    let frames1 = coord.on_batch(&first);
    assert_eq!(frames1.len(), 1);
    let frames2 = coord.on_batch(&second);
    assert_eq!(frames2.len(), 0);
    let rest = coord.on_stop().expect("residual expected");
    // 500 + 77 = 577 = 320 + 257
    assert_eq!(frames1[0].len(), 320);
    assert_eq!(rest.len(), 257);
    let mut all: Vec<i16> = Vec::new();
    all.extend_from_slice(&frames1[0]);
    all.extend_from_slice(&rest);
    let mut fed = first.clone();
    fed.extend_from_slice(&second);
    assert_eq!(all, fed);
}

#[test]
fn empty_batch_produces_no_frames() {
    let mut coord = Coordinator::new(8000, 1);
    assert!(coord.on_batch(&Vec::new()).is_empty());
    assert!(coord.on_stop().is_none());
}

#[test]
fn empty_playback_buffer_yields_nothing() {
    let mut buf = AudioBuffer::new(Vec::new(), 2);
    assert_eq!(buf.get_next_chunk(4), None);
}

#[test]
fn stop_with_empty_buffer_has_no_residual() {
    let mut coord = Coordinator::new(8000, 1);
    let frames = coord.on_batch(&tone(320));
    assert_eq!(frames.len(), 1);
    assert!(coord.on_stop().is_none());
}

#[test]
fn queue_delivers_in_fifo_order() {
    // Chunks 1..K pushed over several calls drain as exactly [1..K].
    let mut q = SampleQueue::new();
    for k in 1..=5i16 {
        q.push(vec![k]);
    }
    let drained = q.drain();
    assert_eq!(drained.len(), 5);
    for k in 1..=5usize {
        assert_eq!(drained[k - 1], vec![k as i16]);
    }
    assert!(q.try_pop().is_none());
}

#[test]
fn queue_pop_returns_oldest() {
    let mut q = SampleQueue::new();
    assert!(q.try_pop().is_none());
    q.push(vec![1, 2]);
    q.push(vec![3]);
    assert_eq!(q.try_pop(), Some(vec![1, 2]));
    assert_eq!(q.try_pop(), Some(vec![3]));
    assert!(q.try_pop().is_none());
}

#[test]
fn capture_path_downmixes_before_queueing() {
    // The capture callback path folds a six-channel frame to stereo
    // before it reaches the queue.
    let mut q = SampleQueue::new();
    push_downmixed(&mut q, &vec![1, 2, 3, 4, 5, 6], 6);
    assert_eq!(q.try_pop(), Some(vec![3, 4]));
}

#[test]
fn pump_capture_consumes_queued_batches() {
    let mut q = SampleQueue::new();
    let mut coord = Coordinator::new(8000, 1);
    q.push(tone(300));
    q.push(tone(50));
    let frames = coord.pump_capture(&mut q);
    assert_eq!(frames.len(), 1);
    assert_eq!(frames[0].len(), 320);
    assert!(q.try_pop().is_none());
    let rest = coord.on_stop().expect("residual expected");
    assert_eq!(rest.len(), 30);
}

#[test]
fn playback_buffer_yields_chunks_then_partial_then_nothing() {
    // Ten samples, two channels, chunks of two samples per channel:
    // two full chunks of four samples, one trailing chunk of two, then
    // exhaustion.
    let data: Vec<i16> = vec![0, 1, 2, 3, 4, 5, 6, 7, 8, 9];
    let mut buf = AudioBuffer::new(data, 2);
    assert_eq!(buf.get_next_chunk(2), Some(vec![0, 1, 2, 3]));
    assert_eq!(buf.get_next_chunk(2), Some(vec![4, 5, 6, 7]));
    assert_eq!(buf.get_next_chunk(2), Some(vec![8, 9]));
    assert_eq!(buf.get_next_chunk(2), None);
    assert_eq!(buf.get_next_chunk(2), None);
}
