use vanta_dictate::audio::{
    resolve_stop_reply, stride_for, AudioCommand, CaptureWorker, TARGET_SAMPLE_RATE,
};

#[test]
fn test_session_buffer_is_concatenation() {
    let mut worker = CaptureWorker::new(16000, 1);
    worker.on_start();
    let chunk_a: Vec<i16> = vec![1, 2, 3];
    let chunk_b: Vec<i16> = vec![4, 5];
    let chunk_c: Vec<i16> = vec![6];
    worker.on_chunk(&chunk_a);
    worker.on_chunk(&chunk_b);
    worker.on_chunk(&chunk_c);
    let buffer = worker.on_stop();
    assert_eq!(buffer, vec![1, 2, 3, 4, 5, 6]);
}

#[test]
fn test_stop_without_start_returns_empty() {
    let mut worker = CaptureWorker::new(48000, 2);
    let chunk: Vec<i16> = vec![1, 2, 3, 4, 5, 6];
    worker.on_chunk(&chunk);
    let buffer = worker.on_stop();
    assert!(buffer.is_empty());
}

#[test]
fn test_restart_truncates_buffer() {
    let mut worker = CaptureWorker::new(16000, 1);
    worker.on_start();
    let chunk: Vec<i16> = vec![7, 8, 9];
    worker.on_chunk(&chunk);
    worker.on_start();
    let tail: Vec<i16> = vec![10];
    worker.on_chunk(&tail);
    let buffer = worker.on_stop();
    assert_eq!(buffer, vec![10]);
}

#[test]
fn test_decimation_48k_to_16k_keeps_every_third_sample() {
    let mut worker = CaptureWorker::new(48000, 1);
    worker.on_start();
    let chunk: Vec<i16> = (0..12).collect();
    worker.on_chunk(&chunk);
    let buffer = worker.on_stop();
    assert_eq!(buffer, vec![0, 3, 6, 9]);
}

#[test]
fn test_decimation_length_rounds_up() {
    let mut worker = CaptureWorker::new(48000, 1);
    worker.on_start();
    let chunk: Vec<i16> = (0..7).collect();
    worker.on_chunk(&chunk);
    let buffer = worker.on_stop();
    assert_eq!(buffer, vec![0, 3, 6]);
    assert_eq!(buffer.len(), (7 + 2) / 3);
}

#[test]
fn test_downmix_is_channel_mean() {
    let mut worker = CaptureWorker::new(16000, 2);
    worker.on_start();
    let chunk: Vec<i16> = vec![10, 20, -3, -4, 5, -6];
    worker.on_chunk(&chunk);
    let buffer = worker.on_stop();
    // Means of (10,20), (-3,-4), (5,-6); division truncates toward zero.
    assert_eq!(buffer, vec![15, -3, 0]);
}

#[test]
fn test_downmix_partial_trailing_frame_divides_by_channel_count() {
    let mut worker = CaptureWorker::new(16000, 2);
    worker.on_start();
    // Five samples at two channels: the last frame is partial and its lone
    // sample is still divided by the full channel count.
    let chunk: Vec<i16> = vec![4, 6, 9, 1, 7];
    worker.on_chunk(&chunk);
    let buffer = worker.on_stop();
    assert_eq!(buffer, vec![5, 5, 3]);
}

#[test]
fn test_downmix_then_decimation() {
    let mut worker = CaptureWorker::new(48000, 2);
    worker.on_start();
    // Twelve interleaved samples: six stereo frames downmix to six mono
    // samples, which decimate by stride three to two.
    let chunk: Vec<i16> = vec![0, 2, 10, 10, 20, 20, 30, 30, 40, 40, 50, 50];
    worker.on_chunk(&chunk);
    let buffer = worker.on_stop();
    assert_eq!(buffer, vec![1, 30]);
}

#[test]
fn test_chunks_while_not_recording_are_discarded() {
    let mut worker = CaptureWorker::new(16000, 1);
    worker.on_start();
    let first: Vec<i16> = vec![1];
    worker.on_chunk(&first);
    let _ = worker.on_stop();
    let late: Vec<i16> = vec![2];
    worker.on_chunk(&late);
    let buffer = worker.on_stop();
    assert!(buffer.is_empty());
}

#[test]
fn test_apply_command_protocol() {
    let mut worker = CaptureWorker::new(16000, 1);
    assert!(worker.apply_command(AudioCommand::Start).is_none());
    let chunk: Vec<i16> = vec![1, 2];
    worker.on_chunk(&chunk);
    let reply = worker.apply_command(AudioCommand::Stop);
    assert_eq!(reply, Some(vec![1, 2]));
    assert!(worker.apply_command(AudioCommand::Shutdown).is_none());
}

#[test]
fn test_stride_for_rates() {
    assert_eq!(stride_for(48000, TARGET_SAMPLE_RATE), 3);
    assert_eq!(stride_for(32000, TARGET_SAMPLE_RATE), 2);
    assert_eq!(stride_for(16000, TARGET_SAMPLE_RATE), 1);
    // Not an exact multiple: the worker keeps the chunk as it is.
    assert_eq!(stride_for(44100, TARGET_SAMPLE_RATE), 1);
    assert_eq!(stride_for(8000, TARGET_SAMPLE_RATE), 1);
}

#[test]
fn test_stop_reply_timeout_resolves_empty() {
    // A reply that never arrived within the bounded wait.
    let buffer = resolve_stop_reply(None);
    assert!(buffer.is_empty());
    // A reply that did arrive is handed through unchanged.
    let buffer = resolve_stop_reply(Some(vec![1, 2, 3]));
    assert_eq!(buffer, vec![1, 2, 3]);
}
