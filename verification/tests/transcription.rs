use vanta_dictate::transcription::{
    clean_transcript, finish_transcription, prepare_engine_samples, CloudSTTProvider,
    MockProvider, TranscriptionError, WhisperProvider,
};

#[test]
fn test_clean_transcript_strips_markers_and_whitespace() {
    assert_eq!(clean_transcript("  hello world  "), "hello world");
    assert_eq!(clean_transcript("\u{266a} hello \u{266a}"), "hello");
    assert_eq!(clean_transcript("\u{266b}\u{1F3B5}\u{1F3B6}ok"), "ok");
    assert_eq!(clean_transcript("[BLANK_AUDIO]"), "");
    assert_eq!(clean_transcript("\t\nsay it\r\n"), "say it");
}

#[test]
fn test_finish_transcription_failure_carries_diagnostics() {
    let r = finish_transcription(false, "ignored", "model load failed");
    assert_eq!(
        r,
        Err(TranscriptionError::EngineFailed("model load failed".to_string()))
    );
}

#[test]
fn test_finish_transcription_empty_output_is_an_error() {
    let r = finish_transcription(true, " \u{266a} [BLANK_AUDIO] ", "");
    assert_eq!(r, Err(TranscriptionError::EmptyTranscript));
}

#[test]
fn test_finish_transcription_cleans_output() {
    let r = finish_transcription(true, "  hello there [BLANK_AUDIO]\n", "");
    assert_eq!(r, Ok("hello there".to_string()));
}

#[test]
fn test_prepare_engine_samples_decimates_48k() {
    let samples: Vec<i16> = (0..9).collect();
    assert_eq!(prepare_engine_samples(&samples, 48000), vec![0, 3, 6]);
}

#[test]
fn test_prepare_engine_samples_keeps_16k() {
    let samples: Vec<i16> = vec![5, 6, 7];
    assert_eq!(prepare_engine_samples(&samples, 16000), vec![5, 6, 7]);
}

#[test]
fn test_prepare_engine_samples_rounds_stride_up() {
    // 44100 Hz: ceiling(44100/16000) = 3.
    let samples: Vec<i16> = (0..7).collect();
    assert_eq!(prepare_engine_samples(&samples, 44100), vec![0, 3, 6]);
}

#[test]
fn test_mock_provider_answers_canned_text() {
    let provider = MockProvider::new();
    let audio: Vec<i16> = Vec::new();
    let r = provider.transcribe(&audio, 16000);
    assert_eq!(
        r,
        Ok("This is a test transcription from the mock provider.".to_string())
    );
    assert!(!provider.supports_streaming());
}

#[test]
fn test_cloud_provider_requires_credential() {
    let provider = CloudSTTProvider::new(None);
    let audio: Vec<i16> = vec![1];
    assert_eq!(
        provider.transcribe(&audio, 16000),
        Err(TranscriptionError::MissingApiKey)
    );
    let provider = CloudSTTProvider::new(Some("SECRET-REDACTED".to_string()));
    assert_eq!(
        provider.transcribe(&audio, 16000),
        Ok("Cloud STT transcription (not implemented yet)".to_string())
    );
    assert!(provider.supports_streaming());
}

#[test]
fn test_whisper_engine_command_line() {
    let provider = WhisperProvider::new(
        "/models/ggml-base.bin".to_string(),
        "/opt/engine/whisper".to_string(),
    );
    let args = provider.engine_args("/tmp/session.wav");
    assert_eq!(
        args,
        vec!["-m", "/models/ggml-base.bin", "-f", "/tmp/session.wav", "-l", "en", "-nt"]
    );
    assert_eq!(provider.model_path(), "/models/ggml-base.bin");
    assert_eq!(provider.exe_path(), "/opt/engine/whisper");
    assert!(!provider.supports_streaming());
}
