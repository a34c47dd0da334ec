use vanta_dictate::audio::{resolve_stop_reply, CaptureWorker};
use vanta_dictate::config::AppConfig;
use vanta_dictate::formatting::{FormattingEngine, TranscriptionMode};
use vanta_dictate::hotkey::{filter_raw_event, HotkeyEvent};
use vanta_dictate::injection::{InjectStep, TextInjector};
use vanta_dictate::orchestrator::{
    prepare_injection_text, select_provider, Orchestrator, OrchestratorAction, PipelineError,
    PipelineState, ProviderKind,
};
use vanta_dictate::transcription::{MockProvider, TranscriptionError};

#[test]
fn test_state_machine_transitions() {
    let mut orch = Orchestrator::new();
    assert_eq!(orch.state(), PipelineState::Idle);

    // A Released with no matching Pressed is a no-op.
    assert_eq!(orch.handle_event(HotkeyEvent::Released), OrchestratorAction::Ignore);
    assert_eq!(orch.state(), PipelineState::Idle);

    assert_eq!(orch.handle_event(HotkeyEvent::Pressed), OrchestratorAction::BeginSession);
    assert_eq!(orch.state(), PipelineState::Recording);

    // A duplicate Pressed while Recording opens no second session.
    assert_eq!(orch.handle_event(HotkeyEvent::Pressed), OrchestratorAction::Ignore);
    assert_eq!(orch.state(), PipelineState::Recording);

    assert_eq!(orch.handle_event(HotkeyEvent::Released), OrchestratorAction::EndSession);
    assert_eq!(orch.state(), PipelineState::Processing);

    // Events during Processing are no-ops; no session can begin.
    assert_eq!(orch.handle_event(HotkeyEvent::Pressed), OrchestratorAction::Ignore);
    assert_eq!(orch.handle_event(HotkeyEvent::Released), OrchestratorAction::Ignore);
    assert_eq!(orch.state(), PipelineState::Processing);

    orch.finish_processing();
    assert_eq!(orch.state(), PipelineState::Idle);
}

#[test]
fn test_prepare_injection_text_cases() {
    let engine = FormattingEngine::new(TranscriptionMode::Formatted);

    // Test mode skips transcription entirely.
    let r = prepare_injection_text(true, Err(TranscriptionError::EmptyTranscript), &engine);
    assert_eq!(r, Ok("Test transcription successful.".to_string()));

    // A provider failure is surfaced.
    let r = prepare_injection_text(false, Err(TranscriptionError::ModelNotFound), &engine);
    assert_eq!(r, Err(PipelineError::Transcription(TranscriptionError::ModelNotFound)));

    // An empty transcript is its own failure.
    let r = prepare_injection_text(false, Ok(String::new()), &engine);
    assert_eq!(r, Err(PipelineError::EmptyTranscript));

    // A transcript is rendered by the formatting engine.
    let r = prepare_injection_text(false, Ok("hello comma world".to_string()), &engine);
    assert_eq!(r, Ok("Hello, world.".to_string()));
}

#[test]
fn test_select_provider_names() {
    assert_eq!(select_provider(&"Whisper".to_string()), ProviderKind::Whisper);
    assert_eq!(select_provider(&"Cloud".to_string()), ProviderKind::Cloud);
    assert_eq!(select_provider(&"Mock".to_string()), ProviderKind::Mock);
    assert_eq!(select_provider(&"Anything".to_string()), ProviderKind::Mock);
}

#[test]
fn test_filter_raw_hotkey_events() {
    assert_eq!(filter_raw_event(7, 7, true), Some(HotkeyEvent::Pressed));
    assert_eq!(filter_raw_event(7, 7, false), Some(HotkeyEvent::Released));
    assert_eq!(filter_raw_event(8, 7, true), None);
}

#[test]
fn test_default_config() {
    let config = AppConfig::default();
    assert!(config.autostart);
    assert_eq!(config.hotkey, "Ctrl+Shift+Space");
    assert_eq!(config.language, "en-US");
    assert!(!config.injection_test_mode);
    assert_eq!(config.focus_delay_ms, 100);
    assert!(config.enable_typing_fallback);
    assert_eq!(config.provider, "Whisper");
    assert_eq!(config.whisper_model, "base");
}

#[test]
fn test_end_to_end_session_with_mock_provider() {
    let mut orch = Orchestrator::new();
    let mut worker = CaptureWorker::new(16000, 1);
    let mut injector = TextInjector::new();
    let engine = FormattingEngine::new(TranscriptionMode::Formatted);
    let provider = MockProvider::new();

    // Pressed: begin the session.
    assert_eq!(orch.handle_event(HotkeyEvent::Pressed), OrchestratorAction::BeginSession);
    injector.capture_focus(42);
    worker.on_start();

    // Three chunks of 1600 samples at 16 kHz arrive.
    for _ in 0..3 {
        let chunk: Vec<i16> = vec![100; 1600];
        worker.on_chunk(&chunk);
    }

    // Released: end the session.
    assert_eq!(orch.handle_event(HotkeyEvent::Released), OrchestratorAction::EndSession);
    let buffer = resolve_stop_reply(Some(worker.on_stop()));
    assert_eq!(buffer.len(), 4800);

    // The mock provider answers; the text is formatted and injected.
    let transcription = provider.transcribe(&buffer, 16000);
    let text = prepare_injection_text(false, transcription, &engine).unwrap();
    assert!(injector.injection_target().is_ok());
    assert_eq!(injector.after_primary(Ok(())), InjectStep::Done);

    // The injected text is capitalized and ends in terminal punctuation.
    let first = text.chars().next().unwrap();
    let last = text.chars().last().unwrap();
    assert!(first.is_ascii_uppercase());
    assert!(last == '.' || last == '!' || last == '?');
    assert_eq!(text, "This is a test transcription from the mock provider.");

    orch.finish_processing();
    assert_eq!(orch.state(), PipelineState::Idle);
}
