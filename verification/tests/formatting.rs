use vanta_dictate::formatting::{FormattingEngine, TranscriptionMode};

#[test]
fn test_lightning_mode() {
    let engine = FormattingEngine::new(TranscriptionMode::Lightning);
    let result = engine.format("hello world");
    assert_eq!(result, "hello world");
}

#[test]
fn test_formatted_mode() {
    let engine = FormattingEngine::new(TranscriptionMode::Formatted);
    let result = engine.format("hello world");
    assert_eq!(result, "Hello world.");
}

#[test]
fn test_voice_commands() {
    let engine = FormattingEngine::new(TranscriptionMode::Formatted);
    let result = engine.format("hello comma world period this is a test");
    assert_eq!(result, "Hello, world. this is a test.");
}

#[test]
fn test_all_voice_commands() {
    let engine = FormattingEngine::new(TranscriptionMode::Formatted);
    let result = engine.format("one new line two question mark three exclamation point");
    assert_eq!(result, "One\n two? three!");
}

#[test]
fn test_collapses_spaces_and_appends_period() {
    let engine = FormattingEngine::new(TranscriptionMode::Formatted);
    let result = engine.format("a  lot   of space");
    assert_eq!(result, "A lot of space.");
}

#[test]
fn test_keeps_existing_terminal_punctuation() {
    let engine = FormattingEngine::new(TranscriptionMode::Formatted);
    assert_eq!(engine.format("Done?"), "Done?");
    assert_eq!(engine.format("Done!"), "Done!");
}

#[test]
fn test_formatting_idempotent_on_formatted_text() {
    let engine = FormattingEngine::new(TranscriptionMode::Formatted);
    let once = engine.format("hello comma world period this is a test");
    let twice = engine.format(&once);
    assert_eq!(twice, once);
}

#[test]
fn test_format_empty_input() {
    let engine = FormattingEngine::new(TranscriptionMode::Formatted);
    assert_eq!(engine.format(""), "");
}

#[test]
fn test_set_mode_switches_formatting() {
    let mut engine = FormattingEngine::new(TranscriptionMode::Lightning);
    assert_eq!(engine.format("hello"), "hello");
    engine.set_mode(TranscriptionMode::Formatted);
    assert_eq!(engine.format("hello"), "Hello.");
}
