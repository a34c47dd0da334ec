use vanta_dictate::injection::{
    char_events_delivered, clipboard_utf16, paste_chord_delivered, ClipboardStep, InjectStep,
    InjectionError, TextInjector,
};
use vanta_dictate::wav::wav_bytes;

#[test]
fn test_wav_bytes_exact_image() {
    let samples: Vec<i16> = vec![0, 1, -1];
    let bytes = wav_bytes(&samples, 16000);
    let mut expected: Vec<u8> = Vec::new();
    expected.extend_from_slice(b"RIFF");
    expected.extend_from_slice(&42u32.to_le_bytes()); // 36 + 6 data bytes
    expected.extend_from_slice(b"WAVE");
    expected.extend_from_slice(b"fmt ");
    expected.extend_from_slice(&16u32.to_le_bytes()); // fmt chunk size
    expected.extend_from_slice(&1u16.to_le_bytes()); // PCM
    expected.extend_from_slice(&1u16.to_le_bytes()); // mono
    expected.extend_from_slice(&16000u32.to_le_bytes()); // sample rate
    expected.extend_from_slice(&32000u32.to_le_bytes()); // byte rate
    expected.extend_from_slice(&2u16.to_le_bytes()); // block align
    expected.extend_from_slice(&16u16.to_le_bytes()); // bits per sample
    expected.extend_from_slice(b"data");
    expected.extend_from_slice(&6u32.to_le_bytes()); // data size
    expected.extend_from_slice(&0i16.to_le_bytes());
    expected.extend_from_slice(&1i16.to_le_bytes());
    expected.extend_from_slice(&(-1i16).to_le_bytes());
    assert_eq!(bytes, expected);
    assert_eq!(bytes.len(), 44 + 6);
}

#[test]
fn test_wav_bytes_empty_buffer() {
    let samples: Vec<i16> = Vec::new();
    let bytes = wav_bytes(&samples, 16000);
    assert_eq!(bytes.len(), 44);
    assert_eq!(&bytes[0..4], b"RIFF");
    assert_eq!(&bytes[4..8], &36u32.to_le_bytes());
    assert_eq!(&bytes[40..44], &0u32.to_le_bytes());
}

#[test]
fn test_injector_defaults() {
    let injector = TextInjector::new();
    assert_eq!(injector.focus_delay_ms(), 100);
    assert!(injector.fallback_enabled());
    assert_eq!(injector.injection_target(), Err(InjectionError::NoTarget));
}

#[test]
fn test_injector_settings() {
    let mut injector = TextInjector::new();
    injector.set_focus_delay(250);
    injector.set_fallback_enabled(false);
    assert_eq!(injector.focus_delay_ms(), 250);
    assert!(!injector.fallback_enabled());
}

#[test]
fn test_capture_focus_overwrites_previous_handle() {
    let mut injector = TextInjector::new();
    injector.capture_focus(11);
    injector.capture_focus(22);
    assert_eq!(injector.injection_target(), Ok(22));
}

#[test]
fn test_fallback_taken_when_enabled() {
    let mut injector = TextInjector::new();
    injector.set_fallback_enabled(true);
    let failure = Err(InjectionError::Clipboard(ClipboardStep::Open));
    assert_eq!(injector.after_primary(failure), InjectStep::TryFallback);
}

#[test]
fn test_primary_failure_propagated_when_fallback_disabled() {
    let mut injector = TextInjector::new();
    injector.set_fallback_enabled(false);
    let failure = Err(InjectionError::Clipboard(ClipboardStep::SetData));
    assert_eq!(
        injector.after_primary(failure),
        InjectStep::Fail(InjectionError::Clipboard(ClipboardStep::SetData))
    );
}

#[test]
fn test_primary_success_is_final() {
    let injector = TextInjector::new();
    assert_eq!(injector.after_primary(Ok(())), InjectStep::Done);
}

#[test]
fn test_clipboard_utf16_ascii() {
    let wide = clipboard_utf16("Ab");
    assert_eq!(wide, vec![65u16, 98u16, 0u16]);
}

#[test]
fn test_clipboard_utf16_surrogate_pair() {
    // U+1D11E (musical symbol G clef) needs a surrogate pair.
    let wide = clipboard_utf16("\u{1D11E}");
    assert_eq!(wide, vec![0xD834u16, 0xDD1Eu16, 0u16]);
}

#[test]
fn test_clipboard_utf16_matches_std_encoding() {
    let text = "caf\u{e9} \u{1F3B5}";
    let mut expected: Vec<u16> = text.encode_utf16().collect();
    expected.push(0);
    assert_eq!(clipboard_utf16(text), expected);
}

#[test]
fn test_paste_chord_delivery_check() {
    assert!(paste_chord_delivered(4).is_ok());
    assert_eq!(
        paste_chord_delivered(3),
        Err(InjectionError::PartialDelivery { sent: 3, expected: 4 })
    );
}

#[test]
fn test_char_events_delivery_check() {
    assert!(char_events_delivered(2));
    assert!(!char_events_delivered(1));
}
