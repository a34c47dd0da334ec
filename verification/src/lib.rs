//! Core engine of a push-to-talk voice-dictation pipeline.
//!
//! Holding a global hotkey records microphone audio; releasing it triggers
//! transcription, text formatting, and delivery of the text into the window
//! that had keyboard focus when recording began. This crate holds the
//! verified orchestration core: the hotkey-driven pipeline state machine, the
//! audio-capture worker's command protocol and buffer arithmetic, the
//! two-phase text-injection decision logic, the text formatter, and the WAV
//! encoding and transcript handling behind the transcription providers. The
//! operating-system edges (audio devices, global key hooks, clipboard and
//! synthetic input, subprocesses) live outside, and hand this crate plain
//! values.

pub mod audio;
pub mod config;
pub mod hotkey;
pub mod orchestrator;
pub mod formatting;
pub mod injection;
pub mod wav;
pub mod textops;
pub mod transcription;
