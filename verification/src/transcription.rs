//! Transcription providers: the mock provider with its canned transcript,
//! the cloud stub, and the compute side of the local-engine provider — the
//! resampling of the session buffer to the engine's required rate, the
//! engine's command line, and the cleaning of its standard output. Running
//! the engine subprocess and touching the filesystem happen outside the
//! crate, which is handed the outcome as plain values.

use vstd::prelude::*;
use crate::audio::{decimate, decimate_samples};
use crate::textops::{chars_string, replace_all, replace_all_chars, str_chars, trim, trim_chars};

verus! {

/// Why a transcription attempt produced no text.
#[derive(Debug, Clone, PartialEq, Eq)]
pub enum TranscriptionError {
    /// The engine's model file is not present at the configured path.
    ModelNotFound,
    /// The engine subprocess could not be launched; the payload is the
    /// launcher's diagnostic.
    LaunchFailed(String),
    /// The engine ran and exited with failure; the payload is its diagnostic
    /// output.
    EngineFailed(String),
    /// The engine succeeded but produced no usable text.
    EmptyTranscript,
    /// The cloud provider has no credential configured.
    MissingApiKey,
}

/// The musical-note marker the engine emits for non-speech audio.
pub open spec fn music_note_marker() -> Seq<char> {
    seq!['\u{266a}']
}

/// The beamed-note marker the engine emits for non-speech audio.
pub open spec fn double_note_marker() -> Seq<char> {
    seq!['\u{266b}']
}

/// The musical-note emoji marker.
pub open spec fn note_emoji_marker() -> Seq<char> {
    seq!['\u{1f3b5}']
}

/// The beamed-notes emoji marker.
pub open spec fn notes_emoji_marker() -> Seq<char> {
    seq!['\u{1f3b6}']
}

/// The literal marker the engine emits for silent input.
pub open spec fn blank_audio_marker() -> Seq<char> {
    seq!['[', 'B', 'L', 'A', 'N', 'K', '_', 'A', 'U', 'D', 'I', 'O', ']']
}

/// The engine's standard output with every non-speech marker removed.
pub open spec fn markers_stripped(s: Seq<char>) -> Seq<char> {
    replace_all(
        replace_all(
            replace_all(
                replace_all(
                    replace_all(s, music_note_marker(), Seq::empty()),
                    double_note_marker(),
                    Seq::empty(),
                ),
                note_emoji_marker(),
                Seq::empty(),
            ),
            notes_emoji_marker(),
            Seq::empty(),
        ),
        blank_audio_marker(),
        Seq::empty(),
    )
}

/// The engine's standard output as a transcript: trimmed, markers removed,
/// and trimmed again.
pub open spec fn cleaned_transcript(s: Seq<char>) -> Seq<char> {
    trim(markers_stripped(trim(s)))
}

/// Removes the engine's non-speech markers and surrounding whitespace from
/// its raw standard output.
pub fn clean_transcript(raw: &str) -> (r: String)
    ensures
        r@ == cleaned_transcript(raw@),
{
    let chars = str_chars(raw);
    let trimmed = trim_chars(&chars);

    let mut p_note: Vec<char> = Vec::new();
    p_note.push('\u{266a}');
    let mut p_double: Vec<char> = Vec::new();
    p_double.push('\u{266b}');
    let mut p_emoji: Vec<char> = Vec::new();
    p_emoji.push('\u{1f3b5}');
    let mut p_emojis: Vec<char> = Vec::new();
    p_emojis.push('\u{1f3b6}');
    let p_blank = str_chars("[BLANK_AUDIO]");
    let empty_rep: Vec<char> = Vec::new();
    proof {
        reveal_strlit("[BLANK_AUDIO]");
        assert(p_note@ =~= music_note_marker());
        assert(p_double@ =~= double_note_marker());
        assert(p_emoji@ =~= note_emoji_marker());
        assert(p_emojis@ =~= notes_emoji_marker());
        assert(p_blank@ =~= blank_audio_marker());
        assert(empty_rep@ =~= Seq::<char>::empty());
    }

    let s1 = replace_all_chars(&trimmed, &p_note, &empty_rep);
    let s2 = replace_all_chars(&s1, &p_double, &empty_rep);
    let s3 = replace_all_chars(&s2, &p_emoji, &empty_rep);
    let s4 = replace_all_chars(&s3, &p_emojis, &empty_rep);
    let s5 = replace_all_chars(&s4, &p_blank, &empty_rep);
    let out = trim_chars(&s5);
    chars_string(&out)
}

/// The decision on a finished engine run: a failed exit is the engine's
/// failure, carrying its diagnostic output; a successful exit has its
/// standard output cleaned of non-speech markers, and an empty result is an
/// error of its own.
pub fn finish_transcription(exit_success: bool, stdout_text: &str, stderr_text: &str) -> (r:
    Result<String, TranscriptionError>)
    ensures
        !exit_success ==> (r matches Err(e) && e matches TranscriptionError::EngineFailed(m)
            && m@ == stderr_text@),
        exit_success && cleaned_transcript(stdout_text@).len() == 0 ==> r == Err::<
            String,
            TranscriptionError,
        >(TranscriptionError::EmptyTranscript),
        exit_success && cleaned_transcript(stdout_text@).len() > 0 ==> (r matches Ok(t) && t@
            == cleaned_transcript(stdout_text@)),
{
    if !exit_success {
        return Err(TranscriptionError::EngineFailed(stderr_text.to_owned()));
    }
    let cleaned = clean_transcript(stdout_text);
    if cleaned.as_str().unicode_len() == 0 {
        Err(TranscriptionError::EmptyTranscript)
    } else {
        Ok(cleaned)
    }
}

/// The stride by which the engine path decimates a session buffer down to
/// the 16 kHz the engine requires: the ceiling of `sample_rate` / 16000.
pub open spec fn whisper_stride(sample_rate: u32) -> int {
    if sample_rate <= 16000 {
        1
    } else {
        (sample_rate - 1) as int / 16000 + 1
    }
}

/// The session buffer decimated for the engine: unchanged at or below 16
/// kHz, else every `whisper_stride`-th sample.
pub fn prepare_engine_samples(samples: &Vec<i16>, sample_rate: u32) -> (r: Vec<i16>)
    ensures
        r@ == decimate(samples@, whisper_stride(sample_rate)),
{
    if sample_rate <= 16000 {
        decimate_samples(samples, 1)
    } else {
        let k = ((sample_rate - 1) / 16000 + 1) as usize;
        decimate_samples(samples, k)
    }
}

/// A testing provider that answers every request with a canned transcript
/// after a fixed delay; the delay is the embedding application's.
pub struct MockProvider;

impl MockProvider {
    pub fn new() -> (r: Self) {
        MockProvider
    }

    /// Always succeeds with the canned transcript.
    pub fn transcribe(&self, _audio: &Vec<i16>, _sample_rate: u32) -> (r: Result<
        String,
        TranscriptionError,
    >)
        ensures
            r matches Ok(t) && t@ == "This is a test transcription from the mock provider."@,
    {
        Ok("This is a test transcription from the mock provider.".to_owned())
    }

    pub fn supports_streaming(&self) -> (r: bool)
        ensures
            !r,
    {
        false
    }
}

/// The local-engine provider: it knows the model path and the engine
/// executable path, both discovered by the embedding application.
pub struct WhisperProvider {
    model_path: String,
    whisper_exe_path: String,
}

impl WhisperProvider {
    /// The configured model path.
    pub closed spec fn spec_model_path(&self) -> Seq<char> {
        self.model_path@
    }

    /// The engine executable path.
    pub closed spec fn spec_exe_path(&self) -> Seq<char> {
        self.whisper_exe_path@
    }

    pub fn new(model_path: String, whisper_exe_path: String) -> (r: Self)
        ensures
            r.spec_model_path() == model_path@,
            r.spec_exe_path() == whisper_exe_path@,
    {
        WhisperProvider { model_path, whisper_exe_path }
    }

    /// The configured model path, for the embedding application's existence
    /// check.
    pub fn model_path(&self) -> (r: &String)
        ensures
            r@ == self.spec_model_path(),
    {
        &self.model_path
    }

    /// The engine executable path, for the embedding application's launcher.
    pub fn exe_path(&self) -> (r: &String)
        ensures
            r@ == self.spec_exe_path(),
    {
        &self.whisper_exe_path
    }

    /// The engine's command line for one run: the model, the audio file,
    /// English, and no timestamps.
    pub fn engine_args(&self, audio_path: &str) -> (r: Vec<String>)
        ensures
            r@.len() == 7,
            r@[0]@ == "-m"@,
            r@[1]@ == self.spec_model_path(),
            r@[2]@ == "-f"@,
            r@[3]@ == audio_path@,
            r@[4]@ == "-l"@,
            r@[5]@ == "en"@,
            r@[6]@ == "-nt"@,
    {
        let mut args: Vec<String> = Vec::new();
        args.push("-m".to_owned());
        args.push(self.model_path.clone());
        args.push("-f".to_owned());
        args.push(audio_path.to_owned());
        args.push("-l".to_owned());
        args.push("en".to_owned());
        args.push("-nt".to_owned());
        args
    }

    pub fn supports_streaming(&self) -> (r: bool)
        ensures
            !r,
    {
        false
    }
}

/// The cloud provider stub: it requires a credential and otherwise answers
/// with a fixed placeholder.
pub struct CloudSTTProvider {
    api_key: Option<String>,
}

impl CloudSTTProvider {
    /// The configured credential, if any.
    pub closed spec fn spec_api_key(&self) -> Option<String> {
        self.api_key
    }

    pub fn new(api_key: Option<String>) -> (r: Self)
        ensures
            r.spec_api_key() == api_key,
    {
        CloudSTTProvider { api_key }
    }

    /// Fails without a credential; with one, answers the placeholder text.
    pub fn transcribe(&self, _audio: &Vec<i16>, _sample_rate: u32) -> (r: Result<
        String,
        TranscriptionError,
    >)
        ensures
            self.spec_api_key() is None ==> r == Err::<String, TranscriptionError>(
                TranscriptionError::MissingApiKey,
            ),
            self.spec_api_key() is Some ==> (r matches Ok(t) && t@
                == "Cloud STT transcription (not implemented yet)"@),
    {
        if self.api_key.is_none() {
            return Err(TranscriptionError::MissingApiKey);
        }
        Ok("Cloud STT transcription (not implemented yet)".to_owned())
    }

    pub fn supports_streaming(&self) -> (r: bool)
        ensures
            r,
    {
        true
    }
}

} // verus!
