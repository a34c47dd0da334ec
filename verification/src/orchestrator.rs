//! The pipeline state machine: Idle, Recording, Processing. It consumes the
//! hotkey event stream, tells its surroundings what to do on each
//! transition, and decides what a finished session injects. The threads, the
//! indicator window, and the provider call itself live in the embedding
//! application.

use vstd::prelude::*;
use crate::formatting::{format_spec, FormattingEngine};
use crate::hotkey::HotkeyEvent;
use crate::transcription::TranscriptionError;

verus! {

/// The pipeline's state. Exactly one session is under way whenever the state
/// is not Idle.
#[derive(Debug, Clone, Copy, PartialEq, Eq, Structural)]
pub enum PipelineState {
    /// Waiting for a Pressed event.
    Idle,
    /// The capture worker is accumulating audio.
    Recording,
    /// The session's transcription, formatting and injection are running.
    Processing,
}

/// What the orchestrator asks its surroundings to do for one hotkey event.
#[derive(Debug, Clone, Copy, PartialEq, Eq, Structural)]
pub enum OrchestratorAction {
    /// Begin a session: capture focus, show the recording indicator, send
    /// Start to the capture worker.
    BeginSession,
    /// End the session: hide the indicator, send Stop, await the buffer, and
    /// run transcription, formatting and injection.
    EndSession,
    /// The event is a no-op in the current state.
    Ignore,
}

/// An event the pipeline state machine consumes: a hotkey transition, or the
/// completion — successful or not — of a session's processing.
#[derive(Debug, Clone, Copy, PartialEq, Eq, Structural)]
pub enum PipelineEvent {
    KeyPressed,
    KeyReleased,
    ProcessingDone,
}

/// The pipeline event a hotkey event becomes.
pub open spec fn hotkey_pipeline_event(ev: HotkeyEvent) -> PipelineEvent {
    match ev {
        HotkeyEvent::Pressed => PipelineEvent::KeyPressed,
        HotkeyEvent::Released => PipelineEvent::KeyReleased,
    }
}

/// The transition function of the pipeline state machine. A Pressed while
/// Recording or Processing and a Released outside Recording are no-ops.
pub open spec fn next_state(s: PipelineState, e: PipelineEvent) -> PipelineState {
    match (s, e) {
        (PipelineState::Idle, PipelineEvent::KeyPressed) => PipelineState::Recording,
        (PipelineState::Recording, PipelineEvent::KeyReleased) => PipelineState::Processing,
        (PipelineState::Processing, PipelineEvent::ProcessingDone) => PipelineState::Idle,
        _ => s,
    }
}

/// The action performed on a transition: a session begins only on Pressed in
/// Idle and ends only on Released in Recording.
pub open spec fn action_for(s: PipelineState, e: PipelineEvent) -> OrchestratorAction {
    match (s, e) {
        (PipelineState::Idle, PipelineEvent::KeyPressed) => OrchestratorAction::BeginSession,
        (PipelineState::Recording, PipelineEvent::KeyReleased) => OrchestratorAction::EndSession,
        _ => OrchestratorAction::Ignore,
    }
}

/// The orchestrator: the single pipeline state machine instance.
pub struct Orchestrator {
    state: PipelineState,
}

impl Orchestrator {
    /// The current pipeline state.
    pub closed spec fn spec_state(&self) -> PipelineState {
        self.state
    }

    /// A fresh orchestrator, Idle.
    pub fn new() -> (r: Self)
        ensures
            r.spec_state() == PipelineState::Idle,
    {
        Orchestrator { state: PipelineState::Idle }
    }

    /// The current pipeline state, for observation by the embedding
    /// application.
    pub fn state(&self) -> (s: PipelineState)
        ensures
            s == self.spec_state(),
    {
        self.state
    }

    /// Consumes one hotkey event: the state follows the transition function
    /// and the returned action is the transition's.
    pub fn handle_event(&mut self, ev: HotkeyEvent) -> (a: OrchestratorAction)
        ensures
            final(self).spec_state() == next_state(
                old(self).spec_state(),
                hotkey_pipeline_event(ev),
            ),
            a == action_for(old(self).spec_state(), hotkey_pipeline_event(ev)),
    {
        match (self.state, ev) {
            (PipelineState::Idle, HotkeyEvent::Pressed) => {
                self.state = PipelineState::Recording;
                OrchestratorAction::BeginSession
            },
            (PipelineState::Recording, HotkeyEvent::Released) => {
                self.state = PipelineState::Processing;
                OrchestratorAction::EndSession
            },
            _ => OrchestratorAction::Ignore,
        }
    }

    /// Marks the session's processing finished, successfully or not: from
    /// Processing the state returns to Idle.
    pub fn finish_processing(&mut self)
        ensures
            final(self).spec_state() == next_state(
                old(self).spec_state(),
                PipelineEvent::ProcessingDone,
            ),
    {
        if matches!(self.state, PipelineState::Processing) {
            self.state = PipelineState::Idle;
        }
    }
}

/// The state after consuming `events`, in order, from `init`.
pub open spec fn run_events(init: PipelineState, events: Seq<PipelineEvent>) -> PipelineState
    decreases events.len(),
{
    if events.len() == 0 {
        init
    } else {
        run_events(next_state(init, events[0]), events.subrange(1, events.len() as int))
    }
}

/// How a single transition changes the number of open sessions: one opens on
/// Pressed in Idle, one closes when processing completes.
pub open spec fn session_delta(s: PipelineState, e: PipelineEvent) -> int {
    match (s, e) {
        (PipelineState::Idle, PipelineEvent::KeyPressed) => 1,
        (PipelineState::Processing, PipelineEvent::ProcessingDone) => -1,
        _ => 0,
    }
}

/// Sessions opened minus sessions closed while consuming `events` from
/// `init`.
pub open spec fn open_sessions(init: PipelineState, events: Seq<PipelineEvent>) -> int
    decreases events.len(),
{
    if events.len() == 0 {
        0
    } else {
        session_delta(init, events[0]) + open_sessions(
            next_state(init, events[0]),
            events.subrange(1, events.len() as int),
        )
    }
}

/// One session is open exactly while the machine is away from Idle.
pub open spec fn state_open_count(s: PipelineState) -> int {
    if s == PipelineState::Idle {
        0
    } else {
        1
    }
}

proof fn lemma_open_sessions_tracks_state(init: PipelineState, events: Seq<PipelineEvent>)
    ensures
        open_sessions(init, events) == state_open_count(run_events(init, events))
            - state_open_count(init),
    decreases events.len(),
{
    if events.len() > 0 {
        lemma_open_sessions_tracks_state(
            next_state(init, events[0]),
            events.subrange(1, events.len() as int),
        );
    }
}

/// For any sequence of events consumed from Idle, at every point the number
/// of sessions opened exceeds the number closed by exactly one while the
/// machine is away from Idle and never by more: no second session is ever
/// open concurrently. Moreover a session begins only on a Pressed received
/// in Idle — a Pressed while Recording or Processing begins nothing and
/// leaves the state unchanged.
pub proof fn lemma_single_session(events: Seq<PipelineEvent>)
    ensures
        forall|n: int|
            0 <= n <= events.len() ==> #[trigger] open_sessions(
                PipelineState::Idle,
                events.subrange(0, n),
            ) == state_open_count(run_events(PipelineState::Idle, events.subrange(0, n))),
        forall|n: int|
            0 <= n <= events.len() ==> 0 <= #[trigger] open_sessions(
                PipelineState::Idle,
                events.subrange(0, n),
            ) <= 1,
        forall|s: PipelineState, e: PipelineEvent|
            #[trigger] action_for(s, e) == OrchestratorAction::BeginSession ==> s
                == PipelineState::Idle && next_state(s, e) == PipelineState::Recording,
        next_state(PipelineState::Recording, PipelineEvent::KeyPressed)
            == PipelineState::Recording,
        next_state(PipelineState::Processing, PipelineEvent::KeyPressed)
            == PipelineState::Processing,
{
    assert forall|n: int| 0 <= n <= events.len() implies #[trigger] open_sessions(
        PipelineState::Idle,
        events.subrange(0, n),
    ) == state_open_count(run_events(PipelineState::Idle, events.subrange(0, n))) by {
        lemma_open_sessions_tracks_state(PipelineState::Idle, events.subrange(0, n));
    }
}

/// Why a session produced nothing to inject.
#[derive(Debug, Clone, PartialEq, Eq)]
pub enum PipelineError {
    /// The transcription provider failed.
    Transcription(TranscriptionError),
    /// The provider returned an empty transcript.
    EmptyTranscript,
}

/// The text a finished session injects, given the transcription outcome. In
/// test mode a fixed string replaces transcription entirely; otherwise a
/// provider failure or an empty transcript ends the session with an error
/// for the indicator surface, and any other transcript is rendered by the
/// formatting engine.
pub fn prepare_injection_text(
    test_mode: bool,
    transcription: Result<String, TranscriptionError>,
    engine: &FormattingEngine,
) -> (r: Result<String, PipelineError>)
    ensures
        test_mode ==> (r matches Ok(t) && t@ == format_spec(
            engine.spec_mode(),
            "Test transcription successful"@,
        )),
        !test_mode ==> match transcription {
            Ok(raw) => {
                if raw@.len() == 0 {
                    r == Err::<String, PipelineError>(PipelineError::EmptyTranscript)
                } else {
                    r matches Ok(t) && t@ == format_spec(engine.spec_mode(), raw@)
                }
            },
            Err(e) => r == Err::<String, PipelineError>(PipelineError::Transcription(e)),
        },
{
    if test_mode {
        return Ok(engine.format("Test transcription successful"));
    }
    match transcription {
        Err(e) => Err(PipelineError::Transcription(e)),
        Ok(raw) => {
            if raw.as_str().unicode_len() == 0 {
                Err(PipelineError::EmptyTranscript)
            } else {
                Ok(engine.format(raw.as_str()))
            }
        },
    }
}

/// Which transcription provider a configured name selects.
#[derive(Debug, Clone, Copy, PartialEq, Eq, Structural)]
pub enum ProviderKind {
    /// The local-engine provider.
    Whisper,
    /// The cloud stub.
    Cloud,
    /// The canned-answer testing provider.
    Mock,
}

/// Maps the configured provider name to a provider; an unknown name falls
/// back to the mock provider.
pub fn select_provider(name: &String) -> (k: ProviderKind)
    ensures
        name@ == "Whisper"@ ==> k == ProviderKind::Whisper,
        name@ == "Cloud"@ ==> k == ProviderKind::Cloud,
        name@ != "Whisper"@ && name@ != "Cloud"@ ==> k == ProviderKind::Mock,
{
    proof {
        reveal_strlit("Whisper");
        reveal_strlit("Cloud");
    }
    let whisper: String = "Whisper".to_owned();
    let cloud: String = "Cloud".to_owned();
    proof {
        assert("Whisper"@.len() == 7);
        assert("Cloud"@.len() == 5);
        assert("Whisper"@ != "Cloud"@);
    }
    if name.eq(&whisper) {
        ProviderKind::Whisper
    } else if name.eq(&cloud) {
        ProviderKind::Cloud
    } else {
        ProviderKind::Mock
    }
}

} // verus!
