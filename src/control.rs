//! Decisions of the control loop that drives recording: starting after a
//! short preparation, stopping on request or on silence, and what to do
//! with a finished recording.

use vstd::prelude::*;

verus! {

/// Delay between asking to record from the window and the start of capture.
pub const PREPARE_DELAY_US: u64 = 500_000;

/// Control flags of the front end.
#[derive(Debug, Clone, Copy, PartialEq, Eq, Structural)]
pub struct ControlState {
    pub is_recording: bool,
    pub is_preparing: bool,
    /// When the current preparation began.
    pub prepare_start_us: u64,
    pub is_transcribing: bool,
}

/// What happened since the last step.
#[derive(Debug, Clone, Copy, PartialEq, Eq, Structural)]
pub enum ControlEvent {
    /// The start/stop button was clicked.
    ButtonClicked,
    /// The global hotkey was pressed.
    HotkeyPressed,
    /// A poll of the loop, with no other event.
    Tick,
    /// The session reported silence.
    SilenceDetected,
    /// Capture could not be started.
    StartFailed,
    /// A transcription was handed to the client.
    TranscriptionStarted,
    /// The client answered, with text or an error.
    TranscriptionFinished,
}

/// What the loop has to do after a step.
#[derive(Debug, Clone, Copy, PartialEq, Eq, Structural)]
pub enum ControlAction {
    Nothing,
    /// Start a capture session now.
    StartRecording,
    /// Stop the capture session and process what it recorded.
    StopRecording,
    /// Preparation began; capture starts after the delay.
    BeginPreparation,
    /// The preparation was cancelled.
    CancelPreparation,
}

/// Never recording and preparing at once.
pub open spec fn control_wf(s: ControlState) -> bool {
    !(s.is_recording && s.is_preparing)
}

pub open spec fn is_idle(s: ControlState) -> bool {
    !s.is_recording && !s.is_preparing
}

pub fn initial_control_state() -> (r: ControlState)
    ensures
        r == (ControlState { is_recording: false, is_preparing: false, prepare_start_us: 0, is_transcribing: false }),
        control_wf(r),
{
    ControlState { is_recording: false, is_preparing: false, prepare_start_us: 0, is_transcribing: false }
}

/// One step of the control loop at time `now_us`.
pub fn control_step(s: ControlState, event: ControlEvent, now_us: u64) -> (r: (ControlState, ControlAction))
    ensures
        control_wf(s) ==> control_wf(r.0),
        event == ControlEvent::ButtonClicked ==> {
            if s.is_preparing {
                r == (ControlState { is_preparing: false, ..s }, ControlAction::CancelPreparation)
            } else if s.is_recording {
                r == (ControlState { is_recording: false, ..s }, ControlAction::StopRecording)
            } else {
                r == (ControlState { is_preparing: true, prepare_start_us: now_us, ..s }, ControlAction::BeginPreparation)
            }
        },
        event == ControlEvent::HotkeyPressed ==> {
            if is_idle(s) && !s.is_transcribing {
                r == (ControlState { is_recording: true, ..s }, ControlAction::StartRecording)
            } else {
                r == (s, ControlAction::Nothing)
            }
        },
        event == ControlEvent::Tick ==> {
            if s.is_preparing && now_us >= s.prepare_start_us && now_us - s.prepare_start_us
                >= PREPARE_DELAY_US {
                r == (ControlState { is_preparing: false, is_recording: true, ..s }, ControlAction::StartRecording)
            } else {
                r == (s, ControlAction::Nothing)
            }
        },
        event == ControlEvent::SilenceDetected ==> {
            if s.is_recording {
                r == (ControlState { is_recording: false, ..s }, ControlAction::StopRecording)
            } else {
                r == (s, ControlAction::Nothing)
            }
        },
        event == ControlEvent::StartFailed ==> r == (ControlState { is_recording: false, ..s }, ControlAction::Nothing),
        event == ControlEvent::TranscriptionStarted ==> r == (ControlState { is_transcribing: true, ..s }, ControlAction::Nothing),
        event == ControlEvent::TranscriptionFinished ==> r == (ControlState { is_transcribing: false, ..s }, ControlAction::Nothing),
{
    match event {
        ControlEvent::ButtonClicked => {
            if s.is_preparing {
                (ControlState { is_preparing: false, ..s }, ControlAction::CancelPreparation)
            } else if s.is_recording {
                (ControlState { is_recording: false, ..s }, ControlAction::StopRecording)
            } else {
                (ControlState { is_preparing: true, prepare_start_us: now_us, ..s }, ControlAction::BeginPreparation)
            }
        },
        ControlEvent::HotkeyPressed => {
            if !s.is_recording && !s.is_preparing && !s.is_transcribing {
                (ControlState { is_recording: true, ..s }, ControlAction::StartRecording)
            } else {
                (s, ControlAction::Nothing)
            }
        },
        ControlEvent::Tick => {
            if s.is_preparing && now_us >= s.prepare_start_us && now_us - s.prepare_start_us
                >= PREPARE_DELAY_US {
                (ControlState { is_preparing: false, is_recording: true, ..s }, ControlAction::StartRecording)
            } else {
                (s, ControlAction::Nothing)
            }
        },
        ControlEvent::SilenceDetected => {
            if s.is_recording {
                (ControlState { is_recording: false, ..s }, ControlAction::StopRecording)
            } else {
                (s, ControlAction::Nothing)
            }
        },
        ControlEvent::StartFailed => (ControlState { is_recording: false, ..s }, ControlAction::Nothing),
        ControlEvent::TranscriptionStarted => (ControlState { is_transcribing: true, ..s }, ControlAction::Nothing),
        ControlEvent::TranscriptionFinished => (ControlState { is_transcribing: false, ..s }, ControlAction::Nothing),
    }
}

/// What becomes of a stopped recording.
#[derive(Debug, Clone, Copy, PartialEq, Eq, Structural)]
pub enum StopOutcome {
    /// Nothing was recorded.
    NoAudio,
    /// The waveform file could not be written.
    SaveFailed,
    /// The file was written, but no API key is set to transcribe it.
    SavedWithoutKey,
    /// The file was written and goes to the transcription client.
    Transcribe,
}

/// Decides the fate of a stopped recording of `recorded_len` samples, given
/// whether its file was written and whether an API key is set.
pub fn stop_outcome(recorded_len: usize, saved: bool, has_api_key: bool) -> (r: StopOutcome)
    ensures
        r == if recorded_len == 0 {
            StopOutcome::NoAudio
        } else if !saved {
            StopOutcome::SaveFailed
        } else if !has_api_key {
            StopOutcome::SavedWithoutKey
        } else {
            StopOutcome::Transcribe
        },
{
    if recorded_len == 0 {
        StopOutcome::NoAudio
    } else if !saved {
        StopOutcome::SaveFailed
    } else if !has_api_key {
        StopOutcome::SavedWithoutKey
    } else {
        StopOutcome::Transcribe
    }
}

} // verus!
