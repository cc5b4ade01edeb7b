pub mod provider;
pub mod recording;
pub mod recordings;

use vstd::prelude::*;

use self::provider::error::{kind_is_permanent, RecognizeError, RecognizeErrorKind};
use self::recording::{is_ready_to_take, is_recording_ready_to_take, Recording};
use self::recordings::Recordings;
use crate::song::Song;

verus! {

/// How many times a saved recording is retried before it is left alone.
pub const MAX_SAVED_RECORDING_RECOGNIZE_RETRIES: u8 = 3;

/// The state a recognizer shows to the user.
#[derive(Debug, Clone, Copy, PartialEq, Eq, Structural)]
pub enum RecognizerState {
    Null,
    Listening,
    Recognizing,
}

/// Where a recognition stands between two pieces of outside work.
#[derive(Debug, Clone, Copy, PartialEq, Eq, Structural)]
pub enum Phase {
    /// No recognition runs.
    Idle,
    /// The default audio device is being looked up.
    FindingDevice,
    /// The recorder is being started on the device found.
    StartingRecorder,
    /// The recorder runs; `recorded_time` is when it started.
    Recording { recorded_time: i64 },
    /// The recorder is being stopped.
    StoppingRecorder { recorded_time: i64 },
    /// The recording has been handed to the provider.
    Recognizing { recorded_time: i64 },
}

/// What happened outside since the last step.
pub enum FlowEvent {
    /// The user asked to start or to cancel.
    ToggleRequested,
    /// A recognition was asked to start, without cancelling one that runs.
    StartRequested,
    /// The recognition was cancelled.
    Cancelled,
    /// The lookup of the default device ended, with its name or the cause of failure.
    DeviceFound(Result<String, String>),
    /// The recorder started at the given time, or failed with the given cause.
    RecorderStarted(Result<i64, String>),
    /// The provider's listen duration has elapsed.
    ListenElapsed,
    /// The recorder stopped and its bytes are kept, or it failed with the given cause.
    RecorderStopped(Result<(), String>),
    /// The provider answered.
    RecognitionFinished(Result<Song, RecognizeError>),
}

/// Why a recognition failed.
pub enum FlowError {
    /// Outside work failed: what was being done, and the cause.
    Setup { context: &'static str, cause: String },
    /// The provider failed permanently.
    Recognize(RecognizeError),
}

/// How a recognition ended.
pub enum FlowOutcome {
    /// The song was recognized; it carries the time the recording started.
    SongRecognized(Song),
    /// The recording is to be saved for a later try, with the untranslated
    /// message that tells the user when the result will come.
    RecordingSaved { recorded_time: i64, message: &'static str },
    /// The recognition failed.
    Failed(FlowError),
    /// The recognition was cancelled.
    Cancelled,
}

/// What the outside has to do next.
pub enum FlowAction {
    /// Nothing.
    Nothing,
    /// Cancel the recognition that runs.
    Cancel,
    /// Look up the default audio device.
    FindDevice,
    /// Start recording on the named device.
    StartRecording(String),
    /// Wait for the active provider's listen duration.
    WaitListening,
    /// Stop the recorder and keep its bytes.
    StopRecording,
    /// Hand the kept bytes to the active provider.
    Recognize,
    /// Stop the recorder if it still runs, and deliver the outcome.
    Finish(FlowOutcome),
    /// The request is refused with the given message; the recognition
    /// that runs goes on.
    Refused(&'static str),
}

/// The message for a recording saved because of a non-permanent error of `kind`.
pub open spec fn spec_saved_message(kind: RecognizeErrorKind) -> Seq<char> {
    match kind {
        RecognizeErrorKind::Connection => "The result will be available when your connection is restored."@,
        RecognizeErrorKind::TokenLimitReached => "The result will be available when your token limit is reset."@,
        _ => "The result will be available when your token is replaced with a valid one."@,
    }
}

/// The message for a recording saved while offline.
pub open spec fn spec_offline_message() -> Seq<char> {
    "The result will be available when you're back online."@
}

/// The untranslated message for a recording saved because of the
/// non-permanent error `kind`.
pub fn saved_message(kind: RecognizeErrorKind) -> (r: &'static str)
    requires
        !kind_is_permanent(kind),
    ensures
        r@ == spec_saved_message(kind),
{
    match kind {
        RecognizeErrorKind::Connection => "The result will be available when your connection is restored.",
        RecognizeErrorKind::TokenLimitReached => "The result will be available when your token limit is reset.",
        _ => "The result will be available when your token is replaced with a valid one.",
    }
}

/// What to do with a saved recording while the saved recordings are
/// recognized again.
#[derive(Debug, Clone, Copy, PartialEq, Eq, Structural)]
pub enum SavedRecordingStep {
    /// Offline mode is active: the recordings that follow wait too.
    Stop,
    /// Its result is final, or it has been retried too often.
    Skip,
    /// Send it to the provider.
    Recognize,
}

/// The step for one saved recording, the recordings being gone through
/// in order.
pub open spec fn saved_step(is_offline_mode: bool, recording: Recording) -> SavedRecordingStep {
    if is_offline_mode {
        SavedRecordingStep::Stop
    } else if is_ready_to_take(recording) {
        SavedRecordingStep::Skip
    } else if recording.spec_recognize_retries() > MAX_SAVED_RECORDING_RECOGNIZE_RETRIES {
        SavedRecordingStep::Skip
    } else {
        SavedRecordingStep::Recognize
    }
}

/// Decides what to do with `recording` when the saved recordings are
/// recognized again.
pub fn saved_recording_step(is_offline_mode: bool, recording: &Recording) -> (r: SavedRecordingStep)
    ensures
        r == saved_step(is_offline_mode, *recording),
        r == SavedRecordingStep::Recognize ==> recording.spec_recognize_retries() <= MAX_SAVED_RECORDING_RECOGNIZE_RETRIES,
{
    if is_offline_mode {
        // Offline mode is active, cancelled succeeding recognitions
        return SavedRecordingStep::Stop;
    }
    if is_recording_ready_to_take(recording) {
        return SavedRecordingStep::Skip;
    }
    if recording.recognize_retries() > MAX_SAVED_RECORDING_RECOGNIZE_RETRIES {
        return SavedRecordingStep::Skip;
    }
    SavedRecordingStep::Recognize
}

/// Permanent failures are not retried because they are unlikely to be
/// resolved by retrying, a recording recognized as a song is not sent
/// again, and a recording is not sent again once it has been retried more
/// than the maximum count of times.
pub proof fn saved_recordings_are_not_retried_forever(is_offline_mode: bool, recording: Recording)
    ensures
        is_ready_to_take(recording) ==> saved_step(is_offline_mode, recording) != SavedRecordingStep::Recognize,
        recording.spec_recognize_result() matches Some(Err(e)) && kind_is_permanent(e@.0)
            ==> saved_step(is_offline_mode, recording) != SavedRecordingStep::Recognize,
        recording.spec_recognize_retries() > MAX_SAVED_RECORDING_RECOGNIZE_RETRIES
            ==> saved_step(is_offline_mode, recording) != SavedRecordingStep::Recognize,
        is_offline_mode ==> saved_step(is_offline_mode, recording) == SavedRecordingStep::Stop,
{
}

/// Whether the saved recordings are to be recognized again: there are
/// some, and the network is there.
pub fn should_recognize_saved_recordings(saved_recordings: &Recordings, is_offline_mode: bool) -> (r: bool)
    ensures
        r == (saved_recordings@.len() > 0 && !is_offline_mode),
{
    if saved_recordings.is_empty() {
        return false;
    }
    !is_offline_mode
}

/// The decisions of one recognition, from the toggle that starts it to its
/// outcome.
pub struct RecognitionFlow {
    phase: Phase,
    is_offline_mode: bool,
}

/// The user-visible state of each phase.
pub open spec fn state_of(phase: Phase) -> RecognizerState {
    match phase {
        Phase::Idle => RecognizerState::Null,
        Phase::Recognizing { .. } => RecognizerState::Recognizing,
        _ => RecognizerState::Listening,
    }
}

/// Whether one step from `phase`, with offline mode as given, on `event`
/// leads to `next` and asks for `action`.
pub open spec fn steps_to(
    phase: Phase,
    is_offline_mode: bool,
    event: FlowEvent,
    next: Phase,
    action: FlowAction,
) -> bool {
    match (phase, event) {
        (Phase::Idle, FlowEvent::ToggleRequested) => {
            &&& next == Phase::FindingDevice
            &&& action is FindDevice
        },
        (Phase::Idle, FlowEvent::StartRequested) => {
            &&& next == Phase::FindingDevice
            &&& action is FindDevice
        },
        (_, FlowEvent::StartRequested) => {
            &&& next == phase
            &&& action matches FlowAction::Refused(m) && m@ == "Recognizer is not in Null state."@
        },
        (_, FlowEvent::ToggleRequested) => {
            &&& next == phase
            &&& action is Cancel
        },
        (Phase::Idle, _) => {
            &&& next == Phase::Idle
            &&& action is Nothing
        },
        (_, FlowEvent::Cancelled) => {
            &&& next == Phase::Idle
            &&& action matches FlowAction::Finish(FlowOutcome::Cancelled)
        },
        (Phase::FindingDevice, FlowEvent::DeviceFound(Ok(name))) => {
            &&& next == Phase::StartingRecorder
            &&& action matches FlowAction::StartRecording(n) && n == name
        },
        (Phase::FindingDevice, FlowEvent::DeviceFound(Err(cause))) => {
            &&& next == Phase::Idle
            &&& action matches FlowAction::Finish(FlowOutcome::Failed(FlowError::Setup { context, cause: c }))
                && context@ == "Failed to find default device name"@ && c == cause
        },
        (Phase::StartingRecorder, FlowEvent::RecorderStarted(Ok(time))) => {
            &&& next == Phase::Recording { recorded_time: time }
            &&& action is WaitListening
        },
        (Phase::StartingRecorder, FlowEvent::RecorderStarted(Err(cause))) => {
            &&& next == Phase::Idle
            &&& action matches FlowAction::Finish(FlowOutcome::Failed(FlowError::Setup { context, cause: c }))
                && context@ == "Failed to start recording"@ && c == cause
        },
        (Phase::Recording { recorded_time }, FlowEvent::ListenElapsed) => {
            &&& next == Phase::StoppingRecorder { recorded_time }
            &&& action is StopRecording
        },
        (Phase::StoppingRecorder { recorded_time }, FlowEvent::RecorderStopped(Err(cause))) => {
            &&& next == Phase::Idle
            &&& action matches FlowAction::Finish(FlowOutcome::Failed(FlowError::Setup { context, cause: c }))
                && context@ == "Failed to stop recording"@ && c == cause
        },
        (Phase::StoppingRecorder { recorded_time }, FlowEvent::RecorderStopped(Ok(()))) => {
            if is_offline_mode {
                &&& next == Phase::Idle
                &&& action matches FlowAction::Finish(FlowOutcome::RecordingSaved { recorded_time: t, message })
                    && t == recorded_time && message@ == spec_offline_message()
            } else {
                &&& next == Phase::Recognizing { recorded_time }
                &&& action is Recognize
            }
        },
        (Phase::Recognizing { recorded_time }, FlowEvent::RecognitionFinished(Ok(song))) => {
            &&& next == Phase::Idle
            &&& action matches FlowAction::Finish(FlowOutcome::SongRecognized(s))
                && s == Song { last_heard: Some(recorded_time), ..song }
        },
        (Phase::Recognizing { recorded_time }, FlowEvent::RecognitionFinished(Err(err))) => {
            &&& next == Phase::Idle
            &&& if kind_is_permanent(err@.0) {
                action matches FlowAction::Finish(FlowOutcome::Failed(FlowError::Recognize(e))) && e == err
            } else {
                action matches FlowAction::Finish(FlowOutcome::RecordingSaved { recorded_time: t, message })
                    && t == recorded_time && message@ == spec_saved_message(err@.0)
            }
        },
        _ => {
            &&& next == phase
            &&& action is Nothing
        },
    }
}

/// A provider error that may go away (no connection, the token limit
/// reached, an invalid token) never fails the recognition: the recording
/// is saved with the time it started and the message for that error, and
/// the recognizer is idle again. Only the other errors fail it, carrying
/// the error as it came.
pub proof fn passing_errors_save_the_recording(
    recorded_time: i64,
    is_offline_mode: bool,
    err: RecognizeError,
    next: Phase,
    action: FlowAction,
)
    requires
        steps_to(
            Phase::Recognizing { recorded_time },
            is_offline_mode,
            FlowEvent::RecognitionFinished(Err(err)),
            next,
            action,
        ),
    ensures
        next == Phase::Idle,
        err@.0 == RecognizeErrorKind::Connection ==> (action matches FlowAction::Finish(
            FlowOutcome::RecordingSaved { recorded_time: t, message },
        ) && t == recorded_time && message@ == "The result will be available when your connection is restored."@),
        err@.0 == RecognizeErrorKind::TokenLimitReached ==> (action matches FlowAction::Finish(
            FlowOutcome::RecordingSaved { recorded_time: t, message },
        ) && t == recorded_time && message@ == "The result will be available when your token limit is reset."@),
        err@.0 == RecognizeErrorKind::InvalidToken ==> (action matches FlowAction::Finish(
            FlowOutcome::RecordingSaved { recorded_time: t, message },
        ) && t == recorded_time
            && message@ == "The result will be available when your token is replaced with a valid one."@),
        (err@.0 == RecognizeErrorKind::NoMatches || err@.0 == RecognizeErrorKind::Fingerprint || err@.0
            == RecognizeErrorKind::OtherPermanent) ==> (action matches FlowAction::Finish(
            FlowOutcome::Failed(FlowError::Recognize(e)),
        ) && e == err),
{
}

/// Online, a saved recording that has no result yet or failed with an
/// error that may go away, and that has been retried at most the maximum
/// count of times, is sent to the provider again.
pub proof fn unfinished_recordings_are_retried(recording: Recording)
    requires
        recording.spec_recognize_result() is None || (recording.spec_recognize_result() matches Some(Err(e))
            && (e@.0 == RecognizeErrorKind::Connection || e@.0 == RecognizeErrorKind::TokenLimitReached || e@.0
            == RecognizeErrorKind::InvalidToken)),
        recording.spec_recognize_retries() <= MAX_SAVED_RECORDING_RECOGNIZE_RETRIES,
    ensures
        saved_step(false, recording) == SavedRecordingStep::Recognize,
{
}

/// A step delivers an outcome exactly when it ends a running recognition:
/// every outcome leaves the recognizer idle, and a recognition that runs
/// only ends with an outcome.
pub proof fn outcome_exactly_when_ending(
    phase: Phase,
    is_offline_mode: bool,
    event: FlowEvent,
    next: Phase,
    action: FlowAction,
)
    requires
        steps_to(phase, is_offline_mode, event, next, action),
    ensures
        (action is Finish) <==> (phase != Phase::Idle && next == Phase::Idle),
{
}

/// A recognition starts only from idle; a toggle while one runs only asks
/// to cancel it, and a start request while one runs is refused, so that
/// two never run at once.
pub proof fn starts_only_when_idle(
    phase: Phase,
    is_offline_mode: bool,
    event: FlowEvent,
    next: Phase,
    action: FlowAction,
)
    requires
        steps_to(phase, is_offline_mode, event, next, action),
    ensures
        action is FindDevice ==> phase == Phase::Idle,
        phase != Phase::Idle && event is ToggleRequested ==> next == phase && action is Cancel,
        phase != Phase::Idle && event is StartRequested ==> next == phase && action is Refused,
{
}

/// The provider is only asked while online, and the recording is then
/// handed over with the time at which it started.
pub proof fn recognizes_only_online(
    phase: Phase,
    is_offline_mode: bool,
    event: FlowEvent,
    next: Phase,
    action: FlowAction,
)
    requires
        steps_to(phase, is_offline_mode, event, next, action),
    ensures
        action is Recognize ==> !is_offline_mode,
        action is Recognize ==> (phase matches Phase::StoppingRecorder { recorded_time }
            && next == (Phase::Recognizing { recorded_time })),
{
}

impl RecognitionFlow {
    pub closed spec fn spec_phase(self) -> Phase {
        self.phase
    }

    pub closed spec fn spec_is_offline_mode(self) -> bool {
        self.is_offline_mode
    }

    /// No recognition runs yet.
    pub fn new(is_offline_mode: bool) -> (r: Self)
        ensures
            r.spec_phase() == Phase::Idle,
            r.spec_is_offline_mode() == is_offline_mode,
    {
        RecognitionFlow { phase: Phase::Idle, is_offline_mode }
    }

    /// Current state
    pub fn state(&self) -> (r: RecognizerState)
        ensures
            r == state_of(self.spec_phase()),
    {
        match self.phase {
            Phase::Idle => RecognizerState::Null,
            Phase::Recognizing { .. } => RecognizerState::Recognizing,
            _ => RecognizerState::Listening,
        }
    }

    /// Whether offline mode is active
    pub fn is_offline_mode(&self) -> (r: bool)
        ensures
            r == self.spec_is_offline_mode(),
    {
        self.is_offline_mode
    }

    /// Records whether the network is unavailable. Returns whether the
    /// value changed, so that a change can be announced.
    pub fn update_offline_mode(&mut self, is_offline_mode: bool) -> (changed: bool)
        ensures
            final(self).spec_is_offline_mode() == is_offline_mode,
            final(self).spec_phase() == old(self).spec_phase(),
            changed == (old(self).spec_is_offline_mode() != is_offline_mode),
    {
        if is_offline_mode == self.is_offline_mode {
            return false;
        }
        self.is_offline_mode = is_offline_mode;
        true
    }

    /// Advances the recognition by one event, and says what to do next.
    pub fn step(&mut self, event: FlowEvent) -> (action: FlowAction)
        ensures
            final(self).spec_is_offline_mode() == old(self).spec_is_offline_mode(),
            steps_to(old(self).spec_phase(), old(self).spec_is_offline_mode(), event, final(self).spec_phase(), action),
    {
        match (self.phase, event) {
            (Phase::Idle, FlowEvent::ToggleRequested) => {
                self.phase = Phase::FindingDevice;
                FlowAction::FindDevice
            },
            (Phase::Idle, FlowEvent::StartRequested) => {
                self.phase = Phase::FindingDevice;
                FlowAction::FindDevice
            },
            (_, FlowEvent::StartRequested) => FlowAction::Refused("Recognizer is not in Null state."),
            (_, FlowEvent::ToggleRequested) => FlowAction::Cancel,
            (Phase::Idle, _) => FlowAction::Nothing,
            (_, FlowEvent::Cancelled) => {
                self.phase = Phase::Idle;
                FlowAction::Finish(FlowOutcome::Cancelled)
            },
            (Phase::FindingDevice, FlowEvent::DeviceFound(found)) => match found {
                Ok(name) => {
                    self.phase = Phase::StartingRecorder;
                    FlowAction::StartRecording(name)
                },
                Err(cause) => {
                    self.phase = Phase::Idle;
                    FlowAction::Finish(
                        FlowOutcome::Failed(
                            FlowError::Setup { context: "Failed to find default device name", cause },
                        ),
                    )
                },
            },
            (Phase::StartingRecorder, FlowEvent::RecorderStarted(started)) => match started {
                Ok(recorded_time) => {
                    self.phase = Phase::Recording { recorded_time };
                    FlowAction::WaitListening
                },
                Err(cause) => {
                    self.phase = Phase::Idle;
                    FlowAction::Finish(
                        FlowOutcome::Failed(FlowError::Setup { context: "Failed to start recording", cause }),
                    )
                },
            },
            (Phase::Recording { recorded_time }, FlowEvent::ListenElapsed) => {
                self.phase = Phase::StoppingRecorder { recorded_time };
                FlowAction::StopRecording
            },
            (Phase::StoppingRecorder { recorded_time }, FlowEvent::RecorderStopped(stopped)) => match stopped {
                Err(cause) => {
                    self.phase = Phase::Idle;
                    FlowAction::Finish(
                        FlowOutcome::Failed(FlowError::Setup { context: "Failed to stop recording", cause }),
                    )
                },
                Ok(()) => {
                    if self.is_offline_mode {
                        self.phase = Phase::Idle;
                        FlowAction::Finish(
                            FlowOutcome::RecordingSaved {
                                recorded_time,
                                message: "The result will be available when you're back online.",
                            },
                        )
                    } else {
                        self.phase = Phase::Recognizing { recorded_time };
                        FlowAction::Recognize
                    }
                },
            },
            (Phase::Recognizing { recorded_time }, FlowEvent::RecognitionFinished(res)) => {
                self.phase = Phase::Idle;
                match res {
                    Ok(song) => {
                        let mut song = song;
                        song.last_heard = Some(recorded_time);
                        FlowAction::Finish(FlowOutcome::SongRecognized(song))
                    },
                    Err(err) => {
                        if err.is_permanent() {
                            FlowAction::Finish(FlowOutcome::Failed(FlowError::Recognize(err)))
                        } else {
                            let message = saved_message(err.kind());
                            FlowAction::Finish(FlowOutcome::RecordingSaved { recorded_time, message })
                        }
                    },
                }
            },
            _ => FlowAction::Nothing,
        }
    }
}

} // verus!
