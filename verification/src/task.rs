//! The tasks that commands hand to the surrounding program, and the events that they log.
use crate::pipeline::{PipelineInvocation, PipelineMode};
use crate::script::{must, require, steps_model, Step, StepModel};
use crate::session::{SessionMeta, SessionModel};
use vstd::prelude::*;

verus! {

/// The kinds of entries in the event log of a session.
#[derive(Clone, Copy, Debug, PartialEq, Eq, Structural)]
pub enum EventKind {
    RecordingStarted,
    RecordingStopped,
    SessionDetailsUpdated,
    PipelineFailed,
    Transcribed,
    PipelineDone,
    PipelineRetryScheduled,
    PipelineRetryExhausted,
    PipelineRetrySuccess,
    ApiTranscriptionRequest,
    ApiTranscriptionSuccess,
    ApiTranscriptionError,
    ApiSummaryRequest,
    ApiSummarySuccess,
    ApiSummaryError,
}

impl EventKind {
    /// The word under which the event is logged.
    pub open spec fn text(self) -> Seq<char> {
        match self {
            EventKind::RecordingStarted => "recording_started"@,
            EventKind::RecordingStopped => "recording_stopped"@,
            EventKind::SessionDetailsUpdated => "session_details_updated"@,
            EventKind::PipelineFailed => "pipeline_failed"@,
            EventKind::Transcribed => "transcribed"@,
            EventKind::PipelineDone => "pipeline_done"@,
            EventKind::PipelineRetryScheduled => "pipeline_retry_scheduled"@,
            EventKind::PipelineRetryExhausted => "pipeline_retry_exhausted"@,
            EventKind::PipelineRetrySuccess => "pipeline_retry_success"@,
            EventKind::ApiTranscriptionRequest => "api_transcription_request"@,
            EventKind::ApiTranscriptionSuccess => "api_transcription_success"@,
            EventKind::ApiTranscriptionError => "api_transcription_error"@,
            EventKind::ApiSummaryRequest => "api_summary_request"@,
            EventKind::ApiSummarySuccess => "api_summary_success"@,
            EventKind::ApiSummaryError => "api_summary_error"@,
        }
    }

    /// The word under which the event is logged.
    pub fn name(self) -> (r: &'static str)
        ensures
            r@ == self.text(),
    {
        match self {
            EventKind::RecordingStarted => "recording_started",
            EventKind::RecordingStopped => "recording_stopped",
            EventKind::SessionDetailsUpdated => "session_details_updated",
            EventKind::PipelineFailed => "pipeline_failed",
            EventKind::Transcribed => "transcribed",
            EventKind::PipelineDone => "pipeline_done",
            EventKind::PipelineRetryScheduled => "pipeline_retry_scheduled",
            EventKind::PipelineRetryExhausted => "pipeline_retry_exhausted",
            EventKind::PipelineRetrySuccess => "pipeline_retry_success",
            EventKind::ApiTranscriptionRequest => "api_transcription_request",
            EventKind::ApiTranscriptionSuccess => "api_transcription_success",
            EventKind::ApiTranscriptionError => "api_transcription_error",
            EventKind::ApiSummaryRequest => "api_summary_request",
            EventKind::ApiSummarySuccess => "api_summary_success",
            EventKind::ApiSummaryError => "api_summary_error",
        }
    }
}

/// Something that the surrounding program does for a command.
#[derive(Debug)]
pub enum Task {
    /// Create the directory of the session, below the root of the recordings.
    CreateSessionDir { root: String, relative_dir: String },
    /// Write the meta file of the session.
    SaveMeta(SessionMeta),
    /// Put the session into the index, or bring its entry up to date.
    UpsertSession(SessionMeta),
    /// Log an event of a session.
    AddEvent { session_id: String, kind: EventKind, detail: String },
    /// Add a line to the file of calls in the directory of the session.
    AppendApiCall { kind: EventKind, detail: String },
    /// Write a file in the directory of the session.
    WriteText { file: String, text: String },
    /// Drop the job that would run the pipeline again for a session.
    ClearRetryJob { session_id: String },
    /// Take over the running capture, if there is one; it may be out of reach.
    TakeCapture,
    /// Stop the capture, if there is one, and keep what it recorded.
    StopCapture,
    /// Remove the temporary files of a capture that was stopped.
    CleanUpCapture,
    /// Write an audio file without sound.
    WriteSilence { file: String, sample_rate: u32, bitrate_kbps: u32 },
    /// Show no input levels.
    ResetLevels,
    /// Show in the tray whether a recording runs.
    ShowRecording(bool),
    /// No session is being recorded any more.
    ForgetActiveSession,
    /// Run the pipeline for a session, without waiting for it.
    SpawnPipeline { session_id: String, invocation: PipelineInvocation, mode: PipelineMode },
    /// Remove the directory of the session, with all that is in it.
    RemoveDirectory,
    /// Remove the file that stands in place of the directory of the session.
    RemoveFile,
}

/// What a [`Task`] says.
pub enum TaskModel {
    CreateSessionDir { root: Seq<char>, relative_dir: Seq<char> },
    SaveMeta(SessionModel),
    UpsertSession(SessionModel),
    AddEvent { session_id: Seq<char>, kind: EventKind, detail: Seq<char> },
    AppendApiCall { kind: EventKind, detail: Seq<char> },
    WriteText { file: Seq<char>, text: Seq<char> },
    ClearRetryJob { session_id: Seq<char> },
    TakeCapture,
    StopCapture,
    CleanUpCapture,
    WriteSilence { file: Seq<char>, sample_rate: u32, bitrate_kbps: u32 },
    ResetLevels,
    ShowRecording(bool),
    ForgetActiveSession,
    SpawnPipeline { session_id: Seq<char>, invocation: PipelineInvocation, mode: PipelineMode },
    RemoveDirectory,
    RemoveFile,
}

impl View for Task {
    type V = TaskModel;

    open spec fn view(&self) -> TaskModel {
        match self {
            Task::CreateSessionDir { root, relative_dir } => TaskModel::CreateSessionDir {
                root: root@,
                relative_dir: relative_dir@,
            },
            Task::SaveMeta(m) => TaskModel::SaveMeta(m@),
            Task::UpsertSession(m) => TaskModel::UpsertSession(m@),
            Task::AddEvent { session_id, kind, detail } => TaskModel::AddEvent {
                session_id: session_id@,
                kind: *kind,
                detail: detail@,
            },
            Task::AppendApiCall { kind, detail } => TaskModel::AppendApiCall {
                kind: *kind,
                detail: detail@,
            },
            Task::WriteText { file, text } => TaskModel::WriteText { file: file@, text: text@ },
            Task::ClearRetryJob { session_id } => TaskModel::ClearRetryJob {
                session_id: session_id@,
            },
            Task::TakeCapture => TaskModel::TakeCapture,
            Task::StopCapture => TaskModel::StopCapture,
            Task::CleanUpCapture => TaskModel::CleanUpCapture,
            Task::WriteSilence { file, sample_rate, bitrate_kbps } => TaskModel::WriteSilence {
                file: file@,
                sample_rate: *sample_rate,
                bitrate_kbps: *bitrate_kbps,
            },
            Task::ResetLevels => TaskModel::ResetLevels,
            Task::ShowRecording(on) => TaskModel::ShowRecording(*on),
            Task::ForgetActiveSession => TaskModel::ForgetActiveSession,
            Task::SpawnPipeline { session_id, invocation, mode } => TaskModel::SpawnPipeline {
                session_id: session_id@,
                invocation: *invocation,
                mode: *mode,
            },
            Task::RemoveDirectory => TaskModel::RemoveDirectory,
            Task::RemoveFile => TaskModel::RemoveFile,
        }
    }
}

/// The steps that make a change of a session known: its meta file, its entry in the index and
/// an event.
pub open spec fn published(meta: SessionModel, kind: EventKind, detail: Seq<char>) -> Seq<
    StepModel<TaskModel>,
> {
    seq![
        must(TaskModel::SaveMeta(meta)),
        must(TaskModel::UpsertSession(meta)),
        must(TaskModel::AddEvent { session_id: meta.session_id, kind, detail }),
    ]
}

/// Adds the steps that make a change of a session known.
pub fn publish(steps: &mut Vec<Step<Task>>, meta: &SessionMeta, kind: EventKind, detail: &str)
    ensures
        steps_model(final(steps)@) == steps_model(old(steps)@) + published(meta@, kind, detail@),
{
    require(steps, Task::SaveMeta(meta.clone()));
    require(steps, Task::UpsertSession(meta.clone()));
    require(
        steps,
        Task::AddEvent { session_id: meta.session_id.clone(), kind, detail: detail.to_owned() },
    );
    assert(steps_model(steps@) =~= steps_model(old(steps)@) + published(meta@, kind, detail@));
}

/// Every event has a word of its own, and those of the calls of a service say which service it is
/// and what became of the call.
pub proof fn every_event_has_its_word(kind: EventKind)
    ensures
        kind.text() == match kind {
            EventKind::RecordingStarted => "recording_started"@,
            EventKind::RecordingStopped => "recording_stopped"@,
            EventKind::SessionDetailsUpdated => "session_details_updated"@,
            EventKind::PipelineFailed => "pipeline_failed"@,
            EventKind::Transcribed => "transcribed"@,
            EventKind::PipelineDone => "pipeline_done"@,
            EventKind::PipelineRetryScheduled => "pipeline_retry_scheduled"@,
            EventKind::PipelineRetryExhausted => "pipeline_retry_exhausted"@,
            EventKind::PipelineRetrySuccess => "pipeline_retry_success"@,
            EventKind::ApiTranscriptionRequest => "api_transcription_request"@,
            EventKind::ApiTranscriptionSuccess => "api_transcription_success"@,
            EventKind::ApiTranscriptionError => "api_transcription_error"@,
            EventKind::ApiSummaryRequest => "api_summary_request"@,
            EventKind::ApiSummarySuccess => "api_summary_success"@,
            EventKind::ApiSummaryError => "api_summary_error"@,
        },
{
}

/// To make a change of a session known, its meta file is saved, its entry in the index is brought up
/// to date, and an event of the session is logged, in this order; none of them may fail.
pub proof fn a_change_is_saved_indexed_and_logged(
    meta: SessionModel,
    kind: EventKind,
    detail: Seq<char>,
)
    ensures
        published(meta, kind, detail).map_values(|s: StepModel<TaskModel>| s.task) == seq![
            TaskModel::SaveMeta(meta),
            TaskModel::UpsertSession(meta),
            TaskModel::AddEvent { session_id: meta.session_id, kind, detail },
        ],
        forall|i: int| 0 <= i < 3 ==> (#[trigger] published(meta, kind, detail)[i]).required,
{
    assert(published(meta, kind, detail).map_values(|s: StepModel<TaskModel>| s.task) =~= seq![
        TaskModel::SaveMeta(meta),
        TaskModel::UpsertSession(meta),
        TaskModel::AddEvent { session_id: meta.session_id, kind, detail },
    ]);
}

} // verus!
