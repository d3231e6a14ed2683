//! What is seen of the values that go to and fro: each as it is, field by field.
use crate::catalog::{
    files_model, reply_model, CatalogEntry, DeleteQuestion, DeleteQuestionModel, DeleteSession,
    SessionFiles, SessionListItem,
};
use crate::details::{shown_details, DetailsModel, SessionMetaView, UpdateSessionDetailsRequest};
use crate::levels::{LevelQuestion, LevelQuestionModel, LevelRound};
use crate::pipeline::{PipelineQuestion, PipelineRun, QuestionModel};
use crate::recording::{
    source_model, StartQuestion, StartQuestionModel, StartRecording, StartRecordingRequest, Started,
    StopQuestion, StopQuestionModel, StopRecording,
};
use crate::retry::{jobs_model, RetryPass, RetryQuestion, RetryQuestionModel};
use crate::script::{Goal, GoalModel, Script};
use crate::session::{opened_meta, FoundSession, SessionMeta};
use crate::settings::PublicSettings;
use crate::task::{Task, TaskModel};
use crate::text::{optional_text, texts};
use crate::ui_sync::UiSyncState;
use vstd::prelude::*;

verus! {

/// A list of strings says its texts in their order, and an optional string its text.
pub proof fn strings_say_their_texts(list: Vec<String>, text: Option<String>, i: int)
    ensures
        texts(list@).len() == list@.len(),
        0 <= i < list@.len() ==> texts(list@)[i] == list@[i]@,
        optional_text(text) == match text {
            Some(t) => Some(t@),
            None => None,
        },
{
}

/// A script says its steps in their order, each with its task and whether that is required, and its
/// goal.
pub proof fn a_script_says_its_steps_and_its_goal<T: View, Q: View, R: View>(
    script: Script<T, Q, R>,
    i: int,
)
    ensures
        script@.steps.len() == script.steps@.len(),
        0 <= i < script.steps@.len() ==> script@.steps[i].task == script.steps@[i].task@
            && script@.steps[i].required == script.steps@[i].required,
        match script.goal {
            Goal::Ask(q) => script@.goal == GoalModel::<Q::V, R::V>::Ask(q@),
            Goal::Finish(Ok(r)) => script@.goal == GoalModel::<Q::V, R::V>::Finish(Ok(r@)),
            Goal::Finish(Err(e)) => script@.goal == GoalModel::<Q::V, R::V>::Finish(Err(e@)),
        },
{
}

/// A task says what it carries.
pub proof fn a_task_says_what_it_carries(task: Task)
    ensures
        task@ == match task {
            Task::CreateSessionDir { root, relative_dir } => TaskModel::CreateSessionDir {
                root: root@,
                relative_dir: relative_dir@,
            },
            Task::SaveMeta(meta) => TaskModel::SaveMeta(meta@),
            Task::UpsertSession(meta) => TaskModel::UpsertSession(meta@),
            Task::AddEvent { session_id, kind, detail } => TaskModel::AddEvent {
                session_id: session_id@,
                kind,
                detail: detail@,
            },
            Task::AppendApiCall { kind, detail } => TaskModel::AppendApiCall {
                kind,
                detail: detail@,
            },
            Task::WriteText { file, text } => TaskModel::WriteText { file: file@, text: text@ },
            Task::ClearRetryJob { session_id } => TaskModel::ClearRetryJob {
                session_id: session_id@,
            },
            Task::TakeCapture => TaskModel::TakeCapture,
            Task::StopCapture => TaskModel::StopCapture,
            Task::CleanUpCapture => TaskModel::CleanUpCapture,
            Task::WriteSilence { file, sample_rate, bitrate_kbps } => TaskModel::WriteSilence {
                file: file@,
                sample_rate,
                bitrate_kbps,
            },
            Task::ResetLevels => TaskModel::ResetLevels,
            Task::ShowRecording(on) => TaskModel::ShowRecording(on),
            Task::ForgetActiveSession => TaskModel::ForgetActiveSession,
            Task::SpawnPipeline { session_id, invocation, mode } => TaskModel::SpawnPipeline {
                session_id: session_id@,
                invocation,
                mode,
            },
            Task::RemoveDirectory => TaskModel::RemoveDirectory,
            Task::RemoveFile => TaskModel::RemoveFile,
        },
{
}

/// A question of a run of the pipeline, or of a pass of the worker, says what it carries.
pub proof fn a_question_of_a_run_says_what_it_carries(run: PipelineQuestion, pass: RetryQuestion)
    ensures
        run@ == match run {
            PipelineQuestion::AudioFile { file } => QuestionModel::AudioFile { file: file@ },
            PipelineQuestion::Keys => QuestionModel::Keys,
            PipelineQuestion::Transcription { key } => QuestionModel::Transcription { key: key@ },
            PipelineQuestion::TranscriptFile { file } => QuestionModel::TranscriptFile {
                file: file@,
            },
            PipelineQuestion::Summary { key, transcript } => QuestionModel::Summary {
                key: key@,
                transcript: transcript@,
            },
            PipelineQuestion::Retry { session_id, error, max_attempts } => QuestionModel::Retry {
                session_id: session_id@,
                error: error@,
                max_attempts,
            },
        },
        pass@ == match pass {
            RetryQuestion::DueJobs { now_epoch, limit } => RetryQuestionModel::DueJobs {
                now_epoch,
                limit,
            },
            RetryQuestion::RunPipeline {
                session_id,
                invocation,
                mode,
            } => RetryQuestionModel::RunPipeline { session_id: session_id@, invocation, mode },
            RetryQuestion::Retry { session_id, error, max_attempts } => RetryQuestionModel::Retry {
                session_id: session_id@,
                error: error@,
                max_attempts,
            },
        },
{
}

/// A question of a start, of a stop, of a deletion or of a look at the levels says what it carries.
pub proof fn a_question_of_a_command_says_what_it_carries(
    start: StartQuestion,
    stop: StopQuestion,
    deletion: DeleteQuestion,
    look: LevelQuestion,
)
    ensures
        start@ == match start {
            StartQuestion::Settings => StartQuestionModel::Settings,
            StartQuestion::SystemSource => StartQuestionModel::SystemSource,
            StartQuestion::Capture { mic, system } => StartQuestionModel::Capture {
                mic: optional_text(mic),
                system: optional_text(system),
            },
        },
        stop@ == match stop {
            StopQuestion::Settings => StopQuestionModel::Settings,
            StopQuestion::CaptureRuns => StopQuestionModel::CaptureRuns,
            StopQuestion::MixAudio { file, bitrate_kbps } => StopQuestionModel::MixAudio {
                file: file@,
                bitrate_kbps,
            },
        },
        deletion@ == match deletion {
            DeleteQuestion::SessionDir { session_id } => DeleteQuestionModel::SessionDir {
                session_id: session_id@,
            },
            DeleteQuestion::DeleteEntry { session_id } => DeleteQuestionModel::DeleteEntry {
                session_id: session_id@,
            },
        },
        look@ == match look {
            LevelQuestion::Settings => LevelQuestionModel::Settings,
            LevelQuestion::Probe { mic, system } => LevelQuestionModel::Probe {
                mic: optional_text(mic),
                system: optional_text(system),
            },
        },
{
}

/// A session says each of its fields.
pub proof fn a_session_says_its_fields(meta: SessionMeta)
    ensures
        meta@.session_id == meta.session_id@,
        meta@.primary_tag == meta.primary_tag@,
        meta@.tags == texts(meta.tags@),
        meta@.topic == meta.topic@,
        meta@.participants == texts(meta.participants@),
        meta@.started_at_iso == meta.started_at_iso@,
        meta@.ended_at_iso == optional_text(meta.ended_at_iso),
        meta@.status == meta.status,
        meta@.artifacts.audio_file == meta.artifacts.audio_file@,
        meta@.artifacts.transcript_file == meta.artifacts.transcript_file@,
        meta@.artifacts.summary_file == meta.artifacts.summary_file@,
        meta@.artifacts.meta_file == meta.artifacts.meta_file@,
{
}

/// The settings say each of their fields.
pub proof fn settings_say_their_fields(settings: PublicSettings)
    ensures
        settings@.recording_root == settings.recording_root@,
        settings@.transcription_url == settings.transcription_url@,
        settings@.transcription_task == settings.transcription_task@,
        settings@.transcription_diarization_setting == settings.transcription_diarization_setting@,
        settings@.summary_url == settings.summary_url@,
        settings@.summary_prompt == settings.summary_prompt@,
        settings@.openai_model == settings.openai_model@,
        settings@.opus_bitrate_kbps == settings.opus_bitrate_kbps,
        settings@.mic_device_name == settings.mic_device_name@,
        settings@.system_device_name == settings.system_device_name@,
        settings@.auto_run_pipeline_on_stop == settings.auto_run_pipeline_on_stop,
        settings@.api_call_logging_enabled == settings.api_call_logging_enabled,
{
}

/// A request for a recording, the recording that runs and the form say each of their fields.
pub proof fn a_recording_says_its_fields(
    request: StartRecordingRequest,
    started: Started,
    form: UiSyncState,
)
    ensures
        request@.tags == texts(request.tags@),
        request@.topic == request.topic@,
        request@.participants == texts(request.participants@),
        started@.meta == started.meta@,
        started@.root == started.root@,
        started@.relative_dir == started.relative_dir@,
        started@.ui.source == started.ui.source@,
        started@.ui.topic == started.ui.topic@,
        form@.source == form.source@,
        form@.topic == form.topic@,
{
}

/// The details of a session say each of their fields, whether they are shown or wanted.
pub proof fn details_say_their_fields(shown: SessionMetaView, wanted: UpdateSessionDetailsRequest)
    ensures
        shown@.session_id == shown.session_id@,
        shown@.source == shown.source@,
        shown@.custom_tag == shown.custom_tag@,
        shown@.topic == shown.topic@,
        shown@.participants == texts(shown.participants@),
        wanted@.session_id == wanted.session_id@,
        wanted@.source == wanted.source@,
        wanted@.custom_tag == wanted.custom_tag@,
        wanted@.topic == wanted.topic@,
        wanted@.participants == texts(wanted.participants@),
{
}

/// An item of the list and the files of a session say each of their fields.
pub proof fn a_listed_session_says_its_fields(item: SessionListItem, files: SessionFiles)
    ensures
        item@.session_id == item.session_id@,
        item@.status == item.status@,
        item@.session_dir == item.session_dir@,
        item@.audio_duration_hms == item.audio_duration_hms@,
        item@.has_transcript_text == item.has_transcript_text,
        item@.has_summary_text == item.has_summary_text,
        files@.meta == files.meta@,
        files@.transcript == optional_text(files.transcript),
        files@.summary == optional_text(files.summary),
        files_model(Some(files)) == Some(files@),
        files_model(None) is None,
{
}

/// What is answered about jobs, devices and the index is taken as it is.
pub proof fn replies_are_taken_as_they_are(
    jobs: Result<Vec<String>, String>,
    source: Result<Option<String>, String>,
    entry: Result<Option<CatalogEntry>, String>,
    deleted: Result<bool, String>,
)
    ensures
        jobs_model(jobs) == match jobs {
            Ok(list) => Ok::<Seq<Seq<char>>, Seq<char>>(texts(list@)),
            Err(e) => Err::<Seq<Seq<char>>, Seq<char>>(e@),
        },
        source_model(source) == match source {
            Ok(name) => Ok::<Option<Seq<char>>, Seq<char>>(optional_text(name)),
            Err(e) => Err::<Option<Seq<char>>, Seq<char>>(e@),
        },
        reply_model(entry) == match entry {
            Ok(place) => Ok::<Option<CatalogEntry>, Seq<char>>(place),
            Err(e) => Err::<Option<CatalogEntry>, Seq<char>>(e@),
        },
        reply_model(deleted) == match deleted {
            Ok(known) => Ok::<bool, Seq<char>>(known),
            Err(e) => Err::<bool, Seq<char>>(e@),
        },
{
}

/// The details that are asked for are those of the session that is opened, or what went wrong with
/// that.
pub proof fn details_are_those_of_the_session(
    found: Result<Option<FoundSession>, String>,
    meta: Result<SessionMeta, String>,
)
    ensures
        match opened_meta(found, meta) {
            Ok(m) => shown_details(found, meta) == Ok::<DetailsModel, Seq<char>>(m.details()),
            Err(e) => shown_details(found, meta) == Err::<DetailsModel, Seq<char>>(e),
        },
{
}

/// A command under way says its script.
pub proof fn a_command_says_its_script(
    run: PipelineRun,
    pass: RetryPass,
    start: StartRecording,
    stop: StopRecording,
    deletion: DeleteSession,
    look: LevelRound,
)
    ensures
        run@.script == run.script@,
        pass@.script == pass.script@,
        start@.script == start.script@,
        stop@.script == stop.script@,
        stop@.root == stop.root@,
        stop@.relative_dir == stop.relative_dir@,
        deletion@.script == deletion.script@,
        look@ == look.script@,
{
}

} // verus!
