//! The pipeline: a recording is transcribed, and the transcript is summarized.
use crate::script::{
    attempt, may, must, outcome_model, require, steps_model, Goal, GoalModel, Script, ScriptModel,
    Step, StepModel,
};
use crate::session::{
    open_for_writing, opened_for_writing, FoundSession, SessionMeta, SessionModel, SessionStatus,
};
use crate::settings::{PublicSettings, SettingsModel};
use crate::task::{publish, published, EventKind, Task, TaskModel};
use crate::text::{
    blank, contains_text, decimal, decimal_text, is_blank, mentions, optional_text,
    signed_decimal, signed_decimal_text, trimmed, trimmed_string,
};
use vstd::prelude::*;

verus! {

/// Which parts of the pipeline run.
#[derive(Clone, Copy, Debug, PartialEq, Eq, Structural)]
pub enum PipelineMode {
    Full,
    TranscriptionOnly,
    SummaryOnly,
}

/// What set the pipeline off.
#[derive(Clone, Copy, Debug, PartialEq, Eq, Structural)]
pub enum PipelineInvocation {
    /// The end of a recording, or the user.
    Run,
    /// The user, once more.
    Retry,
    /// The user, for one part of it.
    Manual,
    /// The worker that goes through the jobs that are due.
    WorkerRetry,
}

/// Who asks for a run of the pipeline.
#[derive(Clone, Copy, Debug, PartialEq, Eq, Structural)]
pub enum PipelineCaller {
    /// The end of a recording, where the settings want it.
    StoppedRecording,
    /// The command to run the pipeline.
    RunCommand,
    /// The command to run it once more.
    RetryCommand,
    /// The command to transcribe a recording.
    TranscriptionCommand,
    /// The command to summarize a transcript.
    SummaryCommand,
    /// The worker that goes through the jobs that are due.
    Worker,
}

impl PipelineCaller {
    /// The run that is asked for.
    pub open spec fn asks_for(self) -> (PipelineInvocation, PipelineMode) {
        match self {
            PipelineCaller::StoppedRecording => (PipelineInvocation::Run, PipelineMode::Full),
            PipelineCaller::RunCommand => (PipelineInvocation::Run, PipelineMode::Full),
            PipelineCaller::RetryCommand => (PipelineInvocation::Retry, PipelineMode::Full),
            PipelineCaller::TranscriptionCommand => (
                PipelineInvocation::Manual,
                PipelineMode::TranscriptionOnly,
            ),
            PipelineCaller::SummaryCommand => (
                PipelineInvocation::Manual,
                PipelineMode::SummaryOnly,
            ),
            PipelineCaller::Worker => (PipelineInvocation::WorkerRetry, PipelineMode::Full),
        }
    }

    /// The run that is asked for.
    pub fn request(self) -> (r: (PipelineInvocation, PipelineMode))
        ensures
            r == self.asks_for(),
    {
        match self {
            PipelineCaller::StoppedRecording => (PipelineInvocation::Run, PipelineMode::Full),
            PipelineCaller::RunCommand => (PipelineInvocation::Run, PipelineMode::Full),
            PipelineCaller::RetryCommand => (PipelineInvocation::Retry, PipelineMode::Full),
            PipelineCaller::TranscriptionCommand => (
                PipelineInvocation::Manual,
                PipelineMode::TranscriptionOnly,
            ),
            PipelineCaller::SummaryCommand => (
                PipelineInvocation::Manual,
                PipelineMode::SummaryOnly,
            ),
            PipelineCaller::Worker => (PipelineInvocation::WorkerRetry, PipelineMode::Full),
        }
    }
}

/// How often a failed run is tried again.
pub const MAX_PIPELINE_RETRY_ATTEMPTS: i64 = 4;

/// How many jobs that are due one pass sees to.
pub const RETRY_JOBS_PER_PASS: usize = 10;

/// The seconds between two passes through the jobs that are due.
pub const RETRY_WORKER_POLL_SECONDS: u64 = 20;

/// Whether a run that failed leaves a job behind: the worker sees to its jobs itself, and a
/// part of the pipeline is only run by hand.
pub open spec fn schedules_retry(invocation: PipelineInvocation) -> bool {
    invocation == PipelineInvocation::Run || invocation == PipelineInvocation::Retry
}

/// Whether a run that failed leaves a job behind.
pub fn should_schedule_retry(invocation: PipelineInvocation) -> (r: bool)
    ensures
        r == schedules_retry(invocation),
{
    match invocation {
        PipelineInvocation::Run | PipelineInvocation::Retry => true,
        PipelineInvocation::Manual | PipelineInvocation::WorkerRetry => false,
    }
}

impl PipelineMode {
    /// Whether the recording is transcribed.
    pub open spec fn transcribes(self) -> bool {
        self != PipelineMode::SummaryOnly
    }

    /// Whether a transcript is summarized.
    pub open spec fn summarizes(self) -> bool {
        self != PipelineMode::TranscriptionOnly
    }
}

/// What a run of the pipeline has to know to go on.
#[derive(Debug)]
pub enum PipelineQuestion {
    /// Is the audio file there?
    AudioFile { file: String },
    /// What are the keys for the two services?
    Keys,
    /// What does the service say is spoken in the audio file?
    Transcription { key: String },
    /// What does the transcript of an earlier run say?
    TranscriptFile { file: String },
    /// How does the service summarize the transcript?
    Summary { key: String, transcript: String },
    /// Is there another attempt for the session, of so many at most, and which one?
    Retry { session_id: String, error: String, max_attempts: i64 },
}

/// What a [`PipelineQuestion`] says.
pub enum QuestionModel {
    AudioFile { file: Seq<char> },
    Keys,
    Transcription { key: Seq<char> },
    TranscriptFile { file: Seq<char> },
    Summary { key: Seq<char>, transcript: Seq<char> },
    Retry { session_id: Seq<char>, error: Seq<char>, max_attempts: i64 },
}

impl View for PipelineQuestion {
    type V = QuestionModel;

    open spec fn view(&self) -> QuestionModel {
        match self {
            PipelineQuestion::AudioFile { file } => QuestionModel::AudioFile { file: file@ },
            PipelineQuestion::Keys => QuestionModel::Keys,
            PipelineQuestion::Transcription { key } => QuestionModel::Transcription { key: key@ },
            PipelineQuestion::TranscriptFile { file } => QuestionModel::TranscriptFile {
                file: file@,
            },
            PipelineQuestion::Summary { key, transcript } => QuestionModel::Summary {
                key: key@,
                transcript: transcript@,
            },
            PipelineQuestion::Retry { session_id, error, max_attempts } => QuestionModel::Retry {
                session_id: session_id@,
                error: error@,
                max_attempts: *max_attempts,
            },
        }
    }
}

/// A run of the pipeline for one session.
#[derive(Debug)]
pub struct PipelineRun {
    pub settings: PublicSettings,
    pub meta: SessionMeta,
    pub invocation: PipelineInvocation,
    pub mode: PipelineMode,
    /// The key of the transcription service, and why it could not be looked up.
    pub nexara_key: String,
    pub nexara_key_error: Option<String>,
    /// The key of the summary service.
    pub openai_key: String,
    /// What the run fails with once a further attempt is seen to.
    pub failure: String,
    pub script: Script<Task, PipelineQuestion, String>,
}

/// What a [`PipelineRun`] says.
pub struct PipelineModel {
    pub settings: SettingsModel,
    pub meta: SessionModel,
    pub invocation: PipelineInvocation,
    pub mode: PipelineMode,
    pub nexara_key: Seq<char>,
    pub nexara_key_error: Option<Seq<char>>,
    pub openai_key: Seq<char>,
    pub failure: Seq<char>,
    pub script: ScriptModel<TaskModel, QuestionModel, Seq<char>>,
}

impl View for PipelineRun {
    type V = PipelineModel;

    open spec fn view(&self) -> PipelineModel {
        PipelineModel {
            settings: self.settings@,
            meta: self.meta@,
            invocation: self.invocation,
            mode: self.mode,
            nexara_key: self.nexara_key@,
            nexara_key_error: optional_text(self.nexara_key_error),
            openai_key: self.openai_key@,
            failure: self.failure@,
            script: self.script@,
        }
    }
}

/// What came of asking for a text.
pub open spec fn answer_model(answer: Result<String, String>) -> Result<Seq<char>, Seq<char>> {
    match answer {
        Ok(t) => Ok(t@),
        Err(e) => Err(e@),
    }
}

/// The error of a transcription, with a word on the key where the service missed it.
pub open spec fn explained_error(
    err: Seq<char>,
    key: Seq<char>,
    key_error: Option<Seq<char>>,
) -> Seq<char> {
    if !mentions(err, "No token specified"@) {
        err
    } else if key_error is Some {
        err + ". keyring lookup error for NEXARA_API_KEY: "@ + key_error->0
    } else if is_blank(key) {
        err + ". NEXARA_API_KEY is empty"@
    } else {
        err
    }
}

/// Adds to the error of a transcription what is known of the key, where the service missed it.
pub fn explain_transcription_error(err: &str, key: &str, key_error: &Option<String>) -> (r: String)
    ensures
        r@ == explained_error(err@, key@, optional_text(*key_error)),
{
    if contains_text(err, "No token specified") {
        match key_error {
            Some(e) => err.to_owned().concat(
                ". keyring lookup error for NEXARA_API_KEY: ",
            ).concat(e.as_str()),
            None => {
                if blank(key) {
                    err.to_owned().concat(". NEXARA_API_KEY is empty")
                } else {
                    err.to_owned()
                }
            },
        }
    } else {
        err.to_owned()
    }
}

/// Marks a session whose audio file is not there, and says so.
pub fn mark_pipeline_audio_missing(meta: &mut SessionMeta) -> (r: String)
    ensures
        final(meta)@ == old(meta)@.with_status(SessionStatus::Failed),
        r@ == "Audio file is missing"@,
{
    meta.status = SessionStatus::Failed;
    "Audio file is missing".to_owned()
}

/// Marks a session that could not be transcribed, and says why.
pub fn mark_pipeline_transcription_failed(meta: &mut SessionMeta, err: &str) -> (r: String)
    ensures
        final(meta)@ == old(meta)@.with_status(SessionStatus::Failed),
        r@ == err@,
{
    meta.status = SessionStatus::Failed;
    err.to_owned()
}

/// Marks a session that could not be summarized, and says why.
pub fn mark_pipeline_summary_failed(meta: &mut SessionMeta, err: &str) -> (r: String)
    ensures
        final(meta)@ == old(meta)@.with_status(SessionStatus::Failed),
        r@ == err@,
{
    meta.status = SessionStatus::Failed;
    err.to_owned()
}

/// Marks a session that has a transcript.
pub fn mark_pipeline_transcribed(meta: &mut SessionMeta)
    ensures
        final(meta)@ == old(meta)@.with_status(SessionStatus::Transcribed),
{
    meta.status = SessionStatus::Transcribed;
}

/// Marks a session that has a transcript and a summary.
pub fn mark_pipeline_done(meta: &mut SessionMeta)
    ensures
        final(meta)@ == old(meta)@.with_status(SessionStatus::Done),
{
    meta.status = SessionStatus::Done;
}

/// The event that says what became of a further attempt.
pub open spec fn retry_event(
    session_id: Seq<char>,
    error: Seq<char>,
    attempt: Option<i64>,
) -> TaskModel {
    match attempt {
        Some(n) => TaskModel::AddEvent {
            session_id,
            kind: EventKind::PipelineRetryScheduled,
            detail: "Attempt "@ + signed_decimal(n as int) + " scheduled due to: "@ + error,
        },
        None => TaskModel::AddEvent {
            session_id,
            kind: EventKind::PipelineRetryExhausted,
            detail: "Retry attempts exhausted"@,
        },
    }
}

/// Says what is logged once it is known whether a session has another attempt, and which one.
pub fn schedule_retry_for_session(session_id: &str, error: &str, attempt: Option<i64>) -> (r: Task)
    ensures
        r@ == retry_event(session_id@, error@, attempt),
{
    match attempt {
        Some(n) => Task::AddEvent {
            session_id: session_id.to_owned(),
            kind: EventKind::PipelineRetryScheduled,
            detail: "Attempt ".to_owned().concat(signed_decimal_text(n).as_str()).concat(
                " scheduled due to: ",
            ).concat(error),
        },
        None => Task::AddEvent {
            session_id: session_id.to_owned(),
            kind: EventKind::PipelineRetryExhausted,
            detail: "Retry attempts exhausted".to_owned(),
        },
    }
}

impl PipelineModel {
    /// A run at its start.
    pub open spec fn starting(
        settings: SettingsModel,
        meta: SessionModel,
        invocation: PipelineInvocation,
        mode: PipelineMode,
    ) -> PipelineModel {
        PipelineModel {
            settings,
            meta,
            invocation,
            mode,
            nexara_key: ""@,
            nexara_key_error: None,
            openai_key: ""@,
            failure: ""@,
            script: ScriptModel::asking(
                Seq::empty(),
                QuestionModel::AudioFile { file: meta.artifacts.audio_file },
            ),
        }
    }

    /// The steps that note a call of a service; none where calls are not to be noted.
    pub open spec fn noted(self, kind: EventKind, detail: Seq<char>) -> Seq<StepModel<TaskModel>> {
        if self.settings.api_call_logging_enabled {
            seq![
                may(TaskModel::AddEvent { session_id: self.meta.session_id, kind, detail }),
                may(TaskModel::AppendApiCall { kind, detail }),
            ]
        } else {
            Seq::empty()
        }
    }

    /// What is noted of the request for a transcription.
    pub open spec fn transcription_request(self) -> Seq<char> {
        "url="@ + trimmed(self.settings.transcription_url) + " task="@ + trimmed(
            self.settings.transcription_task,
        ) + " diarization_setting="@ + trimmed(self.settings.transcription_diarization_setting)
    }

    /// What is noted of the request for a summary.
    pub open spec fn summary_request(self) -> Seq<char> {
        "url="@ + trimmed(self.settings.summary_url) + " model="@ + trimmed(
            self.settings.openai_model,
        ) + " prompt_chars="@ + decimal(trimmed(self.settings.summary_prompt).len())
    }

    /// The run after a failure: the session is marked, `detail` is logged after `before`, and the
    /// run ends with `error`, after a further attempt is asked for where the run is one that
    /// is tried again.
    pub open spec fn failed(
        self,
        before: Seq<StepModel<TaskModel>>,
        detail: Seq<char>,
        error: Seq<char>,
    ) -> PipelineModel {
        let meta = self.meta.with_status(SessionStatus::Failed);
        let steps = before + published(meta, EventKind::PipelineFailed, detail);
        PipelineModel {
            meta,
            failure: error,
            script: if schedules_retry(self.invocation) {
                ScriptModel::asking(
                    steps,
                    QuestionModel::Retry {
                        session_id: meta.session_id,
                        error: detail,
                        max_attempts: MAX_PIPELINE_RETRY_ATTEMPTS,
                    },
                )
            } else {
                ScriptModel::finishing(steps, Err(error))
            },
            ..self
        }
    }

    /// The run that goes on, after `before`, to have `transcript` summarized.
    pub open spec fn requesting_summary(
        self,
        before: Seq<StepModel<TaskModel>>,
        transcript: Seq<char>,
    ) -> PipelineModel {
        PipelineModel {
            script: ScriptModel::asking(
                before + self.noted(EventKind::ApiSummaryRequest, self.summary_request()),
                QuestionModel::Summary { key: self.openai_key, transcript },
            ),
            ..self
        }
    }

    /// The run once it is known whether the audio file is there.
    pub open spec fn after_audio(self, present: bool) -> PipelineModel {
        if present {
            PipelineModel { script: ScriptModel::asking(Seq::empty(), QuestionModel::Keys), ..self }
        } else {
            self.failed(Seq::empty(), "Audio file is missing"@, "Audio file is missing"@)
        }
    }

    /// The run with the keys for the services. A key that cannot be looked up is empty.
    pub open spec fn with_keys(
        self,
        nexara: Result<Seq<char>, Seq<char>>,
        openai: Result<Seq<char>, Seq<char>>,
    ) -> PipelineModel {
        PipelineModel {
            nexara_key: match nexara {
                Ok(k) => k,
                Err(_) => ""@,
            },
            nexara_key_error: match nexara {
                Ok(_) => None,
                Err(e) => Some(e),
            },
            openai_key: match openai {
                Ok(k) => k,
                Err(_) => ""@,
            },
            ..self
        }
    }

    /// The run once the keys are known.
    pub open spec fn after_keys(
        self,
        nexara: Result<Seq<char>, Seq<char>>,
        openai: Result<Seq<char>, Seq<char>>,
    ) -> PipelineModel {
        let run = self.with_keys(nexara, openai);
        PipelineModel {
            script: if run.mode.transcribes() {
                ScriptModel::asking(
                    run.noted(EventKind::ApiTranscriptionRequest, run.transcription_request()),
                    QuestionModel::Transcription { key: run.nexara_key },
                )
            } else {
                ScriptModel::asking(
                    Seq::empty(),
                    QuestionModel::TranscriptFile { file: run.meta.artifacts.transcript_file },
                )
            },
            ..run
        }
    }

    /// The run once the transcription service has answered.
    pub open spec fn after_transcription(
        self,
        answer: Result<Seq<char>, Seq<char>>,
    ) -> PipelineModel {
        match answer {
            Err(err) => {
                let error = explained_error(err, self.nexara_key, self.nexara_key_error);
                self.failed(
                    self.noted(EventKind::ApiTranscriptionError, "error="@ + err),
                    error,
                    error,
                )
            },
            Ok(text) => {
                let run = PipelineModel {
                    meta: self.meta.with_status(SessionStatus::Transcribed),
                    ..self
                };
                let steps = self.noted(
                    EventKind::ApiTranscriptionSuccess,
                    "transcript_chars="@ + decimal(text.len()),
                ) + seq![
                    must(
                        TaskModel::WriteText {
                            file: run.meta.artifacts.transcript_file,
                            text,
                        },
                    ),
                ] + published(run.meta, EventKind::Transcribed, "Transcript created"@);
                if run.mode.summarizes() {
                    run.requesting_summary(steps, text)
                } else {
                    PipelineModel {
                        script: ScriptModel::finishing(steps, Ok("transcribed"@)),
                        ..run
                    }
                }
            },
        }
    }

    /// The run once the transcript of an earlier run was read.
    pub open spec fn after_transcript_file(
        self,
        content: Result<Seq<char>, Seq<char>>,
    ) -> PipelineModel {
        match content {
            Err(_) => PipelineModel {
                script: ScriptModel::finishing(Seq::empty(), Err("Transcript file is missing"@)),
                ..self
            },
            Ok(text) if is_blank(text) => PipelineModel {
                script: ScriptModel::finishing(Seq::empty(), Err("Transcript file is empty"@)),
                ..self
            },
            Ok(text) => self.requesting_summary(Seq::empty(), trimmed(text)),
        }
    }

    /// The run once the summary service has answered.
    pub open spec fn after_summary(self, answer: Result<Seq<char>, Seq<char>>) -> PipelineModel {
        match answer {
            Err(err) => self.failed(
                self.noted(EventKind::ApiSummaryError, "error="@ + err),
                err,
                err,
            ),
            Ok(text) => {
                let run = PipelineModel {
                    meta: self.meta.with_status(SessionStatus::Done),
                    ..self
                };
                let steps = self.noted(
                    EventKind::ApiSummarySuccess,
                    "summary_chars="@ + decimal(text.len()),
                ) + seq![
                    must(TaskModel::WriteText { file: run.meta.artifacts.summary_file, text }),
                ] + published(run.meta, EventKind::PipelineDone, "Summary created"@);
                let cleared = if run.mode == PipelineMode::Full {
                    seq![must(TaskModel::ClearRetryJob { session_id: run.meta.session_id })]
                } else {
                    Seq::empty()
                };
                PipelineModel {
                    script: ScriptModel::finishing(steps + cleared, Ok("done"@)),
                    ..run
                }
            },
        }
    }

    /// The run once it is known whether there is another attempt.
    pub open spec fn after_retry(
        self,
        error: Seq<char>,
        attempt: Result<Option<i64>, Seq<char>>,
    ) -> PipelineModel {
        PipelineModel {
            script: match attempt {
                Err(e) => ScriptModel::finishing(Seq::empty(), Err(e)),
                Ok(a) => ScriptModel::finishing(
                    seq![must(retry_event(self.meta.session_id, error, a))],
                    Err(self.failure),
                ),
            },
            ..self
        }
    }

    /// The run after its first task came to `outcome`.
    pub open spec fn settled(self, outcome: Result<(), Seq<char>>) -> PipelineModel {
        PipelineModel { script: self.script.settled(outcome), ..self }
    }
}

/// What became of scheduling another attempt.
pub open spec fn attempt_model(attempt: Result<Option<i64>, String>) -> Result<
    Option<i64>,
    Seq<char>,
> {
    match attempt {
        Ok(a) => Ok(a),
        Err(e) => Err(e@),
    }
}

impl PipelineRun {
    /// Begins a run for a session, once the settings, the index and the meta file were read. The
    /// first of them that could not be had says why there is no run.
    pub fn open(
        settings: Result<PublicSettings, String>,
        found: Result<Option<FoundSession>, String>,
        meta: Result<SessionMeta, String>,
        invocation: PipelineInvocation,
        mode: PipelineMode,
    ) -> (r: Result<PipelineRun, String>)
        ensures
            match (settings, opened_for_writing(found, meta)) {
                (Err(e), _) => r == Err::<PipelineRun, String>(e),
                (Ok(_), Err(e)) => r is Err && r->Err_0@ == e,
                (Ok(s), Ok(m)) => r is Ok && r->Ok_0@ == PipelineModel::starting(
                    s@,
                    m,
                    invocation,
                    mode,
                ),
            },
    {
        match settings {
            Err(e) => Err(e),
            Ok(settings) => match open_for_writing(found, meta) {
                Err(e) => Err(e),
                Ok(meta) => Ok(PipelineRun::new(settings, meta, invocation, mode)),
            },
        }
    }

    /// Begins a run for a session that is known.
    pub fn new(
        settings: PublicSettings,
        meta: SessionMeta,
        invocation: PipelineInvocation,
        mode: PipelineMode,
    ) -> (r: PipelineRun)
        ensures
            r@ == PipelineModel::starting(settings@, meta@, invocation, mode),
    {
        let steps: Vec<Step<Task>> = Vec::new();
        assert(steps_model(steps@) =~= Seq::<StepModel<TaskModel>>::empty());
        let goal = Goal::Ask(PipelineQuestion::AudioFile { file: meta.artifacts.audio_file.clone() });
        PipelineRun {
            settings,
            meta,
            invocation,
            mode,
            nexara_key: "".to_owned(),
            nexara_key_error: None,
            openai_key: "".to_owned(),
            failure: "".to_owned(),
            script: Script { steps, goal },
        }
    }

    fn note(&self, steps: &mut Vec<Step<Task>>, kind: EventKind, detail: String)
        ensures
            steps_model(final(steps)@) == steps_model(old(steps)@) + self@.noted(kind, detail@),
    {
        if self.settings.api_call_logging_enabled {
            attempt(
                steps,
                Task::AddEvent {
                    session_id: self.meta.session_id.clone(),
                    kind,
                    detail: detail.clone(),
                },
            );
            attempt(steps, Task::AppendApiCall { kind, detail });
        }
        assert(steps_model(steps@) =~= steps_model(old(steps)@) + self@.noted(kind, detail@));
    }

    fn fail(&mut self, before: Vec<Step<Task>>, detail: String, error: String)
        requires
            old(self).meta.status == SessionStatus::Failed,
        ensures
            final(self)@ == old(self)@.failed(steps_model(before@), detail@, error@),
    {
        let mut steps = before;
        publish(&mut steps, &self.meta, EventKind::PipelineFailed, detail.as_str());
        if should_schedule_retry(self.invocation) {
            self.failure = error;
            let session_id = self.meta.session_id.clone();
            self.script = Script {
                steps,
                goal: Goal::Ask(
                    PipelineQuestion::Retry {
                        session_id,
                        error: detail,
                        max_attempts: MAX_PIPELINE_RETRY_ATTEMPTS,
                    },
                ),
            };
        } else {
            self.failure = error.clone();
            self.script = Script { steps, goal: Goal::Finish(Err(error)) };
        }
    }

    fn request_summary(&mut self, before: Vec<Step<Task>>, transcript: String)
        ensures
            final(self)@ == old(self)@.requesting_summary(steps_model(before@), transcript@),
    {
        let mut steps = before;
        let prompt_chars: usize = self.settings.summary_prompt.as_str().trim().unicode_len();
        let detail = "url=".to_owned().concat(self.settings.summary_url.as_str().trim()).concat(
            " model=",
        ).concat(self.settings.openai_model.as_str().trim()).concat(" prompt_chars=").concat(
            decimal_text(prompt_chars as u64).as_str(),
        );
        self.note(&mut steps, EventKind::ApiSummaryRequest, detail);
        let key = self.openai_key.clone();
        self.script = Script { steps, goal: Goal::Ask(PipelineQuestion::Summary { key, transcript }) };
    }

    /// Takes note of what came of the first task of the script.
    pub fn settle(&mut self, outcome: Result<(), String>)
        requires
            old(self).script.steps@.len() > 0,
        ensures
            final(self)@ == old(self)@.settled(outcome_model(outcome)),
    {
        self.script.settle(outcome);
    }

    /// Goes on once it is known whether the audio file is there.
    pub fn audio_checked(&mut self, present: bool)
        requires
            old(self).script.steps@.len() == 0,
            old(self)@.script.goal matches GoalModel::Ask(QuestionModel::AudioFile { .. }),
        ensures
            final(self)@ == old(self)@.after_audio(present),
    {
        let steps: Vec<Step<Task>> = Vec::new();
        assert(steps_model(steps@) =~= Seq::<StepModel<TaskModel>>::empty());
        if present {
            self.script = Script { steps, goal: Goal::Ask(PipelineQuestion::Keys) };
        } else {
            let detail = mark_pipeline_audio_missing(&mut self.meta);
            self.fail(steps, detail.clone(), detail);
        }
    }

    /// Goes on with the keys for the two services.
    pub fn keys_read(&mut self, nexara: Result<String, String>, openai: Result<String, String>)
        requires
            old(self)@.script.awaits(QuestionModel::Keys),
        ensures
            final(self)@ == old(self)@.after_keys(answer_model(nexara), answer_model(openai)),
    {
        match nexara {
            Ok(key) => {
                self.nexara_key = key;
                self.nexara_key_error = None;
            },
            Err(e) => {
                self.nexara_key = "".to_owned();
                self.nexara_key_error = Some(e);
            },
        }
        self.openai_key = match openai {
            Ok(key) => key,
            Err(_) => "".to_owned(),
        };
        let mut steps: Vec<Step<Task>> = Vec::new();
        assert(steps_model(steps@) =~= Seq::<StepModel<TaskModel>>::empty());
        match self.mode {
            PipelineMode::Full | PipelineMode::TranscriptionOnly => {
                let detail = "url=".to_owned().concat(
                    self.settings.transcription_url.as_str().trim(),
                ).concat(" task=").concat(self.settings.transcription_task.as_str().trim()).concat(
                    " diarization_setting=",
                ).concat(self.settings.transcription_diarization_setting.as_str().trim());
                self.note(&mut steps, EventKind::ApiTranscriptionRequest, detail);
                let key = self.nexara_key.clone();
                assert(steps_model(steps@) =~= self@.noted(
                    EventKind::ApiTranscriptionRequest,
                    self@.transcription_request(),
                ));
                self.script = Script {
                    steps,
                    goal: Goal::Ask(PipelineQuestion::Transcription { key }),
                };
            },
            PipelineMode::SummaryOnly => {
                let file = self.meta.artifacts.transcript_file.clone();
                self.script = Script {
                    steps,
                    goal: Goal::Ask(PipelineQuestion::TranscriptFile { file }),
                };
            },
        }
    }

    /// Goes on with the answer of the transcription service.
    pub fn transcribed(&mut self, answer: Result<String, String>)
        requires
            old(self).script.steps@.len() == 0,
            old(self)@.script.goal matches GoalModel::Ask(QuestionModel::Transcription { .. }),
        ensures
            final(self)@ == old(self)@.after_transcription(answer_model(answer)),
    {
        let mut steps: Vec<Step<Task>> = Vec::new();
        assert(steps_model(steps@) =~= Seq::<StepModel<TaskModel>>::empty());
        match answer {
            Err(err) => {
                self.note(
                    &mut steps,
                    EventKind::ApiTranscriptionError,
                    "error=".to_owned().concat(err.as_str()),
                );
                assert(steps_model(steps@) =~= self@.noted(
                    EventKind::ApiTranscriptionError,
                    "error="@ + err@,
                ));
                let error = explain_transcription_error(
                    err.as_str(),
                    self.nexara_key.as_str(),
                    &self.nexara_key_error,
                );
                let detail = mark_pipeline_transcription_failed(&mut self.meta, error.as_str());
                self.fail(steps, detail, error);
            },
            Ok(text) => {
                self.note(
                    &mut steps,
                    EventKind::ApiTranscriptionSuccess,
                    "transcript_chars=".to_owned().concat(
                        decimal_text(text.as_str().unicode_len() as u64).as_str(),
                    ),
                );
                let file = self.meta.artifacts.transcript_file.clone();
                require(&mut steps, Task::WriteText { file, text: text.clone() });
                mark_pipeline_transcribed(&mut self.meta);
                publish(&mut steps, &self.meta, EventKind::Transcribed, "Transcript created");
                assert(steps_model(steps@) =~= old(self)@.noted(
                    EventKind::ApiTranscriptionSuccess,
                    "transcript_chars="@ + decimal(text@.len()),
                ) + seq![
                    must(
                        TaskModel::WriteText {
                            file: self@.meta.artifacts.transcript_file,
                            text: text@,
                        },
                    ),
                ] + published(self@.meta, EventKind::Transcribed, "Transcript created"@));
                match self.mode {
                    PipelineMode::Full | PipelineMode::SummaryOnly => {
                        self.request_summary(steps, text);
                    },
                    PipelineMode::TranscriptionOnly => {
                        self.script = Script {
                            steps,
                            goal: Goal::Finish(Ok("transcribed".to_owned())),
                        };
                    },
                }
            },
        }
    }

    /// Goes on with the transcript of an earlier run.
    pub fn transcript_file_read(&mut self, content: Result<String, String>)
        requires
            old(self).script.steps@.len() == 0,
            old(self)@.script.goal matches GoalModel::Ask(QuestionModel::TranscriptFile { .. }),
        ensures
            final(self)@ == old(self)@.after_transcript_file(answer_model(content)),
    {
        let steps: Vec<Step<Task>> = Vec::new();
        assert(steps_model(steps@) =~= Seq::<StepModel<TaskModel>>::empty());
        match content {
            Err(_) => {
                self.script = Script {
                    steps,
                    goal: Goal::Finish(Err("Transcript file is missing".to_owned())),
                };
            },
            Ok(text) => {
                let transcript = trimmed_string(text.as_str());
                if transcript.as_str().is_empty() {
                    self.script = Script {
                        steps,
                        goal: Goal::Finish(Err("Transcript file is empty".to_owned())),
                    };
                } else {
                    self.request_summary(steps, transcript);
                }
            },
        }
    }

    /// Goes on with the answer of the summary service.
    pub fn summarized(&mut self, answer: Result<String, String>)
        requires
            old(self).script.steps@.len() == 0,
            old(self)@.script.goal matches GoalModel::Ask(QuestionModel::Summary { .. }),
        ensures
            final(self)@ == old(self)@.after_summary(answer_model(answer)),
    {
        let mut steps: Vec<Step<Task>> = Vec::new();
        assert(steps_model(steps@) =~= Seq::<StepModel<TaskModel>>::empty());
        match answer {
            Err(err) => {
                self.note(
                    &mut steps,
                    EventKind::ApiSummaryError,
                    "error=".to_owned().concat(err.as_str()),
                );
                assert(steps_model(steps@) =~= self@.noted(
                    EventKind::ApiSummaryError,
                    "error="@ + err@,
                ));
                let detail = mark_pipeline_summary_failed(&mut self.meta, err.as_str());
                self.fail(steps, detail, err);
            },
            Ok(text) => {
                self.note(
                    &mut steps,
                    EventKind::ApiSummarySuccess,
                    "summary_chars=".to_owned().concat(
                        decimal_text(text.as_str().unicode_len() as u64).as_str(),
                    ),
                );
                let file = self.meta.artifacts.summary_file.clone();
                require(&mut steps, Task::WriteText { file, text });
                mark_pipeline_done(&mut self.meta);
                publish(&mut steps, &self.meta, EventKind::PipelineDone, "Summary created");
                if let PipelineMode::Full = self.mode {
                    let session_id = self.meta.session_id.clone();
                    require(&mut steps, Task::ClearRetryJob { session_id });
                }
                self.script = Script { steps, goal: Goal::Finish(Ok("done".to_owned())) };
                assert(self@.script.steps =~= old(self)@.after_summary(
                    answer_model(answer),
                ).script.steps);
            },
        }
    }

    /// Goes on once it is known whether there is another attempt for the session.
    pub fn retry_answered(&mut self, attempt: Result<Option<i64>, String>)
        requires
            old(self).script.steps@.len() == 0,
            old(self)@.script.goal matches GoalModel::Ask(QuestionModel::Retry { .. }),
        ensures
            final(self)@ == old(self)@.after_retry(
                old(self)@.script.goal->Ask_0->Retry_error,
                attempt_model(attempt),
            ),
    {
        let mut steps: Vec<Step<Task>> = Vec::new();
        assert(steps_model(steps@) =~= Seq::<StepModel<TaskModel>>::empty());
        match attempt {
            Err(e) => {
                self.script = Script { steps, goal: Goal::Finish(Err(e)) };
            },
            Ok(a) => {
                if let Goal::Ask(PipelineQuestion::Retry { error, .. }) = &self.script.goal {
                    require(
                        &mut steps,
                        schedule_retry_for_session(
                            self.meta.session_id.as_str(),
                            error.as_str(),
                            a,
                        ),
                    );
                }
                let failure = self.failure.clone();
                self.script = Script { steps, goal: Goal::Finish(Err(failure)) };
                assert(self@.script.steps =~= old(self)@.after_retry(
                    old(self)@.script.goal->Ask_0->Retry_error,
                    attempt_model(attempt),
                ).script.steps);
            },
        }
    }
}

} // verus!
