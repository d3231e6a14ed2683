//! What holds of a whole run of the pipeline, whatever it meets with.
use crate::pipeline::{
    explained_error, retry_event, schedules_retry, PipelineCaller, PipelineInvocation,
    PipelineMode, PipelineModel, QuestionModel,
};
use crate::script::{
    a_good_goal_is_reached_by_all_the_steps, a_script_that_goes_through_reaches_its_goal,
    after_its_steps_a_script_is_at_its_goal_or_over,
    must, only_tasks_of_the_script_are_carried_out, GoalModel, ScriptModel, StepModel,
};
use crate::session::{SessionModel, SessionStatus};
use crate::settings::SettingsModel;
use crate::task::{published, EventKind, TaskModel};
use crate::text::{decimal, is_blank};
use vstd::prelude::*;

verus! {

/// The answers that a run of the pipeline meets with: what is on disk, what the services say, and
/// what comes of each task.
pub struct PipelineWorld {
    pub audio_present: bool,
    pub nexara: Result<Seq<char>, Seq<char>>,
    pub openai: Result<Seq<char>, Seq<char>>,
    pub transcription: Result<Seq<char>, Seq<char>>,
    pub transcript_file: Result<Seq<char>, Seq<char>>,
    pub summary: Result<Seq<char>, Seq<char>>,
    pub attempt: Result<Option<i64>, Seq<char>>,
    pub task: spec_fn(TaskModel) -> Result<(), Seq<char>>,
}

impl PipelineWorld {
    /// Whether every task succeeds but for the notes of calls, whose failure is passed over.
    pub open spec fn tasks_succeed(self) -> bool {
        forall|t: TaskModel| !is_note(t) ==> (#[trigger] (self.task)(t)) is Ok
    }
}

/// Whether a task notes the call of a service.
pub open spec fn is_note(task: TaskModel) -> bool {
    match task {
        TaskModel::AppendApiCall { .. } => true,
        TaskModel::AddEvent { kind, .. } => match kind {
            EventKind::ApiTranscriptionRequest
            | EventKind::ApiTranscriptionSuccess
            | EventKind::ApiTranscriptionError
            | EventKind::ApiSummaryRequest
            | EventKind::ApiSummarySuccess
            | EventKind::ApiSummaryError => true,
            _ => false,
        },
        _ => false,
    }
}

/// How many questions may still come.
pub open spec fn questions_ahead(goal: GoalModel<QuestionModel, Seq<char>>) -> nat {
    match goal {
        GoalModel::Ask(QuestionModel::AudioFile { .. }) => 5,
        GoalModel::Ask(QuestionModel::Keys) => 4,
        GoalModel::Ask(QuestionModel::Transcription { .. }) => 3,
        GoalModel::Ask(QuestionModel::TranscriptFile { .. }) => 3,
        GoalModel::Ask(QuestionModel::Summary { .. }) => 2,
        GoalModel::Ask(QuestionModel::Retry { .. }) => 1,
        GoalModel::Finish(_) => 0,
    }
}

impl PipelineModel {
    /// The run once the steps ahead are carried out.
    pub open spec fn worked_off(self, world: PipelineWorld) -> PipelineModel {
        PipelineModel { script: self.script.carried_out(world.task), ..self }
    }

    /// The run once its question, if it has one, is answered.
    pub open spec fn answered(self, world: PipelineWorld) -> PipelineModel {
        match self.script.goal {
            GoalModel::Ask(QuestionModel::AudioFile { .. }) => self.after_audio(
                world.audio_present,
            ),
            GoalModel::Ask(QuestionModel::Keys) => self.after_keys(world.nexara, world.openai),
            GoalModel::Ask(QuestionModel::Transcription { .. }) => self.after_transcription(
                world.transcription,
            ),
            GoalModel::Ask(QuestionModel::TranscriptFile { .. }) => self.after_transcript_file(
                world.transcript_file,
            ),
            GoalModel::Ask(QuestionModel::Summary { .. }) => self.after_summary(world.summary),
            GoalModel::Ask(QuestionModel::Retry { error, .. }) => self.after_retry(
                error,
                world.attempt,
            ),
            GoalModel::Finish(_) => self,
        }
    }

    /// The run at its end.
    pub open spec fn at_end(self, world: PipelineWorld) -> PipelineModel
        decreases questions_ahead(self.script.goal),
    {
        let run = self.worked_off(world);
        if run.script.goal is Finish {
            run
        } else {
            proof {
                after_its_steps_a_script_is_at_its_goal_or_over(self.script, world.task);
            }
            run.answered(world).at_end(world)
        }
    }

    /// The tasks that are carried out until the end, in order.
    pub open spec fn performed(self, world: PipelineWorld) -> Seq<TaskModel>
        decreases questions_ahead(self.script.goal),
    {
        let run = self.worked_off(world);
        let tasks = self.script.attempted(world.task);
        if run.script.goal is Finish {
            tasks
        } else {
            proof {
                after_its_steps_a_script_is_at_its_goal_or_over(self.script, world.task);
            }
            tasks + run.answered(world).performed(world)
        }
    }

    /// What the run comes to.
    pub open spec fn result(self, world: PipelineWorld) -> Result<Seq<char>, Seq<char>> {
        self.at_end(world).script.goal->Finish_0
    }
}

/// The tasks of a list of steps.
pub open spec fn tasks_of(steps: Seq<StepModel<TaskModel>>) -> Seq<TaskModel> {
    steps.map_values(|s: StepModel<TaskModel>| s.task)
}

/// Whether no task stands in the way of a run: they all succeed, or the run comes to a good end.
pub open spec fn goes_well(run: PipelineModel, world: PipelineWorld) -> bool {
    world.tasks_succeed() || run.at_end(world).script.goal matches GoalModel::Finish(Ok(_))
}

/// Whether a list of steps depends on no note.
spec fn notes_are_optional(steps: Seq<StepModel<TaskModel>>) -> bool {
    forall|i: int|
        0 <= i < steps.len() && (#[trigger] steps[i]).required ==> !is_note(steps[i].task)
}

/// No stage of a run depends on a note.
proof fn lemma_notes_are_optional(run: PipelineModel, world: PipelineWorld)
    ensures
        notes_are_optional(run.after_audio(world.audio_present).script.steps),
        notes_are_optional(run.after_keys(world.nexara, world.openai).script.steps),
        notes_are_optional(run.after_transcription(world.transcription).script.steps),
        notes_are_optional(run.after_transcript_file(world.transcript_file).script.steps),
        notes_are_optional(run.after_summary(world.summary).script.steps),
{
}

/// One stage of a run that goes well: the steps ahead are all carried out, then the question
/// is answered.
proof fn lemma_stage(run: PipelineModel, world: PipelineWorld)
    requires
        goes_well(run, world),
        notes_are_optional(run.script.steps),
    ensures
        run.script.goal is Finish ==> {
            &&& run.performed(world) == tasks_of(run.script.steps)
            &&& run.at_end(world) == (PipelineModel {
                script: ScriptModel { steps: Seq::empty(), goal: run.script.goal },
                ..run
            })
        },
        run.script.goal is Ask ==> {
            let next = (PipelineModel {
                script: ScriptModel { steps: Seq::empty(), goal: run.script.goal },
                ..run
            }).answered(world);
            &&& run.performed(world) == tasks_of(run.script.steps) + next.performed(world)
            &&& run.at_end(world) == next.at_end(world)
        },
{
    after_its_steps_a_script_is_at_its_goal_or_over(run.script, world.task);
    if !world.tasks_succeed() {
        a_good_goal_is_reached_by_all_the_steps(run.script, world.task);
    }
    a_script_that_goes_through_reaches_its_goal(run.script, world.task);
}

proof fn lemma_tasks_of_concat(a: Seq<StepModel<TaskModel>>, b: Seq<StepModel<TaskModel>>)
    ensures
        tasks_of(a + b) == tasks_of(a) + tasks_of(b),
{
    assert(tasks_of(a + b) =~= tasks_of(a) + tasks_of(b));
}

proof fn lemma_tasks_of_four(
    a: Seq<StepModel<TaskModel>>,
    b: StepModel<TaskModel>,
    c: Seq<StepModel<TaskModel>>,
    d: Seq<StepModel<TaskModel>>,
)
    ensures
        tasks_of(a + seq![b] + c + d) == tasks_of(a) + seq![b.task] + tasks_of(c) + tasks_of(d),
{
    lemma_tasks_of_concat(a + seq![b] + c, d);
    lemma_tasks_of_concat(a + seq![b], c);
    lemma_tasks_of_concat(a, seq![b]);
    assert(tasks_of(seq![b]) =~= seq![b.task]);
}

proof fn lemma_regroup<T>(
    n: Seq<T>,
    a: Seq<T>,
    b: Seq<T>,
    c: Seq<T>,
    d: Seq<T>,
    e: Seq<T>,
    f: Seq<T>,
    g: Seq<T>,
    h: Seq<T>,
)
    ensures
        n + ((a + b + c + d) + (e + f + g + h)) == n + a + b + c + d + e + f + g + h,
{
    assert(n + ((a + b + c + d) + (e + f + g + h)) =~= n + a + b + c + d + e + f + g + h);
}

proof fn lemma_regroup_three<T>(n: Seq<T>, a: Seq<T>, b: Seq<T>, c: Seq<T>)
    ensures
        n + (a + b + c) == n + a + b + c,
{
    assert(n + (a + b + c) =~= n + a + b + c);
}

/// A run that goes well up to the keys for the services.
proof fn lemma_up_to_keys(
    settings: SettingsModel,
    meta: SessionModel,
    invocation: PipelineInvocation,
    mode: PipelineMode,
    world: PipelineWorld,
) -> (keyless: PipelineModel)
    requires
        goes_well(PipelineModel::starting(settings, meta, invocation, mode), world),
        world.audio_present,
    ensures
        ({
            let run = PipelineModel::starting(settings, meta, invocation, mode);
            &&& keyless == (PipelineModel { script: keyless.script, ..run })
            &&& keyless.script == ScriptModel::<TaskModel, QuestionModel, Seq<char>>::asking(
                Seq::empty(),
                QuestionModel::Keys,
            )
            &&& run.performed(world) == keyless.after_keys(world.nexara, world.openai).performed(
                world,
            )
            &&& run.at_end(world) == keyless.after_keys(world.nexara, world.openai).at_end(world)
        }),
{
    let run = PipelineModel::starting(settings, meta, invocation, mode);
    lemma_stage(run, world);
    let keyless = run.after_audio(true);
    lemma_notes_are_optional(run, world);
    lemma_stage(keyless, world);
    let asking = keyless.after_keys(world.nexara, world.openai);
    assert(tasks_of(run.script.steps) + keyless.performed(world) =~= keyless.performed(world));
    assert(tasks_of(keyless.script.steps) + asking.performed(world) =~= asking.performed(world));
    keyless
}

/// A run that goes well up to the answer of the transcription service.
proof fn lemma_up_to_transcription(
    settings: SettingsModel,
    meta: SessionModel,
    invocation: PipelineInvocation,
    mode: PipelineMode,
    world: PipelineWorld,
) -> (asked: PipelineModel)
    requires
        goes_well(PipelineModel::starting(settings, meta, invocation, mode), world),
        world.audio_present,
        mode.transcribes(),
    ensures
        ({
            let run = PipelineModel::starting(settings, meta, invocation, mode);
            let answered = asked.after_transcription(world.transcription);
            &&& asked == (PipelineModel {
                script: asked.script,
                ..run.with_keys(world.nexara, world.openai)
            })
            &&& run.performed(world) == tasks_of(
                run.noted(EventKind::ApiTranscriptionRequest, run.transcription_request()),
            ) + answered.performed(world)
            &&& run.at_end(world) == answered.at_end(world)
        }),
{
    let keyless = lemma_up_to_keys(settings, meta, invocation, mode, world);
    let asking = keyless.after_keys(world.nexara, world.openai);
    lemma_notes_are_optional(keyless, world);
    lemma_stage(asking, world);
    PipelineModel {
        script: ScriptModel { steps: Seq::empty(), goal: asking.script.goal },
        ..asking
    }
}

/// A run for the summary alone that goes well up to the transcript of an earlier run.
proof fn lemma_up_to_transcript_file(
    settings: SettingsModel,
    meta: SessionModel,
    invocation: PipelineInvocation,
    world: PipelineWorld,
) -> (asked: PipelineModel)
    requires
        goes_well(
            PipelineModel::starting(settings, meta, invocation, PipelineMode::SummaryOnly),
            world,
        ),
        world.audio_present,
    ensures
        ({
            let run = PipelineModel::starting(settings, meta, invocation, PipelineMode::SummaryOnly);
            let read = asked.after_transcript_file(world.transcript_file);
            &&& asked == (PipelineModel {
                script: asked.script,
                ..run.with_keys(world.nexara, world.openai)
            })
            &&& run.performed(world) == read.performed(world)
            &&& run.at_end(world) == read.at_end(world)
        }),
{
    let keyless = lemma_up_to_keys(settings, meta, invocation, PipelineMode::SummaryOnly, world);
    let asking = keyless.after_keys(world.nexara, world.openai);
    lemma_notes_are_optional(keyless, world);
    lemma_stage(asking, world);
    let asked = PipelineModel {
        script: ScriptModel { steps: Seq::empty(), goal: asking.script.goal },
        ..asking
    };
    let read = asked.after_transcript_file(world.transcript_file);
    assert(tasks_of(asking.script.steps) + read.performed(world) =~= read.performed(world));
    asked
}

/// A whole run up to the answer of the summary service, where the transcription succeeds.
proof fn lemma_up_to_summary(
    settings: SettingsModel,
    meta: SessionModel,
    invocation: PipelineInvocation,
    world: PipelineWorld,
) -> (asked: PipelineModel)
    requires
        goes_well(
            PipelineModel::starting(settings, meta, invocation, PipelineMode::Full),
            world,
        ),
        world.audio_present,
        world.transcription is Ok,
    ensures
        ({
            let run = PipelineModel::starting(settings, meta, invocation, PipelineMode::Full);
            let transcript = world.transcription->Ok_0;
            let transcribed = meta.with_status(SessionStatus::Transcribed);
            &&& asked.meta == transcribed
            &&& asked.settings == settings
            &&& asked.invocation == invocation
            &&& asked.mode == PipelineMode::Full
            &&& run.performed(world) == tasks_of(
                run.noted(EventKind::ApiTranscriptionRequest, run.transcription_request()),
            ) + ((tasks_of(
                run.noted(
                    EventKind::ApiTranscriptionSuccess,
                    "transcript_chars="@ + decimal(transcript.len()),
                ),
            ) + seq![
                TaskModel::WriteText { file: meta.artifacts.transcript_file, text: transcript },
            ] + tasks_of(published(transcribed, EventKind::Transcribed, "Transcript created"@))
                + tasks_of(run.noted(EventKind::ApiSummaryRequest, run.summary_request())))
                + asked.after_summary(world.summary).performed(world))
            &&& run.at_end(world) == asked.after_summary(world.summary).at_end(world)
        }),
{
    let run = PipelineModel::starting(settings, meta, invocation, PipelineMode::Full);
    let asking = lemma_up_to_transcription(
        settings,
        meta,
        invocation,
        PipelineMode::Full,
        world,
    );
    let transcribed = asking.after_transcription(world.transcription);
    lemma_notes_are_optional(asking, world);
    lemma_stage(transcribed, world);
    let transcript = world.transcription->Ok_0;
    lemma_tasks_of_four(
        run.noted(
            EventKind::ApiTranscriptionSuccess,
            "transcript_chars="@ + decimal(transcript.len()),
        ),
        must(TaskModel::WriteText { file: meta.artifacts.transcript_file, text: transcript }),
        published(
            meta.with_status(SessionStatus::Transcribed),
            EventKind::Transcribed,
            "Transcript created"@,
        ),
        run.noted(EventKind::ApiSummaryRequest, run.summary_request()),
    );
    PipelineModel {
        script: ScriptModel { steps: Seq::empty(), goal: transcribed.script.goal },
        ..transcribed
    }
}

/// The whole pipeline, on a recording that is there and with services that answer: both answers
/// are written to their files, the session ends up done, the job for a further attempt is
/// dropped, and the run comes to `done`.
pub proof fn a_full_run_writes_both_answers(
    settings: SettingsModel,
    meta: SessionModel,
    invocation: PipelineInvocation,
    world: PipelineWorld,
)
    requires
        goes_well(
            PipelineModel::starting(settings, meta, invocation, PipelineMode::Full),
            world,
        ),
        world.audio_present,
        world.transcription is Ok,
        world.summary is Ok,
    ensures
        ({
            let run = PipelineModel::starting(settings, meta, invocation, PipelineMode::Full);
            let transcript = world.transcription->Ok_0;
            let summary = world.summary->Ok_0;
            let transcribed = meta.with_status(SessionStatus::Transcribed);
            let done = meta.with_status(SessionStatus::Done);
            &&& run.performed(world) == tasks_of(
                run.noted(EventKind::ApiTranscriptionRequest, run.transcription_request()),
            ) + tasks_of(
                run.noted(
                    EventKind::ApiTranscriptionSuccess,
                    "transcript_chars="@ + decimal(transcript.len()),
                ),
            ) + seq![
                TaskModel::WriteText { file: meta.artifacts.transcript_file, text: transcript },
            ] + tasks_of(published(transcribed, EventKind::Transcribed, "Transcript created"@))
                + tasks_of(run.noted(EventKind::ApiSummaryRequest, run.summary_request()))
                + tasks_of(
                run.noted(
                    EventKind::ApiSummarySuccess,
                    "summary_chars="@ + decimal(summary.len()),
                ),
            ) + seq![TaskModel::WriteText { file: meta.artifacts.summary_file, text: summary }]
                + tasks_of(published(done, EventKind::PipelineDone, "Summary created"@))
                + seq![TaskModel::ClearRetryJob { session_id: meta.session_id }]
            &&& run.at_end(world).meta == done
            &&& run.result(world) == Ok::<Seq<char>, Seq<char>>("done"@)
        }),
{
    let run = PipelineModel::starting(settings, meta, invocation, PipelineMode::Full);
    let asked = lemma_up_to_summary(settings, meta, invocation, world);
    let summarized = asked.after_summary(world.summary);
    lemma_notes_are_optional(asked, world);
    lemma_stage(summarized, world);
    let transcript = world.transcription->Ok_0;
    let summary = world.summary->Ok_0;
    let done = meta.with_status(SessionStatus::Done);
    lemma_tasks_of_four(
        run.noted(EventKind::ApiSummarySuccess, "summary_chars="@ + decimal(summary.len())),
        must(TaskModel::WriteText { file: meta.artifacts.summary_file, text: summary }),
        published(done, EventKind::PipelineDone, "Summary created"@),
        seq![must(TaskModel::ClearRetryJob { session_id: meta.session_id })],
    );
    assert(tasks_of(seq![must(TaskModel::ClearRetryJob { session_id: meta.session_id })])
        =~= seq![TaskModel::ClearRetryJob { session_id: meta.session_id }]);
    lemma_regroup(
        tasks_of(run.noted(EventKind::ApiTranscriptionRequest, run.transcription_request())),
        tasks_of(
            run.noted(
                EventKind::ApiTranscriptionSuccess,
                "transcript_chars="@ + decimal(transcript.len()),
            ),
        ),
        seq![TaskModel::WriteText { file: meta.artifacts.transcript_file, text: transcript }],
        tasks_of(
            published(
                meta.with_status(SessionStatus::Transcribed),
                EventKind::Transcribed,
                "Transcript created"@,
            ),
        ),
        tasks_of(run.noted(EventKind::ApiSummaryRequest, run.summary_request())),
        tasks_of(
            run.noted(EventKind::ApiSummarySuccess, "summary_chars="@ + decimal(summary.len())),
        ),
        seq![TaskModel::WriteText { file: meta.artifacts.summary_file, text: summary }],
        tasks_of(published(done, EventKind::PipelineDone, "Summary created"@)),
        seq![TaskModel::ClearRetryJob { session_id: meta.session_id }],
    );
}

/// A run for the transcript alone writes that and nothing of a summary: the session ends up
/// transcribed, and the run comes to `transcribed`.
pub proof fn a_transcription_run_writes_the_transcript_only(
    settings: SettingsModel,
    meta: SessionModel,
    invocation: PipelineInvocation,
    world: PipelineWorld,
)
    requires
        goes_well(
            PipelineModel::starting(settings, meta, invocation, PipelineMode::TranscriptionOnly),
            world,
        ),
        world.audio_present,
        world.transcription is Ok,
    ensures
        ({
            let run = PipelineModel::starting(
                settings,
                meta,
                invocation,
                PipelineMode::TranscriptionOnly,
            );
            let transcript = world.transcription->Ok_0;
            let transcribed = meta.with_status(SessionStatus::Transcribed);
            &&& run.performed(world) == tasks_of(
                run.noted(EventKind::ApiTranscriptionRequest, run.transcription_request()),
            ) + tasks_of(
                run.noted(
                    EventKind::ApiTranscriptionSuccess,
                    "transcript_chars="@ + decimal(transcript.len()),
                ),
            ) + seq![
                TaskModel::WriteText { file: meta.artifacts.transcript_file, text: transcript },
            ] + tasks_of(published(transcribed, EventKind::Transcribed, "Transcript created"@))
            &&& run.at_end(world).meta == transcribed
            &&& run.result(world) == Ok::<Seq<char>, Seq<char>>("transcribed"@)
        }),
{
    let run = PipelineModel::starting(
        settings,
        meta,
        invocation,
        PipelineMode::TranscriptionOnly,
    );
    let asking = lemma_up_to_transcription(
        settings,
        meta,
        invocation,
        PipelineMode::TranscriptionOnly,
        world,
    );
    let transcribed = asking.after_transcription(world.transcription);
    lemma_notes_are_optional(asking, world);
    lemma_stage(transcribed, world);
}

/// A run for the summary alone works on the transcript that is there: the summary is written, the
/// transcript is left alone, the session ends up done, and the run comes to `done`.
pub proof fn a_summary_run_works_on_the_transcript_that_is_there(
    settings: SettingsModel,
    meta: SessionModel,
    invocation: PipelineInvocation,
    world: PipelineWorld,
)
    requires
        goes_well(
            PipelineModel::starting(settings, meta, invocation, PipelineMode::SummaryOnly),
            world,
        ),
        world.audio_present,
        world.transcript_file is Ok,
        !is_blank(world.transcript_file->Ok_0),
        world.summary is Ok,
    ensures
        ({
            let run = PipelineModel::starting(settings, meta, invocation, PipelineMode::SummaryOnly);
            let summary = world.summary->Ok_0;
            let done = meta.with_status(SessionStatus::Done);
            &&& run.performed(world) == tasks_of(
                run.noted(EventKind::ApiSummaryRequest, run.summary_request()),
            ) + tasks_of(
                run.noted(
                    EventKind::ApiSummarySuccess,
                    "summary_chars="@ + decimal(summary.len()),
                ),
            ) + seq![TaskModel::WriteText { file: meta.artifacts.summary_file, text: summary }]
                + tasks_of(published(done, EventKind::PipelineDone, "Summary created"@))
            &&& run.at_end(world).meta == done
            &&& run.result(world) == Ok::<Seq<char>, Seq<char>>("done"@)
        }),
{
    let run = PipelineModel::starting(settings, meta, invocation, PipelineMode::SummaryOnly);
    let reading = lemma_up_to_transcript_file(settings, meta, invocation, world);
    let asking = reading.after_transcript_file(world.transcript_file);
    lemma_notes_are_optional(reading, world);
    lemma_stage(asking, world);
    let summarized = asking.after_summary(world.summary);
    lemma_notes_are_optional(asking, world);
    lemma_stage(summarized, world);
    let summary = world.summary->Ok_0;
    let done = meta.with_status(SessionStatus::Done);
    let requested = run.noted(EventKind::ApiSummaryRequest, run.summary_request());
    let answered = run.noted(
        EventKind::ApiSummarySuccess,
        "summary_chars="@ + decimal(summary.len()),
    );
    let written = TaskModel::WriteText { file: meta.artifacts.summary_file, text: summary };
    let made_known = published(done, EventKind::PipelineDone, "Summary created"@);
    lemma_tasks_of_four(answered, must(written), made_known, Seq::empty());
    assert(Seq::<StepModel<TaskModel>>::empty() + requested =~= requested);
    assert(tasks_of(summarized.script.steps) =~= tasks_of(answered) + seq![written] + tasks_of(
        made_known,
    ));
    lemma_regroup_three(
        tasks_of(requested),
        tasks_of(answered),
        seq![written],
        tasks_of(made_known),
    );
}

/// A run for the summary alone that finds no transcript does nothing: no task is carried out, the
/// session stays as it was, and the error says what is wrong with the transcript.
pub proof fn a_summary_run_without_a_transcript_does_nothing(
    settings: SettingsModel,
    meta: SessionModel,
    invocation: PipelineInvocation,
    world: PipelineWorld,
)
    requires
        world.tasks_succeed(),
        world.audio_present,
        world.transcript_file is Err || is_blank(world.transcript_file->Ok_0),
    ensures
        ({
            let run = PipelineModel::starting(settings, meta, invocation, PipelineMode::SummaryOnly);
            &&& run.performed(world) == Seq::<TaskModel>::empty()
            &&& run.at_end(world).meta == meta
            &&& run.result(world) == Err::<Seq<char>, Seq<char>>(
                if world.transcript_file is Err {
                    "Transcript file is missing"@
                } else {
                    "Transcript file is empty"@
                },
            )
        }),
{
    let run = PipelineModel::starting(settings, meta, invocation, PipelineMode::SummaryOnly);
    let reading = lemma_up_to_transcript_file(settings, meta, invocation, world);
    let over = reading.after_transcript_file(world.transcript_file);
    lemma_notes_are_optional(reading, world);
    lemma_stage(over, world);
}

/// What a failed run does about a further attempt.
pub open spec fn retry_tasks(
    meta: SessionModel,
    invocation: PipelineInvocation,
    detail: Seq<char>,
    attempt: Result<Option<i64>, Seq<char>>,
) -> Seq<TaskModel> {
    if schedules_retry(invocation) && attempt is Ok {
        seq![retry_event(meta.session_id, detail, attempt->Ok_0)]
    } else {
        Seq::empty()
    }
}

/// What a failed run comes to: its error, unless arranging a further attempt fails itself.
pub open spec fn failure_result(
    invocation: PipelineInvocation,
    error: Seq<char>,
    attempt: Result<Option<i64>, Seq<char>>,
) -> Result<Seq<char>, Seq<char>> {
    if schedules_retry(invocation) && attempt is Err {
        Err(attempt->Err_0)
    } else {
        Err(error)
    }
}

proof fn lemma_failure(
    run: PipelineModel,
    before: Seq<StepModel<TaskModel>>,
    error: Seq<char>,
    world: PipelineWorld,
)
    requires
        world.tasks_succeed(),
        notes_are_optional(before),
    ensures
        ({
            let failed = run.meta.with_status(SessionStatus::Failed);
            let end = run.failed(before, error, error);
            &&& end.performed(world) == tasks_of(before) + tasks_of(
                published(failed, EventKind::PipelineFailed, error),
            ) + retry_tasks(run.meta, run.invocation, error, world.attempt)
            &&& end.at_end(world).meta == failed
            &&& end.result(world) == failure_result(run.invocation, error, world.attempt)
        }),
{
    let end = run.failed(before, error, error);
    lemma_stage(end, world);
    if schedules_retry(run.invocation) {
        let asked = PipelineModel {
            script: ScriptModel { steps: Seq::empty(), goal: end.script.goal },
            ..end
        };
        lemma_stage(asked.after_retry(error, world.attempt), world);
    }
}

/// A run on a recording whose audio file is not there marks the session as failed, logs that, asks
/// for a further attempt where the run is one that is tried again, and calls no service.
pub proof fn a_run_without_audio_fails_the_session(
    settings: SettingsModel,
    meta: SessionModel,
    invocation: PipelineInvocation,
    mode: PipelineMode,
    world: PipelineWorld,
)
    requires
        world.tasks_succeed(),
        !world.audio_present,
    ensures
        ({
            let run = PipelineModel::starting(settings, meta, invocation, mode);
            let error = "Audio file is missing"@;
            let failed = meta.with_status(SessionStatus::Failed);
            &&& run.performed(world) == tasks_of(
                published(failed, EventKind::PipelineFailed, error),
            ) + retry_tasks(meta, invocation, error, world.attempt)
            &&& run.at_end(world).meta == failed
            &&& run.result(world) == failure_result(invocation, error, world.attempt)
        }),
{
    let run = PipelineModel::starting(settings, meta, invocation, mode);
    lemma_stage(run, world);
    lemma_failure(run, Seq::empty(), "Audio file is missing"@, world);
}

/// A run whose transcription fails marks the session as failed, logs the error, asks for a further
/// attempt where the run is one that is tried again, and writes no file.
pub proof fn a_failed_transcription_fails_the_session(
    settings: SettingsModel,
    meta: SessionModel,
    invocation: PipelineInvocation,
    mode: PipelineMode,
    world: PipelineWorld,
)
    requires
        world.tasks_succeed(),
        world.audio_present,
        mode.transcribes(),
        world.transcription is Err,
    ensures
        ({
            let run = PipelineModel::starting(settings, meta, invocation, mode);
            let keyed = run.with_keys(world.nexara, world.openai);
            let error = explained_error(
                world.transcription->Err_0,
                keyed.nexara_key,
                keyed.nexara_key_error,
            );
            let failed = meta.with_status(SessionStatus::Failed);
            &&& run.performed(world) == tasks_of(
                run.noted(EventKind::ApiTranscriptionRequest, run.transcription_request()),
            ) + tasks_of(
                run.noted(
                    EventKind::ApiTranscriptionError,
                    "error="@ + world.transcription->Err_0,
                ),
            ) + tasks_of(published(failed, EventKind::PipelineFailed, error)) + retry_tasks(
                meta,
                invocation,
                error,
                world.attempt,
            )
            &&& run.at_end(world).meta == failed
            &&& run.result(world) == failure_result(invocation, error, world.attempt)
        }),
{
    let run = PipelineModel::starting(settings, meta, invocation, mode);
    let asked = lemma_up_to_transcription(settings, meta, invocation, mode, world);
    let error = explained_error(
        world.transcription->Err_0,
        asked.nexara_key,
        asked.nexara_key_error,
    );
    let noted = run.noted(
        EventKind::ApiTranscriptionError,
        "error="@ + world.transcription->Err_0,
    );
    lemma_failure(asked, noted, error, world);
    lemma_regroup_three(
        tasks_of(run.noted(EventKind::ApiTranscriptionRequest, run.transcription_request())),
        tasks_of(noted),
        tasks_of(
            published(
                meta.with_status(SessionStatus::Failed),
                EventKind::PipelineFailed,
                error,
            ),
        ),
        retry_tasks(meta, invocation, error, world.attempt),
    );
}

/// A whole run whose summary fails keeps the transcript that was written, marks the session as
/// failed, logs the error, and asks for a further attempt where the run is one that is tried
/// again.
pub proof fn a_failed_summary_keeps_the_transcript(
    settings: SettingsModel,
    meta: SessionModel,
    invocation: PipelineInvocation,
    world: PipelineWorld,
)
    requires
        world.tasks_succeed(),
        world.audio_present,
        world.transcription is Ok,
        world.summary is Err,
    ensures
        ({
            let run = PipelineModel::starting(settings, meta, invocation, PipelineMode::Full);
            let transcript = world.transcription->Ok_0;
            let error = world.summary->Err_0;
            let transcribed = meta.with_status(SessionStatus::Transcribed);
            let failed = meta.with_status(SessionStatus::Failed);
            &&& run.performed(world) == tasks_of(
                run.noted(EventKind::ApiTranscriptionRequest, run.transcription_request()),
            ) + tasks_of(
                run.noted(
                    EventKind::ApiTranscriptionSuccess,
                    "transcript_chars="@ + decimal(transcript.len()),
                ),
            ) + seq![
                TaskModel::WriteText { file: meta.artifacts.transcript_file, text: transcript },
            ] + tasks_of(published(transcribed, EventKind::Transcribed, "Transcript created"@))
                + tasks_of(run.noted(EventKind::ApiSummaryRequest, run.summary_request()))
                + tasks_of(run.noted(EventKind::ApiSummaryError, "error="@ + error)) + tasks_of(
                published(failed, EventKind::PipelineFailed, error),
            ) + retry_tasks(meta, invocation, error, world.attempt)
            &&& run.at_end(world).meta == failed
            &&& run.result(world) == failure_result(invocation, error, world.attempt)
        }),
{
    let run = PipelineModel::starting(settings, meta, invocation, PipelineMode::Full);
    let asked = lemma_up_to_summary(settings, meta, invocation, world);
    let transcript = world.transcription->Ok_0;
    let error = world.summary->Err_0;
    lemma_failure(asked, asked.noted(EventKind::ApiSummaryError, "error="@ + error), error, world);
    lemma_regroup(
        tasks_of(run.noted(EventKind::ApiTranscriptionRequest, run.transcription_request())),
        tasks_of(
            run.noted(
                EventKind::ApiTranscriptionSuccess,
                "transcript_chars="@ + decimal(transcript.len()),
            ),
        ),
        seq![TaskModel::WriteText { file: meta.artifacts.transcript_file, text: transcript }],
        tasks_of(
            published(
                meta.with_status(SessionStatus::Transcribed),
                EventKind::Transcribed,
                "Transcript created"@,
            ),
        ),
        tasks_of(run.noted(EventKind::ApiSummaryRequest, run.summary_request())),
        tasks_of(run.noted(EventKind::ApiSummaryError, "error="@ + error)),
        tasks_of(
            published(
                meta.with_status(SessionStatus::Failed),
                EventKind::PipelineFailed,
                error,
            ),
        ),
        retry_tasks(meta, invocation, error, world.attempt),
        Seq::empty(),
    );
}

proof fn lemma_contains_parts<T>(
    a: Seq<T>,
    x: T,
    b: Seq<T>,
    c: Seq<T>,
    d: Seq<T>,
    y: T,
    e: Seq<T>,
    z: T,
)
    ensures
        (a + seq![x] + b + c + d + seq![y] + e + seq![z]).contains(x),
        (a + seq![x] + b + c + d + seq![y] + e + seq![z]).contains(y),
        (a + seq![x] + b + c + d + seq![y] + e + seq![z]).contains(z),
{
    let all = a + seq![x] + b + c + d + seq![y] + e + seq![z];
    assert(all[a.len() as int] == x);
    assert(all[(a.len() + 1 + b.len() + c.len() + d.len()) as int] == y);
    assert(all[all.len() - 1] == z);
}

/// A run that has failed does not come to a good end.
proof fn lemma_failed_stays_failed(
    run: PipelineModel,
    before: Seq<StepModel<TaskModel>>,
    error: Seq<char>,
    world: PipelineWorld,
)
    ensures
        run.failed(before, error, error).at_end(world).script.goal matches GoalModel::Finish(
            Err(_),
        ),
{
    let end = run.failed(before, error, error);
    after_its_steps_a_script_is_at_its_goal_or_over(end.script, world.task);
    if !(end.worked_off(world).script.goal is Finish) {
        let over = end.worked_off(world).answered(world);
        lemma_finish_is_bad_or_kept(over.script, world.task);
        assert(end.at_end(world) == over.at_end(world));
        assert(over.at_end(world) == over.worked_off(world));
    } else {
        lemma_finish_is_bad_or_kept(end.script, world.task);
        assert(end.at_end(world) == end.worked_off(world));
    }
}

/// A goal that the steps do not lead to is a bad end.
proof fn lemma_finish_is_bad_or_kept<T, Q, R>(
    s: ScriptModel<T, Q, R>,
    answer: spec_fn(T) -> Result<(), Seq<char>>,
)
    ensures
        s.carried_out(answer).goal == s.goal || s.carried_out(answer).goal matches GoalModel::Finish(
            Err(_),
        ),
    decreases s.steps.len(),
{
    if s.steps.len() > 0 {
        let next = s.settled(answer(s.steps.first().task));
        lemma_finish_is_bad_or_kept(next, answer);
        if next.goal != s.goal {
            assert(next.carried_out(answer) == next);
        }
    }
}

proof fn lemma_good_end_has_audio(
    settings: SettingsModel,
    meta: SessionModel,
    invocation: PipelineInvocation,
    mode: PipelineMode,
    world: PipelineWorld,
)
    requires
        PipelineModel::starting(settings, meta, invocation, mode).at_end(
            world,
        ).script.goal matches GoalModel::Finish(Ok(_)),
    ensures
        world.audio_present,
        mode.transcribes() ==> world.transcription is Ok,
{
    let run = PipelineModel::starting(settings, meta, invocation, mode);
    lemma_stage(run, world);
    if !world.audio_present {
        lemma_failed_stays_failed(run, Seq::empty(), "Audio file is missing"@, world);
    }
    if mode.transcribes() && world.transcription is Err {
        let asked = lemma_up_to_transcription(settings, meta, invocation, mode, world);
        let err = world.transcription->Err_0;
        lemma_failed_stays_failed(
            asked,
            asked.noted(EventKind::ApiTranscriptionError, "error="@ + err),
            explained_error(err, asked.nexara_key, asked.nexara_key_error),
            world,
        );
    }
}

proof fn lemma_good_full_end(
    settings: SettingsModel,
    meta: SessionModel,
    invocation: PipelineInvocation,
    world: PipelineWorld,
)
    requires
        PipelineModel::starting(settings, meta, invocation, PipelineMode::Full).at_end(
            world,
        ).script.goal matches GoalModel::Finish(Ok(_)),
    ensures
        world.summary is Ok,
{
    lemma_good_end_has_audio(settings, meta, invocation, PipelineMode::Full, world);
    let waiting = lemma_up_to_summary(settings, meta, invocation, world);
    if world.summary is Err {
        let err = world.summary->Err_0;
        lemma_failed_stays_failed(
            waiting,
            waiting.noted(EventKind::ApiSummaryError, "error="@ + err),
            err,
            world,
        );
    }
}

proof fn lemma_good_summary_end(
    settings: SettingsModel,
    meta: SessionModel,
    invocation: PipelineInvocation,
    world: PipelineWorld,
)
    requires
        PipelineModel::starting(settings, meta, invocation, PipelineMode::SummaryOnly).at_end(
            world,
        ).script.goal matches GoalModel::Finish(Ok(_)),
    ensures
        world.transcript_file is Ok,
        !is_blank(world.transcript_file->Ok_0),
        world.summary is Ok,
{
    let run = PipelineModel::starting(settings, meta, invocation, PipelineMode::SummaryOnly);
    lemma_good_end_has_audio(settings, meta, invocation, PipelineMode::SummaryOnly, world);
    let reading = lemma_up_to_transcript_file(settings, meta, invocation, world);
    let read = reading.after_transcript_file(world.transcript_file);
    lemma_notes_are_optional(reading, world);
    lemma_stage(read, world);
    let waiting = PipelineModel {
        script: ScriptModel { steps: Seq::empty(), goal: read.script.goal },
        ..read
    };
    if world.summary is Err {
        let err = world.summary->Err_0;
        lemma_failed_stays_failed(
            waiting,
            waiting.noted(EventKind::ApiSummaryError, "error="@ + err),
            err,
            world,
        );
    }
}

/// A run comes to a good end only where the audio file was there, every service that it needed
/// answered, and every answer was written: the transcript and the summary stand in their files,
/// the session has the status to match, and the result says which parts were run. This holds
/// whatever comes of the tasks.
pub proof fn a_good_end_means_that_everything_was_done(
    settings: SettingsModel,
    meta: SessionModel,
    invocation: PipelineInvocation,
    mode: PipelineMode,
    world: PipelineWorld,
)
    requires
        PipelineModel::starting(settings, meta, invocation, mode).at_end(
            world,
        ).script.goal matches GoalModel::Finish(Ok(_)),
    ensures
        ({
            let run = PipelineModel::starting(settings, meta, invocation, mode);
            &&& world.audio_present
            &&& mode.transcribes() ==> world.transcription is Ok && run.performed(world).contains(
                TaskModel::WriteText {
                    file: meta.artifacts.transcript_file,
                    text: world.transcription->Ok_0,
                },
            )
            &&& mode.summarizes() ==> world.summary is Ok && run.performed(world).contains(
                TaskModel::WriteText {
                    file: meta.artifacts.summary_file,
                    text: world.summary->Ok_0,
                },
            )
            &&& mode == PipelineMode::Full ==> run.performed(world).contains(
                TaskModel::ClearRetryJob { session_id: meta.session_id },
            )
            &&& run.at_end(world).meta == meta.with_status(
                if mode.summarizes() {
                    SessionStatus::Done
                } else {
                    SessionStatus::Transcribed
                },
            )
            &&& run.result(world) == Ok::<Seq<char>, Seq<char>>(
                if mode.summarizes() {
                    "done"@
                } else {
                    "transcribed"@
                },
            )
        }),
{
    let run = PipelineModel::starting(settings, meta, invocation, mode);
    lemma_good_end_has_audio(settings, meta, invocation, mode, world);
    let transcript = TaskModel::WriteText {
        file: meta.artifacts.transcript_file,
        text: world.transcription->Ok_0,
    };
    match mode {
        PipelineMode::Full => {
            lemma_good_full_end(settings, meta, invocation, world);
            a_full_run_writes_both_answers(settings, meta, invocation, world);
            lemma_contains_parts(
                tasks_of(
                    run.noted(EventKind::ApiTranscriptionRequest, run.transcription_request()),
                ) + tasks_of(
                    run.noted(
                        EventKind::ApiTranscriptionSuccess,
                        "transcript_chars="@ + decimal(world.transcription->Ok_0.len()),
                    ),
                ),
                transcript,
                tasks_of(
                    published(
                        meta.with_status(SessionStatus::Transcribed),
                        EventKind::Transcribed,
                        "Transcript created"@,
                    ),
                ),
                tasks_of(run.noted(EventKind::ApiSummaryRequest, run.summary_request())),
                tasks_of(
                    run.noted(
                        EventKind::ApiSummarySuccess,
                        "summary_chars="@ + decimal(world.summary->Ok_0.len()),
                    ),
                ),
                TaskModel::WriteText {
                    file: meta.artifacts.summary_file,
                    text: world.summary->Ok_0,
                },
                tasks_of(
                    published(
                        meta.with_status(SessionStatus::Done),
                        EventKind::PipelineDone,
                        "Summary created"@,
                    ),
                ),
                TaskModel::ClearRetryJob { session_id: meta.session_id },
            );
        },
        PipelineMode::TranscriptionOnly => {
            a_transcription_run_writes_the_transcript_only(settings, meta, invocation, world);
            let before = tasks_of(
                run.noted(EventKind::ApiTranscriptionRequest, run.transcription_request()),
            ) + tasks_of(
                run.noted(
                    EventKind::ApiTranscriptionSuccess,
                    "transcript_chars="@ + decimal(world.transcription->Ok_0.len()),
                ),
            );
            assert(run.performed(world)[before.len() as int] == transcript);
        },
        PipelineMode::SummaryOnly => {
            lemma_good_summary_end(settings, meta, invocation, world);
            a_summary_run_works_on_the_transcript_that_is_there(settings, meta, invocation, world);
            let before = tasks_of(run.noted(EventKind::ApiSummaryRequest, run.summary_request()))
                + tasks_of(
                run.noted(
                    EventKind::ApiSummarySuccess,
                    "summary_chars="@ + decimal(world.summary->Ok_0.len()),
                ),
            );
            assert(run.performed(world)[before.len() as int] == (TaskModel::WriteText {
                file: meta.artifacts.summary_file,
                text: world.summary->Ok_0,
            }));
        },
    }
}

/// Whether a task leaves everything of the session `meta` as it is but its status.
pub open spec fn keeps_session(task: TaskModel, meta: SessionModel) -> bool {
    match task {
        TaskModel::SaveMeta(m) => m == meta.with_status(m.status),
        TaskModel::UpsertSession(m) => m == meta.with_status(m.status),
        TaskModel::AddEvent { session_id, .. } => session_id == meta.session_id,
        TaskModel::ClearRetryJob { session_id } => session_id == meta.session_id,
        TaskModel::WriteText { file, .. } => {
            file == meta.artifacts.transcript_file || file == meta.artifacts.summary_file
        },
        TaskModel::AppendApiCall { .. } => true,
        _ => false,
    }
}

/// Whether a task has to do with a further attempt.
pub open spec fn is_about_retry(task: TaskModel) -> bool {
    task matches TaskModel::AddEvent { kind, .. } && (kind == EventKind::PipelineRetryScheduled
        || kind == EventKind::PipelineRetryExhausted)
}

spec fn careful(run: PipelineModel, meta: SessionModel) -> bool {
    &&& run.meta == meta.with_status(run.meta.status)
    &&& forall|i: int|
        0 <= i < run.script.steps.len() ==> keeps_session(
            (#[trigger] run.script.steps[i]).task,
            meta,
        )
    &&& !schedules_retry(run.invocation) ==> {
        &&& !(run.script.goal matches GoalModel::Ask(QuestionModel::Retry { .. }))
        &&& forall|i: int|
            0 <= i < run.script.steps.len() ==> !is_about_retry(
                (#[trigger] run.script.steps[i]).task,
            )
    }
}

proof fn lemma_answers_are_careful(run: PipelineModel, meta: SessionModel, world: PipelineWorld)
    requires
        careful(run, meta),
    ensures
        careful(run.answered(world), meta),
        run.answered(world).invocation == run.invocation,
{
}

proof fn lemma_careful(run: PipelineModel, meta: SessionModel, world: PipelineWorld)
    requires
        careful(run, meta),
    ensures
        run.at_end(world).meta == meta.with_status(run.at_end(world).meta.status),
        forall|i: int|
            0 <= i < run.performed(world).len() ==> keeps_session(
                #[trigger] run.performed(world)[i],
                meta,
            ),
        !schedules_retry(run.invocation) ==> forall|i: int|
            0 <= i < run.performed(world).len() ==> !is_about_retry(
                #[trigger] run.performed(world)[i],
            ),
    decreases questions_ahead(run.script.goal),
{
    let worked = run.worked_off(world);
    let tasks = run.script.attempted(world.task);
    only_tasks_of_the_script_are_carried_out(run.script, world.task);
    after_its_steps_a_script_is_at_its_goal_or_over(run.script, world.task);
    assert forall|i: int| 0 <= i < tasks.len() implies tasks[i] == (
    #[trigger] run.script.steps[i]).task by {
        assert(tasks[i] == run.script.tasks()[i]);
    }
    assert forall|i: int| 0 <= i < tasks.len() implies keeps_session(#[trigger] tasks[i], meta) && (
    !schedules_retry(run.invocation) ==> !is_about_retry(tasks[i])) by {
        assert(tasks[i] == run.script.steps[i].task);
    }
    if !(worked.script.goal is Finish) {
        let next = worked.answered(world);
        lemma_answers_are_careful(worked, meta, world);
        lemma_careful(next, meta, world);
        assert(run.performed(world) == tasks + next.performed(world));
        assert forall|i: int| 0 <= i < run.performed(world).len() implies keeps_session(
            #[trigger] run.performed(world)[i],
            meta,
        ) && (!schedules_retry(run.invocation) ==> !is_about_retry(run.performed(world)[i])) by {
            if i < tasks.len() {
                assert(run.performed(world)[i] == tasks[i]);
            } else {
                assert(run.performed(world)[i] == next.performed(world)[i - tasks.len()]);
            }
        }
    }
}

/// A run changes nothing of a session but its status, writes no file but that of the transcript and
/// that of the summary, and logs for no other session. This holds whatever the run meets with.
pub proof fn a_run_changes_the_status_only(
    settings: SettingsModel,
    meta: SessionModel,
    invocation: PipelineInvocation,
    mode: PipelineMode,
    world: PipelineWorld,
)
    ensures
        ({
            let run = PipelineModel::starting(settings, meta, invocation, mode);
            &&& run.at_end(world).meta == meta.with_status(run.at_end(world).meta.status)
            &&& forall|i: int|
                0 <= i < run.performed(world).len() ==> keeps_session(
                    #[trigger] run.performed(world)[i],
                    meta,
                )
        }),
{
    lemma_careful(PipelineModel::starting(settings, meta, invocation, mode), meta, world);
}

/// A run that is not tried again leaves no trace of a further attempt. This holds whatever the run
/// meets with.
pub proof fn a_run_that_is_not_tried_again_leaves_no_attempt(
    settings: SettingsModel,
    meta: SessionModel,
    invocation: PipelineInvocation,
    mode: PipelineMode,
    world: PipelineWorld,
)
    requires
        !schedules_retry(invocation),
    ensures
        ({
            let run = PipelineModel::starting(settings, meta, invocation, mode);
            forall|i: int|
                0 <= i < run.performed(world).len() ==> !is_about_retry(
                    #[trigger] run.performed(world)[i],
                )
        }),
{
    lemma_careful(PipelineModel::starting(settings, meta, invocation, mode), meta, world);
}

impl PipelineModel {
    /// How often a further attempt is arranged until the end.
    pub open spec fn attempts_arranged(self, world: PipelineWorld) -> nat
        decreases questions_ahead(self.script.goal),
    {
        let run = self.worked_off(world);
        if run.script.goal is Finish {
            0
        } else {
            proof {
                after_its_steps_a_script_is_at_its_goal_or_over(self.script, world.task);
            }
            let later = run.answered(world).attempts_arranged(world);
            if run.script.goal matches GoalModel::Ask(QuestionModel::Retry { .. }) {
                later + 1
            } else {
                later
            }
        }
    }
}

proof fn lemma_attempts(run: PipelineModel, meta: SessionModel, world: PipelineWorld)
    requires
        careful(run, meta),
    ensures
        run.attempts_arranged(world) <= 1,
        !schedules_retry(run.invocation) ==> run.attempts_arranged(world) == 0,
    decreases questions_ahead(run.script.goal),
{
    after_its_steps_a_script_is_at_its_goal_or_over(run.script, world.task);
    let worked = run.worked_off(world);
    if !(worked.script.goal is Finish) {
        let next = worked.answered(world);
        lemma_answers_are_careful(worked, meta, world);
        lemma_attempts(next, meta, world);
        if worked.script.goal matches GoalModel::Ask(QuestionModel::Retry { .. }) {
            after_its_steps_a_script_is_at_its_goal_or_over(next.script, world.task);
            assert(next.worked_off(world).script.goal is Finish);
        }
    }
}

/// A run arranges one further attempt at most, and none where it is not one that is tried again.
/// This holds whatever the run meets with.
pub proof fn a_run_arranges_one_attempt_at_most(
    settings: SettingsModel,
    meta: SessionModel,
    invocation: PipelineInvocation,
    mode: PipelineMode,
    world: PipelineWorld,
)
    ensures
        ({
            let run = PipelineModel::starting(settings, meta, invocation, mode);
            &&& run.attempts_arranged(world) <= 1
            &&& !schedules_retry(invocation) ==> run.attempts_arranged(world) == 0
        }),
{
    lemma_attempts(PipelineModel::starting(settings, meta, invocation, mode), meta, world);
}

/// A run that the worker asks for arranges no further attempt itself, so that one that fails counts
/// once: by what the worker does about it.
pub proof fn the_worker_alone_arranges_its_attempts(
    settings: SettingsModel,
    meta: SessionModel,
    world: PipelineWorld,
)
    ensures
        ({
            let (invocation, mode) = PipelineCaller::Worker.asks_for();
            PipelineModel::starting(settings, meta, invocation, mode).attempts_arranged(world) == 0
        }),
{
    let (invocation, mode) = PipelineCaller::Worker.asks_for();
    a_run_arranges_one_attempt_at_most(settings, meta, invocation, mode, world);
}

/// Every run ends.
pub proof fn every_run_ends(run: PipelineModel, world: PipelineWorld)
    ensures
        run.at_end(world).script.goal is Finish,
        run.at_end(world).script.steps.len() == 0,
    decreases questions_ahead(run.script.goal),
{
    after_its_steps_a_script_is_at_its_goal_or_over(run.script, world.task);
    let worked = run.worked_off(world);
    if !(worked.script.goal is Finish) {
        every_run_ends(worked.answered(world), world);
    }
}

} // verus!
