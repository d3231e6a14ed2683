//! The course of a run of the pipeline: the tasks and the questions, one after the other.
use crate::pipeline::{
    answer_model, attempt_model, explained_error, schedules_retry, PipelineCaller,
    PipelineInvocation, PipelineMode, PipelineModel, QuestionModel,
};
use crate::pipeline_laws::{is_note, questions_ahead, tasks_of, PipelineWorld};
use crate::script::{
    a_script_that_goes_through_reaches_its_goal, after_its_steps_a_script_is_at_its_goal_or_over,
    does, is_cut_short, lemma_cut_short, lemma_cut_short_after_a_question,
    lemma_cut_short_at_the_end, outcome_model, Act, GoalModel, ScriptModel, StepModel,
};
use crate::session::SessionModel;
use crate::settings::SettingsModel;
use crate::task::{EventKind, TaskModel};
use crate::text::{is_blank, mentions, trimmed};
use vstd::prelude::*;

verus! {

/// What happens in the course of a run.
pub type RunAct = Act<TaskModel, QuestionModel>;

impl PipelineModel {
    /// All that happens until the end of the run, in order.
    pub open spec fn course(self, world: PipelineWorld) -> Seq<Act<TaskModel, QuestionModel>>
        decreases questions_ahead(self.script.goal),
    {
        let run = self.worked_off(world);
        let acts = does::<TaskModel, QuestionModel>(self.script.attempted(world.task));
        match run.script.goal {
            GoalModel::Finish(_) => acts,
            GoalModel::Ask(question) => {
                proof {
                    after_its_steps_a_script_is_at_its_goal_or_over(self.script, world.task);
                }
                acts + seq![Act::Asks(question)] + run.answered(world).course(world)
            },
        }
    }
}

impl PipelineWorld {
    /// The same answers, with every task a success.
    pub open spec fn undisturbed(self) -> PipelineWorld {
        PipelineWorld { task: |t: TaskModel| Ok::<(), Seq<char>>(()), ..self }
    }
}

/// Tells the tasks whose failure ends a run: all but the notes of calls.
pub open spec fn needed_by_a_run() -> spec_fn(TaskModel) -> bool {
    |t: TaskModel| !is_note(t)
}

/// Whether all but the notes are required.
pub open spec fn only_notes_are_optional(steps: Seq<StepModel<TaskModel>>) -> bool {
    forall|i: int|
        0 <= i < steps.len() ==> (#[trigger] steps[i]).required == !is_note(steps[i].task)
}

/// At every stage of a run all but the notes are required.
pub proof fn lemma_only_notes_are_optional(run: PipelineModel, world: PipelineWorld)
    ensures
        only_notes_are_optional(run.after_audio(world.audio_present).script.steps),
        only_notes_are_optional(run.after_keys(world.nexara, world.openai).script.steps),
        only_notes_are_optional(run.after_transcription(world.transcription).script.steps),
        only_notes_are_optional(run.after_transcript_file(world.transcript_file).script.steps),
        only_notes_are_optional(run.after_summary(world.summary).script.steps),
        forall|e: Seq<char>|
            only_notes_are_optional((#[trigger] run.after_retry(e, world.attempt)).script.steps),
{
}

/// One stage of the course, where no step that is required fails.
pub proof fn lemma_course_stage(run: PipelineModel, world: PipelineWorld) -> (asked: PipelineModel)
    requires
        world.tasks_succeed(),
        only_notes_are_optional(run.script.steps),
    ensures
        asked == (PipelineModel {
            script: ScriptModel { steps: Seq::empty(), goal: run.script.goal },
            ..run
        }),
        run.course(world) == does::<TaskModel, QuestionModel>(tasks_of(run.script.steps)) + (
        match run.script.goal {
            GoalModel::Finish(_) => Seq::empty(),
            GoalModel::Ask(question) => seq![Act::Asks(question)] + asked.answered(world).course(
                world,
            ),
        }),
        run.at_end(world) == match run.script.goal {
            GoalModel::Finish(_) => asked,
            GoalModel::Ask(_) => asked.answered(world).at_end(world),
        },
{
    a_script_that_goes_through_reaches_its_goal(run.script, world.task);
    let asked = PipelineModel {
        script: ScriptModel { steps: Seq::empty(), goal: run.script.goal },
        ..run
    };
    let acts = does::<TaskModel, QuestionModel>(tasks_of(run.script.steps));
    match run.script.goal {
        GoalModel::Finish(_) => {
            assert(acts + Seq::empty() =~= acts);
        },
        GoalModel::Ask(question) => {
            let rest = asked.answered(world).course(world);
            assert(acts + seq![Act::Asks(question)] + rest =~= acts + (seq![Act::Asks(question)]
                + rest));
        },
    }
    asked
}

/// From any stage on, a run ends at the first task that is needed and fails.
pub proof fn lemma_disturbed_course(run: PipelineModel, world: PipelineWorld)
    requires
        only_notes_are_optional(run.script.steps),
    ensures
        is_cut_short(
            run.course(world),
            run.result(world),
            run.course(world.undisturbed()),
            run.result(world.undisturbed()),
            needed_by_a_run(),
            world.task,
        ),
    decreases questions_ahead(run.script.goal),
{
    let calm = world.undisturbed();
    let asked = lemma_course_stage(run, calm);
    let nothing = Seq::<Act<TaskModel, QuestionModel>>::empty();
    let rest = match run.script.goal {
        GoalModel::Finish(_) => nothing,
        GoalModel::Ask(question) => seq![Act::Asks(question)] + asked.answered(world).course(world),
    };
    let calm_rest = match run.script.goal {
        GoalModel::Finish(_) => nothing,
        GoalModel::Ask(question) => seq![Act::Asks(question)] + asked.answered(world).course(calm),
    };
    let rest_result = match run.script.goal {
        GoalModel::Finish(r) => r,
        GoalModel::Ask(_) => asked.answered(world).result(world),
    };
    let calm_result = run.result(calm);
    assert(asked.answered(world) == asked.answered(calm));
    match run.script.goal {
        GoalModel::Finish(r) => {
            lemma_cut_short_at_the_end::<TaskModel, QuestionModel, Seq<char>>(
                r,
                needed_by_a_run(),
                world.task,
            );
        },
        GoalModel::Ask(question) => {
            let next = asked.answered(world);
            lemma_only_notes_are_optional(asked, world);
            lemma_disturbed_course(next, world);
            lemma_cut_short_after_a_question(
                question,
                next.course(world),
                rest_result,
                next.course(calm),
                calm_result,
                needed_by_a_run(),
                world.task,
            );
        },
    }
    lemma_cut_short(
        run.script,
        rest,
        rest_result,
        calm_rest,
        calm_result,
        needed_by_a_run(),
        world.task,
    );
    after_its_steps_a_script_is_at_its_goal_or_over(run.script, world.task);
    if run.script.goes_through(world.task) {
        a_script_that_goes_through_reaches_its_goal(run.script, world.task);
        let acts = does::<TaskModel, QuestionModel>(run.script.attempted(world.task));
        match run.script.goal {
            GoalModel::Finish(_) => {
                assert(acts + rest =~= acts);
            },
            GoalModel::Ask(question) => {
                let tail = asked.answered(world).course(world);
                assert(acts + seq![Act::Asks(question)] + tail =~= acts + rest);
            },
        }
    }
}

/// The notes of calls aside, a run goes on until a task fails: that is the last thing to happen,
/// and the run comes to its error. Up to there, or where no such task fails, everything happens as
/// if every task succeeded.
pub proof fn a_run_ends_at_the_first_task_that_fails(
    settings: SettingsModel,
    meta: SessionModel,
    invocation: PipelineInvocation,
    mode: PipelineMode,
    world: PipelineWorld,
)
    ensures
        ({
            let run = PipelineModel::starting(settings, meta, invocation, mode);
            is_cut_short(
                run.course(world),
                run.result(world),
                run.course(world.undisturbed()),
                run.result(world.undisturbed()),
                |t: TaskModel|
                    match t {
                        TaskModel::AppendApiCall { .. } => false,
                        TaskModel::AddEvent { kind, .. } => !(kind
                            == EventKind::ApiTranscriptionRequest || kind
                            == EventKind::ApiTranscriptionSuccess || kind
                            == EventKind::ApiTranscriptionError || kind
                            == EventKind::ApiSummaryRequest || kind == EventKind::ApiSummarySuccess
                            || kind == EventKind::ApiSummaryError),
                        _ => true,
                    },
                world.task,
            )
        }),
{
    let run = PipelineModel::starting(settings, meta, invocation, mode);
    lemma_disturbed_course(run, world);
    assert(needed_by_a_run() =~= (|t: TaskModel|
        match t {
            TaskModel::AppendApiCall { .. } => false,
            TaskModel::AddEvent { kind, .. } => !(kind == EventKind::ApiTranscriptionRequest || kind
                == EventKind::ApiTranscriptionSuccess || kind == EventKind::ApiTranscriptionError
                || kind == EventKind::ApiSummaryRequest || kind == EventKind::ApiSummarySuccess
                || kind == EventKind::ApiSummaryError),
            _ => true,
        }));
}

/// Whether a run is one of a session, with the keys that were found.
pub open spec fn is_keyed(
    run: PipelineModel,
    settings: SettingsModel,
    meta: SessionModel,
    invocation: PipelineInvocation,
    mode: PipelineMode,
    world: PipelineWorld,
) -> bool {
    &&& run.settings == settings
    &&& run.meta == (SessionModel { status: run.meta.status, ..meta })
    &&& run.invocation == invocation
    &&& run.mode == mode
    &&& run.nexara_key == match world.nexara {
        Ok(key) => key,
        Err(_) => ""@,
    }
    &&& run.nexara_key_error == match world.nexara {
        Ok(_) => None,
        Err(e) => Some(e),
    }
    &&& run.openai_key == match world.openai {
        Ok(key) => key,
        Err(_) => ""@,
    }
}

/// Whether a question of a run is the right one to ask.
spec fn fits(
    question: QuestionModel,
    meta: SessionModel,
    invocation: PipelineInvocation,
    mode: PipelineMode,
    world: PipelineWorld,
) -> bool {
    match question {
        QuestionModel::AudioFile { file } => file == meta.artifacts.audio_file,
        QuestionModel::Keys => true,
        QuestionModel::Transcription { key } => {
            &&& mode != PipelineMode::SummaryOnly
            &&& key == match world.nexara {
                Ok(key) => key,
                Err(_) => ""@,
            }
        },
        QuestionModel::TranscriptFile { file } => {
            &&& mode == PipelineMode::SummaryOnly
            &&& file == meta.artifacts.transcript_file
        },
        QuestionModel::Summary { key, transcript } => {
            &&& mode != PipelineMode::TranscriptionOnly
            &&& key == match world.openai {
                Ok(key) => key,
                Err(_) => ""@,
            }
            &&& mode == PipelineMode::Full ==> world.transcription == Ok::<Seq<char>, Seq<char>>(
                transcript,
            )
            &&& mode == PipelineMode::SummaryOnly ==> {
                &&& world.transcript_file is Ok
                &&& transcript == trimmed(world.transcript_file->Ok_0)
                &&& transcript.len() > 0
            }
        },
        QuestionModel::Retry { session_id, max_attempts, .. } => {
            &&& invocation == PipelineInvocation::Run || invocation == PipelineInvocation::Retry
            &&& session_id == meta.session_id
            &&& max_attempts == 4
        },
    }
}

proof fn lemma_fits(
    run: PipelineModel,
    settings: SettingsModel,
    meta: SessionModel,
    invocation: PipelineInvocation,
    mode: PipelineMode,
    world: PipelineWorld,
)
    requires
        match run.script.goal {
            GoalModel::Ask(QuestionModel::AudioFile { .. })
            | GoalModel::Ask(QuestionModel::Keys) => {
                &&& run.settings == settings
                &&& run.meta == meta
                &&& run.invocation == invocation
                &&& run.mode == mode
            },
            GoalModel::Ask(QuestionModel::Retry { .. }) => run.meta.session_id == meta.session_id,
            _ => is_keyed(run, settings, meta, invocation, mode, world),
        },
        run.script.goal matches GoalModel::Ask(q) ==> fits(q, meta, invocation, mode, world),
    ensures
        ({
            let course = run.course(world);
            forall|i: int|
                0 <= i < course.len() ==> match #[trigger] course[i] {
                    Act::Asks(q) => fits(q, meta, invocation, mode, world),
                    Act::Does(_) => true,
                }
        }),
    decreases questions_ahead(run.script.goal),
{
    after_its_steps_a_script_is_at_its_goal_or_over(run.script, world.task);
    let asked = run.worked_off(world);
    let course = run.course(world);
    let acts = does::<TaskModel, QuestionModel>(run.script.attempted(world.task));
    if let GoalModel::Ask(q) = asked.script.goal {
        let next = asked.answered(world);
        if let GoalModel::Ask(_) = next.script.goal {
            lemma_fits(next, settings, meta, invocation, mode, world);
        } else {
            after_its_steps_a_script_is_at_its_goal_or_over(next.script, world.task);
        }
        let rest = next.course(world);
        assert forall|i: int| 0 <= i < course.len() implies match #[trigger] course[i] {
            Act::Asks(q) => fits(q, meta, invocation, mode, world),
            Act::Does(_) => true,
        } by {
            if i < acts.len() {
                assert(course[i] == acts[i]);
            } else if i == acts.len() {
                assert(course[i] == Act::<TaskModel, QuestionModel>::Asks(q));
            } else {
                assert(course[i] == rest[i - acts.len() - 1]);
            }
        }
    }
}

/// Whatever a run meets with, each question carries what belongs to it. The transcription service
/// is called with its own key and the summary service with its own; a key that could not be read is
/// empty. What is to be summarized is, in a whole run, the very text that the transcription
/// service answered with, and in a run for the summary alone the trimmed text of the transcript
/// file of the session, which is not blank. A further attempt is asked for the session itself, of
/// which there are four at most, and only by runs that are tried again.
pub proof fn each_question_carries_what_belongs_to_it(
    settings: SettingsModel,
    meta: SessionModel,
    invocation: PipelineInvocation,
    mode: PipelineMode,
    world: PipelineWorld,
    i: int,
)
    requires
        0 <= i < PipelineModel::starting(settings, meta, invocation, mode).course(world).len(),
    ensures
        match PipelineModel::starting(settings, meta, invocation, mode).course(world)[i] {
            Act::Does(_) => true,
            Act::Asks(QuestionModel::AudioFile { file }) => file == meta.artifacts.audio_file,
            Act::Asks(QuestionModel::Keys) => true,
            Act::Asks(QuestionModel::Transcription { key }) => {
                &&& mode != PipelineMode::SummaryOnly
                &&& key == match world.nexara {
                    Ok(key) => key,
                    Err(_) => ""@,
                }
            },
            Act::Asks(QuestionModel::TranscriptFile { file }) => {
                &&& mode == PipelineMode::SummaryOnly
                &&& file == meta.artifacts.transcript_file
            },
            Act::Asks(QuestionModel::Summary { key, transcript }) => {
                &&& mode != PipelineMode::TranscriptionOnly
                &&& key == match world.openai {
                    Ok(key) => key,
                    Err(_) => ""@,
                }
                &&& mode == PipelineMode::Full ==> world.transcription == Ok::<
                    Seq<char>,
                    Seq<char>,
                >(transcript)
                &&& mode == PipelineMode::SummaryOnly ==> {
                    &&& world.transcript_file is Ok
                    &&& transcript == trimmed(world.transcript_file->Ok_0)
                    &&& transcript.len() > 0
                }
            },
            Act::Asks(QuestionModel::Retry { session_id, max_attempts, .. }) => {
                &&& invocation == PipelineInvocation::Run || invocation == PipelineInvocation::Retry
                &&& session_id == meta.session_id
                &&& max_attempts == 4
            },
        },
{
    let run = PipelineModel::starting(settings, meta, invocation, mode);
    lemma_fits(run, settings, meta, invocation, mode, world);
    let act = run.course(world)[i];
    assert(act matches Act::Asks(q) ==> fits(q, meta, invocation, mode, world));
}

/// The whole pipeline is run at the end of a recording, by the command for that, by the command to
/// run it once more and by the worker; its parts have a command each. A failed run leaves a job
/// behind where it was asked for by the end of a recording, or by one of the two commands for the
/// whole pipeline.
pub proof fn every_caller_gets_its_run(caller: PipelineCaller)
    ensures
        caller.asks_for() == match caller {
            PipelineCaller::StoppedRecording => (PipelineInvocation::Run, PipelineMode::Full),
            PipelineCaller::RunCommand => (PipelineInvocation::Run, PipelineMode::Full),
            PipelineCaller::RetryCommand => (PipelineInvocation::Retry, PipelineMode::Full),
            PipelineCaller::TranscriptionCommand => (
                PipelineInvocation::Manual,
                PipelineMode::TranscriptionOnly,
            ),
            PipelineCaller::SummaryCommand => (
                PipelineInvocation::Manual,
                PipelineMode::SummaryOnly,
            ),
            PipelineCaller::Worker => (PipelineInvocation::WorkerRetry, PipelineMode::Full),
        },
        schedules_retry(caller.asks_for().0) <==> caller == PipelineCaller::StoppedRecording
            || caller == PipelineCaller::RunCommand || caller == PipelineCaller::RetryCommand,
{
}

/// Answers are taken as they are: a text, the number of an attempt, and the words of an error.
pub proof fn answers_are_taken_as_they_are(
    answer: Result<String, String>,
    attempt: Result<Option<i64>, String>,
    outcome: Result<(), String>,
)
    ensures
        answer_model(answer) == match answer {
            Ok(text) => Ok::<Seq<char>, Seq<char>>(text@),
            Err(e) => Err::<Seq<char>, Seq<char>>(e@),
        },
        attempt_model(attempt) == match attempt {
            Ok(n) => Ok::<Option<i64>, Seq<char>>(n),
            Err(e) => Err::<Option<i64>, Seq<char>>(e@),
        },
        outcome_model(outcome) == match outcome {
            Ok(_) => Ok::<(), Seq<char>>(()),
            Err(e) => Err::<(), Seq<char>>(e@),
        },
{
}

/// An error of a transcription is told as the service gave it, unless the service missed its key:
/// then it is added why the key could not be read or, where it could, that it is blank.
pub proof fn an_error_is_explained_by_the_key(
    err: Seq<char>,
    key: Seq<char>,
    key_error: Option<Seq<char>>,
)
    ensures
        !mentions(err, "No token specified"@) ==> explained_error(err, key, key_error) == err,
        mentions(err, "No token specified"@) ==> match key_error {
            Some(e) => explained_error(err, key, key_error) == err
                + ". keyring lookup error for NEXARA_API_KEY: "@ + e,
            None => if is_blank(key) {
                explained_error(err, key, key_error) == err + ". NEXARA_API_KEY is empty"@
            } else {
                explained_error(err, key, key_error) == err
            },
        },
{
}

} // verus!
