//! What the switch for the log of calls changes in a run of the pipeline, and what it does not.
use crate::pipeline::{
    explained_error, retry_event, PipelineInvocation, PipelineMode, PipelineModel, QuestionModel,
};
use crate::pipeline_laws::{
    a_full_run_writes_both_answers, goes_well, is_note, questions_ahead, tasks_of, PipelineWorld,
};
use crate::script::{
    after_its_steps_a_script_is_at_its_goal_or_over, does, must, Act, GoalModel, ScriptModel,
    StepModel,
};
use crate::session::{SessionModel, SessionStatus};
use crate::settings::SettingsModel;
use crate::task::{published, EventKind, TaskModel};
use crate::text::{decimal, trimmed};
use vstd::prelude::*;

verus! {

/// Tells the tasks that note no call.
pub open spec fn notes_nothing() -> spec_fn(TaskModel) -> bool {
    |t: TaskModel| !is_note(t)
}

/// Tells the tasks that note a call.
pub open spec fn notes_a_call() -> spec_fn(TaskModel) -> bool {
    |t: TaskModel| is_note(t)
}

/// The settings with the log of calls on or off.
pub open spec fn with_logging(settings: SettingsModel, on: bool) -> SettingsModel {
    SettingsModel { api_call_logging_enabled: on, ..settings }
}

spec fn quiet(steps: Seq<StepModel<TaskModel>>) -> Seq<StepModel<TaskModel>> {
    steps.filter(|s: StepModel<TaskModel>| !is_note(s.task))
}

/// Whether `off` is `on` without the log of calls: it lacks the steps that note a call, none of
/// which the run depends on.
spec fn same_but_for_notes(on: PipelineModel, off: PipelineModel) -> bool {
    &&& on.settings.api_call_logging_enabled
    &&& off == (PipelineModel {
        settings: with_logging(on.settings, false),
        script: ScriptModel { steps: quiet(on.script.steps), goal: on.script.goal },
        ..on
    })
    &&& forall|i: int|
        0 <= i < on.script.steps.len() && (#[trigger] on.script.steps[i]).required ==> !is_note(
            on.script.steps[i].task,
        )
}

proof fn lemma_quiet_parts(a: Seq<StepModel<TaskModel>>, b: Seq<StepModel<TaskModel>>)
    ensures
        quiet(a + b) == quiet(a) + quiet(b),
{
    Seq::filter_distributes_over_add(a, b, |s: StepModel<TaskModel>| !is_note(s.task));
}

proof fn lemma_quiet_one(x: StepModel<TaskModel>)
    ensures
        quiet(seq![x]) == if is_note(x.task) {
            Seq::<StepModel<TaskModel>>::empty()
        } else {
            seq![x]
        },
        quiet(Seq::<StepModel<TaskModel>>::empty()) == Seq::<StepModel<TaskModel>>::empty(),
{
    reveal(Seq::filter);
    let none = Seq::<StepModel<TaskModel>>::empty();
    assert(quiet(none) =~= none);
    assert(seq![x].drop_last() =~= none);
    assert(none.push(x) =~= seq![x]);
}

proof fn lemma_quiet_published(meta: SessionModel, kind: EventKind, detail: Seq<char>)
    requires
        !is_note(TaskModel::AddEvent { session_id: meta.session_id, kind, detail }),
    ensures
        quiet(published(meta, kind, detail)) == published(meta, kind, detail),
{
    let p = published(meta, kind, detail);
    lemma_quiet_one(p[0]);
    lemma_quiet_one(p[1]);
    lemma_quiet_one(p[2]);
    lemma_quiet_parts(seq![p[0]], seq![p[1]]);
    lemma_quiet_parts(seq![p[0]] + seq![p[1]], seq![p[2]]);
    assert(p =~= seq![p[0]] + seq![p[1]] + seq![p[2]]);
}

proof fn lemma_quiet_noted(run: PipelineModel, kind: EventKind, detail: Seq<char>)
    requires
        is_note(TaskModel::AddEvent { session_id: run.meta.session_id, kind, detail }),
    ensures
        quiet(run.noted(kind, detail)) == Seq::<StepModel<TaskModel>>::empty(),
{
    let n = run.noted(kind, detail);
    if run.settings.api_call_logging_enabled {
        lemma_quiet_one(n[0]);
        lemma_quiet_one(n[1]);
        lemma_quiet_parts(seq![n[0]], seq![n[1]]);
        assert(n =~= seq![n[0]] + seq![n[1]]);
        assert(quiet(n) =~= Seq::<StepModel<TaskModel>>::empty());
    } else {
        lemma_quiet_one(
            StepModel {
                task: TaskModel::AddEvent { session_id: run.meta.session_id, kind, detail },
                required: false,
            },
        );
    }
}

/// Carrying out the steps without the notes leads to the same goal, by the same other tasks.
proof fn lemma_carried_out<Q, R>(
    s: ScriptModel<TaskModel, Q, R>,
    answer: spec_fn(TaskModel) -> Result<(), Seq<char>>,
)
    requires
        forall|i: int|
            0 <= i < s.steps.len() && (#[trigger] s.steps[i]).required ==> !is_note(
                s.steps[i].task,
            ),
    ensures
        ({
            let q = ScriptModel::<TaskModel, Q, R> { steps: quiet(s.steps), goal: s.goal };
            &&& q.carried_out(answer) == s.carried_out(answer)
            &&& q.attempted(answer) == s.attempted(answer).filter(notes_nothing())
        }),
    decreases s.steps.len(),
{
    let q = ScriptModel::<TaskModel, Q, R> { steps: quiet(s.steps), goal: s.goal };
    let none = Seq::<TaskModel>::empty();
    if s.steps.len() == 0 {
        reveal(Seq::filter);
        assert(q.steps =~= s.steps);
        assert(none.filter(notes_nothing()) =~= none);
    } else {
        let x = s.steps.first();
        let rest = s.steps.drop_first();
        assert(s.steps[0] == x);
        assert(s.steps =~= seq![x] + rest);
        lemma_quiet_parts(seq![x], rest);
        lemma_quiet_one(x);
        let next = s.settled(answer(x.task));
        let tail = next.attempted(answer);
        assert(seq![x.task].filter(notes_nothing()) == if is_note(x.task) {
            none
        } else {
            seq![x.task]
        }) by {
            reveal(Seq::filter);
            assert(seq![x.task].drop_last() =~= none);
            assert(none.filter(notes_nothing()) =~= none);
            assert(none.push(x.task) =~= seq![x.task]);
        }
        Seq::filter_distributes_over_add(seq![x.task], tail, notes_nothing());
        if x.required && answer(x.task) is Err {
            assert(q.steps.first() == x);
            assert(q.settled(answer(x.task)) == next);
            assert(tail =~= none);
            reveal(Seq::filter);
            assert(tail.filter(notes_nothing()) =~= none);
        } else {
            assert(next.steps == rest);
            assert forall|i: int|
                0 <= i < next.steps.len() && (#[trigger] next.steps[i]).required implies !is_note(
                next.steps[i].task,
            ) by {
                assert(next.steps[i] == s.steps[i + 1]);
            }
            lemma_carried_out(next, answer);
            let quiet_next = ScriptModel::<TaskModel, Q, R> {
                steps: quiet(next.steps),
                goal: next.goal,
            };
            if is_note(x.task) {
                assert(q.steps =~= quiet_next.steps);
                assert(none + tail.filter(notes_nothing()) =~= tail.filter(notes_nothing()));
            } else {
                assert(q.steps.first() == x);
                assert(q.steps.drop_first() =~= quiet_next.steps);
                assert(q.settled(answer(x.task)) == quiet_next);
            }
        }
    }
}

proof fn lemma_same_after_failure(
    on: PipelineModel,
    off: PipelineModel,
    kind: EventKind,
    detail: Seq<char>,
    noted: bool,
    error: Seq<char>,
)
    requires
        same_but_for_notes(on, off),
        is_note(TaskModel::AddEvent { session_id: on.meta.session_id, kind, detail }),
    ensures
        noted ==> same_but_for_notes(
            on.failed(on.noted(kind, detail), error, error),
            off.failed(off.noted(kind, detail), error, error),
        ),
        !noted ==> same_but_for_notes(
            on.failed(Seq::empty(), error, error),
            off.failed(Seq::empty(), error, error),
        ),
{
    let failed = on.meta.with_status(SessionStatus::Failed);
    let known = published(failed, EventKind::PipelineFailed, error);
    let before = if noted {
        on.noted(kind, detail)
    } else {
        Seq::empty()
    };
    lemma_quiet_noted(on, kind, detail);
    lemma_quiet_published(failed, EventKind::PipelineFailed, error);
    lemma_quiet_parts(before, known);
    lemma_quiet_one(known[0]);
    assert(Seq::<StepModel<TaskModel>>::empty() + known =~= known);
}

proof fn lemma_same_after_request(
    on: PipelineModel,
    off: PipelineModel,
    before_on: Seq<StepModel<TaskModel>>,
    before_off: Seq<StepModel<TaskModel>>,
    transcript: Seq<char>,
)
    requires
        same_but_for_notes(on, off),
        before_off == quiet(before_on),
        forall|i: int|
            0 <= i < before_on.len() && (#[trigger] before_on[i]).required ==> !is_note(
                before_on[i].task,
            ),
    ensures
        same_but_for_notes(
            on.requesting_summary(before_on, transcript),
            off.requesting_summary(before_off, transcript),
        ),
{
    lemma_quiet_noted(on, EventKind::ApiSummaryRequest, on.summary_request());
    lemma_quiet_parts(before_on, on.noted(EventKind::ApiSummaryRequest, on.summary_request()));
    assert(before_off + Seq::<StepModel<TaskModel>>::empty() =~= before_off);
}

/// The steps that write an answer, with and without the note of the call.
proof fn lemma_quiet_answer(
    on: PipelineModel,
    noted_kind: EventKind,
    noted_detail: Seq<char>,
    written: StepModel<TaskModel>,
    meta: SessionModel,
    kind: EventKind,
    detail: Seq<char>,
)
    requires
        is_note(
            TaskModel::AddEvent {
                session_id: on.meta.session_id,
                kind: noted_kind,
                detail: noted_detail,
            },
        ),
        !is_note(written.task),
        !is_note(TaskModel::AddEvent { session_id: meta.session_id, kind, detail }),
    ensures
        quiet(on.noted(noted_kind, noted_detail) + seq![written] + published(meta, kind, detail))
            == Seq::<StepModel<TaskModel>>::empty() + seq![written] + published(meta, kind, detail),
{
    let noted = on.noted(noted_kind, noted_detail);
    lemma_quiet_noted(on, noted_kind, noted_detail);
    lemma_quiet_one(written);
    lemma_quiet_published(meta, kind, detail);
    lemma_quiet_parts(noted, seq![written]);
    lemma_quiet_parts(noted + seq![written], published(meta, kind, detail));
}

proof fn lemma_same_after_transcription(on: PipelineModel, off: PipelineModel, world: PipelineWorld)
    requires
        same_but_for_notes(on, off),
    ensures
        same_but_for_notes(
            on.after_transcription(world.transcription),
            off.after_transcription(world.transcription),
        ),
{
    match world.transcription {
        Err(err) => {
            lemma_same_after_failure(
                on,
                off,
                EventKind::ApiTranscriptionError,
                "error="@ + err,
                true,
                explained_error(err, on.nexara_key, on.nexara_key_error),
            );
        },
        Ok(text) => {
            let meta = on.meta.with_status(SessionStatus::Transcribed);
            let detail = "transcript_chars="@ + decimal(text.len());
            let written = must(
                TaskModel::WriteText { file: meta.artifacts.transcript_file, text },
            );
            lemma_quiet_answer(
                on,
                EventKind::ApiTranscriptionSuccess,
                detail,
                written,
                meta,
                EventKind::Transcribed,
                "Transcript created"@,
            );
            let known = published(meta, EventKind::Transcribed, "Transcript created"@);
            let steps_on = on.noted(EventKind::ApiTranscriptionSuccess, detail) + seq![written]
                + known;
            let steps_off = off.noted(EventKind::ApiTranscriptionSuccess, detail) + seq![written]
                + known;
            assert(steps_off == quiet(steps_on));
            let run_on = PipelineModel { meta, ..on };
            let run_off = PipelineModel { meta, ..off };
            lemma_same_after_request(run_on, run_off, steps_on, steps_off, text);
        },
    }
}

proof fn lemma_same_after_summary(on: PipelineModel, off: PipelineModel, world: PipelineWorld)
    requires
        same_but_for_notes(on, off),
    ensures
        same_but_for_notes(on.after_summary(world.summary), off.after_summary(world.summary)),
{
    match world.summary {
        Err(err) => {
            lemma_same_after_failure(
                on,
                off,
                EventKind::ApiSummaryError,
                "error="@ + err,
                true,
                err,
            );
        },
        Ok(text) => {
            let meta = on.meta.with_status(SessionStatus::Done);
            let detail = "summary_chars="@ + decimal(text.len());
            let written = must(
                TaskModel::WriteText { file: meta.artifacts.summary_file, text },
            );
            lemma_quiet_answer(
                on,
                EventKind::ApiSummarySuccess,
                detail,
                written,
                meta,
                EventKind::PipelineDone,
                "Summary created"@,
            );
            let clear = must(
                TaskModel::ClearRetryJob { session_id: meta.session_id },
            );
            let cleared = if on.mode == PipelineMode::Full {
                seq![clear]
            } else {
                Seq::empty()
            };
            lemma_quiet_one(clear);
            let known = published(meta, EventKind::PipelineDone, "Summary created"@);
            let steps_on = on.noted(EventKind::ApiSummarySuccess, detail) + seq![written] + known;
            lemma_quiet_parts(steps_on, cleared);
        },
    }
}

/// The same answer leads to the same next stage, but for the notes.
proof fn lemma_same_after_answer(on: PipelineModel, off: PipelineModel, world: PipelineWorld)
    requires
        same_but_for_notes(on, off),
        on.script.goal is Ask,
    ensures
        same_but_for_notes(on.answered(world), off.answered(world)),
{
    let none = Seq::<StepModel<TaskModel>>::empty();
    lemma_quiet_one(must(TaskModel::StopCapture));
    match on.script.goal {
        GoalModel::Ask(QuestionModel::AudioFile { .. }) => {
            lemma_same_after_failure(
                on,
                off,
                EventKind::ApiSummaryError,
                ""@,
                false,
                "Audio file is missing"@,
            );
        },
        GoalModel::Ask(QuestionModel::Keys) => {
            let keyed = on.with_keys(world.nexara, world.openai);
            lemma_quiet_noted(
                keyed,
                EventKind::ApiTranscriptionRequest,
                keyed.transcription_request(),
            );
        },
        GoalModel::Ask(QuestionModel::Transcription { .. }) => {
            lemma_same_after_transcription(on, off, world);
        },
        GoalModel::Ask(QuestionModel::TranscriptFile { .. }) => {
            if let Ok(text) = world.transcript_file {
                lemma_same_after_request(on, off, none, none, trimmed(text));
            }
        },
        GoalModel::Ask(QuestionModel::Summary { .. }) => {
            lemma_same_after_summary(on, off, world);
        },
        GoalModel::Ask(QuestionModel::Retry { error, .. }) => {
            if let Ok(a) = world.attempt {
                lemma_quiet_one(
                    must(
                        retry_event(on.meta.session_id, error, a),
                    ),
                );
            }
        },
        GoalModel::Finish(_) => {},
    }
}

/// A stage of a run that is over after it.
proof fn lemma_last_stage(run: PipelineModel, world: PipelineWorld)
    requires
        run.script.carried_out(world.task).goal is Finish,
    ensures
        run.result(world) == run.script.carried_out(world.task).goal->Finish_0,
        run.at_end(world).meta == run.meta,
        run.performed(world) == run.script.attempted(world.task),
        run.course(world) == does::<TaskModel, QuestionModel>(run.script.attempted(world.task)),
        run.attempts_arranged(world) == 0,
{
}

/// A stage of a run that goes on after it.
proof fn lemma_one_stage(run: PipelineModel, world: PipelineWorld)
    requires
        !(run.script.carried_out(world.task).goal is Finish),
    ensures
        ({
            let next = run.worked_off(world).answered(world);
            &&& questions_ahead(next.script.goal) < questions_ahead(run.script.goal)
            &&& run.script.carried_out(world.task).goal == run.script.goal
            &&& run.at_end(world) == next.at_end(world)
            &&& run.performed(world) == run.script.attempted(world.task) + next.performed(world)
            &&& run.course(world) == does(run.script.attempted(world.task)) + seq![
                Act::Asks(run.script.goal->Ask_0),
            ] + next.course(world)
            &&& run.attempts_arranged(world) == next.attempts_arranged(world) + (
            if run.script.goal matches GoalModel::Ask(QuestionModel::Retry { .. }) {
                1nat
            } else {
                0nat
            })
        }),
{
    after_its_steps_a_script_is_at_its_goal_or_over(run.script, world.task);
}

proof fn lemma_same_stage(on: PipelineModel, off: PipelineModel, world: PipelineWorld) -> (next: (
    PipelineModel,
    PipelineModel,
))
    requires
        same_but_for_notes(on, off),
        !(on.script.carried_out(world.task).goal is Finish),
        off.script.carried_out(world.task) == on.script.carried_out(world.task),
    ensures
        same_but_for_notes(next.0, next.1),
        next.0 == on.worked_off(world).answered(world),
        next.1 == off.worked_off(world).answered(world),
{
    after_its_steps_a_script_is_at_its_goal_or_over(on.script, world.task);
    let worked_on = on.worked_off(world);
    let worked_off = off.worked_off(world);
    assert(worked_on.script.steps =~= Seq::<StepModel<TaskModel>>::empty());
    lemma_quiet_one(must(TaskModel::StopCapture));
    assert(same_but_for_notes(worked_on, worked_off));
    lemma_same_after_answer(worked_on, worked_off, world);
    (worked_on.answered(world), worked_off.answered(world))
}

proof fn lemma_joined_stage(on: PipelineModel, off: PipelineModel, world: PipelineWorld) -> (next: (
    PipelineModel,
    PipelineModel,
))
    requires
        same_but_for_notes(on, off),
        !(on.script.carried_out(world.task).goal is Finish),
    ensures
        same_but_for_notes(next.0, next.1),
        questions_ahead(next.0.script.goal) < questions_ahead(on.script.goal),
        on.at_end(world) == next.0.at_end(world),
        off.at_end(world) == next.1.at_end(world),
        on.performed(world) == on.script.attempted(world.task) + next.0.performed(world),
        off.performed(world) == on.script.attempted(world.task).filter(notes_nothing())
            + next.1.performed(world),
        on.course(world) == does(on.script.attempted(world.task)) + seq![
            Act::Asks(on.script.goal->Ask_0),
        ] + next.0.course(world),
        off.course(world) == does(
            on.script.attempted(world.task).filter(notes_nothing()),
        ) + seq![Act::Asks(on.script.goal->Ask_0)] + next.1.course(world),
        on.attempts_arranged(world) - next.0.attempts_arranged(world) == off.attempts_arranged(
            world,
        ) - next.1.attempts_arranged(world),
{
    lemma_carried_out(on.script, world.task);
    lemma_one_stage(on, world);
    lemma_one_stage(off, world);
    lemma_same_stage(on, off, world)
}

/// Tells the acts that note no call.
spec fn is_no_note() -> spec_fn(Act<TaskModel, QuestionModel>) -> bool {
    |act: Act<TaskModel, QuestionModel>|
        match act {
            Act::Does(t) => !is_note(t),
            Act::Asks(_) => true,
        }
}

proof fn lemma_does_without_notes(tasks: Seq<TaskModel>)
    ensures
        does::<TaskModel, QuestionModel>(tasks.filter(notes_nothing())) == does::<
            TaskModel,
            QuestionModel,
        >(tasks).filter(is_no_note()),
    decreases tasks.len(),
{
    reveal(Seq::filter);
    let acts = does::<TaskModel, QuestionModel>(tasks);
    if tasks.len() > 0 {
        lemma_does_without_notes(tasks.drop_last());
        assert(acts.drop_last() =~= does::<TaskModel, QuestionModel>(tasks.drop_last()));
    }
    assert(does::<TaskModel, QuestionModel>(tasks.filter(notes_nothing())) =~= acts.filter(
        is_no_note(),
    ));
}

proof fn lemma_course_without_notes(
    acts: Seq<Act<TaskModel, QuestionModel>>,
    question: QuestionModel,
    rest: Seq<Act<TaskModel, QuestionModel>>,
)
    ensures
        (acts + seq![Act::Asks(question)] + rest).filter(is_no_note()) == acts.filter(is_no_note())
            + seq![Act::Asks(question)] + rest.filter(is_no_note()),
{
    let asking = seq![Act::<TaskModel, QuestionModel>::Asks(question)];
    Seq::filter_distributes_over_add(acts + asking, rest, is_no_note());
    Seq::filter_distributes_over_add(acts, asking, is_no_note());
    assert(asking.filter(is_no_note()) =~= asking) by {
        reveal(Seq::filter);
        assert(asking.drop_last() =~= Seq::empty());
        assert(asking.drop_last().filter(is_no_note()) =~= Seq::empty());
        assert(asking =~= Seq::<Act<TaskModel, QuestionModel>>::empty().push(Act::Asks(question)));
    }
}

proof fn lemma_same_to_the_end(on: PipelineModel, off: PipelineModel, world: PipelineWorld)
    requires
        same_but_for_notes(on, off),
    ensures
        off.result(world) == on.result(world),
        off.at_end(world).meta == on.at_end(world).meta,
        off.performed(world) == on.performed(world).filter(notes_nothing()),
        off.attempts_arranged(world) == on.attempts_arranged(world),
        off.course(world) == on.course(world).filter(is_no_note()),
    decreases questions_ahead(on.script.goal),
{
    lemma_carried_out(on.script, world.task);
    lemma_does_without_notes(on.script.attempted(world.task));
    if on.script.carried_out(world.task).goal is Finish {
        lemma_last_stage(on, world);
        lemma_last_stage(off, world);
    } else {
        let (next_on, next_off) = lemma_joined_stage(on, off, world);
        lemma_same_to_the_end(next_on, next_off, world);
        lemma_course_without_notes(
            does(on.script.attempted(world.task)),
            on.script.goal->Ask_0,
            next_on.course(world),
        );
        Seq::filter_distributes_over_add(
            on.script.attempted(world.task),
            next_on.performed(world),
            notes_nothing(),
        );
    }
}

/// Whether calls are logged changes the notes of them alone. Whatever a run meets with, its result,
/// what is known of the session, the further attempts, all questions and all other tasks, and their
/// order, are the same; without the log no call is noted.
pub proof fn logging_changes_the_notes_alone(
    settings: SettingsModel,
    meta: SessionModel,
    invocation: PipelineInvocation,
    mode: PipelineMode,
    world: PipelineWorld,
)
    ensures
        ({
            let on = PipelineModel::starting(with_logging(settings, true), meta, invocation, mode);
            let off = PipelineModel::starting(
                with_logging(settings, false),
                meta,
                invocation,
                mode,
            );
            &&& off.result(world) == on.result(world)
            &&& off.at_end(world).meta == on.at_end(world).meta
            &&& off.attempts_arranged(world) == on.attempts_arranged(world)
            &&& off.performed(world) == on.performed(world).filter(notes_nothing())
            &&& off.course(world) == on.course(world).filter(
                |act: Act<TaskModel, QuestionModel>|
                    match act {
                        Act::Does(t) => !is_note(t),
                        Act::Asks(_) => true,
                    },
            )
            &&& forall|i: int|
                0 <= i < off.performed(world).len() ==> !is_note(#[trigger] off.performed(world)[i])
        }),
{
    let on = PipelineModel::starting(with_logging(settings, true), meta, invocation, mode);
    let off = PipelineModel::starting(with_logging(settings, false), meta, invocation, mode);
    lemma_quiet_one(must(TaskModel::StopCapture));
    lemma_same_to_the_end(on, off, world);
    assert forall|i: int| 0 <= i < off.performed(world).len() implies !is_note(
        #[trigger] off.performed(world)[i],
    ) by {
        on.performed(world).lemma_filter_pred(notes_nothing(), i);
    }
}

/// The two tasks that note a call: in the events of the session, and in its file of calls.
pub open spec fn note_of(session_id: Seq<char>, kind: EventKind, detail: Seq<char>) -> Seq<
    TaskModel,
> {
    seq![
        TaskModel::AddEvent { session_id, kind, detail },
        TaskModel::AppendApiCall { kind, detail },
    ]
}

proof fn lemma_all_notes(run: PipelineModel, kind: EventKind, detail: Seq<char>)
    requires
        run.settings.api_call_logging_enabled,
        is_note(TaskModel::AddEvent { session_id: run.meta.session_id, kind, detail }),
    ensures
        tasks_of(run.noted(kind, detail)).filter(notes_a_call()) == note_of(
            run.meta.session_id,
            kind,
            detail,
        ),
{
    reveal_with_fuel(Seq::filter, 3);
    let notes = note_of(run.meta.session_id, kind, detail);
    assert(tasks_of(run.noted(kind, detail)) =~= notes);
    assert(notes.drop_last() =~= seq![notes[0]]);
    assert(notes.drop_last().drop_last() =~= Seq::<TaskModel>::empty());
    assert(notes.filter(notes_a_call()) =~= notes);
}

proof fn lemma_no_notes(tasks: Seq<TaskModel>)
    requires
        forall|i: int| 0 <= i < tasks.len() ==> !is_note(#[trigger] tasks[i]),
    ensures
        tasks.filter(notes_a_call()) == Seq::<TaskModel>::empty(),
    decreases tasks.len(),
{
    reveal(Seq::filter);
    if tasks.len() > 0 {
        assert(tasks.last() == tasks[tasks.len() - 1]);
        lemma_no_notes(tasks.drop_last());
    }
    assert(tasks.filter(notes_a_call()) =~= Seq::<TaskModel>::empty());
}

proof fn lemma_filter_nine(
    a: Seq<TaskModel>,
    b: Seq<TaskModel>,
    c: Seq<TaskModel>,
    d: Seq<TaskModel>,
    e: Seq<TaskModel>,
    f: Seq<TaskModel>,
    g: Seq<TaskModel>,
    h: Seq<TaskModel>,
    i: Seq<TaskModel>,
)
    requires
        c.filter(notes_a_call()) == Seq::<TaskModel>::empty(),
        d.filter(notes_a_call()) == Seq::<TaskModel>::empty(),
        g.filter(notes_a_call()) == Seq::<TaskModel>::empty(),
        h.filter(notes_a_call()) == Seq::<TaskModel>::empty(),
        i.filter(notes_a_call()) == Seq::<TaskModel>::empty(),
    ensures
        (a + b + c + d + e + f + g + h + i).filter(notes_a_call()) == a.filter(notes_a_call())
            + b.filter(notes_a_call()) + e.filter(notes_a_call()) + f.filter(notes_a_call()),
{
    let p = notes_a_call();
    Seq::filter_distributes_over_add(a + b + c + d + e + f + g + h, i, p);
    Seq::filter_distributes_over_add(a + b + c + d + e + f + g, h, p);
    Seq::filter_distributes_over_add(a + b + c + d + e + f, g, p);
    Seq::filter_distributes_over_add(a + b + c + d + e, f, p);
    Seq::filter_distributes_over_add(a + b + c + d, e, p);
    Seq::filter_distributes_over_add(a + b + c, d, p);
    Seq::filter_distributes_over_add(a + b, c, p);
    Seq::filter_distributes_over_add(a, b, p);
    assert((a + b + c + d + e + f + g + h + i).filter(p) =~= a.filter(p) + b.filter(p)
        + e.filter(p) + f.filter(p));
}

/// A whole run with the log of calls on, on a recording that is there and with services that answer,
/// notes its four calls and answers, each in the events and in the file of calls, in their order.
pub proof fn a_logged_run_notes_its_calls_in_order(
    settings: SettingsModel,
    meta: SessionModel,
    invocation: PipelineInvocation,
    world: PipelineWorld,
)
    requires
        settings.api_call_logging_enabled,
        goes_well(
            PipelineModel::starting(settings, meta, invocation, PipelineMode::Full),
            world,
        ),
        world.audio_present,
        world.transcription is Ok,
        world.summary is Ok,
    ensures
        ({
            let run = PipelineModel::starting(settings, meta, invocation, PipelineMode::Full);
            let id = meta.session_id;
            run.performed(world).filter(notes_a_call()) == note_of(
                id,
                EventKind::ApiTranscriptionRequest,
                run.transcription_request(),
            ) + note_of(
                id,
                EventKind::ApiTranscriptionSuccess,
                "transcript_chars="@ + decimal(world.transcription->Ok_0.len()),
            ) + note_of(id, EventKind::ApiSummaryRequest, run.summary_request()) + note_of(
                id,
                EventKind::ApiSummarySuccess,
                "summary_chars="@ + decimal(world.summary->Ok_0.len()),
            )
        }),
{
    let run = PipelineModel::starting(settings, meta, invocation, PipelineMode::Full);
    let transcribed = meta.with_status(SessionStatus::Transcribed);
    let done = meta.with_status(SessionStatus::Done);
    let heard = "transcript_chars="@ + decimal(world.transcription->Ok_0.len());
    let summed = "summary_chars="@ + decimal(world.summary->Ok_0.len());
    a_full_run_writes_both_answers(settings, meta, invocation, world);
    let a = tasks_of(run.noted(EventKind::ApiTranscriptionRequest, run.transcription_request()));
    let b = tasks_of(run.noted(EventKind::ApiTranscriptionSuccess, heard));
    let c = seq![
        TaskModel::WriteText {
            file: meta.artifacts.transcript_file,
            text: world.transcription->Ok_0,
        },
    ];
    let d = tasks_of(published(transcribed, EventKind::Transcribed, "Transcript created"@));
    let e = tasks_of(run.noted(EventKind::ApiSummaryRequest, run.summary_request()));
    let f = tasks_of(run.noted(EventKind::ApiSummarySuccess, summed));
    let g = seq![
        TaskModel::WriteText { file: meta.artifacts.summary_file, text: world.summary->Ok_0 },
    ];
    let h = tasks_of(published(done, EventKind::PipelineDone, "Summary created"@));
    let i = seq![TaskModel::ClearRetryJob { session_id: meta.session_id }];
    lemma_no_notes(c);
    lemma_no_notes(d);
    lemma_no_notes(g);
    lemma_no_notes(h);
    lemma_no_notes(i);
    lemma_filter_nine(a, b, c, d, e, f, g, h, i);
    lemma_all_notes(run, EventKind::ApiTranscriptionRequest, run.transcription_request());
    lemma_all_notes(run, EventKind::ApiTranscriptionSuccess, heard);
    lemma_all_notes(run, EventKind::ApiSummaryRequest, run.summary_request());
    lemma_all_notes(run, EventKind::ApiSummarySuccess, summed);
}

} // verus!
