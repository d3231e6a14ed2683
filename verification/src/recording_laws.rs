//! What holds of the start and of the end of a recording as a whole, whatever they meet with.
use crate::clock::{rfc3339_instant, session_dir_text, LocalTime};
use crate::pipeline::{PipelineInvocation, PipelineMode};
use crate::recording::{
    artifacts_at, stopped_session, RequestModel, StartModel, StartQuestionModel, StartedModel,
    StopModel, StopQuestionModel,
};
use crate::script::{
    a_good_goal_is_reached_by_all_the_steps, a_script_that_goes_through_reaches_its_goal,
    after_its_steps_a_script_is_at_its_goal_or_over, GoalModel, ScriptModel, StepModel,
};
use crate::session::{source_of, SessionMeta, SessionModel, SessionStatus};
use crate::settings::{directly_below, is_plainly_relative, is_verbatim, joined, SettingsModel};
use crate::task::{EventKind, TaskModel};
use crate::text::is_blank;
use crate::ui_sync::UiModel;
use vstd::prelude::*;

verus! {

/// What the start of a recording meets with: the settings, the clock of the machine, the devices,
/// and what comes of each task.
pub struct StartWorld {
    pub settings: Result<SettingsModel, Seq<char>>,
    /// The root of the recordings.
    pub root: Seq<char>,
    /// The time of the start on the clock of the machine.
    pub at: LocalTime,
    pub source: Result<Option<Seq<char>>, Seq<char>>,
    pub capture: Result<(), Seq<char>>,
    pub task: spec_fn(TaskModel) -> Result<(), Seq<char>>,
}

/// How many questions of a start may still come.
pub open spec fn start_questions_ahead(goal: GoalModel<StartQuestionModel, StartedModel>) -> nat {
    match goal {
        GoalModel::Ask(StartQuestionModel::Settings) => 3,
        GoalModel::Ask(StartQuestionModel::SystemSource) => 2,
        GoalModel::Ask(StartQuestionModel::Capture { .. }) => 1,
        GoalModel::Finish(_) => 0,
    }
}

impl StartModel {
    /// The start once its question, if it has one, is answered.
    pub open spec fn answered(self, world: StartWorld) -> StartModel {
        match self.script.goal {
            GoalModel::Ask(StartQuestionModel::Settings) => match (
                world.settings,
                rfc3339_instant(self.meta.started_at_iso),
            ) {
                (Err(e), _) => self.over(e),
                (Ok(_), Err(e)) => self.over(e),
                (Ok(s), Ok(_)) => self.prepared(s, world.root, world.at),
            },
            GoalModel::Ask(StartQuestionModel::SystemSource) => self.after_source(world.source),
            GoalModel::Ask(StartQuestionModel::Capture { .. }) => self.after_capture(world.capture),
            GoalModel::Finish(_) => self,
        }
    }

    /// The start once the steps ahead are carried out.
    pub open spec fn worked_off(self, world: StartWorld) -> StartModel {
        StartModel { script: self.script.carried_out(world.task), ..self }
    }

    /// The start at its end.
    pub open spec fn at_end(self, world: StartWorld) -> StartModel
        decreases start_questions_ahead(self.script.goal),
    {
        let start = self.worked_off(world);
        if start.script.goal is Finish {
            start
        } else {
            proof {
                after_its_steps_a_script_is_at_its_goal_or_over(self.script, world.task);
            }
            start.answered(world).at_end(world)
        }
    }

    /// The tasks that are carried out until the end, in order.
    pub open spec fn performed(self, world: StartWorld) -> Seq<TaskModel>
        decreases start_questions_ahead(self.script.goal),
    {
        let start = self.worked_off(world);
        let tasks = self.script.attempted(world.task);
        if start.script.goal is Finish {
            tasks
        } else {
            proof {
                after_its_steps_a_script_is_at_its_goal_or_over(self.script, world.task);
            }
            tasks + start.answered(world).performed(world)
        }
    }

    /// What the start comes to.
    pub open spec fn result(self, world: StartWorld) -> Result<StartedModel, Seq<char>> {
        self.at_end(world).script.goal->Finish_0
    }
}

/// The session that a request starts at a time: its files are named after the day.
pub open spec fn started_session(
    request: RequestModel,
    session_id: Seq<char>,
    started_at_iso: Seq<char>,
    at: LocalTime,
) -> SessionModel {
    SessionModel {
        artifacts: artifacts_at(at),
        ..SessionModel::starting(
            session_id,
            request.tags,
            request.topic,
            request.participants,
            started_at_iso,
        )
    }
}

/// What is put in place, in this order, before a recording runs.
pub open spec fn groundwork(meta: SessionModel, root: Seq<char>, at: LocalTime) -> Seq<TaskModel> {
    seq![
        TaskModel::CreateSessionDir {
            root,
            relative_dir: session_dir_text(meta.primary_tag, at),
        },
        TaskModel::SaveMeta(meta),
        TaskModel::UpsertSession(meta),
        TaskModel::AddEvent {
            session_id: meta.session_id,
            kind: EventKind::RecordingStarted,
            detail: "Session created"@,
        },
        TaskModel::WriteText { file: meta.artifacts.transcript_file, text: ""@ },
        TaskModel::WriteText { file: meta.artifacts.summary_file, text: ""@ },
    ]
}

/// Whether nothing stands in the way of a start: the settings and the time can be read, the
/// groundwork is done, and the devices are there.
pub open spec fn can_start(meta: SessionModel, world: StartWorld) -> bool {
    &&& world.settings is Ok
    &&& rfc3339_instant(meta.started_at_iso) is Ok
    &&& forall|i: int|
        0 <= i < groundwork(meta, world.root, world.at).len() ==> (world.task)(
            #[trigger] groundwork(meta, world.root, world.at)[i],
        ) is Ok
    &&& is_blank(world.settings->Ok_0.system_device_name) ==> world.source is Ok
    &&& world.capture is Ok
}

proof fn lemma_start_stage(start: StartModel, world: StartWorld)
    requires
        start.script.goes_through(world.task) || start.at_end(world).script.goal matches
            GoalModel::Finish(Ok(_)),
    ensures
        start.script.goes_through(world.task),
        ({
            let done = StartModel {
                script: ScriptModel { steps: Seq::empty(), goal: start.script.goal },
                ..start
            };
            let tasks = start.script.tasks();
            if start.script.goal is Finish {
                &&& start.performed(world) == tasks
                &&& start.at_end(world) == done
            } else {
                &&& start.performed(world) == tasks + done.answered(world).performed(world)
                &&& start.at_end(world) == done.answered(world).at_end(world)
            }
        }),
{
    after_its_steps_a_script_is_at_its_goal_or_over(start.script, world.task);
    if !start.script.goes_through(world.task) {
        a_good_goal_is_reached_by_all_the_steps(start.script, world.task);
    }
    a_script_that_goes_through_reaches_its_goal(start.script, world.task);
}

proof fn lemma_groundwork(start: StartModel, settings: SettingsModel, world: StartWorld)
    ensures
        ({
            let prepared = start.prepared(settings, world.root, world.at);
            let tasks = groundwork(prepared.meta, world.root, world.at);
            &&& prepared.script.tasks() == tasks
            &&& prepared.script.goes_through(world.task) <==> forall|i: int|
                0 <= i < tasks.len() ==> (world.task)(#[trigger] tasks[i]) is Ok
        }),
{
    let prepared = start.prepared(settings, world.root, world.at);
    let tasks = groundwork(prepared.meta, world.root, world.at);
    assert(prepared.script.tasks() =~= tasks);
    assert forall|i: int| 0 <= i < tasks.len() implies (#[trigger] prepared.script.steps[i]).required
        && prepared.script.steps[i].task == tasks[i] by {}
    if prepared.script.goes_through(world.task) {
        assert forall|i: int| 0 <= i < tasks.len() implies (world.task)(#[trigger] tasks[i]) is Ok by {
            assert(prepared.script.steps[i].required);
        }
    } else {
        let i = choose|i: int|
            0 <= i < prepared.script.steps.len() && (#[trigger] prepared.script.steps[i]).required
                && !((world.task)(prepared.script.steps[i].task) is Ok);
        assert(!((world.task)(tasks[i]) is Ok));
    }
}

/// A recording runs exactly where nothing stands in the way of it. Then the groundwork was done, in
/// order, the tray was told, and the form shows what was asked for.
pub proof fn a_recording_runs_once_everything_is_in_place(
    request: RequestModel,
    session_id: Seq<char>,
    started_at_iso: Seq<char>,
    world: StartWorld,
)
    ensures
        ({
            let start = StartModel::starting(request, session_id, started_at_iso);
            let meta = started_session(request, session_id, started_at_iso, world.at);
            &&& start.result(world) is Ok <==> can_start(meta, world)
            &&& start.result(world) is Ok ==> {
                &&& start.result(world)->Ok_0 == (StartedModel {
                    meta,
                    root: world.root,
                    relative_dir: session_dir_text(meta.primary_tag, world.at),
                    ui: UiModel { source: source_of(request.tags), topic: request.topic },
                })
                &&& start.performed(world) == groundwork(meta, world.root, world.at).push(
                    TaskModel::ShowRecording(true),
                )
            }
        }),
{
    let start = StartModel::starting(request, session_id, started_at_iso);
    let meta = started_session(request, session_id, started_at_iso, world.at);
    lemma_start_stage(start, world);
    assert(start.script.tasks() =~= Seq::<TaskModel>::empty());
    let placed = start.answered(world);
    assert(start == (StartModel {
        script: ScriptModel { steps: Seq::empty(), goal: start.script.goal },
        ..start
    }));
    if world.settings is Err || rfc3339_instant(started_at_iso) is Err {
        lemma_start_stage(placed, world);
    } else {
        let settings = world.settings->Ok_0;
        lemma_groundwork(start, settings, world);
        assert(placed == start.prepared(settings, world.root, world.at));
        assert(placed.meta == meta);
        after_its_steps_a_script_is_at_its_goal_or_over(placed.script, world.task);
        if placed.script.goes_through(world.task) {
            lemma_start_stage(placed, world);
            lemma_from_devices(placed, settings, world);
        } else {
            if placed.at_end(world).script.goal matches GoalModel::Finish(Ok(_)) {
                lemma_start_stage(placed, world);
            }
            lemma_start_fails(placed, world);
        }
        assert(Seq::<TaskModel>::empty() + placed.performed(world) =~= placed.performed(world));
    }
}

/// A start whose groundwork fails comes to nothing.
proof fn lemma_start_fails(start: StartModel, world: StartWorld)
    requires
        !start.script.goes_through(world.task),
    ensures
        start.at_end(world).script.goal matches GoalModel::Finish(Err(_)),
{
    if !(start.script.carried_out(world.task).goal matches GoalModel::Finish(Err(_))) {
        a_good_goal_is_reached_by_all_the_steps(start.script, world.task);
    }
}

/// A start whose groundwork is done, from the devices on.
proof fn lemma_from_devices(prepared: StartModel, settings: SettingsModel, world: StartWorld)
    requires
        exists|start: StartModel| prepared == #[trigger] start.prepared(settings, world.root, world.at),
        prepared.script.goes_through(world.task),
        world.settings == Ok::<SettingsModel, Seq<char>>(settings),
    ensures
        prepared.result(world) is Ok <==> {
            &&& is_blank(settings.system_device_name) ==> world.source is Ok
            &&& world.capture is Ok
        },
        prepared.result(world) is Ok ==> {
            &&& prepared.result(world)->Ok_0 == (StartedModel {
                meta: prepared.meta,
                root: prepared.root,
                relative_dir: prepared.relative_dir,
                ui: UiModel { source: source_of(prepared.meta.tags), topic: prepared.meta.topic },
            })
            &&& prepared.performed(world) == prepared.script.tasks().push(
                TaskModel::ShowRecording(true),
            )
        },
{
    lemma_start_stage(prepared, world);
    let asked = StartModel {
        script: ScriptModel { steps: Seq::empty(), goal: prepared.script.goal },
        ..prepared
    };
    let next = asked.answered(world);
    if is_blank(settings.system_device_name) {
        assert(next.script.goes_through(world.task));
        lemma_start_stage(next, world);
        if world.source is Ok {
            assert(next.script.tasks() =~= Seq::<TaskModel>::empty());
            assert(next == (StartModel {
                script: ScriptModel { steps: Seq::empty(), goal: next.script.goal },
                ..next
            }));
            let last = next.answered(world);
            lemma_last_stage(next, world);
            assert(prepared.script.tasks() + (Seq::<TaskModel>::empty() + last.performed(world))
                =~= prepared.script.tasks() + last.performed(world));
        }
    } else {
        lemma_last_stage(asked, world);
    }
    assert(prepared.script.tasks() + seq![TaskModel::ShowRecording(true)]
        =~= prepared.script.tasks().push(TaskModel::ShowRecording(true)));
}

/// A start from the capture on.
proof fn lemma_last_stage(asked: StartModel, world: StartWorld)
    requires
        asked.script.goal matches GoalModel::Ask(StartQuestionModel::Capture { .. }),
        asked.script.steps.len() == 0,
    ensures
        ({
            let last = asked.answered(world);
            &&& last.result(world) is Ok <==> world.capture is Ok
            &&& world.capture is Ok ==> {
                &&& last.result(world)->Ok_0 == (StartedModel {
                    meta: asked.meta,
                    root: asked.root,
                    relative_dir: asked.relative_dir,
                    ui: UiModel { source: source_of(asked.meta.tags), topic: asked.meta.topic },
                })
                &&& last.performed(world) == seq![TaskModel::ShowRecording(true)]
            }
        }),
{
    let last = asked.answered(world);
    assert(last.script.goes_through(world.task));
    lemma_start_stage(last, world);
    if world.capture is Ok {
        assert(last.script.tasks() =~= seq![TaskModel::ShowRecording(true)]);
    }
}

/// What the end of a recording meets with.
pub struct StopWorld {
    pub settings: Result<SettingsModel, Seq<char>>,
    /// The root of the recordings.
    pub root: Seq<char>,
    /// The time of the start on the clock of the machine.
    pub at: LocalTime,
    pub capture_runs: bool,
    pub mix: Result<(), Seq<char>>,
    pub task: spec_fn(TaskModel) -> Result<(), Seq<char>>,
}

/// How many questions of an end may still come.
pub open spec fn stop_questions_ahead(goal: GoalModel<StopQuestionModel, Seq<char>>) -> nat {
    match goal {
        GoalModel::Ask(StopQuestionModel::Settings) => 3,
        GoalModel::Ask(StopQuestionModel::CaptureRuns) => 2,
        GoalModel::Ask(StopQuestionModel::MixAudio { .. }) => 1,
        GoalModel::Finish(_) => 0,
    }
}

impl StopModel {
    /// The end once its question, if it has one, is answered.
    pub open spec fn answered(self, world: StopWorld) -> StopModel {
        match self.script.goal {
            GoalModel::Ask(StopQuestionModel::Settings) => match (
                world.settings,
                rfc3339_instant(self.meta.started_at_iso),
            ) {
                (Err(e), _) => self.over(e),
                (Ok(_), Err(e)) => self.over(e),
                (Ok(s), Ok(_)) => self.placed(s, world.root, world.at),
            },
            GoalModel::Ask(StopQuestionModel::CaptureRuns) => self.after_capture(
                world.capture_runs,
            ),
            GoalModel::Ask(StopQuestionModel::MixAudio { .. }) => self.after_mix(world.mix),
            GoalModel::Finish(_) => self,
        }
    }

    /// The end once the steps ahead are carried out.
    pub open spec fn worked_off(self, world: StopWorld) -> StopModel {
        StopModel { script: self.script.carried_out(world.task), ..self }
    }

    /// The end when it is over.
    pub open spec fn at_end(self, world: StopWorld) -> StopModel
        decreases stop_questions_ahead(self.script.goal),
    {
        let stop = self.worked_off(world);
        if stop.script.goal is Finish {
            stop
        } else {
            proof {
                after_its_steps_a_script_is_at_its_goal_or_over(self.script, world.task);
            }
            stop.answered(world).at_end(world)
        }
    }

    /// The tasks that are carried out until it is over, in order.
    pub open spec fn performed(self, world: StopWorld) -> Seq<TaskModel>
        decreases stop_questions_ahead(self.script.goal),
    {
        let stop = self.worked_off(world);
        let tasks = self.script.attempted(world.task);
        if stop.script.goal is Finish {
            tasks
        } else {
            proof {
                after_its_steps_a_script_is_at_its_goal_or_over(self.script, world.task);
            }
            tasks + stop.answered(world).performed(world)
        }
    }

    /// What the end comes to.
    pub open spec fn result(self, world: StopWorld) -> Result<Seq<char>, Seq<char>> {
        self.at_end(world).script.goal->Finish_0
    }
}

/// What makes it known that a recording has ended.
pub open spec fn stop_notice(meta: SessionModel) -> Seq<TaskModel> {
    seq![
        TaskModel::SaveMeta(meta),
        TaskModel::UpsertSession(meta),
        TaskModel::AddEvent {
            session_id: meta.session_id,
            kind: EventKind::RecordingStopped,
            detail: "Audio capture stopped"@,
        },
    ]
}

/// How the audio file comes about.
pub open spec fn audio_tasks(capture_runs: bool, bitrate_kbps: u32) -> Seq<TaskModel> {
    if capture_runs {
        seq![TaskModel::StopCapture, TaskModel::CleanUpCapture]
    } else {
        seq![
            TaskModel::WriteSilence { file: "audio.opus"@, sample_rate: 48_000, bitrate_kbps },
        ]
    }
}

/// What follows on the audio file.
pub open spec fn stop_aftermath(session_id: Seq<char>, runs_pipeline: bool) -> Seq<TaskModel> {
    let quiet = seq![TaskModel::ResetLevels, TaskModel::ShowRecording(false)];
    if runs_pipeline {
        quiet.push(
            TaskModel::SpawnPipeline {
                session_id,
                invocation: PipelineInvocation::Run,
                mode: PipelineMode::Full,
            },
        )
    } else {
        quiet
    }
}

/// Whether nothing stands in the way of an end: the settings and the time of the start can be read,
/// the end can be made known, and the audio file can be written.
pub open spec fn can_stop(meta: SessionModel, world: StopWorld) -> bool {
    &&& world.settings is Ok
    &&& rfc3339_instant(meta.started_at_iso) is Ok
    &&& forall|i: int|
        0 <= i < stop_notice(meta).len() ==> (world.task)(#[trigger] stop_notice(meta)[i]) is Ok
    &&& (world.task)(
        audio_tasks(world.capture_runs, world.settings->Ok_0.opus_bitrate_kbps)[0],
    ) is Ok
    &&& world.capture_runs ==> world.mix is Ok
}

proof fn lemma_stop_stage(stop: StopModel, world: StopWorld)
    requires
        stop.script.goes_through(world.task),
    ensures
        ({
            let done = StopModel {
                script: ScriptModel { steps: Seq::empty(), goal: stop.script.goal },
                ..stop
            };
            let tasks = stop.script.tasks();
            if stop.script.goal is Finish {
                &&& stop.performed(world) == tasks
                &&& stop.at_end(world) == done
            } else {
                &&& stop.performed(world) == tasks + done.answered(world).performed(world)
                &&& stop.at_end(world) == done.answered(world).at_end(world)
            }
        }),
{
    after_its_steps_a_script_is_at_its_goal_or_over(stop.script, world.task);
    a_script_that_goes_through_reaches_its_goal(stop.script, world.task);
}

proof fn lemma_stop_fails(stop: StopModel, world: StopWorld)
    requires
        !stop.script.goes_through(world.task),
    ensures
        stop.at_end(world).script.goal matches GoalModel::Finish(Err(_)),
{
    if !(stop.script.carried_out(world.task).goal matches GoalModel::Finish(Err(_))) {
        a_good_goal_is_reached_by_all_the_steps(stop.script, world.task);
    }
}

proof fn lemma_notice(stop: StopModel, settings: SettingsModel, world: StopWorld)
    ensures
        ({
            let placed = stop.placed(settings, world.root, world.at);
            let tasks = stop_notice(stop.meta);
            &&& placed.script.tasks() == tasks
            &&& placed.script.goes_through(world.task) <==> forall|i: int|
                0 <= i < tasks.len() ==> (world.task)(#[trigger] tasks[i]) is Ok
        }),
{
    let placed = stop.placed(settings, world.root, world.at);
    let tasks = stop_notice(stop.meta);
    assert(placed.script.tasks() =~= tasks);
    assert forall|i: int| 0 <= i < tasks.len() implies (#[trigger] placed.script.steps[i]).required
        && placed.script.steps[i].task == tasks[i] by {}
    if placed.script.goes_through(world.task) {
        assert forall|i: int| 0 <= i < tasks.len() implies (world.task)(#[trigger] tasks[i]) is Ok by {
            assert(placed.script.steps[i].required);
        }
    } else {
        let i = choose|i: int|
            0 <= i < placed.script.steps.len() && (#[trigger] placed.script.steps[i]).required
                && !((world.task)(placed.script.steps[i].task) is Ok);
        assert(!((world.task)(tasks[i]) is Ok));
    }
}

/// An end from the capture on.
proof fn lemma_from_capture(asked: StopModel, world: StopWorld)
    requires
        asked.script.steps.len() == 0,
        asked.script.goal matches GoalModel::Ask(StopQuestionModel::CaptureRuns),
    ensures
        ({
            let next = asked.answered(world);
            let audio = audio_tasks(world.capture_runs, asked.bitrate_kbps);
            &&& next.result(world) is Ok <==> {
                &&& (world.task)(audio[0]) is Ok
                &&& world.capture_runs ==> world.mix is Ok
            }
            &&& next.result(world) is Ok ==> {
                &&& next.result(world)->Ok_0 == "recorded"@
                &&& next.performed(world) == audio + stop_aftermath(
                    asked.meta.session_id,
                    asked.runs_pipeline,
                )
            }
            &&& world.capture_runs && (world.task)(TaskModel::StopCapture) is Ok && world.mix is Err
                ==> next.performed(world) == audio
            &&& next.at_end(world).meta == asked.meta
        }),
{
    let next = asked.answered(world);
    let audio = audio_tasks(world.capture_runs, asked.bitrate_kbps);
    let down = stop_aftermath(asked.meta.session_id, asked.runs_pipeline);
    assert(next.script.steps[0].required && next.script.steps[0].task == audio[0]);
    if (world.task)(audio[0]) is Ok {
        assert(next.script.goes_through(world.task));
        lemma_stop_stage(next, world);
        if world.capture_runs {
            assert(next.script.tasks() =~= seq![TaskModel::StopCapture]);
            let done = StopModel {
                script: ScriptModel { steps: Seq::empty(), goal: next.script.goal },
                ..next
            };
            let last = done.answered(world);
            assert(last.script.goes_through(world.task));
            lemma_stop_stage(last, world);
            if world.mix is Ok {
                assert(last.script.tasks() =~= seq![TaskModel::CleanUpCapture] + down);
                assert(seq![TaskModel::StopCapture] + (seq![TaskModel::CleanUpCapture] + down)
                    =~= audio + down);
            } else {
                assert(last.script.tasks() =~= seq![TaskModel::CleanUpCapture]);
                assert(seq![TaskModel::StopCapture] + seq![TaskModel::CleanUpCapture] =~= audio);
            }
        } else {
            assert(next.script.tasks() =~= audio + down);
        }
    } else {
        assert(!next.script.goes_through(world.task));
        lemma_stop_fails(next, world);
        lemma_stop_keeps_meta(next, world);
    }
}

proof fn lemma_stop_keeps_meta(stop: StopModel, world: StopWorld)
    ensures
        stop.at_end(world).meta == stop.meta,
    decreases stop_questions_ahead(stop.script.goal),
{
    after_its_steps_a_script_is_at_its_goal_or_over(stop.script, world.task);
    let worked = stop.worked_off(world);
    if !(worked.script.goal is Finish) {
        lemma_stop_keeps_meta(worked.answered(world), world);
    }
}

/// The end of a recording comes to "recorded" exactly where nothing stands in the way of it. Then
/// it was made known, the audio file was mixed or written without sound, what was captured was
/// removed, the tray was told, and the pipeline was set off where the settings want it.
pub proof fn a_recording_is_recorded_once_its_audio_is_written(
    active: SessionModel,
    ended_at_iso: Seq<char>,
    world: StopWorld,
)
    ensures
        ({
            let stop = StopModel::stopping(active, ended_at_iso);
            let settings = world.settings->Ok_0;
            &&& stop.result(world) is Ok <==> can_stop(stop.meta, world)
            &&& stop.result(world) is Ok ==> {
                &&& stop.result(world)->Ok_0 == "recorded"@
                &&& stop.performed(world) == stop_notice(stop.meta) + audio_tasks(
                    world.capture_runs,
                    settings.opus_bitrate_kbps,
                ) + stop_aftermath(active.session_id, settings.runs_pipeline_by_itself())
            }
        }),
{
    let stop = StopModel::stopping(active, ended_at_iso);
    lemma_placing(stop, world);
    if world.settings is Ok && rfc3339_instant(active.started_at_iso) is Ok {
        let settings = world.settings->Ok_0;
        let placed = stop.placed(settings, world.root, world.at);
        lemma_notice(stop, settings, world);
        if placed.script.goes_through(world.task) {
            lemma_stop_stage(placed, world);
            let asked = StopModel {
                script: ScriptModel { steps: Seq::empty(), goal: placed.script.goal },
                ..placed
            };
            lemma_from_capture(asked, world);
            let audio = audio_tasks(world.capture_runs, settings.opus_bitrate_kbps);
            let down = stop_aftermath(active.session_id, settings.runs_pipeline_by_itself());
            assert(stop_notice(stop.meta) + (audio + down) =~= stop_notice(stop.meta) + audio
                + down);
        } else {
            lemma_stop_fails(placed, world);
        }
    }
}

/// An end up to its place among the recordings.
proof fn lemma_placing(stop: StopModel, world: StopWorld)
    requires
        stop.script.steps =~= Seq::<StepModel<TaskModel>>::empty(),
        stop.script.goal matches GoalModel::Ask(StopQuestionModel::Settings),
    ensures
        world.settings is Ok && rfc3339_instant(stop.meta.started_at_iso) is Ok ==> {
            let placed = stop.placed(world.settings->Ok_0, world.root, world.at);
            &&& stop.at_end(world) == placed.at_end(world)
            &&& stop.performed(world) == placed.performed(world)
        },
        world.settings is Err || rfc3339_instant(stop.meta.started_at_iso) is Err ==> {
            &&& stop.result(world) is Err
            &&& stop.performed(world) == Seq::<TaskModel>::empty()
        },
{
    lemma_stop_stage(stop, world);
    assert(stop == (StopModel {
        script: ScriptModel { steps: Seq::empty(), goal: stop.script.goal },
        ..stop
    }));
    assert(stop.script.tasks() =~= Seq::<TaskModel>::empty());
    let next = stop.answered(world);
    assert(stop.script.tasks() + next.performed(world) =~= next.performed(world));
    if world.settings is Err || rfc3339_instant(stop.meta.started_at_iso) is Err {
        lemma_stop_stage(next, world);
        assert(next.script.tasks() =~= Seq::<TaskModel>::empty());
    }
}

/// What was captured is removed once the capture is stopped, also where it could not be mixed.
pub proof fn what_was_captured_is_removed_in_any_case(
    active: SessionModel,
    ended_at_iso: Seq<char>,
    world: StopWorld,
)
    requires
        world.capture_runs,
        (world.task)(TaskModel::StopCapture) is Ok,
        StopModel::stopping(active, ended_at_iso).performed(world).contains(TaskModel::StopCapture),
    ensures
        StopModel::stopping(active, ended_at_iso).performed(world).contains(
            TaskModel::CleanUpCapture,
        ),
{
    let stop = StopModel::stopping(active, ended_at_iso);
    lemma_placing(stop, world);
    if world.settings is Ok && rfc3339_instant(active.started_at_iso) is Ok {
        let settings = world.settings->Ok_0;
        let placed = stop.placed(settings, world.root, world.at);
        let notice = stop_notice(stop.meta);
        lemma_notice(stop, settings, world);
        if placed.script.goes_through(world.task) {
            lemma_stop_stage(placed, world);
            let asked = StopModel {
                script: ScriptModel { steps: Seq::empty(), goal: placed.script.goal },
                ..placed
            };
            lemma_from_capture(asked, world);
            let next = asked.answered(world);
            let audio = audio_tasks(true, settings.opus_bitrate_kbps);
            assert(next.performed(world)[1] == audio[1]);
            assert(stop.performed(world)[notice.len() as int + 1] == TaskModel::CleanUpCapture);
        } else {
            after_its_steps_a_script_is_at_its_goal_or_over(placed.script, world.task);
            crate::script::only_tasks_of_the_script_are_carried_out(placed.script, world.task);
            if !(placed.script.carried_out(world.task).goal matches GoalModel::Finish(Err(_))) {
                a_good_goal_is_reached_by_all_the_steps(placed.script, world.task);
            }
            let k = choose|k: int|
                0 <= k < stop.performed(world).len() && stop.performed(world)[k]
                    == TaskModel::StopCapture;
            assert(stop.performed(world)[k] == notice[k]);
        }
    }
}

/// The end of a recording sets its status and its time, and leaves all else that is known of the
/// session as it is, whatever comes of the end.
pub proof fn an_end_keeps_the_details_of_a_session(
    active: SessionModel,
    ended_at_iso: Seq<char>,
    world: StopWorld,
)
    ensures
        StopModel::stopping(active, ended_at_iso).at_end(world).meta == (SessionModel {
            status: SessionStatus::Recorded,
            ended_at_iso: Some(ended_at_iso),
            ..active
        }),
{
    lemma_stop_keeps_meta(StopModel::stopping(active, ended_at_iso), world);
}

/// A recording ends in the directory that was made at its start, where the root of the recordings is
/// the same and the clock of the machine shows the same time for the start.
pub proof fn a_recording_ends_where_it_was_started(
    request: RequestModel,
    session_id: Seq<char>,
    started_at_iso: Seq<char>,
    ended_at_iso: Seq<char>,
    root: Seq<char>,
    at: LocalTime,
    at_start: SettingsModel,
    at_stop: SettingsModel,
)
    ensures
        ({
            let start = StartModel::starting(request, session_id, started_at_iso).prepared(
                at_start,
                root,
                at,
            );
            let stop = StopModel::stopping(start.meta, ended_at_iso).placed(at_stop, root, at);
            start.script.tasks().first() == (TaskModel::CreateSessionDir {
                root: stop.root,
                relative_dir: stop.relative_dir,
            })
        }),
{
    let start = StartModel::starting(request, session_id, started_at_iso).prepared(
        at_start,
        root,
        at,
    );
    assert(start.script.tasks()[0] == start.script.steps[0].task);
}

/// The directory of a session lies below the root of the recordings, as
/// `<tag>/DD.MM.YYYY/meeting_HH-mm-ss`, where the tag is not empty and is plainly relative itself,
/// and the root is not to be read word for word.
pub proof fn a_session_lies_below_the_root(
    root: Seq<char>,
    tag: Seq<char>,
    at: LocalTime,
    session_dir: Seq<char>,
)
    requires
        tag.len() > 0,
        is_plainly_relative(tag),
        !is_verbatim(root),
        joined(root, session_dir_text(tag, at), session_dir),
    ensures
        directly_below(root, session_dir_text(tag, at), session_dir),
{
    reveal_strlit("/");
    let relative_dir = session_dir_text(tag, at);
    assert(relative_dir[0] == tag[0]);
    if tag.len() > 1 {
        assert(relative_dir[1] == tag[1]);
    } else {
        assert(relative_dir[1] == '/');
    }
}

/// A stop ends the active session where it names that or none. Where no recording is active, or
/// another is named, it ends none.
pub proof fn a_stop_is_meant_for_the_active_session(
    active: Option<SessionMeta>,
    requested: Option<&str>,
)
    ensures
        match (active, requested) {
            (None, _) => stopped_session(active, requested) == Err::<SessionModel, Seq<char>>(
                "No active recording session"@,
            ),
            (Some(meta), None) => stopped_session(active, requested) == Ok::<
                SessionModel,
                Seq<char>,
            >(meta@),
            (Some(meta), Some(id)) => stopped_session(active, requested) == if id@
                == meta.session_id@ {
                Ok::<SessionModel, Seq<char>>(meta@)
            } else {
                Err::<SessionModel, Seq<char>>("Session id does not match the active recording"@)
            },
        },
{
}

proof fn lemma_stop_keeps_its_place(stop: StopModel, world: StopWorld)
    requires
        !(stop.script.goal matches GoalModel::Ask(StopQuestionModel::Settings)),
    ensures
        stop.at_end(world).root == stop.root,
        stop.at_end(world).relative_dir == stop.relative_dir,
    decreases stop_questions_ahead(stop.script.goal),
{
    after_its_steps_a_script_is_at_its_goal_or_over(stop.script, world.task);
    let worked = stop.worked_off(world);
    if !(worked.script.goal is Finish) {
        lemma_stop_keeps_its_place(worked.answered(world), world);
    }
}

/// A stop works in the directory that the session has by its source and the time of its start, below
/// the root of the recordings, from the time that the settings are known.
pub proof fn a_stop_works_in_the_directory_of_its_session(
    active: SessionModel,
    ended_at_iso: Seq<char>,
    world: StopWorld,
)
    requires
        world.settings is Ok,
        rfc3339_instant(active.started_at_iso) is Ok,
    ensures
        ({
            let placed = StopModel::stopping(active, ended_at_iso).answered(world);
            let over = StopModel::stopping(active, ended_at_iso).at_end(world);
            &&& placed.root == world.root
            &&& placed.relative_dir == session_dir_text(active.primary_tag, world.at)
            &&& over.root == world.root
            &&& over.relative_dir == session_dir_text(active.primary_tag, world.at)
        }),
{
    let stop = StopModel::stopping(active, ended_at_iso);
    assert(stop.worked_off(world) == stop);
    lemma_stop_keeps_its_place(stop.answered(world), world);
}

} // verus!
