//! The course of a start and of a stop: the tasks and the questions, one after the other.
use crate::clock::{date_text, rfc3339_instant, session_dir_text, LocalTime};
use crate::pipeline::{PipelineInvocation, PipelineMode};
use crate::recording::{
    RequestModel, StartModel, StartQuestionModel, StartedModel, StopModel, StopQuestionModel,
};
use crate::recording_laws::{
    start_questions_ahead, stop_questions_ahead, StartWorld, StopWorld,
};
use crate::script::{
    a_script_that_goes_through_reaches_its_goal, after_its_steps_a_script_is_at_its_goal_or_over,
    does, is_cut_short, lemma_cut_short, lemma_cut_short_after_a_question,
    lemma_cut_short_at_the_end, Act, GoalModel, ScriptModel, StepModel,
};
use crate::session::{ArtifactsModel, SessionModel, SessionStatus};
use crate::settings::SettingsModel;
use crate::task::{EventKind, TaskModel};
use crate::text::is_blank;
use crate::ui_sync::UiModel;
use vstd::prelude::*;

verus! {

/// What happens in the course of a start.
pub type StartAct = Act<TaskModel, StartQuestionModel>;

/// What happens in the course of a stop.
pub type StopAct = Act<TaskModel, StopQuestionModel>;

impl StartModel {
    /// All that happens until it is over, in order.
    pub open spec fn course(self, world: StartWorld) -> Seq<StartAct>
        decreases start_questions_ahead(self.script.goal),
    {
        let start = self.worked_off(world);
        let acts = does::<TaskModel, StartQuestionModel>(self.script.attempted(world.task));
        match start.script.goal {
            GoalModel::Finish(_) => acts,
            GoalModel::Ask(question) => {
                proof {
                    after_its_steps_a_script_is_at_its_goal_or_over(self.script, world.task);
                }
                acts + seq![StartAct::Asks(question)] + start.answered(world).course(world)
            },
        }
    }
}

impl StartWorld {
    /// The same answers, with every task a success.
    pub open spec fn undisturbed(self) -> StartWorld {
        StartWorld { task: |t: TaskModel| Ok::<(), Seq<char>>(()), ..self }
    }
}

/// Tells the tasks whose failure ends a start: all but showing that a recording runs.
pub open spec fn needed_by_a_start() -> spec_fn(TaskModel) -> bool {
    |t: TaskModel| !(t is ShowRecording)
}

/// One stage of the course, where no task that is needed fails.
proof fn lemma_start_course_stage(start: StartModel, world: StartWorld) -> (asked: StartModel)
    requires
        forall|t: TaskModel| needed_by_a_start()(t) ==> (#[trigger] (world.task)(t)) is Ok,
        forall|i: int|
            0 <= i < start.script.steps.len() ==> (#[trigger] start.script.steps[i]).required
                == needed_by_a_start()(start.script.steps[i].task),
    ensures
        asked == (StartModel {
            script: ScriptModel { steps: Seq::empty(), goal: start.script.goal },
            ..start
        }),
        start.course(world) == does::<TaskModel, StartQuestionModel>(start.script.tasks()) + (
        match start.script.goal {
            GoalModel::Finish(_) => Seq::empty(),
            GoalModel::Ask(question) => seq![StartAct::Asks(question)] + asked.answered(
                world,
            ).course(world),
        }),
        start.result(world) == match start.script.goal {
            GoalModel::Finish(result) => result,
            GoalModel::Ask(_) => asked.answered(world).result(world),
        },
{
    a_script_that_goes_through_reaches_its_goal(start.script, world.task);
    let asked = StartModel {
        script: ScriptModel { steps: Seq::empty(), goal: start.script.goal },
        ..start
    };
    let acts = does::<TaskModel, StartQuestionModel>(start.script.tasks());
    match start.script.goal {
        GoalModel::Finish(_) => {
            assert(acts + Seq::empty() =~= acts);
        },
        GoalModel::Ask(question) => {
            let rest = asked.answered(world).course(world);
            assert(acts + seq![StartAct::Asks(question)] + rest =~= acts + (seq![
                StartAct::Asks(question),
            ] + rest));
        },
    }
    asked
}

proof fn lemma_disturbed_start(start: StartModel, world: StartWorld)
    requires
        forall|i: int|
            0 <= i < start.script.steps.len() ==> (#[trigger] start.script.steps[i]).required
                == needed_by_a_start()(start.script.steps[i].task),
    ensures
        is_cut_short(
            start.course(world),
            start.result(world),
            start.course(world.undisturbed()),
            start.result(world.undisturbed()),
            needed_by_a_start(),
            world.task,
        ),
    decreases start_questions_ahead(start.script.goal),
{
    let calm = world.undisturbed();
    let asked = lemma_start_course_stage(start, calm);
    let next = asked.answered(world);
    assert(next == asked.answered(calm));
    let calm_result = start.result(calm);
    let nothing = Seq::<StartAct>::empty();
    let (rest, rest_result, calm_rest) = match start.script.goal {
        GoalModel::Finish(r) => (nothing, r, nothing),
        GoalModel::Ask(question) => (
            seq![StartAct::Asks(question)] + next.course(world),
            next.result(world),
            seq![StartAct::Asks(question)] + next.course(calm),
        ),
    };
    match start.script.goal {
        GoalModel::Finish(r) => {
            lemma_cut_short_at_the_end::<TaskModel, StartQuestionModel, StartedModel>(
                r,
                needed_by_a_start(),
                world.task,
            );
        },
        GoalModel::Ask(question) => {
            lemma_disturbed_start(next, world);
            lemma_cut_short_after_a_question(
                question,
                next.course(world),
                rest_result,
                next.course(calm),
                calm_result,
                needed_by_a_start(),
                world.task,
            );
        },
    }
    lemma_cut_short(
        start.script,
        rest,
        rest_result,
        calm_rest,
        calm_result,
        needed_by_a_start(),
        world.task,
    );
    after_its_steps_a_script_is_at_its_goal_or_over(start.script, world.task);
    if start.script.goes_through(world.task) {
        a_script_that_goes_through_reaches_its_goal(start.script, world.task);
        let acts = does::<TaskModel, StartQuestionModel>(start.script.attempted(world.task));
        match start.script.goal {
            GoalModel::Finish(_) => {
                assert(acts + rest =~= acts);
            },
            GoalModel::Ask(question) => {
                assert(acts + seq![StartAct::Asks(question)] + next.course(world) =~= acts + rest);
            },
        }
    }
}

/// A start goes on until a task fails, but for showing that a recording runs: that task is the last
/// thing to happen, and the start comes to its error. Up to there, or where no such task fails,
/// everything happens as if every task succeeded.
pub proof fn a_start_ends_at_the_first_task_that_fails(
    request: RequestModel,
    session_id: Seq<char>,
    started_at_iso: Seq<char>,
    world: StartWorld,
)
    ensures
        ({
            let start = StartModel::starting(request, session_id, started_at_iso);
            is_cut_short(
                start.course(world),
                start.result(world),
                start.course(world.undisturbed()),
                start.result(world.undisturbed()),
                |t: TaskModel| !(t is ShowRecording),
                world.task,
            )
        }),
{
    lemma_disturbed_start(StartModel::starting(request, session_id, started_at_iso), world);
}

/// A start whose settings, or whose time, cannot be read ends with that, and nothing is done.
pub proof fn the_course_of_a_start_that_cannot_be_placed(
    request: RequestModel,
    session_id: Seq<char>,
    started_at_iso: Seq<char>,
    world: StartWorld,
)
    requires
        world.settings is Err || rfc3339_instant(started_at_iso) is Err,
    ensures
        ({
            let start = StartModel::starting(request, session_id, started_at_iso);
            &&& start.course(world) == seq![StartAct::Asks(StartQuestionModel::Settings)]
            &&& start.result(world) == Err::<StartedModel, Seq<char>>(
                match world.settings {
                    Err(e) => e,
                    Ok(_) => rfc3339_instant(started_at_iso)->Err_0,
                },
            )
        }),
{
    let start = StartModel::starting(request, session_id, started_at_iso);
    lemma_disturbed_start(start, world);
    let calm = world.undisturbed();
    let asked = lemma_start_course_stage(start, calm);
    let over = lemma_start_course_stage(asked.answered(calm), calm);
    assert(start.course(calm) =~= seq![StartAct::Asks(StartQuestionModel::Settings)]);
}

/// The end of a start, once it is known whether the capture runs.
proof fn lemma_after_the_capture(asked: StartModel, world: StartWorld)
    requires
        forall|t: TaskModel| !(t is ShowRecording) ==> (#[trigger] (world.task)(t)) is Ok,
        asked.script.goal matches GoalModel::Ask(StartQuestionModel::Capture { .. }),
    ensures
        ({
            let ended = asked.answered(world);
            match world.capture {
                Err(e) => {
                    &&& ended.course(world) == Seq::<StartAct>::empty()
                    &&& ended.result(world) == Err::<StartedModel, Seq<char>>(e)
                },
                Ok(_) => {
                    &&& ended.course(world) == seq![StartAct::Does(TaskModel::ShowRecording(true))]
                    &&& ended.result(world) == Ok::<StartedModel, Seq<char>>(
                        StartedModel {
                            meta: asked.meta,
                            root: asked.root,
                            relative_dir: asked.relative_dir,
                            ui: UiModel {
                                source: if asked.meta.tags.len() > 0 {
                                    asked.meta.tags[0]
                                } else {
                                    "zoom"@
                                },
                                topic: asked.meta.topic,
                            },
                        },
                    )
                },
            }
        }),
{
    let ended = asked.answered(world);
    let over = lemma_start_course_stage(ended, world);
    if world.capture is Ok {
        assert(does::<TaskModel, StartQuestionModel>(ended.script.tasks()) =~= seq![
            StartAct::Does(TaskModel::ShowRecording(true)),
        ]);
    } else {
        assert(ended.course(world) =~= Seq::empty());
    }
}

/// The steps that give a session its place.
proof fn lemma_the_groundwork(
    request: RequestModel,
    session_id: Seq<char>,
    started_at_iso: Seq<char>,
    settings: SettingsModel,
    world: StartWorld,
)
    ensures
        ({
            let start = StartModel::starting(request, session_id, started_at_iso);
            let prepared = start.prepared(settings, world.root, world.at);
            let meta = prepared.meta;
            seq![StartAct::Asks(StartQuestionModel::Settings)] + does(prepared.script.tasks())
                == seq![
                StartAct::Asks(StartQuestionModel::Settings),
                StartAct::Does(
                    TaskModel::CreateSessionDir {
                        root: world.root,
                        relative_dir: session_dir_text(meta.primary_tag, world.at),
                    },
                ),
                StartAct::Does(TaskModel::SaveMeta(meta)),
                StartAct::Does(TaskModel::UpsertSession(meta)),
                StartAct::Does(
                    TaskModel::AddEvent {
                        session_id,
                        kind: EventKind::RecordingStarted,
                        detail: "Session created"@,
                    },
                ),
                StartAct::Does(
                    TaskModel::WriteText { file: meta.artifacts.transcript_file, text: ""@ },
                ),
                StartAct::Does(
                    TaskModel::WriteText { file: meta.artifacts.summary_file, text: ""@ },
                ),
            ]
        }),
{
    let start = StartModel::starting(request, session_id, started_at_iso);
    let prepared = start.prepared(settings, world.root, world.at);
    let meta = prepared.meta;
    assert(seq![StartAct::Asks(StartQuestionModel::Settings)] + does(prepared.script.tasks())
        =~= seq![
        StartAct::Asks(StartQuestionModel::Settings),
        StartAct::Does(
            TaskModel::CreateSessionDir {
                root: world.root,
                relative_dir: session_dir_text(meta.primary_tag, world.at),
            },
        ),
        StartAct::Does(TaskModel::SaveMeta(meta)),
        StartAct::Does(TaskModel::UpsertSession(meta)),
        StartAct::Does(
            TaskModel::AddEvent {
                session_id,
                kind: EventKind::RecordingStarted,
                detail: "Session created"@,
            },
        ),
        StartAct::Does(TaskModel::WriteText { file: meta.artifacts.transcript_file, text: ""@ }),
        StartAct::Does(TaskModel::WriteText { file: meta.artifacts.summary_file, text: ""@ }),
    ]);
}

/// A start that finds its place puts the directory, the session and its two empty files there, looks
/// for a source of the sound of the system only where the settings name none, and has the capture
/// run on the microphone that the settings name, or none where they name none, and on that
/// source. Where the capture runs, that is shown, and the session is the active one.
pub proof fn the_course_of_a_start(
    request: RequestModel,
    session_id: Seq<char>,
    started_at_iso: Seq<char>,
    settings: SettingsModel,
    world: StartWorld,
)
    requires
        forall|t: TaskModel| !(t is ShowRecording) ==> (#[trigger] (world.task)(t)) is Ok,
        world.settings == Ok::<SettingsModel, Seq<char>>(settings),
        rfc3339_instant(started_at_iso) is Ok,
    ensures
        ({
            let start = StartModel::starting(request, session_id, started_at_iso);
            let source = if request.tags.len() > 0 {
                request.tags[0]
            } else {
                "zoom"@
            };
            let meta = SessionModel {
                session_id,
                primary_tag: source,
                tags: request.tags,
                topic: request.topic,
                participants: request.participants,
                started_at_iso,
                ended_at_iso: None,
                status: SessionStatus::Recording,
                artifacts: ArtifactsModel {
                    audio_file: "audio.opus"@,
                    transcript_file: "transcript_"@ + date_text(world.at) + ".txt"@,
                    summary_file: "summary_"@ + date_text(world.at) + ".txt"@,
                    meta_file: "meta.json"@,
                },
            };
            let relative_dir = session_dir_text(source, world.at);
            let placed = seq![
                StartAct::Asks(StartQuestionModel::Settings),
                StartAct::Does(TaskModel::CreateSessionDir { root: world.root, relative_dir }),
                StartAct::Does(TaskModel::SaveMeta(meta)),
                StartAct::Does(TaskModel::UpsertSession(meta)),
                StartAct::Does(
                    TaskModel::AddEvent {
                        session_id,
                        kind: EventKind::RecordingStarted,
                        detail: "Session created"@,
                    },
                ),
                StartAct::Does(
                    TaskModel::WriteText { file: meta.artifacts.transcript_file, text: ""@ },
                ),
                StartAct::Does(
                    TaskModel::WriteText { file: meta.artifacts.summary_file, text: ""@ },
                ),
            ];
            let sought = if is_blank(settings.system_device_name) {
                placed + seq![StartAct::Asks(StartQuestionModel::SystemSource)]
            } else {
                placed
            };
            if is_blank(settings.system_device_name) && world.source is Err {
                &&& start.course(world) == sought
                &&& start.result(world) == Err::<StartedModel, Seq<char>>(world.source->Err_0)
            } else {
                let asked = sought + seq![
                    StartAct::Asks(
                        StartQuestionModel::Capture {
                            mic: if is_blank(settings.mic_device_name) {
                                None
                            } else {
                                Some(settings.mic_device_name)
                            },
                            system: if is_blank(settings.system_device_name) {
                                world.source->Ok_0
                            } else {
                                Some(settings.system_device_name)
                            },
                        },
                    ),
                ];
                match world.capture {
                    Err(e) => {
                        &&& start.course(world) == asked
                        &&& start.result(world) == Err::<StartedModel, Seq<char>>(e)
                    },
                    Ok(_) => {
                        &&& start.course(world) == asked + seq![
                            StartAct::Does(TaskModel::ShowRecording(true)),
                        ]
                        &&& start.result(world) == Ok::<StartedModel, Seq<char>>(
                            StartedModel {
                                meta,
                                root: world.root,
                                relative_dir,
                                ui: UiModel { source, topic: request.topic },
                            },
                        )
                    },
                }
            }
        }),
{
    let start = StartModel::starting(request, session_id, started_at_iso);
    let asked = lemma_start_course_stage(start, world);
    let prepared = asked.answered(world);
    let seeking = lemma_start_course_stage(prepared, world);
    assert(does::<TaskModel, StartQuestionModel>(start.script.tasks()) =~= Seq::empty());
    let placed = seq![StartAct::Asks(StartQuestionModel::Settings)] + does(prepared.script.tasks());
    lemma_the_groundwork(request, session_id, started_at_iso, settings, world);
    if is_blank(settings.system_device_name) {
        let sought = placed + seq![StartAct::Asks(StartQuestionModel::SystemSource)];
        let found = seeking.answered(world);
        let capturing = lemma_start_course_stage(found, world);
        assert(does::<TaskModel, StartQuestionModel>(found.script.tasks()) =~= Seq::empty());
        assert(start.course(world) =~= sought + found.course(world));
        if let Ok(system) = world.source {
            let ended = capturing.answered(world);
            lemma_after_the_capture(capturing, world);
            let asking = seq![StartAct::Asks(found.script.goal->Ask_0)];
            assert(start.course(world) =~= sought + asking + ended.course(world));
            assert(sought + asking + Seq::empty() =~= sought + asking);
        } else {
            assert(found.course(world) =~= Seq::empty());
            assert(start.course(world) =~= sought);
        }
    } else {
        let ended = seeking.answered(world);
        lemma_after_the_capture(seeking, world);
        let asking = seq![StartAct::Asks(prepared.script.goal->Ask_0)];
        assert(start.course(world) =~= placed + asking + ended.course(world));
        assert(placed + asking + Seq::empty() =~= placed + asking);
    }
}

proof fn lemma_captures_rightly(
    start: StartModel,
    mic: Option<Seq<char>>,
    system_name: Seq<char>,
    world: StartWorld,
)
    requires
        match start.script.goal {
            GoalModel::Ask(StartQuestionModel::Settings) => false,
            GoalModel::Ask(StartQuestionModel::SystemSource) => is_blank(system_name) && start.mic
                == mic,
            GoalModel::Ask(StartQuestionModel::Capture { mic: asked_mic, system }) => {
                &&& asked_mic == mic
                &&& if is_blank(system_name) {
                    world.source == Ok::<Option<Seq<char>>, Seq<char>>(system)
                } else {
                    system == Some(system_name)
                }
            },
            GoalModel::Finish(_) => true,
        },
    ensures
        ({
            let course = start.course(world);
            forall|i: int|
                0 <= i < course.len() ==> ((#[trigger] course[i]) matches Act::Asks(
                    StartQuestionModel::Capture { mic: asked_mic, system },
                ) ==> {
                    &&& asked_mic == mic
                    &&& if is_blank(system_name) {
                        world.source == Ok::<Option<Seq<char>>, Seq<char>>(system)
                    } else {
                        system == Some(system_name)
                    }
                })
        }),
    decreases start_questions_ahead(start.script.goal),
{
    after_its_steps_a_script_is_at_its_goal_or_over(start.script, world.task);
    let asked = start.worked_off(world);
    let acts = does::<TaskModel, StartQuestionModel>(start.script.attempted(world.task));
    let course = start.course(world);
    if let GoalModel::Ask(q) = asked.script.goal {
        let next = asked.answered(world);
        lemma_captures_rightly(next, mic, system_name, world);
        let rest = next.course(world);
        assert forall|i: int| 0 <= i < course.len() implies ((#[trigger] course[i]) matches Act::Asks(
            StartQuestionModel::Capture { mic: asked_mic, system },
        ) ==> {
            &&& asked_mic == mic
            &&& if is_blank(system_name) {
                world.source == Ok::<Option<Seq<char>>, Seq<char>>(system)
            } else {
                system == Some(system_name)
            }
        }) by {
            if i < acts.len() {
                assert(course[i] == acts[i]);
            } else if i == acts.len() {
                assert(course[i] == StartAct::Asks(q));
            } else {
                assert(course[i] == rest[i - acts.len() - 1]);
            }
        }
    }
}

/// Whatever a start meets with, the capture that it asks for takes the microphone that the settings
/// name, and none only where that is blank; and it takes the source of the sound of the system
/// that they name or, only where that is blank, the one that was found. Neither depends on the
/// other.
pub proof fn a_capture_takes_the_devices_of_the_settings(
    request: RequestModel,
    session_id: Seq<char>,
    started_at_iso: Seq<char>,
    world: StartWorld,
    i: int,
)
    requires
        0 <= i < StartModel::starting(request, session_id, started_at_iso).course(world).len(),
    ensures
        StartModel::starting(request, session_id, started_at_iso).course(world)[i] matches Act::Asks(
            StartQuestionModel::Capture { mic, system },
        ) ==> {
            &&& world.settings is Ok
            &&& is_blank(world.settings->Ok_0.mic_device_name) ==> mic is None
            &&& !is_blank(world.settings->Ok_0.mic_device_name) ==> mic == Some(
                world.settings->Ok_0.mic_device_name,
            )
            &&& is_blank(world.settings->Ok_0.system_device_name) ==> world.source == Ok::<
                Option<Seq<char>>,
                Seq<char>,
            >(system)
            &&& !is_blank(world.settings->Ok_0.system_device_name) ==> system == Some(
                world.settings->Ok_0.system_device_name,
            )
        },
{
    let start = StartModel::starting(request, session_id, started_at_iso);
    let next = start.answered(world);
    assert(start.worked_off(world) == start);
    let rest = next.course(world);
    assert(start.course(world) =~= seq![StartAct::Asks(StartQuestionModel::Settings)] + rest);
    if let Ok(settings) = world.settings {
        let mic = if is_blank(settings.mic_device_name) {
            None
        } else {
            Some(settings.mic_device_name)
        };
        lemma_captures_rightly(next, mic, settings.system_device_name, world);
        if i > 0 {
            assert(start.course(world)[i] == rest[i - 1]);
        }
    } else {
        assert(next.worked_off(world) == next);
        assert(rest =~= Seq::empty());
    }
}

impl StopModel {
    /// All that happens until it is over, in order.
    pub open spec fn course(self, world: StopWorld) -> Seq<StopAct>
        decreases stop_questions_ahead(self.script.goal),
    {
        let stop = self.worked_off(world);
        let acts = does::<TaskModel, StopQuestionModel>(self.script.attempted(world.task));
        match stop.script.goal {
            GoalModel::Finish(_) => acts,
            GoalModel::Ask(question) => {
                proof {
                    after_its_steps_a_script_is_at_its_goal_or_over(self.script, world.task);
                }
                acts + seq![StopAct::Asks(question)] + stop.answered(world).course(world)
            },
        }
    }
}

impl StopWorld {
    /// The same answers, with every task a success.
    pub open spec fn undisturbed(self) -> StopWorld {
        StopWorld { task: |t: TaskModel| Ok::<(), Seq<char>>(()), ..self }
    }
}

/// Tells the tasks whose failure ends a stop: all but the clearing away and what follows on it.
pub open spec fn needed_by_a_stop() -> spec_fn(TaskModel) -> bool {
    |t: TaskModel|
        !(t is CleanUpCapture || t is ResetLevels || t is ShowRecording || t is SpawnPipeline)
}

/// One stage of the course, where no task that is needed fails.
proof fn lemma_stop_course_stage(stop: StopModel, world: StopWorld) -> (asked: StopModel)
    requires
        forall|t: TaskModel| needed_by_a_stop()(t) ==> (#[trigger] (world.task)(t)) is Ok,
        forall|i: int|
            0 <= i < stop.script.steps.len() ==> (#[trigger] stop.script.steps[i]).required
                == needed_by_a_stop()(stop.script.steps[i].task),
    ensures
        asked == (StopModel {
            script: ScriptModel { steps: Seq::empty(), goal: stop.script.goal },
            ..stop
        }),
        stop.course(world) == does::<TaskModel, StopQuestionModel>(stop.script.tasks()) + (
        match stop.script.goal {
            GoalModel::Finish(_) => Seq::empty(),
            GoalModel::Ask(question) => seq![StopAct::Asks(question)] + asked.answered(
                world,
            ).course(world),
        }),
        stop.result(world) == match stop.script.goal {
            GoalModel::Finish(result) => result,
            GoalModel::Ask(_) => asked.answered(world).result(world),
        },
{
    a_script_that_goes_through_reaches_its_goal(stop.script, world.task);
    let asked = StopModel {
        script: ScriptModel { steps: Seq::empty(), goal: stop.script.goal },
        ..stop
    };
    let acts = does::<TaskModel, StopQuestionModel>(stop.script.tasks());
    match stop.script.goal {
        GoalModel::Finish(_) => {
            assert(acts + Seq::empty() =~= acts);
        },
        GoalModel::Ask(question) => {
            let rest = asked.answered(world).course(world);
            assert(acts + seq![StopAct::Asks(question)] + rest =~= acts + (seq![
                StopAct::Asks(question),
            ] + rest));
        },
    }
    asked
}

proof fn lemma_disturbed_stop(stop: StopModel, world: StopWorld)
    requires
        forall|i: int|
            0 <= i < stop.script.steps.len() ==> (#[trigger] stop.script.steps[i]).required
                == needed_by_a_stop()(stop.script.steps[i].task),
    ensures
        is_cut_short(
            stop.course(world),
            stop.result(world),
            stop.course(world.undisturbed()),
            stop.result(world.undisturbed()),
            needed_by_a_stop(),
            world.task,
        ),
    decreases stop_questions_ahead(stop.script.goal),
{
    let calm = world.undisturbed();
    let asked = lemma_stop_course_stage(stop, calm);
    let next = asked.answered(world);
    assert(next == asked.answered(calm));
    let calm_result = stop.result(calm);
    let nothing = Seq::<StopAct>::empty();
    let (rest, rest_result, calm_rest) = match stop.script.goal {
        GoalModel::Finish(r) => (nothing, r, nothing),
        GoalModel::Ask(question) => (
            seq![StopAct::Asks(question)] + next.course(world),
            next.result(world),
            seq![StopAct::Asks(question)] + next.course(calm),
        ),
    };
    match stop.script.goal {
        GoalModel::Finish(r) => {
            lemma_cut_short_at_the_end::<TaskModel, StopQuestionModel, Seq<char>>(
                r,
                needed_by_a_stop(),
                world.task,
            );
        },
        GoalModel::Ask(question) => {
            lemma_disturbed_stop(next, world);
            lemma_cut_short_after_a_question(
                question,
                next.course(world),
                rest_result,
                next.course(calm),
                calm_result,
                needed_by_a_stop(),
                world.task,
            );
        },
    }
    lemma_cut_short(
        stop.script,
        rest,
        rest_result,
        calm_rest,
        calm_result,
        needed_by_a_stop(),
        world.task,
    );
    after_its_steps_a_script_is_at_its_goal_or_over(stop.script, world.task);
    if stop.script.goes_through(world.task) {
        a_script_that_goes_through_reaches_its_goal(stop.script, world.task);
        let acts = does::<TaskModel, StopQuestionModel>(stop.script.attempted(world.task));
        match stop.script.goal {
            GoalModel::Finish(_) => {
                assert(acts + rest =~= acts);
            },
            GoalModel::Ask(question) => {
                assert(acts + seq![StopAct::Asks(question)] + next.course(world) =~= acts + rest);
            },
        }
    }
}

/// A stop goes on until a task fails, but for the clearing away and what follows on it: that task is
/// the last thing to happen, and the stop comes to its error. Up to there, or where no such task
/// fails, everything happens as if every task succeeded.
pub proof fn a_stop_ends_at_the_first_task_that_fails(
    meta: SessionModel,
    ended_at_iso: Seq<char>,
    world: StopWorld,
)
    ensures
        ({
            let stop = StopModel::stopping(meta, ended_at_iso);
            is_cut_short(
                stop.course(world),
                stop.result(world),
                stop.course(world.undisturbed()),
                stop.result(world.undisturbed()),
                |t: TaskModel|
                    !(t is CleanUpCapture || t is ResetLevels || t is ShowRecording
                        || t is SpawnPipeline),
                world.task,
            )
        }),
{
    lemma_disturbed_stop(StopModel::stopping(meta, ended_at_iso), world);
}

/// A stop whose settings, or whose time of the start, cannot be read ends with that, and nothing is
/// done.
pub proof fn the_course_of_a_stop_that_cannot_be_placed(
    meta: SessionModel,
    ended_at_iso: Seq<char>,
    world: StopWorld,
)
    requires
        world.settings is Err || rfc3339_instant(meta.started_at_iso) is Err,
    ensures
        ({
            let stop = StopModel::stopping(meta, ended_at_iso);
            &&& stop.course(world) == seq![StopAct::Asks(StopQuestionModel::Settings)]
            &&& stop.result(world) == Err::<Seq<char>, Seq<char>>(
                match world.settings {
                    Err(e) => e,
                    Ok(_) => rfc3339_instant(meta.started_at_iso)->Err_0,
                },
            )
        }),
{
    let stop = StopModel::stopping(meta, ended_at_iso);
    lemma_disturbed_stop(stop, world);
    let calm = world.undisturbed();
    let asked = lemma_stop_course_stage(stop, calm);
    let over = lemma_stop_course_stage(asked.answered(calm), calm);
    assert(stop.course(calm) =~= seq![StopAct::Asks(StopQuestionModel::Settings)]);
}

/// The course of a stop up to the capture.
proof fn lemma_the_stop_is_made_known(
    meta: SessionModel,
    ended_at_iso: Seq<char>,
    settings: SettingsModel,
    world: StopWorld,
) -> (seen: StopModel)
    requires
        forall|t: TaskModel|
            !(t is CleanUpCapture || t is ResetLevels || t is ShowRecording || t is SpawnPipeline)
                ==> (#[trigger] (world.task)(t)) is Ok,
        world.settings == Ok::<SettingsModel, Seq<char>>(settings),
        rfc3339_instant(meta.started_at_iso) is Ok,
    ensures
        ({
            let stop = StopModel::stopping(meta, ended_at_iso);
            let recorded = SessionModel {
                status: SessionStatus::Recorded,
                ended_at_iso: Some(ended_at_iso),
                ..meta
            };
            &&& stop.course(world) == seq![
                StopAct::Asks(StopQuestionModel::Settings),
                StopAct::Does(TaskModel::SaveMeta(recorded)),
                StopAct::Does(TaskModel::UpsertSession(recorded)),
                StopAct::Does(
                    TaskModel::AddEvent {
                        session_id: meta.session_id,
                        kind: EventKind::RecordingStopped,
                        detail: "Audio capture stopped"@,
                    },
                ),
                StopAct::Asks(StopQuestionModel::CaptureRuns),
            ] + seen.after_capture(world.capture_runs).course(world)
            &&& stop.result(world) == seen.after_capture(world.capture_runs).result(world)
            &&& seen.bitrate_kbps == settings.opus_bitrate_kbps
            &&& seen.meta == recorded
            &&& seen.runs_pipeline <==> settings.auto_run_pipeline_on_stop && !is_blank(
                settings.transcription_url,
            ) && !is_blank(settings.summary_url)
        }),
{
    let stop = StopModel::stopping(meta, ended_at_iso);
    let recorded = SessionModel {
        status: SessionStatus::Recorded,
        ended_at_iso: Some(ended_at_iso),
        ..meta
    };
    let asked = lemma_stop_course_stage(stop, world);
    let placed = asked.answered(world);
    let seen = lemma_stop_course_stage(placed, world);
    assert(stop.course(world) =~= seq![
        StopAct::Asks(StopQuestionModel::Settings),
        StopAct::Does(TaskModel::SaveMeta(recorded)),
        StopAct::Does(TaskModel::UpsertSession(recorded)),
        StopAct::Does(
            TaskModel::AddEvent {
                session_id: meta.session_id,
                kind: EventKind::RecordingStopped,
                detail: "Audio capture stopped"@,
            },
        ),
        StopAct::Asks(StopQuestionModel::CaptureRuns),
    ] + seen.answered(world).course(world));
    seen
}

/// What is left of a stop once the audio file is there.
proof fn lemma_winding_down(seen: StopModel)
    ensures
        does::<TaskModel, StopQuestionModel>(
            seen.winding_down().map_values(|s: StepModel<TaskModel>| s.task),
        ) == seq![
            StopAct::Does(TaskModel::ResetLevels),
            StopAct::Does(TaskModel::ShowRecording(false)),
        ] + (if seen.runs_pipeline {
            seq![
                StopAct::Does(
                    TaskModel::SpawnPipeline {
                        session_id: seen.meta.session_id,
                        invocation: PipelineInvocation::Run,
                        mode: PipelineMode::Full,
                    },
                ),
            ]
        } else {
            Seq::empty()
        }),
{
    assert(does::<TaskModel, StopQuestionModel>(
        seen.winding_down().map_values(|s: StepModel<TaskModel>| s.task),
    ) =~= seq![
        StopAct::Does(TaskModel::ResetLevels),
        StopAct::Does(TaskModel::ShowRecording(false)),
    ] + (if seen.runs_pipeline {
        seq![
            StopAct::Does(
                TaskModel::SpawnPipeline {
                    session_id: seen.meta.session_id,
                    invocation: PipelineInvocation::Run,
                    mode: PipelineMode::Full,
                },
            ),
        ]
    } else {
        Seq::empty()
    }));
}

/// The course of a stop where no capture runs.
proof fn lemma_the_silence(seen: StopModel, world: StopWorld)
    requires
        forall|t: TaskModel|
            !(t is CleanUpCapture || t is ResetLevels || t is ShowRecording || t is SpawnPipeline)
                ==> (#[trigger] (world.task)(t)) is Ok,
    ensures
        ({
            let silent = seen.after_capture(false);
            &&& silent.course(world) == seq![
                StopAct::Does(
                    TaskModel::WriteSilence {
                        file: "audio.opus"@,
                        sample_rate: 48_000,
                        bitrate_kbps: seen.bitrate_kbps,
                    },
                ),
            ] + seq![
                StopAct::Does(TaskModel::ResetLevels),
                StopAct::Does(TaskModel::ShowRecording(false)),
            ] + (if seen.runs_pipeline {
                seq![
                    StopAct::Does(
                        TaskModel::SpawnPipeline {
                            session_id: seen.meta.session_id,
                            invocation: PipelineInvocation::Run,
                            mode: PipelineMode::Full,
                        },
                    ),
                ]
            } else {
                Seq::empty()
            })
            &&& silent.result(world) == Ok::<Seq<char>, Seq<char>>("recorded"@)
        }),
{
    let silent = seen.after_capture(false);
    let over = lemma_stop_course_stage(silent, world);
    lemma_winding_down(seen);
    let rest = seen.winding_down().map_values(|s: StepModel<TaskModel>| s.task);
    assert(silent.script.tasks() =~= seq![silent.script.steps[0].task] + rest);
    assert(silent.course(world) =~= seq![
        StopAct::Does(
            TaskModel::WriteSilence {
                file: "audio.opus"@,
                sample_rate: 48_000,
                bitrate_kbps: seen.bitrate_kbps,
            },
        ),
    ] + does(rest));
    assert(silent.course(world) =~= seq![
        StopAct::Does(
            TaskModel::WriteSilence {
                file: "audio.opus"@,
                sample_rate: 48_000,
                bitrate_kbps: seen.bitrate_kbps,
            },
        ),
    ] + seq![
        StopAct::Does(TaskModel::ResetLevels),
        StopAct::Does(TaskModel::ShowRecording(false)),
    ] + (if seen.runs_pipeline {
        seq![
            StopAct::Does(
                TaskModel::SpawnPipeline {
                    session_id: seen.meta.session_id,
                    invocation: PipelineInvocation::Run,
                    mode: PipelineMode::Full,
                },
            ),
        ]
    } else {
        Seq::empty()
    }));
}

/// The course of a stop where a capture runs.
proof fn lemma_the_mixing(seen: StopModel, world: StopWorld)
    requires
        forall|t: TaskModel|
            !(t is CleanUpCapture || t is ResetLevels || t is ShowRecording || t is SpawnPipeline)
                ==> (#[trigger] (world.task)(t)) is Ok,
    ensures
        ({
            let mixing = seen.after_capture(true);
            match world.mix {
                Err(e) => {
                    &&& mixing.course(world) == seq![
                        StopAct::Does(TaskModel::StopCapture),
                        StopAct::Asks(
                            StopQuestionModel::MixAudio {
                                file: "audio.opus"@,
                                bitrate_kbps: seen.bitrate_kbps,
                            },
                        ),
                        StopAct::Does(TaskModel::CleanUpCapture),
                    ]
                    &&& mixing.result(world) == Err::<Seq<char>, Seq<char>>(e)
                },
                Ok(_) => {
                    &&& mixing.course(world) == seq![
                        StopAct::Does(TaskModel::StopCapture),
                        StopAct::Asks(
                            StopQuestionModel::MixAudio {
                                file: "audio.opus"@,
                                bitrate_kbps: seen.bitrate_kbps,
                            },
                        ),
                        StopAct::Does(TaskModel::CleanUpCapture),
                    ] + seq![
                        StopAct::Does(TaskModel::ResetLevels),
                        StopAct::Does(TaskModel::ShowRecording(false)),
                    ] + (if seen.runs_pipeline {
                        seq![
                            StopAct::Does(
                                TaskModel::SpawnPipeline {
                                    session_id: seen.meta.session_id,
                                    invocation: PipelineInvocation::Run,
                                    mode: PipelineMode::Full,
                                },
                            ),
                        ]
                    } else {
                        Seq::empty()
                    })
                    &&& mixing.result(world) == Ok::<Seq<char>, Seq<char>>("recorded"@)
                },
            }
        }),
{
    let mixing = seen.after_capture(true);
    let waiting = lemma_stop_course_stage(mixing, world);
    let ended = waiting.answered(world);
    let over = lemma_stop_course_stage(ended, world);
    let mixed = seq![
        StopAct::Does(TaskModel::StopCapture),
        StopAct::Asks(
            StopQuestionModel::MixAudio {
                file: "audio.opus"@,
                bitrate_kbps: seen.bitrate_kbps,
            },
        ),
        StopAct::Does(TaskModel::CleanUpCapture),
    ];
    if world.mix is Err {
        assert(ended.script.tasks() =~= seq![TaskModel::CleanUpCapture]);
        assert(mixing.course(world) =~= mixed);
    } else {
        lemma_winding_down(waiting);
        let rest = waiting.winding_down().map_values(|s: StepModel<TaskModel>| s.task);
        assert(ended.script.tasks() =~= seq![TaskModel::CleanUpCapture] + rest);
        assert(mixing.course(world) =~= mixed + does(rest));
        assert(mixing.course(world) =~= mixed + seq![
            StopAct::Does(TaskModel::ResetLevels),
            StopAct::Does(TaskModel::ShowRecording(false)),
        ] + (if seen.runs_pipeline {
            seq![
                StopAct::Does(
                    TaskModel::SpawnPipeline {
                        session_id: seen.meta.session_id,
                        invocation: PipelineInvocation::Run,
                        mode: PipelineMode::Full,
                    },
                ),
            ]
        } else {
            Seq::empty()
        }));
    }
}

/// A stop makes known that the session is recorded, and sees to the audio file `audio.opus`, at the
/// bitrate of the settings: a capture that runs is stopped and mixed into it, and cleared away
/// whatever came of that; where none runs the file is without sound. Once the file is there the
/// levels are reset, that no recording runs is shown, and the whole pipeline is run for the session
/// where the settings switch that on and name both services.
pub proof fn the_course_of_a_stop(
    meta: SessionModel,
    ended_at_iso: Seq<char>,
    settings: SettingsModel,
    world: StopWorld,
)
    requires
        forall|t: TaskModel|
            !(t is CleanUpCapture || t is ResetLevels || t is ShowRecording || t is SpawnPipeline)
                ==> (#[trigger] (world.task)(t)) is Ok,
        world.settings == Ok::<SettingsModel, Seq<char>>(settings),
        rfc3339_instant(meta.started_at_iso) is Ok,
    ensures
        ({
            let stop = StopModel::stopping(meta, ended_at_iso);
            let recorded = SessionModel {
                status: SessionStatus::Recorded,
                ended_at_iso: Some(ended_at_iso),
                ..meta
            };
            let known = seq![
                StopAct::Asks(StopQuestionModel::Settings),
                StopAct::Does(TaskModel::SaveMeta(recorded)),
                StopAct::Does(TaskModel::UpsertSession(recorded)),
                StopAct::Does(
                    TaskModel::AddEvent {
                        session_id: meta.session_id,
                        kind: EventKind::RecordingStopped,
                        detail: "Audio capture stopped"@,
                    },
                ),
                StopAct::Asks(StopQuestionModel::CaptureRuns),
            ];
            let audio = if world.capture_runs {
                seq![
                    StopAct::Does(TaskModel::StopCapture),
                    StopAct::Asks(
                        StopQuestionModel::MixAudio {
                            file: "audio.opus"@,
                            bitrate_kbps: settings.opus_bitrate_kbps,
                        },
                    ),
                    StopAct::Does(TaskModel::CleanUpCapture),
                ]
            } else {
                seq![
                    StopAct::Does(
                        TaskModel::WriteSilence {
                            file: "audio.opus"@,
                            sample_rate: 48_000,
                            bitrate_kbps: settings.opus_bitrate_kbps,
                        },
                    ),
                ]
            };
            let quiet = seq![
                StopAct::Does(TaskModel::ResetLevels),
                StopAct::Does(TaskModel::ShowRecording(false)),
            ];
            let spawned = if settings.auto_run_pipeline_on_stop && !is_blank(
                settings.transcription_url,
            ) && !is_blank(settings.summary_url) {
                seq![
                    StopAct::Does(
                        TaskModel::SpawnPipeline {
                            session_id: meta.session_id,
                            invocation: PipelineInvocation::Run,
                            mode: PipelineMode::Full,
                        },
                    ),
                ]
            } else {
                Seq::empty()
            };
            if world.capture_runs && world.mix is Err {
                &&& stop.course(world) == known + audio
                &&& stop.result(world) == Err::<Seq<char>, Seq<char>>(world.mix->Err_0)
            } else {
                &&& stop.course(world) == known + audio + quiet + spawned
                &&& stop.result(world) == Ok::<Seq<char>, Seq<char>>("recorded"@)
            }
        }),
{
    let seen = lemma_the_stop_is_made_known(meta, ended_at_iso, settings, world);
    if world.capture_runs {
        lemma_the_mixing(seen, world);
    } else {
        lemma_the_silence(seen, world);
    }
    let recorded = seen.meta;
    let known = seq![
        StopAct::Asks(StopQuestionModel::Settings),
        StopAct::Does(TaskModel::SaveMeta(recorded)),
        StopAct::Does(TaskModel::UpsertSession(recorded)),
        StopAct::Does(
            TaskModel::AddEvent {
                session_id: meta.session_id,
                kind: EventKind::RecordingStopped,
                detail: "Audio capture stopped"@,
            },
        ),
        StopAct::Asks(StopQuestionModel::CaptureRuns),
    ];
    let audio = if world.capture_runs {
        seq![
            StopAct::Does(TaskModel::StopCapture),
            StopAct::Asks(
                StopQuestionModel::MixAudio {
                    file: "audio.opus"@,
                    bitrate_kbps: seen.bitrate_kbps,
                },
            ),
            StopAct::Does(TaskModel::CleanUpCapture),
        ]
    } else {
        seq![
            StopAct::Does(
                TaskModel::WriteSilence {
                    file: "audio.opus"@,
                    sample_rate: 48_000,
                    bitrate_kbps: seen.bitrate_kbps,
                },
            ),
        ]
    };
    let quiet = seq![
        StopAct::Does(TaskModel::ResetLevels),
        StopAct::Does(TaskModel::ShowRecording(false)),
    ];
    let spawned = if seen.runs_pipeline {
        seq![
            StopAct::Does(
                TaskModel::SpawnPipeline {
                    session_id: seen.meta.session_id,
                    invocation: PipelineInvocation::Run,
                    mode: PipelineMode::Full,
                },
            ),
        ]
    } else {
        Seq::empty()
    };
    assert(known + (audio + quiet + spawned) =~= known + audio + quiet + spawned);
}

/// Whatever a stop meets with, the audio file comes about as `audio.opus` and at the bitrate of the
/// settings, be it mixed from a capture or written without sound, and it is the one or the other
/// by whether a capture runs.
pub proof fn the_audio_file_has_the_bitrate_of_the_settings(
    meta: SessionModel,
    ended_at_iso: Seq<char>,
    world: StopWorld,
    i: int,
)
    requires
        0 <= i < StopModel::stopping(meta, ended_at_iso).course(world).len(),
    ensures
        match StopModel::stopping(meta, ended_at_iso).course(world)[i] {
            Act::Asks(StopQuestionModel::MixAudio { file, bitrate_kbps }) => {
                &&& world.capture_runs
                &&& world.settings is Ok
                &&& file == "audio.opus"@
                &&& bitrate_kbps == world.settings->Ok_0.opus_bitrate_kbps
            },
            Act::Does(TaskModel::WriteSilence { file, bitrate_kbps, .. }) => {
                &&& !world.capture_runs
                &&& world.settings is Ok
                &&& file == "audio.opus"@
                &&& bitrate_kbps == world.settings->Ok_0.opus_bitrate_kbps
            },
            _ => true,
        },
{
    let stop = StopModel::stopping(meta, ended_at_iso);
    a_stop_ends_at_the_first_task_that_fails(meta, ended_at_iso, world);
    let calm = world.undisturbed();
    let course = stop.course(world);
    assert(course[i] == stop.course(calm)[i]);
    if world.settings is Err || rfc3339_instant(meta.started_at_iso) is Err {
        the_course_of_a_stop_that_cannot_be_placed(meta, ended_at_iso, calm);
    } else {
        the_course_of_a_stop(meta, ended_at_iso, world.settings->Ok_0, calm);
    }
}

} // verus!
