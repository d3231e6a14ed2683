//! Starting and stopping a recording.
use crate::clock::{
    build_session_relative_dir, date_text, is_written_time, local_time, now_rfc3339, parse_rfc3339,
    rfc3339_instant, session_dir_text, summary_name, transcript_name, LocalTime,
};
use crate::pipeline::PipelineCaller;
use crate::script::{
    attempt, may, must, outcome_model, require, steps_model, Goal, GoalModel, Script, ScriptModel,
    Step, StepModel,
};
use crate::session::{
    source_of, source_tag, ArtifactsModel, SessionArtifacts, SessionMeta, SessionModel,
    SessionStatus, META_FILE,
};
use crate::settings::{
    device_if_set, is_root_of, joined, name_if_set, root_recordings_dir, session_dir,
    should_auto_run_pipeline_after_stop, PublicSettings, SettingsModel,
};
use crate::task::{publish, published, EventKind, Task, TaskModel};
use crate::text::{is_blank, optional_text, texts};
use crate::ui_sync::{UiModel, UiSyncState};
use vstd::prelude::*;

verus! {

/// What a recording is to be filed under.
#[derive(Debug)]
pub struct StartRecordingRequest {
    pub tags: Vec<String>,
    pub topic: String,
    pub participants: Vec<String>,
}

/// What a [`StartRecordingRequest`] says.
pub struct RequestModel {
    pub tags: Seq<Seq<char>>,
    pub topic: Seq<char>,
    pub participants: Seq<Seq<char>>,
}

impl View for StartRecordingRequest {
    type V = RequestModel;

    open spec fn view(&self) -> RequestModel {
        RequestModel {
            tags: texts(self.tags@),
            topic: self.topic@,
            participants: texts(self.participants@),
        }
    }
}

/// What is said of a recording that runs.
#[derive(Debug)]
pub struct StartRecordingResponse {
    pub session_id: String,
    pub session_dir: String,
    pub status: String,
}

/// What starting a recording has to know to go on.
#[derive(Debug)]
pub enum StartQuestion {
    /// What are the settings?
    Settings,
    /// Which device carries the sound of the system, if there is one?
    SystemSource,
    /// Does the capture from the devices start?
    Capture { mic: Option<String>, system: Option<String> },
}

/// What a [`StartQuestion`] says.
pub enum StartQuestionModel {
    Settings,
    SystemSource,
    Capture { mic: Option<Seq<char>>, system: Option<Seq<char>> },
}

impl View for StartQuestion {
    type V = StartQuestionModel;

    open spec fn view(&self) -> StartQuestionModel {
        match self {
            StartQuestion::Settings => StartQuestionModel::Settings,
            StartQuestion::SystemSource => StartQuestionModel::SystemSource,
            StartQuestion::Capture { mic, system } => StartQuestionModel::Capture {
                mic: optional_text(*mic),
                system: optional_text(*system),
            },
        }
    }
}

/// A recording that runs: its session, and what the form shows from now on.
#[derive(Debug)]
pub struct Started {
    pub meta: SessionMeta,
    /// The root of the recordings, and the directory of the session below it.
    pub root: String,
    pub relative_dir: String,
    pub ui: UiSyncState,
}

/// What a [`Started`] says.
pub struct StartedModel {
    pub meta: SessionModel,
    pub root: Seq<char>,
    pub relative_dir: Seq<char>,
    pub ui: UiModel,
}

impl View for Started {
    type V = StartedModel;

    open spec fn view(&self) -> StartedModel {
        StartedModel {
            meta: self.meta@,
            root: self.root@,
            relative_dir: self.relative_dir@,
            ui: self.ui@,
        }
    }
}

/// The start of a recording.
#[derive(Debug)]
pub struct StartRecording {
    pub meta: SessionMeta,
    /// The root of the recordings, and the directory of the session below it, once they are known.
    pub root: String,
    pub relative_dir: String,
    /// The microphone that the settings name.
    pub mic: Option<String>,
    pub script: Script<Task, StartQuestion, Started>,
}

/// What a [`StartRecording`] says.
pub struct StartModel {
    pub meta: SessionModel,
    pub root: Seq<char>,
    pub relative_dir: Seq<char>,
    pub mic: Option<Seq<char>>,
    pub script: ScriptModel<TaskModel, StartQuestionModel, StartedModel>,
}

impl View for StartRecording {
    type V = StartModel;

    open spec fn view(&self) -> StartModel {
        StartModel {
            meta: self.meta@,
            root: self.root@,
            relative_dir: self.relative_dir@,
            mic: optional_text(self.mic),
            script: self.script@,
        }
    }
}

/// Whether a text has the form of a random identifier: thirty-two hexadecimal digits in five groups,
/// with the digit of the version and that of the variant in their places.
pub open spec fn is_random_id(s: Seq<char>) -> bool {
    &&& s.len() == 36
    &&& forall|i: int|
        0 <= i < 36 ==> if i == 8 || i == 13 || i == 18 || i == 23 {
            #[trigger] s[i] == '-'
        } else {
            '0' <= s[i] <= '9' || 'a' <= s[i] <= 'f'
        }
    &&& s[14] == '4'
    &&& s[19] == '8' || s[19] == '9' || s[19] == 'a' || s[19] == 'b'
}

/// `uuid::Uuid::new_v4`, as text: a random identifier of version 4, in lower case and with hyphens.
#[verifier::external_body]
fn random_id() -> (r: String)
    ensures
        is_random_id(r@),
{
    uuid::Uuid::new_v4().to_string()
}

/// The files of a session that started at `at`.
pub open spec fn artifacts_at(at: LocalTime) -> ArtifactsModel {
    ArtifactsModel {
        audio_file: "audio.opus"@,
        transcript_file: "transcript_"@ + date_text(at) + ".txt"@,
        summary_file: "summary_"@ + date_text(at) + ".txt"@,
        meta_file: META_FILE@,
    }
}

/// Whether `at` is the time on some clock at the instant that `text` names.
pub open spec fn is_local_time_of(text: Seq<char>, at: LocalTime) -> bool {
    &&& rfc3339_instant(text) is Ok
    &&& at.wf()
    &&& -86_400 < at.wall_seconds() - rfc3339_instant(text)->Ok_0.seconds < 86_400
}

impl StartModel {
    /// The start of a recording under an identifier and at a time.
    pub open spec fn starting(
        request: RequestModel,
        session_id: Seq<char>,
        started_at_iso: Seq<char>,
    ) -> StartModel {
        StartModel {
            meta: SessionModel::starting(
                session_id,
                request.tags,
                request.topic,
                request.participants,
                started_at_iso,
            ),
            root: ""@,
            relative_dir: ""@,
            mic: None,
            script: ScriptModel::asking(Seq::empty(), StartQuestionModel::Settings),
        }
    }

    /// The start that comes to nothing.
    pub open spec fn over(self, error: Seq<char>) -> StartModel {
        StartModel { script: ScriptModel::finishing(Seq::empty(), Err(error)), ..self }
    }

    /// The start with its place among the recordings: the directory, the meta file, the entry in
    /// the index, the event and two empty files are made, in this order; then the devices are
    /// seen to.
    pub open spec fn prepared(
        self,
        settings: SettingsModel,
        root: Seq<char>,
        at: LocalTime,
    ) -> StartModel {
        let meta = SessionModel { artifacts: artifacts_at(at), ..self.meta };
        let relative_dir = session_dir_text(meta.primary_tag, at);
        let mic = name_if_set(settings.mic_device_name);
        let steps = seq![must(TaskModel::CreateSessionDir { root, relative_dir })] + published(meta, EventKind::RecordingStarted, "Session created"@) + seq![
            must(TaskModel::WriteText { file: meta.artifacts.transcript_file, text: ""@ }),
            must(TaskModel::WriteText { file: meta.artifacts.summary_file, text: ""@ }),
        ];
        StartModel {
            meta,
            root,
            relative_dir,
            mic,
            script: ScriptModel::asking(
                steps,
                if is_blank(settings.system_device_name) {
                    StartQuestionModel::SystemSource
                } else {
                    StartQuestionModel::Capture {
                        mic,
                        system: Some(settings.system_device_name),
                    }
                },
            ),
        }
    }

    /// The start once a device for the sound of the system was looked for.
    pub open spec fn after_source(
        self,
        source: Result<Option<Seq<char>>, Seq<char>>,
    ) -> StartModel {
        match source {
            Err(e) => self.over(e),
            Ok(system) => StartModel {
                script: ScriptModel::asking(
                    Seq::empty(),
                    StartQuestionModel::Capture { mic: self.mic, system },
                ),
                ..self
            },
        }
    }

    /// The start once it is known whether the capture runs.
    pub open spec fn after_capture(self, outcome: Result<(), Seq<char>>) -> StartModel {
        match outcome {
            Err(e) => self.over(e),
            Ok(()) => StartModel {
                script: ScriptModel::finishing(
                    seq![may(TaskModel::ShowRecording(true))],
                    Ok(
                        StartedModel {
                            meta: self.meta,
                            root: self.root,
                            relative_dir: self.relative_dir,
                            ui: UiModel {
                                source: source_of(self.meta.tags),
                                topic: self.meta.topic,
                            },
                        },
                    ),
                ),
                ..self
            },
        }
    }

    /// The start after its first task came to `outcome`.
    pub open spec fn settled(self, outcome: Result<(), Seq<char>>) -> StartModel {
        StartModel { script: self.script.settled(outcome), ..self }
    }
}

/// What came of looking for a device.
pub open spec fn source_model(source: Result<Option<String>, String>) -> Result<
    Option<Seq<char>>,
    Seq<char>,
> {
    match source {
        Ok(s) => Ok(optional_text(s)),
        Err(e) => Err(e@),
    }
}

impl StartRecording {
    /// Begins a recording, unless the request was refused or a recording runs already. The session
    /// gets a random identifier and the present time.
    pub fn begin(
        request: StartRecordingRequest,
        validation: Result<(), String>,
        recording_active: bool,
    ) -> (r: Result<StartRecording, String>)
        ensures
            match r {
                Err(e) => match validation {
                    Err(refused) => e == refused,
                    Ok(()) => recording_active && e@ == "Recording already active"@,
                },
                Ok(s) => {
                    &&& validation is Ok
                    &&& !recording_active
                    &&& is_written_time(s@.meta.started_at_iso)
                    &&& is_random_id(s@.meta.session_id)
                    &&& s@ == StartModel::starting(
                        request@,
                        s@.meta.session_id,
                        s@.meta.started_at_iso,
                    )
                },
            },
    {
        match validation {
            Err(e) => Err(e),
            Ok(()) => {
                if recording_active {
                    Err("Recording already active".to_owned())
                } else {
                    Ok(StartRecording::begin_with(request, random_id(), now_rfc3339()))
                }
            },
        }
    }

    /// Begins a recording under an identifier and at a time.
    pub fn begin_with(
        request: StartRecordingRequest,
        session_id: String,
        started_at_iso: String,
    ) -> (r: StartRecording)
        ensures
            r@ == StartModel::starting(request@, session_id@, started_at_iso@),
    {
        let steps: Vec<Step<Task>> = Vec::new();
        assert(steps_model(steps@) =~= Seq::<StepModel<TaskModel>>::empty());
        StartRecording {
            meta: SessionMeta::starting(
                session_id,
                request.tags,
                request.topic,
                request.participants,
                started_at_iso,
            ),
            root: "".to_owned(),
            relative_dir: "".to_owned(),
            mic: None,
            script: Script { steps, goal: Goal::Ask(StartQuestion::Settings) },
        }
    }

    /// Takes note of what came of the first task of the script.
    pub fn settle(&mut self, outcome: Result<(), String>)
        requires
            old(self).script.steps@.len() > 0,
        ensures
            final(self)@ == old(self)@.settled(outcome_model(outcome)),
    {
        self.script.settle(outcome);
    }

    fn end(&mut self, error: String)
        ensures
            final(self)@ == old(self)@.over(error@),
    {
        let steps: Vec<Step<Task>> = Vec::new();
        assert(steps_model(steps@) =~= Seq::<StepModel<TaskModel>>::empty());
        self.script = Script { steps, goal: Goal::Finish(Err(error)) };
    }

    /// Goes on with the settings. The directory of the session is named after the time of its start
    /// on the clock of the machine.
    pub fn settings_loaded(
        &mut self,
        settings: Result<PublicSettings, String>,
        app_data_dir: &str,
    )
        requires
            old(self).script.steps@.len() == 0,
            old(self)@.script.goal matches GoalModel::Ask(StartQuestionModel::Settings),
        ensures
            match (settings, rfc3339_instant(old(self)@.meta.started_at_iso)) {
                (Err(e), _) => final(self)@ == old(self)@.over(e@),
                (Ok(_), Err(e)) => final(self)@ == old(self)@.over(e),
                (Ok(s), Ok(_)) => exists|root: Seq<char>, at: LocalTime|
                    {
                        &&& is_root_of(app_data_dir@, s@, root)
                        &&& is_local_time_of(old(self)@.meta.started_at_iso, at)
                        &&& final(self)@ == #[trigger] old(self)@.prepared(s@, root, at)
                    },
            },
    {
        match settings {
            Err(e) => {
                self.end(e);
            },
            Ok(settings) => match parse_rfc3339(self.meta.started_at_iso.as_str()) {
                Err(e) => {
                    self.end(e);
                },
                Ok(instant) => match root_recordings_dir(app_data_dir, &settings) {
                    Err(e) => {
                        self.end(e);
                    },
                    Ok(root) => {
                        let at = local_time(instant);
                        let ghost root_text = root@;
                        self.prepare(&settings, root, at);
                        assert(is_root_of(app_data_dir@, settings@, root_text));
                        assert(is_local_time_of(old(self)@.meta.started_at_iso, at));
                    },
                },
            },
        }
    }

    /// Gives the session its place among the recordings, where the time of its start on the clock of
    /// the machine is known.
    pub fn prepare(&mut self, settings: &PublicSettings, root: String, at: LocalTime)
        requires
            old(self).script.steps@.len() == 0,
            old(self)@.script.goal matches GoalModel::Ask(StartQuestionModel::Settings),
        ensures
            final(self)@ == old(self)@.prepared(settings@, root@, at),
    {
        let ghost root_text = root@;
        self.relative_dir = build_session_relative_dir(self.meta.primary_tag.as_str(), at);
        self.root = root;
        self.meta.artifacts = SessionArtifacts {
            audio_file: "audio.opus".to_owned(),
            transcript_file: transcript_name(at),
            summary_file: summary_name(at),
            meta_file: META_FILE.to_owned(),
        };
        self.mic = device_if_set(settings.mic_device_name.as_str());
        let mut steps: Vec<Step<Task>> = Vec::new();
        let relative_dir = self.relative_dir.clone();
        require(&mut steps, Task::CreateSessionDir { root: self.root.clone(), relative_dir });
        publish(&mut steps, &self.meta, EventKind::RecordingStarted, "Session created");
        let file = self.meta.artifacts.transcript_file.clone();
        require(&mut steps, Task::WriteText { file, text: "".to_owned() });
        let file = self.meta.artifacts.summary_file.clone();
        require(&mut steps, Task::WriteText { file, text: "".to_owned() });
        let goal = match device_if_set(settings.system_device_name.as_str()) {
            None => Goal::Ask(StartQuestion::SystemSource),
            Some(system) => {
                let mic = device_if_set(settings.mic_device_name.as_str());
                Goal::Ask(StartQuestion::Capture { mic, system: Some(system) })
            },
        };
        self.script = Script { steps, goal };
        assert(self@.script.steps =~= old(self)@.prepared(settings@, root_text, at).script.steps);
    }

    /// Goes on once a device for the sound of the system was looked for.
    pub fn source_detected(&mut self, source: Result<Option<String>, String>)
        requires
            old(self).script.steps@.len() == 0,
            old(self)@.script.goal matches GoalModel::Ask(StartQuestionModel::SystemSource),
        ensures
            final(self)@ == old(self)@.after_source(source_model(source)),
    {
        match source {
            Err(e) => {
                self.end(e);
            },
            Ok(system) => {
                let steps: Vec<Step<Task>> = Vec::new();
                assert(steps_model(steps@) =~= Seq::<StepModel<TaskModel>>::empty());
                let mic = match &self.mic {
                    Some(m) => Some(m.clone()),
                    None => None,
                };
                self.script = Script {
                    steps,
                    goal: Goal::Ask(StartQuestion::Capture { mic, system }),
                };
            },
        }
    }

    /// Goes on once it is known whether the capture runs.
    pub fn capture_started(&mut self, outcome: Result<(), String>)
        requires
            old(self).script.steps@.len() == 0,
            old(self)@.script.goal matches GoalModel::Ask(StartQuestionModel::Capture { .. }),
        ensures
            final(self)@ == old(self)@.after_capture(outcome_model(outcome)),
    {
        match outcome {
            Err(e) => {
                self.end(e);
            },
            Ok(()) => {
                let mut steps: Vec<Step<Task>> = Vec::new();
                attempt(&mut steps, Task::ShowRecording(true));
                assert(steps_model(steps@) =~= seq![may(TaskModel::ShowRecording(true))]);
                let ui = UiSyncState {
                    source: source_tag(&self.meta.tags),
                    topic: self.meta.topic.clone(),
                };
                let started = Started {
                    meta: self.meta.clone(),
                    root: self.root.clone(),
                    relative_dir: self.relative_dir.clone(),
                    ui,
                };
                self.script = Script { steps, goal: Goal::Finish(Ok(started)) };
            },
        }
    }
}

/// What stopping a recording has to know to go on.
#[derive(Debug)]
pub enum StopQuestion {
    /// What are the settings?
    Settings,
    /// Does a capture run?
    CaptureRuns,
    /// Can what was captured be mixed into the audio file?
    MixAudio { file: String, bitrate_kbps: u32 },
}

/// What a [`StopQuestion`] says.
pub enum StopQuestionModel {
    Settings,
    CaptureRuns,
    MixAudio { file: Seq<char>, bitrate_kbps: u32 },
}

impl View for StopQuestion {
    type V = StopQuestionModel;

    open spec fn view(&self) -> StopQuestionModel {
        match self {
            StopQuestion::Settings => StopQuestionModel::Settings,
            StopQuestion::CaptureRuns => StopQuestionModel::CaptureRuns,
            StopQuestion::MixAudio { file, bitrate_kbps } => StopQuestionModel::MixAudio {
                file: file@,
                bitrate_kbps: *bitrate_kbps,
            },
        }
    }
}

/// The end of a recording.
#[derive(Debug)]
pub struct StopRecording {
    pub meta: SessionMeta,
    /// The root of the recordings, and the directory of the session below it, once they are known.
    pub root: String,
    pub relative_dir: String,
    pub bitrate_kbps: u32,
    /// Whether the recording is handed to the pipeline by itself.
    pub runs_pipeline: bool,
    pub script: Script<Task, StopQuestion, String>,
}

/// What a [`StopRecording`] says.
pub struct StopModel {
    pub meta: SessionModel,
    pub root: Seq<char>,
    pub relative_dir: Seq<char>,
    pub bitrate_kbps: u32,
    pub runs_pipeline: bool,
    pub script: ScriptModel<TaskModel, StopQuestionModel, Seq<char>>,
}

impl View for StopRecording {
    type V = StopModel;

    open spec fn view(&self) -> StopModel {
        StopModel {
            meta: self.meta@,
            root: self.root@,
            relative_dir: self.relative_dir@,
            bitrate_kbps: self.bitrate_kbps,
            runs_pipeline: self.runs_pipeline,
            script: self.script@,
        }
    }
}

/// Whether a request to stop, which may name a session, is meant for the active one.
pub open spec fn stop_is_meant_for(active_id: Seq<char>, requested: Option<Seq<char>>) -> bool {
    match requested {
        Some(id) => id == active_id,
        None => true,
    }
}

/// The text of an optional string slice.
pub open spec fn optional_slice(s: Option<&str>) -> Option<Seq<char>> {
    match s {
        Some(t) => Some(t@),
        None => None,
    }
}

/// Refuses a request to stop that names a session other than the active one.
pub fn ensure_stop_session_matches(active_id: &str, requested: Option<&str>) -> (r: Result<
    (),
    String,
>)
    ensures
        match r {
            Ok(()) => stop_is_meant_for(active_id@, optional_slice(requested)),
            Err(e) => !stop_is_meant_for(active_id@, optional_slice(requested)) && e@
                == "Session id does not match the active recording"@,
        },
{
    match requested {
        Some(id) => {
            if *id == *active_id {
                Ok(())
            } else {
                Err("Session id does not match the active recording".to_owned())
            }
        },
        None => Ok(()),
    }
}

/// The session that a request stops, or why it stops none.
pub open spec fn stopped_session(
    active: Option<SessionMeta>,
    requested: Option<&str>,
) -> Result<SessionModel, Seq<char>> {
    match active {
        None => Err("No active recording session"@),
        Some(m) => if stop_is_meant_for(m@.session_id, optional_slice(requested)) {
            Ok(m@)
        } else {
            Err("Session id does not match the active recording"@)
        },
    }
}

/// The run of the pipeline that follows on the end of a recording.
pub open spec fn spawned_run(session_id: Seq<char>) -> TaskModel {
    TaskModel::SpawnPipeline {
        session_id,
        invocation: PipelineCaller::StoppedRecording.asks_for().0,
        mode: PipelineCaller::StoppedRecording.asks_for().1,
    }
}

impl StopModel {
    /// The end of a recording at a time.
    pub open spec fn stopping(meta: SessionModel, ended_at_iso: Seq<char>) -> StopModel {
        StopModel {
            meta: SessionModel {
                status: SessionStatus::Recorded,
                ended_at_iso: Some(ended_at_iso),
                ..meta
            },
            root: ""@,
            relative_dir: ""@,
            bitrate_kbps: 0,
            runs_pipeline: false,
            script: ScriptModel::asking(Seq::empty(), StopQuestionModel::Settings),
        }
    }

    /// The end that goes wrong.
    pub open spec fn over(self, error: Seq<char>) -> StopModel {
        StopModel { script: ScriptModel::finishing(Seq::empty(), Err(error)), ..self }
    }

    /// The end in the directory where the recording was started: that it has ended is made known
    /// before the capture is seen to.
    pub open spec fn placed(
        self,
        settings: SettingsModel,
        root: Seq<char>,
        at: LocalTime,
    ) -> StopModel {
        StopModel {
            root,
            relative_dir: session_dir_text(self.meta.primary_tag, at),
            bitrate_kbps: settings.opus_bitrate_kbps,
            runs_pipeline: settings.runs_pipeline_by_itself(),
            script: ScriptModel::asking(
                published(self.meta, EventKind::RecordingStopped, "Audio capture stopped"@),
                StopQuestionModel::CaptureRuns,
            ),
            ..self
        }
    }

    /// What is left to do once the audio file is written.
    pub open spec fn winding_down(self) -> Seq<StepModel<TaskModel>> {
        let quiet = seq![may(TaskModel::ResetLevels), may(TaskModel::ShowRecording(false))];
        if self.runs_pipeline {
            quiet.push(may(spawned_run(self.meta.session_id)))
        } else {
            quiet
        }
    }

    /// The end once it is known whether a capture runs: it is stopped and mixed; where none runs
    /// the audio file is written without sound.
    pub open spec fn after_capture(self, running: bool) -> StopModel {
        StopModel {
            script: if running {
                ScriptModel::asking(
                    seq![must(TaskModel::StopCapture)],
                    StopQuestionModel::MixAudio {
                        file: "audio.opus"@,
                        bitrate_kbps: self.bitrate_kbps,
                    },
                )
            } else {
                ScriptModel::finishing(
                    seq![
                        must(
                            TaskModel::WriteSilence {
                                file: "audio.opus"@,
                                sample_rate: 48_000,
                                bitrate_kbps: self.bitrate_kbps,
                            },
                        ),
                    ] + self.winding_down(),
                    Ok("recorded"@),
                )
            },
            ..self
        }
    }

    /// The end once it is known whether the audio file could be mixed. What was captured is removed
    /// either way.
    pub open spec fn after_mix(self, outcome: Result<(), Seq<char>>) -> StopModel {
        StopModel {
            script: match outcome {
                Ok(()) => ScriptModel::finishing(
                    seq![may(TaskModel::CleanUpCapture)] + self.winding_down(),
                    Ok("recorded"@),
                ),
                Err(e) => ScriptModel::finishing(seq![may(TaskModel::CleanUpCapture)], Err(e)),
            },
            ..self
        }
    }

    /// The end after its first task came to `outcome`.
    pub open spec fn settled(self, outcome: Result<(), Seq<char>>) -> StopModel {
        StopModel { script: self.script.settled(outcome), ..self }
    }
}

impl StopRecording {
    /// Begins to end the active recording, now. Whatever comes of it, no recording is active any
    /// more.
    pub fn begin(active: &mut Option<SessionMeta>, session_id: Option<&str>) -> (r: Result<
        StopRecording,
        String,
    >)
        ensures
            *final(active) is None,
            match r {
                Ok(s) => {
                    &&& stopped_session(*old(active), session_id) is Ok
                    &&& s@.meta.ended_at_iso is Some
                    &&& is_written_time(s@.meta.ended_at_iso->Some_0)
                    &&& s@ == StopModel::stopping(
                        stopped_session(*old(active), session_id)->Ok_0,
                        s@.meta.ended_at_iso->Some_0,
                    )
                },
                Err(e) => stopped_session(*old(active), session_id) == Err::<
                    SessionModel,
                    Seq<char>,
                >(e@),
            },
    {
        StopRecording::begin_with(active, session_id, now_rfc3339())
    }

    /// Begins to end the active recording at a time.
    pub fn begin_with(
        active: &mut Option<SessionMeta>,
        session_id: Option<&str>,
        ended_at_iso: String,
    ) -> (r: Result<StopRecording, String>)
        ensures
            *final(active) is None,
            match r {
                Ok(s) => {
                    &&& stopped_session(*old(active), session_id) is Ok
                    &&& s@ == StopModel::stopping(
                        stopped_session(*old(active), session_id)->Ok_0,
                        ended_at_iso@,
                    )
                },
                Err(e) => stopped_session(*old(active), session_id) == Err::<
                    SessionModel,
                    Seq<char>,
                >(e@),
            },
    {
        match active.take() {
            None => Err("No active recording session".to_owned()),
            Some(taken) => {
                let mut meta = taken;
                match ensure_stop_session_matches(meta.session_id.as_str(), session_id) {
                    Err(e) => Err(e),
                    Ok(()) => {
                        meta.status = SessionStatus::Recorded;
                        meta.ended_at_iso = Some(ended_at_iso);
                        let steps: Vec<Step<Task>> = Vec::new();
                        assert(steps_model(steps@) =~= Seq::<StepModel<TaskModel>>::empty());
                        Ok(
                            StopRecording {
                                meta,
                                root: "".to_owned(),
                                relative_dir: "".to_owned(),
                                bitrate_kbps: 0,
                                runs_pipeline: false,
                                script: Script { steps, goal: Goal::Ask(StopQuestion::Settings) },
                            },
                        )
                    },
                }
            },
        }
    }

    /// Takes note of what came of the first task of the script.
    pub fn settle(&mut self, outcome: Result<(), String>)
        requires
            old(self).script.steps@.len() > 0,
        ensures
            final(self)@ == old(self)@.settled(outcome_model(outcome)),
    {
        self.script.settle(outcome);
    }

    fn end(&mut self, error: String)
        ensures
            final(self)@ == old(self)@.over(error@),
    {
        let steps: Vec<Step<Task>> = Vec::new();
        assert(steps_model(steps@) =~= Seq::<StepModel<TaskModel>>::empty());
        self.script = Script { steps, goal: Goal::Finish(Err(error)) };
    }

    /// Goes on with the settings. The directory of the session is the one named after the time of
    /// its start on the clock of the machine.
    pub fn settings_loaded(
        &mut self,
        settings: Result<PublicSettings, String>,
        app_data_dir: &str,
    )
        requires
            old(self).script.steps@.len() == 0,
            old(self)@.script.goal matches GoalModel::Ask(StopQuestionModel::Settings),
        ensures
            match (settings, rfc3339_instant(old(self)@.meta.started_at_iso)) {
                (Err(e), _) => final(self)@ == old(self)@.over(e@),
                (Ok(_), Err(e)) => final(self)@ == old(self)@.over(e),
                (Ok(s), Ok(_)) => exists|root: Seq<char>, at: LocalTime|
                    {
                        &&& is_root_of(app_data_dir@, s@, root)
                        &&& is_local_time_of(old(self)@.meta.started_at_iso, at)
                        &&& final(self)@ == #[trigger] old(self)@.placed(s@, root, at)
                    },
            },
    {
        match settings {
            Err(e) => {
                self.end(e);
            },
            Ok(settings) => match parse_rfc3339(self.meta.started_at_iso.as_str()) {
                Err(e) => {
                    self.end(e);
                },
                Ok(instant) => match root_recordings_dir(app_data_dir, &settings) {
                    Err(e) => {
                        self.end(e);
                    },
                    Ok(root) => {
                        let at = local_time(instant);
                        let ghost root_text = root@;
                        self.place(&settings, root, at);
                        assert(is_root_of(app_data_dir@, settings@, root_text));
                        assert(is_local_time_of(old(self)@.meta.started_at_iso, at));
                    },
                },
            },
        }
    }

    /// Finds the directory of the session, where the time of its start on the clock of the machine
    /// is known.
    pub fn place(&mut self, settings: &PublicSettings, root: String, at: LocalTime)
        requires
            old(self).script.steps@.len() == 0,
            old(self)@.script.goal matches GoalModel::Ask(StopQuestionModel::Settings),
        ensures
            final(self)@ == old(self)@.placed(settings@, root@, at),
    {
        self.root = root;
        self.relative_dir = build_session_relative_dir(self.meta.primary_tag.as_str(), at);
        self.bitrate_kbps = settings.opus_bitrate_kbps;
        self.runs_pipeline = should_auto_run_pipeline_after_stop(settings);
        let mut steps: Vec<Step<Task>> = Vec::new();
        publish(&mut steps, &self.meta, EventKind::RecordingStopped, "Audio capture stopped");
        assert(steps_model(steps@) =~= published(
            self.meta@,
            EventKind::RecordingStopped,
            "Audio capture stopped"@,
        ));
        self.script = Script { steps, goal: Goal::Ask(StopQuestion::CaptureRuns) };
    }

    fn wind_down(&self, steps: &mut Vec<Step<Task>>)
        ensures
            steps_model(final(steps)@) == steps_model(old(steps)@) + self@.winding_down(),
    {
        attempt(steps, Task::ResetLevels);
        attempt(steps, Task::ShowRecording(false));
        if self.runs_pipeline {
            let (invocation, mode) = PipelineCaller::StoppedRecording.request();
            let session_id = self.meta.session_id.clone();
            attempt(steps, Task::SpawnPipeline { session_id, invocation, mode });
        }
        assert(steps_model(steps@) =~= steps_model(old(steps)@) + self@.winding_down());
    }

    /// Goes on once it is known whether a capture runs.
    pub fn capture_found(&mut self, running: bool)
        requires
            old(self).script.steps@.len() == 0,
            old(self)@.script.goal matches GoalModel::Ask(StopQuestionModel::CaptureRuns),
        ensures
            final(self)@ == old(self)@.after_capture(running),
    {
        let mut steps: Vec<Step<Task>> = Vec::new();
        let bitrate_kbps: u32 = self.bitrate_kbps;
        let file = "audio.opus".to_owned();
        let goal = if running {
            require(&mut steps, Task::StopCapture);
            Goal::Ask(StopQuestion::MixAudio { file, bitrate_kbps })
        } else {
            require(&mut steps, Task::WriteSilence { file, sample_rate: 48_000, bitrate_kbps });
            self.wind_down(&mut steps);
            Goal::Finish(Ok("recorded".to_owned()))
        };
        assert(steps_model(steps@) =~= old(self)@.after_capture(running).script.steps);
        self.script = Script { steps, goal };
    }

    /// Goes on once it is known whether the audio file could be mixed.
    pub fn audio_mixed(&mut self, outcome: Result<(), String>)
        requires
            old(self).script.steps@.len() == 0,
            old(self)@.script.goal matches GoalModel::Ask(StopQuestionModel::MixAudio { .. }),
        ensures
            final(self)@ == old(self)@.after_mix(outcome_model(outcome)),
    {
        let mut steps: Vec<Step<Task>> = Vec::new();
        attempt(&mut steps, Task::CleanUpCapture);
        let goal = match outcome {
            Ok(()) => {
                self.wind_down(&mut steps);
                Goal::Finish(Ok("recorded".to_owned()))
            },
            Err(e) => Goal::Finish(Err(e)),
        };
        assert(steps_model(steps@) =~= old(self)@.after_mix(outcome_model(outcome)).script.steps);
        self.script = Script { steps, goal };
    }
}

/// Tells the user of a recording that runs, and where it is kept.
pub fn start_response(started: &Started) -> (r: StartRecordingResponse)
    ensures
        r.session_id@ == started@.meta.session_id,
        joined(started@.root, started@.relative_dir, r.session_dir@),
        r.status@ == "recording"@,
{
    StartRecordingResponse {
        session_id: started.meta.session_id.clone(),
        session_dir: session_dir(started.root.as_str(), started.relative_dir.as_str()),
        status: "recording".to_owned(),
    }
}

} // verus!
