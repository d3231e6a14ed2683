use bigecho::api_log::{api_call_log_line, append_api_call_log_line, API_CALLS_FILE};
use bigecho::catalog::{
    list_sessions, CatalogEntry, DeleteQuestion, DeleteSession, SessionFiles, SessionListItem,
};
use bigecho::clock::LocalTime;
use bigecho::details::{get_session_meta, update_session_details, UpdateSessionDetailsRequest};
use bigecho::pipeline::{
    schedule_retry_for_session, PipelineCaller, PipelineInvocation, PipelineMode, PipelineQuestion,
    PipelineRun, MAX_PIPELINE_RETRY_ATTEMPTS,
};
use bigecho::recording::{
    start_response, StartQuestion, StartRecording, StartRecordingRequest, Started, StopQuestion,
    StopRecording,
};
use bigecho::retry::{next_retry_attempt, RetryPass, RetryQuestion};
use bigecho::script::Goal;
use bigecho::session::{FoundSession, SessionMeta, SessionStatus};
use bigecho::settings::PublicSettings;
use bigecho::task::{EventKind, Task};
use bigecho::ui_sync::{get_ui_sync_state, is_recording_active, set_ui_sync_state, UiSyncState};
use std::collections::{BTreeMap, BTreeSet};

/// A machine in memory: files, the index, the queue of retries, the services and the devices.
struct World {
    settings: PublicSettings,
    dirs: BTreeSet<String>,
    metas: BTreeMap<String, SessionMeta>,
    index: BTreeMap<String, String>,
    files: BTreeMap<(String, String), String>,
    events: Vec<(String, String, String)>,
    retry: BTreeMap<String, i64>,
    nexara: Result<String, String>,
    transcription: Result<String, String>,
    summary: Result<String, String>,
    active: Option<SessionMeta>,
    ui: UiSyncState,
    capture: bool,
    captured: bool,
    devices: Option<(Option<String>, Option<String>)>,
    mix: Result<(), String>,
    tray_recording: bool,
    levels_reset: bool,
    spawned: Vec<(String, PipelineInvocation, PipelineMode)>,
    failing: Option<&'static str>,
}

impl World {
    fn new() -> World {
        World {
            settings: PublicSettings::default(),
            dirs: BTreeSet::new(),
            metas: BTreeMap::new(),
            index: BTreeMap::new(),
            files: BTreeMap::new(),
            events: Vec::new(),
            retry: BTreeMap::new(),
            nexara: Ok("key".to_string()),
            transcription: Ok("mock transcript".to_string()),
            summary: Ok("mock summary".to_string()),
            active: None,
            ui: UiSyncState::default(),
            capture: false,
            captured: false,
            devices: None,
            mix: Ok(()),
            tray_recording: false,
            levels_reset: false,
            spawned: Vec::new(),
            failing: None,
        }
    }

    fn seed_missing_audio(&mut self, id: &str) {
        self.settings = PublicSettings {
            recording_root: "/data/recordings".to_string(),
            transcription_url: "http://127.0.0.1/transcribe".to_string(),
            transcription_task: "transcribe".to_string(),
            transcription_diarization_setting: "general".to_string(),
            summary_url: "http://127.0.0.1/summary".to_string(),
            summary_prompt: "Есть стенограмма встречи. Подготовь краткое саммари.".to_string(),
            openai_model: "gpt-4.1-mini".to_string(),
            opus_bitrate_kbps: 24,
            mic_device_name: String::new(),
            system_device_name: String::new(),
            auto_run_pipeline_on_stop: false,
            api_call_logging_enabled: false,
        };
        let mut meta = SessionMeta::new(
            id.to_string(),
            vec!["zoom".to_string()],
            "Weekly sync".to_string(),
            vec!["Alice".to_string()],
        );
        meta.artifacts.audio_file = "audio.opus".to_string();
        meta.artifacts.transcript_file = "transcript.txt".to_string();
        meta.artifacts.summary_file = "summary.txt".to_string();
        self.dirs.insert(id.to_string());
        self.index.insert(id.to_string(), meta.status.name().to_string());
        self.metas.insert(id.to_string(), meta);
    }

    fn seed_ready(&mut self, id: &str) {
        self.seed_missing_audio(id);
        self.files.insert((id.to_string(), "audio.opus".to_string()), "OggS".to_string());
    }

    fn settings(&self) -> Result<PublicSettings, String> {
        Ok(PublicSettings {
            recording_root: self.settings.recording_root.clone(),
            transcription_url: self.settings.transcription_url.clone(),
            transcription_task: self.settings.transcription_task.clone(),
            transcription_diarization_setting: self
                .settings
                .transcription_diarization_setting
                .clone(),
            summary_url: self.settings.summary_url.clone(),
            summary_prompt: self.settings.summary_prompt.clone(),
            openai_model: self.settings.openai_model.clone(),
            opus_bitrate_kbps: self.settings.opus_bitrate_kbps,
            mic_device_name: self.settings.mic_device_name.clone(),
            system_device_name: self.settings.system_device_name.clone(),
            auto_run_pipeline_on_stop: self.settings.auto_run_pipeline_on_stop,
            api_call_logging_enabled: self.settings.api_call_logging_enabled,
        })
    }

    fn find(&self, id: &str) -> Result<Option<FoundSession>, String> {
        Ok(self.index.get(id).map(|_| FoundSession { has_directory: true }))
    }

    fn meta(&self, id: &str) -> Result<SessionMeta, String> {
        self.metas.get(id).cloned().ok_or("no meta file".to_string())
    }

    fn file(&self, id: &str, name: &str) -> Option<String> {
        self.files.get(&(id.to_string(), name.to_string())).cloned()
    }

    fn schedule(&mut self, id: &str, max: i64) -> Option<i64> {
        let next = next_retry_attempt(self.retry.get(id).copied(), max);
        match next {
            Some(n) => self.retry.insert(id.to_string(), n),
            None => self.retry.remove(id),
        };
        next
    }

    fn due(&self, limit: usize) -> Vec<String> {
        self.retry.keys().take(limit).cloned().collect()
    }

    fn has_event(&self, id: &str, kind: &str) -> bool {
        self.events.iter().any(|e| e.0 == id && e.1 == kind)
    }

    fn perform(&mut self, id: &str, task: &Task) -> Result<(), String> {
        let name = match task {
            Task::CreateSessionDir { .. } => "CreateSessionDir",
            Task::SaveMeta(_) => "SaveMeta",
            Task::UpsertSession(_) => "UpsertSession",
            Task::AddEvent { .. } => "AddEvent",
            Task::AppendApiCall { .. } => "AppendApiCall",
            Task::WriteText { .. } => "WriteText",
            Task::TakeCapture => "TakeCapture",
            Task::StopCapture => "StopCapture",
            Task::RemoveDirectory => "RemoveDirectory",
            _ => "",
        };
        if self.failing == Some(name) {
            return Err(format!("{name} failed"));
        }
        match task {
            Task::CreateSessionDir { .. } => {
                self.dirs.insert(id.to_string());
            }
            Task::SaveMeta(m) => {
                self.metas.insert(m.session_id.clone(), m.clone());
            }
            Task::UpsertSession(m) => {
                self.index.insert(m.session_id.clone(), m.status.name().to_string());
            }
            Task::AddEvent { session_id, kind, detail } => {
                self.events.push((session_id.clone(), kind.name().to_string(), detail.clone()));
            }
            Task::AppendApiCall { kind, detail } => {
                let line = api_call_log_line("now", *kind, detail);
                let key = (id.to_string(), API_CALLS_FILE.to_string());
                let log = self.files.entry(key).or_default();
                log.push_str(&line);
                log.push('\n');
            }
            Task::WriteText { file, text } => {
                self.files.insert((id.to_string(), file.clone()), text.clone());
            }
            Task::ClearRetryJob { session_id } => {
                self.retry.remove(session_id);
            }
            Task::TakeCapture => {}
            Task::StopCapture => {
                self.capture = false;
                self.captured = true;
            }
            Task::CleanUpCapture => self.captured = false,
            Task::WriteSilence { file, sample_rate, bitrate_kbps } => {
                let text = format!("silence {sample_rate} {bitrate_kbps}");
                self.files.insert((id.to_string(), file.clone()), text);
            }
            Task::ResetLevels => self.levels_reset = true,
            Task::ShowRecording(on) => self.tray_recording = *on,
            Task::ForgetActiveSession => self.active = None,
            Task::SpawnPipeline { session_id, invocation, mode } => {
                self.spawned.push((session_id.clone(), *invocation, *mode));
            }
            Task::RemoveDirectory => {
                self.dirs.remove(id);
                self.metas.remove(id);
                self.files.retain(|k, _| k.0 != id);
            }
            Task::RemoveFile => {
                self.dirs.remove(id);
            }
        }
        Ok(())
    }

    fn run_pipeline(
        &mut self,
        id: &str,
        invocation: PipelineInvocation,
        mode: PipelineMode,
    ) -> Result<String, String> {
        let mut run =
            PipelineRun::open(self.settings(), self.find(id), self.meta(id), invocation, mode)?;
        loop {
            if let Some(task) = run.script.next_task() {
                let outcome = self.perform(id, task);
                run.settle(outcome);
                continue;
            }
            match &run.script.goal {
                Goal::Finish(result) => return result.clone(),
                Goal::Ask(PipelineQuestion::AudioFile { file }) => {
                    let present = self.file(id, file).is_some();
                    run.audio_checked(present);
                }
                Goal::Ask(PipelineQuestion::Keys) => {
                    run.keys_read(self.nexara.clone(), Ok("openai".to_string()));
                }
                Goal::Ask(PipelineQuestion::Transcription { .. }) => {
                    run.transcribed(self.transcription.clone());
                }
                Goal::Ask(PipelineQuestion::TranscriptFile { file }) => {
                    let content = self.file(id, file).ok_or("cannot read".to_string());
                    run.transcript_file_read(content);
                }
                Goal::Ask(PipelineQuestion::Summary { transcript, .. }) => {
                    assert!(!transcript.is_empty());
                    run.summarized(self.summary.clone());
                }
                Goal::Ask(PipelineQuestion::Retry { session_id, max_attempts, .. }) => {
                    let attempt = self.schedule(&session_id.clone(), *max_attempts);
                    run.retry_answered(Ok(attempt));
                }
            }
        }
    }

    fn process_retry_jobs_once(&mut self, now_epoch: i64, limit: usize) -> Result<(), String> {
        let mut pass = RetryPass::new(now_epoch, limit);
        loop {
            if let Some(task) = pass.script.next_task() {
                let outcome = self.perform("", task);
                pass.settle(outcome);
                continue;
            }
            match &pass.script.goal {
                Goal::Finish(result) => return result.clone(),
                Goal::Ask(RetryQuestion::DueJobs { limit, .. }) => {
                    let jobs = self.due(*limit);
                    pass.jobs_fetched(Ok(jobs));
                }
                Goal::Ask(RetryQuestion::RunPipeline { session_id, invocation, mode }) => {
                    let result = self.run_pipeline(&session_id.clone(), *invocation, *mode);
                    pass.run_finished(result);
                }
                Goal::Ask(RetryQuestion::Retry { session_id, max_attempts, .. }) => {
                    let attempt = self.schedule(&session_id.clone(), *max_attempts);
                    pass.retry_answered(Ok(attempt));
                }
            }
        }
    }

    fn drive_start(&mut self, mut start: StartRecording) -> Result<Started, String> {
        loop {
            let id = start.meta.session_id.clone();
            if let Some(task) = start.script.next_task() {
                let outcome = self.perform(&id, task);
                start.settle(outcome);
                continue;
            }
            match &start.script.goal {
                Goal::Finish(Ok(started)) => {
                    self.active = Some(started.meta.clone());
                    self.ui = started.ui.clone();
                    return Ok(Started {
                        meta: started.meta.clone(),
                        root: started.root.clone(),
                        relative_dir: started.relative_dir.clone(),
                        ui: started.ui.clone(),
                    });
                }
                Goal::Finish(Err(e)) => return Err(e.clone()),
                Goal::Ask(StartQuestion::Settings) => {
                    let settings = self.settings();
                    start.settings_loaded(settings, "/data");
                }
                Goal::Ask(StartQuestion::SystemSource) => {
                    start.source_detected(Ok(Some("BlackHole".to_string())));
                }
                Goal::Ask(StartQuestion::Capture { mic, system }) => {
                    self.devices = Some((mic.clone(), system.clone()));
                    if self.failing == Some("Capture") {
                        start.capture_started(Err("no device".to_string()));
                    } else {
                        self.capture = true;
                        start.capture_started(Ok(()));
                    }
                }
            }
        }
    }

    fn start(&mut self, tags: Vec<String>, topic: &str) -> Result<Started, String> {
        let request = StartRecordingRequest {
            tags,
            topic: topic.to_string(),
            participants: vec![],
        };
        let start = StartRecording::begin(request, Ok(()), is_recording_active(&self.active))?;
        self.drive_start(start)
    }

    fn stop(&mut self, session_id: Option<&str>) -> Result<String, String> {
        let mut stop = StopRecording::begin(&mut self.active, session_id)?;
        let id = stop.meta.session_id.clone();
        loop {
            if let Some(task) = stop.script.next_task() {
                let outcome = self.perform(&id, task);
                stop.settle(outcome);
                continue;
            }
            match &stop.script.goal {
                Goal::Finish(result) => return result.clone(),
                Goal::Ask(StopQuestion::Settings) => {
                    let settings = self.settings();
                    stop.settings_loaded(settings, "/data");
                }
                Goal::Ask(StopQuestion::CaptureRuns) => stop.capture_found(self.capture),
                Goal::Ask(StopQuestion::MixAudio { file, bitrate_kbps }) => {
                    if self.mix.is_ok() {
                        let text = format!("mixed {bitrate_kbps}");
                        self.files.insert((id.clone(), file.clone()), text);
                    }
                    stop.audio_mixed(self.mix.clone());
                }
            }
        }
    }

    fn delete(&mut self, id: &str, force: Option<bool>) -> Result<String, String> {
        let mut deletion = DeleteSession::begin(id.to_string(), force, &self.active);
        loop {
            if let Some(task) = deletion.script.next_task() {
                let outcome = self.perform(id, task);
                deletion.settle(outcome);
                continue;
            }
            match &deletion.script.goal {
                Goal::Finish(result) => return result.clone(),
                Goal::Ask(DeleteQuestion::SessionDir { session_id }) => {
                    let entry = if self.dirs.contains(session_id) {
                        CatalogEntry::Directory
                    } else {
                        CatalogEntry::Nothing
                    };
                    let found = self.index.get(session_id).map(|_| entry);
                    deletion.dir_found(Ok(found));
                }
                Goal::Ask(DeleteQuestion::DeleteEntry { session_id }) => {
                    let deleted = self.index.remove(session_id).is_some();
                    self.events.retain(|e| e.0 != id);
                    deletion.entry_deleted(Ok(deleted));
                }
            }
        }
    }
}

#[test]
fn invoke_start_allows_empty_topic_and_participants() {
    let mut world = World::new();
    let started = world.start(vec!["zoom".to_string()], "").expect("command must succeed");
    let response = start_response(&started);
    assert!(!response.session_id.is_empty());
    assert_eq!(response.status, "recording");
    assert_eq!(response.session_id, started.meta.session_id);
    assert_eq!(response.session_dir, format!("/data/recordings/{}", started.relative_dir));
    assert!(started.relative_dir.starts_with("zoom/"));
}

#[test]
fn invoke_update_session_details_persists_values() {
    let mut world = World::new();
    world.seed_ready("session-details");
    let wanted = UpdateSessionDetailsRequest {
        session_id: "session-details".to_string(),
        source: "telegram".to_string(),
        custom_tag: "client-a".to_string(),
        topic: "".to_string(),
        participants: vec!["Alice".to_string(), "Bob".to_string()],
    };
    let mut script = update_session_details(
        &wanted,
        world.find("session-details"),
        world.meta("session-details"),
    );
    while let Some(task) = script.next_task() {
        let outcome = world.perform("session-details", task);
        script.settle(outcome);
    }
    match &script.goal {
        Goal::Finish(result) => assert_eq!(result, &Ok("updated".to_string())),
        Goal::Ask(()) => panic!("an update asks nothing"),
    }
    assert!(world.has_event("session-details", "session_details_updated"));

    let details = get_session_meta(world.find("session-details"), world.meta("session-details"))
        .expect("get should succeed");
    assert_eq!(details.session_id, "session-details");
    assert_eq!(details.source, "telegram");
    assert_eq!(details.custom_tag, "client-a");
    assert_eq!(details.topic, "");
    assert_eq!(details.participants, vec!["Alice".to_string(), "Bob".to_string()]);
}

#[test]
fn invoke_stop_rejects_without_active_session() {
    let mut world = World::new();
    let err = world.stop(Some("missing-session")).expect_err("command must fail");
    assert_eq!(err, "No active recording session");
}

#[test]
fn invoke_pipeline_rejects_unknown_session() {
    let mut world = World::new();
    let err = world
        .run_pipeline("missing-session", PipelineInvocation::Run, PipelineMode::Full)
        .expect_err("command must fail");
    assert_eq!(err, "Session not found");
}

#[test]
fn invoke_pipeline_success_writes_transcript_and_summary() {
    let mut world = World::new();
    world.seed_ready("session-success");
    world.settings.api_call_logging_enabled = true;
    let result =
        world.run_pipeline("session-success", PipelineInvocation::Run, PipelineMode::Full);
    assert_eq!(result, Ok("done".to_string()));

    assert_eq!(world.file("session-success", "transcript.txt"), Some("mock transcript".to_string()));
    assert_eq!(world.file("session-success", "summary.txt"), Some("mock summary".to_string()));
    let api_log = world.file("session-success", "api_calls.txt").expect("read api_calls.txt");
    assert!(api_log.contains("api_transcription_request"));
    assert!(api_log.contains("api_transcription_success"));
    assert!(api_log.contains("api_summary_request"));
    assert!(api_log.contains("api_summary_success"));
    assert!(api_log.contains("now | api_transcription_success | transcript_chars=15"));
    assert!(api_log.contains(
        "now | api_summary_request | url=http://127.0.0.1/summary model=gpt-4.1-mini prompt_chars=52"
    ));

    assert_eq!(world.meta("session-success").expect("load meta").status, SessionStatus::Done);
    assert_eq!(world.index.len(), 1);
    assert_eq!(world.index["session-success"], "done");
    assert!(world.due(10).is_empty());
    assert!(world.has_event("session-success", "api_transcription_request"));
    assert!(world.has_event("session-success", "api_transcription_success"));
    assert!(world.has_event("session-success", "api_summary_request"));
    assert!(world.has_event("session-success", "api_summary_success"));
}

#[test]
fn invoke_retry_pipeline_success_writes_transcript_and_summary() {
    let mut world = World::new();
    world.seed_ready("session-retry-success");
    let result =
        world.run_pipeline("session-retry-success", PipelineInvocation::Retry, PipelineMode::Full);
    assert_eq!(result, Ok("done".to_string()));
    assert_eq!(
        world.file("session-retry-success", "transcript.txt"),
        Some("mock transcript".to_string())
    );
    assert_eq!(world.file("session-retry-success", "summary.txt"), Some("mock summary".to_string()));
    assert_eq!(world.index["session-retry-success"], "done");
}

#[test]
fn invoke_run_transcription_writes_only_transcript() {
    let mut world = World::new();
    world.seed_ready("session-get-text");
    let result = world.run_pipeline(
        "session-get-text",
        PipelineInvocation::Manual,
        PipelineMode::TranscriptionOnly,
    );
    assert_eq!(result, Ok("transcribed".to_string()));
    assert_eq!(
        world.file("session-get-text", "transcript.txt"),
        Some("mock transcript".to_string())
    );
    assert_eq!(world.file("session-get-text", "summary.txt"), None);
    assert_eq!(world.index["session-get-text"], "transcribed");
}

#[test]
fn invoke_run_summary_from_existing_transcript() {
    let mut world = World::new();
    world.seed_ready("session-summary-only");
    world.files.insert(
        ("session-summary-only".to_string(), "transcript.txt".to_string()),
        "existing transcript".to_string(),
    );
    let result = world.run_pipeline(
        "session-summary-only",
        PipelineInvocation::Manual,
        PipelineMode::SummaryOnly,
    );
    assert_eq!(result, Ok("done".to_string()));
    assert_eq!(world.file("session-summary-only", "summary.txt"), Some("mock summary".to_string()));
}

#[test]
fn invoke_retry_pipeline_audio_missing_schedules_retry_job() {
    let mut world = World::new();
    world.seed_missing_audio("session-retry-failed");
    let err = world
        .run_pipeline("session-retry-failed", PipelineInvocation::Retry, PipelineMode::Full)
        .expect_err("retry_pipeline should fail");
    assert_eq!(err, "Audio file is missing");
    assert_eq!(world.due(10), vec!["session-retry-failed".to_string()]);
    assert_eq!(world.retry["session-retry-failed"], 1);
}

#[test]
fn invoke_delete_session_removes_catalog_and_db_record() {
    let mut world = World::new();
    world.seed_ready("session-delete");
    assert!(world.dirs.contains("session-delete"));
    assert_eq!(world.index.len(), 1);
    assert_eq!(world.delete("session-delete", None), Ok("deleted".to_string()));
    assert!(!world.dirs.contains("session-delete"));
    assert!(world.index.is_empty());
    assert!(world.events.is_empty());
}

#[test]
fn invoke_delete_session_force_allows_active_session_cleanup() {
    let mut world = World::new();
    world.seed_ready("session-delete-active");
    world.active = Some(SessionMeta::new(
        "session-delete-active".to_string(),
        vec!["zoom".to_string()],
        "Broken active".to_string(),
        vec![],
    ));
    let blocked = world
        .delete("session-delete-active", None)
        .expect_err("delete_session without force should fail");
    assert_eq!(blocked, "Cannot delete active recording session");
    assert!(world.active.is_some());
    assert!(world.dirs.contains("session-delete-active"));

    assert_eq!(world.delete("session-delete-active", Some(true)), Ok("deleted".to_string()));
    assert!(world.active.is_none());
    assert!(!world.dirs.contains("session-delete-active"));
}

#[test]
fn retry_worker_exhausts_attempts_and_clears_job() {
    let id = "session-worker-exhaust";
    let mut world = World::new();
    world.seed_missing_audio(id);
    for _ in 0..MAX_PIPELINE_RETRY_ATTEMPTS {
        world.schedule(id, MAX_PIPELINE_RETRY_ATTEMPTS);
    }
    assert_eq!(world.due(10).len(), 1);
    assert_eq!(world.retry[id], MAX_PIPELINE_RETRY_ATTEMPTS);

    let err = world
        .run_pipeline(id, PipelineInvocation::WorkerRetry, PipelineMode::Full)
        .expect_err("worker run should fail without audio");
    assert_eq!(err, "Audio file is missing");

    let attempt = world.schedule(id, MAX_PIPELINE_RETRY_ATTEMPTS);
    let followup = schedule_retry_for_session(id, &err, attempt);
    world.perform(id, &followup).expect("schedule followup retry");
    assert!(world.due(10).is_empty());
    assert!(world.has_event(id, "pipeline_retry_exhausted"));
}

#[test]
fn retry_worker_process_once_handles_partial_failures() {
    let mut world = World::new();
    world.seed_ready("session-worker-ok");
    world.seed_missing_audio("session-worker-fail");
    world.schedule("session-worker-ok", MAX_PIPELINE_RETRY_ATTEMPTS);
    world.schedule("session-worker-fail", MAX_PIPELINE_RETRY_ATTEMPTS);
    world.process_retry_jobs_once(i64::MAX, 10).expect("process retry jobs");

    assert_eq!(world.metas["session-worker-ok"].status, SessionStatus::Done);
    assert_eq!(world.metas["session-worker-fail"].status, SessionStatus::Failed);
    assert_eq!(world.due(10), vec!["session-worker-fail".to_string()]);
    assert_eq!(world.retry["session-worker-fail"], 2);
    assert!(world.has_event("session-worker-ok", "pipeline_retry_success"));
    assert!(world.has_event("session-worker-fail", "pipeline_retry_scheduled"));
}

#[test]
fn retry_worker_process_once_respects_limit() {
    let mut world = World::new();
    world.seed_missing_audio("session-limit-a");
    world.seed_missing_audio("session-limit-b");
    world.schedule("session-limit-a", MAX_PIPELINE_RETRY_ATTEMPTS);
    world.schedule("session-limit-b", MAX_PIPELINE_RETRY_ATTEMPTS);
    world.process_retry_jobs_once(i64::MAX, 1).expect("process retry jobs");

    let attempts: Vec<i64> = world.retry.values().copied().collect();
    assert_eq!(attempts.len(), 2);
    assert!(attempts.contains(&1));
    assert!(attempts.contains(&2));
    let scheduled_count =
        world.events.iter().filter(|e| e.1 == "pipeline_retry_scheduled").count();
    assert_eq!(scheduled_count, 1);
}

#[test]
fn a_retry_names_the_attempt_and_the_error() {
    let mut world = World::new();
    world.seed_missing_audio("s");
    let _ = world.run_pipeline("s", PipelineInvocation::Run, PipelineMode::Full);
    let scheduled = world
        .events
        .iter()
        .find(|e| e.1 == "pipeline_retry_scheduled")
        .expect("an attempt is logged");
    assert_eq!(scheduled.2, "Attempt 1 scheduled due to: Audio file is missing");
    assert_eq!(next_retry_attempt(Some(3), 4), Some(4));
    assert_eq!(next_retry_attempt(Some(4), 4), None);
    assert_eq!(next_retry_attempt(None, 4), Some(1));
    assert_eq!(next_retry_attempt(Some(-2), 4), Some(-1));
    assert_eq!(next_retry_attempt(Some(i64::MAX), i64::MAX), None);
}

#[test]
fn a_run_of_one_part_leaves_no_attempt_behind() {
    let mut world = World::new();
    world.seed_ready("s");
    world.transcription = Err("service is down".to_string());
    let result =
        world.run_pipeline("s", PipelineInvocation::Manual, PipelineMode::TranscriptionOnly);
    assert_eq!(result, Err("service is down".to_string()));
    assert!(world.retry.is_empty());
    assert_eq!(world.metas["s"].status, SessionStatus::Failed);
    assert!(world.has_event("s", "pipeline_failed"));
}

#[test]
fn a_missing_token_is_explained() {
    let mut world = World::new();
    world.seed_ready("s");
    world.transcription = Err("400: No token specified".to_string());
    let run = |world: &mut World| {
        world.run_pipeline("s", PipelineInvocation::WorkerRetry, PipelineMode::Full)
    };
    assert_eq!(run(&mut world), Err("400: No token specified".to_string()));
    world.nexara = Ok("  ".to_string());
    assert_eq!(
        run(&mut world),
        Err("400: No token specified. NEXARA_API_KEY is empty".to_string())
    );
    world.nexara = Err("locked".to_string());
    assert_eq!(
        run(&mut world),
        Err(
            "400: No token specified. keyring lookup error for NEXARA_API_KEY: locked".to_string()
        )
    );
    world.transcription = Err("500".to_string());
    assert_eq!(run(&mut world), Err("500".to_string()));
}

#[test]
fn a_failed_summary_keeps_the_transcript_on_disk() {
    let mut world = World::new();
    world.seed_ready("s");
    world.settings.api_call_logging_enabled = true;
    world.summary = Err("quota".to_string());
    let result = world.run_pipeline("s", PipelineInvocation::Run, PipelineMode::Full);
    assert_eq!(result, Err("quota".to_string()));
    assert_eq!(world.file("s", "transcript.txt"), Some("mock transcript".to_string()));
    assert_eq!(world.file("s", "summary.txt"), None);
    assert_eq!(world.retry["s"], 1);
    assert!(world.has_event("s", "api_summary_error"));
    let error = world.events.iter().find(|e| e.1 == "api_summary_error").expect("logged");
    assert_eq!(error.2, "error=quota");
}

#[test]
fn a_summary_needs_a_transcript() {
    let mut world = World::new();
    world.seed_ready("s");
    let run = |world: &mut World| {
        world.run_pipeline("s", PipelineInvocation::Manual, PipelineMode::SummaryOnly)
    };
    assert_eq!(run(&mut world), Err("Transcript file is missing".to_string()));
    world.files.insert(("s".to_string(), "transcript.txt".to_string()), " \n ".to_string());
    assert_eq!(run(&mut world), Err("Transcript file is empty".to_string()));
    assert!(world.events.is_empty());
}

#[test]
fn a_file_that_cannot_be_written_ends_the_run() {
    let mut world = World::new();
    world.seed_ready("s");
    world.failing = Some("WriteText");
    let result = world.run_pipeline("s", PipelineInvocation::Run, PipelineMode::Full);
    assert_eq!(result, Err("WriteText failed".to_string()));
    assert!(world.events.is_empty());
}

#[test]
fn a_call_that_cannot_be_noted_is_passed_over() {
    let mut world = World::new();
    world.seed_ready("s");
    world.settings.api_call_logging_enabled = true;
    world.failing = Some("AppendApiCall");
    let result = world.run_pipeline("s", PipelineInvocation::Run, PipelineMode::Full);
    assert_eq!(result, Ok("done".to_string()));
    assert_eq!(world.file("s", "api_calls.txt"), None);
}

#[test]
fn a_session_outside_a_directory_is_not_written() {
    let mut world = World::new();
    world.seed_ready("s");
    let lost = Ok(Some(FoundSession { has_directory: false }));
    let run = PipelineRun::open(
        world.settings(),
        lost,
        world.meta("s"),
        PipelineInvocation::Run,
        PipelineMode::Full,
    );
    assert_eq!(run.map(|_| ()), Err("Invalid session directory".to_string()));
    let run = PipelineRun::open(
        Err("settings are broken".to_string()),
        Ok(None),
        world.meta("s"),
        PipelineInvocation::Run,
        PipelineMode::Full,
    );
    assert_eq!(run.map(|_| ()), Err("settings are broken".to_string()));
    let run = PipelineRun::open(
        world.settings(),
        world.find("s"),
        Err("broken meta".to_string()),
        PipelineInvocation::Run,
        PipelineMode::Full,
    );
    assert_eq!(run.map(|_| ()), Err("broken meta".to_string()));
    world.index.clear();
}

#[test]
fn a_recording_is_started_and_stopped_in_one_directory() {
    let mut world = World::new();
    world.settings.mic_device_name = "Mic".to_string();
    let started = world
        .start(vec!["telegram".to_string(), "client".to_string()], "Planning")
        .expect("start");
    let id = started.meta.session_id.clone();
    assert_eq!(started.meta.status, SessionStatus::Recording);
    assert_eq!(started.meta.primary_tag, "telegram");
    assert_eq!(started.meta.artifacts.audio_file, "audio.opus");
    assert_eq!(started.meta.artifacts.meta_file, "meta.json");
    assert_eq!(world.file(&id, &started.meta.artifacts.transcript_file), Some(String::new()));
    assert_eq!(world.file(&id, &started.meta.artifacts.summary_file), Some(String::new()));
    assert_eq!(
        world.devices,
        Some((Some("Mic".to_string()), Some("BlackHole".to_string())))
    );
    assert!(world.tray_recording);
    assert!(world.has_event(&id, "recording_started"));
    assert_eq!(world.ui.source, "telegram");
    assert_eq!(world.ui.topic, "Planning");
    let view = get_ui_sync_state(&world.ui, &world.active);
    assert!(view.is_recording);
    assert_eq!(view.active_session_id, Some(id.clone()));

    assert_eq!(
        world.start(vec![], "again").map(|_| ()),
        Err("Recording already active".to_string())
    );

    assert_eq!(world.stop(Some(&id)), Ok("recorded".to_string()));
    assert_eq!(world.metas[&id].status, SessionStatus::Recorded);
    assert!(world.metas[&id].ended_at_iso.is_some());
    assert_eq!(world.metas[&id].topic, "Planning");
    assert_eq!(world.file(&id, "audio.opus"), Some("mixed 24".to_string()));
    assert!(!world.capture && !world.captured && !world.tray_recording && world.levels_reset);
    assert!(world.has_event(&id, "recording_stopped"));
    assert!(world.spawned.is_empty());
    assert!(world.active.is_none());
}

#[test]
fn a_start_is_pinned_down_by_its_time() {
    let request = StartRecordingRequest {
        tags: vec![],
        topic: "t".to_string(),
        participants: vec!["Ann".to_string()],
    };
    let at = LocalTime { year: 2026, month: 3, day: 11, hour: 9, minute: 5, second: 7 };
    let mut start = StartRecording::begin_with(
        request,
        "id".to_string(),
        "2026-03-11T10:00:00+03:00".to_string(),
    );
    let settings =
        PublicSettings { system_device_name: " Loopback ".to_string(), ..Default::default() };
    start.prepare(&settings, "/r".to_string(), at);
    assert_eq!(start.meta.primary_tag, "zoom");
    assert_eq!(start.meta.participants, vec!["Ann".to_string()]);
    assert_eq!(start.meta.artifacts.transcript_file, "transcript_11.03.2026.txt");
    assert_eq!(start.meta.artifacts.summary_file, "summary_11.03.2026.txt");
    match start.script.next_task() {
        Some(Task::CreateSessionDir { root, relative_dir }) => {
            assert_eq!(root, "/r");
            assert_eq!(relative_dir, "zoom/11.03.2026/meeting_09-05-07");
        }
        other => panic!("unexpected task {other:?}"),
    }
    assert_eq!(start.script.steps.len(), 6);
    for _ in 0..6 {
        start.settle(Ok(()));
    }
    match &start.script.goal {
        Goal::Ask(StartQuestion::Capture { mic, system }) => {
            assert_eq!(mic, &None);
            assert_eq!(system, &Some(" Loopback ".to_string()));
        }
        other => panic!("unexpected goal {other:?}"),
    }

    let mut active = Some(start.meta.clone());
    let mut stop = StopRecording::begin_with(&mut active, None, "later".to_string()).expect("stop");
    assert!(active.is_none());
    assert_eq!(stop.meta.ended_at_iso, Some("later".to_string()));
    stop.place(&settings, "/r".to_string(), at);
    assert_eq!(stop.root, "/r");
    assert_eq!(stop.relative_dir, "zoom/11.03.2026/meeting_09-05-07");
}

#[test]
fn random_identifiers_differ_and_have_their_form() {
    let mut world = World::new();
    let a = world.start(vec![], "").expect("start").meta.session_id;
    world.active = None;
    let b = world.start(vec![], "").expect("start").meta.session_id;
    assert_ne!(a, b);
    for id in [a, b] {
        let c: Vec<char> = id.chars().collect();
        assert_eq!(c.len(), 36);
        for (i, x) in c.iter().enumerate() {
            if [8, 13, 18, 23].contains(&i) {
                assert_eq!(*x, '-');
            } else {
                assert!(x.is_ascii_hexdigit() && !x.is_ascii_uppercase());
            }
        }
        assert_eq!(c[14], '4');
        assert!("89ab".contains(c[19]));
    }
}

#[test]
fn a_start_that_fails_leaves_no_recording() {
    let mut world = World::new();
    for failing in ["CreateSessionDir", "SaveMeta", "UpsertSession", "AddEvent", "WriteText"] {
        world.failing = Some(failing);
        assert_eq!(world.start(vec![], "").map(|_| ()), Err(format!("{failing} failed")));
        assert!(world.active.is_none() && !world.capture && !world.tray_recording);
    }
    world.failing = Some("Capture");
    assert_eq!(world.start(vec![], "").map(|_| ()), Err("no device".to_string()));
    assert!(world.active.is_none() && !world.tray_recording);
}

#[test]
fn a_start_with_a_time_that_cannot_be_read_fails() {
    let request = StartRecordingRequest { tags: vec![], topic: "".to_string(), participants: vec![] };
    let mut start =
        StartRecording::begin_with(request, "id".to_string(), "yesterday".to_string());
    start.settings_loaded(Ok(PublicSettings::default()), "/data");
    assert!(start.script.next_task().is_none());
    assert!(matches!(&start.script.goal, Goal::Finish(Err(e)) if !e.is_empty()));
}

#[test]
fn a_source_that_cannot_be_looked_for_ends_the_start() {
    let request = StartRecordingRequest { tags: vec![], topic: "".to_string(), participants: vec![] };
    let at = LocalTime { year: 2026, month: 3, day: 11, hour: 9, minute: 5, second: 7 };
    let mut start = StartRecording::begin_with(request, "id".to_string(), "x".to_string());
    start.prepare(&PublicSettings::default(), "/r".to_string(), at);
    for _ in 0..6 {
        start.settle(Ok(()));
    }
    assert!(matches!(&start.script.goal, Goal::Ask(StartQuestion::SystemSource)));
    start.source_detected(Err("no audio".to_string()));
    assert!(matches!(&start.script.goal, Goal::Finish(Err(e)) if e == "no audio"));
}

#[test]
fn a_stop_for_another_session_is_refused() {
    let mut world = World::new();
    world.start(vec![], "").expect("start");
    assert_eq!(
        world.stop(Some("other")),
        Err("Session id does not match the active recording".to_string())
    );
    assert!(world.active.is_none());
    assert_eq!(world.stop(None), Err("No active recording session".to_string()));
}

#[test]
fn a_stop_without_a_capture_writes_silence() {
    let mut world = World::new();
    let id = world.start(vec![], "").expect("start").meta.session_id;
    world.capture = false;
    world.settings.opus_bitrate_kbps = 32;
    assert_eq!(world.stop(None), Ok("recorded".to_string()));
    assert_eq!(world.file(&id, "audio.opus"), Some("silence 48000 32".to_string()));
}

#[test]
fn what_was_captured_goes_also_where_it_cannot_be_mixed() {
    let mut world = World::new();
    let id = world.start(vec![], "").expect("start").meta.session_id;
    world.mix = Err("encoder".to_string());
    assert_eq!(world.stop(None), Err("encoder".to_string()));
    assert!(!world.captured);
    assert_eq!(world.file(&id, "audio.opus"), None);
    assert!(world.tray_recording);
}

#[test]
fn a_stop_runs_the_pipeline_where_the_settings_want_it() {
    let mut world = World::new();
    world.settings.auto_run_pipeline_on_stop = true;
    world.settings.transcription_url = "https://t".to_string();
    world.settings.summary_url = "https://s".to_string();
    let id = world.start(vec![], "").expect("start").meta.session_id;
    assert_eq!(world.stop(None), Ok("recorded".to_string()));
    assert_eq!(world.spawned, vec![(id, PipelineInvocation::Run, PipelineMode::Full)]);
}

#[test]
fn deleting_an_unknown_session_fails() {
    let mut world = World::new();
    assert_eq!(world.delete("nobody", Some(true)), Err("Session not found".to_string()));
    world.seed_ready("s");
    world.failing = Some("RemoveDirectory");
    assert_eq!(world.delete("s", None), Err("RemoveDirectory failed".to_string()));
    assert!(world.index.contains_key("s"));
    world.failing = None;
    world.dirs.clear();
    assert_eq!(world.delete("s", Some(false)), Ok("deleted".to_string()));

    let mut deletion = DeleteSession::begin("x".to_string(), None, &None);
    deletion.dir_found(Ok(Some(CatalogEntry::File)));
    assert!(matches!(deletion.script.next_task(), Some(Task::RemoveFile)));
    deletion.settle(Ok(()));
    deletion.entry_deleted(Ok(false));
    assert!(matches!(&deletion.script.goal, Goal::Finish(Err(e)) if e == "Session not found"));
}

#[test]
fn a_capture_out_of_reach_keeps_the_active_session() {
    let mut world = World::new();
    let id = world.start(vec![], "").expect("start").meta.session_id;
    world.failing = Some("TakeCapture");
    assert_eq!(world.delete(&id, Some(true)), Err("TakeCapture failed".to_string()));
    assert!(world.active.is_some() && world.index.contains_key(&id));
    world.failing = Some("StopCapture");
    assert_eq!(world.delete(&id, Some(true)), Ok("deleted".to_string()));
    assert!(world.active.is_none());
}

#[test]
fn a_refused_request_starts_nothing() {
    for active in [false, true] {
        let request =
            StartRecordingRequest { tags: vec![], topic: "".to_string(), participants: vec![] };
        let refused = StartRecording::begin(request, Err("no".to_string()), active);
        assert_eq!(refused.map(|_| ()), Err("no".to_string()));
    }
}

#[test]
fn callers_ask_for_their_run() {
    assert_eq!(PipelineCaller::StoppedRecording.request(), (PipelineInvocation::Run, PipelineMode::Full));
    assert_eq!(PipelineCaller::RunCommand.request(), (PipelineInvocation::Run, PipelineMode::Full));
    assert_eq!(PipelineCaller::RetryCommand.request(), (PipelineInvocation::Retry, PipelineMode::Full));
    assert_eq!(PipelineCaller::TranscriptionCommand.request(), (PipelineInvocation::Manual, PipelineMode::TranscriptionOnly));
    assert_eq!(PipelineCaller::SummaryCommand.request(), (PipelineInvocation::Manual, PipelineMode::SummaryOnly));
    assert_eq!(PipelineCaller::Worker.request(), (PipelineInvocation::WorkerRetry, PipelineMode::Full));
}

#[test]
fn logging_changes_nothing_but_the_notes() {
    for broken in [false, true] {
        let run = |logging: bool| {
            let mut world = World::new();
            world.seed_ready("s");
            world.settings.api_call_logging_enabled = logging;
            if broken {
                world.summary = Err("quota".to_string());
            }
            let result = world.run_pipeline("s", PipelineInvocation::Run, PipelineMode::Full);
            (result, world)
        };
        let (result_on, on) = run(true);
        let (result_off, off) = run(false);
        assert_eq!(result_on, result_off);
        assert_eq!(on.metas["s"].status, off.metas["s"].status);
        assert_eq!(on.retry, off.retry);
        assert_eq!(off.file("s", API_CALLS_FILE), None);
        let others: Vec<_> = on.events.iter().filter(|e| !e.1.starts_with("api_")).collect();
        assert_eq!(others, off.events.iter().collect::<Vec<_>>());
        let notes: Vec<&str> = on
            .events
            .iter()
            .map(|e| e.1.as_str())
            .filter(|kind| kind.starts_with("api_"))
            .collect();
        let last = if broken { "api_summary_error" } else { "api_summary_success" };
        assert_eq!(
            notes,
            vec!["api_transcription_request", "api_transcription_success", "api_summary_request", last]
        );
    }
}

#[test]
fn a_list_shows_texts_by_status() {
    let item = |id: &str| SessionListItem {
        session_id: id.to_string(),
        status: "recorded".to_string(),
        session_dir: format!("/r/{id}"),
        audio_duration_hms: "00:00:00".to_string(),
        has_transcript_text: false,
        has_summary_text: false,
    };
    let files = |status: SessionStatus, transcript: &str, summary: &str| {
        let mut meta = SessionMeta::new("m".to_string(), vec![], "".to_string(), vec![]);
        meta.status = status;
        meta.started_at_iso = "2026-03-11T10:00:00Z".to_string();
        meta.ended_at_iso = Some("2026-03-11T10:00:59Z".to_string());
        Some(SessionFiles {
            meta,
            transcript: Some(transcript.to_string()),
            summary: Some(summary.to_string()),
        })
    };
    let found = vec![
        (item("a"), files(SessionStatus::Recorded, "text", "text")),
        (item("b"), files(SessionStatus::Transcribed, "text", "text")),
        (item("c"), files(SessionStatus::Done, "text", "text")),
        (item("d"), files(SessionStatus::Done, " \n", "")),
        (item("e"), None),
        (item("f"), files(SessionStatus::Failed, "text", "text")),
    ];
    let listed = list_sessions(&found);
    let shown: Vec<(bool, bool)> =
        listed.iter().map(|i| (i.has_transcript_text, i.has_summary_text)).collect();
    assert_eq!(
        shown,
        vec![(false, false), (true, false), (true, true), (false, false), (false, false), (true, false)]
    );
    assert_eq!(listed[0].audio_duration_hms, "00:00:59");
    assert_eq!(listed[4], item("e"));
    assert_eq!(listed[5].session_dir, "/r/f");
}

#[test]
fn details_are_trimmed_and_read_back() {
    let mut meta = SessionMeta::new(
        "s".to_string(),
        vec!["zoom".to_string(), " ".to_string(), " old ".to_string()],
        "".to_string(),
        vec![],
    );
    let found = || Ok(Some(FoundSession { has_directory: true }));
    assert_eq!(get_session_meta(found(), Ok(meta.clone())).expect("details").custom_tag, " old ");
    let wanted = UpdateSessionDetailsRequest {
        session_id: "s".to_string(),
        source: "  ".to_string(),
        custom_tag: " \t".to_string(),
        topic: " Plan ".to_string(),
        participants: vec![" Ann ".to_string(), " ".to_string(), "Bob".to_string()],
    };
    let script = update_session_details(&wanted, found(), Ok(meta.clone()));
    match script.next_task() {
        Some(Task::SaveMeta(m)) => meta = m.clone(),
        other => panic!("unexpected task {other:?}"),
    }
    assert_eq!(meta.primary_tag, "zoom");
    assert_eq!(meta.tags, vec!["zoom".to_string()]);
    assert_eq!(meta.topic, "Plan");
    assert_eq!(meta.participants, vec!["Ann".to_string(), "Bob".to_string()]);
    assert_eq!(get_session_meta(found(), Ok(meta.clone())).expect("details").custom_tag, "");

    let again = update_session_details(&wanted, found(), Ok(meta.clone()));
    assert!(matches!(again.next_task(), Some(Task::SaveMeta(m)) if *m == meta));

    let lost = update_session_details(&wanted, Ok(None), Ok(meta.clone()));
    assert!(matches!(&lost.goal, Goal::Finish(Err(e)) if e == "Session not found"));
    assert_eq!(
        get_session_meta(Ok(None), Ok(meta)).map(|_| ()),
        Err("Session not found".to_string())
    );
}

#[test]
fn details_of_a_session_without_tags_are_shown() {
    let mut meta = SessionMeta::new("s".to_string(), vec![], "".to_string(), vec![]);
    assert_eq!(meta.primary_tag, "zoom");
    meta.tags.clear();
    let found = Ok(Some(FoundSession { has_directory: false }));
    assert_eq!(get_session_meta(found, Ok(meta)).expect("details").custom_tag, "");
}

#[test]
fn the_form_keeps_its_source_where_none_is_given() {
    let mut ui = UiSyncState::default();
    assert_eq!((ui.source.as_str(), ui.topic.as_str()), ("slack", ""));
    assert_eq!(
        set_ui_sync_state(&mut ui, "  ".to_string(), " kept as it is ".to_string()),
        Ok("updated".to_string())
    );
    assert_eq!((ui.source.as_str(), ui.topic.as_str()), ("slack", " kept as it is "));
    let _ = set_ui_sync_state(&mut ui, " zoom ".to_string(), "".to_string());
    assert_eq!((ui.source.as_str(), ui.topic.as_str()), ("zoom", ""));
    let view = get_ui_sync_state(&ui, &None);
    assert!(!view.is_recording);
    assert_eq!(view.active_session_id, None);
    assert_eq!(view.source, "zoom");
}

#[test]
fn a_line_of_the_call_log_starts_with_the_time() {
    assert_eq!(
        api_call_log_line("2026-03-11T10:00:00Z", EventKind::ApiSummaryError, "error=x"),
        "2026-03-11T10:00:00Z | api_summary_error | error=x"
    );
    let line = append_api_call_log_line(EventKind::ApiSummaryError, "error=x");
    assert!(line.ends_with(" | api_summary_error | error=x"));
    assert!(line.starts_with("20"));
}

#[test]
fn a_pass_without_jobs_is_over_at_once() {
    let mut pass = RetryPass::new(0, 10);
    pass.jobs_fetched(Ok(vec![]));
    assert!(matches!(&pass.script.goal, Goal::Finish(Ok(()))));
    let mut pass = RetryPass::new(0, 10);
    pass.jobs_fetched(Err("locked".to_string()));
    assert!(matches!(&pass.script.goal, Goal::Finish(Err(e)) if e == "locked"));
}

#[test]
fn a_directory_is_named_by_the_clock_of_the_machine() {
    for started_at in ["2026-03-11T12:00:00Z", "1999-12-31T23:59:59+14:00", "2024-02-29T00:00:01-11:30"] {
        let request =
            StartRecordingRequest { tags: vec![], topic: "".to_string(), participants: vec![] };
        let mut start =
            StartRecording::begin_with(request, "id".to_string(), started_at.to_string());
        start.settings_loaded(Ok(PublicSettings::default()), "/data");
        let local = chrono::DateTime::parse_from_rfc3339(started_at)
            .expect("a time")
            .with_timezone(&chrono::Local);
        let expected = local.format("zoom/%d.%m.%Y/meeting_%H-%M-%S").to_string();
        match start.script.next_task() {
            Some(Task::CreateSessionDir { root, relative_dir }) => {
                assert_eq!(root, "/data/recordings");
                assert_eq!(relative_dir, &expected);
            }
            other => panic!("unexpected task {other:?}"),
        }
        let mut active = Some(start.meta.clone());
        let mut stop = StopRecording::begin(&mut active, Some("id")).expect("stop");
        let elsewhere =
            PublicSettings { recording_root: "/elsewhere".to_string(), ..Default::default() };
        stop.settings_loaded(Ok(elsewhere), "/data");
        assert_eq!(stop.root, "/elsewhere");
        assert_eq!(stop.relative_dir, expected);
    }
}

#[test]
fn a_session_starts_at_a_time_that_can_be_read() {
    let meta = SessionMeta::new("s".to_string(), vec![], "".to_string(), vec![]);
    let read = chrono::DateTime::parse_from_rfc3339(&meta.started_at_iso).expect("a time");
    assert_eq!(read.to_rfc3339(), meta.started_at_iso);
    let c: Vec<char> = meta.started_at_iso.chars().collect();
    assert!(c.len() >= 25);
    assert_eq!((c[4], c[7], c[10], c[13], c[16]), ('-', '-', 'T', ':', ':'));
    assert_eq!(c[c.len() - 3], ':');
    assert!(c[c.len() - 6] == '+' || c[c.len() - 6] == '-');
    assert_eq!(meta.ended_at_iso, None);
    assert_eq!(meta.artifacts.audio_file, "");
}

#[test]
fn saving_the_details_that_are_shown_changes_nothing() {
    let meta = SessionMeta::new(
        "s".to_string(),
        vec!["zoom".to_string(), "client".to_string()],
        "Plan".to_string(),
        vec!["Ann".to_string()],
    );
    let found = || Ok(Some(FoundSession { has_directory: true }));
    let shown = get_session_meta(found(), Ok(meta.clone())).expect("details");
    let wanted = UpdateSessionDetailsRequest {
        session_id: shown.session_id,
        source: shown.source,
        custom_tag: shown.custom_tag,
        topic: shown.topic,
        participants: shown.participants,
    };
    let script = update_session_details(&wanted, found(), Ok(meta.clone()));
    assert!(matches!(script.next_task(), Some(Task::SaveMeta(m)) if *m == meta));
}
