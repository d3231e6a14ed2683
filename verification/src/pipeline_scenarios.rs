//! What happens in a run of the pipeline, act by act, for everything that it can meet with.
use crate::pipeline::{PipelineInvocation, PipelineMode, PipelineModel, QuestionModel};
use crate::pipeline_course::{
    is_keyed, lemma_course_stage, lemma_disturbed_course, lemma_only_notes_are_optional,
    only_notes_are_optional, RunAct,
};
use crate::pipeline_laws::{
    a_good_end_means_that_everything_was_done, every_run_ends, tasks_of, PipelineWorld,
};
use crate::script::{does, GoalModel, StepModel};
use crate::session::{SessionModel, SessionStatus};
use crate::settings::SettingsModel;
use crate::task::{EventKind, TaskModel};
use crate::text::{decimal, is_blank, mentions, signed_decimal, trimmed};
use vstd::prelude::*;

verus! {

/// The course up to the keys, of a recording that is there.
proof fn lemma_course_to_the_keys(
    settings: SettingsModel,
    meta: SessionModel,
    invocation: PipelineInvocation,
    mode: PipelineMode,
    world: PipelineWorld,
) -> (keyed: PipelineModel)
    requires
        world.tasks_succeed(),
        world.audio_present,
    ensures
        ({
            let run = PipelineModel::starting(settings, meta, invocation, mode);
            &&& is_keyed(keyed, settings, meta, invocation, mode, world)
            &&& keyed.meta == meta
            &&& keyed.script == keyed.after_keys(world.nexara, world.openai).script
            &&& only_notes_are_optional(keyed.script.steps)
            &&& run.course(world) == seq![
                RunAct::Asks(QuestionModel::AudioFile { file: meta.artifacts.audio_file }),
                RunAct::Asks(QuestionModel::Keys),
            ] + keyed.course(world)
            &&& run.at_end(world) == keyed.at_end(world)
        }),
{
    let run = PipelineModel::starting(settings, meta, invocation, mode);
    let first = lemma_course_stage(run, world);
    lemma_only_notes_are_optional(first, world);
    let second = lemma_course_stage(first.answered(world), world);
    let keyed = second.answered(world);
    lemma_only_notes_are_optional(second, world);
    assert(run.course(world) =~= seq![
        RunAct::Asks(QuestionModel::AudioFile { file: meta.artifacts.audio_file }),
        RunAct::Asks(QuestionModel::Keys),
    ] + keyed.course(world));
    keyed
}

/// The course from the keys up to the answer of the transcription service.
proof fn lemma_course_to_the_transcription(
    keyed: PipelineModel,
    settings: SettingsModel,
    meta: SessionModel,
    invocation: PipelineInvocation,
    mode: PipelineMode,
    world: PipelineWorld,
) -> (asked: PipelineModel)
    requires
        world.tasks_succeed(),
        settings.api_call_logging_enabled,
        mode != PipelineMode::SummaryOnly,
        is_keyed(keyed, settings, meta, invocation, mode, world),
        keyed.meta == meta,
        keyed.script == keyed.after_keys(world.nexara, world.openai).script,
        only_notes_are_optional(keyed.script.steps),
    ensures
        ({
            let id = meta.session_id;
            let request = "url="@ + trimmed(settings.transcription_url) + " task="@ + trimmed(
                settings.transcription_task,
            ) + " diarization_setting="@ + trimmed(settings.transcription_diarization_setting);
            let answered = asked.after_transcription(world.transcription);
            &&& is_keyed(asked, settings, meta, invocation, mode, world)
            &&& asked.meta == meta
            &&& only_notes_are_optional(answered.script.steps)
            &&& keyed.course(world) == seq![
                RunAct::Does(
                    TaskModel::AddEvent {
                        session_id: id,
                        kind: EventKind::ApiTranscriptionRequest,
                        detail: request,
                    },
                ),
                RunAct::Does(
                    TaskModel::AppendApiCall {
                        kind: EventKind::ApiTranscriptionRequest,
                        detail: request,
                    },
                ),
                RunAct::Asks(
                    QuestionModel::Transcription {
                        key: match world.nexara {
                            Ok(key) => key,
                            Err(_) => ""@,
                        },
                    },
                ),
            ] + answered.course(world)
            &&& keyed.at_end(world) == answered.at_end(world)
        }),
{
    let asked = lemma_course_stage(keyed, world);
    lemma_only_notes_are_optional(asked, world);
    let answered = asked.answered(world);
    let id = meta.session_id;
    let request = "url="@ + trimmed(settings.transcription_url) + " task="@ + trimmed(
        settings.transcription_task,
    ) + " diarization_setting="@ + trimmed(settings.transcription_diarization_setting);
    assert(does::<TaskModel, QuestionModel>(tasks_of(keyed.script.steps)) =~= seq![
        RunAct::Does(
            TaskModel::AddEvent {
                session_id: id,
                kind: EventKind::ApiTranscriptionRequest,
                detail: request,
            },
        ),
        RunAct::Does(
            TaskModel::AppendApiCall { kind: EventKind::ApiTranscriptionRequest, detail: request },
        ),
    ]);
    assert(keyed.course(world) =~= seq![
        RunAct::Does(
            TaskModel::AddEvent {
                session_id: id,
                kind: EventKind::ApiTranscriptionRequest,
                detail: request,
            },
        ),
        RunAct::Does(
            TaskModel::AppendApiCall { kind: EventKind::ApiTranscriptionRequest, detail: request },
        ),
        RunAct::Asks(
            QuestionModel::Transcription {
                key: match world.nexara {
                    Ok(key) => key,
                    Err(_) => ""@,
                },
            },
        ),
    ] + answered.course(world));
    asked
}

/// The course of a whole run from the transcript up to the answer of the summary service.
proof fn lemma_course_to_the_summary(
    asked: PipelineModel,
    settings: SettingsModel,
    meta: SessionModel,
    invocation: PipelineInvocation,
    world: PipelineWorld,
    transcript: Seq<char>,
) -> (asked_again: PipelineModel)
    requires
        world.tasks_succeed(),
        settings.api_call_logging_enabled,
        is_keyed(asked, settings, meta, invocation, PipelineMode::Full, world),
        asked.meta == meta,
        world.transcription == Ok::<Seq<char>, Seq<char>>(transcript),
    ensures
        ({
            let answered = asked.after_transcription(world.transcription);
            let next = asked_again.after_summary(world.summary);
            let id = meta.session_id;
            let transcribed = SessionModel { status: SessionStatus::Transcribed, ..meta };
            let answer = "transcript_chars="@ + decimal(transcript.len());
            let summary_request = "url="@ + trimmed(settings.summary_url) + " model="@ + trimmed(
                settings.openai_model,
            ) + " prompt_chars="@ + decimal(trimmed(settings.summary_prompt).len());
            &&& is_keyed(asked_again, settings, meta, invocation, PipelineMode::Full, world)
            &&& only_notes_are_optional(next.script.steps)
            &&& answered.course(world) == seq![
                RunAct::Does(
                    TaskModel::AddEvent {
                        session_id: id,
                        kind: EventKind::ApiTranscriptionSuccess,
                        detail: answer,
                    },
                ),
                RunAct::Does(
                    TaskModel::AppendApiCall {
                        kind: EventKind::ApiTranscriptionSuccess,
                        detail: answer,
                    },
                ),
                RunAct::Does(
                    TaskModel::WriteText { file: meta.artifacts.transcript_file, text: transcript },
                ),
                RunAct::Does(TaskModel::SaveMeta(transcribed)),
                RunAct::Does(TaskModel::UpsertSession(transcribed)),
                RunAct::Does(
                    TaskModel::AddEvent {
                        session_id: id,
                        kind: EventKind::Transcribed,
                        detail: "Transcript created"@,
                    },
                ),
                RunAct::Does(
                    TaskModel::AddEvent {
                        session_id: id,
                        kind: EventKind::ApiSummaryRequest,
                        detail: summary_request,
                    },
                ),
                RunAct::Does(
                    TaskModel::AppendApiCall {
                        kind: EventKind::ApiSummaryRequest,
                        detail: summary_request,
                    },
                ),
                RunAct::Asks(
                    QuestionModel::Summary {
                        key: match world.openai {
                            Ok(key) => key,
                            Err(_) => ""@,
                        },
                        transcript: transcript,
                    },
                ),
            ] + next.course(world)
            &&& answered.at_end(world) == next.at_end(world)
        }),
{
    let answered = asked.after_transcription(world.transcription);
    lemma_only_notes_are_optional(asked, world);
    let asked_again = lemma_course_stage(answered, world);
    lemma_only_notes_are_optional(asked_again, world);
    let next = asked_again.answered(world);
    let id = meta.session_id;
    let transcribed = SessionModel { status: SessionStatus::Transcribed, ..meta };
    let answer = "transcript_chars="@ + decimal(transcript.len());
    let summary_request = "url="@ + trimmed(settings.summary_url) + " model="@ + trimmed(
        settings.openai_model,
    ) + " prompt_chars="@ + decimal(trimmed(settings.summary_prompt).len());
    assert(does::<TaskModel, QuestionModel>(tasks_of(answered.script.steps)) =~= seq![
        RunAct::Does(
            TaskModel::AddEvent {
                session_id: id,
                kind: EventKind::ApiTranscriptionSuccess,
                detail: answer,
            },
        ),
        RunAct::Does(
            TaskModel::AppendApiCall { kind: EventKind::ApiTranscriptionSuccess, detail: answer },
        ),
        RunAct::Does(
            TaskModel::WriteText { file: meta.artifacts.transcript_file, text: transcript },
        ),
        RunAct::Does(TaskModel::SaveMeta(transcribed)),
        RunAct::Does(TaskModel::UpsertSession(transcribed)),
        RunAct::Does(
            TaskModel::AddEvent {
                session_id: id,
                kind: EventKind::Transcribed,
                detail: "Transcript created"@,
            },
        ),
        RunAct::Does(
            TaskModel::AddEvent {
                session_id: id,
                kind: EventKind::ApiSummaryRequest,
                detail: summary_request,
            },
        ),
        RunAct::Does(
            TaskModel::AppendApiCall {
                kind: EventKind::ApiSummaryRequest,
                detail: summary_request,
            },
        ),
    ]);
    assert(answered.course(world) =~= seq![
        RunAct::Does(
            TaskModel::AddEvent {
                session_id: id,
                kind: EventKind::ApiTranscriptionSuccess,
                detail: answer,
            },
        ),
        RunAct::Does(
            TaskModel::AppendApiCall { kind: EventKind::ApiTranscriptionSuccess, detail: answer },
        ),
        RunAct::Does(
            TaskModel::WriteText { file: meta.artifacts.transcript_file, text: transcript },
        ),
        RunAct::Does(TaskModel::SaveMeta(transcribed)),
        RunAct::Does(TaskModel::UpsertSession(transcribed)),
        RunAct::Does(
            TaskModel::AddEvent {
                session_id: id,
                kind: EventKind::Transcribed,
                detail: "Transcript created"@,
            },
        ),
        RunAct::Does(
            TaskModel::AddEvent {
                session_id: id,
                kind: EventKind::ApiSummaryRequest,
                detail: summary_request,
            },
        ),
        RunAct::Does(
            TaskModel::AppendApiCall {
                kind: EventKind::ApiSummaryRequest,
                detail: summary_request,
            },
        ),
        RunAct::Asks(
            QuestionModel::Summary {
                key: match world.openai {
                    Ok(key) => key,
                    Err(_) => ""@,
                },
                transcript: transcript,
            },
        ),
    ] + next.course(world));
    asked_again
}

/// The course of a run for the summary alone, from the keys up to the answer of the service.
proof fn lemma_course_to_the_summary_alone(
    keyed: PipelineModel,
    settings: SettingsModel,
    meta: SessionModel,
    invocation: PipelineInvocation,
    world: PipelineWorld,
    content: Seq<char>,
) -> (asked: PipelineModel)
    requires
        world.tasks_succeed(),
        settings.api_call_logging_enabled,
        is_keyed(keyed, settings, meta, invocation, PipelineMode::SummaryOnly, world),
        keyed.meta == meta,
        keyed.script == keyed.after_keys(world.nexara, world.openai).script,
        only_notes_are_optional(keyed.script.steps),
        world.transcript_file == Ok::<Seq<char>, Seq<char>>(content),
        !is_blank(content),
    ensures
        ({
            let next = asked.after_summary(world.summary);
            let id = meta.session_id;
            let summary_request = "url="@ + trimmed(settings.summary_url) + " model="@ + trimmed(
                settings.openai_model,
            ) + " prompt_chars="@ + decimal(trimmed(settings.summary_prompt).len());
            &&& is_keyed(asked, settings, meta, invocation, PipelineMode::SummaryOnly, world)
            &&& only_notes_are_optional(next.script.steps)
            &&& keyed.course(world) == seq![
                RunAct::Asks(QuestionModel::TranscriptFile { file: meta.artifacts.transcript_file }),
                RunAct::Does(
                    TaskModel::AddEvent {
                        session_id: id,
                        kind: EventKind::ApiSummaryRequest,
                        detail: summary_request,
                    },
                ),
                RunAct::Does(
                    TaskModel::AppendApiCall {
                        kind: EventKind::ApiSummaryRequest,
                        detail: summary_request,
                    },
                ),
                RunAct::Asks(
                    QuestionModel::Summary {
                        key: match world.openai {
                            Ok(key) => key,
                            Err(_) => ""@,
                        },
                        transcript: trimmed(content),
                    },
                ),
            ] + next.course(world)
            &&& keyed.at_end(world) == next.at_end(world)
        }),
{
    let reading = lemma_course_stage(keyed, world);
    lemma_only_notes_are_optional(reading, world);
    let read = reading.answered(world);
    let asked = lemma_course_stage(read, world);
    lemma_only_notes_are_optional(asked, world);
    let next = asked.answered(world);
    let id = meta.session_id;
    let summary_request = "url="@ + trimmed(settings.summary_url) + " model="@ + trimmed(
        settings.openai_model,
    ) + " prompt_chars="@ + decimal(trimmed(settings.summary_prompt).len());
    assert(does::<TaskModel, QuestionModel>(tasks_of(read.script.steps)) =~= seq![
        RunAct::Does(
            TaskModel::AddEvent {
                session_id: id,
                kind: EventKind::ApiSummaryRequest,
                detail: summary_request,
            },
        ),
        RunAct::Does(
            TaskModel::AppendApiCall {
                kind: EventKind::ApiSummaryRequest,
                detail: summary_request,
            },
        ),
    ]);
    assert(keyed.course(world) =~= seq![
        RunAct::Asks(QuestionModel::TranscriptFile { file: meta.artifacts.transcript_file }),
        RunAct::Does(
            TaskModel::AddEvent {
                session_id: id,
                kind: EventKind::ApiSummaryRequest,
                detail: summary_request,
            },
        ),
        RunAct::Does(
            TaskModel::AppendApiCall {
                kind: EventKind::ApiSummaryRequest,
                detail: summary_request,
            },
        ),
        RunAct::Asks(
            QuestionModel::Summary {
                key: match world.openai {
                    Ok(key) => key,
                    Err(_) => ""@,
                },
                transcript: trimmed(content),
            },
        ),
    ] + next.course(world));
    asked
}

/// The course of a run after the answer of the summary service.
proof fn lemma_course_after_the_summary(
    asked: PipelineModel,
    settings: SettingsModel,
    meta: SessionModel,
    invocation: PipelineInvocation,
    mode: PipelineMode,
    world: PipelineWorld,
    summary: Seq<char>,
)
    requires
        world.tasks_succeed(),
        settings.api_call_logging_enabled,
        is_keyed(asked, settings, meta, invocation, mode, world),
        world.summary == Ok::<Seq<char>, Seq<char>>(summary),
    ensures
        ({
            let next = asked.after_summary(world.summary);
            let id = meta.session_id;
            let done = SessionModel { status: SessionStatus::Done, ..meta };
            let summary_answer = "summary_chars="@ + decimal(summary.len());
            &&& mode == PipelineMode::Full ==> next.course(world) == seq![
                RunAct::Does(
                    TaskModel::AddEvent {
                        session_id: id,
                        kind: EventKind::ApiSummarySuccess,
                        detail: summary_answer,
                    },
                ),
                RunAct::Does(
                    TaskModel::AppendApiCall {
                        kind: EventKind::ApiSummarySuccess,
                        detail: summary_answer,
                    },
                ),
                RunAct::Does(
                    TaskModel::WriteText { file: meta.artifacts.summary_file, text: summary },
                ),
                RunAct::Does(TaskModel::SaveMeta(done)),
                RunAct::Does(TaskModel::UpsertSession(done)),
                RunAct::Does(
                    TaskModel::AddEvent {
                        session_id: id,
                        kind: EventKind::PipelineDone,
                        detail: "Summary created"@,
                    },
                ),
                RunAct::Does(TaskModel::ClearRetryJob { session_id: id }),
            ]
            &&& mode != PipelineMode::Full ==> next.course(world) == seq![
                RunAct::Does(
                    TaskModel::AddEvent {
                        session_id: id,
                        kind: EventKind::ApiSummarySuccess,
                        detail: summary_answer,
                    },
                ),
                RunAct::Does(
                    TaskModel::AppendApiCall {
                        kind: EventKind::ApiSummarySuccess,
                        detail: summary_answer,
                    },
                ),
                RunAct::Does(
                    TaskModel::WriteText { file: meta.artifacts.summary_file, text: summary },
                ),
                RunAct::Does(TaskModel::SaveMeta(done)),
                RunAct::Does(TaskModel::UpsertSession(done)),
                RunAct::Does(
                    TaskModel::AddEvent {
                        session_id: id,
                        kind: EventKind::PipelineDone,
                        detail: "Summary created"@,
                    },
                ),
            ]
            &&& next.result(world) == Ok::<Seq<char>, Seq<char>>("done"@)
        }),
{
    let next = asked.after_summary(world.summary);
    lemma_only_notes_are_optional(asked, world);
    let end = lemma_course_stage(next, world);
    let id = meta.session_id;
    let done = SessionModel { status: SessionStatus::Done, ..meta };
    let summary_answer = "summary_chars="@ + decimal(summary.len());
    let known = seq![
        RunAct::Does(
            TaskModel::AddEvent {
                session_id: id,
                kind: EventKind::ApiSummarySuccess,
                detail: summary_answer,
            },
        ),
        RunAct::Does(
            TaskModel::AppendApiCall { kind: EventKind::ApiSummarySuccess, detail: summary_answer },
        ),
        RunAct::Does(
            TaskModel::WriteText { file: meta.artifacts.summary_file, text: summary },
        ),
        RunAct::Does(TaskModel::SaveMeta(done)),
        RunAct::Does(TaskModel::UpsertSession(done)),
        RunAct::Does(
            TaskModel::AddEvent {
                session_id: id,
                kind: EventKind::PipelineDone,
                detail: "Summary created"@,
            },
        ),
    ];
    if mode == PipelineMode::Full {
        let cleared = RunAct::Does(TaskModel::ClearRetryJob { session_id: id });
        assert(next.course(world) =~= known.push(cleared));
    } else {
        assert(next.course(world) =~= known);
    }
}

/// A run that logs its calls and is to transcribe alone, where the service answers: it looks for
/// the recording and the keys, calls the service, and makes its answer the transcript.
#[verifier::rlimit(60)]
pub proof fn the_course_of_a_transcription(
    settings: SettingsModel,
    meta: SessionModel,
    invocation: PipelineInvocation,
    world: PipelineWorld,
    transcript: Seq<char>,
)
    requires
        world.tasks_succeed(),
        world.audio_present,
        settings.api_call_logging_enabled,
        world.transcription == Ok::<Seq<char>, Seq<char>>(transcript),
    ensures
        ({
            let run = PipelineModel::starting(
                settings,
                meta,
                invocation,
                PipelineMode::TranscriptionOnly,
            );
            let id = meta.session_id;
            let request = "url="@ + trimmed(settings.transcription_url) + " task="@ + trimmed(
                settings.transcription_task,
            ) + " diarization_setting="@ + trimmed(settings.transcription_diarization_setting);
            let transcribed = SessionModel { status: SessionStatus::Transcribed, ..meta };
            let answer = "transcript_chars="@ + decimal(transcript.len());
            &&& run.course(world) == seq![
                RunAct::Asks(QuestionModel::AudioFile { file: meta.artifacts.audio_file }),
                RunAct::Asks(QuestionModel::Keys),
                RunAct::Does(
                    TaskModel::AddEvent {
                        session_id: id,
                        kind: EventKind::ApiTranscriptionRequest,
                        detail: request,
                    },
                ),
                RunAct::Does(
                    TaskModel::AppendApiCall {
                        kind: EventKind::ApiTranscriptionRequest,
                        detail: request,
                    },
                ),
                RunAct::Asks(
                    QuestionModel::Transcription {
                        key: match world.nexara {
                            Ok(key) => key,
                            Err(_) => ""@,
                        },
                    },
                ),
                RunAct::Does(
                    TaskModel::AddEvent {
                        session_id: id,
                        kind: EventKind::ApiTranscriptionSuccess,
                        detail: answer,
                    },
                ),
                RunAct::Does(
                    TaskModel::AppendApiCall {
                        kind: EventKind::ApiTranscriptionSuccess,
                        detail: answer,
                    },
                ),
                RunAct::Does(
                    TaskModel::WriteText { file: meta.artifacts.transcript_file, text: transcript },
                ),
                RunAct::Does(TaskModel::SaveMeta(transcribed)),
                RunAct::Does(TaskModel::UpsertSession(transcribed)),
                RunAct::Does(
                    TaskModel::AddEvent {
                        session_id: id,
                        kind: EventKind::Transcribed,
                        detail: "Transcript created"@,
                    },
                ),
            ]
            &&& run.result(world) == Ok::<Seq<char>, Seq<char>>("transcribed"@)
        }),
{
    let mode = PipelineMode::TranscriptionOnly;
    let keyed = lemma_course_to_the_keys(settings, meta, invocation, mode, world);
    let asked = lemma_course_to_the_transcription(keyed, settings, meta, invocation, mode, world);
    let answered = asked.after_transcription(world.transcription);
    let end = lemma_course_stage(answered, world);
    let id = meta.session_id;
    let transcribed = SessionModel { status: SessionStatus::Transcribed, ..meta };
    let answer = "transcript_chars="@ + decimal(transcript.len());
    assert(answered.course(world) =~= seq![
        RunAct::Does(
            TaskModel::AddEvent {
                session_id: id,
                kind: EventKind::ApiTranscriptionSuccess,
                detail: answer,
            },
        ),
        RunAct::Does(
            TaskModel::AppendApiCall { kind: EventKind::ApiTranscriptionSuccess, detail: answer },
        ),
        RunAct::Does(
            TaskModel::WriteText { file: meta.artifacts.transcript_file, text: transcript },
        ),
        RunAct::Does(TaskModel::SaveMeta(transcribed)),
        RunAct::Does(TaskModel::UpsertSession(transcribed)),
        RunAct::Does(
            TaskModel::AddEvent {
                session_id: id,
                kind: EventKind::Transcribed,
                detail: "Transcript created"@,
            },
        ),
    ]);
}

/// A whole run that logs its calls, where both services answer: it looks for the recording and the
/// keys, calls the transcription service, makes its answer the transcript, hands that to the
/// summary service, makes its answer the summary, and drops the job for a further attempt.
#[verifier::rlimit(60)]
pub proof fn the_course_of_a_whole_run(
    settings: SettingsModel,
    meta: SessionModel,
    invocation: PipelineInvocation,
    world: PipelineWorld,
    transcript: Seq<char>,
    summary: Seq<char>,
)
    requires
        world.tasks_succeed(),
        world.audio_present,
        settings.api_call_logging_enabled,
        world.transcription == Ok::<Seq<char>, Seq<char>>(transcript),
        world.summary == Ok::<Seq<char>, Seq<char>>(summary),
    ensures
        ({
            let run = PipelineModel::starting(settings, meta, invocation, PipelineMode::Full);
            let id = meta.session_id;
            let request = "url="@ + trimmed(settings.transcription_url) + " task="@ + trimmed(
                settings.transcription_task,
            ) + " diarization_setting="@ + trimmed(settings.transcription_diarization_setting);
            let transcribed = SessionModel { status: SessionStatus::Transcribed, ..meta };
            let answer = "transcript_chars="@ + decimal(transcript.len());
            let summary_request = "url="@ + trimmed(settings.summary_url) + " model="@ + trimmed(
                settings.openai_model,
            ) + " prompt_chars="@ + decimal(trimmed(settings.summary_prompt).len());
            let done = SessionModel { status: SessionStatus::Done, ..meta };
            let summary_answer = "summary_chars="@ + decimal(summary.len());
            &&& run.course(world) == seq![
                RunAct::Asks(QuestionModel::AudioFile { file: meta.artifacts.audio_file }),
                RunAct::Asks(QuestionModel::Keys),
                RunAct::Does(
                    TaskModel::AddEvent {
                        session_id: id,
                        kind: EventKind::ApiTranscriptionRequest,
                        detail: request,
                    },
                ),
                RunAct::Does(
                    TaskModel::AppendApiCall {
                        kind: EventKind::ApiTranscriptionRequest,
                        detail: request,
                    },
                ),
                RunAct::Asks(
                    QuestionModel::Transcription {
                        key: match world.nexara {
                            Ok(key) => key,
                            Err(_) => ""@,
                        },
                    },
                ),
            ] + seq![
                RunAct::Does(
                    TaskModel::AddEvent {
                        session_id: id,
                        kind: EventKind::ApiTranscriptionSuccess,
                        detail: answer,
                    },
                ),
                RunAct::Does(
                    TaskModel::AppendApiCall {
                        kind: EventKind::ApiTranscriptionSuccess,
                        detail: answer,
                    },
                ),
                RunAct::Does(
                    TaskModel::WriteText { file: meta.artifacts.transcript_file, text: transcript },
                ),
                RunAct::Does(TaskModel::SaveMeta(transcribed)),
                RunAct::Does(TaskModel::UpsertSession(transcribed)),
                RunAct::Does(
                    TaskModel::AddEvent {
                        session_id: id,
                        kind: EventKind::Transcribed,
                        detail: "Transcript created"@,
                    },
                ),
                RunAct::Does(
                    TaskModel::AddEvent {
                        session_id: id,
                        kind: EventKind::ApiSummaryRequest,
                        detail: summary_request,
                    },
                ),
                RunAct::Does(
                    TaskModel::AppendApiCall {
                        kind: EventKind::ApiSummaryRequest,
                        detail: summary_request,
                    },
                ),
                RunAct::Asks(
                    QuestionModel::Summary {
                        key: match world.openai {
                            Ok(key) => key,
                            Err(_) => ""@,
                        },
                        transcript: transcript,
                    },
                ),
            ] + seq![
                RunAct::Does(
                    TaskModel::AddEvent {
                        session_id: id,
                        kind: EventKind::ApiSummarySuccess,
                        detail: summary_answer,
                    },
                ),
                RunAct::Does(
                    TaskModel::AppendApiCall {
                        kind: EventKind::ApiSummarySuccess,
                        detail: summary_answer,
                    },
                ),
                RunAct::Does(
                    TaskModel::WriteText { file: meta.artifacts.summary_file, text: summary },
                ),
                RunAct::Does(TaskModel::SaveMeta(done)),
                RunAct::Does(TaskModel::UpsertSession(done)),
                RunAct::Does(
                    TaskModel::AddEvent {
                        session_id: id,
                        kind: EventKind::PipelineDone,
                        detail: "Summary created"@,
                    },
                ),
                RunAct::Does(TaskModel::ClearRetryJob { session_id: id }),
            ]
            &&& run.result(world) == Ok::<Seq<char>, Seq<char>>("done"@)
        }),
{
    let mode = PipelineMode::Full;
    let keyed = lemma_course_to_the_keys(settings, meta, invocation, mode, world);
    let asked = lemma_course_to_the_transcription(keyed, settings, meta, invocation, mode, world);
    let asked_again = lemma_course_to_the_summary(
        asked,
        settings,
        meta,
        invocation,
        world,
        transcript,
    );
    lemma_course_after_the_summary(
        asked_again,
        settings,
        meta,
        invocation,
        mode,
        world,
        summary,
    );
    let run = PipelineModel::starting(settings, meta, invocation, mode);
    let id = meta.session_id;
    let request = "url="@ + trimmed(settings.transcription_url) + " task="@ + trimmed(
        settings.transcription_task,
    ) + " diarization_setting="@ + trimmed(settings.transcription_diarization_setting);
    let answered = asked.after_transcription(world.transcription);
    let next = asked_again.after_summary(world.summary);
    assert(run.course(world) =~= seq![
        RunAct::Asks(QuestionModel::AudioFile { file: meta.artifacts.audio_file }),
        RunAct::Asks(QuestionModel::Keys),
        RunAct::Does(
            TaskModel::AddEvent {
                session_id: id,
                kind: EventKind::ApiTranscriptionRequest,
                detail: request,
            },
        ),
        RunAct::Does(
            TaskModel::AppendApiCall { kind: EventKind::ApiTranscriptionRequest, detail: request },
        ),
        RunAct::Asks(
            QuestionModel::Transcription {
                key: match world.nexara {
                    Ok(key) => key,
                    Err(_) => ""@,
                },
            },
        ),
    ] + answered.course(world));
}

/// A run that logs its calls and is to summarize alone, where there is a transcript and the service
/// answers: it looks for the recording, the keys and the transcript, hands that to the service,
/// and makes its answer the summary.
#[verifier::rlimit(60)]
pub proof fn the_course_of_a_summary(
    settings: SettingsModel,
    meta: SessionModel,
    invocation: PipelineInvocation,
    world: PipelineWorld,
    content: Seq<char>,
    summary: Seq<char>,
)
    requires
        world.tasks_succeed(),
        world.audio_present,
        settings.api_call_logging_enabled,
        world.transcript_file == Ok::<Seq<char>, Seq<char>>(content),
        !is_blank(content),
        world.summary == Ok::<Seq<char>, Seq<char>>(summary),
    ensures
        ({
            let run = PipelineModel::starting(settings, meta, invocation, PipelineMode::SummaryOnly);
            let id = meta.session_id;
            let summary_request = "url="@ + trimmed(settings.summary_url) + " model="@ + trimmed(
                settings.openai_model,
            ) + " prompt_chars="@ + decimal(trimmed(settings.summary_prompt).len());
            let done = SessionModel { status: SessionStatus::Done, ..meta };
            let summary_answer = "summary_chars="@ + decimal(summary.len());
            &&& run.course(world) == seq![
                RunAct::Asks(QuestionModel::AudioFile { file: meta.artifacts.audio_file }),
                RunAct::Asks(QuestionModel::Keys),
                RunAct::Asks(QuestionModel::TranscriptFile { file: meta.artifacts.transcript_file }),
                RunAct::Does(
                    TaskModel::AddEvent {
                        session_id: id,
                        kind: EventKind::ApiSummaryRequest,
                        detail: summary_request,
                    },
                ),
                RunAct::Does(
                    TaskModel::AppendApiCall {
                        kind: EventKind::ApiSummaryRequest,
                        detail: summary_request,
                    },
                ),
                RunAct::Asks(
                    QuestionModel::Summary {
                        key: match world.openai {
                            Ok(key) => key,
                            Err(_) => ""@,
                        },
                        transcript: trimmed(content),
                    },
                ),
            ] + seq![
                RunAct::Does(
                    TaskModel::AddEvent {
                        session_id: id,
                        kind: EventKind::ApiSummarySuccess,
                        detail: summary_answer,
                    },
                ),
                RunAct::Does(
                    TaskModel::AppendApiCall {
                        kind: EventKind::ApiSummarySuccess,
                        detail: summary_answer,
                    },
                ),
                RunAct::Does(
                    TaskModel::WriteText { file: meta.artifacts.summary_file, text: summary },
                ),
                RunAct::Does(TaskModel::SaveMeta(done)),
                RunAct::Does(TaskModel::UpsertSession(done)),
                RunAct::Does(
                    TaskModel::AddEvent {
                        session_id: id,
                        kind: EventKind::PipelineDone,
                        detail: "Summary created"@,
                    },
                ),
            ]
            &&& run.result(world) == Ok::<Seq<char>, Seq<char>>("done"@)
        }),
{
    let mode = PipelineMode::SummaryOnly;
    let keyed = lemma_course_to_the_keys(settings, meta, invocation, mode, world);
    let asked = lemma_course_to_the_summary_alone(
        keyed,
        settings,
        meta,
        invocation,
        world,
        content,
    );
    lemma_course_after_the_summary(asked, settings, meta, invocation, mode, world, summary);
    let run = PipelineModel::starting(settings, meta, invocation, mode);
    let id = meta.session_id;
    let summary_request = "url="@ + trimmed(settings.summary_url) + " model="@ + trimmed(
        settings.openai_model,
    ) + " prompt_chars="@ + decimal(trimmed(settings.summary_prompt).len());
    let next = asked.after_summary(world.summary);
    assert(run.course(world) =~= seq![
        RunAct::Asks(QuestionModel::AudioFile { file: meta.artifacts.audio_file }),
        RunAct::Asks(QuestionModel::Keys),
        RunAct::Asks(QuestionModel::TranscriptFile { file: meta.artifacts.transcript_file }),
        RunAct::Does(
            TaskModel::AddEvent {
                session_id: id,
                kind: EventKind::ApiSummaryRequest,
                detail: summary_request,
            },
        ),
        RunAct::Does(
            TaskModel::AppendApiCall {
                kind: EventKind::ApiSummaryRequest,
                detail: summary_request,
            },
        ),
        RunAct::Asks(
            QuestionModel::Summary {
                key: match world.openai {
                    Ok(key) => key,
                    Err(_) => ""@,
                },
                transcript: trimmed(content),
            },
        ),
    ] + next.course(world));
}

/// A run for the summary alone that finds no transcript, or a blank one, ends there, and nothing is
/// done.
#[verifier::rlimit(60)]
pub proof fn the_course_without_a_transcript(
    settings: SettingsModel,
    meta: SessionModel,
    invocation: PipelineInvocation,
    world: PipelineWorld,
)
    requires
        world.tasks_succeed(),
        world.audio_present,
        world.transcript_file is Err || is_blank(world.transcript_file->Ok_0),
    ensures
        ({
            let run = PipelineModel::starting(settings, meta, invocation, PipelineMode::SummaryOnly);
            &&& run.course(world) == seq![
                RunAct::Asks(QuestionModel::AudioFile { file: meta.artifacts.audio_file }),
                RunAct::Asks(QuestionModel::Keys),
                RunAct::Asks(QuestionModel::TranscriptFile { file: meta.artifacts.transcript_file }),
            ]
            &&& run.result(world) == Err::<Seq<char>, Seq<char>>(
                if world.transcript_file is Err {
                    "Transcript file is missing"@
                } else {
                    "Transcript file is empty"@
                },
            )
        }),
{
    let mode = PipelineMode::SummaryOnly;
    let keyed = lemma_course_to_the_keys(settings, meta, invocation, mode, world);
    let reading = lemma_course_stage(keyed, world);
    lemma_only_notes_are_optional(reading, world);
    let over = lemma_course_stage(reading.answered(world), world);
    let run = PipelineModel::starting(settings, meta, invocation, mode);
    assert(run.course(world) =~= seq![
        RunAct::Asks(QuestionModel::AudioFile { file: meta.artifacts.audio_file }),
        RunAct::Asks(QuestionModel::Keys),
        RunAct::Asks(QuestionModel::TranscriptFile { file: meta.artifacts.transcript_file }),
    ]);
}

proof fn lemma_behind<T>(whole: Seq<T>, a: Seq<T>, b: Seq<T>, c: Seq<T>, d: Seq<T>)
    requires
        whole == a + (b + c + d),
    ensures
        whole == a + b + c + d,
        b.len() == 0 ==> whole == a + c + d,
{
    assert(whole =~= a + b + c + d);
    if b.len() == 0 {
        assert(whole =~= a + c + d);
    }
}

/// The course from a failure on.
proof fn lemma_course_of_a_failure(
    run: PipelineModel,
    before: Seq<StepModel<TaskModel>>,
    error: Seq<char>,
    meta: SessionModel,
    invocation: PipelineInvocation,
    world: PipelineWorld,
)
    requires
        world.tasks_succeed(),
        only_notes_are_optional(before),
        run.invocation == invocation,
        run.meta == (SessionModel { status: run.meta.status, ..meta }),
    ensures
        ({
            let end = run.failed(before, error, error);
            let id = meta.session_id;
            let failed = SessionModel { status: SessionStatus::Failed, ..meta };
            &&& end.course(world) == does::<TaskModel, QuestionModel>(tasks_of(before)) + seq![
                RunAct::Does(TaskModel::SaveMeta(failed)),
                RunAct::Does(TaskModel::UpsertSession(failed)),
                RunAct::Does(
                    TaskModel::AddEvent {
                        session_id: id,
                        kind: EventKind::PipelineFailed,
                        detail: error,
                    },
                ),
            ] + (match invocation {
                PipelineInvocation::Run | PipelineInvocation::Retry => seq![
                    RunAct::Asks(QuestionModel::Retry { session_id: id, error, max_attempts: 4 }),
                ] + match world.attempt {
                    Ok(Some(n)) => seq![
                        RunAct::Does(
                            TaskModel::AddEvent {
                                session_id: id,
                                kind: EventKind::PipelineRetryScheduled,
                                detail: "Attempt "@ + signed_decimal(n as int)
                                    + " scheduled due to: "@ + error,
                            },
                        ),
                    ],
                    Ok(None) => seq![
                        RunAct::Does(
                            TaskModel::AddEvent {
                                session_id: id,
                                kind: EventKind::PipelineRetryExhausted,
                                detail: "Retry attempts exhausted"@,
                            },
                        ),
                    ],
                    Err(_) => Seq::empty(),
                },
                PipelineInvocation::Manual | PipelineInvocation::WorkerRetry => Seq::empty(),
            })
            &&& end.result(world) == Err::<Seq<char>, Seq<char>>(
                match (invocation, world.attempt) {
                    (PipelineInvocation::Run | PipelineInvocation::Retry, Err(e)) => e,
                    _ => error,
                },
            )
        }),
{
    let end = run.failed(before, error, error);
    let id = meta.session_id;
    let failed = SessionModel { status: SessionStatus::Failed, ..meta };
    let known = seq![
        RunAct::Does(TaskModel::SaveMeta(failed)),
        RunAct::Does(TaskModel::UpsertSession(failed)),
        RunAct::Does(
            TaskModel::AddEvent {
                session_id: id,
                kind: EventKind::PipelineFailed,
                detail: error,
            },
        ),
    ];
    let asked = lemma_course_stage(end, world);
    assert(does::<TaskModel, QuestionModel>(tasks_of(end.script.steps)) =~= does::<
        TaskModel,
        QuestionModel,
    >(tasks_of(before)) + known);
    if let GoalModel::Ask(_) = end.script.goal {
        let tried = asked.answered(world);
        lemma_only_notes_are_optional(asked, world);
        let over = lemma_course_stage(tried, world);
        if let Ok(_) = world.attempt {
            assert(does::<TaskModel, QuestionModel>(tasks_of(tried.script.steps)) =~= seq![
                RunAct::Does(tried.script.steps[0].task),
            ]);
        } else {
            assert(does::<TaskModel, QuestionModel>(tasks_of(tried.script.steps)) =~= Seq::empty());
        }
    }
    let begun = does::<TaskModel, QuestionModel>(tasks_of(before));
    assert(end.course(world) =~= begun + known + (match invocation {
        PipelineInvocation::Run | PipelineInvocation::Retry => seq![
            RunAct::Asks(QuestionModel::Retry { session_id: id, error, max_attempts: 4 }),
        ] + match world.attempt {
            Ok(Some(n)) => seq![
                RunAct::Does(
                    TaskModel::AddEvent {
                        session_id: id,
                        kind: EventKind::PipelineRetryScheduled,
                        detail: "Attempt "@ + signed_decimal(n as int)
                            + " scheduled due to: "@ + error,
                    },
                ),
            ],
            Ok(None) => seq![
                RunAct::Does(
                    TaskModel::AddEvent {
                        session_id: id,
                        kind: EventKind::PipelineRetryExhausted,
                        detail: "Retry attempts exhausted"@,
                    },
                ),
            ],
            Err(_) => Seq::empty(),
        },
        PipelineInvocation::Manual | PipelineInvocation::WorkerRetry => Seq::empty(),
    }));
}

/// A run on a recording that is not there: the session is marked as failed and that is made known,
/// and where the run is one that is tried again a further attempt is asked for. No service is
/// called.
#[verifier::rlimit(60)]
pub proof fn the_course_without_a_recording(
    settings: SettingsModel,
    meta: SessionModel,
    invocation: PipelineInvocation,
    mode: PipelineMode,
    world: PipelineWorld,
)
    requires
        world.tasks_succeed(),
        !world.audio_present,
    ensures
        ({
            let run = PipelineModel::starting(settings, meta, invocation, mode);
            let id = meta.session_id;
            let failed = SessionModel { status: SessionStatus::Failed, ..meta };
            let error = "Audio file is missing"@;
            &&& run.course(world) == seq![
                RunAct::Asks(QuestionModel::AudioFile { file: meta.artifacts.audio_file }),
            ] + seq![
                RunAct::Does(TaskModel::SaveMeta(failed)),
                RunAct::Does(TaskModel::UpsertSession(failed)),
                RunAct::Does(
                    TaskModel::AddEvent {
                        session_id: id,
                        kind: EventKind::PipelineFailed,
                        detail: error,
                    },
                ),
            ] + (match invocation {
                PipelineInvocation::Run | PipelineInvocation::Retry => seq![
                    RunAct::Asks(QuestionModel::Retry { session_id: id, error, max_attempts: 4 }),
                ] + match world.attempt {
                    Ok(Some(n)) => seq![
                        RunAct::Does(
                            TaskModel::AddEvent {
                                session_id: id,
                                kind: EventKind::PipelineRetryScheduled,
                                detail: "Attempt "@ + signed_decimal(n as int)
                                    + " scheduled due to: "@ + error,
                            },
                        ),
                    ],
                    Ok(None) => seq![
                        RunAct::Does(
                            TaskModel::AddEvent {
                                session_id: id,
                                kind: EventKind::PipelineRetryExhausted,
                                detail: "Retry attempts exhausted"@,
                            },
                        ),
                    ],
                    Err(_) => Seq::empty(),
                },
                PipelineInvocation::Manual | PipelineInvocation::WorkerRetry => Seq::empty(),
            })
            &&& run.result(world) == Err::<Seq<char>, Seq<char>>(
                match (invocation, world.attempt) {
                    (PipelineInvocation::Run | PipelineInvocation::Retry, Err(e)) => e,
                    _ => error,
                },
            )
        }),
{
    let run = PipelineModel::starting(settings, meta, invocation, mode);
    let asked = lemma_course_stage(run, world);
    let error = "Audio file is missing"@;
    lemma_course_of_a_failure(asked, Seq::empty(), error, meta, invocation, world);
    let rest = asked.answered(world).course(world);
    assert(does::<TaskModel, QuestionModel>(tasks_of(Seq::empty())) =~= Seq::empty());
    assert(run.course(world) =~= seq![
        RunAct::Asks(QuestionModel::AudioFile { file: meta.artifacts.audio_file }),
    ] + rest);
    let id = meta.session_id;
    let failed = SessionModel { status: SessionStatus::Failed, ..meta };
    let known = seq![
        RunAct::Does(TaskModel::SaveMeta(failed)),
        RunAct::Does(TaskModel::UpsertSession(failed)),
        RunAct::Does(
            TaskModel::AddEvent {
                session_id: id,
                kind: EventKind::PipelineFailed,
                detail: error,
            },
        ),
    ];
    let after = match invocation {
        PipelineInvocation::Run | PipelineInvocation::Retry => seq![
            RunAct::Asks(QuestionModel::Retry { session_id: id, error, max_attempts: 4 }),
        ] + match world.attempt {
            Ok(Some(n)) => seq![
                RunAct::Does(
                    TaskModel::AddEvent {
                        session_id: id,
                        kind: EventKind::PipelineRetryScheduled,
                        detail: "Attempt "@ + signed_decimal(n as int)
                            + " scheduled due to: "@ + error,
                    },
                ),
            ],
            Ok(None) => seq![
                RunAct::Does(
                    TaskModel::AddEvent {
                        session_id: id,
                        kind: EventKind::PipelineRetryExhausted,
                        detail: "Retry attempts exhausted"@,
                    },
                ),
            ],
            Err(_) => Seq::empty(),
        },
        PipelineInvocation::Manual | PipelineInvocation::WorkerRetry => Seq::empty(),
    };
    lemma_behind(run.course(world), seq![
        RunAct::Asks(QuestionModel::AudioFile { file: meta.artifacts.audio_file }),
    ], Seq::empty(), known, after);
}

/// A run that logs its calls, whose transcription fails with `err`: that is noted, the session is
/// marked as failed, the error is made known, with a word on the key where the service missed
/// it, and where the run is one that is tried again a further attempt is asked for. The summary
/// service is not called.
#[verifier::rlimit(60)]
pub proof fn the_course_of_a_failed_transcription(
    settings: SettingsModel,
    meta: SessionModel,
    invocation: PipelineInvocation,
    mode: PipelineMode,
    world: PipelineWorld,
    err: Seq<char>,
)
    requires
        world.tasks_succeed(),
        world.audio_present,
        mode != PipelineMode::SummaryOnly,
        settings.api_call_logging_enabled,
        world.transcription == Err::<Seq<char>, Seq<char>>(err),
    ensures
        ({
            let run = PipelineModel::starting(settings, meta, invocation, mode);
            let id = meta.session_id;
            let failed = SessionModel { status: SessionStatus::Failed, ..meta };
            let request = "url="@ + trimmed(settings.transcription_url) + " task="@ + trimmed(
                settings.transcription_task,
            ) + " diarization_setting="@ + trimmed(settings.transcription_diarization_setting);
            let error = if !mentions(err, "No token specified"@) {
                err
            } else {
                match world.nexara {
                    Err(e) => err + ". keyring lookup error for NEXARA_API_KEY: "@ + e,
                    Ok(key) => if is_blank(key) {
                        err + ". NEXARA_API_KEY is empty"@
                    } else {
                        err
                    },
                }
            };
            &&& run.course(world) == seq![
                RunAct::Asks(QuestionModel::AudioFile { file: meta.artifacts.audio_file }),
                RunAct::Asks(QuestionModel::Keys),
                RunAct::Does(
                    TaskModel::AddEvent {
                        session_id: id,
                        kind: EventKind::ApiTranscriptionRequest,
                        detail: request,
                    },
                ),
                RunAct::Does(
                    TaskModel::AppendApiCall {
                        kind: EventKind::ApiTranscriptionRequest,
                        detail: request,
                    },
                ),
                RunAct::Asks(
                    QuestionModel::Transcription {
                        key: match world.nexara {
                            Ok(key) => key,
                            Err(_) => ""@,
                        },
                    },
                ),
            ] + seq![
                RunAct::Does(
                    TaskModel::AddEvent {
                        session_id: id,
                        kind: EventKind::ApiTranscriptionError,
                        detail: "error="@ + err,
                    },
                ),
                RunAct::Does(
                    TaskModel::AppendApiCall {
                        kind: EventKind::ApiTranscriptionError,
                        detail: "error="@ + err,
                    },
                ),
            ] + seq![
                RunAct::Does(TaskModel::SaveMeta(failed)),
                RunAct::Does(TaskModel::UpsertSession(failed)),
                RunAct::Does(
                    TaskModel::AddEvent {
                        session_id: id,
                        kind: EventKind::PipelineFailed,
                        detail: error,
                    },
                ),
            ] + (match invocation {
                PipelineInvocation::Run | PipelineInvocation::Retry => seq![
                    RunAct::Asks(QuestionModel::Retry { session_id: id, error, max_attempts: 4 }),
                ] + match world.attempt {
                    Ok(Some(n)) => seq![
                        RunAct::Does(
                            TaskModel::AddEvent {
                                session_id: id,
                                kind: EventKind::PipelineRetryScheduled,
                                detail: "Attempt "@ + signed_decimal(n as int)
                                    + " scheduled due to: "@ + error,
                            },
                        ),
                    ],
                    Ok(None) => seq![
                        RunAct::Does(
                            TaskModel::AddEvent {
                                session_id: id,
                                kind: EventKind::PipelineRetryExhausted,
                                detail: "Retry attempts exhausted"@,
                            },
                        ),
                    ],
                    Err(_) => Seq::empty(),
                },
                PipelineInvocation::Manual | PipelineInvocation::WorkerRetry => Seq::empty(),
            })
            &&& run.result(world) == Err::<Seq<char>, Seq<char>>(
                match (invocation, world.attempt) {
                    (PipelineInvocation::Run | PipelineInvocation::Retry, Err(e)) => e,
                    _ => error,
                },
            )
        }),
{
    let run = PipelineModel::starting(settings, meta, invocation, mode);
    let keyed = lemma_course_to_the_keys(settings, meta, invocation, mode, world);
    let asked = lemma_course_to_the_transcription(keyed, settings, meta, invocation, mode, world);
    let answered = asked.after_transcription(world.transcription);
    let noted = asked.noted(EventKind::ApiTranscriptionError, "error="@ + err);
    let error = if !mentions(err, "No token specified"@) {
        err
    } else {
        match world.nexara {
            Err(e) => err + ". keyring lookup error for NEXARA_API_KEY: "@ + e,
            Ok(key) => if is_blank(key) {
                err + ". NEXARA_API_KEY is empty"@
            } else {
                err
            },
        }
    };
    lemma_course_of_a_failure(asked, noted, error, meta, invocation, world);
    let id = meta.session_id;
    let failed = SessionModel { status: SessionStatus::Failed, ..meta };
    let request = "url="@ + trimmed(settings.transcription_url) + " task="@ + trimmed(
        settings.transcription_task,
    ) + " diarization_setting="@ + trimmed(settings.transcription_diarization_setting);
    let begun = seq![
        RunAct::Asks(QuestionModel::AudioFile { file: meta.artifacts.audio_file }),
        RunAct::Asks(QuestionModel::Keys),
        RunAct::Does(
            TaskModel::AddEvent {
                session_id: id,
                kind: EventKind::ApiTranscriptionRequest,
                detail: request,
            },
        ),
        RunAct::Does(
            TaskModel::AppendApiCall { kind: EventKind::ApiTranscriptionRequest, detail: request },
        ),
        RunAct::Asks(
            QuestionModel::Transcription {
                key: match world.nexara {
                    Ok(key) => key,
                    Err(_) => ""@,
                },
            },
        ),
    ];
    let noting = seq![
        RunAct::Does(
            TaskModel::AddEvent {
                session_id: id,
                kind: EventKind::ApiTranscriptionError,
                detail: "error="@ + err,
            },
        ),
        RunAct::Does(
            TaskModel::AppendApiCall {
                kind: EventKind::ApiTranscriptionError,
                detail: "error="@ + err,
            },
        ),
    ];
    assert(does::<TaskModel, QuestionModel>(tasks_of(noted)) =~= noting);
    assert(run.course(world) =~= begun + answered.course(world));
    let known = seq![
        RunAct::Does(TaskModel::SaveMeta(failed)),
        RunAct::Does(TaskModel::UpsertSession(failed)),
        RunAct::Does(
            TaskModel::AddEvent {
                session_id: id,
                kind: EventKind::PipelineFailed,
                detail: error,
            },
        ),
    ];
    let after = match invocation {
        PipelineInvocation::Run | PipelineInvocation::Retry => seq![
            RunAct::Asks(QuestionModel::Retry { session_id: id, error, max_attempts: 4 }),
        ] + match world.attempt {
            Ok(Some(n)) => seq![
                RunAct::Does(
                    TaskModel::AddEvent {
                        session_id: id,
                        kind: EventKind::PipelineRetryScheduled,
                        detail: "Attempt "@ + signed_decimal(n as int)
                            + " scheduled due to: "@ + error,
                    },
                ),
            ],
            Ok(None) => seq![
                RunAct::Does(
                    TaskModel::AddEvent {
                        session_id: id,
                        kind: EventKind::PipelineRetryExhausted,
                        detail: "Retry attempts exhausted"@,
                    },
                ),
            ],
            Err(_) => Seq::empty(),
        },
        PipelineInvocation::Manual | PipelineInvocation::WorkerRetry => Seq::empty(),
    };
    lemma_behind(run.course(world), begun, noting, known, after);
}

/// A whole run that logs its calls, whose summary fails with `err`: the transcript is in place by
/// then and stays, the failure is noted, the session is marked as failed, the error is made
/// known, and where the run is one that is tried again a further attempt is asked for.
#[verifier::rlimit(60)]
pub proof fn the_course_of_a_whole_run_whose_summary_fails(
    settings: SettingsModel,
    meta: SessionModel,
    invocation: PipelineInvocation,
    world: PipelineWorld,
    transcript: Seq<char>,
    err: Seq<char>,
)
    requires
        world.tasks_succeed(),
        world.audio_present,
        settings.api_call_logging_enabled,
        world.transcription == Ok::<Seq<char>, Seq<char>>(transcript),
        world.summary == Err::<Seq<char>, Seq<char>>(err),
    ensures
        ({
            let run = PipelineModel::starting(settings, meta, invocation, PipelineMode::Full);
            let id = meta.session_id;
            let failed = SessionModel { status: SessionStatus::Failed, ..meta };
            let request = "url="@ + trimmed(settings.transcription_url) + " task="@ + trimmed(
                settings.transcription_task,
            ) + " diarization_setting="@ + trimmed(settings.transcription_diarization_setting);
            let transcribed = SessionModel { status: SessionStatus::Transcribed, ..meta };
            let answer = "transcript_chars="@ + decimal(transcript.len());
            let summary_request = "url="@ + trimmed(settings.summary_url) + " model="@ + trimmed(
                settings.openai_model,
            ) + " prompt_chars="@ + decimal(trimmed(settings.summary_prompt).len());
            let error = err;
            &&& run.course(world) == seq![
                RunAct::Asks(QuestionModel::AudioFile { file: meta.artifacts.audio_file }),
                RunAct::Asks(QuestionModel::Keys),
                RunAct::Does(
                    TaskModel::AddEvent {
                        session_id: id,
                        kind: EventKind::ApiTranscriptionRequest,
                        detail: request,
                    },
                ),
                RunAct::Does(
                    TaskModel::AppendApiCall {
                        kind: EventKind::ApiTranscriptionRequest,
                        detail: request,
                    },
                ),
                RunAct::Asks(
                    QuestionModel::Transcription {
                        key: match world.nexara {
                            Ok(key) => key,
                            Err(_) => ""@,
                        },
                    },
                ),
            ] + seq![
                RunAct::Does(
                    TaskModel::AddEvent {
                        session_id: id,
                        kind: EventKind::ApiTranscriptionSuccess,
                        detail: answer,
                    },
                ),
                RunAct::Does(
                    TaskModel::AppendApiCall {
                        kind: EventKind::ApiTranscriptionSuccess,
                        detail: answer,
                    },
                ),
                RunAct::Does(
                    TaskModel::WriteText { file: meta.artifacts.transcript_file, text: transcript },
                ),
                RunAct::Does(TaskModel::SaveMeta(transcribed)),
                RunAct::Does(TaskModel::UpsertSession(transcribed)),
                RunAct::Does(
                    TaskModel::AddEvent {
                        session_id: id,
                        kind: EventKind::Transcribed,
                        detail: "Transcript created"@,
                    },
                ),
                RunAct::Does(
                    TaskModel::AddEvent {
                        session_id: id,
                        kind: EventKind::ApiSummaryRequest,
                        detail: summary_request,
                    },
                ),
                RunAct::Does(
                    TaskModel::AppendApiCall {
                        kind: EventKind::ApiSummaryRequest,
                        detail: summary_request,
                    },
                ),
                RunAct::Asks(
                    QuestionModel::Summary {
                        key: match world.openai {
                            Ok(key) => key,
                            Err(_) => ""@,
                        },
                        transcript: transcript,
                    },
                ),
            ] + seq![
                RunAct::Does(
                    TaskModel::AddEvent {
                        session_id: id,
                        kind: EventKind::ApiSummaryError,
                        detail: "error="@ + err,
                    },
                ),
                RunAct::Does(
                    TaskModel::AppendApiCall {
                        kind: EventKind::ApiSummaryError,
                        detail: "error="@ + err,
                    },
                ),
            ] + seq![
                RunAct::Does(TaskModel::SaveMeta(failed)),
                RunAct::Does(TaskModel::UpsertSession(failed)),
                RunAct::Does(
                    TaskModel::AddEvent {
                        session_id: id,
                        kind: EventKind::PipelineFailed,
                        detail: error,
                    },
                ),
            ] + (match invocation {
                PipelineInvocation::Run | PipelineInvocation::Retry => seq![
                    RunAct::Asks(QuestionModel::Retry { session_id: id, error, max_attempts: 4 }),
                ] + match world.attempt {
                    Ok(Some(n)) => seq![
                        RunAct::Does(
                            TaskModel::AddEvent {
                                session_id: id,
                                kind: EventKind::PipelineRetryScheduled,
                                detail: "Attempt "@ + signed_decimal(n as int)
                                    + " scheduled due to: "@ + error,
                            },
                        ),
                    ],
                    Ok(None) => seq![
                        RunAct::Does(
                            TaskModel::AddEvent {
                                session_id: id,
                                kind: EventKind::PipelineRetryExhausted,
                                detail: "Retry attempts exhausted"@,
                            },
                        ),
                    ],
                    Err(_) => Seq::empty(),
                },
                PipelineInvocation::Manual | PipelineInvocation::WorkerRetry => Seq::empty(),
            })
            &&& run.result(world) == Err::<Seq<char>, Seq<char>>(
                match (invocation, world.attempt) {
                    (PipelineInvocation::Run | PipelineInvocation::Retry, Err(e)) => e,
                    _ => error,
                },
            )
        }),
{
    let mode = PipelineMode::Full;
    let run = PipelineModel::starting(settings, meta, invocation, mode);
    let keyed = lemma_course_to_the_keys(settings, meta, invocation, mode, world);
    let asked = lemma_course_to_the_transcription(keyed, settings, meta, invocation, mode, world);
    let asked_again = lemma_course_to_the_summary(
        asked,
        settings,
        meta,
        invocation,
        world,
        transcript,
    );
    let answered = asked.after_transcription(world.transcription);
    let next = asked_again.after_summary(world.summary);
    let noted = asked_again.noted(EventKind::ApiSummaryError, "error="@ + err);
    let error = err;
    lemma_course_of_a_failure(asked_again, noted, error, meta, invocation, world);
    let id = meta.session_id;
    let failed = SessionModel { status: SessionStatus::Failed, ..meta };
    let request = "url="@ + trimmed(settings.transcription_url) + " task="@ + trimmed(
        settings.transcription_task,
    ) + " diarization_setting="@ + trimmed(settings.transcription_diarization_setting);
    let transcribed = SessionModel { status: SessionStatus::Transcribed, ..meta };
    let answer = "transcript_chars="@ + decimal(transcript.len());
    let summary_request = "url="@ + trimmed(settings.summary_url) + " model="@ + trimmed(
        settings.openai_model,
    ) + " prompt_chars="@ + decimal(trimmed(settings.summary_prompt).len());
    let begun = seq![
        RunAct::Asks(QuestionModel::AudioFile { file: meta.artifacts.audio_file }),
        RunAct::Asks(QuestionModel::Keys),
        RunAct::Does(
            TaskModel::AddEvent {
                session_id: id,
                kind: EventKind::ApiTranscriptionRequest,
                detail: request,
            },
        ),
        RunAct::Does(
            TaskModel::AppendApiCall { kind: EventKind::ApiTranscriptionRequest, detail: request },
        ),
        RunAct::Asks(
            QuestionModel::Transcription {
                key: match world.nexara {
                    Ok(key) => key,
                    Err(_) => ""@,
                },
            },
        ),
    ];
    let written = seq![
        RunAct::Does(
            TaskModel::AddEvent {
                session_id: id,
                kind: EventKind::ApiTranscriptionSuccess,
                detail: answer,
            },
        ),
        RunAct::Does(
            TaskModel::AppendApiCall { kind: EventKind::ApiTranscriptionSuccess, detail: answer },
        ),
        RunAct::Does(
            TaskModel::WriteText { file: meta.artifacts.transcript_file, text: transcript },
        ),
        RunAct::Does(TaskModel::SaveMeta(transcribed)),
        RunAct::Does(TaskModel::UpsertSession(transcribed)),
        RunAct::Does(
            TaskModel::AddEvent {
                session_id: id,
                kind: EventKind::Transcribed,
                detail: "Transcript created"@,
            },
        ),
        RunAct::Does(
            TaskModel::AddEvent {
                session_id: id,
                kind: EventKind::ApiSummaryRequest,
                detail: summary_request,
            },
        ),
        RunAct::Does(
            TaskModel::AppendApiCall {
                kind: EventKind::ApiSummaryRequest,
                detail: summary_request,
            },
        ),
        RunAct::Asks(
            QuestionModel::Summary {
                key: match world.openai {
                    Ok(key) => key,
                    Err(_) => ""@,
                },
                transcript: transcript,
            },
        ),
    ];
    let noting = seq![
        RunAct::Does(
            TaskModel::AddEvent {
                session_id: id,
                kind: EventKind::ApiSummaryError,
                detail: "error="@ + err,
            },
        ),
        RunAct::Does(
            TaskModel::AppendApiCall { kind: EventKind::ApiSummaryError, detail: "error="@ + err },
        ),
    ];
    assert(does::<TaskModel, QuestionModel>(tasks_of(noted)) =~= noting);
    assert(run.course(world) =~= begun + answered.course(world));
    assert(run.course(world) =~= (begun + written) + next.course(world));
    let known = seq![
        RunAct::Does(TaskModel::SaveMeta(failed)),
        RunAct::Does(TaskModel::UpsertSession(failed)),
        RunAct::Does(
            TaskModel::AddEvent {
                session_id: id,
                kind: EventKind::PipelineFailed,
                detail: error,
            },
        ),
    ];
    let after = match invocation {
        PipelineInvocation::Run | PipelineInvocation::Retry => seq![
            RunAct::Asks(QuestionModel::Retry { session_id: id, error, max_attempts: 4 }),
        ] + match world.attempt {
            Ok(Some(n)) => seq![
                RunAct::Does(
                    TaskModel::AddEvent {
                        session_id: id,
                        kind: EventKind::PipelineRetryScheduled,
                        detail: "Attempt "@ + signed_decimal(n as int)
                            + " scheduled due to: "@ + error,
                    },
                ),
            ],
            Ok(None) => seq![
                RunAct::Does(
                    TaskModel::AddEvent {
                        session_id: id,
                        kind: EventKind::PipelineRetryExhausted,
                        detail: "Retry attempts exhausted"@,
                    },
                ),
            ],
            Err(_) => Seq::empty(),
        },
        PipelineInvocation::Manual | PipelineInvocation::WorkerRetry => Seq::empty(),
    };
    lemma_behind(run.course(world), begun + written, noting, known, after);
}

/// A run for the summary alone that logs its calls, whose summary fails with `err`: that is noted,
/// the session is marked as failed, the error is made known, and where the run is one that is
/// tried again a further attempt is asked for.
#[verifier::rlimit(60)]
pub proof fn the_course_of_a_failed_summary(
    settings: SettingsModel,
    meta: SessionModel,
    invocation: PipelineInvocation,
    world: PipelineWorld,
    content: Seq<char>,
    err: Seq<char>,
)
    requires
        world.tasks_succeed(),
        world.audio_present,
        settings.api_call_logging_enabled,
        world.transcript_file == Ok::<Seq<char>, Seq<char>>(content),
        !is_blank(content),
        world.summary == Err::<Seq<char>, Seq<char>>(err),
    ensures
        ({
            let run = PipelineModel::starting(settings, meta, invocation, PipelineMode::SummaryOnly);
            let id = meta.session_id;
            let failed = SessionModel { status: SessionStatus::Failed, ..meta };
            let summary_request = "url="@ + trimmed(settings.summary_url) + " model="@ + trimmed(
                settings.openai_model,
            ) + " prompt_chars="@ + decimal(trimmed(settings.summary_prompt).len());
            let error = err;
            &&& run.course(world) == seq![
                RunAct::Asks(QuestionModel::AudioFile { file: meta.artifacts.audio_file }),
                RunAct::Asks(QuestionModel::Keys),
                RunAct::Asks(QuestionModel::TranscriptFile { file: meta.artifacts.transcript_file }),
                RunAct::Does(
                    TaskModel::AddEvent {
                        session_id: id,
                        kind: EventKind::ApiSummaryRequest,
                        detail: summary_request,
                    },
                ),
                RunAct::Does(
                    TaskModel::AppendApiCall {
                        kind: EventKind::ApiSummaryRequest,
                        detail: summary_request,
                    },
                ),
                RunAct::Asks(
                    QuestionModel::Summary {
                        key: match world.openai {
                            Ok(key) => key,
                            Err(_) => ""@,
                        },
                        transcript: trimmed(content),
                    },
                ),
            ] + seq![
                RunAct::Does(
                    TaskModel::AddEvent {
                        session_id: id,
                        kind: EventKind::ApiSummaryError,
                        detail: "error="@ + err,
                    },
                ),
                RunAct::Does(
                    TaskModel::AppendApiCall {
                        kind: EventKind::ApiSummaryError,
                        detail: "error="@ + err,
                    },
                ),
            ] + seq![
                RunAct::Does(TaskModel::SaveMeta(failed)),
                RunAct::Does(TaskModel::UpsertSession(failed)),
                RunAct::Does(
                    TaskModel::AddEvent {
                        session_id: id,
                        kind: EventKind::PipelineFailed,
                        detail: error,
                    },
                ),
            ] + (match invocation {
                PipelineInvocation::Run | PipelineInvocation::Retry => seq![
                    RunAct::Asks(QuestionModel::Retry { session_id: id, error, max_attempts: 4 }),
                ] + match world.attempt {
                    Ok(Some(n)) => seq![
                        RunAct::Does(
                            TaskModel::AddEvent {
                                session_id: id,
                                kind: EventKind::PipelineRetryScheduled,
                                detail: "Attempt "@ + signed_decimal(n as int)
                                    + " scheduled due to: "@ + error,
                            },
                        ),
                    ],
                    Ok(None) => seq![
                        RunAct::Does(
                            TaskModel::AddEvent {
                                session_id: id,
                                kind: EventKind::PipelineRetryExhausted,
                                detail: "Retry attempts exhausted"@,
                            },
                        ),
                    ],
                    Err(_) => Seq::empty(),
                },
                PipelineInvocation::Manual | PipelineInvocation::WorkerRetry => Seq::empty(),
            })
            &&& run.result(world) == Err::<Seq<char>, Seq<char>>(
                match (invocation, world.attempt) {
                    (PipelineInvocation::Run | PipelineInvocation::Retry, Err(e)) => e,
                    _ => error,
                },
            )
        }),
{
    let mode = PipelineMode::SummaryOnly;
    let run = PipelineModel::starting(settings, meta, invocation, mode);
    let keyed = lemma_course_to_the_keys(settings, meta, invocation, mode, world);
    let asked = lemma_course_to_the_summary_alone(
        keyed,
        settings,
        meta,
        invocation,
        world,
        content,
    );
    let next = asked.after_summary(world.summary);
    let noted = asked.noted(EventKind::ApiSummaryError, "error="@ + err);
    let error = err;
    lemma_course_of_a_failure(asked, noted, error, meta, invocation, world);
    let id = meta.session_id;
    let failed = SessionModel { status: SessionStatus::Failed, ..meta };
    let summary_request = "url="@ + trimmed(settings.summary_url) + " model="@ + trimmed(
        settings.openai_model,
    ) + " prompt_chars="@ + decimal(trimmed(settings.summary_prompt).len());
    let begun = seq![
        RunAct::Asks(QuestionModel::AudioFile { file: meta.artifacts.audio_file }),
        RunAct::Asks(QuestionModel::Keys),
        RunAct::Asks(QuestionModel::TranscriptFile { file: meta.artifacts.transcript_file }),
        RunAct::Does(
            TaskModel::AddEvent {
                session_id: id,
                kind: EventKind::ApiSummaryRequest,
                detail: summary_request,
            },
        ),
        RunAct::Does(
            TaskModel::AppendApiCall {
                kind: EventKind::ApiSummaryRequest,
                detail: summary_request,
            },
        ),
        RunAct::Asks(
            QuestionModel::Summary {
                key: match world.openai {
                    Ok(key) => key,
                    Err(_) => ""@,
                },
                transcript: trimmed(content),
            },
        ),
    ];
    let noting = seq![
        RunAct::Does(
            TaskModel::AddEvent {
                session_id: id,
                kind: EventKind::ApiSummaryError,
                detail: "error="@ + err,
            },
        ),
        RunAct::Does(
            TaskModel::AppendApiCall { kind: EventKind::ApiSummaryError, detail: "error="@ + err },
        ),
    ];
    assert(does::<TaskModel, QuestionModel>(tasks_of(noted)) =~= noting);
    assert(run.course(world) =~= begun + next.course(world));
    let known = seq![
        RunAct::Does(TaskModel::SaveMeta(failed)),
        RunAct::Does(TaskModel::UpsertSession(failed)),
        RunAct::Does(
            TaskModel::AddEvent {
                session_id: id,
                kind: EventKind::PipelineFailed,
                detail: error,
            },
        ),
    ];
    let after = match invocation {
        PipelineInvocation::Run | PipelineInvocation::Retry => seq![
            RunAct::Asks(QuestionModel::Retry { session_id: id, error, max_attempts: 4 }),
        ] + match world.attempt {
            Ok(Some(n)) => seq![
                RunAct::Does(
                    TaskModel::AddEvent {
                        session_id: id,
                        kind: EventKind::PipelineRetryScheduled,
                        detail: "Attempt "@ + signed_decimal(n as int)
                            + " scheduled due to: "@ + error,
                    },
                ),
            ],
            Ok(None) => seq![
                RunAct::Does(
                    TaskModel::AddEvent {
                        session_id: id,
                        kind: EventKind::PipelineRetryExhausted,
                        detail: "Retry attempts exhausted"@,
                    },
                ),
            ],
            Err(_) => Seq::empty(),
        },
        PipelineInvocation::Manual | PipelineInvocation::WorkerRetry => Seq::empty(),
    };
    lemma_behind(run.course(world), begun, noting, known, after);
}

/// What a whole run that comes to a good end has written is what the services make of each other's
/// answers: with `transcribe` for what the transcription service answers to a key, and `summarize`
/// for what the summary service answers to a key and a transcript, the transcript is what the one
/// answers to its key, and the summary what the other answers to its key and that transcript.
pub proof fn what_is_written_comes_from_the_services(
    settings: SettingsModel,
    meta: SessionModel,
    invocation: PipelineInvocation,
    world: PipelineWorld,
    transcribe: spec_fn(Seq<char>) -> Result<Seq<char>, Seq<char>>,
    summarize: spec_fn(Seq<char>, Seq<char>) -> Result<Seq<char>, Seq<char>>,
)
    requires
        ({
            let run = PipelineModel::starting(settings, meta, invocation, PipelineMode::Full);
            &&& run.result(world) is Ok
            &&& forall|key: Seq<char>|
                #[trigger] run.course(world).contains(
                    RunAct::Asks(QuestionModel::Transcription { key }),
                ) ==> world.transcription == transcribe(key)
            &&& forall|key: Seq<char>, transcript: Seq<char>|
                #[trigger] run.course(world).contains(
                    RunAct::Asks(QuestionModel::Summary { key, transcript }),
                ) ==> world.summary == summarize(key, transcript)
        }),
    ensures
        ({
            let run = PipelineModel::starting(settings, meta, invocation, PipelineMode::Full);
            let nexara_key = match world.nexara {
                Ok(key) => key,
                Err(_) => ""@,
            };
            let openai_key = match world.openai {
                Ok(key) => key,
                Err(_) => ""@,
            };
            let transcript = transcribe(nexara_key);
            let summary = summarize(openai_key, transcript->Ok_0);
            &&& transcript is Ok
            &&& summary is Ok
            &&& run.performed(world).contains(
                TaskModel::WriteText {
                    file: meta.artifacts.transcript_file,
                    text: transcript->Ok_0,
                },
            )
            &&& run.performed(world).contains(
                TaskModel::WriteText { file: meta.artifacts.summary_file, text: summary->Ok_0 },
            )
        }),
{
    let mode = PipelineMode::Full;
    let run = PipelineModel::starting(settings, meta, invocation, mode);
    let calm = world.undisturbed();
    lemma_disturbed_course(run, world);
    every_run_ends(run, world);
    a_good_end_means_that_everything_was_done(settings, meta, invocation, mode, world);
    assert(run.course(world) == run.course(calm));
    let keyed = lemma_course_to_the_keys(settings, meta, invocation, mode, calm);
    let asked = lemma_course_stage(keyed, calm);
    let first: nat = keyed.script.steps.len() + 2;
    let course = run.course(calm);
    assert(course[first as int] == keyed.course(calm)[first - 2]);
    assert(course[first as int] == RunAct::Asks(keyed.script.goal->Ask_0));
    let answered = asked.answered(calm);
    lemma_only_notes_are_optional(asked, calm);
    let asked_again = lemma_course_stage(answered, calm);
    let second: nat = first + 1 + answered.script.steps.len();
    assert(course[second as int] == answered.course(calm)[second - first - 1]);
    assert(course[second as int] == RunAct::Asks(answered.script.goal->Ask_0));
    assert(run.course(world).contains(course[first as int]));
    assert(run.course(world).contains(course[second as int]));
}

} // verus!
