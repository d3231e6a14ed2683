//! Recording sessions: what is known of one, and how long it took.
use crate::clock::{
    duration_hms, duration_text, is_written_time, now_rfc3339, parse_rfc3339, rfc3339_instant,
    Instant,
};
use crate::text::{copied, optional_text, texts};
use vstd::prelude::*;

verus! {

/// The name of the file in its directory that says what is known of a session.
pub const META_FILE: &'static str = "meta.json";

/// How far a session has come.
#[derive(Clone, Copy, Debug, PartialEq, Eq, Structural)]
pub enum SessionStatus {
    Recording,
    Recorded,
    Transcribed,
    Summarized,
    Done,
    Failed,
}

impl SessionStatus {
    /// The word for the status.
    pub open spec fn text(self) -> Seq<char> {
        match self {
            SessionStatus::Recording => "recording"@,
            SessionStatus::Recorded => "recorded"@,
            SessionStatus::Transcribed => "transcribed"@,
            SessionStatus::Summarized => "summarized"@,
            SessionStatus::Done => "done"@,
            SessionStatus::Failed => "failed"@,
        }
    }

    /// The word for the status.
    pub fn name(self) -> (r: &'static str)
        ensures
            r@ == self.text(),
    {
        match self {
            SessionStatus::Recording => "recording",
            SessionStatus::Recorded => "recorded",
            SessionStatus::Transcribed => "transcribed",
            SessionStatus::Summarized => "summarized",
            SessionStatus::Done => "done",
            SessionStatus::Failed => "failed",
        }
    }
}

/// The files of a session, by their names in its directory.
#[derive(Debug, PartialEq, Eq)]
pub struct SessionArtifacts {
    pub audio_file: String,
    pub transcript_file: String,
    pub summary_file: String,
    pub meta_file: String,
}

/// The names of the files of a session.
pub struct ArtifactsModel {
    pub audio_file: Seq<char>,
    pub transcript_file: Seq<char>,
    pub summary_file: Seq<char>,
    pub meta_file: Seq<char>,
}

impl View for SessionArtifacts {
    type V = ArtifactsModel;

    open spec fn view(&self) -> ArtifactsModel {
        ArtifactsModel {
            audio_file: self.audio_file@,
            transcript_file: self.transcript_file@,
            summary_file: self.summary_file@,
            meta_file: self.meta_file@,
        }
    }
}

/// What is known of a session.
#[derive(Debug, PartialEq, Eq)]
pub struct SessionMeta {
    pub session_id: String,
    pub primary_tag: String,
    pub tags: Vec<String>,
    pub topic: String,
    pub participants: Vec<String>,
    pub started_at_iso: String,
    pub ended_at_iso: Option<String>,
    pub status: SessionStatus,
    pub artifacts: SessionArtifacts,
}

/// What a [`SessionMeta`] says.
pub struct SessionModel {
    pub session_id: Seq<char>,
    pub primary_tag: Seq<char>,
    pub tags: Seq<Seq<char>>,
    pub topic: Seq<char>,
    pub participants: Seq<Seq<char>>,
    pub started_at_iso: Seq<char>,
    pub ended_at_iso: Option<Seq<char>>,
    pub status: SessionStatus,
    pub artifacts: ArtifactsModel,
}

impl View for SessionMeta {
    type V = SessionModel;

    open spec fn view(&self) -> SessionModel {
        SessionModel {
            session_id: self.session_id@,
            primary_tag: self.primary_tag@,
            tags: texts(self.tags@),
            topic: self.topic@,
            participants: texts(self.participants@),
            started_at_iso: self.started_at_iso@,
            ended_at_iso: optional_text(self.ended_at_iso),
            status: self.status,
            artifacts: self.artifacts@,
        }
    }
}

/// The source a recording is filed under where no tag names one.
pub open spec fn source_of(tags: Seq<Seq<char>>) -> Seq<char> {
    if tags.len() > 0 {
        tags.first()
    } else {
        "zoom"@
    }
}

/// The source that a list of tags names first, or the usual one.
pub fn source_tag(tags: &Vec<String>) -> (r: String)
    ensures
        r@ == source_of(texts(tags@)),
{
    if tags.len() > 0 {
        tags[0].clone()
    } else {
        "zoom".to_owned()
    }
}

impl SessionModel {
    /// A session at its start.
    pub open spec fn starting(
        session_id: Seq<char>,
        tags: Seq<Seq<char>>,
        topic: Seq<char>,
        participants: Seq<Seq<char>>,
        started_at_iso: Seq<char>,
    ) -> SessionModel {
        SessionModel {
            session_id,
            primary_tag: source_of(tags),
            tags,
            topic,
            participants,
            started_at_iso,
            ended_at_iso: None,
            status: SessionStatus::Recording,
            artifacts: ArtifactsModel {
                audio_file: ""@,
                transcript_file: ""@,
                summary_file: ""@,
                meta_file: ""@,
            },
        }
    }

    /// The session with another status.
    pub open spec fn with_status(self, status: SessionStatus) -> SessionModel {
        SessionModel { status, ..self }
    }
}

impl Clone for SessionArtifacts {
    fn clone(&self) -> (r: SessionArtifacts)
        ensures
            r@ == self@,
    {
        SessionArtifacts {
            audio_file: self.audio_file.clone(),
            transcript_file: self.transcript_file.clone(),
            summary_file: self.summary_file.clone(),
            meta_file: self.meta_file.clone(),
        }
    }
}

impl Clone for SessionMeta {
    fn clone(&self) -> (r: SessionMeta)
        ensures
            r@ == self@,
    {
        let ended_at_iso = match &self.ended_at_iso {
            Some(t) => Some(t.clone()),
            None => None,
        };
        SessionMeta {
            session_id: self.session_id.clone(),
            primary_tag: self.primary_tag.clone(),
            tags: copied(&self.tags),
            topic: self.topic.clone(),
            participants: copied(&self.participants),
            started_at_iso: self.started_at_iso.clone(),
            ended_at_iso,
            status: self.status,
            artifacts: self.artifacts.clone(),
        }
    }
}

impl SessionMeta {
    /// A session that starts at the given time.
    pub fn starting(
        session_id: String,
        tags: Vec<String>,
        topic: String,
        participants: Vec<String>,
        started_at_iso: String,
    ) -> (r: SessionMeta)
        ensures
            r@ == SessionModel::starting(
                session_id@,
                texts(tags@),
                topic@,
                texts(participants@),
                started_at_iso@,
            ),
    {
        let primary_tag = source_tag(&tags);
        SessionMeta {
            session_id,
            primary_tag,
            tags,
            topic,
            participants,
            started_at_iso,
            ended_at_iso: None,
            status: SessionStatus::Recording,
            artifacts: SessionArtifacts {
                audio_file: "".to_owned(),
                transcript_file: "".to_owned(),
                summary_file: "".to_owned(),
                meta_file: "".to_owned(),
            },
        }
    }

    /// A session that starts now.
    pub fn new(
        session_id: String,
        tags: Vec<String>,
        topic: String,
        participants: Vec<String>,
    ) -> (r: SessionMeta)
        ensures
            r@ == SessionModel::starting(
                session_id@,
                texts(tags@),
                topic@,
                texts(participants@),
                r.started_at_iso@,
            ),
            is_written_time(r.started_at_iso@),
    {
        SessionMeta::starting(session_id, tags, topic, participants, now_rfc3339())
    }
}

/// What the index says of where a session is kept.
#[derive(Clone, Copy, Debug, PartialEq, Eq, Structural)]
pub struct FoundSession {
    /// Whether the meta file lies in a directory.
    pub has_directory: bool,
}

/// Where a session is kept, or why that is not known.
pub open spec fn location(found: Result<Option<FoundSession>, String>) -> Result<
    FoundSession,
    Seq<char>,
> {
    match found {
        Err(e) => Err(e@),
        Ok(None) => Err("Session not found"@),
        Ok(Some(f)) => Ok(f),
    }
}

/// Where a session is kept; a session that the index does not know is an error.
pub fn locate(found: Result<Option<FoundSession>, String>) -> (r: Result<FoundSession, String>)
    ensures
        match r {
            Ok(f) => location(found) == Ok::<FoundSession, Seq<char>>(f),
            Err(e) => location(found) == Err::<FoundSession, Seq<char>>(e@),
        },
{
    match found {
        Err(e) => Err(e),
        Ok(None) => Err("Session not found".to_owned()),
        Ok(Some(f)) => Ok(f),
    }
}

/// What is known of a session that the index was asked for, or why nothing is known. The meta
/// file counts only where the session was found.
pub open spec fn opened_meta(
    found: Result<Option<FoundSession>, String>,
    meta: Result<SessionMeta, String>,
) -> Result<SessionModel, Seq<char>> {
    match (location(found), meta) {
        (Err(e), _) => Err(e),
        (Ok(_), Err(e)) => Err(e@),
        (Ok(_), Ok(m)) => Ok(m@),
    }
}

/// As [`opened_meta`], for a session that is to be written as well: its meta file has to lie in
/// a directory.
pub open spec fn opened_for_writing(
    found: Result<Option<FoundSession>, String>,
    meta: Result<SessionMeta, String>,
) -> Result<SessionModel, Seq<char>> {
    match opened_meta(found, meta) {
        Ok(_) if !location(found)->Ok_0.has_directory => Err("Invalid session directory"@),
        other => other,
    }
}

/// Opens a session that the index was asked for.
pub fn open_meta(
    found: Result<Option<FoundSession>, String>,
    meta: Result<SessionMeta, String>,
) -> (r: Result<SessionMeta, String>)
    ensures
        match r {
            Ok(m) => opened_meta(found, meta) == Ok::<SessionModel, Seq<char>>(m@),
            Err(e) => opened_meta(found, meta) == Err::<SessionModel, Seq<char>>(e@),
        },
{
    match locate(found) {
        Err(e) => Err(e),
        Ok(_) => meta,
    }
}

/// Opens a session that is to be written.
pub fn open_for_writing(
    found: Result<Option<FoundSession>, String>,
    meta: Result<SessionMeta, String>,
) -> (r: Result<SessionMeta, String>)
    ensures
        match r {
            Ok(m) => opened_for_writing(found, meta) == Ok::<SessionModel, Seq<char>>(m@),
            Err(e) => opened_for_writing(found, meta) == Err::<SessionModel, Seq<char>>(e@),
        },
{
    match locate(found) {
        Err(e) => Err(e),
        Ok(f) => match meta {
            Err(e) => Err(e),
            Ok(m) => {
                if f.has_directory {
                    Ok(m)
                } else {
                    Err("Invalid session directory".to_owned())
                }
            },
        },
    }
}

/// The point in time that a text names, if it names one.
pub open spec fn instant_of(text: Seq<char>) -> Option<Instant> {
    match rfc3339_instant(text) {
        Ok(i) => Some(i),
        Err(_) => None,
    }
}

impl SessionModel {
    /// The duration of the recording as text.
    pub open spec fn duration(self) -> Seq<char> {
        duration_text(
            instant_of(self.started_at_iso),
            match self.ended_at_iso {
                Some(t) => instant_of(t),
                None => None,
            },
        )
    }
}

fn instant(text: &str) -> (r: Option<Instant>)
    ensures
        r == instant_of(text@),
        r matches Some(i) ==> i.wf(),
{
    match parse_rfc3339(text) {
        Ok(i) => Some(i),
        Err(_) => None,
    }
}

/// The duration of a recording as `HH:MM:SS`; `00:00:00` where its start or its end is not
/// known.
pub fn audio_duration_hms(meta: &SessionMeta) -> (r: String)
    ensures
        r@ == meta@.duration(),
{
    let started = instant(meta.started_at_iso.as_str());
    let ended = match &meta.ended_at_iso {
        Some(t) => instant(t.as_str()),
        None => None,
    };
    duration_hms(started, ended)
}

/// Every status has a word of its own.
pub proof fn every_status_has_its_word(a: SessionStatus, b: SessionStatus)
    ensures
        a.text() == match a {
            SessionStatus::Recording => "recording"@,
            SessionStatus::Recorded => "recorded"@,
            SessionStatus::Transcribed => "transcribed"@,
            SessionStatus::Summarized => "summarized"@,
            SessionStatus::Done => "done"@,
            SessionStatus::Failed => "failed"@,
        },
        a.text() == b.text() ==> a == b,
{
    reveal_strlit("recording");
    reveal_strlit("recorded");
    reveal_strlit("transcribed");
    reveal_strlit("summarized");
    reveal_strlit("done");
    reveal_strlit("failed");
    assert("recording"@.len() == 9);
    assert("recorded"@.len() == 8);
    assert("transcribed"@.len() == 11);
    assert("summarized"@.len() == 10);
    assert("done"@.len() == 4);
    assert("failed"@.len() == 6);
}

/// A session is opened where the index finds it and its meta file can be read, and then with what
/// that file says; for writing, the file has to lie in a directory as well. Otherwise the first
/// thing that went wrong is told: the index, the session that it does not know, the file, and the
/// directory last.
pub proof fn a_session_is_opened_where_it_is_found(
    found: Result<Option<FoundSession>, String>,
    meta: Result<SessionMeta, String>,
)
    ensures
        match (found, meta) {
            (Err(e), _) => {
                &&& opened_meta(found, meta) == Err::<SessionModel, Seq<char>>(e@)
                &&& opened_for_writing(found, meta) == Err::<SessionModel, Seq<char>>(e@)
            },
            (Ok(None), _) => {
                &&& opened_meta(found, meta) == Err::<SessionModel, Seq<char>>(
                    "Session not found"@,
                )
                &&& opened_for_writing(found, meta) == Err::<SessionModel, Seq<char>>(
                    "Session not found"@,
                )
            },
            (Ok(Some(_)), Err(e)) => {
                &&& opened_meta(found, meta) == Err::<SessionModel, Seq<char>>(e@)
                &&& opened_for_writing(found, meta) == Err::<SessionModel, Seq<char>>(e@)
            },
            (Ok(Some(place)), Ok(m)) => {
                &&& opened_meta(found, meta) == Ok::<SessionModel, Seq<char>>(m@)
                &&& opened_for_writing(found, meta) == if place.has_directory {
                    Ok::<SessionModel, Seq<char>>(m@)
                } else {
                    Err::<SessionModel, Seq<char>>("Invalid session directory"@)
                }
            },
        },
{
}

/// The duration of a session goes by the times of its start and its end alone, and is none while
/// either of them is not known.
pub proof fn a_session_lasts_from_its_start_to_its_end(meta: SessionModel)
    ensures
        match (rfc3339_instant(meta.started_at_iso), meta.ended_at_iso) {
            (Ok(from), Some(end)) => match rfc3339_instant(end) {
                Ok(to) => meta.duration() == duration_text(Some(from), Some(to)),
                Err(_) => meta.duration() == "00:00:00"@,
            },
            _ => meta.duration() == "00:00:00"@,
        },
{
}

} // verus!
