//! The catalog of recordings: listing sessions, opening their folders and deleting them.
use crate::script::{
    attempt, may, must, outcome_model, require, steps_model, Goal, GoalModel, Script, ScriptModel,
    Step, StepModel,
};
use crate::session::{audio_duration_hms, SessionMeta, SessionModel, SessionStatus};
use crate::task::{Task, TaskModel};
use crate::text::{blank, is_blank, optional_text, trimmed, trimmed_string};
use vstd::prelude::*;

verus! {

/// A session as a list shows it.
#[derive(Debug, PartialEq, Eq)]
pub struct SessionListItem {
    pub session_id: String,
    pub status: String,
    pub session_dir: String,
    pub audio_duration_hms: String,
    pub has_transcript_text: bool,
    pub has_summary_text: bool,
}

/// What a [`SessionListItem`] says.
pub struct ListItemModel {
    pub session_id: Seq<char>,
    pub status: Seq<char>,
    pub session_dir: Seq<char>,
    pub audio_duration_hms: Seq<char>,
    pub has_transcript_text: bool,
    pub has_summary_text: bool,
}

impl View for SessionListItem {
    type V = ListItemModel;

    open spec fn view(&self) -> ListItemModel {
        ListItemModel {
            session_id: self.session_id@,
            status: self.status@,
            session_dir: self.session_dir@,
            audio_duration_hms: self.audio_duration_hms@,
            has_transcript_text: self.has_transcript_text,
            has_summary_text: self.has_summary_text,
        }
    }
}

/// What the directory of a session holds: its meta file, and the texts of the transcript and of the
/// summary where they can be read.
#[derive(Debug)]
pub struct SessionFiles {
    pub meta: SessionMeta,
    pub transcript: Option<String>,
    pub summary: Option<String>,
}

/// What [`SessionFiles`] say.
pub struct FilesModel {
    pub meta: SessionModel,
    pub transcript: Option<Seq<char>>,
    pub summary: Option<Seq<char>>,
}

impl View for SessionFiles {
    type V = FilesModel;

    open spec fn view(&self) -> FilesModel {
        FilesModel {
            meta: self.meta@,
            transcript: optional_text(self.transcript),
            summary: optional_text(self.summary),
        }
    }
}

/// Whether a file can be read and holds more than white space.
pub open spec fn has_text(content: Option<Seq<char>>) -> bool {
    content matches Some(text) && !is_blank(text)
}

/// Whether a file, of which `content` could be read, holds more than white space.
pub fn file_has_non_empty_text(content: &Option<String>) -> (r: bool)
    ensures
        r == has_text(optional_text(*content)),
{
    match content {
        Some(text) => !blank(text.as_str()),
        None => false,
    }
}

/// Whether a session has come so far that its transcript counts.
pub open spec fn may_show_transcript(status: SessionStatus) -> bool {
    !(status is Recording || status is Recorded)
}

/// Whether a session has come so far that its summary counts.
pub open spec fn may_show_summary(status: SessionStatus) -> bool {
    status is Summarized || status is Done
}

impl ListItemModel {
    /// The item with what the files of the session say; without them it stays as it is.
    pub open spec fn annotated(self, files: Option<FilesModel>) -> ListItemModel {
        match files {
            None => self,
            Some(f) => ListItemModel {
                audio_duration_hms: f.meta.duration(),
                has_transcript_text: has_text(f.transcript) && may_show_transcript(f.meta.status),
                has_summary_text: has_text(f.summary) && may_show_summary(f.meta.status),
                ..self
            },
        }
    }
}

/// What the files that were found, or not found, say.
pub open spec fn files_model(files: Option<SessionFiles>) -> Option<FilesModel> {
    match files {
        Some(f) => Some(f@),
        None => None,
    }
}

fn annotate(item: &SessionListItem, files: &Option<SessionFiles>) -> (r: SessionListItem)
    ensures
        r@ == item@.annotated(files_model(*files)),
{
    let session_id = item.session_id.clone();
    let status = item.status.clone();
    let session_dir = item.session_dir.clone();
    match files {
        None => SessionListItem {
            session_id,
            status,
            session_dir,
            audio_duration_hms: item.audio_duration_hms.clone(),
            has_transcript_text: item.has_transcript_text,
            has_summary_text: item.has_summary_text,
        },
        Some(f) => {
            let shows_transcript = match f.meta.status {
                SessionStatus::Recording | SessionStatus::Recorded => false,
                _ => true,
            };
            let shows_summary = match f.meta.status {
                SessionStatus::Summarized | SessionStatus::Done => true,
                _ => false,
            };
            SessionListItem {
                session_id,
                status,
                session_dir,
                audio_duration_hms: audio_duration_hms(&f.meta),
                has_transcript_text: file_has_non_empty_text(&f.transcript) && shows_transcript,
                has_summary_text: file_has_non_empty_text(&f.summary) && shows_summary,
            }
        },
    }
}

/// The list of sessions: what the index knows of each, with what its files say where they can be
/// read. A session whose files cannot be read stays in the list as it is.
pub fn list_sessions(found: &Vec<(SessionListItem, Option<SessionFiles>)>) -> (r: Vec<
    SessionListItem,
>)
    ensures
        r@.len() == found@.len(),
        forall|i: int|
            0 <= i < r@.len() ==> (#[trigger] r@[i])@ == found@[i].0@.annotated(
                files_model(found@[i].1),
            ),
{
    let mut listed: Vec<SessionListItem> = Vec::new();
    for i in 0..found.len()
        invariant
            listed@.len() == i,
            forall|j: int|
                0 <= j < i ==> (#[trigger] listed@[j])@ == found@[j].0@.annotated(
                    files_model(found@[j].1),
                ),
    {
        listed.push(annotate(&found[i].0, &found[i].1));
    }
    listed
}

/// A program to start, and its one argument.
#[derive(Debug, PartialEq, Eq)]
pub struct OpenCommand {
    pub program: String,
    pub argument: String,
}

/// The program that shows a folder on a platform.
pub open spec fn file_manager(platform: Seq<char>) -> Seq<char> {
    if platform == "macos"@ {
        "open"@
    } else if platform == "windows"@ {
        "explorer"@
    } else {
        "xdg-open"@
    }
}

/// How the folder of a session is opened on a platform.
pub fn open_path_in_file_manager(path: &str, platform: &str) -> (r: Result<OpenCommand, String>)
    ensures
        match r {
            Ok(c) => !is_blank(path@) && c.program@ == file_manager(platform@) && c.argument@
                == trimmed(path@),
            Err(e) => is_blank(path@) && e@ == "Session directory is empty"@,
        },
{
    let argument = trimmed_string(path);
    if argument.as_str().is_empty() {
        return Err("Session directory is empty".to_owned());
    }
    let program = if *platform == *"macos" {
        "open"
    } else if *platform == *"windows" {
        "explorer"
    } else {
        "xdg-open"
    };
    Ok(OpenCommand { program: program.to_owned(), argument })
}

/// How a program ended.
#[derive(Debug)]
pub struct ExitReport {
    pub success: bool,
    /// The exit status in words.
    pub status: String,
}

/// What the user is told once the folder of a session was to be opened.
pub fn open_session_folder(outcome: Result<ExitReport, String>) -> (r: Result<String, String>)
    ensures
        match (outcome, r) {
            (Err(e), Err(told)) => told == e,
            (Ok(report), Err(told)) => !report.success && told@
                == "failed to open session folder: exit status "@ + report.status@,
            (Ok(report), Ok(told)) => report.success && told@ == "opened"@,
            (Err(_), Ok(_)) => false,
        },
{
    match outcome {
        Err(e) => Err(e),
        Ok(report) => {
            if report.success {
                Ok("opened".to_owned())
            } else {
                Err(
                    "failed to open session folder: exit status ".to_owned().concat(
                        report.status.as_str(),
                    ),
                )
            }
        },
    }
}

/// What stands where the index says that a session is kept.
#[derive(Clone, Copy, Debug, PartialEq, Eq, Structural)]
pub enum CatalogEntry {
    Nothing,
    Directory,
    File,
}

/// The task that removes what stands in a place, if anything does.
pub open spec fn removal(entry: CatalogEntry) -> Option<TaskModel> {
    match entry {
        CatalogEntry::Nothing => None,
        CatalogEntry::Directory => Some(TaskModel::RemoveDirectory),
        CatalogEntry::File => Some(TaskModel::RemoveFile),
    }
}

/// The task that removes what stands in the place of a session, if anything does.
pub fn remove_session_catalog(entry: CatalogEntry) -> (r: Option<Task>)
    ensures
        removal(entry) == match r {
            Some(t) => Some(t@),
            None => None,
        },
{
    match entry {
        CatalogEntry::Nothing => None,
        CatalogEntry::Directory => Some(Task::RemoveDirectory),
        CatalogEntry::File => Some(Task::RemoveFile),
    }
}

/// What deleting a session has to know to go on.
#[derive(Debug)]
pub enum DeleteQuestion {
    /// Does the index know where the session is kept, and what stands there?
    SessionDir { session_id: String },
    /// Did the index know the session when its entry was deleted?
    DeleteEntry { session_id: String },
}

/// What a [`DeleteQuestion`] says.
pub enum DeleteQuestionModel {
    SessionDir { session_id: Seq<char> },
    DeleteEntry { session_id: Seq<char> },
}

impl View for DeleteQuestion {
    type V = DeleteQuestionModel;

    open spec fn view(&self) -> DeleteQuestionModel {
        match self {
            DeleteQuestion::SessionDir { session_id } => DeleteQuestionModel::SessionDir {
                session_id: session_id@,
            },
            DeleteQuestion::DeleteEntry { session_id } => DeleteQuestionModel::DeleteEntry {
                session_id: session_id@,
            },
        }
    }
}

/// The deletion of a session.
#[derive(Debug)]
pub struct DeleteSession {
    pub session_id: String,
    pub script: Script<Task, DeleteQuestion, String>,
}

/// What a [`DeleteSession`] says.
pub struct DeleteModel {
    pub session_id: Seq<char>,
    pub script: ScriptModel<TaskModel, DeleteQuestionModel, Seq<char>>,
}

impl View for DeleteSession {
    type V = DeleteModel;

    open spec fn view(&self) -> DeleteModel {
        DeleteModel { session_id: self.session_id@, script: self.script@ }
    }
}

/// What came of a question whose answer is a plain value.
pub open spec fn reply_model<T>(reply: Result<T, String>) -> Result<T, Seq<char>> {
    match reply {
        Ok(v) => Ok(v),
        Err(e) => Err(e@),
    }
}

/// The steps that end the active recording without keeping it.
pub open spec fn abandoning() -> Seq<StepModel<TaskModel>> {
    seq![
        must(TaskModel::TakeCapture),
        may(TaskModel::StopCapture),
        must(TaskModel::ForgetActiveSession),
        may(TaskModel::ResetLevels),
        may(TaskModel::ShowRecording(false)),
    ]
}

impl DeleteModel {
    /// The deletion of a session that may be the active one.
    pub open spec fn starting(session_id: Seq<char>, force: bool, active: bool) -> DeleteModel {
        DeleteModel {
            session_id,
            script: if active && !force {
                ScriptModel::finishing(
                    Seq::empty(),
                    Err("Cannot delete active recording session"@),
                )
            } else {
                ScriptModel::asking(
                    if active {
                        abandoning()
                    } else {
                        Seq::empty()
                    },
                    DeleteQuestionModel::SessionDir { session_id },
                )
            },
        }
    }

    /// The deletion that is over.
    pub open spec fn over(self, result: Result<Seq<char>, Seq<char>>) -> DeleteModel {
        DeleteModel { script: ScriptModel::finishing(Seq::empty(), result), ..self }
    }

    /// The deletion once it is known where the session is kept.
    pub open spec fn after_dir(self, found: Result<Option<CatalogEntry>, Seq<char>>) -> DeleteModel {
        match found {
            Err(e) => self.over(Err(e)),
            Ok(None) => self.over(Err("Session not found"@)),
            Ok(Some(entry)) => DeleteModel {
                script: ScriptModel::asking(
                    match removal(entry) {
                        Some(t) => seq![must(t)],
                        None => Seq::empty(),
                    },
                    DeleteQuestionModel::DeleteEntry { session_id: self.session_id },
                ),
                ..self
            },
        }
    }

    /// The deletion once the entry in the index is gone, or was not there.
    pub open spec fn after_entry(self, deleted: Result<bool, Seq<char>>) -> DeleteModel {
        match deleted {
            Err(e) => self.over(Err(e)),
            Ok(false) => self.over(Err("Session not found"@)),
            Ok(true) => self.over(Ok("deleted"@)),
        }
    }

    /// The deletion after its first task came to `outcome`.
    pub open spec fn settled(self, outcome: Result<(), Seq<char>>) -> DeleteModel {
        DeleteModel { script: self.script.settled(outcome), ..self }
    }
}

/// Whether a session is the active one.
pub open spec fn is_active(session_id: Seq<char>, active: Option<SessionMeta>) -> bool {
    active matches Some(m) && m@.session_id == session_id
}

impl DeleteSession {
    /// Begins to delete a session. The active one is deleted by force only.
    pub fn begin(session_id: String, force: Option<bool>, active: &Option<SessionMeta>) -> (r:
        DeleteSession)
        ensures
            r@ == DeleteModel::starting(
                session_id@,
                force == Some(true),
                is_active(session_id@, *active),
            ),
    {
        let forced = match force {
            Some(f) => f,
            None => false,
        };
        let active = match active {
            Some(meta) => *meta.session_id.as_str() == *session_id.as_str(),
            None => false,
        };
        let mut steps: Vec<Step<Task>> = Vec::new();
        let goal = if active && !forced {
            Goal::Finish(Err("Cannot delete active recording session".to_owned()))
        } else {
            if active {
                require(&mut steps, Task::TakeCapture);
                attempt(&mut steps, Task::StopCapture);
                require(&mut steps, Task::ForgetActiveSession);
                attempt(&mut steps, Task::ResetLevels);
                attempt(&mut steps, Task::ShowRecording(false));
            }
            Goal::Ask(DeleteQuestion::SessionDir { session_id: session_id.clone() })
        };
        assert(steps_model(steps@) =~= DeleteModel::starting(
            session_id@,
            forced,
            active,
        ).script.steps);
        DeleteSession { session_id, script: Script { steps, goal } }
    }

    /// Takes note of what came of the first task of the script.
    pub fn settle(&mut self, outcome: Result<(), String>)
        requires
            old(self).script.steps@.len() > 0,
        ensures
            final(self)@ == old(self)@.settled(outcome_model(outcome)),
    {
        self.script.settle(outcome);
    }

    fn end(&mut self, result: Result<String, String>)
        ensures
            final(self)@ == old(self)@.over(
                match result {
                    Ok(t) => Ok(t@),
                    Err(e) => Err(e@),
                },
            ),
    {
        let steps: Vec<Step<Task>> = Vec::new();
        assert(steps_model(steps@) =~= Seq::<StepModel<TaskModel>>::empty());
        self.script = Script { steps, goal: Goal::Finish(result) };
    }

    /// Goes on once it is known where the session is kept.
    pub fn dir_found(&mut self, found: Result<Option<CatalogEntry>, String>)
        requires
            old(self).script.steps@.len() == 0,
            old(self)@.script.goal matches GoalModel::Ask(DeleteQuestionModel::SessionDir { .. }),
        ensures
            final(self)@ == old(self)@.after_dir(reply_model(found)),
    {
        match found {
            Err(e) => {
                self.end(Err(e));
            },
            Ok(None) => {
                self.end(Err("Session not found".to_owned()));
            },
            Ok(Some(entry)) => {
                let mut steps: Vec<Step<Task>> = Vec::new();
                if let Some(task) = remove_session_catalog(entry) {
                    require(&mut steps, task);
                }
                let session_id = self.session_id.clone();
                assert(steps_model(steps@) =~= old(self)@.after_dir(
                    reply_model(found),
                ).script.steps);
                self.script = Script {
                    steps,
                    goal: Goal::Ask(DeleteQuestion::DeleteEntry { session_id }),
                };
            },
        }
    }

    /// Goes on once the entry in the index is gone, or was not there.
    pub fn entry_deleted(&mut self, deleted: Result<bool, String>)
        requires
            old(self).script.steps@.len() == 0,
            old(self)@.script.goal matches GoalModel::Ask(DeleteQuestionModel::DeleteEntry { .. }),
        ensures
            final(self)@ == old(self)@.after_entry(reply_model(deleted)),
    {
        match deleted {
            Err(e) => {
                self.end(Err(e));
            },
            Ok(true) => {
                self.end(Ok("deleted".to_owned()));
            },
            Ok(false) => {
                self.end(Err("Session not found".to_owned()));
            },
        }
    }
}

} // verus!
