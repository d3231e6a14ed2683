//! What holds of the list of sessions, and of the deletion of a session as a whole.
use crate::catalog::{
    abandoning, file_manager, has_text, is_active, removal, CatalogEntry, DeleteModel, DeleteQuestionModel, FilesModel,
    ListItemModel,
};
use crate::script::{
    a_good_goal_is_reached_by_all_the_steps, a_script_that_goes_through_reaches_its_goal,
    after_its_steps_a_script_is_at_its_goal_or_over, GoalModel, ScriptModel,
};
use crate::session::{SessionMeta, SessionModel, SessionStatus};
use crate::task::TaskModel;
use crate::text::{blank_is_all_white_space, is_blank};
use vstd::prelude::*;

verus! {

/// What the deletion of a session meets with.
pub struct DeleteWorld {
    pub dir: Result<Option<CatalogEntry>, Seq<char>>,
    pub entry: Result<bool, Seq<char>>,
    pub task: spec_fn(TaskModel) -> Result<(), Seq<char>>,
}

/// How many questions of a deletion may still come.
pub open spec fn delete_questions_ahead(goal: GoalModel<DeleteQuestionModel, Seq<char>>) -> nat {
    match goal {
        GoalModel::Ask(DeleteQuestionModel::SessionDir { .. }) => 2,
        GoalModel::Ask(DeleteQuestionModel::DeleteEntry { .. }) => 1,
        GoalModel::Finish(_) => 0,
    }
}

impl DeleteModel {
    /// The deletion once its question, if it has one, is answered.
    pub open spec fn answered(self, world: DeleteWorld) -> DeleteModel {
        match self.script.goal {
            GoalModel::Ask(DeleteQuestionModel::SessionDir { .. }) => self.after_dir(world.dir),
            GoalModel::Ask(DeleteQuestionModel::DeleteEntry { .. }) => self.after_entry(
                world.entry,
            ),
            GoalModel::Finish(_) => self,
        }
    }

    /// The deletion once the steps ahead are carried out.
    pub open spec fn worked_off(self, world: DeleteWorld) -> DeleteModel {
        DeleteModel { script: self.script.carried_out(world.task), ..self }
    }

    /// The deletion at its end.
    pub open spec fn at_end(self, world: DeleteWorld) -> DeleteModel
        decreases delete_questions_ahead(self.script.goal),
    {
        let deletion = self.worked_off(world);
        if deletion.script.goal is Finish {
            deletion
        } else {
            proof {
                after_its_steps_a_script_is_at_its_goal_or_over(self.script, world.task);
            }
            deletion.answered(world).at_end(world)
        }
    }

    /// The tasks that are carried out until the end, in order.
    pub open spec fn performed(self, world: DeleteWorld) -> Seq<TaskModel>
        decreases delete_questions_ahead(self.script.goal),
    {
        let deletion = self.worked_off(world);
        let tasks = self.script.attempted(world.task);
        if deletion.script.goal is Finish {
            tasks
        } else {
            proof {
                after_its_steps_a_script_is_at_its_goal_or_over(self.script, world.task);
            }
            tasks + deletion.answered(world).performed(world)
        }
    }

    /// What the deletion comes to.
    pub open spec fn result(self, world: DeleteWorld) -> Result<Seq<char>, Seq<char>> {
        self.at_end(world).script.goal->Finish_0
    }
}

proof fn lemma_stage(deletion: DeleteModel, world: DeleteWorld)
    ensures
        deletion.script.goes_through(world.task) ==> {
            let done = DeleteModel {
                script: ScriptModel { steps: Seq::empty(), goal: deletion.script.goal },
                ..deletion
            };
            let tasks = deletion.script.tasks();
            if deletion.script.goal is Finish {
                &&& deletion.performed(world) == tasks
                &&& deletion.at_end(world) == done
            } else {
                &&& deletion.performed(world) == tasks + done.answered(world).performed(world)
                &&& deletion.at_end(world) == done.answered(world).at_end(world)
            }
        },
        !deletion.script.goes_through(world.task) ==> deletion.at_end(world).script.goal matches
            GoalModel::Finish(Err(_)),
{
    after_its_steps_a_script_is_at_its_goal_or_over(deletion.script, world.task);
    if deletion.script.goes_through(world.task) {
        a_script_that_goes_through_reaches_its_goal(deletion.script, world.task);
    } else if !(deletion.script.carried_out(world.task).goal matches GoalModel::Finish(Err(_))) {
        a_good_goal_is_reached_by_all_the_steps(deletion.script, world.task);
    }
}

/// The active session is not deleted without force: nothing is done to it.
pub proof fn the_active_session_is_kept_without_force(session_id: Seq<char>, world: DeleteWorld)
    ensures
        ({
            let deletion = DeleteModel::starting(session_id, false, true);
            &&& deletion.result(world) == Err::<Seq<char>, Seq<char>>(
                "Cannot delete active recording session"@,
            )
            &&& deletion.performed(world) == Seq::<TaskModel>::empty()
        }),
{
    let deletion = DeleteModel::starting(session_id, false, true);
    lemma_stage(deletion, world);
    assert(deletion.script.tasks() =~= Seq::<TaskModel>::empty());
}

/// What the deletion of a session does: an active recording is ended and forgotten first, then what
/// is kept of the session is removed.
pub open spec fn deletion_tasks(active: bool, entry: CatalogEntry) -> Seq<TaskModel> {
    let first = if active {
        seq![
            TaskModel::TakeCapture,
            TaskModel::StopCapture,
            TaskModel::ForgetActiveSession,
            TaskModel::ResetLevels,
            TaskModel::ShowRecording(false),
        ]
    } else {
        Seq::empty()
    };
    match removal(entry) {
        Some(t) => first.push(t),
        None => first,
    }
}

/// A session is deleted exactly where it may be, the index knows it, and what is kept of it can be
/// removed. Its entry goes last, and a recording that was active is forgotten before anything is
/// removed.
pub proof fn a_session_is_deleted_with_all_that_is_kept_of_it(
    session_id: Seq<char>,
    force: bool,
    active: bool,
    world: DeleteWorld,
)
    ensures
        ({
            let deletion = DeleteModel::starting(session_id, force, active);
            &&& deletion.result(world) is Ok <==> {
                &&& active ==> {
                    &&& force
                    &&& (world.task)(TaskModel::TakeCapture) is Ok
                    &&& (world.task)(TaskModel::ForgetActiveSession) is Ok
                }
                &&& world.dir matches Ok(Some(entry))
                &&& removal(entry) matches Some(t) ==> (world.task)(t) is Ok
                &&& world.entry == Ok::<bool, Seq<char>>(true)
            }
            &&& deletion.result(world) is Ok ==> {
                &&& deletion.result(world)->Ok_0 == "deleted"@
                &&& deletion.performed(world) == deletion_tasks(active, world.dir->Ok_0->Some_0)
            }
        }),
{
    let deletion = DeleteModel::starting(session_id, force, active);
    lemma_stage(deletion, world);
    if active && !force {
        assert(deletion.script.goes_through(world.task));
    } else {
        let first = deletion.script.tasks();
        if active {
            assert(deletion.script.steps == abandoning());
            assert(abandoning()[0].required && abandoning()[0].task == TaskModel::TakeCapture);
            assert(abandoning()[2].required && abandoning()[2].task
                == TaskModel::ForgetActiveSession);
            if (world.task)(TaskModel::TakeCapture) is Ok && (world.task)(
                TaskModel::ForgetActiveSession,
            ) is Ok {
                assert(deletion.script.goes_through(world.task));
            }
            assert(first =~= seq![
                TaskModel::TakeCapture,
                TaskModel::StopCapture,
                TaskModel::ForgetActiveSession,
                TaskModel::ResetLevels,
                TaskModel::ShowRecording(false),
            ]);
        } else {
            assert(deletion.script.goes_through(world.task));
            assert(first =~= Seq::<TaskModel>::empty());
        }
        if deletion.script.goes_through(world.task) {
            let asked = DeleteModel {
                script: ScriptModel { steps: Seq::empty(), goal: deletion.script.goal },
                ..deletion
            };
            let next = asked.answered(world);
            lemma_from_dir(asked, world);
            if let Ok(Some(entry)) = world.dir {
                if removal(entry) is Some {
                    assert(first + seq![removal(entry)->Some_0] =~= first.push(
                        removal(entry)->Some_0,
                    ));
                } else {
                    assert(first + Seq::<TaskModel>::empty() =~= first);
                }
            }
        }
    }
}

/// A deletion from the directory of the session on.
proof fn lemma_from_dir(asked: DeleteModel, world: DeleteWorld)
    requires
        asked.script.steps.len() == 0,
        asked.script.goal matches GoalModel::Ask(DeleteQuestionModel::SessionDir { .. }),
    ensures
        ({
            let next = asked.answered(world);
            &&& next.result(world) is Ok <==> {
                &&& world.dir matches Ok(Some(entry))
                &&& removal(entry) matches Some(t) ==> (world.task)(t) is Ok
                &&& world.entry == Ok::<bool, Seq<char>>(true)
            }
            &&& next.result(world) is Ok ==> {
                &&& next.result(world)->Ok_0 == "deleted"@
                &&& next.performed(world) == match removal(world.dir->Ok_0->Some_0) {
                    Some(t) => seq![t],
                    None => Seq::empty(),
                }
            }
        }),
{
    let next = asked.answered(world);
    lemma_stage(next, world);
    if let Ok(Some(entry)) = world.dir {
        if removal(entry) is Some {
            assert(next.script.steps[0].required && next.script.steps[0].task
                == removal(entry)->Some_0);
            assert(next.script.tasks() =~= seq![removal(entry)->Some_0]);
            if (world.task)(removal(entry)->Some_0) is Ok {
                assert(next.script.goes_through(world.task));
            }
        } else {
            assert(next.script.goes_through(world.task));
            assert(next.script.tasks() =~= Seq::<TaskModel>::empty());
        }
        if next.script.goes_through(world.task) {
            let waiting = DeleteModel {
                script: ScriptModel { steps: Seq::empty(), goal: next.script.goal },
                ..next
            };
            let last = waiting.answered(world);
            lemma_stage(last, world);
            assert(last.script.goes_through(world.task));
            assert(last.script.tasks() =~= Seq::<TaskModel>::empty());
            assert(next.script.tasks() + last.performed(world) =~= next.script.tasks());
        }
    } else {
        assert(next.script.goes_through(world.task));
    }
}

/// The empty files that a recording starts with never count as a transcript or a summary.
pub proof fn empty_files_are_not_shown_as_texts(item: ListItemModel, meta: SessionModel)
    ensures
        ({
            let listed = item.annotated(
                Some(FilesModel { meta, transcript: Some(""@), summary: Some(""@) }),
            );
            !listed.has_transcript_text && !listed.has_summary_text
        }),
{
    reveal_strlit("");
    blank_is_all_white_space(""@);
}

/// Where the transcript holds text, a session that shows its summary shows its transcript too.
pub proof fn a_shown_summary_comes_with_the_transcript(item: ListItemModel, files: FilesModel)
    requires
        has_text(files.transcript),
    ensures
        ({
            let listed = item.annotated(Some(files));
            listed.has_summary_text ==> listed.has_transcript_text
        }),
{
}

/// Listing a session changes neither which session it is nor where it is kept.
pub proof fn a_listed_session_stays_the_same(item: ListItemModel, files: Option<FilesModel>)
    ensures
        item.annotated(files).session_id == item.session_id,
        item.annotated(files).session_dir == item.session_dir,
        item.annotated(files).status == item.status,
{
}

/// A session whose files can be read is listed with the duration of its recording, and with a
/// transcript or a summary where that file holds more than white space and the session has come so
/// far: past its recording for the transcript, and to its summary for that. One whose files
/// cannot be read is listed as the index has it.
pub proof fn a_session_is_listed_with_what_its_files_say(item: ListItemModel, files: FilesModel)
    ensures
        ({
            let listed = item.annotated(Some(files));
            &&& listed.audio_duration_hms == files.meta.duration()
            &&& listed.has_transcript_text <==> {
                &&& files.transcript is Some
                &&& !is_blank(files.transcript->0)
                &&& files.meta.status != SessionStatus::Recording
                &&& files.meta.status != SessionStatus::Recorded
            }
            &&& listed.has_summary_text <==> {
                &&& files.summary is Some
                &&& !is_blank(files.summary->0)
                &&& (files.meta.status == SessionStatus::Summarized || files.meta.status
                    == SessionStatus::Done)
            }
        }),
        item.annotated(None) == item,
{
}

/// A session is the active one where there is an active one and it has the identifier.
pub proof fn a_session_is_active_by_its_identifier(
    session_id: Seq<char>,
    active: Option<SessionMeta>,
)
    ensures
        active is None ==> !is_active(session_id, active),
        active matches Some(meta) ==> (is_active(session_id, active) <==> meta.session_id@
            == session_id),
{
}

/// A folder is shown by the program of its platform.
pub proof fn every_platform_has_its_file_manager(platform: Seq<char>)
    ensures
        platform == "macos"@ ==> file_manager(platform) == "open"@,
        platform == "windows"@ ==> file_manager(platform) == "explorer"@,
        platform != "macos"@ && platform != "windows"@ ==> file_manager(platform) == "xdg-open"@,
{
    reveal_strlit("macos");
    reveal_strlit("windows");
    assert("macos"@.len() == 5);
    assert("windows"@.len() == 7);
}

} // verus!
