//! The course of a deletion: the tasks and the questions, one after the other.
use crate::catalog::{CatalogEntry, DeleteModel, DeleteQuestionModel};
use crate::catalog_laws::{delete_questions_ahead, DeleteWorld};
use crate::script::{
    a_script_that_goes_through_reaches_its_goal, after_its_steps_a_script_is_at_its_goal_or_over,
    does, is_cut_short, lemma_cut_short, lemma_cut_short_after_a_question,
    lemma_cut_short_at_the_end, Act, GoalModel, ScriptModel,
};
use crate::task::TaskModel;
use vstd::prelude::*;

verus! {

/// What happens in the course of a deletion.
pub type DeleteAct = Act<TaskModel, DeleteQuestionModel>;

impl DeleteModel {
    /// All that happens until it is over, in order.
    pub open spec fn course(self, world: DeleteWorld) -> Seq<DeleteAct>
        decreases delete_questions_ahead(self.script.goal),
    {
        let deletion = self.worked_off(world);
        let acts = does::<TaskModel, DeleteQuestionModel>(self.script.attempted(world.task));
        match deletion.script.goal {
            GoalModel::Finish(_) => acts,
            GoalModel::Ask(question) => {
                proof {
                    after_its_steps_a_script_is_at_its_goal_or_over(self.script, world.task);
                }
                acts + seq![DeleteAct::Asks(question)] + deletion.answered(world).course(world)
            },
        }
    }
}

impl DeleteWorld {
    /// The same answers, with every task a success.
    pub open spec fn undisturbed(self) -> DeleteWorld {
        DeleteWorld { task: |t: TaskModel| Ok::<(), Seq<char>>(()), ..self }
    }
}

/// Tells the tasks whose failure ends a deletion: the others only stop and show things.
pub open spec fn needed_by_a_deletion() -> spec_fn(TaskModel) -> bool {
    |t: TaskModel| !(t is StopCapture || t is ResetLevels || t is ShowRecording)
}

/// One stage of the course, where no task that is needed fails.
proof fn lemma_deletion_stage(deletion: DeleteModel, world: DeleteWorld) -> (asked: DeleteModel)
    requires
        forall|t: TaskModel| needed_by_a_deletion()(t) ==> (#[trigger] (world.task)(t)) is Ok,
        forall|i: int|
            0 <= i < deletion.script.steps.len() ==> (#[trigger] deletion.script.steps[i]).required
                == needed_by_a_deletion()(deletion.script.steps[i].task),
    ensures
        asked == (DeleteModel {
            script: ScriptModel { steps: Seq::empty(), goal: deletion.script.goal },
            ..deletion
        }),
        deletion.course(world) == does::<TaskModel, DeleteQuestionModel>(deletion.script.tasks()) + (
        match deletion.script.goal {
            GoalModel::Finish(_) => Seq::empty(),
            GoalModel::Ask(question) => seq![DeleteAct::Asks(question)] + asked.answered(
                world,
            ).course(world),
        }),
        deletion.result(world) == match deletion.script.goal {
            GoalModel::Finish(result) => result,
            GoalModel::Ask(_) => asked.answered(world).result(world),
        },
{
    a_script_that_goes_through_reaches_its_goal(deletion.script, world.task);
    let asked = DeleteModel {
        script: ScriptModel { steps: Seq::empty(), goal: deletion.script.goal },
        ..deletion
    };
    let acts = does::<TaskModel, DeleteQuestionModel>(deletion.script.tasks());
    match deletion.script.goal {
        GoalModel::Finish(_) => {
            assert(acts + Seq::empty() =~= acts);
        },
        GoalModel::Ask(question) => {
            let rest = asked.answered(world).course(world);
            assert(acts + seq![DeleteAct::Asks(question)] + rest =~= acts + (seq![
                DeleteAct::Asks(question),
            ] + rest));
        },
    }
    asked
}

proof fn lemma_disturbed_deletion(deletion: DeleteModel, world: DeleteWorld)
    requires
        forall|i: int|
            0 <= i < deletion.script.steps.len() ==> (#[trigger] deletion.script.steps[i]).required
                == needed_by_a_deletion()(deletion.script.steps[i].task),
    ensures
        is_cut_short(
            deletion.course(world),
            deletion.result(world),
            deletion.course(world.undisturbed()),
            deletion.result(world.undisturbed()),
            needed_by_a_deletion(),
            world.task,
        ),
    decreases delete_questions_ahead(deletion.script.goal),
{
    let calm = world.undisturbed();
    let asked = lemma_deletion_stage(deletion, calm);
    let next = asked.answered(world);
    assert(next == asked.answered(calm));
    let calm_result = deletion.result(calm);
    let nothing = Seq::<DeleteAct>::empty();
    let (rest, rest_result, calm_rest) = match deletion.script.goal {
        GoalModel::Finish(r) => (nothing, r, nothing),
        GoalModel::Ask(question) => (
            seq![DeleteAct::Asks(question)] + next.course(world),
            next.result(world),
            seq![DeleteAct::Asks(question)] + next.course(calm),
        ),
    };
    match deletion.script.goal {
        GoalModel::Finish(r) => {
            lemma_cut_short_at_the_end::<TaskModel, DeleteQuestionModel, Seq<char>>(
                r,
                needed_by_a_deletion(),
                world.task,
            );
        },
        GoalModel::Ask(question) => {
            lemma_disturbed_deletion(next, world);
            lemma_cut_short_after_a_question(
                question,
                next.course(world),
                rest_result,
                next.course(calm),
                calm_result,
                needed_by_a_deletion(),
                world.task,
            );
        },
    }
    lemma_cut_short(
        deletion.script,
        rest,
        rest_result,
        calm_rest,
        calm_result,
        needed_by_a_deletion(),
        world.task,
    );
    after_its_steps_a_script_is_at_its_goal_or_over(deletion.script, world.task);
    if deletion.script.goes_through(world.task) {
        a_script_that_goes_through_reaches_its_goal(deletion.script, world.task);
        let acts = does::<TaskModel, DeleteQuestionModel>(deletion.script.attempted(world.task));
        match deletion.script.goal {
            GoalModel::Finish(_) => {
                assert(acts + rest =~= acts);
            },
            GoalModel::Ask(question) => {
                assert(acts + seq![DeleteAct::Asks(question)] + next.course(world) =~= acts + rest);
            },
        }
    }
}

/// A deletion goes on until a task fails, but for those that stop the capture and show that no
/// recording runs: that task is the last thing to happen, and the deletion comes to its error. Up to
/// there, or where no such task fails, everything happens as if every task succeeded.
pub proof fn a_deletion_ends_at_the_first_task_that_fails(
    session_id: Seq<char>,
    force: bool,
    active: bool,
    world: DeleteWorld,
)
    ensures
        ({
            let deletion = DeleteModel::starting(session_id, force, active);
            is_cut_short(
                deletion.course(world),
                deletion.result(world),
                deletion.course(world.undisturbed()),
                deletion.result(world.undisturbed()),
                |t: TaskModel| !(t is StopCapture || t is ResetLevels || t is ShowRecording),
                world.task,
            )
        }),
{
    lemma_disturbed_deletion(DeleteModel::starting(session_id, force, active), world);
}

/// The active session is not deleted without force: nothing is done or asked. Otherwise a recording
/// of the session that runs is taken over, stopped and forgotten, the index is asked for the
/// place of that session, what stands there is removed, and its entry is deleted. A session that
/// the index does not know, at first or in the end, is not found.
pub proof fn the_course_of_a_deletion(
    session_id: Seq<char>,
    force: bool,
    active: bool,
    world: DeleteWorld,
)
    requires
        forall|t: TaskModel|
            !(t is StopCapture || t is ResetLevels || t is ShowRecording) ==> (#[trigger] (
            world.task)(t)) is Ok,
    ensures
        ({
            let deletion = DeleteModel::starting(session_id, force, active);
            let ended = if active {
                seq![
                    DeleteAct::Does(TaskModel::TakeCapture),
                    DeleteAct::Does(TaskModel::StopCapture),
                    DeleteAct::Does(TaskModel::ForgetActiveSession),
                    DeleteAct::Does(TaskModel::ResetLevels),
                    DeleteAct::Does(TaskModel::ShowRecording(false)),
                ]
            } else {
                Seq::empty()
            };
            let asked = ended + seq![
                DeleteAct::Asks(DeleteQuestionModel::SessionDir { session_id }),
            ];
            if active && !force {
                &&& deletion.course(world) == Seq::<DeleteAct>::empty()
                &&& deletion.result(world) == Err::<Seq<char>, Seq<char>>(
                    "Cannot delete active recording session"@,
                )
            } else {
                match world.dir {
                    Err(e) => {
                        &&& deletion.course(world) == asked
                        &&& deletion.result(world) == Err::<Seq<char>, Seq<char>>(e)
                    },
                    Ok(None) => {
                        &&& deletion.course(world) == asked
                        &&& deletion.result(world) == Err::<Seq<char>, Seq<char>>(
                            "Session not found"@,
                        )
                    },
                    Ok(Some(entry)) => {
                        let removed = match entry {
                            CatalogEntry::Nothing => Seq::empty(),
                            CatalogEntry::Directory => seq![
                                DeleteAct::Does(TaskModel::RemoveDirectory),
                            ],
                            CatalogEntry::File => seq![DeleteAct::Does(TaskModel::RemoveFile)],
                        };
                        &&& deletion.course(world) == asked + removed + seq![
                            DeleteAct::Asks(DeleteQuestionModel::DeleteEntry { session_id }),
                        ]
                        &&& deletion.result(world) == match world.entry {
                            Err(e) => Err::<Seq<char>, Seq<char>>(e),
                            Ok(false) => Err::<Seq<char>, Seq<char>>("Session not found"@),
                            Ok(true) => Ok::<Seq<char>, Seq<char>>("deleted"@),
                        }
                    },
                }
            }
        }),
{
    let deletion = DeleteModel::starting(session_id, force, active);
    let asked = lemma_deletion_stage(deletion, world);
    let ended = does::<TaskModel, DeleteQuestionModel>(deletion.script.tasks());
    if active && !force {
        assert(deletion.course(world) =~= Seq::empty());
    } else {
        if active {
            assert(ended =~= seq![
                DeleteAct::Does(TaskModel::TakeCapture),
                DeleteAct::Does(TaskModel::StopCapture),
                DeleteAct::Does(TaskModel::ForgetActiveSession),
                DeleteAct::Does(TaskModel::ResetLevels),
                DeleteAct::Does(TaskModel::ShowRecording(false)),
            ]);
        } else {
            assert(ended =~= Seq::empty());
        }
        let asking = seq![DeleteAct::Asks(DeleteQuestionModel::SessionDir { session_id })];
        let found = asked.answered(world);
        let waiting = lemma_deletion_stage(found, world);
        if let Ok(Some(entry)) = world.dir {
            let removed = does::<TaskModel, DeleteQuestionModel>(found.script.tasks());
            assert(removed =~= match entry {
                CatalogEntry::Nothing => Seq::empty(),
                CatalogEntry::Directory => seq![DeleteAct::Does(TaskModel::RemoveDirectory)],
                CatalogEntry::File => seq![DeleteAct::Does(TaskModel::RemoveFile)],
            });
            let over = waiting.answered(world);
            let end = lemma_deletion_stage(over, world);
            assert(over.course(world) =~= Seq::empty());
            assert(deletion.course(world) =~= ended + asking + removed + seq![
                DeleteAct::Asks(DeleteQuestionModel::DeleteEntry { session_id }),
            ]);
        } else {
            assert(found.course(world) =~= Seq::empty());
            assert(deletion.course(world) =~= ended + asking);
        }
    }
}

} // verus!
