//! The course of a pass of the worker: the tasks and the questions, one after the other.
use crate::pipeline::{PipelineInvocation, PipelineMode};
use crate::retry::{RetryPassModel, RetryQuestionModel};
use crate::script::{
    a_script_that_goes_through_reaches_its_goal, after_its_steps_a_script_is_at_its_goal_or_over,
    does, is_cut_short, lemma_cut_short,
    lemma_cut_short_after_a_question, lemma_cut_short_at_the_end, Act, GoalModel, ScriptModel, StepModel,
};
use crate::task::{EventKind, TaskModel};
use crate::text::signed_decimal;
use vstd::prelude::*;

verus! {

/// What happens in the course of a pass.
pub type PassAct = Act<TaskModel, RetryQuestionModel>;

/// A job in the queue.
pub struct QueuedJob {
    pub session_id: Seq<char>,
    pub due_epoch: int,
}

/// What a pass meets with: the jobs in the queue, first come first, or why they cannot be read;
/// what a run comes to for a session; whether there is another attempt for it after an error, of so
/// many at most; and what comes of each task.
pub struct PassWorld {
    pub queue: Result<Seq<QueuedJob>, Seq<char>>,
    pub run: spec_fn(Seq<char>, PipelineInvocation, PipelineMode) -> Result<Seq<char>, Seq<char>>,
    pub attempt: spec_fn(Seq<char>, Seq<char>, i64) -> Result<Option<i64>, Seq<char>>,
    pub task: spec_fn(TaskModel) -> Result<(), Seq<char>>,
}

/// Tells the jobs that are due by a time.
pub open spec fn due_by(now_epoch: int) -> spec_fn(QueuedJob) -> bool {
    |job: QueuedJob| job.due_epoch <= now_epoch
}

/// The sessions of the first `limit` jobs that are due at a time.
pub open spec fn due_at(queue: Seq<QueuedJob>, now_epoch: int, limit: nat) -> Seq<Seq<char>> {
    let due = queue.filter(due_by(now_epoch));
    due.take(
        if due.len() < limit {
            due.len() as int
        } else {
            limit as int
        },
    ).map_values(|job: QueuedJob| job.session_id)
}

impl PassWorld {
    /// The same answers, with every task a success.
    pub open spec fn undisturbed(self) -> PassWorld {
        PassWorld { task: |t: TaskModel| Ok::<(), Seq<char>>(()), ..self }
    }

    /// Whether every task succeeds.
    pub open spec fn tasks_succeed(self) -> bool {
        forall|t: TaskModel| (#[trigger] (self.task)(t)) is Ok
    }
}

/// How far a question is from the next session.
pub open spec fn questions_before_the_next(goal: GoalModel<RetryQuestionModel, ()>) -> nat {
    match goal {
        GoalModel::Ask(RetryQuestionModel::DueJobs { .. }) => 3,
        GoalModel::Ask(RetryQuestionModel::RunPipeline { .. }) => 2,
        GoalModel::Ask(RetryQuestionModel::Retry { .. }) => 1,
        GoalModel::Finish(_) => 0,
    }
}

/// Whether the jobs are yet to be read.
pub open spec fn jobs_to_read(goal: GoalModel<RetryQuestionModel, ()>) -> nat {
    if goal matches GoalModel::Ask(RetryQuestionModel::DueJobs { .. }) {
        1
    } else {
        0
    }
}

impl RetryPassModel {
    /// The pass once the steps ahead are carried out.
    pub open spec fn carried_on(self, world: PassWorld) -> RetryPassModel {
        RetryPassModel { script: self.script.carried_out(world.task), ..self }
    }

    /// The pass once its question, if it has one, is answered.
    pub open spec fn told(self, world: PassWorld) -> RetryPassModel {
        match self.script.goal {
            GoalModel::Ask(RetryQuestionModel::DueJobs { now_epoch, limit }) => self.after_jobs(
                match world.queue {
                    Ok(queue) => Ok(due_at(queue, now_epoch as int, limit as nat)),
                    Err(e) => Err(e),
                },
            ),
            GoalModel::Ask(
                RetryQuestionModel::RunPipeline { session_id, invocation, mode },
            ) => self.after_run(session_id, (world.run)(session_id, invocation, mode)),
            GoalModel::Ask(
                RetryQuestionModel::Retry { session_id, error, max_attempts },
            ) => self.after_retry(
                session_id,
                error,
                (world.attempt)(session_id, error, max_attempts),
            ),
            GoalModel::Finish(_) => self,
        }
    }

    /// All that happens until the end of the pass, in order.
    pub open spec fn course(self, world: PassWorld) -> Seq<PassAct>
        decreases
                jobs_to_read(self.script.goal),
                self.waiting.len(),
                questions_before_the_next(self.script.goal),
    {
        let pass = self.carried_on(world);
        let acts = does::<TaskModel, RetryQuestionModel>(self.script.attempted(world.task));
        match pass.script.goal {
            GoalModel::Finish(_) => acts,
            GoalModel::Ask(question) => {
                proof {
                    after_its_steps_a_script_is_at_its_goal_or_over(self.script, world.task);
                }
                acts + seq![PassAct::Asks(question)] + pass.told(world).course(world)
            },
        }
    }

    /// What the pass comes to.
    pub open spec fn result(self, world: PassWorld) -> Result<(), Seq<char>>
        decreases
                jobs_to_read(self.script.goal),
                self.waiting.len(),
                questions_before_the_next(self.script.goal),
    {
        let pass = self.carried_on(world);
        match pass.script.goal {
            GoalModel::Finish(result) => result,
            GoalModel::Ask(_) => {
                proof {
                    after_its_steps_a_script_is_at_its_goal_or_over(self.script, world.task);
                }
                pass.told(world).result(world)
            },
        }
    }
}

/// Whether every step is required.
spec fn all_required(steps: Seq<StepModel<TaskModel>>) -> bool {
    forall|i: int| 0 <= i < steps.len() ==> (#[trigger] steps[i]).required
}

/// One stage of the course, where every task succeeds.
proof fn lemma_pass_stage(pass: RetryPassModel, world: PassWorld) -> (asked: RetryPassModel)
    requires
        world.tasks_succeed(),
    ensures
        asked == (RetryPassModel {
            script: ScriptModel { steps: Seq::empty(), goal: pass.script.goal },
            ..pass
        }),
        pass.course(world) == does::<TaskModel, RetryQuestionModel>(pass.script.tasks()) + (
        match pass.script.goal {
            GoalModel::Finish(_) => Seq::empty(),
            GoalModel::Ask(question) => seq![PassAct::Asks(question)] + asked.told(world).course(
                world,
            ),
        }),
        pass.result(world) == match pass.script.goal {
            GoalModel::Finish(result) => result,
            GoalModel::Ask(_) => asked.told(world).result(world),
        },
{
    a_script_that_goes_through_reaches_its_goal(pass.script, world.task);
    let asked = RetryPassModel {
        script: ScriptModel { steps: Seq::empty(), goal: pass.script.goal },
        ..pass
    };
    let acts = does::<TaskModel, RetryQuestionModel>(pass.script.tasks());
    match pass.script.goal {
        GoalModel::Finish(_) => {
            assert(acts + Seq::empty() =~= acts);
        },
        GoalModel::Ask(question) => {
            let rest = asked.told(world).course(world);
            assert(acts + seq![PassAct::Asks(question)] + rest =~= acts + (seq![
                PassAct::Asks(question),
            ] + rest));
        },
    }
    asked
}

proof fn lemma_disturbed_pass(pass: RetryPassModel, world: PassWorld)
    requires
        all_required(pass.script.steps),
    ensures
        is_cut_short(
            pass.course(world),
            pass.result(world),
            pass.course(world.undisturbed()),
            pass.result(world.undisturbed()),
            |t: TaskModel| true,
            world.task,
        ),
    decreases
            jobs_to_read(pass.script.goal),
            pass.waiting.len(),
            questions_before_the_next(pass.script.goal),
{
    let needed = |t: TaskModel| true;
    let calm = world.undisturbed();
    let asked = lemma_pass_stage(pass, calm);
    let nothing = Seq::<PassAct>::empty();
    let next = asked.told(world);
    let rest = match pass.script.goal {
        GoalModel::Finish(_) => nothing,
        GoalModel::Ask(question) => seq![PassAct::Asks(question)] + next.course(world),
    };
    let calm_rest = match pass.script.goal {
        GoalModel::Finish(_) => nothing,
        GoalModel::Ask(question) => seq![PassAct::Asks(question)] + next.course(calm),
    };
    let rest_result = match pass.script.goal {
        GoalModel::Finish(r) => r,
        GoalModel::Ask(_) => next.result(world),
    };
    let calm_result = pass.result(calm);
    assert(asked.told(world) == asked.told(calm));
    match pass.script.goal {
        GoalModel::Finish(r) => {
            lemma_cut_short_at_the_end::<TaskModel, RetryQuestionModel, ()>(
                r,
                needed,
                world.task,
            );
        },
        GoalModel::Ask(question) => {
            lemma_disturbed_pass(next, world);
            lemma_cut_short_after_a_question(
                question,
                next.course(world),
                rest_result,
                next.course(calm),
                calm_result,
                needed,
                world.task,
            );
        },
    }
    lemma_cut_short(pass.script, rest, rest_result, calm_rest, calm_result, needed, world.task);
    after_its_steps_a_script_is_at_its_goal_or_over(pass.script, world.task);
    if pass.script.goes_through(world.task) {
        a_script_that_goes_through_reaches_its_goal(pass.script, world.task);
        let acts = does::<TaskModel, RetryQuestionModel>(pass.script.attempted(world.task));
        match pass.script.goal {
            GoalModel::Finish(_) => {
                assert(acts + rest =~= acts);
            },
            GoalModel::Ask(question) => {
                let tail = next.course(world);
                assert(acts + seq![PassAct::Asks(question)] + tail =~= acts + rest);
            },
        }
    }
}

/// A pass goes on until a task fails: that is the last thing to happen, and the pass comes to its
/// error. Up to there, or where no task fails, everything happens as if every task succeeded.
pub proof fn a_pass_ends_at_the_first_task_that_fails(
    now_epoch: i64,
    limit: usize,
    world: PassWorld,
)
    ensures
        ({
            let pass = RetryPassModel::starting(now_epoch, limit);
            is_cut_short(
                pass.course(world),
                pass.result(world),
                pass.course(world.undisturbed()),
                pass.result(world.undisturbed()),
                |t: TaskModel| true,
                world.task,
            )
        }),
{
    lemma_disturbed_pass(RetryPassModel::starting(now_epoch, limit), world);
}

/// A pass asks first for the jobs, with the time and the limit that it was given, and goes on with
/// the sessions of those that are due by then, as many as the limit allows; where the jobs cannot be
/// read it is over.
pub proof fn a_pass_asks_for_the_jobs_that_are_due(now_epoch: i64, limit: usize, world: PassWorld)
    ensures
        ({
            let pass = RetryPassModel::starting(now_epoch, limit);
            let first = seq![PassAct::Asks(RetryQuestionModel::DueJobs { now_epoch, limit })];
            match world.queue {
                Ok(queue) => {
                    let begun = pass.after_jobs(
                        Ok(due_at(queue, now_epoch as int, limit as nat)),
                    );
                    &&& pass.course(world) == first + begun.course(world)
                    &&& pass.result(world) == begun.result(world)
                },
                Err(e) => {
                    &&& pass.course(world) == first
                    &&& pass.result(world) == Err::<(), Seq<char>>(e)
                },
            }
        }),
{
    let pass = RetryPassModel::starting(now_epoch, limit);
    let first = seq![PassAct::Asks(RetryQuestionModel::DueJobs { now_epoch, limit })];
    let nothing = does::<TaskModel, RetryQuestionModel>(Seq::empty());
    assert(nothing =~= Seq::empty());
    let begun = pass.told(world);
    assert(pass.carried_on(world) == pass);
    assert(nothing + first + begun.course(world) =~= first + begun.course(world));
    assert(pass.course(world) == first + begun.course(world));
    assert(pass.result(world) == begun.result(world));
    if let Err(e) = world.queue {
        assert(begun.carried_on(world) == begun);
        assert(begun.course(world) =~= Seq::empty());
        assert(first + Seq::empty() =~= first);
    }
}

/// A pass over no sessions does nothing more. One over sessions has the whole pipeline run for the
/// first, as the worker does: where the run succeeds the job is dropped and that is logged; where it
/// fails, a further attempt is asked for with its error, of four at most, and what comes of that is
/// logged. Then the others have their turn in the same way. Where no further attempt can be
/// arranged, the pass is over.
pub proof fn a_pass_turns_to_one_session_after_the_other(
    now_epoch: i64,
    limit: usize,
    jobs: Seq<Seq<char>>,
    world: PassWorld,
)
    requires
        world.tasks_succeed(),
    ensures
        ({
            let pass = RetryPassModel::starting(now_epoch, limit).after_jobs(Ok(jobs));
            &&& jobs.len() == 0 ==> {
                &&& pass.course(world) == Seq::<PassAct>::empty()
                &&& pass.result(world) == Ok::<(), Seq<char>>(())
            }
            &&& jobs.len() > 0 ==> {
                let id = jobs[0];
                let others = RetryPassModel::starting(now_epoch, limit).after_jobs(
                    Ok(jobs.skip(1)),
                );
                let run = seq![
                    PassAct::Asks(
                        RetryQuestionModel::RunPipeline {
                            session_id: id,
                            invocation: PipelineInvocation::WorkerRetry,
                            mode: PipelineMode::Full,
                        },
                    ),
                ];
                match (world.run)(id, PipelineInvocation::WorkerRetry, PipelineMode::Full) {
                    Ok(_) => {
                        &&& pass.course(world) == run + seq![
                            PassAct::Does(TaskModel::ClearRetryJob { session_id: id }),
                            PassAct::Does(
                                TaskModel::AddEvent {
                                    session_id: id,
                                    kind: EventKind::PipelineRetrySuccess,
                                    detail: "Retry succeeded"@,
                                },
                            ),
                        ] + others.course(world)
                        &&& pass.result(world) == others.result(world)
                    },
                    Err(error) => {
                        let asked = run + seq![
                            PassAct::Asks(
                                RetryQuestionModel::Retry { session_id: id, error, max_attempts: 4 },
                            ),
                        ];
                        match (world.attempt)(id, error, 4) {
                            Ok(Some(n)) => {
                                &&& pass.course(world) == asked + seq![
                                    PassAct::Does(
                                        TaskModel::AddEvent {
                                            session_id: id,
                                            kind: EventKind::PipelineRetryScheduled,
                                            detail: "Attempt "@ + signed_decimal(n as int)
                                                + " scheduled due to: "@ + error,
                                        },
                                    ),
                                ] + others.course(world)
                                &&& pass.result(world) == others.result(world)
                            },
                            Ok(None) => {
                                &&& pass.course(world) == asked + seq![
                                    PassAct::Does(
                                        TaskModel::AddEvent {
                                            session_id: id,
                                            kind: EventKind::PipelineRetryExhausted,
                                            detail: "Retry attempts exhausted"@,
                                        },
                                    ),
                                ] + others.course(world)
                                &&& pass.result(world) == others.result(world)
                            },
                            Err(e) => {
                                &&& pass.course(world) == asked
                                &&& pass.result(world) == Err::<(), Seq<char>>(e)
                            },
                        }
                    },
                }
            }
        }),
{
    let pass = RetryPassModel::starting(now_epoch, limit).after_jobs(Ok(jobs));
    let asked = lemma_pass_stage(pass, world);
    assert(does::<TaskModel, RetryQuestionModel>(pass.script.tasks()) =~= Seq::empty());
    if jobs.len() == 0 {
        assert(pass.course(world) =~= Seq::<PassAct>::empty());
    } else {
        let id = jobs[0];
        assert(jobs.skip(1) =~= jobs.drop_first());
        let others = RetryPassModel::starting(now_epoch, limit).after_jobs(Ok(jobs.skip(1)));
        let run = seq![pass.course(world)[0]];
        let ran = asked.told(world);
        match (world.run)(id, PipelineInvocation::WorkerRetry, PipelineMode::Full) {
            Ok(_) => {
                lemma_behind_the_steps(ran, others, world);
                assert(does::<TaskModel, RetryQuestionModel>(ran.script.tasks()) =~= seq![
                    PassAct::Does(TaskModel::ClearRetryJob { session_id: id }),
                    PassAct::Does(
                        TaskModel::AddEvent {
                            session_id: id,
                            kind: EventKind::PipelineRetrySuccess,
                            detail: "Retry succeeded"@,
                        },
                    ),
                ]);
                assert(pass.course(world) =~= run + does(ran.script.tasks()) + others.course(world));
            },
            Err(error) => {
                let waits = lemma_pass_stage(ran, world);
                assert(does::<TaskModel, RetryQuestionModel>(ran.script.tasks()) =~= Seq::empty());
                let tried = waits.told(world);
                let asking = run + seq![
                    PassAct::Asks(
                        RetryQuestionModel::Retry { session_id: id, error, max_attempts: 4 },
                    ),
                ];
                assert(pass.course(world) =~= asking + tried.course(world));
                match (world.attempt)(id, error, 4) {
                    Ok(attempt) => {
                        lemma_behind_the_steps(tried, others, world);
                        let event = tried.script.steps[0].task;
                        assert(does::<TaskModel, RetryQuestionModel>(tried.script.tasks())
                            =~= seq![PassAct::Does(event)]);
                        assert(pass.course(world) =~= asking + seq![PassAct::Does(event)]
                            + others.course(world));
                    },
                    Err(_) => {
                        let over = lemma_pass_stage(tried, world);
                        assert(tried.course(world) =~= Seq::empty());
                        assert(pass.course(world) =~= asking);
                    },
                }
            },
        }
    }
}

/// A pass with steps ahead goes as the pass without them, behind them.
proof fn lemma_behind_the_steps(pass: RetryPassModel, bare: RetryPassModel, world: PassWorld)
    requires
        world.tasks_succeed(),
        pass.waiting == bare.waiting,
        pass.script.goal == bare.script.goal,
        bare.script.steps.len() == 0,
    ensures
        pass.course(world) == does::<TaskModel, RetryQuestionModel>(pass.script.tasks())
            + bare.course(world),
        pass.result(world) == bare.result(world),
{
    let a = lemma_pass_stage(pass, world);
    let b = lemma_pass_stage(bare, world);
    assert(does::<TaskModel, RetryQuestionModel>(bare.script.tasks()) =~= Seq::empty());
    assert(bare.course(world) =~= match bare.script.goal {
        GoalModel::Finish(_) => Seq::empty(),
        GoalModel::Ask(question) => seq![PassAct::Asks(question)] + b.told(world).course(world),
    });
}

/// The sessions for which the pipeline is run in a course, in order.
pub open spec fn sessions_run(course: Seq<PassAct>) -> Seq<Seq<char>>
    decreases course.len(),
{
    if course.len() == 0 {
        Seq::empty()
    } else {
        match course.first() {
            Act::Asks(RetryQuestionModel::RunPipeline { session_id, .. }) => seq![session_id]
                + sessions_run(course.drop_first()),
            _ => sessions_run(course.drop_first()),
        }
    }
}

proof fn lemma_sessions_run(a: Seq<PassAct>, b: Seq<PassAct>)
    ensures
        sessions_run(a + b) == sessions_run(a) + sessions_run(b),
    decreases a.len(),
{
    if a.len() == 0 {
        assert(a + b =~= b);
        assert(sessions_run(a) + sessions_run(b) =~= sessions_run(b));
    } else {
        assert((a + b).drop_first() =~= a.drop_first() + b);
        lemma_sessions_run(a.drop_first(), b);
        assert(sessions_run(a + b) =~= sessions_run(a) + sessions_run(b));
    }
}

proof fn lemma_sessions_of_the_jobs(
    now_epoch: i64,
    limit: usize,
    jobs: Seq<Seq<char>>,
    world: PassWorld,
)
    requires
        world.tasks_succeed(),
        forall|id: Seq<char>, error: Seq<char>, max: i64|
            (#[trigger] (world.attempt)(id, error, max)) is Ok,
    ensures
        ({
            let pass = RetryPassModel::starting(now_epoch, limit).after_jobs(Ok(jobs));
            &&& sessions_run(pass.course(world)) == jobs
            &&& pass.result(world) is Ok
        }),
    decreases jobs.len(),
{
    a_pass_turns_to_one_session_after_the_other(now_epoch, limit, jobs, world);
    let pass = RetryPassModel::starting(now_epoch, limit).after_jobs(Ok(jobs));
    if jobs.len() == 0 {
        assert(sessions_run(pass.course(world)) =~= jobs);
    } else {
        let others = RetryPassModel::starting(now_epoch, limit).after_jobs(Ok(jobs.skip(1)));
        lemma_sessions_of_the_jobs(now_epoch, limit, jobs.skip(1), world);
        let course = pass.course(world);
        let rest = others.course(world);
        let own = course.take(course.len() - rest.len());
        assert(course =~= own + rest);
        lemma_sessions_run(own, rest);
        reveal_with_fuel(sessions_run, 4);
        assert(sessions_run(own) =~= seq![jobs[0]]);
        assert(jobs =~= seq![jobs[0]] + jobs.skip(1));
    }
}

/// The sessions that a pass sees to are those of the jobs that are due at the time that it was
/// given, first come first, as many as its limit allows, where nothing keeps it from its work.
pub proof fn a_pass_sees_to_the_jobs_that_are_due(
    now_epoch: i64,
    limit: usize,
    queue: Seq<QueuedJob>,
    world: PassWorld,
)
    requires
        world.tasks_succeed(),
        world.queue == Ok::<Seq<QueuedJob>, Seq<char>>(queue),
        forall|id: Seq<char>, error: Seq<char>, max: i64|
            (#[trigger] (world.attempt)(id, error, max)) is Ok,
    ensures
        ({
            let pass = RetryPassModel::starting(now_epoch, limit);
            let due = queue.filter(due_by(now_epoch as int));
            let seen_to = sessions_run(pass.course(world));
            &&& seen_to.len() == if due.len() < limit {
                due.len() as int
            } else {
                limit as int
            }
            &&& forall|i: int|
                0 <= i < seen_to.len() ==> #[trigger] seen_to[i] == due[i].session_id
            &&& pass.result(world) is Ok
        }),
{
    a_pass_asks_for_the_jobs_that_are_due(now_epoch, limit, world);
    let jobs = due_at(queue, now_epoch as int, limit as nat);
    lemma_sessions_of_the_jobs(now_epoch, limit, jobs, world);
    let begun = RetryPassModel::starting(now_epoch, limit).after_jobs(Ok(jobs));
    let first = seq![PassAct::Asks(RetryQuestionModel::DueJobs { now_epoch, limit })];
    lemma_sessions_run(first, begun.course(world));
    reveal_with_fuel(sessions_run, 2);
    assert(first.drop_first() =~= Seq::empty());
    assert(sessions_run(first) =~= Seq::empty());
    assert(sessions_run(first) + jobs =~= jobs);
}

} // verus!
