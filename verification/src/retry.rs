//! The worker that runs the pipeline again for sessions whose run has failed.
use crate::pipeline::{
    answer_model, attempt_model, retry_event, schedule_retry_for_session, PipelineCaller,
    PipelineInvocation, PipelineMode, MAX_PIPELINE_RETRY_ATTEMPTS, RETRY_JOBS_PER_PASS,
    RETRY_WORKER_POLL_SECONDS,
};
use crate::script::{
    a_script_that_goes_through_reaches_its_goal, must, outcome_model, require, steps_model,
    Goal, GoalModel, Script, ScriptModel, Step, StepModel,
};
use crate::task::{EventKind, Task, TaskModel};
use crate::text::texts;
use vstd::prelude::*;

verus! {

/// The number of the attempt that follows `attempts` earlier ones, while `max` allows it.
pub open spec fn following_attempt(attempts: int, max: int) -> Option<int> {
    if attempts < max {
        Some(attempts + 1)
    } else {
        None
    }
}

/// The number of the next attempt for a session that has a job with so many attempts, or has none;
/// nothing where there were enough of them, and the job is dropped.
pub fn next_retry_attempt(job: Option<i64>, max: i64) -> (r: Option<i64>)
    ensures
        match r {
            Some(n) => following_attempt(
                match job {
                    Some(k) => k as int,
                    None => 0,
                },
                max as int,
            ) == Some(n as int),
            None => following_attempt(
                match job {
                    Some(k) => k as int,
                    None => 0,
                },
                max as int,
            ) is None,
        },
{
    let attempts: i64 = match job {
        Some(n) => n,
        None => 0,
    };
    if attempts < max {
        Some(attempts + 1)
    } else {
        None
    }
}

/// The attempts of a session after `failures` failures in a row, or none once it is given up.
pub open spec fn attempts_after(failures: nat, max: int) -> Option<int>
    decreases failures,
{
    if failures == 0 {
        Some(0)
    } else {
        match attempts_after((failures - 1) as nat, max) {
            Some(n) => following_attempt(n, max),
            None => None,
        }
    }
}

/// A session is tried again after each of the first `max` failures, with the number of the failure
/// as the number of the attempt, and is given up after the next one.
pub proof fn a_session_is_given_up_after_max_attempts(failures: nat, max: nat)
    ensures
        failures <= max ==> attempts_after(failures, max as int) == Some(failures as int),
        failures > max ==> attempts_after(failures, max as int) is None,
    decreases failures,
{
    if failures > 0 {
        a_session_is_given_up_after_max_attempts((failures - 1) as nat, max);
    }
}

/// What a pass through the jobs that are due has to know to go on.
#[derive(Debug)]
pub enum RetryQuestion {
    /// Which sessions have a job that is due, at most `limit` of them?
    DueJobs { now_epoch: i64, limit: usize },
    /// What does the pipeline come to for the session?
    RunPipeline { session_id: String, invocation: PipelineInvocation, mode: PipelineMode },
    /// Is there another attempt for the session, of so many at most, and which one?
    Retry { session_id: String, error: String, max_attempts: i64 },
}

/// What a [`RetryQuestion`] says.
pub enum RetryQuestionModel {
    DueJobs { now_epoch: i64, limit: usize },
    RunPipeline { session_id: Seq<char>, invocation: PipelineInvocation, mode: PipelineMode },
    Retry { session_id: Seq<char>, error: Seq<char>, max_attempts: i64 },
}

impl View for RetryQuestion {
    type V = RetryQuestionModel;

    open spec fn view(&self) -> RetryQuestionModel {
        match self {
            RetryQuestion::DueJobs { now_epoch, limit } => RetryQuestionModel::DueJobs {
                now_epoch: *now_epoch,
                limit: *limit,
            },
            RetryQuestion::RunPipeline {
                session_id,
                invocation,
                mode,
            } => RetryQuestionModel::RunPipeline {
                session_id: session_id@,
                invocation: *invocation,
                mode: *mode,
            },
            RetryQuestion::Retry { session_id, error, max_attempts } => RetryQuestionModel::Retry {
                session_id: session_id@,
                error: error@,
                max_attempts: *max_attempts,
            },
        }
    }
}

/// A pass through the jobs that are due.
#[derive(Debug)]
pub struct RetryPass {
    /// The sessions that come after the one in hand, in order.
    pub waiting: Vec<String>,
    pub script: Script<Task, RetryQuestion, ()>,
}

/// What a [`RetryPass`] says.
pub struct RetryPassModel {
    pub waiting: Seq<Seq<char>>,
    pub script: ScriptModel<TaskModel, RetryQuestionModel, ()>,
}

impl View for RetryPass {
    type V = RetryPassModel;

    open spec fn view(&self) -> RetryPassModel {
        RetryPassModel { waiting: texts(self.waiting@), script: self.script@ }
    }
}

/// What came of asking for the jobs that are due.
pub open spec fn jobs_model(jobs: Result<Vec<String>, String>) -> Result<
    Seq<Seq<char>>,
    Seq<char>,
> {
    match jobs {
        Ok(v) => Ok(texts(v@)),
        Err(e) => Err(e@),
    }
}

impl RetryPassModel {
    /// A pass at its start.
    pub open spec fn starting(now_epoch: i64, limit: usize) -> RetryPassModel {
        RetryPassModel {
            waiting: Seq::empty(),
            script: ScriptModel::asking(
                Seq::empty(),
                RetryQuestionModel::DueJobs { now_epoch, limit },
            ),
        }
    }

    /// A pass that is over with an error.
    pub open spec fn over(self, error: Seq<char>) -> RetryPassModel {
        RetryPassModel { script: ScriptModel::finishing(Seq::empty(), Err(error)), ..self }
    }

    /// The pass that turns, after `steps`, to the first of `jobs`, or is over where there is none.
    pub open spec fn turning_to(
        steps: Seq<StepModel<TaskModel>>,
        jobs: Seq<Seq<char>>,
    ) -> RetryPassModel {
        if jobs.len() == 0 {
            RetryPassModel { waiting: Seq::empty(), script: ScriptModel::finishing(steps, Ok(())) }
        } else {
            RetryPassModel {
                waiting: jobs.drop_first(),
                script: ScriptModel::asking(
                    steps,
                    RetryQuestionModel::RunPipeline {
                        session_id: jobs.first(),
                        invocation: PipelineCaller::Worker.asks_for().0,
                        mode: PipelineCaller::Worker.asks_for().1,
                    },
                ),
            }
        }
    }

    /// The pass once the jobs are known.
    pub open spec fn after_jobs(self, jobs: Result<Seq<Seq<char>>, Seq<char>>) -> RetryPassModel {
        match jobs {
            Err(e) => self.over(e),
            Ok(jobs) => Self::turning_to(Seq::empty(), jobs),
        }
    }

    /// The pass once the pipeline has run for a session.
    pub open spec fn after_run(
        self,
        session_id: Seq<char>,
        result: Result<Seq<char>, Seq<char>>,
    ) -> RetryPassModel {
        match result {
            Ok(_) => Self::turning_to(retry_succeeded(session_id), self.waiting),
            Err(error) => RetryPassModel {
                script: ScriptModel::asking(
                    Seq::empty(),
                    RetryQuestionModel::Retry {
                        session_id,
                        error,
                        max_attempts: MAX_PIPELINE_RETRY_ATTEMPTS,
                    },
                ),
                ..self
            },
        }
    }

    /// The pass once it is known whether there is another attempt for a session.
    pub open spec fn after_retry(
        self,
        session_id: Seq<char>,
        error: Seq<char>,
        attempt: Result<Option<i64>, Seq<char>>,
    ) -> RetryPassModel {
        match attempt {
            Err(e) => self.over(e),
            Ok(a) => Self::turning_to(
                seq![must(retry_event(session_id, error, a))],
                self.waiting,
            ),
        }
    }

    /// The pass after its first task came to `outcome`.
    pub open spec fn settled(self, outcome: Result<(), Seq<char>>) -> RetryPassModel {
        RetryPassModel { script: self.script.settled(outcome), ..self }
    }
}

/// The steps for a session whose run succeeded: its job is dropped, and that is logged.
pub open spec fn retry_succeeded(session_id: Seq<char>) -> Seq<StepModel<TaskModel>> {
    seq![
        must(TaskModel::ClearRetryJob { session_id }),
        must(
            TaskModel::AddEvent {
                session_id,
                kind: EventKind::PipelineRetrySuccess,
                detail: "Retry succeeded"@,
            },
        ),
    ]
}

impl RetryPass {
    /// Begins a pass through the jobs that are due.
    pub fn new(now_epoch: i64, limit: usize) -> (r: RetryPass)
        ensures
            r@ == RetryPassModel::starting(now_epoch, limit),
    {
        let steps: Vec<Step<Task>> = Vec::new();
        assert(steps_model(steps@) =~= Seq::<StepModel<TaskModel>>::empty());
        let waiting: Vec<String> = Vec::new();
        assert(texts(waiting@) =~= Seq::<Seq<char>>::empty());
        RetryPass {
            waiting,
            script: Script { steps, goal: Goal::Ask(RetryQuestion::DueJobs { now_epoch, limit }) },
        }
    }

    fn turn_to(steps: Vec<Step<Task>>, jobs: Vec<String>) -> (r: RetryPass)
        ensures
            r@ == RetryPassModel::turning_to(steps_model(steps@), texts(jobs@)),
    {
        let mut waiting = jobs;
        if waiting.len() == 0 {
            assert(texts(waiting@) =~= Seq::<Seq<char>>::empty());
            RetryPass { waiting, script: Script { steps, goal: Goal::Finish(Ok(())) } }
        } else {
            let session_id = waiting.remove(0);
            let (invocation, mode) = PipelineCaller::Worker.request();
            assert(texts(waiting@) =~= texts(jobs@).drop_first());
            RetryPass {
                waiting,
                script: Script {
                    steps,
                    goal: Goal::Ask(RetryQuestion::RunPipeline { session_id, invocation, mode }),
                },
            }
        }
    }

    fn take_waiting(&mut self) -> (r: Vec<String>)
        ensures
            r@ == old(self).waiting@,
    {
        let mut jobs: Vec<String> = Vec::new();
        jobs.append(&mut self.waiting);
        assert(jobs@ =~= old(self).waiting@);
        jobs
    }

    /// Takes note of what came of the first task of the script.
    pub fn settle(&mut self, outcome: Result<(), String>)
        requires
            old(self).script.steps@.len() > 0,
        ensures
            final(self)@ == old(self)@.settled(outcome_model(outcome)),
    {
        self.script.settle(outcome);
    }

    /// Goes on with the sessions whose job is due.
    pub fn jobs_fetched(&mut self, jobs: Result<Vec<String>, String>)
        requires
            old(self).script.steps@.len() == 0,
            old(self)@.script.goal matches GoalModel::Ask(RetryQuestionModel::DueJobs { .. }),
        ensures
            final(self)@ == old(self)@.after_jobs(jobs_model(jobs)),
    {
        let steps: Vec<Step<Task>> = Vec::new();
        assert(steps_model(steps@) =~= Seq::<StepModel<TaskModel>>::empty());
        match jobs {
            Err(e) => {
                self.script = Script { steps, goal: Goal::Finish(Err(e)) };
            },
            Ok(jobs) => {
                *self = RetryPass::turn_to(steps, jobs);
            },
        }
    }

    /// Goes on with what the pipeline came to for the session in hand.
    pub fn run_finished(&mut self, result: Result<String, String>)
        requires
            old(self).script.steps@.len() == 0,
            old(self)@.script.goal matches GoalModel::Ask(RetryQuestionModel::RunPipeline { .. }),
        ensures
            final(self)@ == old(self)@.after_run(
                old(self)@.script.goal->Ask_0->RunPipeline_session_id,
                answer_model(result),
            ),
    {
        let mut steps: Vec<Step<Task>> = Vec::new();
        assert(steps_model(steps@) =~= Seq::<StepModel<TaskModel>>::empty());
        let session_id = match &self.script.goal {
            Goal::Ask(RetryQuestion::RunPipeline { session_id, .. }) => session_id.clone(),
            _ => "".to_owned(),
        };
        match result {
            Ok(_) => {
                let ghost id = session_id@;
                require(&mut steps, Task::ClearRetryJob { session_id: session_id.clone() });
                require(
                    &mut steps,
                    Task::AddEvent {
                        session_id,
                        kind: EventKind::PipelineRetrySuccess,
                        detail: "Retry succeeded".to_owned(),
                    },
                );
                assert(steps_model(steps@) =~= retry_succeeded(id));
                let waiting = self.take_waiting();
                *self = RetryPass::turn_to(steps, waiting);
            },
            Err(error) => {
                self.script = Script {
                    steps,
                    goal: Goal::Ask(
                        RetryQuestion::Retry {
                            session_id,
                            error,
                            max_attempts: MAX_PIPELINE_RETRY_ATTEMPTS,
                        },
                    ),
                };
            },
        }
    }

    /// Goes on once it is known whether there is another attempt for the session in hand.
    pub fn retry_answered(&mut self, attempt: Result<Option<i64>, String>)
        requires
            old(self).script.steps@.len() == 0,
            old(self)@.script.goal matches GoalModel::Ask(RetryQuestionModel::Retry { .. }),
        ensures
            final(self)@ == old(self)@.after_retry(
                old(self)@.script.goal->Ask_0->Retry_session_id,
                old(self)@.script.goal->Ask_0->Retry_error,
                attempt_model(attempt),
            ),
    {
        let mut steps: Vec<Step<Task>> = Vec::new();
        assert(steps_model(steps@) =~= Seq::<StepModel<TaskModel>>::empty());
        match attempt {
            Err(e) => {
                self.script = Script { steps, goal: Goal::Finish(Err(e)) };
            },
            Ok(a) => {
                if let Goal::Ask(RetryQuestion::Retry { session_id, error, .. }) = &self.script.goal {
                    require(
                        &mut steps,
                        schedule_retry_for_session(session_id.as_str(), error.as_str(), a),
                    );
                }
                assert(steps_model(steps@) =~= seq![
                    must(
                        retry_event(
                            old(self)@.script.goal->Ask_0->Retry_session_id,
                            old(self)@.script.goal->Ask_0->Retry_error,
                            a,
                        ),
                    ),
                ]);
                let waiting = self.take_waiting();
                *self = RetryPass::turn_to(steps, waiting);
            },
        }
    }
}

/// What a pass meets with: what the pipeline comes to for each session, and whether there is
/// another attempt for a session after an error.
pub struct RetryWorld {
    pub run: spec_fn(Seq<char>, PipelineInvocation, PipelineMode) -> Result<Seq<char>, Seq<char>>,
    pub attempt: spec_fn(Seq<char>, Seq<char>) -> Option<i64>,
    pub task: spec_fn(TaskModel) -> Result<(), Seq<char>>,
}

impl RetryWorld {
    /// What the run of the worker comes to for a session: the whole pipeline, and one that is not
    /// tried again by itself.
    pub open spec fn worker_run(self, session_id: Seq<char>) -> Result<Seq<char>, Seq<char>> {
        (self.run)(session_id, PipelineInvocation::WorkerRetry, PipelineMode::Full)
    }
}

impl RetryPassModel {
    /// The pass once its question is answered.
    pub open spec fn answered(self, world: RetryWorld) -> RetryPassModel {
        match self.script.goal {
            GoalModel::Ask(
                RetryQuestionModel::RunPipeline { session_id, invocation, mode },
            ) => self.after_run(session_id, (world.run)(session_id, invocation, mode)),
            GoalModel::Ask(RetryQuestionModel::Retry { session_id, error, .. }) => self.after_retry(
                session_id,
                error,
                Ok((world.attempt)(session_id, error)),
            ),
            _ => self,
        }
    }

    /// The pass once the steps ahead are carried out.
    pub open spec fn worked_off(self, world: RetryWorld) -> RetryPassModel {
        RetryPassModel { script: self.script.carried_out(world.task), ..self }
    }

    /// The tasks that are carried out in the next `rounds` rounds of steps and answers, and the
    /// pass after them.
    pub open spec fn after_rounds(self, world: RetryWorld, rounds: nat) -> (
        Seq<TaskModel>,
        RetryPassModel,
    )
        decreases rounds,
    {
        let tasks = self.script.attempted(world.task);
        let worked = self.worked_off(world);
        if rounds == 0 {
            (tasks, worked)
        } else {
            let (rest, end) = worked.answered(world).after_rounds(world, (rounds - 1) as nat);
            (tasks + rest, end)
        }
    }
}

/// What a pass does for one session.
pub open spec fn tasks_for(session_id: Seq<char>, world: RetryWorld) -> Seq<TaskModel> {
    match world.worker_run(session_id) {
        Ok(_) => seq![
            TaskModel::ClearRetryJob { session_id },
            TaskModel::AddEvent {
                session_id,
                kind: EventKind::PipelineRetrySuccess,
                detail: "Retry succeeded"@,
            },
        ],
        Err(error) => seq![retry_event(session_id, error, (world.attempt)(session_id, error))],
    }
}

/// What a pass does for sessions, one after the other.
pub open spec fn tasks_for_all(jobs: Seq<Seq<char>>, world: RetryWorld) -> Seq<TaskModel>
    decreases jobs.len(),
{
    if jobs.len() == 0 {
        Seq::empty()
    } else {
        tasks_for(jobs.first(), world) + tasks_for_all(jobs.drop_first(), world)
    }
}

/// The rounds of a pass through sessions: one for a run that succeeds, two for one that fails.
pub open spec fn rounds_for(jobs: Seq<Seq<char>>, world: RetryWorld) -> nat
    decreases jobs.len(),
{
    if jobs.len() == 0 {
        0
    } else {
        (if world.worker_run(jobs.first()) is Ok {
            1nat
        } else {
            2nat
        }) + rounds_for(jobs.drop_first(), world)
    }
}

proof fn lemma_pass(
    steps: Seq<StepModel<TaskModel>>,
    jobs: Seq<Seq<char>>,
    world: RetryWorld,
)
    requires
        forall|t: TaskModel| (#[trigger] (world.task)(t)) is Ok,
    ensures
        ({
            let (tasks, end) = RetryPassModel::turning_to(steps, jobs).after_rounds(
                world,
                rounds_for(jobs, world),
            );
            &&& tasks == steps.map_values(|s: StepModel<TaskModel>| s.task) + tasks_for_all(
                jobs,
                world,
            )
            &&& end.script.is_over(Ok(()))
        }),
    decreases jobs.len(),
{
    let pass = RetryPassModel::turning_to(steps, jobs);
    a_script_that_goes_through_reaches_its_goal(pass.script, world.task);
    let done = steps.map_values(|s: StepModel<TaskModel>| s.task);
    if jobs.len() == 0 {
        assert(done + tasks_for_all(jobs, world) =~= done);
    } else {
        let id = jobs.first();
        let rest = jobs.drop_first();
        let next = pass.worked_off(world).answered(world);
        match world.worker_run(id) {
            Ok(_) => {
                lemma_pass(retry_succeeded(id), rest, world);
                assert(retry_succeeded(id).map_values(|s: StepModel<TaskModel>| s.task)
                    =~= tasks_for(id, world));
                assert(next == RetryPassModel::turning_to(retry_succeeded(id), rest));
            },
            Err(error) => {
                let event = retry_event(id, error, (world.attempt)(id, error));
                lemma_pass(seq![must(event)], rest, world);
                a_script_that_goes_through_reaches_its_goal(next.script, world.task);
                assert(seq![must(event)].map_values(|s: StepModel<TaskModel>| s.task) =~= tasks_for(
                    id,
                    world,
                ));
                let last = next.worked_off(world).answered(world);
                assert(last == RetryPassModel::turning_to(seq![must(event)], rest));
                assert(next.script.attempted(world.task) =~= Seq::<TaskModel>::empty());
                let n = rounds_for(rest, world);
                assert(next.after_rounds(world, n + 1).0 =~= last.after_rounds(world, n).0);
            },
        }
        assert(done + (tasks_for(id, world) + tasks_for_all(rest, world)) =~= done + tasks_for_all(
            jobs,
            world,
        ));
    }
}

/// A pass whose tasks succeed goes through every session that is due, once each and in order, with
/// the whole pipeline, run as the worker does: a run that succeeds drops the job and logs that, a run
/// that fails logs whether there is another attempt; a failed run does not keep the others from
/// their turn.
pub proof fn a_pass_sees_to_every_session_once(
    now_epoch: i64,
    limit: usize,
    jobs: Seq<Seq<char>>,
    world: RetryWorld,
)
    requires
        forall|t: TaskModel| (#[trigger] (world.task)(t)) is Ok,
    ensures
        ({
            let start = RetryPassModel::starting(now_epoch, limit).after_jobs(Ok(jobs));
            let (tasks, end) = start.after_rounds(world, rounds_for(jobs, world));
            &&& tasks == tasks_for_all(jobs, world)
            &&& end.script.is_over(Ok(()))
        }),
{
    lemma_pass(Seq::empty(), jobs, world);
    assert(Seq::<StepModel<TaskModel>>::empty().map_values(|s: StepModel<TaskModel>| s.task)
        + tasks_for_all(jobs, world) =~= tasks_for_all(jobs, world));
}

/// There is another attempt while there were fewer than are allowed, and it is the next in number.
pub proof fn an_attempt_follows_while_it_is_allowed(attempts: int, max: int)
    ensures
        attempts < max ==> following_attempt(attempts, max) == Some(attempts + 1),
        attempts >= max ==> following_attempt(attempts, max) is None,
{
}

/// A run that failed is tried again four times at most; a pass of the worker sees to ten jobs, and
/// comes every twenty seconds.
pub proof fn the_measures_of_the_worker()
    ensures
        MAX_PIPELINE_RETRY_ATTEMPTS == 4,
        RETRY_JOBS_PER_PASS == 10,
        RETRY_WORKER_POLL_SECONDS == 20,
{
}

} // verus!
