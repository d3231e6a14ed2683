//! Scripts: what is still to be carried out, in order, before a question is asked or a
//! result is given.
//!
//! A command of the recorder alternates between decisions and work that only the surrounding
//! program can do. Each decision leaves a [`Script`] behind: steps to carry out one after the
//! other, and a goal for when they are done. A step that fails ends the command where the step
//! is required, and is passed over where it is not.
use vstd::prelude::*;

verus! {

/// One task of a script.
#[derive(Debug)]
pub struct Step<T> {
    pub task: T,
    /// Whether a failure of the task ends the command.
    pub required: bool,
}

/// What a [`Step`] says.
pub struct StepModel<T> {
    pub task: T,
    pub required: bool,
}

impl<T: View> View for Step<T> {
    type V = StepModel<T::V>;

    open spec fn view(&self) -> StepModel<T::V> {
        StepModel { task: self.task@, required: self.required }
    }
}

/// What follows once every step is done.
#[derive(Debug)]
pub enum Goal<Q, R> {
    /// The command goes on with the answer to a question.
    Ask(Q),
    /// The command is over.
    Finish(Result<R, String>),
}

/// What a [`Goal`] says.
pub enum GoalModel<Q, R> {
    Ask(Q),
    Finish(Result<R, Seq<char>>),
}

impl<Q: View, R: View> View for Goal<Q, R> {
    type V = GoalModel<Q::V, R::V>;

    open spec fn view(&self) -> GoalModel<Q::V, R::V> {
        match self {
            Goal::Ask(q) => GoalModel::Ask(q@),
            Goal::Finish(Ok(r)) => GoalModel::Finish(Ok(r@)),
            Goal::Finish(Err(e)) => GoalModel::Finish(Err(e@)),
        }
    }
}

/// The steps ahead, and the goal behind them.
#[derive(Debug)]
pub struct Script<T, Q, R> {
    pub steps: Vec<Step<T>>,
    pub goal: Goal<Q, R>,
}

/// What a [`Script`] says.
pub struct ScriptModel<T, Q, R> {
    pub steps: Seq<StepModel<T>>,
    pub goal: GoalModel<Q, R>,
}

/// What the steps of a list say.
pub open spec fn steps_model<T: View>(steps: Seq<Step<T>>) -> Seq<StepModel<T::V>> {
    steps.map_values(|s: Step<T>| s@)
}

impl<T: View, Q: View, R: View> View for Script<T, Q, R> {
    type V = ScriptModel<T::V, Q::V, R::V>;

    open spec fn view(&self) -> ScriptModel<T::V, Q::V, R::V> {
        ScriptModel { steps: steps_model(self.steps@), goal: self.goal@ }
    }
}

/// What came of a task.
pub open spec fn outcome_model(outcome: Result<(), String>) -> Result<(), Seq<char>> {
    match outcome {
        Ok(()) => Ok(()),
        Err(e) => Err(e@),
    }
}

/// A step whose failure ends the command.
pub open spec fn must<T>(task: T) -> StepModel<T> {
    StepModel { task, required: true }
}

/// A step whose failure is passed over.
pub open spec fn may<T>(task: T) -> StepModel<T> {
    StepModel { task, required: false }
}

impl<T, Q, R> ScriptModel<T, Q, R> {
    /// A script that asks `q` after `steps`.
    pub open spec fn asking(steps: Seq<StepModel<T>>, q: Q) -> Self {
        ScriptModel { steps, goal: GoalModel::Ask(q) }
    }

    /// A script that is over after `steps`.
    pub open spec fn finishing(steps: Seq<StepModel<T>>, result: Result<R, Seq<char>>) -> Self {
        ScriptModel { steps, goal: GoalModel::Finish(result) }
    }

    /// Whether the answer to `q` is what the command waits for.
    pub open spec fn awaits(self, q: Q) -> bool {
        self.steps.len() == 0 && self.goal == GoalModel::<Q, R>::Ask(q)
    }

    /// Whether the command is over with `result`.
    pub open spec fn is_over(self, result: Result<R, Seq<char>>) -> bool {
        self.steps.len() == 0 && self.goal == GoalModel::<Q, R>::Finish(result)
    }

    /// The script after its first task came to `outcome`.
    pub open spec fn settled(self, outcome: Result<(), Seq<char>>) -> Self {
        match outcome {
            Err(e) if self.steps.first().required => ScriptModel {
                steps: Seq::empty(),
                goal: GoalModel::Finish(Err(e)),
            },
            _ => ScriptModel { steps: self.steps.drop_first(), goal: self.goal },
        }
    }

    /// The script after every task was carried out in turn, where `answer` says what comes of
    /// each.
    pub open spec fn carried_out(self, answer: spec_fn(T) -> Result<(), Seq<char>>) -> Self
        decreases self.steps.len(),
    {
        if self.steps.len() == 0 {
            self
        } else {
            self.settled(answer(self.steps.first().task)).carried_out(answer)
        }
    }

    /// The tasks that are carried out, in turn, where `answer` says what comes of each.
    pub open spec fn attempted(self, answer: spec_fn(T) -> Result<(), Seq<char>>) -> Seq<T>
        decreases self.steps.len(),
    {
        if self.steps.len() == 0 {
            Seq::empty()
        } else {
            seq![self.steps.first().task] + self.settled(
                answer(self.steps.first().task),
            ).attempted(answer)
        }
    }

    /// Whether no required step fails.
    pub open spec fn goes_through(self, answer: spec_fn(T) -> Result<(), Seq<char>>) -> bool {
        forall|i: int|
            0 <= i < self.steps.len() && (#[trigger] self.steps[i]).required ==> answer(
                self.steps[i].task,
            ) is Ok
    }

    /// The tasks of the script in their order.
    pub open spec fn tasks(self) -> Seq<T> {
        self.steps.map_values(|s: StepModel<T>| s.task)
    }
}

impl<T, Q, R> Script<T, Q, R> {
    /// The task to carry out next, if there is one.
    pub fn next_task(&self) -> (r: Option<&T>)
        ensures
            match r {
                Some(t) => self.steps@.len() > 0 && *t == self.steps@[0].task,
                None => self.steps@.len() == 0,
            },
    {
        if self.steps.len() == 0 {
            None
        } else {
            Some(&self.steps[0].task)
        }
    }
}

impl<T: View, Q: View, R: View> Script<T, Q, R> {
    /// Takes note of what came of the first task.
    pub fn settle(&mut self, outcome: Result<(), String>)
        requires
            old(self).steps@.len() > 0,
        ensures
            final(self)@ == old(self)@.settled(outcome_model(outcome)),
    {
        let step = self.steps.remove(0);
        proof {
            assert(steps_model(old(self).steps@).first() == old(self).steps@[0]@);
            assert(steps_model(self.steps@) =~= steps_model(old(self).steps@).drop_first());
        }
        match outcome {
            Err(e) => {
                if step.required {
                    self.steps.clear();
                    self.goal = Goal::Finish(Err(e));
                    assert(steps_model(self.steps@) =~= Seq::empty());
                }
            },
            Ok(()) => {},
        }
    }
}

/// Adds a step whose failure ends the command.
pub fn require<T: View>(steps: &mut Vec<Step<T>>, task: T)
    ensures
        steps_model(final(steps)@) == steps_model(old(steps)@).push(must(task@)),
{
    steps.push(Step { task, required: true });
    assert(steps_model(steps@) =~= steps_model(old(steps)@).push(must(task@)));
}

/// Adds a step whose failure is passed over.
pub fn attempt<T: View>(steps: &mut Vec<Step<T>>, task: T)
    ensures
        steps_model(final(steps)@) == steps_model(old(steps)@).push(may(task@)),
{
    steps.push(Step { task, required: false });
    assert(steps_model(steps@) =~= steps_model(old(steps)@).push(may(task@)));
}

/// Where no required step fails, every task is carried out, in order, and the goal is reached.
pub proof fn a_script_that_goes_through_reaches_its_goal<T, Q, R>(
    s: ScriptModel<T, Q, R>,
    answer: spec_fn(T) -> Result<(), Seq<char>>,
)
    requires
        s.goes_through(answer),
    ensures
        s.attempted(answer) == s.tasks(),
        s.carried_out(answer) == (ScriptModel::<T, Q, R> {
            steps: Seq::<StepModel<T>>::empty(),
            goal: s.goal,
        }),
    decreases s.steps.len(),
{
    if s.steps.len() == 0 {
        assert(s.steps =~= Seq::<StepModel<T>>::empty());
        assert(s.tasks() =~= Seq::<T>::empty());
    } else {
        let next = s.settled(answer(s.steps.first().task));
        assert(s.steps[0] == s.steps.first());
        assert(next.steps == s.steps.drop_first());
        assert forall|i: int| 0 <= i < next.steps.len() && (#[trigger] next.steps[i]).required implies answer(
            next.steps[i].task,
        ) is Ok by {
            assert(next.steps[i] == s.steps[i + 1]);
        }
        a_script_that_goes_through_reaches_its_goal(next, answer);
        assert(s.tasks() =~= seq![s.steps.first().task] + next.tasks());
    }
}

/// The first required step that fails is the last one carried out, and the command is over
/// with its error.
pub proof fn the_first_required_failure_ends_the_command<T, Q, R>(
    s: ScriptModel<T, Q, R>,
    answer: spec_fn(T) -> Result<(), Seq<char>>,
    k: int,
)
    requires
        0 <= k < s.steps.len(),
        s.steps[k].required,
        answer(s.steps[k].task) is Err,
        forall|i: int|
            0 <= i < k && (#[trigger] s.steps[i]).required ==> answer(s.steps[i].task) is Ok,
    ensures
        s.attempted(answer) == s.tasks().take(k + 1),
        s.carried_out(answer).is_over(Err(answer(s.steps[k].task)->Err_0)),
    decreases s.steps.len(),
{
    let next = s.settled(answer(s.steps.first().task));
    assert(s.steps[0] == s.steps.first());
    if k == 0 {
        assert(next.steps.len() == 0);
        assert(next.attempted(answer) =~= Seq::<T>::empty());
        assert(s.attempted(answer) =~= s.tasks().take(1));
        assert(next.carried_out(answer) == next);
    } else {
        assert(next.steps == s.steps.drop_first());
        assert(next.steps[k - 1] == s.steps[k]);
        assert forall|i: int| 0 <= i < k - 1 && (#[trigger] next.steps[i]).required implies answer(
            next.steps[i].task,
        ) is Ok by {
            assert(next.steps[i] == s.steps[i + 1]);
        }
        the_first_required_failure_ends_the_command(next, answer, k - 1);
        assert(s.tasks().take(k + 1) =~= seq![s.steps.first().task] + next.tasks().take(k));
    }
}

/// Once its steps are carried out, a script has reached its goal, or the command is over.
pub proof fn after_its_steps_a_script_is_at_its_goal_or_over<T, Q, R>(
    s: ScriptModel<T, Q, R>,
    answer: spec_fn(T) -> Result<(), Seq<char>>,
)
    ensures
        s.carried_out(answer).steps.len() == 0,
        s.carried_out(answer).goal == s.goal || s.carried_out(answer).goal is Finish,
    decreases s.steps.len(),
{
    if s.steps.len() > 0 {
        after_its_steps_a_script_is_at_its_goal_or_over(
            s.settled(answer(s.steps.first().task)),
            answer,
        );
    }
}

/// A command that goes on, or comes to a good end, after its steps has carried out every one of
/// them, and no required one has failed.
pub proof fn a_good_goal_is_reached_by_all_the_steps<T, Q, R>(
    s: ScriptModel<T, Q, R>,
    answer: spec_fn(T) -> Result<(), Seq<char>>,
)
    requires
        !(s.carried_out(answer).goal matches GoalModel::Finish(Err(_))),
    ensures
        s.goes_through(answer),
        s.attempted(answer) == s.tasks(),
    decreases s.steps.len(),
{
    if s.steps.len() > 0 {
        let next = s.settled(answer(s.steps.first().task));
        a_good_goal_is_reached_by_all_the_steps(next, answer);
        if s.steps.first().required && answer(s.steps.first().task) is Err {
            assert(next.carried_out(answer) == next);
        }
        assert(next.steps == s.steps.drop_first());
        assert forall|i: int|
            0 <= i < s.steps.len() && (#[trigger] s.steps[i]).required implies answer(
            s.steps[i].task,
        ) is Ok by {
            if i > 0 {
                assert(next.steps[i - 1] == s.steps[i]);
            }
        }
    }
    a_script_that_goes_through_reaches_its_goal(s, answer);
}

/// Only tasks of the script are carried out.
pub proof fn only_tasks_of_the_script_are_carried_out<T, Q, R>(
    s: ScriptModel<T, Q, R>,
    answer: spec_fn(T) -> Result<(), Seq<char>>,
)
    ensures
        s.attempted(answer).len() <= s.steps.len(),
        s.attempted(answer) == s.tasks().take(s.attempted(answer).len() as int),
    decreases s.steps.len(),
{
    if s.steps.len() == 0 {
        assert(s.attempted(answer) =~= s.tasks().take(0));
    } else {
        let next = s.settled(answer(s.steps.first().task));
        only_tasks_of_the_script_are_carried_out(next, answer);
        let n = next.attempted(answer).len() as int;
        if next.steps.len() == 0 {
            assert(next.attempted(answer) =~= Seq::<T>::empty());
        } else {
            assert(next.steps == s.steps.drop_first());
        }
        assert(s.attempted(answer) =~= s.tasks().take(n + 1));
    }
}

/// What happens in the course of a command: a task is carried out, or a question is asked.
pub enum Act<T, Q> {
    Does(T),
    Asks(Q),
}

/// The course in which `tasks` are carried out one after the other.
pub open spec fn does<T, Q>(tasks: Seq<T>) -> Seq<Act<T, Q>> {
    tasks.map_values(|t: T| Act::<T, Q>::Does(t))
}

/// Whether an act is a task of those that `needed` tells, and fails.
pub open spec fn fails<T, Q>(
    act: Act<T, Q>,
    needed: spec_fn(T) -> bool,
    answer: spec_fn(T) -> Result<(), Seq<char>>,
) -> bool {
    act matches Act::Does(t) && needed(t) && answer(t) is Err
}

/// How the course of a command, which came to `result`, goes with the course that it takes where
/// every task succeeds, which comes to `calm_result`: the first task that is needed and fails is
/// the last act, and the command is over with its error; up to there, or where there is none,
/// everything happens as if every task succeeded.
pub open spec fn is_cut_short<T, Q, R>(
    course: Seq<Act<T, Q>>,
    result: Result<R, Seq<char>>,
    calm: Seq<Act<T, Q>>,
    calm_result: Result<R, Seq<char>>,
    needed: spec_fn(T) -> bool,
    answer: spec_fn(T) -> Result<(), Seq<char>>,
) -> bool {
    &&& course.len() <= calm.len()
    &&& course == calm.take(course.len() as int)
    &&& forall|i: int|
        0 <= i < course.len() && fails(#[trigger] course[i], needed, answer) ==> i == course.len()
            - 1 && result == Err::<R, Seq<char>>(answer(course[i]->Does_0)->Err_0)
    &&& (forall|i: int| 0 <= i < course.len() ==> !fails(#[trigger] course[i], needed, answer))
        ==> course == calm && result == calm_result
}

/// A command that begins with the steps of a script goes as the steps go, and then, where they go
/// through, as the rest goes.
pub proof fn lemma_cut_short<T, Q, R>(
    s: ScriptModel<T, Q, R>,
    rest: Seq<Act<T, Q>>,
    rest_result: Result<R, Seq<char>>,
    calm_rest: Seq<Act<T, Q>>,
    calm_result: Result<R, Seq<char>>,
    needed: spec_fn(T) -> bool,
    answer: spec_fn(T) -> Result<(), Seq<char>>,
)
    requires
        forall|i: int|
            0 <= i < s.steps.len() ==> (#[trigger] s.steps[i]).required == needed(s.steps[i].task),
        is_cut_short(rest, rest_result, calm_rest, calm_result, needed, answer),
    ensures
        s.goes_through(answer) ==> is_cut_short(
            does::<T, Q>(s.attempted(answer)) + rest,
            rest_result,
            does::<T, Q>(s.tasks()) + calm_rest,
            calm_result,
            needed,
            answer,
        ),
        !s.goes_through(answer) ==> s.carried_out(answer).goal is Finish && is_cut_short(
            does::<T, Q>(s.attempted(answer)),
            s.carried_out(answer).goal->Finish_0,
            does::<T, Q>(s.tasks()) + calm_rest,
            calm_result,
            needed,
            answer,
        ),
{
    let tasks = s.tasks();
    let calm = does::<T, Q>(tasks) + calm_rest;
    if s.goes_through(answer) {
        a_script_that_goes_through_reaches_its_goal(s, answer);
        let course = does::<T, Q>(tasks) + rest;
        assert(course =~= calm.take(course.len() as int));
        assert forall|i: int| 0 <= i < course.len() && fails(#[trigger] course[i], needed, answer) implies {
            &&& i == course.len() - 1
            &&& rest_result == Err::<R, Seq<char>>(answer(course[i]->Does_0)->Err_0)
        } by {
            if i < tasks.len() {
                assert(s.steps[i].required);
            } else {
                assert(course[i] == rest[i - tasks.len()]);
            }
        }
        if forall|i: int| 0 <= i < course.len() ==> !fails(#[trigger] course[i], needed, answer) {
            assert forall|i: int| 0 <= i < rest.len() implies !fails(
                #[trigger] rest[i],
                needed,
                answer,
            ) by {
                assert(course[i + tasks.len()] == rest[i]);
            }
        }
    } else {
        let k = first_failure(s, answer);
        the_first_required_failure_ends_the_command(s, answer, k);
        let course = does::<T, Q>(tasks.take(k + 1));
        assert(course =~= calm.take(course.len() as int));
        assert forall|i: int| 0 <= i < course.len() && fails(#[trigger] course[i], needed, answer) implies i
            == course.len() - 1 by {
            assert(course[i] == Act::<T, Q>::Does(s.steps[i].task));
            assert(s.steps[i].required);
        }
        assert(course[k] == Act::<T, Q>::Does(s.steps[k].task));
        assert(fails(course[k], needed, answer));
    }
}

/// A question changes nothing about how the rest of a command goes.
pub proof fn lemma_cut_short_after_a_question<T, Q, R>(
    question: Q,
    rest: Seq<Act<T, Q>>,
    result: Result<R, Seq<char>>,
    calm_rest: Seq<Act<T, Q>>,
    calm_result: Result<R, Seq<char>>,
    needed: spec_fn(T) -> bool,
    answer: spec_fn(T) -> Result<(), Seq<char>>,
)
    ensures
        is_cut_short(rest, result, calm_rest, calm_result, needed, answer) ==> is_cut_short(
            seq![Act::Asks(question)] + rest,
            result,
            seq![Act::Asks(question)] + calm_rest,
            calm_result,
            needed,
            answer,
        ),
{
    if is_cut_short(rest, result, calm_rest, calm_result, needed, answer) {
        let course = seq![Act::<T, Q>::Asks(question)] + rest;
        let calm = seq![Act::<T, Q>::Asks(question)] + calm_rest;
        assert(course =~= calm.take(course.len() as int)) by {
            assert(rest == calm_rest.take(rest.len() as int));
        }
        assert forall|i: int| 1 <= i < course.len() implies #[trigger] course[i] == rest[i - 1] by {}
        assert forall|i: int| 0 <= i < rest.len() implies #[trigger] rest[i] == course[i + 1] by {}
    }
}

/// A command that is over goes as it should.
pub proof fn lemma_cut_short_at_the_end<T, Q, R>(
    result: Result<R, Seq<char>>,
    needed: spec_fn(T) -> bool,
    answer: spec_fn(T) -> Result<(), Seq<char>>,
)
    ensures
        is_cut_short(
            Seq::<Act<T, Q>>::empty(),
            result,
            Seq::<Act<T, Q>>::empty(),
            result,
            needed,
            answer,
        ),
{
    let nothing = Seq::<Act<T, Q>>::empty();
    assert(nothing =~= nothing.take(0));
}

/// The first step that is required and fails.
proof fn first_failure<T, Q, R>(
    s: ScriptModel<T, Q, R>,
    answer: spec_fn(T) -> Result<(), Seq<char>>,
) -> (k: int)
    requires
        !s.goes_through(answer),
    ensures
        0 <= k < s.steps.len(),
        s.steps[k].required,
        answer(s.steps[k].task) is Err,
        forall|i: int|
            0 <= i < k && (#[trigger] s.steps[i]).required ==> answer(s.steps[i].task) is Ok,
    decreases s.steps.len(),
{
    let bad = choose|i: int|
        0 <= i < s.steps.len() && (#[trigger] s.steps[i]).required && answer(s.steps[i].task) is Err;
    let before = ScriptModel::<T, Q, R> { steps: s.steps.take(bad), goal: s.goal };
    if before.goes_through(answer) {
        assert forall|i: int| 0 <= i < bad && (#[trigger] s.steps[i]).required implies answer(
            s.steps[i].task,
        ) is Ok by {
            assert(before.steps[i] == s.steps[i]);
        }
        bad
    } else {
        let k = first_failure(before, answer);
        assert forall|i: int| 0 <= i < k && (#[trigger] s.steps[i]).required implies answer(
            s.steps[i].task,
        ) is Ok by {
            assert(before.steps[i] == s.steps[i]);
        }
        k
    }
}

} // verus!
