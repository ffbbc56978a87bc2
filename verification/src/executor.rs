//! The pipeline executor: a sequential, fail-fast state machine.
//!
//! The executor moves from `NotStarted` through `Running` to one of the two
//! terminal states `Completed` and `Failed`. While running, it hands its
//! caller one step at a time, in declaration order; the caller performs the
//! step and reports the outcome back. On a success the executor advances to
//! the next step (or completes after the last); on the first failure it
//! stops for good with that step's error. No step executes before its
//! predecessor has completed successfully, and no step executes after a
//! failure: there is no retry, no rollback and no re-entry into `Running`.

use vstd::prelude::*;
use vstd::string::StringExecFns;
use crate::error::{error_of, ErrorView, RunError};
use crate::pipeline::{Pipeline, PipelineView};
use crate::step::{outcome_matches, outcome_succeeds, Step, StepOutcome, StepView};

verus! {

/// Where the executor stands.
pub enum ExecutorState {
    /// The pipeline has not been invoked yet.
    NotStarted,
    /// Every step before `next` succeeded; step `next` is up.
    Running { next: usize },
    /// Every step succeeded.
    Completed,
    /// Step `step` failed with `error`; no later step was executed.
    Failed { step: usize, error: RunError },
}

/// The mathematical value of an [`ExecutorState`].
#[verifier::ext_equal]
pub enum StateView {
    NotStarted,
    Running { next: int },
    Completed,
    Failed { step: int, error: ErrorView },
}

impl View for ExecutorState {
    type V = StateView;

    open spec fn view(&self) -> StateView {
        match self {
            ExecutorState::NotStarted => StateView::NotStarted,
            ExecutorState::Running { next } => StateView::Running { next: *next as int },
            ExecutorState::Completed => StateView::Completed,
            ExecutorState::Failed { step, error } => StateView::Failed {
                step: *step as int,
                error: error@,
            },
        }
    }
}

/// One transition of a running executor that was waiting on step `next`:
/// on a success, advance to the following step, or complete when `next`
/// was the last one; on a failure, stop with that step's error.
pub open spec fn step_transition(steps: Seq<StepView>, next: int, outcome: StepOutcome) -> StateView
    recommends
        0 <= next < steps.len(),
{
    if outcome_succeeds(outcome) {
        if next + 1 == steps.len() {
            StateView::Completed
        } else {
            StateView::Running { next: next + 1 }
        }
    } else {
        StateView::Failed { step: next, error: error_of(steps[next], outcome) }
    }
}

/// The state a pipeline stands in after the outcomes seen so far, one per
/// executed step: running at the first step not yet executed, completed
/// once the steps are exhausted, and failed at the first failure.
pub open spec fn state_after(steps: Seq<StepView>, seen: Seq<StepOutcome>) -> StateView
    recommends
        seen.len() <= steps.len(),
    decreases seen.len(),
{
    if seen.len() == 0 {
        if steps.len() == 0 {
            StateView::Completed
        } else {
            StateView::Running { next: 0 }
        }
    } else {
        let prev = state_after(steps, seen.drop_last());
        match prev {
            StateView::Running { next } => step_transition(steps, next, seen.last()),
            _ => prev,
        }
    }
}

/// While a pipeline is running at step `next`, exactly the steps before
/// `next` have been executed, in declaration order, and every one of them
/// succeeded: no step runs before its predecessor has completed
/// successfully.
pub proof fn lemma_running_means_all_prior_succeeded(steps: Seq<StepView>, seen: Seq<StepOutcome>)
    requires
        state_after(steps, seen) is Running,
    ensures
        seen.len() == state_after(steps, seen)->Running_next,
        forall|j: int| 0 <= j < seen.len() ==> outcome_succeeds(#[trigger] seen[j]),
    decreases seen.len(),
{
    if seen.len() > 0 {
        lemma_running_means_all_prior_succeeded(steps, seen.drop_last());
        assert(seen.drop_last().push(seen.last()) =~= seen);
    }
}

/// The terminal state a run reaches from step `i` on, when performing step
/// `j` yields `outcomes[j]`: `Completed` once the steps are exhausted, and
/// `Failed` at the first failing step.
pub open spec fn run_from(steps: Seq<StepView>, outcomes: Seq<StepOutcome>, i: int) -> StateView
    recommends
        0 <= i <= steps.len(),
        outcomes.len() == steps.len(),
    decreases steps.len() - i,
{
    if i < 0 || i >= steps.len() {
        StateView::Completed
    } else if outcome_succeeds(outcomes[i]) {
        run_from(steps, outcomes, i + 1)
    } else {
        StateView::Failed { step: i, error: error_of(steps[i], outcomes[i]) }
    }
}

/// How many of the steps from `i` on execute: all of them when all succeed,
/// and otherwise the first failing one and all before it.
pub open spec fn executed_from(steps: Seq<StepView>, outcomes: Seq<StepOutcome>, i: int) -> int
    recommends
        0 <= i <= steps.len(),
        outcomes.len() == steps.len(),
    decreases steps.len() - i,
{
    if i < 0 || i >= steps.len() {
        0
    } else if outcome_succeeds(outcomes[i]) {
        1 + executed_from(steps, outcomes, i + 1)
    } else {
        1
    }
}

/// A pipeline with an empty step list completes immediately, with no step
/// executed.
pub proof fn lemma_empty_pipeline_completes(steps: Seq<StepView>, outcomes: Seq<StepOutcome>)
    requires
        steps.len() == 0,
    ensures
        run_from(steps, outcomes, 0) is Completed,
        executed_from(steps, outcomes, 0) == 0,
{
}

proof fn lemma_fail_fast_from(steps: Seq<StepView>, outcomes: Seq<StepOutcome>, i: int, k: int)
    requires
        outcomes.len() == steps.len(),
        0 <= i < k <= steps.len(),
        forall|j: int| i <= j < k - 1 ==> outcome_succeeds(outcomes[j]),
        !outcome_succeeds(outcomes[k - 1]),
    ensures
        run_from(steps, outcomes, i) == (StateView::Failed {
            step: k - 1,
            error: error_of(steps[k - 1], outcomes[k - 1]),
        }),
        executed_from(steps, outcomes, i) == k - i,
    decreases k - i,
{
    if i < k - 1 {
        lemma_fail_fast_from(steps, outcomes, i + 1, k);
    }
}

/// Fail-fast: when the steps before the `k`-th (1-indexed) all succeed and
/// the `k`-th fails, the run fails at the `k`-th step with that step's
/// error, having executed exactly the first `k` steps and none after.
pub proof fn lemma_fail_fast(steps: Seq<StepView>, outcomes: Seq<StepOutcome>, k: int)
    requires
        outcomes.len() == steps.len(),
        1 <= k <= steps.len(),
        forall|j: int| 0 <= j < k - 1 ==> outcome_succeeds(outcomes[j]),
        !outcome_succeeds(outcomes[k - 1]),
    ensures
        run_from(steps, outcomes, 0) == (StateView::Failed {
            step: k - 1,
            error: error_of(steps[k - 1], outcomes[k - 1]),
        }),
        executed_from(steps, outcomes, 0) == k,
{
    lemma_fail_fast_from(steps, outcomes, 0, k);
}

proof fn lemma_all_succeed_from(steps: Seq<StepView>, outcomes: Seq<StepOutcome>, i: int)
    requires
        outcomes.len() == steps.len(),
        0 <= i <= steps.len(),
        forall|j: int| i <= j < steps.len() ==> outcome_succeeds(outcomes[j]),
    ensures
        run_from(steps, outcomes, i) is Completed,
        executed_from(steps, outcomes, i) == steps.len() - i,
    decreases steps.len() - i,
{
    if i < steps.len() {
        lemma_all_succeed_from(steps, outcomes, i + 1);
    }
}

/// When every step succeeds, the run completes, having executed all steps
/// in order.
pub proof fn lemma_all_succeed_completes(steps: Seq<StepView>, outcomes: Seq<StepOutcome>)
    requires
        outcomes.len() == steps.len(),
        forall|j: int| 0 <= j < steps.len() ==> outcome_succeeds(outcomes[j]),
    ensures
        run_from(steps, outcomes, 0) is Completed,
        executed_from(steps, outcomes, 0) == steps.len(),
{
    lemma_all_succeed_from(steps, outcomes, 0);
}

/// The message announcing a completed build, echoing the build identifier.
pub open spec fn success_message_view(build_id: Seq<char>) -> Seq<char> {
    "Build "@ + build_id + " complete"@
}

/// Runs one pipeline, one step at a time, and never re-enters a terminal
/// state.
pub struct Executor {
    pipeline: Pipeline,
    state: ExecutorState,
    history: Ghost<Seq<StepOutcome>>,
}

/// The mathematical value of an [`Executor`].
#[verifier::ext_equal]
pub struct ExecutorView {
    pub pipeline: PipelineView,
    pub state: StateView,
}

impl View for Executor {
    type V = ExecutorView;

    closed spec fn view(&self) -> ExecutorView {
        ExecutorView { pipeline: self.pipeline@, state: self.state@ }
    }
}

impl Executor {
    /// The outcomes reported so far, in the order the steps executed.
    pub closed spec fn history(&self) -> Seq<StepOutcome> {
        self.history@
    }

    /// The executor never runs or blames a step the pipeline does not
    /// have, and, once started, it stands exactly where the outcomes
    /// reported so far put it.
    pub open spec fn wf(&self) -> bool {
        &&& (self@.state matches StateView::Running { next } ==> 0 <= next
            < self@.pipeline.steps.len())
        &&& (self@.state matches StateView::Failed { step, .. } ==> 0 <= step
            < self@.pipeline.steps.len())
        &&& self.history().len() <= self@.pipeline.steps.len()
        &&& (self@.state is NotStarted ==> self.history().len() == 0)
        &&& (!(self@.state is NotStarted) ==> self@.state == state_after(
            self@.pipeline.steps,
            self.history(),
        ))
    }

    /// An executor for the given pipeline, not yet started.
    pub fn new(pipeline: Pipeline) -> (e: Executor)
        ensures
            e@.pipeline == pipeline@,
            e@.state is NotStarted,
            e.history().len() == 0,
            e.wf(),
    {
        Executor {
            pipeline,
            state: ExecutorState::NotStarted,
            history: Ghost(Seq::empty()),
        }
    }

    /// Invoke the pipeline: move to `Running` at the first step, or
    /// straight to `Completed` when the step list is empty.
    pub fn start(&mut self)
        requires
            old(self)@.state is NotStarted,
            old(self).wf(),
        ensures
            final(self)@.pipeline == old(self)@.pipeline,
            final(self).wf(),
            final(self).history() == old(self).history(),
            final(self)@.state == (if old(self)@.pipeline.steps.len() == 0 {
                StateView::Completed
            } else {
                StateView::Running { next: 0 }
            }),
    {
        if self.pipeline.steps.len() == 0 {
            self.state = ExecutorState::Completed;
        } else {
            self.state = ExecutorState::Running { next: 0 };
        }
    }

    /// The step the executor is waiting on, when it is running.
    pub fn current_step(&self) -> (r: Option<&Step>)
        requires
            self.wf(),
        ensures
            (match self@.state {
                StateView::Running { next } => {
                    r matches Some(s) && s.deep_view() == self@.pipeline.steps[next]
                },
                _ => r is None,
            }),
    {
        match &self.state {
            ExecutorState::Running { next } => Some(&self.pipeline.steps[*next]),
            _ => None,
        }
    }

    /// Consume the outcome of the step the executor was waiting on: on a
    /// success advance (or complete after the last step); on any failure
    /// stop at once with that step's error. Failure is fatal: no retry, no
    /// further step.
    pub fn report_outcome(&mut self, outcome: StepOutcome)
        requires
            old(self).wf(),
            old(self)@.state is Running,
            outcome_matches(
                old(self)@.pipeline.steps[old(self)@.state->Running_next],
                outcome,
            ),
        ensures
            final(self)@.pipeline == old(self)@.pipeline,
            final(self).wf(),
            final(self).history() == old(self).history().push(outcome),
            final(self)@.state == step_transition(
                old(self)@.pipeline.steps,
                old(self)@.state->Running_next,
                outcome,
            ),
    {
        let next: usize = match &self.state {
            ExecutorState::Running { next } => *next,
            _ => unreached(),
        };
        proof {
            lemma_running_means_all_prior_succeeded(self@.pipeline.steps, self.history());
            assert(self.history().push(outcome).drop_last() =~= self.history());
        }
        self.history = Ghost(self.history@.push(outcome));
        let success = match outcome {
            StepOutcome::WorkspaceReady => true,
            StepOutcome::Exited { code } => code == 0,
            _ => false,
        };
        let step_count = self.pipeline.steps.len();
        if success {
            if next + 1 == step_count {
                self.state = ExecutorState::Completed;
            } else {
                self.state = ExecutorState::Running { next: next + 1 };
            }
        } else {
            let error = RunError::for_step(&self.pipeline.steps[next], outcome);
            self.state = ExecutorState::Failed { step: next, error };
        }
    }

    /// The executor's current state, for inspection and reporting.
    pub fn state(&self) -> (r: &ExecutorState)
        ensures
            r@ == self@.state,
    {
        &self.state
    }

    /// True while a step is waiting to be performed.
    pub fn is_running(&self) -> (r: bool)
        ensures
            r == (self@.state is Running),
    {
        match &self.state {
            ExecutorState::Running { .. } => true,
            _ => false,
        }
    }

    /// True in the terminal state every step succeeded into.
    pub fn is_completed(&self) -> (r: bool)
        ensures
            r == (self@.state is Completed),
    {
        match &self.state {
            ExecutorState::Completed => true,
            _ => false,
        }
    }

    /// True in the terminal state a failing step forced.
    pub fn is_failed(&self) -> (r: bool)
        ensures
            r == (self@.state is Failed),
    {
        match &self.state {
            ExecutorState::Failed { .. } => true,
            _ => false,
        }
    }

    /// The message a completed build is announced with.
    pub fn success_message(&self) -> (r: String)
        requires
            self@.state is Completed,
        ensures
            r@ == success_message_view(self@.pipeline.build_id),
    {
        let mut r = "Build ".to_owned();
        r.append(self.pipeline.build_id.as_str());
        r.append(" complete");
        proof {
            assert(r@ =~= success_message_view(self@.pipeline.build_id));
        }
        r
    }
}

/// Replay a pipeline against a fixed list of outcomes, one per step: the
/// result is exactly what the run model predicts, with the first failure,
/// if any, cutting the run short.
pub fn run_scripted(pipeline: Pipeline, outcomes: &Vec<StepOutcome>) -> (e: Executor)
    requires
        outcomes@.len() == pipeline@.steps.len(),
        forall|j: int| 0 <= j < outcomes@.len() ==> outcome_matches(
            pipeline@.steps[j],
            #[trigger] outcomes@[j],
        ),
    ensures
        e@.pipeline == pipeline@,
        e.wf(),
        e@.state == run_from(pipeline@.steps, outcomes@, 0),
        e.history() == outcomes@.take(executed_from(pipeline@.steps, outcomes@, 0)),
{
    let ghost pv = pipeline@;
    let n = outcomes.len();
    let mut e = Executor::new(pipeline);
    e.start();
    let mut i: usize = 0;
    while i < n
        invariant
            e.wf(),
            e@.pipeline == pv,
            n == pv.steps.len(),
            n == outcomes@.len(),
            forall|j: int| 0 <= j < outcomes@.len() ==> outcome_matches(
                pv.steps[j],
                #[trigger] outcomes@[j],
            ),
            i <= n,
            !(e@.state is NotStarted),
            e@.state matches StateView::Running { next } ==> next == i
                && run_from(pv.steps, outcomes@, 0) == run_from(pv.steps, outcomes@, i as int)
                && e.history() == outcomes@.take(i as int)
                && executed_from(pv.steps, outcomes@, 0) == i + executed_from(
                pv.steps,
                outcomes@,
                i as int,
            ),
            (e@.state is Completed || e@.state is Failed) ==> e@.state == run_from(
                pv.steps,
                outcomes@,
                0,
            ) && e.history() == outcomes@.take(executed_from(pv.steps, outcomes@, 0)),
        decreases n - i,
    {
        if e.is_running() {
            e.report_outcome(outcomes[i]);
            proof {
                assert(outcomes@.take(i as int).push(outcomes@[i as int]) =~= outcomes@.take(
                    i + 1,
                ));
                if outcome_succeeds(outcomes@[i as int]) {
                    assert(run_from(pv.steps, outcomes@, i as int) == run_from(
                        pv.steps,
                        outcomes@,
                        i + 1,
                    ));
                    assert(executed_from(pv.steps, outcomes@, i as int) == 1 + executed_from(
                        pv.steps,
                        outcomes@,
                        i + 1,
                    ));
                }
            }
        }
        i += 1;
    }
    e
}

} // verus!
