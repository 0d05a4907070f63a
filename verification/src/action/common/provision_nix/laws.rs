//! What holds of every execution and every revert of the provisioning of Nix,
//! whatever the host reports.

use crate::action::common::provision_nix::run::{
    failure_of, lemma_begin_wf, lemma_skip, lemma_step_wf, named_step, stage_of, step_at,
    target, Directive, RunView, SignalView, Stage, Step,
};
use crate::action::common::provision_nix::ProvisionNixView;
use crate::action::{ActionState, Operation};
use vstd::prelude::*;

verus! {

impl SignalView {
    /// Whether the signal reports that something on the host went wrong.
    pub open spec fn is_failure(self) -> bool {
        match self {
            SignalView::Ran(Err(_)) => true,
            SignalView::Joined(Ok(Err(_))) => true,
            SignalView::Joined(Err(_)) => true,
            _ => false,
        }
    }
}

impl RunView {
    /// The run after the driver has reported `signals`, first to last.
    pub open spec fn after(self, signals: Seq<SignalView>) -> RunView
        decreases signals.len(),
    {
        if signals.len() == 0 {
            self
        } else {
            self.after(signals.drop_last()).step(signals.last())
        }
    }
}

/// Every run that can be reached from the beginning of an operation is well
/// formed, whatever the driver reported on the way and in whatever order.
pub proof fn law_reachable_runs_are_well_formed(
    action: ProvisionNixView,
    operation: Operation,
    signals: Seq<SignalView>,
)
    ensures
        RunView::begin(action, operation).after(signals).wf(),
        RunView::begin(action, operation).after(signals).start == action,
        RunView::begin(action, operation).after(signals).operation == operation,
    decreases signals.len(),
{
    let begun = RunView::begin(action, operation);
    lemma_begin_wf(action, operation);
    lemma_skip(
        RunView {
            start: action,
            action,
            operation,
            stage: Stage::Spawn,
            spawned: false,
            failure: None,
        },
    );
    if signals.len() > 0 {
        law_reachable_runs_are_well_formed(action, operation, signals.drop_last());
        let before = begun.after(signals.drop_last());
        lemma_step_wf(before, signals.last());
        law_step_keeps_start(before, signals.last());
    }
}

/// A report never changes what the run remembers of its beginning.
pub proof fn law_step_keeps_start(run: RunView, signal: SignalView)
    ensures
        run.step(signal).start == run.start,
        run.step(signal).operation == run.operation,
{
    match run.react(signal) {
        Some(mid) => {
            lemma_skip(mid);
        },
        None => {},
    }
}

/// Each report that answers the pending directive brings the run strictly
/// closer to its end, so a driver that follows the directives is told to
/// return after a bounded number of reports; once told to return, the run no
/// longer changes.
pub proof fn law_answered_directive_makes_progress(run: RunView, signal: SignalView)
    requires
        run.wf(),
    ensures
        run.react(signal) is Some ==> run.step(signal).stage.rank() < run.stage.rank(),
        run.react(signal) is None ==> run.step(signal) == run,
        run.stage is Done ==> run.step(signal) == run,
        run.stage.rank() <= 6,
{
    match run.react(signal) {
        Some(mid) => {
            lemma_skip(mid);
        },
        None => {},
    }
}

/// A run fails only when the host reports a failure.
pub proof fn law_failure_needs_a_failed_report(run: RunView, signal: SignalView)
    requires
        run.wf(),
        run.failure is None,
        !signal.is_failure(),
    ensures
        run.step(signal).failure is None,
{
    match run.react(signal) {
        Some(mid) => {
            lemma_skip(mid);
        },
        None => {},
    }
}

/// A step is handed to the driver only when the operation was needed on it
/// at the beginning of the run: executing skips what is completed already,
/// and reverting undoes only what is completed.
pub proof fn law_only_needed_steps_reach_the_host(run: RunView, step: Step)
    requires
        run.wf(),
        run.pending() == Directive::Run(step, run.operation) || run.pending() == Directive::Spawn(
            step,
            run.operation,
        ),
    ensures
        run.operation.needed(run.start.state_of(step)),
        run.action.state_of(step) == run.start.state_of(step),
{
}

/// Only the fetch ever runs in the background, and never twice at a time: it
/// is started only while no task is outstanding, and a task is waited for or
/// cancelled only while one is.
pub proof fn law_one_background_task(run: RunView)
    requires
        run.wf(),
    ensures
        forall|step: Step| run.pending() == Directive::Spawn(step, run.operation) ==> step
            == Step::FetchNix && !run.spawned,
        run.pending() == Directive::Join || run.pending() == Directive::Abort ==> run.spawned,
        forall|step: Step| run.pending() == Directive::Run(step, run.operation) ==> step
            != Step::FetchNix,
{
}

/// The move is handed to the driver only once the fetch is through: by then
/// no background task is outstanding, and the fetch is where the operation
/// aims, or was so when the run began.
pub proof fn law_move_follows_the_fetch(run: RunView)
    requires
        run.wf(),
        run.pending() == Directive::Run(Step::MoveUnpackedNix, run.operation),
    ensures
        !run.spawned,
        run.failure is None,
        run.action.state_of(Step::FetchNix) == target(
            run.operation,
            run.start.state_of(Step::FetchNix),
        ),
        !run.operation.needed(run.action.state_of(Step::FetchNix)),
        !run.operation.needed(run.action.state_of(Step::CreateUsersAndGroup)),
        !run.operation.needed(run.action.state_of(Step::CreateNixTree)),
{
}

/// After a successful operation the action is in the state that the operation
/// aims at, and so is every step on which the operation was needed; the other
/// steps are as the run found them. In particular every step is completed
/// after a successful execution, and none is after a successful revert.
pub proof fn law_success_reaches_the_target(run: RunView)
    requires
        run.wf(),
        run.stage is Done,
        run.failure is None,
    ensures
        run.action.action_state == run.operation.success(),
        forall|step: Step| #[trigger]
            run.action.state_of(step) == target(run.operation, run.start.state_of(step)),
        forall|step: Step| !run.operation.needed(#[trigger] run.action.state_of(step)),
        run.operation == Operation::Execute ==> forall|step: Step| #[trigger]
            run.action.state_of(step) == ActionState::Completed,
        !run.spawned,
{
    assert forall|step: Step| #[trigger]
        run.action.state_of(step) == target(run.operation, run.start.state_of(step)) by {
        assert(run.action.state_of(step) == run.expected_state(step));
    }
}

/// The action is marked with the result of an operation only when the run is
/// done: until then it keeps the state in which the run found it.
pub proof fn law_action_state_changes_at_the_end(run: RunView)
    requires
        run.wf(),
    ensures
        !(run.stage is Done) ==> run.action.action_state == run.start.action_state,
        run.stage is Done && run.failure is Some ==> run.action.action_state
            == ActionState::Failed,
        run.stage is Done && run.failure is None ==> run.action.action_state
            == run.operation.success(),
{
}

/// When a step fails, the steps that come after it in the script are never
/// handed to the driver and keep the state in which the run found them; the
/// steps before it have been brought to their target.
pub proof fn law_failure_spares_later_steps(run: RunView, step: Step)
    requires
        run.wf(),
        run.failure is Some,
    ensures
        ({
            let failed = stage_of(run.operation, named_step(run.failure->Some_0));
            let at = stage_of(run.operation, step);
            &&& at.rank() < failed.rank() ==> run.action.state_of(step) == run.start.state_of(
                step,
            )
            &&& at.rank() > failed.rank() ==> run.action.state_of(step) == target(
                run.operation,
                run.start.state_of(step),
            )
            &&& run.pending() != Directive::Run(step, run.operation)
            &&& run.pending() != Directive::Spawn(step, run.operation)
        }),
{
    assert(run.action.state_of(step) == run.expected_state(step));
}

/// A failed execution can be reverted: a revert that begins with the action
/// as an execution left it, and that ends without error, has undone exactly
/// the steps that were completed, and has left the others alone: the step
/// that failed stays failed, and a step after it that the execution found
/// not completed is as the execution found it.
pub proof fn law_revert_undoes_what_was_completed(executed: RunView, reverted: RunView)
    requires
        executed.wf(),
        executed.operation == Operation::Execute,
        executed.stage is Done,
        reverted.wf(),
        reverted.operation == Operation::Revert,
        reverted.start == executed.action,
        reverted.stage is Done,
        reverted.failure is None,
    ensures
        reverted.action.action_state == ActionState::Uncompleted,
        forall|step: Step| #[trigger]
            reverted.action.state_of(step) == if executed.action.state_of(step)
                == ActionState::Completed {
                ActionState::Uncompleted
            } else {
                executed.action.state_of(step)
            },
        forall|step: Step|
            executed.failure is Some && stage_of(Operation::Execute, step).rank() < stage_of(
                Operation::Execute,
                named_step(executed.failure->Some_0),
            ).rank() && executed.start.state_of(step) != ActionState::Completed
                ==> #[trigger] reverted.action.state_of(step) == executed.start.state_of(step),
        executed.failure is Some && !(executed.failure->Some_0 is Join)
            ==> reverted.action.state_of(named_step(executed.failure->Some_0))
            == ActionState::Failed,
{
    assert forall|step: Step| #[trigger]
        reverted.action.state_of(step) == if executed.action.state_of(step)
            == ActionState::Completed {
            ActionState::Uncompleted
        } else {
            executed.action.state_of(step)
        } by {
        assert(reverted.action.state_of(step) == reverted.expected_state(step));
    }
    assert forall|step: Step|
        executed.failure is Some && stage_of(Operation::Execute, step).rank() < stage_of(
            Operation::Execute,
            named_step(executed.failure->Some_0),
        ).rank() && executed.start.state_of(step) != ActionState::Completed
            implies #[trigger] reverted.action.state_of(step) == executed.start.state_of(
        step,
    ) by {
        assert(reverted.action.state_of(step) == reverted.expected_state(step));
        assert(executed.action.state_of(step) == executed.expected_state(step));
    }
    if executed.failure is Some {
        let step = named_step(executed.failure->Some_0);
        assert(reverted.action.state_of(step) == reverted.expected_state(step));
        assert(executed.action.state_of(step) == executed.expected_state(step));
    }
}

/// When a step of a revert fails while the fetch is being reverted in the
/// background, the run asks for the background task to be cancelled, takes
/// nothing but the report of the cancellation for an answer, and only then
/// returns: with the error of the step that failed, not with one of the
/// cancelled task.
pub proof fn law_failed_revert_cancels_the_background_task(
    run: RunView,
    report: Seq<char>,
    answer: SignalView,
)
    requires
        run.wf(),
        run.operation == Operation::Revert,
        run.stage is First || run.stage is Second,
        run.spawned,
    ensures
        ({
            let failed = run.step(SignalView::Ran(Err(report)));
            let error = failure_of(step_at(Operation::Revert, run.stage), report);
            &&& failed.pending() == Directive::Abort
            &&& failed.failure == Some(error)
            &&& !(error is Join)
            &&& answer != SignalView::Aborted ==> failed.step(answer) == failed
            &&& failed.step(SignalView::Aborted).pending() == Directive::Return
            &&& failed.step(SignalView::Aborted).failure == Some(error)
            &&& !failed.step(SignalView::Aborted).spawned
        }),
{
    let mid = run.react(SignalView::Ran(Err(report)))->Some_0;
    lemma_skip(mid);
    let failed = run.step(SignalView::Ran(Err(report)));
    lemma_step_wf(run, SignalView::Ran(Err(report)));
    let end = failed.react(SignalView::Aborted)->Some_0;
    lemma_skip(end);
}

/// An execution never cancels the background task: when a step beside the
/// fetch fails, the run returns at once and leaves the fetch to itself.
pub proof fn law_failed_execution_leaves_the_fetch_alone(run: RunView, report: Seq<char>)
    requires
        run.wf(),
        run.operation == Operation::Execute,
    ensures
        run.pending() != Directive::Abort,
        run.stage is First || run.stage is Second ==> ({
            let failed = run.step(SignalView::Ran(Err(report)));
            &&& failed.pending() == Directive::Return
            &&& failed.failure == Some(failure_of(step_at(Operation::Execute, run.stage), report))
            &&& failed.spawned == run.spawned
            &&& failed.action.state_of(Step::FetchNix) == run.start.state_of(Step::FetchNix)
        }),
{
    if run.stage is First || run.stage is Second {
        let mid = run.react(SignalView::Ran(Err(report)))->Some_0;
        lemma_skip(mid);
    }
}

/// Executing an action whose steps are all completed asks nothing of the
/// host and succeeds at once.
pub proof fn law_completed_steps_are_not_executed_again(action: ProvisionNixView)
    requires
        forall|step: Step| #[trigger] action.state_of(step) == ActionState::Completed,
    ensures
        RunView::begin(action, Operation::Execute).pending() == Directive::Return,
        RunView::begin(action, Operation::Execute).failure is None,
        RunView::begin(action, Operation::Execute).action == (ProvisionNixView {
            action_state: ActionState::Completed,
            ..action
        }),
{
    let start = RunView {
        start: action,
        action,
        operation: Operation::Execute,
        stage: Stage::Spawn,
        spawned: false,
        failure: None,
    };
    assert(action.state_of(Step::FetchNix) == ActionState::Completed);
    assert(action.state_of(Step::CreateUsersAndGroup) == ActionState::Completed);
    assert(action.state_of(Step::CreateNixTree) == ActionState::Completed);
    assert(action.state_of(Step::MoveUnpackedNix) == ActionState::Completed);
    reveal_with_fuel(RunView::skip, 7);
}

} // verus!
