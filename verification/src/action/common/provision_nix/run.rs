//! Executing and reverting the provisioning of Nix, one decision at a time.
//!
//! The work on the host is done by a driver outside this library. A [`Run`]
//! tells the driver what to do next (a [`Directive`]), the driver does it and
//! reports how it went (a [`Signal`]), and the run decides what follows. The
//! run owns the action for as long as it lasts.

use crate::action::base::{FetchNixError, FetchNixErrorView, MoveUnpackedNixError, MoveUnpackedNixErrorView};
use crate::action::common::provision_nix::{
    JoinError, ProvisionNix, ProvisionNixError, ProvisionNixErrorView, ProvisionNixView,
};
use crate::action::common::{
    CreateNixTreeError, CreateNixTreeErrorView, CreateUsersAndGroupError,
    CreateUsersAndGroupErrorView,
};
use crate::action::{Action, ActionState, Operation};
use vstd::prelude::*;

verus! {

/// The four steps that provisioning Nix is made of.
#[derive(Clone, Copy, Debug, PartialEq, Eq, Structural)]
pub enum Step {
    FetchNix,
    CreateUsersAndGroup,
    CreateNixTree,
    MoveUnpackedNix,
}

/// Where a run stands in its script. The script goes from `Spawn` through
/// `First`, `Second`, `Join` and `Last` to `Done`; `Abort` is entered only when
/// a step of a revert fails, and leads to `Done`.
#[derive(Clone, Copy, Debug, PartialEq, Eq, Structural)]
pub enum Stage {
    /// The fetch step is to be started in the background.
    Spawn,
    /// The first of the two steps that run beside the background step.
    First,
    /// The second of the two steps that run beside the background step.
    Second,
    /// The background step is to be waited for.
    Join,
    /// The move step, which needs what the background step produced.
    Last,
    /// The background step is to be cancelled.
    Abort,
    /// Nothing is left to do.
    Done,
}

/// What the driver is asked to do next.
#[derive(Clone, Copy, Debug, PartialEq, Eq, Structural)]
pub enum Directive {
    /// Start the operation on the step as a background task, and keep its handle.
    Spawn(Step, Operation),
    /// Perform the operation on the step now, and wait for it.
    Run(Step, Operation),
    /// Wait for the background task.
    Join,
    /// Cancel the background task.
    Abort,
    /// Stop: the run has its result.
    Return,
}

/// What the driver reports after it has followed a directive.
#[derive(Debug)]
pub enum Signal {
    /// The background task was started.
    Spawned,
    /// The step was performed; on failure, with the host's report.
    Ran(Result<(), String>),
    /// The background task was waited for: it ended with the step's own
    /// outcome, or without one.
    Joined(Result<Result<(), String>, JoinError>),
    /// The background task was cancelled.
    Aborted,
}

/// The mathematical content of a [`Signal`].
pub enum SignalView {
    Spawned,
    Ran(Result<(), Seq<char>>),
    Joined(Result<Result<(), Seq<char>>, JoinError>),
    Aborted,
}

/// The mathematical content of a step's outcome.
pub open spec fn outcome_view(outcome: Result<(), String>) -> Result<(), Seq<char>> {
    match outcome {
        Ok(_) => Ok(()),
        Err(report) => Err(report@),
    }
}

impl View for Signal {
    type V = SignalView;

    open spec fn view(&self) -> SignalView {
        match self {
            Signal::Spawned => SignalView::Spawned,
            Signal::Ran(outcome) => SignalView::Ran(outcome_view(*outcome)),
            Signal::Joined(Ok(outcome)) => SignalView::Joined(Ok(outcome_view(*outcome))),
            Signal::Joined(Err(error)) => SignalView::Joined(Err(*error)),
            Signal::Aborted => SignalView::Aborted,
        }
    }
}

impl Stage {
    /// How many stages of the script lie ahead at most.
    pub open spec fn rank(self) -> nat {
        match self {
            Stage::Spawn => 6,
            Stage::First => 5,
            Stage::Second => 4,
            Stage::Join => 3,
            Stage::Last => 2,
            Stage::Abort => 1,
            Stage::Done => 0,
        }
    }

    /// The stage that follows this one in the script.
    pub open spec fn next(self) -> Stage {
        match self {
            Stage::Spawn => Stage::First,
            Stage::First => Stage::Second,
            Stage::Second => Stage::Join,
            Stage::Join => Stage::Last,
            Stage::Last => Stage::Done,
            Stage::Abort => Stage::Done,
            Stage::Done => Stage::Done,
        }
    }

    fn succ(self) -> (next: Stage)
        ensures
            next == self.next(),
    {
        match self {
            Stage::Spawn => Stage::First,
            Stage::First => Stage::Second,
            Stage::Second => Stage::Join,
            Stage::Join => Stage::Last,
            Stage::Last => Stage::Done,
            Stage::Abort => Stage::Done,
            Stage::Done => Stage::Done,
        }
    }
}

/// The step that a stage is about. Executing creates users and group before
/// the directory tree; reverting undoes them in the opposite order. The
/// background step is always the fetch, and the last step always the move.
pub open spec fn step_at(operation: Operation, stage: Stage) -> Step {
    match stage {
        Stage::First => match operation {
            Operation::Execute => Step::CreateUsersAndGroup,
            Operation::Revert => Step::CreateNixTree,
        },
        Stage::Second => match operation {
            Operation::Execute => Step::CreateNixTree,
            Operation::Revert => Step::CreateUsersAndGroup,
        },
        Stage::Last => Step::MoveUnpackedNix,
        _ => Step::FetchNix,
    }
}

fn step_for(operation: Operation, stage: Stage) -> (step: Step)
    ensures
        step == step_at(operation, stage),
{
    match stage {
        Stage::First => match operation {
            Operation::Execute => Step::CreateUsersAndGroup,
            Operation::Revert => Step::CreateNixTree,
        },
        Stage::Second => match operation {
            Operation::Execute => Step::CreateNixTree,
            Operation::Revert => Step::CreateUsersAndGroup,
        },
        Stage::Last => Step::MoveUnpackedNix,
        _ => Step::FetchNix,
    }
}

/// The error that a run stops with when `step` fails with the host's `report`.
pub open spec fn failure_of(step: Step, report: Seq<char>) -> ProvisionNixErrorView {
    match step {
        Step::FetchNix => ProvisionNixErrorView::FetchNix(FetchNixErrorView::Host(report)),
        Step::CreateUsersAndGroup => ProvisionNixErrorView::CreateUsersAndGroup(
            CreateUsersAndGroupErrorView::Host(report),
        ),
        Step::CreateNixTree => ProvisionNixErrorView::CreateNixTree(
            CreateNixTreeErrorView::Host(report),
        ),
        Step::MoveUnpackedNix => ProvisionNixErrorView::MoveUnpackedNix(
            MoveUnpackedNixErrorView::Host(report),
        ),
    }
}

fn wrap_failure(step: Step, report: String) -> (error: ProvisionNixError)
    ensures
        error@ == failure_of(step, report@),
{
    match step {
        Step::FetchNix => ProvisionNixError::FetchNix(FetchNixError::Host(report)),
        Step::CreateUsersAndGroup => ProvisionNixError::CreateUsersAndGroup(
            CreateUsersAndGroupError::Host(report),
        ),
        Step::CreateNixTree => ProvisionNixError::CreateNixTree(CreateNixTreeError::Host(report)),
        Step::MoveUnpackedNix => ProvisionNixError::MoveUnpackedNix(
            MoveUnpackedNixError::Host(report),
        ),
    }
}

impl ProvisionNixView {
    /// The recorded state of one step.
    pub open spec fn state_of(self, step: Step) -> ActionState {
        match step {
            Step::FetchNix => self.fetch_nix.action_state,
            Step::CreateUsersAndGroup => self.create_users_and_group.action_state,
            Step::CreateNixTree => self.create_nix_tree.action_state,
            Step::MoveUnpackedNix => self.move_unpacked_nix.action_state,
        }
    }

    /// This action with `state` recorded for one step, and nothing else changed.
    pub open spec fn with_state(self, step: Step, state: ActionState) -> ProvisionNixView {
        match step {
            Step::FetchNix => ProvisionNixView {
                fetch_nix: crate::action::base::FetchNixView {
                    action_state: state,
                    ..self.fetch_nix
                },
                ..self
            },
            Step::CreateUsersAndGroup => ProvisionNixView {
                create_users_and_group: crate::action::common::CreateUsersAndGroupView {
                    action_state: state,
                    ..self.create_users_and_group
                },
                ..self
            },
            Step::CreateNixTree => ProvisionNixView {
                create_nix_tree: crate::action::common::CreateNixTreeView { action_state: state },
                ..self
            },
            Step::MoveUnpackedNix => ProvisionNixView {
                move_unpacked_nix: crate::action::base::MoveUnpackedNixView {
                    action_state: state,
                    ..self.move_unpacked_nix
                },
                ..self
            },
        }
    }
}

impl ProvisionNix {
    /// The recorded state of one step.
    pub fn state_of(&self, step: Step) -> (state: ActionState)
        ensures
            state == self@.state_of(step),
    {
        match step {
            Step::FetchNix => self.fetch_nix.action_state(),
            Step::CreateUsersAndGroup => self.create_users_and_group.action_state(),
            Step::CreateNixTree => self.create_nix_tree.action_state(),
            Step::MoveUnpackedNix => self.move_unpacked_nix.action_state(),
        }
    }

    fn set_state_of(&mut self, step: Step, state: ActionState)
        ensures
            final(self)@ == old(self)@.with_state(step, state),
    {
        match step {
            Step::FetchNix => self.fetch_nix.set_action_state(state),
            Step::CreateUsersAndGroup => self.create_users_and_group.set_action_state(state),
            Step::CreateNixTree => self.create_nix_tree.set_action_state(state),
            Step::MoveUnpackedNix => self.move_unpacked_nix.set_action_state(state),
        }
    }
}

/// The stage at which the outcome of `step` is recorded: for the fetch, the
/// stage at which its background task is waited for.
pub open spec fn stage_of(operation: Operation, step: Step) -> Stage {
    match step {
        Step::FetchNix => Stage::Join,
        Step::CreateUsersAndGroup => match operation {
            Operation::Execute => Stage::First,
            Operation::Revert => Stage::Second,
        },
        Step::CreateNixTree => match operation {
            Operation::Execute => Stage::Second,
            Operation::Revert => Stage::First,
        },
        Step::MoveUnpackedNix => Stage::Last,
    }
}

/// The step that an error of a run names.
pub open spec fn named_step(error: ProvisionNixErrorView) -> Step {
    match error {
        ProvisionNixErrorView::CreateUsersAndGroup(_) => Step::CreateUsersAndGroup,
        ProvisionNixErrorView::CreateNixTree(_) => Step::CreateNixTree,
        ProvisionNixErrorView::MoveUnpackedNix(_) => Step::MoveUnpackedNix,
        _ => Step::FetchNix,
    }
}

/// The state of a step, found in `before`, once the operation has been
/// through with it successfully: brought to where the operation aims if the
/// operation was needed, left alone otherwise.
pub open spec fn target(operation: Operation, before: ActionState) -> ActionState {
    if operation.needed(before) {
        operation.success()
    } else {
        before
    }
}

/// The mathematical content of a [`Run`].
pub struct RunView {
    /// The action as the run found it.
    pub start: ProvisionNixView,
    /// The action as the run has left it so far.
    pub action: ProvisionNixView,
    /// The direction of the run.
    pub operation: Operation,
    /// Where the run stands.
    pub stage: Stage,
    /// Whether a background task was started and has been neither waited for
    /// nor cancelled.
    pub spawned: bool,
    /// The error that stopped the run, if one did.
    pub failure: Option<ProvisionNixErrorView>,
}

/// Whether `stage` has work for the driver: a step is handed over when the
/// operation is needed on it, the background task is waited for or cancelled
/// when there is one, and a run that is done has its result to return.
pub open spec fn has_work(
    action: ProvisionNixView,
    operation: Operation,
    stage: Stage,
    spawned: bool,
) -> bool {
    match stage {
        Stage::Join | Stage::Abort => spawned,
        Stage::Done => true,
        _ => operation.needed(action.state_of(step_at(operation, stage))),
    }
}

impl RunView {
    /// Whether the stage at which the run stands has work for the driver.
    pub open spec fn needed(self) -> bool {
        has_work(self.action, self.operation, self.stage, self.spawned)
    }

    /// The run moved past every stage that has no work for the driver.
    pub open spec fn skip(self) -> RunView
        decreases self.stage.rank(),
    {
        if self.needed() {
            self
        } else {
            (RunView { stage: self.stage.next(), ..self }).skip()
        }
    }

    /// The run with its result recorded on the action, if it is done: the
    /// state that the operation aims at when no step failed, `Failed` otherwise.
    pub open spec fn conclude(self) -> RunView {
        if self.stage is Done {
            RunView {
                action: ProvisionNixView {
                    action_state: if self.failure is None {
                        self.operation.success()
                    } else {
                        ActionState::Failed
                    },
                    ..self.action
                },
                ..self
            }
        } else {
            self
        }
    }

    /// The run brought to the next stage that has work for the driver.
    pub open spec fn settle(self) -> RunView {
        self.skip().conclude()
    }

    /// The run that `operation` on `action` starts with.
    pub open spec fn begin(action: ProvisionNixView, operation: Operation) -> RunView {
        (RunView {
            start: action,
            action,
            operation,
            stage: Stage::Spawn,
            spawned: false,
            failure: None,
        }).settle()
    }

    /// What the driver is asked to do at the stage at which the run stands.
    pub open spec fn pending(self) -> Directive {
        match self.stage {
            Stage::Spawn => Directive::Spawn(Step::FetchNix, self.operation),
            Stage::Join => Directive::Join,
            Stage::Abort => Directive::Abort,
            Stage::Done => Directive::Return,
            _ => Directive::Run(step_at(self.operation, self.stage), self.operation),
        }
    }

    /// The run right after a step at the current stage ended with `outcome`.
    /// A failure stops the run: a revert goes on to cancel the background
    /// task, an execution leaves it alone.
    pub open spec fn after_step(self, outcome: Result<(), Seq<char>>) -> RunView {
        let step = step_at(self.operation, self.stage);
        let before = self.action.state_of(step);
        match outcome {
            Ok(_) => RunView {
                action: self.action.with_state(step, self.operation.success()),
                stage: self.stage.next(),
                ..self
            },
            Err(report) => RunView {
                action: self.action.with_state(step, self.operation.failure(before)),
                stage: match self.operation {
                    Operation::Execute => Stage::Done,
                    Operation::Revert => Stage::Abort,
                },
                failure: Some(failure_of(step, report)),
                ..self
            },
        }
    }

    /// The run right after the background task was waited for and ended with
    /// `joined`.
    pub open spec fn after_join(
        self,
        joined: Result<Result<(), Seq<char>>, JoinError>,
    ) -> RunView {
        let before = self.action.state_of(Step::FetchNix);
        match joined {
            Ok(Ok(_)) => RunView {
                action: self.action.with_state(Step::FetchNix, self.operation.success()),
                stage: Stage::Last,
                spawned: false,
                ..self
            },
            Ok(Err(report)) => RunView {
                action: self.action.with_state(Step::FetchNix, self.operation.failure(before)),
                stage: Stage::Done,
                spawned: false,
                failure: Some(failure_of(Step::FetchNix, report)),
                ..self
            },
            Err(error) => RunView {
                stage: Stage::Done,
                spawned: false,
                failure: Some(ProvisionNixErrorView::Join(error)),
                ..self
            },
        }
    }

    /// The run right after the driver reported `signal`, before it moves on
    /// to the next stage with work; `None` when the signal does not answer
    /// the pending directive.
    pub open spec fn react(self, signal: SignalView) -> Option<RunView> {
        match (self.stage, signal) {
            (Stage::Spawn, SignalView::Spawned) => Some(
                RunView { stage: Stage::First, spawned: true, ..self },
            ),
            (Stage::First, SignalView::Ran(outcome)) => Some(self.after_step(outcome)),
            (Stage::Second, SignalView::Ran(outcome)) => Some(self.after_step(outcome)),
            (Stage::Last, SignalView::Ran(outcome)) => Some(self.after_step(outcome)),
            (Stage::Join, SignalView::Joined(joined)) => Some(self.after_join(joined)),
            (Stage::Abort, SignalView::Aborted) => Some(
                RunView { stage: Stage::Done, spawned: false, ..self },
            ),
            _ => None,
        }
    }

    /// The run after the driver reported `signal`. A signal that does not
    /// answer the pending directive changes nothing.
    pub open spec fn step(self, signal: SignalView) -> RunView {
        match self.react(signal) {
            Some(run) => run.settle(),
            None => self,
        }
    }

    /// The state that the run has recorded for `step`, told from the state
    /// in which the run found the step, from where the run stands, and from
    /// the failure that stopped it. A step that the run has been through is
    /// at its target; the step that failed is where a failed attempt leaves
    /// it (or untouched, when its task ended without an outcome); a step that
    /// the run has not reached is as the run found it.
    pub open spec fn expected_state(self, step: Step) -> ActionState {
        let before = self.start.state_of(step);
        let at = stage_of(self.operation, step);
        match self.failure {
            None => if at.rank() > self.stage.rank() {
                target(self.operation, before)
            } else {
                before
            },
            Some(error) => {
                let failed = stage_of(self.operation, named_step(error));
                if at.rank() > failed.rank() {
                    target(self.operation, before)
                } else if at == failed && !(error is Join) {
                    self.operation.failure(before)
                } else {
                    before
                }
            },
        }
    }

    /// Whether the run has left everything but the recorded states as it
    /// found it.
    pub open spec fn keeps_settings(self) -> bool {
        &&& self.action.fetch_nix.url == self.start.fetch_nix.url
        &&& self.action.fetch_nix.destination == self.start.fetch_nix.destination
        &&& self.action.create_users_and_group.settings
            == self.start.create_users_and_group.settings
        &&& self.action.move_unpacked_nix.source == self.start.move_unpacked_nix.source
    }

    /// What holds of every run that was begun and advanced by this library:
    /// the run stands at a stage with work for the driver; it has changed
    /// nothing but recorded states; every step has the state that is expected
    /// of it; the action keeps the state in which the run found it until the
    /// run is done, and then shows how the run ended; only a revert cancels,
    /// and only after a failure; a failure ends the run, names a step on which
    /// the operation was needed, and can leave a background task behind only
    /// when it struck beside that task; and a background task is outstanding
    /// exactly from its start until it has been waited for or cancelled.
    pub open spec fn wf(self) -> bool {
        &&& self.needed()
        &&& self.keeps_settings()
        &&& self.action.state_of(Step::FetchNix) == self.expected_state(Step::FetchNix)
        &&& self.action.state_of(Step::CreateUsersAndGroup) == self.expected_state(
            Step::CreateUsersAndGroup,
        )
        &&& self.action.state_of(Step::CreateNixTree) == self.expected_state(Step::CreateNixTree)
        &&& self.action.state_of(Step::MoveUnpackedNix) == self.expected_state(
            Step::MoveUnpackedNix,
        )
        &&& self.action.action_state == if !(self.stage is Done) {
            self.start.action_state
        } else if self.failure is None {
            self.operation.success()
        } else {
            ActionState::Failed
        }
        &&& self.stage is Abort ==> self.operation == Operation::Revert
        &&& self.failure is Some ==> self.stage is Abort || self.stage is Done
        &&& self.stage is Abort ==> self.failure is Some
        &&& self.failure matches Some(error) ==> {
            &&& !(error is CreateDirectory)
            &&& self.operation.needed(self.start.state_of(named_step(error)))
            &&& self.spawned ==> stage_of(self.operation, named_step(error)).rank()
                > Stage::Join.rank()
        }
        &&& self.spawned ==> self.operation.needed(self.start.state_of(Step::FetchNix))
            && self.stage.rank() < Stage::Spawn.rank()
        &&& self.failure is None ==> (self.spawned <==> self.operation.needed(
            self.start.state_of(Step::FetchNix),
        ) && Stage::Join.rank() <= self.stage.rank() < Stage::Spawn.rank())
    }
}

/// Whether `stage` lies on the script from `from` up to, but not including, `to`.
pub open spec fn between(from: Stage, to: Stage, stage: Stage) -> bool {
    &&& to.rank() < stage.rank() <= from.rank()
    &&& stage is Abort ==> from is Abort
}

/// Moving past the stages without work changes nothing but the stage, ends
/// at a stage with work, and passes only stages without work.
pub proof fn lemma_skip(run: RunView)
    ensures
        run.skip() == (RunView { stage: run.skip().stage, ..run }),
        run.skip().needed(),
        run.skip().stage.rank() <= run.stage.rank(),
        run.skip().stage is Abort ==> run.stage is Abort,
        forall|stage: Stage| #[trigger]
            between(run.stage, run.skip().stage, stage) ==> !has_work(
                run.action,
                run.operation,
                stage,
                run.spawned,
            ),
    decreases run.stage.rank(),
{
    if !run.needed() {
        let rest = RunView { stage: run.stage.next(), ..run };
        lemma_skip(rest);
        assert forall|stage: Stage| #[trigger]
            between(run.stage, run.skip().stage, stage) implies !has_work(
            run.action,
            run.operation,
            stage,
            run.spawned,
        ) by {
            if stage != run.stage {
                assert(between(rest.stage, rest.skip().stage, stage));
            }
        }
    }
}

/// A run that has just begun is well formed.
pub proof fn lemma_begin_wf(action: ProvisionNixView, operation: Operation)
    ensures
        RunView::begin(action, operation).wf(),
{
    let start = RunView {
        start: action,
        action,
        operation,
        stage: Stage::Spawn,
        spawned: false,
        failure: None,
    };
    lemma_skip(start);
    let end = start.skip().stage;
    assert(between(start.stage, end, Stage::Spawn) || end is Spawn);
    assert(between(start.stage, end, Stage::First) || end.rank() >= Stage::First.rank());
    assert(between(start.stage, end, Stage::Second) || end.rank() >= Stage::Second.rank());
    assert(between(start.stage, end, Stage::Last) || end.rank() >= Stage::Last.rank());
}

/// Whatever the driver reports, a well-formed run stays well formed.
pub proof fn lemma_step_wf(run: RunView, signal: SignalView)
    requires
        run.wf(),
    ensures
        run.step(signal).wf(),
{
    match run.react(signal) {
        Some(mid) => {
            lemma_skip(mid);
            let end = mid.skip().stage;
            assert(between(mid.stage, end, Stage::First) || end.rank() >= Stage::First.rank()
                || mid.stage.rank() < Stage::First.rank() || mid.stage is Abort);
            assert(between(mid.stage, end, Stage::Second) || end.rank() >= Stage::Second.rank()
                || mid.stage.rank() < Stage::Second.rank() || mid.stage is Abort);
            assert(between(mid.stage, end, Stage::Join) || end.rank() >= Stage::Join.rank()
                || mid.stage.rank() < Stage::Join.rank() || mid.stage is Abort);
            assert(between(mid.stage, end, Stage::Last) || end.rank() >= Stage::Last.rank()
                || mid.stage.rank() < Stage::Last.rank() || mid.stage is Abort);
            assert(between(mid.stage, end, Stage::Abort) || !(mid.stage is Abort) || end is Abort);
        },
        None => {},
    }
}

/// The mathematical content of the error that a run may hold.
pub open spec fn failure_view(failure: Option<ProvisionNixError>) -> Option<
    ProvisionNixErrorView,
> {
    match failure {
        Some(error) => Some(error@),
        None => None,
    }
}

/// An execution or a revert of [`ProvisionNix`] in progress.
pub struct Run {
    start: Ghost<ProvisionNixView>,
    action: ProvisionNix,
    operation: Operation,
    stage: Stage,
    spawned: bool,
    failure: Option<ProvisionNixError>,
}

impl View for Run {
    type V = RunView;

    closed spec fn view(&self) -> RunView {
        RunView {
            start: self.start@,
            action: self.action@,
            operation: self.operation,
            stage: self.stage,
            spawned: self.spawned,
            failure: failure_view(self.failure),
        }
    }
}

/// How a run that is done ended: the action as the run left it, and the
/// result of the operation.
#[derive(Debug)]
pub struct Finished {
    pub action: ProvisionNix,
    pub result: Result<(), ProvisionNixError>,
}

impl Run {
    #[verifier::type_invariant]
    closed spec fn well_formed(self) -> bool {
        self@.wf()
    }

    /// Whether the stage has work for the driver.
    fn stage_needed(
        action: &ProvisionNix,
        operation: Operation,
        stage: Stage,
        spawned: bool,
    ) -> (needed: bool)
        ensures
            needed == has_work(action@, operation, stage, spawned),
    {
        match stage {
            Stage::Join | Stage::Abort => spawned,
            Stage::Done => true,
            _ => operation.is_needed(action.state_of(step_for(operation, stage))),
        }
    }

    /// Builds the run that stands at the next stage with work for the driver.
    fn settled(
        start: Ghost<ProvisionNixView>,
        action: ProvisionNix,
        operation: Operation,
        stage: Stage,
        spawned: bool,
        failure: Option<ProvisionNixError>,
    ) -> (run: Run)
        requires
            (RunView {
                start: start@,
                action: action@,
                operation,
                stage,
                spawned,
                failure: failure_view(failure),
            }).settle().wf(),
        ensures
            run@ == (RunView {
                start: start@,
                action: action@,
                operation,
                stage,
                spawned,
                failure: failure_view(failure),
            }).settle(),
    {
        let ghost from = RunView {
            start: start@,
            action: action@,
            operation,
            stage,
            spawned,
            failure: failure_view(failure),
        };
        let mut action = action;
        let mut stage = stage;
        let mut needed = Self::stage_needed(&action, operation, stage, spawned);
        while !needed
            invariant
                action@ == from.action,
                operation == from.operation,
                spawned == from.spawned,
                needed == (RunView { stage, ..from }).needed(),
                (RunView { stage, ..from }).skip() == from.skip(),
            decreases stage.rank(),
        {
            stage = stage.succ();
            needed = Self::stage_needed(&action, operation, stage, spawned);
        }
        match stage {
            Stage::Done => {
                let state = if failure.is_none() {
                    match operation {
                        Operation::Execute => ActionState::Completed,
                        Operation::Revert => ActionState::Uncompleted,
                    }
                } else {
                    ActionState::Failed
                };
                action.set_action_state(state);
            },
            _ => {},
        }
        Run { start, action, operation, stage, spawned, failure }
    }

    /// What the driver is asked to do next. Once this is `Return`, it stays so.
    pub fn pending(&self) -> (directive: Directive)
        ensures
            directive == self@.pending(),
    {
        match self.stage {
            Stage::Spawn => Directive::Spawn(Step::FetchNix, self.operation),
            Stage::Join => Directive::Join,
            Stage::Abort => Directive::Abort,
            Stage::Done => Directive::Return,
            _ => Directive::Run(step_for(self.operation, self.stage), self.operation),
        }
    }

    /// The action as the run has left it so far.
    pub fn action(&self) -> (action: &ProvisionNix)
        ensures
            action@ == self@.action,
    {
        &self.action
    }

    /// Takes the driver's report on the pending directive and decides what
    /// follows. A report that does not answer the pending directive is ignored.
    pub fn advance(self, signal: Signal) -> (next: Run)
        ensures
            self@.wf(),
            next@ == self@.step(signal@),
            next@.wf(),
    {
        proof {
            use_type_invariant(&self);
            lemma_step_wf(self@, signal@);
        }
        let Run { start, action, operation, stage, spawned, failure } = self;
        let mut action = action;
        match (stage, signal) {
            (Stage::Spawn, Signal::Spawned) => Run::settled(
                start,
                action,
                operation,
                Stage::First,
                true,
                failure,
            ),
            (Stage::First, Signal::Ran(outcome))
            | (Stage::Second, Signal::Ran(outcome))
            | (Stage::Last, Signal::Ran(outcome)) => {
                let step = step_for(operation, stage);
                let before = action.state_of(step);
                match outcome {
                    Ok(_) => {
                        action.set_state_of(step, operation.settle(before, true));
                        Run::settled(start, action, operation, stage.succ(), spawned, failure)
                    },
                    Err(report) => {
                        action.set_state_of(step, operation.settle(before, false));
                        let stage = match operation {
                            Operation::Execute => Stage::Done,
                            Operation::Revert => Stage::Abort,
                        };
                        Run::settled(
                            start,
                            action,
                            operation,
                            stage,
                            spawned,
                            Some(wrap_failure(step, report)),
                        )
                    },
                }
            },
            (Stage::Join, Signal::Joined(joined)) => {
                let before = action.state_of(Step::FetchNix);
                match joined {
                    Ok(Ok(_)) => {
                        action.set_state_of(Step::FetchNix, operation.settle(before, true));
                        Run::settled(start, action, operation, Stage::Last, false, failure)
                    },
                    Ok(Err(report)) => {
                        action.set_state_of(Step::FetchNix, operation.settle(before, false));
                        Run::settled(
                            start,
                            action,
                            operation,
                            Stage::Done,
                            false,
                            Some(wrap_failure(Step::FetchNix, report)),
                        )
                    },
                    Err(error) => Run::settled(
                        start,
                        action,
                        operation,
                        Stage::Done,
                        false,
                        Some(ProvisionNixError::Join(error)),
                    ),
                }
            },
            (Stage::Abort, Signal::Aborted) => Run::settled(
                start,
                action,
                operation,
                Stage::Done,
                false,
                failure,
            ),
            (stage, _) => Run { start, action, operation, stage, spawned, failure },
        }
    }

    /// Whether the run has its result.
    pub fn is_done(&self) -> (done: bool)
        ensures
            done == (self@.stage is Done),
            done == (self@.pending() is Return),
    {
        match self.stage {
            Stage::Done => true,
            _ => false,
        }
    }

    /// Ends a run that is done and hands out the action with the result of
    /// the operation. A run that is not done is handed back unchanged. The
    /// result is `Ok` exactly when no step failed; the action is then in the
    /// state that the operation aims at, and so is every step that the
    /// operation had work for.
    pub fn finish(self) -> (finished: Result<Finished, Run>)
        ensures
            self@.wf(),
            match finished {
                Ok(finished) => {
                    &&& self@.stage is Done
                    &&& finished.action@ == self@.action
                    &&& match finished.result {
                        Ok(_) => self@.failure is None,
                        Err(error) => self@.failure == Some(error@),
                    }
                    &&& finished.result is Ok ==> finished.action@.action_state
                        == self@.operation.success()
                    &&& finished.result is Err ==> finished.action@.action_state
                        == ActionState::Failed
                    &&& finished.result is Ok ==> forall|step: Step|
                        #[trigger] finished.action@.state_of(step) == target(
                            self@.operation,
                            self@.start.state_of(step),
                        )
                },
                Err(run) => !(self@.stage is Done) && run@ == self@,
            },
    {
        proof {
            use_type_invariant(&self);
        }
        match self.stage {
            Stage::Done => {
                let Run { start, action, operation, stage, spawned, failure } = self;
                let result = match failure {
                    Some(error) => Err(error),
                    None => Ok(()),
                };
                Ok(Finished { action, result })
            },
            _ => Err(self),
        }
    }
}

impl ProvisionNix {
    /// Begins the execution of this action. Every step that is not completed
    /// yet is handed to the driver in turn: the fetch in the background, users
    /// and group and then the directory tree beside it, and the move once the
    /// fetch has been waited for. The first failure stops the execution; the
    /// fetch, if it is still running then, is left to itself.
    pub fn execute(self) -> (run: Run)
        ensures
            run@ == RunView::begin(self@, Operation::Execute),
            run@.wf(),
    {
        proof {
            lemma_begin_wf(self@, Operation::Execute);
        }
        Run::settled(Ghost(self@), self, Operation::Execute, Stage::Spawn, false, None)
    }

    /// Begins the revert of this action. Every completed step is handed to
    /// the driver in turn: the fetch in the background, the directory tree and
    /// then users and group beside it, and the move once the fetch has been
    /// waited for. The first failure stops the revert; a fetch that is still
    /// running then is cancelled before the run returns the failure.
    pub fn revert(self) -> (run: Run)
        ensures
            run@ == RunView::begin(self@, Operation::Revert),
            run@.wf(),
    {
        proof {
            lemma_begin_wf(self@, Operation::Revert);
        }
        Run::settled(Ghost(self@), self, Operation::Revert, Stage::Spawn, false, None)
    }
}

} // verus!
