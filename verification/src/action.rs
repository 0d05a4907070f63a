//! The vocabulary shared by every installation step: its lifecycle state, the
//! descriptions it shows to the user, and the capability every step offers.

pub mod base;
pub mod common;
pub mod record;

use vstd::prelude::*;

verus! {

/// Whether the side effect of an action is currently applied to the host.
#[derive(Clone, Copy, Debug, PartialEq, Eq, Structural)]
pub enum ActionState {
    /// The side effect is not applied.
    Uncompleted,
    /// The side effect is applied in full.
    Completed,
    /// The last attempt to apply the side effect did not succeed.
    Failed,
}

/// The two directions in which an action can be driven.
#[derive(Clone, Copy, Debug, PartialEq, Eq, Structural)]
pub enum Operation {
    /// Apply the side effect.
    Execute,
    /// Undo the side effect.
    Revert,
}

impl Operation {
    /// Whether an action in `state` has work to do in this direction: anything
    /// but a completed action is executed, and only a completed action is reverted.
    pub open spec fn needed(self, state: ActionState) -> bool {
        match self {
            Operation::Execute => state != ActionState::Completed,
            Operation::Revert => state == ActionState::Completed,
        }
    }

    /// The state an action is in once this operation has succeeded on it.
    pub open spec fn success(self) -> ActionState {
        match self {
            Operation::Execute => ActionState::Completed,
            Operation::Revert => ActionState::Uncompleted,
        }
    }

    /// The state of an action, previously in `before`, on which this operation
    /// was attempted and did not succeed: a failed execution is recorded, while
    /// after a failed revert the side effect still counts as applied.
    pub open spec fn failure(self, before: ActionState) -> ActionState {
        match self {
            Operation::Execute => ActionState::Failed,
            Operation::Revert => before,
        }
    }

    /// The state of an action, previously in `before`, after an attempt whose
    /// success is `ok`.
    pub open spec fn settled(self, before: ActionState, ok: bool) -> ActionState {
        if ok {
            self.success()
        } else {
            self.failure(before)
        }
    }

    /// Decides whether an action in `state` is handed to the host at all.
    pub fn is_needed(self, state: ActionState) -> (needed: bool)
        ensures
            needed == self.needed(state),
    {
        match self {
            Operation::Execute => state != ActionState::Completed,
            Operation::Revert => state == ActionState::Completed,
        }
    }

    /// Computes the state to record after an attempt whose success is `ok`.
    pub fn settle(self, before: ActionState, ok: bool) -> (after: ActionState)
        ensures
            after == self.settled(before, ok),
            ok ==> after == self.success(),
            ok ==> !self.needed(after),
    {
        match self {
            Operation::Execute => if ok {
                ActionState::Completed
            } else {
                ActionState::Failed
            },
            Operation::Revert => if ok {
                ActionState::Uncompleted
            } else {
                before
            },
        }
    }
}

/// One side effect an action will perform, explained to a human.
#[derive(Debug)]
pub struct ActionDescription {
    pub synopsis: String,
    pub explanation: Vec<String>,
}

/// The mathematical content of an [`ActionDescription`].
pub struct ActionDescriptionView {
    pub synopsis: Seq<char>,
    pub explanation: Seq<Seq<char>>,
}

impl View for ActionDescription {
    type V = ActionDescriptionView;

    open spec fn view(&self) -> ActionDescriptionView {
        ActionDescriptionView {
            synopsis: self.synopsis@,
            explanation: self.explanation.deep_view(),
        }
    }
}

impl DeepView for ActionDescription {
    type V = ActionDescriptionView;

    open spec fn deep_view(&self) -> ActionDescriptionView {
        self@
    }
}

impl ActionDescription {
    /// A description with the given title and explanatory lines, in their order.
    pub fn new(synopsis: String, explanation: Vec<String>) -> (description: Self)
        ensures
            description@.synopsis == synopsis@,
            description@.explanation == explanation.deep_view(),
    {
        ActionDescription { synopsis, explanation }
    }
}

/// Appends `more` to `buf`, keeping the order of both.
pub fn append_descriptions(buf: &mut Vec<ActionDescription>, more: Vec<ActionDescription>)
    ensures
        final(buf).deep_view() == old(buf).deep_view() + more.deep_view(),
{
    let mut more = more;
    let ghost before = buf.deep_view();
    let ghost added = more.deep_view();
    buf.append(&mut more);
    assert(buf.deep_view() =~= before + added);
}

/// The capability that every installation step offers, whether it performs one
/// host mutation itself or sequences other steps.
pub trait Action {
    /// The lifecycle state recorded for this action.
    spec fn state(&self) -> ActionState;

    /// The one-line summary of this action.
    spec fn synopsis(&self) -> Seq<char>;

    /// What executing this action will do, in the order in which it is shown.
    spec fn describes_execute(&self) -> Seq<ActionDescriptionView>;

    /// What reverting this action will do, in the order in which it is shown.
    spec fn describes_revert(&self) -> Seq<ActionDescriptionView>;

    /// A one-line summary for log output.
    fn tracing_synopsis(&self) -> (synopsis: String)
        ensures
            synopsis@ == self.synopsis(),
    ;

    /// The side effects that executing this action performs.
    fn execute_description(&self) -> (descriptions: Vec<ActionDescription>)
        ensures
            descriptions.deep_view() == self.describes_execute(),
    ;

    /// The side effects that reverting this action performs.
    fn revert_description(&self) -> (descriptions: Vec<ActionDescription>)
        ensures
            descriptions.deep_view() == self.describes_revert(),
    ;

    /// The recorded lifecycle state.
    fn action_state(&self) -> (state: ActionState)
        ensures
            state == self.state(),
    ;

    /// Records a new lifecycle state and changes nothing else.
    fn set_action_state(&mut self, action_state: ActionState)
        ensures
            final(self).state() == action_state,
            final(self).synopsis() == old(self).synopsis(),
            final(self).describes_execute() == old(self).describes_execute(),
            final(self).describes_revert() == old(self).describes_revert(),
    ;
}

/// Decides whether `action` has to be handed to the host for `operation`: for
/// an execution unless it is completed, for a revert only if it is. An action
/// that is not handed over is left alone, and the operation counts as having
/// succeeded on it.
pub fn needs_work<A: Action>(action: &A, operation: Operation) -> (needed: bool)
    ensures
        needed == operation.needed(action.state()),
{
    operation.is_needed(action.action_state())
}

/// Records on `action` how an attempt of `operation` on the host ended.
pub fn record_outcome<A: Action>(action: &mut A, operation: Operation, ok: bool)
    ensures
        final(action).state() == operation.settled(old(action).state(), ok),
        ok ==> final(action).state() == operation.success(),
        final(action).synopsis() == old(action).synopsis(),
        final(action).describes_execute() == old(action).describes_execute(),
        final(action).describes_revert() == old(action).describes_revert(),
{
    let after = operation.settle(action.action_state(), ok);
    action.set_action_state(after);
}

/// Builds `prefix`, then `value`, then `suffix`, as one string.
pub fn framed(prefix: &str, value: &String, suffix: &str) -> (text: String)
    ensures
        text@ == prefix@ + value@ + suffix@,
{
    String::from_str(prefix).concat(value.as_str()).concat(suffix)
}

} // verus!
