//! An installation plan: the actions of one installation in the order of
//! their execution, what it tells the user, and which action is next.

use crate::action::common::provision_nix::laws::law_success_reaches_the_target;
use crate::action::common::provision_nix::run::{target, RunView, Step};
use crate::action::record::{
    law_round_trip, read, Record, RecordError, RecordErrorView, RecordView, Tagged, TaggedView,
};
use crate::action::{
    append_descriptions, Action, ActionDescription, ActionDescriptionView, ActionState, Operation,
};
use vstd::prelude::*;

verus! {

impl TaggedView {
    /// The recorded state of the action.
    pub open spec fn state(self) -> ActionState {
        match self {
            TaggedView::FetchNix(action) => action.action_state,
            TaggedView::CreateUsersAndGroup(action) => action.action_state,
            TaggedView::CreateNixTree(action) => action.action_state,
            TaggedView::MoveUnpackedNix(action) => action.action_state,
            TaggedView::ProvisionNix(action) => action.action_state,
        }
    }

    /// The action with another recorded state, and nothing else changed.
    pub open spec fn with_state(self, state: ActionState) -> TaggedView {
        match self {
            TaggedView::FetchNix(action) => TaggedView::FetchNix(
                crate::action::base::FetchNixView { action_state: state, ..action },
            ),
            TaggedView::CreateUsersAndGroup(action) => TaggedView::CreateUsersAndGroup(
                crate::action::common::CreateUsersAndGroupView { action_state: state, ..action },
            ),
            TaggedView::CreateNixTree(action) => TaggedView::CreateNixTree(
                crate::action::common::CreateNixTreeView { action_state: state },
            ),
            TaggedView::MoveUnpackedNix(action) => TaggedView::MoveUnpackedNix(
                crate::action::base::MoveUnpackedNixView { action_state: state, ..action },
            ),
            TaggedView::ProvisionNix(action) => TaggedView::ProvisionNix(
                crate::action::common::provision_nix::ProvisionNixView {
                    action_state: state,
                    ..action
                },
            ),
        }
    }

    /// The one-line summary of the action.
    pub open spec fn synopsis(self) -> Seq<char> {
        match self {
            TaggedView::FetchNix(action) => action.synopsis(),
            TaggedView::CreateUsersAndGroup(action) => action.synopsis(),
            TaggedView::CreateNixTree(action) => action.synopsis(),
            TaggedView::MoveUnpackedNix(action) => action.synopsis(),
            TaggedView::ProvisionNix(_) => "Provision Nix"@,
        }
    }

    /// What executing the action will do.
    pub open spec fn describes_execute(self) -> Seq<ActionDescriptionView> {
        match self {
            TaggedView::FetchNix(action) => action.describes_execute(),
            TaggedView::CreateUsersAndGroup(action) => action.describes_execute(),
            TaggedView::CreateNixTree(action) => action.describes_execute(),
            TaggedView::MoveUnpackedNix(action) => action.describes_execute(),
            TaggedView::ProvisionNix(action) => action.describes_execute(),
        }
    }

    /// What reverting the action will do.
    pub open spec fn describes_revert(self) -> Seq<ActionDescriptionView> {
        match self {
            TaggedView::FetchNix(action) => action.describes_revert(),
            TaggedView::CreateUsersAndGroup(action) => action.describes_revert(),
            TaggedView::CreateNixTree(action) => action.describes_revert(),
            TaggedView::MoveUnpackedNix(action) => action.describes_revert(),
            TaggedView::ProvisionNix(action) => action.describes_revert(),
        }
    }

    /// Whether the action has left something on the host that a revert
    /// would undo: an action without steps when it is completed, the
    /// provisioning of Nix when it or one of its steps is.
    pub open spec fn applied(self) -> bool {
        match self {
            TaggedView::ProvisionNix(action) => {
                ||| action.action_state == ActionState::Completed
                ||| action.fetch_nix.action_state == ActionState::Completed
                ||| action.create_users_and_group.action_state == ActionState::Completed
                ||| action.create_nix_tree.action_state == ActionState::Completed
                ||| action.move_unpacked_nix.action_state == ActionState::Completed
            },
            _ => self.state() == ActionState::Completed,
        }
    }

    /// Whether the plan has to hand the action to the driver for `operation`.
    pub open spec fn due(self, operation: Operation) -> bool {
        match operation {
            Operation::Execute => self.state() != ActionState::Completed,
            Operation::Revert => self.applied(),
        }
    }
}

impl Action for Tagged {
    open spec fn state(&self) -> ActionState {
        self@.state()
    }

    open spec fn synopsis(&self) -> Seq<char> {
        self@.synopsis()
    }

    open spec fn describes_execute(&self) -> Seq<ActionDescriptionView> {
        self@.describes_execute()
    }

    open spec fn describes_revert(&self) -> Seq<ActionDescriptionView> {
        self@.describes_revert()
    }

    fn tracing_synopsis(&self) -> (synopsis: String) {
        match self {
            Tagged::FetchNix(action) => action.tracing_synopsis(),
            Tagged::CreateUsersAndGroup(action) => action.tracing_synopsis(),
            Tagged::CreateNixTree(action) => action.tracing_synopsis(),
            Tagged::MoveUnpackedNix(action) => action.tracing_synopsis(),
            Tagged::ProvisionNix(action) => action.tracing_synopsis(),
        }
    }

    fn execute_description(&self) -> (descriptions: Vec<ActionDescription>) {
        match self {
            Tagged::FetchNix(action) => action.execute_description(),
            Tagged::CreateUsersAndGroup(action) => action.execute_description(),
            Tagged::CreateNixTree(action) => action.execute_description(),
            Tagged::MoveUnpackedNix(action) => action.execute_description(),
            Tagged::ProvisionNix(action) => action.execute_description(),
        }
    }

    fn revert_description(&self) -> (descriptions: Vec<ActionDescription>) {
        match self {
            Tagged::FetchNix(action) => action.revert_description(),
            Tagged::CreateUsersAndGroup(action) => action.revert_description(),
            Tagged::CreateNixTree(action) => action.revert_description(),
            Tagged::MoveUnpackedNix(action) => action.revert_description(),
            Tagged::ProvisionNix(action) => action.revert_description(),
        }
    }

    fn action_state(&self) -> (state: ActionState) {
        match self {
            Tagged::FetchNix(action) => action.action_state(),
            Tagged::CreateUsersAndGroup(action) => action.action_state(),
            Tagged::CreateNixTree(action) => action.action_state(),
            Tagged::MoveUnpackedNix(action) => action.action_state(),
            Tagged::ProvisionNix(action) => action.action_state(),
        }
    }

    fn set_action_state(&mut self, action_state: ActionState)
        ensures
            final(self)@ == old(self)@.with_state(action_state),
    {
        match self {
            Tagged::FetchNix(action) => action.set_action_state(action_state),
            Tagged::CreateUsersAndGroup(action) => action.set_action_state(action_state),
            Tagged::CreateNixTree(action) => action.set_action_state(action_state),
            Tagged::MoveUnpackedNix(action) => action.set_action_state(action_state),
            Tagged::ProvisionNix(action) => action.set_action_state(action_state),
        }
    }
}

impl Tagged {
    /// Whether the plan has to hand the action to the driver for `operation`.
    pub fn is_due(&self, operation: Operation) -> (due: bool)
        ensures
            due == self@.due(operation),
    {
        match operation {
            Operation::Execute => self.action_state() != ActionState::Completed,
            Operation::Revert => match self {
                Tagged::ProvisionNix(action) => {
                    action.action_state == ActionState::Completed
                        || action.fetch_nix.action_state == ActionState::Completed
                        || action.create_users_and_group.action_state == ActionState::Completed
                        || action.create_nix_tree.action_state == ActionState::Completed
                        || action.move_unpacked_nix.action_state == ActionState::Completed
                },
                _ => self.action_state() == ActionState::Completed,
            },
        }
    }
}

impl DeepView for Tagged {
    type V = TaggedView;

    open spec fn deep_view(&self) -> TaggedView {
        self@
    }
}

impl DeepView for Record {
    type V = RecordView;

    open spec fn deep_view(&self) -> RecordView {
        self@
    }
}

/// The actions of one installation, in the order of their execution.
#[derive(Debug)]
pub struct InstallPlan {
    /// The version of the format in which the plan is persisted.
    pub version: u32,
    pub actions: Vec<Tagged>,
}

/// The mathematical content of an [`InstallPlan`].
pub struct InstallPlanView {
    pub version: u32,
    pub actions: Seq<TaggedView>,
}

impl View for InstallPlan {
    type V = InstallPlanView;

    open spec fn view(&self) -> InstallPlanView {
        InstallPlanView { version: self.version, actions: self.actions.deep_view() }
    }
}

/// The persisted form of an [`InstallPlan`].
#[derive(Debug)]
pub struct PlanRecord {
    pub version: u32,
    pub actions: Vec<Record>,
}

/// The mathematical content of a [`PlanRecord`].
pub struct PlanRecordView {
    pub version: u32,
    pub actions: Seq<RecordView>,
}

impl View for PlanRecord {
    type V = PlanRecordView;

    open spec fn view(&self) -> PlanRecordView {
        PlanRecordView { version: self.version, actions: self.actions.deep_view() }
    }
}

/// What executing `actions` will do: the descriptions of the actions, first
/// action first.
pub open spec fn describes_execute(actions: Seq<TaggedView>) -> Seq<ActionDescriptionView>
    decreases actions.len(),
{
    if actions.len() == 0 {
        Seq::empty()
    } else {
        describes_execute(actions.drop_last()) + actions.last().describes_execute()
    }
}

/// What reverting `actions` will do: the descriptions of the actions, last
/// action first.
pub open spec fn describes_revert(actions: Seq<TaggedView>) -> Seq<ActionDescriptionView>
    decreases actions.len(),
{
    if actions.len() == 0 {
        Seq::empty()
    } else {
        actions.last().describes_revert() + describes_revert(actions.drop_last())
    }
}

/// Whether `index` is the place of the action that is next for `operation`:
/// going forward, the first action that is not completed; going backward,
/// the last action that has left something on the host.
pub open spec fn is_next(actions: Seq<TaggedView>, operation: Operation, index: int) -> bool {
    &&& 0 <= index < actions.len()
    &&& actions[index].due(operation)
    &&& match operation {
        Operation::Execute => forall|earlier: int|
            0 <= earlier < index ==> !(#[trigger] actions[earlier]).due(operation),
        Operation::Revert => forall|later: int|
            index < later < actions.len() ==> !(#[trigger] actions[later]).due(operation),
    }
}

/// Whether no action of the plan is left for `operation`.
pub open spec fn none_due(actions: Seq<TaggedView>, operation: Operation) -> bool {
    forall|index: int| 0 <= index < actions.len() ==> !(#[trigger] actions[index]).due(operation)
}

/// The records of `actions`, in their order.
pub open spec fn records(actions: Seq<TaggedView>) -> Seq<RecordView> {
    Seq::new(actions.len(), |i: int| actions[i].record())
}

/// Whether every one of the first `count` records can be read.
pub open spec fn all_read(records: Seq<RecordView>, count: int) -> bool {
    forall|i: int| 0 <= i < count ==> (#[trigger] read(records[i])) is Ok
}

/// What reading `records` gives: the actions that they stand for, or the
/// error of the first record that cannot be read.
pub open spec fn read_all(records: Seq<RecordView>) -> Result<Seq<TaggedView>, RecordErrorView> {
    if all_read(records, records.len() as int) {
        Ok(Seq::new(records.len(), |i: int| read(records[i])->Ok_0))
    } else {
        let first = choose|i: int|
            0 <= i < records.len() && read(records[i]) is Err && all_read(records, i);
        Err(read(records[first])->Err_0)
    }
}

impl InstallPlan {
    /// What executing the plan will do, for a dry run: the descriptions of
    /// the actions, first action first.
    pub fn describe_execute(&self) -> (descriptions: Vec<ActionDescription>)
        ensures
            descriptions.deep_view() == describes_execute(self@.actions),
    {
        let mut buf: Vec<ActionDescription> = Vec::new();
        assert(buf.deep_view() =~= Seq::<ActionDescriptionView>::empty());
        assert(self@.actions.subrange(0, 0) =~= Seq::<TaggedView>::empty());
        let mut i: usize = 0;
        while i < self.actions.len()
            invariant
                i <= self.actions.len(),
                buf.deep_view() == describes_execute(self@.actions.subrange(0, i as int)),
            decreases self.actions.len() - i,
        {
            append_descriptions(&mut buf, self.actions[i].execute_description());
            proof {
                let grown = self@.actions.subrange(0, i + 1);
                assert(grown.drop_last() =~= self@.actions.subrange(0, i as int));
                assert(grown.last() == self.actions[i as int]@);
            }
            i += 1;
        }
        assert(self@.actions.subrange(0, i as int) =~= self@.actions);
        buf
    }

    /// What reverting the plan will do, for a dry run: the descriptions of
    /// the actions, last action first.
    pub fn describe_revert(&self) -> (descriptions: Vec<ActionDescription>)
        ensures
            descriptions.deep_view() == describes_revert(self@.actions),
    {
        let mut buf: Vec<ActionDescription> = Vec::new();
        assert(buf.deep_view() =~= Seq::<ActionDescriptionView>::empty());
        let mut i: usize = self.actions.len();
        assert(self@.actions.subrange(0, i as int) =~= self@.actions);
        while i > 0
            invariant
                i <= self.actions.len(),
                buf.deep_view() + describes_revert(self@.actions.subrange(0, i as int))
                    == describes_revert(self@.actions),
            decreases i,
        {
            let ghost before = buf.deep_view();
            let ghost front = self@.actions.subrange(0, i as int);
            i -= 1;
            append_descriptions(&mut buf, self.actions[i].revert_description());
            proof {
                assert(front.drop_last() =~= self@.actions.subrange(0, i as int));
                assert(front.last() == self.actions[i as int]@);
                assert(buf.deep_view() + describes_revert(self@.actions.subrange(0, i as int))
                    =~= before + describes_revert(front));
            }
        }
        assert(buf.deep_view() =~= buf.deep_view() + Seq::<ActionDescriptionView>::empty());
        buf
    }

    /// The place of the action that is next for `operation`, or none when
    /// the plan has nothing left for it. The answer is told from the states
    /// that the actions record, so a plan that was persisted and read back
    /// goes on where it stood.
    pub fn next(&self, operation: Operation) -> (place: Option<usize>)
        ensures
            match place {
                Some(index) => is_next(self@.actions, operation, index as int),
                None => none_due(self@.actions, operation),
            },
    {
        match operation {
            Operation::Execute => {
                let mut i: usize = 0;
                while i < self.actions.len()
                    invariant
                        i <= self.actions.len(),
                        operation == Operation::Execute,
                        forall|earlier: int|
                            0 <= earlier < i ==> !(#[trigger] self@.actions[earlier]).due(
                                operation,
                            ),
                    decreases self.actions.len() - i,
                {
                    if self.actions[i].is_due(operation) {
                        return Some(i);
                    }
                    i += 1;
                }
                None
            },
            Operation::Revert => {
                let mut i: usize = self.actions.len();
                while i > 0
                    invariant
                        i <= self.actions.len(),
                        operation == Operation::Revert,
                        forall|later: int|
                            i <= later < self.actions.len() ==> !(
                            #[trigger] self@.actions[later]).due(operation),
                    decreases i,
                {
                    i -= 1;
                    if self.actions[i].is_due(operation) {
                        return Some(i);
                    }
                }
                None
            },
        }
    }

    /// Writes the plan to the record under which it is persisted.
    pub fn serialize(&self) -> (record: PlanRecord)
        ensures
            record@.version == self@.version,
            record@.actions == records(self@.actions),
    {
        let mut actions: Vec<Record> = Vec::new();
        let mut i: usize = 0;
        while i < self.actions.len()
            invariant
                i <= self.actions.len(),
                actions.deep_view() == records(self@.actions).subrange(0, i as int),
            decreases self.actions.len() - i,
        {
            let ghost before = actions.deep_view();
            let record = self.actions[i].serialize();
            let ghost written = record@;
            assert(written == records(self@.actions)[i as int]);
            actions.push(record);
            i += 1;
            assert(actions.deep_view() =~= before.push(written));
            assert(actions.deep_view() =~= records(self@.actions).subrange(0, i as int));
        }
        assert(actions.deep_view() =~= records(self@.actions));
        PlanRecord { version: self.version, actions }
    }

    /// Reads a plan back from its record. The record is refused with the
    /// error of its first action that cannot be read.
    pub fn deserialize(record: &PlanRecord) -> (read_back: Result<InstallPlan, RecordError>)
        ensures
            match read_back {
                Ok(plan) => plan@.version == record@.version && read_all(record@.actions) == Ok::<
                    Seq<TaggedView>,
                    RecordErrorView,
                >(plan@.actions),
                Err(error) => read_all(record@.actions) == Err::<
                    Seq<TaggedView>,
                    RecordErrorView,
                >(error@),
            },
    {
        let mut actions: Vec<Tagged> = Vec::new();
        let mut i: usize = 0;
        while i < record.actions.len()
            invariant
                i <= record.actions.len(),
                all_read(record@.actions, i as int),
                actions.deep_view().len() == i,
                forall|j: int|
                    0 <= j < i ==> read(record@.actions[j]) == Ok::<TaggedView, RecordErrorView>(
                        #[trigger] actions.deep_view()[j],
                    ),
            decreases record.actions.len() - i,
        {
            let ghost before = actions.deep_view();
            match Tagged::deserialize(&record.actions[i]) {
                Ok(action) => {
                    let ghost read_back = action@;
                    assert(read(record@.actions[i as int]) == Ok::<TaggedView, RecordErrorView>(
                        read_back,
                    ));
                    actions.push(action);
                    assert(actions.deep_view() =~= before.push(read_back));
                },
                Err(error) => {
                    proof {
                        let all = record@.actions;
                        assert(read(all[i as int]) is Err);
                        assert(!all_read(all, all.len() as int));
                        let first = choose|k: int|
                            0 <= k < all.len() && read(all[k]) is Err && all_read(all, k);
                        assert(first == i) by {
                            if first < i {
                                assert(read(all[first]) is Ok);
                            } else if first > i {
                                assert(read(all[i as int]) is Ok);
                            }
                        }
                    }
                    return Err(error);
                },
            }
            i += 1;
        }
        proof {
            let all = record@.actions;
            assert(actions.deep_view() =~= Seq::new(all.len(), |k: int| read(all[k])->Ok_0));
        }
        Ok(InstallPlan { version: record.version, actions })
    }
}

/// Writing a plan to its record and reading the record back gives the same
/// actions in the same order, each with the same configuration and states.
pub proof fn law_plan_round_trip(actions: Seq<TaggedView>)
    ensures
        read_all(records(actions)) == Ok::<Seq<TaggedView>, RecordErrorView>(actions),
{
    let written = records(actions);
    assert forall|i: int| 0 <= i < written.len() implies (#[trigger] read(written[i])) is Ok
        && read(written[i])->Ok_0 == actions[i] by {
        law_round_trip(actions[i]);
    }
    assert(Seq::new(written.len(), |i: int| read(written[i])->Ok_0) =~= actions);
}

/// Once the action that was next is no longer due, the plan moves on past
/// it: forward when executing, backward when reverting.
pub proof fn law_plan_moves_on(
    actions: Seq<TaggedView>,
    operation: Operation,
    index: int,
    replaced: TaggedView,
    next: int,
)
    requires
        is_next(actions, operation, index),
        !replaced.due(operation),
        is_next(actions.update(index, replaced), operation, next),
    ensures
        operation == Operation::Execute ==> index < next,
        operation == Operation::Revert ==> next < index,
{
    let after = actions.update(index, replaced);
    if next != index {
        assert(after[next] == actions[next]);
    }
}

/// An action on which an operation has succeeded is no longer due for it:
/// an action without steps once the outcome is recorded on it, and the
/// provisioning of Nix once its run has ended without a failure.
pub proof fn law_success_settles_the_action(action: TaggedView, operation: Operation, run: RunView)
    requires
        run.wf(),
        run.stage is Done,
        run.failure is None,
    ensures
        !(action is ProvisionNix) ==> !action.with_state(operation.success()).due(operation),
        !TaggedView::ProvisionNix(run.action).due(run.operation),
{
    law_success_reaches_the_target(run);
    assert(run.action.state_of(Step::FetchNix) == target(
        run.operation,
        run.start.state_of(Step::FetchNix),
    ));
    assert(run.action.state_of(Step::CreateUsersAndGroup) == target(
        run.operation,
        run.start.state_of(Step::CreateUsersAndGroup),
    ));
    assert(run.action.state_of(Step::CreateNixTree) == target(
        run.operation,
        run.start.state_of(Step::CreateNixTree),
    ));
    assert(run.action.state_of(Step::MoveUnpackedNix) == target(
        run.operation,
        run.start.state_of(Step::MoveUnpackedNix),
    ));
}

} // verus!
