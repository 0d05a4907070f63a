//! Provisioning Nix: one action that sequences the fetch of the archive, the
//! creation of users, group and directory tree, and the move into place.

pub mod laws;
pub mod run;

use crate::action::base::{
    is_absolute, well_formed_url, CreateDirectoryError, CreateDirectoryErrorView, FetchNix,
    FetchNixError, FetchNixErrorView, FetchNixView, MoveUnpackedNix, MoveUnpackedNixError,
    MoveUnpackedNixErrorView, MoveUnpackedNixView,
};
use crate::action::common::{
    CreateNixTree, CreateNixTreeError, CreateNixTreeErrorView, CreateNixTreeView,
    CreateUsersAndGroup, CreateUsersAndGroupError, CreateUsersAndGroupErrorView,
    CreateUsersAndGroupView,
};
use crate::action::{
    append_descriptions, Action, ActionDescription, ActionDescriptionView, ActionState,
};
use crate::settings::{CommonSettings, CommonSettingsView};
use vstd::prelude::*;

verus! {

/// How the task that ran a step in the background ended without a result.
#[derive(Clone, Copy, Debug, PartialEq, Eq, Structural)]
pub enum JoinError {
    /// The task was cancelled before it finished.
    Cancelled,
    /// The task panicked.
    Panicked,
}

impl JoinError {
    /// What a human is told about the error.
    pub open spec fn message_text(self) -> Seq<char> {
        match self {
            JoinError::Cancelled => "The background task was cancelled"@,
            JoinError::Panicked => "The background task panicked"@,
        }
    }

    /// What a human is told about the error.
    pub fn message(&self) -> (text: String)
        ensures
            text@ == self.message_text(),
    {
        match self {
            JoinError::Cancelled => String::from_str("The background task was cancelled"),
            JoinError::Panicked => String::from_str("The background task panicked"),
        }
    }
}

/// Why provisioning Nix could not be planned, or why executing or reverting
/// it stopped. Each variant names the step concerned and keeps its cause.
#[derive(Debug)]
pub enum ProvisionNixError {
    FetchNix(FetchNixError),
    Join(JoinError),
    CreateDirectory(CreateDirectoryError),
    CreateUsersAndGroup(CreateUsersAndGroupError),
    CreateNixTree(CreateNixTreeError),
    MoveUnpackedNix(MoveUnpackedNixError),
}

/// The mathematical content of a [`ProvisionNixError`].
pub enum ProvisionNixErrorView {
    FetchNix(FetchNixErrorView),
    Join(JoinError),
    CreateDirectory(CreateDirectoryErrorView),
    CreateUsersAndGroup(CreateUsersAndGroupErrorView),
    CreateNixTree(CreateNixTreeErrorView),
    MoveUnpackedNix(MoveUnpackedNixErrorView),
}

impl ProvisionNixErrorView {
    /// The line that tells a human which step the error belongs to.
    pub open spec fn message(self) -> Seq<char> {
        match self {
            ProvisionNixErrorView::FetchNix(_) => "Fetching Nix"@,
            ProvisionNixErrorView::Join(_) => "Joining spawned async task"@,
            ProvisionNixErrorView::CreateDirectory(_) => "Creating directory"@,
            ProvisionNixErrorView::CreateUsersAndGroup(_) => "Creating users and group"@,
            ProvisionNixErrorView::CreateNixTree(_) => "Creating nix tree"@,
            ProvisionNixErrorView::MoveUnpackedNix(_) => "Moving unpacked nix"@,
        }
    }
}

impl ProvisionNixErrorView {
    /// What a human is told about the cause that the error keeps.
    pub open spec fn cause(self) -> Seq<char> {
        match self {
            ProvisionNixErrorView::FetchNix(cause) => cause.message(),
            ProvisionNixErrorView::Join(cause) => cause.message_text(),
            ProvisionNixErrorView::CreateDirectory(cause) => cause.message(),
            ProvisionNixErrorView::CreateUsersAndGroup(cause) => cause.message(),
            ProvisionNixErrorView::CreateNixTree(cause) => cause.message(),
            ProvisionNixErrorView::MoveUnpackedNix(cause) => cause.message(),
        }
    }
}

impl View for ProvisionNixError {
    type V = ProvisionNixErrorView;

    open spec fn view(&self) -> ProvisionNixErrorView {
        match self {
            ProvisionNixError::FetchNix(cause) => ProvisionNixErrorView::FetchNix(cause@),
            ProvisionNixError::Join(cause) => ProvisionNixErrorView::Join(*cause),
            ProvisionNixError::CreateDirectory(cause) => ProvisionNixErrorView::CreateDirectory(
                cause@,
            ),
            ProvisionNixError::CreateUsersAndGroup(cause) => {
                ProvisionNixErrorView::CreateUsersAndGroup(cause@)
            },
            ProvisionNixError::CreateNixTree(cause) => ProvisionNixErrorView::CreateNixTree(
                cause@,
            ),
            ProvisionNixError::MoveUnpackedNix(cause) => ProvisionNixErrorView::MoveUnpackedNix(
                cause@,
            ),
        }
    }
}

impl ProvisionNixError {
    /// The line that tells a human which step the error belongs to.
    pub fn message(&self) -> (text: String)
        ensures
            text@ == self@.message(),
    {
        match self {
            ProvisionNixError::FetchNix(_) => String::from_str("Fetching Nix"),
            ProvisionNixError::Join(_) => String::from_str("Joining spawned async task"),
            ProvisionNixError::CreateDirectory(_) => String::from_str("Creating directory"),
            ProvisionNixError::CreateUsersAndGroup(_) => String::from_str(
                "Creating users and group",
            ),
            ProvisionNixError::CreateNixTree(_) => String::from_str("Creating nix tree"),
            ProvisionNixError::MoveUnpackedNix(_) => String::from_str("Moving unpacked nix"),
        }
    }

    /// What a human is told about the cause that the error keeps.
    pub fn cause(&self) -> (text: String)
        ensures
            text@ == self@.cause(),
    {
        match self {
            ProvisionNixError::FetchNix(cause) => cause.message(),
            ProvisionNixError::Join(cause) => cause.message(),
            ProvisionNixError::CreateDirectory(cause) => cause.message(),
            ProvisionNixError::CreateUsersAndGroup(cause) => cause.message(),
            ProvisionNixError::CreateNixTree(cause) => cause.message(),
            ProvisionNixError::MoveUnpackedNix(cause) => cause.message(),
        }
    }
}

/// Provisions Nix on the host. The archive is fetched in the background while
/// users, group and directory tree are created; what was fetched is then moved
/// into place.
#[derive(Debug)]
pub struct ProvisionNix {
    pub fetch_nix: FetchNix,
    pub create_users_and_group: CreateUsersAndGroup,
    pub create_nix_tree: CreateNixTree,
    pub move_unpacked_nix: MoveUnpackedNix,
    pub action_state: ActionState,
}

/// The mathematical content of a [`ProvisionNix`].
pub struct ProvisionNixView {
    pub fetch_nix: FetchNixView,
    pub create_users_and_group: CreateUsersAndGroupView,
    pub create_nix_tree: CreateNixTreeView,
    pub move_unpacked_nix: MoveUnpackedNixView,
    pub action_state: ActionState,
}

/// Where the archive is unpacked before it is moved into place.
pub open spec fn temporary_directory() -> Seq<char> {
    "/nix/temp-install-dir"@
}

impl ProvisionNixView {
    /// What planning from `settings` yields when the plan is accepted.
    pub open spec fn planned(settings: CommonSettingsView) -> ProvisionNixView {
        ProvisionNixView {
            fetch_nix: FetchNixView {
                url: settings.nix_package_url,
                destination: temporary_directory(),
                action_state: ActionState::Uncompleted,
            },
            create_users_and_group: CreateUsersAndGroupView {
                settings,
                action_state: ActionState::Uncompleted,
            },
            create_nix_tree: CreateNixTreeView { action_state: ActionState::Uncompleted },
            move_unpacked_nix: MoveUnpackedNixView {
                source: temporary_directory(),
                action_state: ActionState::Uncompleted,
            },
            action_state: ActionState::Uncompleted,
        }
    }

    /// The descriptions of the four steps in the order in which they are executed.
    pub open spec fn describes_execute(self) -> Seq<ActionDescriptionView> {
        self.fetch_nix.describes_execute() + self.create_users_and_group.describes_execute()
            + self.create_nix_tree.describes_execute() + self.move_unpacked_nix.describes_execute()
    }

    /// The descriptions of the four steps in the reverse of that order.
    pub open spec fn describes_revert(self) -> Seq<ActionDescriptionView> {
        self.move_unpacked_nix.describes_revert() + self.create_nix_tree.describes_revert()
            + self.create_users_and_group.describes_revert() + self.fetch_nix.describes_revert()
    }
}

impl View for ProvisionNix {
    type V = ProvisionNixView;

    open spec fn view(&self) -> ProvisionNixView {
        ProvisionNixView {
            fetch_nix: self.fetch_nix@,
            create_users_and_group: self.create_users_and_group@,
            create_nix_tree: self.create_nix_tree@,
            move_unpacked_nix: self.move_unpacked_nix@,
            action_state: self.action_state,
        }
    }
}

impl ProvisionNix {
    /// Plans the provisioning of Nix from `settings`, step by step in the order
    /// in which the steps depend on each other. Nothing on the host is touched.
    /// The plan is refused exactly when the source location of the archive is
    /// not well formed; the error then names the fetch as the step concerned.
    pub fn plan(settings: &CommonSettings) -> (planned: Result<Self, ProvisionNixError>)
        ensures
            planned is Ok <==> well_formed_url(settings@.nix_package_url),
            planned matches Ok(action) ==> action@ == ProvisionNixView::planned(settings@),
            planned matches Err(error) ==> error@ == ProvisionNixErrorView::FetchNix(
                FetchNixErrorView::MalformedUrl(settings@.nix_package_url),
            ),
    {
        proof {
            reveal_strlit("/nix/temp-install-dir");
        }
        let fetch_nix = match FetchNix::plan(
            settings.nix_package_url.clone(),
            String::from_str("/nix/temp-install-dir"),
        ) {
            Ok(action) => action,
            Err(error) => {
                return Err(ProvisionNixError::FetchNix(error));
            },
        };
        let create_users_and_group = match CreateUsersAndGroup::plan(settings.clone()) {
            Ok(action) => action,
            Err(error) => {
                return Err(ProvisionNixError::CreateUsersAndGroup(error));
            },
        };
        let create_nix_tree = match CreateNixTree::plan() {
            Ok(action) => action,
            Err(error) => {
                return Err(ProvisionNixError::CreateNixTree(error));
            },
        };
        let move_unpacked_nix = match MoveUnpackedNix::plan(
            String::from_str("/nix/temp-install-dir"),
        ) {
            Ok(action) => action,
            Err(error) => {
                return Err(ProvisionNixError::MoveUnpackedNix(error));
            },
        };
        Ok(
            ProvisionNix {
                fetch_nix,
                create_users_and_group,
                create_nix_tree,
                move_unpacked_nix,
                action_state: ActionState::Uncompleted,
            },
        )
    }
}

impl Action for ProvisionNix {
    open spec fn state(&self) -> ActionState {
        self.action_state
    }

    open spec fn synopsis(&self) -> Seq<char> {
        "Provision Nix"@
    }

    open spec fn describes_execute(&self) -> Seq<ActionDescriptionView> {
        self@.describes_execute()
    }

    open spec fn describes_revert(&self) -> Seq<ActionDescriptionView> {
        self@.describes_revert()
    }

    fn tracing_synopsis(&self) -> (synopsis: String) {
        String::from_str("Provision Nix")
    }

    /// The descriptions of the steps, first to last: fetch, users and group,
    /// directory tree, move.
    fn execute_description(&self) -> (descriptions: Vec<ActionDescription>) {
        let mut buf: Vec<ActionDescription> = Vec::new();
        assert(buf.deep_view() =~= Seq::empty());
        append_descriptions(&mut buf, self.fetch_nix.execute_description());
        append_descriptions(&mut buf, self.create_users_and_group.execute_description());
        append_descriptions(&mut buf, self.create_nix_tree.execute_description());
        append_descriptions(&mut buf, self.move_unpacked_nix.execute_description());
        assert(buf.deep_view() =~= self@.describes_execute());
        buf
    }

    /// The descriptions of the steps, last to first: move, directory tree,
    /// users and group, fetch.
    fn revert_description(&self) -> (descriptions: Vec<ActionDescription>) {
        let mut buf: Vec<ActionDescription> = Vec::new();
        assert(buf.deep_view() =~= Seq::empty());
        append_descriptions(&mut buf, self.move_unpacked_nix.revert_description());
        append_descriptions(&mut buf, self.create_nix_tree.revert_description());
        append_descriptions(&mut buf, self.create_users_and_group.revert_description());
        append_descriptions(&mut buf, self.fetch_nix.revert_description());
        assert(buf.deep_view() =~= self@.describes_revert());
        buf
    }

    fn action_state(&self) -> (state: ActionState) {
        self.action_state
    }

    fn set_action_state(&mut self, action_state: ActionState)
        ensures
            final(self)@ == (ProvisionNixView { action_state, ..old(self)@ }),
    {
        self.action_state = action_state;
    }
}

} // verus!
