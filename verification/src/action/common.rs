//! The steps that prepare the host for Nix: its build users and group, and
//! the directory tree under `/nix`.

pub mod provision_nix;

use crate::action::base::single_description;
use crate::action::{framed, Action, ActionDescription, ActionDescriptionView, ActionState};
use crate::settings::{CommonSettings, CommonSettingsView};
use vstd::prelude::*;

verus! {

/// Why creating the build users and their group did not succeed.
#[derive(Debug)]
pub enum CreateUsersAndGroupError {
    /// The host reported a failure; carries its report.
    Host(String),
}

/// The mathematical content of a [`CreateUsersAndGroupError`].
pub enum CreateUsersAndGroupErrorView {
    Host(Seq<char>),
}

impl View for CreateUsersAndGroupError {
    type V = CreateUsersAndGroupErrorView;

    open spec fn view(&self) -> CreateUsersAndGroupErrorView {
        match self {
            CreateUsersAndGroupError::Host(report) => CreateUsersAndGroupErrorView::Host(report@),
        }
    }
}

impl CreateUsersAndGroupErrorView {
    /// What a human is told about the error.
    pub open spec fn message(self) -> Seq<char> {
        match self {
            CreateUsersAndGroupErrorView::Host(report) => report,
        }
    }
}

impl CreateUsersAndGroupError {
    /// What a human is told about the error.
    pub fn message(&self) -> (text: String)
        ensures
            text@ == self@.message(),
    {
        match self {
            CreateUsersAndGroupError::Host(report) => report.clone(),
        }
    }
}

/// Creates the build users and the group that owns them.
#[derive(Debug)]
pub struct CreateUsersAndGroup {
    pub settings: CommonSettings,
    pub action_state: ActionState,
}

/// The mathematical content of a [`CreateUsersAndGroup`].
pub struct CreateUsersAndGroupView {
    pub settings: CommonSettingsView,
    pub action_state: ActionState,
}

impl CreateUsersAndGroupView {
    pub open spec fn synopsis(self) -> Seq<char> {
        "Create build users and group"@
    }

    pub open spec fn describes_execute(self) -> Seq<ActionDescriptionView> {
        seq![
            ActionDescriptionView {
                synopsis: self.synopsis(),
                explanation: seq![
                    "Create the group `"@ + self.settings.nix_build_group_name
                        + "` and its build users"@,
                ],
            },
        ]
    }

    pub open spec fn describes_revert(self) -> Seq<ActionDescriptionView> {
        seq![
            ActionDescriptionView {
                synopsis: "Remove build users and group"@,
                explanation: seq![
                    "Remove the group `"@ + self.settings.nix_build_group_name
                        + "` and its build users"@,
                ],
            },
        ]
    }
}

impl View for CreateUsersAndGroup {
    type V = CreateUsersAndGroupView;

    open spec fn view(&self) -> CreateUsersAndGroupView {
        CreateUsersAndGroupView { settings: self.settings@, action_state: self.action_state }
    }
}

impl CreateUsersAndGroup {
    /// Plans the creation of the users and group that `settings` asks for.
    /// Nothing on the host is touched, and the plan is never refused.
    pub fn plan(settings: CommonSettings) -> (planned: Result<Self, CreateUsersAndGroupError>)
        ensures
            planned is Ok,
            planned->Ok_0@ == (CreateUsersAndGroupView {
                settings: settings@,
                action_state: ActionState::Uncompleted,
            }),
    {
        Ok(CreateUsersAndGroup { settings, action_state: ActionState::Uncompleted })
    }
}

impl Action for CreateUsersAndGroup {
    open spec fn state(&self) -> ActionState {
        self.action_state
    }

    open spec fn synopsis(&self) -> Seq<char> {
        self@.synopsis()
    }

    open spec fn describes_execute(&self) -> Seq<ActionDescriptionView> {
        self@.describes_execute()
    }

    open spec fn describes_revert(&self) -> Seq<ActionDescriptionView> {
        self@.describes_revert()
    }

    fn tracing_synopsis(&self) -> (synopsis: String) {
        String::from_str("Create build users and group")
    }

    fn execute_description(&self) -> (descriptions: Vec<ActionDescription>) {
        single_description(
            self.tracing_synopsis(),
            framed(
                "Create the group `",
                &self.settings.nix_build_group_name,
                "` and its build users",
            ),
        )
    }

    fn revert_description(&self) -> (descriptions: Vec<ActionDescription>) {
        single_description(
            String::from_str("Remove build users and group"),
            framed(
                "Remove the group `",
                &self.settings.nix_build_group_name,
                "` and its build users",
            ),
        )
    }

    fn action_state(&self) -> (state: ActionState) {
        self.action_state
    }

    fn set_action_state(&mut self, action_state: ActionState)
        ensures
            final(self)@ == (CreateUsersAndGroupView { action_state, ..old(self)@ }),
    {
        self.action_state = action_state;
    }
}

/// Why creating the directory tree under `/nix` did not succeed.
#[derive(Debug)]
pub enum CreateNixTreeError {
    /// The host reported a failure; carries its report.
    Host(String),
}

/// The mathematical content of a [`CreateNixTreeError`].
pub enum CreateNixTreeErrorView {
    Host(Seq<char>),
}

impl View for CreateNixTreeError {
    type V = CreateNixTreeErrorView;

    open spec fn view(&self) -> CreateNixTreeErrorView {
        match self {
            CreateNixTreeError::Host(report) => CreateNixTreeErrorView::Host(report@),
        }
    }
}

impl CreateNixTreeErrorView {
    /// What a human is told about the error.
    pub open spec fn message(self) -> Seq<char> {
        match self {
            CreateNixTreeErrorView::Host(report) => report,
        }
    }
}

impl CreateNixTreeError {
    /// What a human is told about the error.
    pub fn message(&self) -> (text: String)
        ensures
            text@ == self@.message(),
    {
        match self {
            CreateNixTreeError::Host(report) => report.clone(),
        }
    }
}

/// Creates the directory tree that Nix lives in.
#[derive(Debug)]
pub struct CreateNixTree {
    pub action_state: ActionState,
}

/// The mathematical content of a [`CreateNixTree`].
pub struct CreateNixTreeView {
    pub action_state: ActionState,
}

impl CreateNixTreeView {
    pub open spec fn synopsis(self) -> Seq<char> {
        "Create a directory tree in `/nix`"@
    }

    pub open spec fn describes_execute(self) -> Seq<ActionDescriptionView> {
        seq![
            ActionDescriptionView {
                synopsis: self.synopsis(),
                explanation: seq!["Create the directories that hold the Nix store and state"@],
            },
        ]
    }

    pub open spec fn describes_revert(self) -> Seq<ActionDescriptionView> {
        seq![
            ActionDescriptionView {
                synopsis: "Remove the directory tree in `/nix`"@,
                explanation: seq!["Remove the directories that hold the Nix store and state"@],
            },
        ]
    }
}

impl View for CreateNixTree {
    type V = CreateNixTreeView;

    open spec fn view(&self) -> CreateNixTreeView {
        CreateNixTreeView { action_state: self.action_state }
    }
}

impl CreateNixTree {
    /// Plans the creation of the directory tree. Nothing on the host is
    /// touched, and the plan is never refused.
    pub fn plan() -> (planned: Result<Self, CreateNixTreeError>)
        ensures
            planned is Ok,
            planned->Ok_0@ == (CreateNixTreeView { action_state: ActionState::Uncompleted }),
    {
        Ok(CreateNixTree { action_state: ActionState::Uncompleted })
    }
}

impl Action for CreateNixTree {
    open spec fn state(&self) -> ActionState {
        self.action_state
    }

    open spec fn synopsis(&self) -> Seq<char> {
        self@.synopsis()
    }

    open spec fn describes_execute(&self) -> Seq<ActionDescriptionView> {
        self@.describes_execute()
    }

    open spec fn describes_revert(&self) -> Seq<ActionDescriptionView> {
        self@.describes_revert()
    }

    fn tracing_synopsis(&self) -> (synopsis: String) {
        String::from_str("Create a directory tree in `/nix`")
    }

    fn execute_description(&self) -> (descriptions: Vec<ActionDescription>) {
        single_description(
            self.tracing_synopsis(),
            String::from_str("Create the directories that hold the Nix store and state"),
        )
    }

    fn revert_description(&self) -> (descriptions: Vec<ActionDescription>) {
        single_description(
            String::from_str("Remove the directory tree in `/nix`"),
            String::from_str("Remove the directories that hold the Nix store and state"),
        )
    }

    fn action_state(&self) -> (state: ActionState) {
        self.action_state
    }

    fn set_action_state(&mut self, action_state: ActionState)
        ensures
            final(self)@ == (CreateNixTreeView { action_state, ..old(self)@ }),
    {
        self.action_state = action_state;
    }
}

} // verus!
