//! The persisted form of actions: a record that names the kind of the action
//! by a tag, and holds its configuration, the records of its steps, and the
//! name of its state. An action is read back from a record by its tag alone.

use crate::action::base::{FetchNix, FetchNixView, MoveUnpackedNix, MoveUnpackedNixView};
use crate::action::common::provision_nix::{ProvisionNix, ProvisionNixView};
use crate::action::common::{
    CreateNixTree, CreateNixTreeView, CreateUsersAndGroup, CreateUsersAndGroupView,
};
use crate::action::ActionState;
use crate::settings::{CommonSettings, CommonSettingsView};
use vstd::prelude::*;

verus! {

/// One value of the configuration of an action.
#[derive(Debug)]
pub enum ConfigValue {
    Text(String),
    Count(u32),
}

/// The mathematical content of a [`ConfigValue`].
pub enum ConfigValueView {
    Text(Seq<char>),
    Count(u32),
}

impl View for ConfigValue {
    type V = ConfigValueView;

    open spec fn view(&self) -> ConfigValueView {
        match self {
            ConfigValue::Text(text) => ConfigValueView::Text(text@),
            ConfigValue::Count(count) => ConfigValueView::Count(*count),
        }
    }
}

impl DeepView for ConfigValue {
    type V = ConfigValueView;

    open spec fn deep_view(&self) -> ConfigValueView {
        self@
    }
}

/// The persisted form of an action without steps of its own.
#[derive(Debug)]
pub struct StepRecord {
    /// The tag that names the kind of the action.
    pub action: String,
    /// The configuration of the action, value by value.
    pub config: Vec<ConfigValue>,
    /// The name of the state of the action.
    pub action_state: String,
}

/// The mathematical content of a [`StepRecord`].
pub struct StepRecordView {
    pub action: Seq<char>,
    pub config: Seq<ConfigValueView>,
    pub action_state: Seq<char>,
}

impl View for StepRecord {
    type V = StepRecordView;

    open spec fn view(&self) -> StepRecordView {
        StepRecordView {
            action: self.action@,
            config: self.config.deep_view(),
            action_state: self.action_state@,
        }
    }
}

impl DeepView for StepRecord {
    type V = StepRecordView;

    open spec fn deep_view(&self) -> StepRecordView {
        self@
    }
}

/// The persisted form of an action, with the records of its steps if it has any.
#[derive(Debug)]
pub struct Record {
    /// The tag that names the kind of the action.
    pub action: String,
    /// The configuration of the action, value by value.
    pub config: Vec<ConfigValue>,
    /// The records of the steps of the action, in the order of their execution.
    pub steps: Vec<StepRecord>,
    /// The name of the state of the action.
    pub action_state: String,
}

/// The mathematical content of a [`Record`].
pub struct RecordView {
    pub action: Seq<char>,
    pub config: Seq<ConfigValueView>,
    pub steps: Seq<StepRecordView>,
    pub action_state: Seq<char>,
}

impl View for Record {
    type V = RecordView;

    open spec fn view(&self) -> RecordView {
        RecordView {
            action: self.action@,
            config: self.config.deep_view(),
            steps: self.steps.deep_view(),
            action_state: self.action_state@,
        }
    }
}

/// Why a record could not be read back.
#[derive(Debug)]
pub enum RecordError {
    /// No kind of action has the tag; carries the tag.
    UnknownAction(String),
    /// The configuration or the steps are not those of the kind that the tag
    /// names; carries the tag.
    InvalidConfiguration(String),
    /// No state has the name; carries the name.
    UnknownState(String),
}

/// The mathematical content of a [`RecordError`].
pub enum RecordErrorView {
    UnknownAction(Seq<char>),
    InvalidConfiguration(Seq<char>),
    UnknownState(Seq<char>),
}

impl View for RecordError {
    type V = RecordErrorView;

    open spec fn view(&self) -> RecordErrorView {
        match self {
            RecordError::UnknownAction(tag) => RecordErrorView::UnknownAction(tag@),
            RecordError::InvalidConfiguration(tag) => RecordErrorView::InvalidConfiguration(tag@),
            RecordError::UnknownState(name) => RecordErrorView::UnknownState(name@),
        }
    }
}

/// An action of any of the kinds that this library knows.
#[derive(Debug)]
pub enum Tagged {
    FetchNix(FetchNix),
    CreateUsersAndGroup(CreateUsersAndGroup),
    CreateNixTree(CreateNixTree),
    MoveUnpackedNix(MoveUnpackedNix),
    ProvisionNix(ProvisionNix),
}

/// The mathematical content of a [`Tagged`].
pub enum TaggedView {
    FetchNix(FetchNixView),
    CreateUsersAndGroup(CreateUsersAndGroupView),
    CreateNixTree(CreateNixTreeView),
    MoveUnpackedNix(MoveUnpackedNixView),
    ProvisionNix(ProvisionNixView),
}

impl View for Tagged {
    type V = TaggedView;

    open spec fn view(&self) -> TaggedView {
        match self {
            Tagged::FetchNix(action) => TaggedView::FetchNix(action@),
            Tagged::CreateUsersAndGroup(action) => TaggedView::CreateUsersAndGroup(action@),
            Tagged::CreateNixTree(action) => TaggedView::CreateNixTree(action@),
            Tagged::MoveUnpackedNix(action) => TaggedView::MoveUnpackedNix(action@),
            Tagged::ProvisionNix(action) => TaggedView::ProvisionNix(action@),
        }
    }
}

/// The name under which a state is persisted.
pub open spec fn state_name(state: ActionState) -> Seq<char> {
    match state {
        ActionState::Uncompleted => "Uncompleted"@,
        ActionState::Completed => "Completed"@,
        ActionState::Failed => "Failed"@,
    }
}

/// The state that a name stands for, if it is the name of one.
pub open spec fn named_state(name: Seq<char>) -> Option<ActionState> {
    if name == "Uncompleted"@ {
        Some(ActionState::Uncompleted)
    } else if name == "Completed"@ {
        Some(ActionState::Completed)
    } else if name == "Failed"@ {
        Some(ActionState::Failed)
    } else {
        None
    }
}

/// The record of a fetch.
pub open spec fn fetch_nix_record(action: FetchNixView) -> StepRecordView {
    StepRecordView {
        action: "fetch_nix"@,
        config: seq![ConfigValueView::Text(action.url), ConfigValueView::Text(action.destination)],
        action_state: state_name(action.action_state),
    }
}

/// The record of the creation of users and group.
pub open spec fn create_users_and_group_record(action: CreateUsersAndGroupView) -> StepRecordView {
    StepRecordView {
        action: "create_users_and_group"@,
        config: seq![
            ConfigValueView::Text(action.settings.nix_package_url),
            ConfigValueView::Text(action.settings.nix_build_group_name),
            ConfigValueView::Count(action.settings.daemon_user_count),
        ],
        action_state: state_name(action.action_state),
    }
}

/// The record of the creation of the directory tree.
pub open spec fn create_nix_tree_record(action: CreateNixTreeView) -> StepRecordView {
    StepRecordView {
        action: "create_nix_tree"@,
        config: Seq::empty(),
        action_state: state_name(action.action_state),
    }
}

/// The record of the move.
pub open spec fn move_unpacked_nix_record(action: MoveUnpackedNixView) -> StepRecordView {
    StepRecordView {
        action: "move_unpacked_nix"@,
        config: seq![ConfigValueView::Text(action.source)],
        action_state: state_name(action.action_state),
    }
}

/// A record without steps.
pub open spec fn alone(step: StepRecordView) -> RecordView {
    RecordView {
        action: step.action,
        config: step.config,
        steps: Seq::empty(),
        action_state: step.action_state,
    }
}

impl TaggedView {
    /// The record under which the action is persisted.
    pub open spec fn record(self) -> RecordView {
        match self {
            TaggedView::FetchNix(action) => alone(fetch_nix_record(action)),
            TaggedView::CreateUsersAndGroup(action) => alone(create_users_and_group_record(action)),
            TaggedView::CreateNixTree(action) => alone(create_nix_tree_record(action)),
            TaggedView::MoveUnpackedNix(action) => alone(move_unpacked_nix_record(action)),
            TaggedView::ProvisionNix(action) => RecordView {
                action: "provision_nix"@,
                config: Seq::empty(),
                steps: seq![
                    fetch_nix_record(action.fetch_nix),
                    create_users_and_group_record(action.create_users_and_group),
                    create_nix_tree_record(action.create_nix_tree),
                    move_unpacked_nix_record(action.move_unpacked_nix),
                ],
                action_state: state_name(action.action_state),
            },
        }
    }
}

/// The action that the configuration of a record without steps describes,
/// in the state `state`, if the tag is that of a kind without steps and the
/// configuration is that of the kind.
pub open spec fn configured(record: StepRecordView, state: ActionState) -> Result<
    TaggedView,
    RecordErrorView,
> {
    let config = record.config;
    if record.action == "fetch_nix"@ {
        if config.len() == 2 && config[0] is Text && config[1] is Text {
            Ok(
                TaggedView::FetchNix(
                    FetchNixView {
                        url: config[0]->Text_0,
                        destination: config[1]->Text_0,
                        action_state: state,
                    },
                ),
            )
        } else {
            Err(RecordErrorView::InvalidConfiguration(record.action))
        }
    } else if record.action == "create_users_and_group"@ {
        if config.len() == 3 && config[0] is Text && config[1] is Text && config[2] is Count {
            Ok(
                TaggedView::CreateUsersAndGroup(
                    CreateUsersAndGroupView {
                        settings: CommonSettingsView {
                            nix_package_url: config[0]->Text_0,
                            nix_build_group_name: config[1]->Text_0,
                            daemon_user_count: config[2]->Count_0,
                        },
                        action_state: state,
                    },
                ),
            )
        } else {
            Err(RecordErrorView::InvalidConfiguration(record.action))
        }
    } else if record.action == "create_nix_tree"@ {
        if config.len() == 0 {
            Ok(TaggedView::CreateNixTree(CreateNixTreeView { action_state: state }))
        } else {
            Err(RecordErrorView::InvalidConfiguration(record.action))
        }
    } else if record.action == "move_unpacked_nix"@ {
        if config.len() == 1 && config[0] is Text {
            Ok(
                TaggedView::MoveUnpackedNix(
                    MoveUnpackedNixView { source: config[0]->Text_0, action_state: state },
                ),
            )
        } else {
            Err(RecordErrorView::InvalidConfiguration(record.action))
        }
    } else {
        Err(RecordErrorView::UnknownAction(record.action))
    }
}

/// The action that a record without steps stands for. The tag is looked at
/// first, then the configuration, then the name of the state.
pub open spec fn read_step(record: StepRecordView) -> Result<TaggedView, RecordErrorView> {
    match configured(record, ActionState::Uncompleted) {
        Err(error) => Err(error),
        Ok(_) => match named_state(record.action_state) {
            Some(state) => configured(record, state),
            None => Err(RecordErrorView::UnknownState(record.action_state)),
        },
    }
}

/// The provisioning of Nix that four actions make up, if they are of the
/// four kinds, in the order of their execution.
pub open spec fn composed(
    first: TaggedView,
    second: TaggedView,
    third: TaggedView,
    fourth: TaggedView,
    state: ActionState,
) -> Option<ProvisionNixView> {
    match (first, second, third, fourth) {
        (
            TaggedView::FetchNix(fetch_nix),
            TaggedView::CreateUsersAndGroup(create_users_and_group),
            TaggedView::CreateNixTree(create_nix_tree),
            TaggedView::MoveUnpackedNix(move_unpacked_nix),
        ) => Some(
            ProvisionNixView {
                fetch_nix,
                create_users_and_group,
                create_nix_tree,
                move_unpacked_nix,
                action_state: state,
            },
        ),
        _ => None,
    }
}

/// The provisioning of Nix that a record with that tag stands for. The
/// steps are read first to last and the first that cannot be read decides
/// the error; then their kinds are looked at, then the name of the state.
pub open spec fn read_provision_nix(record: RecordView) -> Result<TaggedView, RecordErrorView> {
    if record.config.len() != 0 || record.steps.len() != 4 {
        Err(RecordErrorView::InvalidConfiguration(record.action))
    } else {
        match read_step(record.steps[0]) {
            Err(error) => Err(error),
            Ok(first) => match read_step(record.steps[1]) {
                Err(error) => Err(error),
                Ok(second) => match read_step(record.steps[2]) {
                    Err(error) => Err(error),
                    Ok(third) => match read_step(record.steps[3]) {
                        Err(error) => Err(error),
                        Ok(fourth) => match composed(
                            first,
                            second,
                            third,
                            fourth,
                            ActionState::Uncompleted,
                        ) {
                            None => Err(RecordErrorView::InvalidConfiguration(record.action)),
                            Some(_) => match named_state(record.action_state) {
                                None => Err(RecordErrorView::UnknownState(record.action_state)),
                                Some(state) => Ok(
                                    TaggedView::ProvisionNix(
                                        composed(first, second, third, fourth, state)->Some_0,
                                    ),
                                ),
                            },
                        },
                    },
                },
            },
        }
    }
}

/// The action that a record stands for, told from its tag. A record of a
/// kind without steps must hold no steps.
pub open spec fn read(record: RecordView) -> Result<TaggedView, RecordErrorView> {
    if record.action == "provision_nix"@ {
        read_provision_nix(record)
    } else {
        let step = StepRecordView {
            action: record.action,
            config: record.config,
            action_state: record.action_state,
        };
        match configured(step, ActionState::Uncompleted) {
            Err(error) => Err(error),
            Ok(_) => if record.steps.len() != 0 {
                Err(RecordErrorView::InvalidConfiguration(record.action))
            } else {
                read_step(step)
            },
        }
    }
}

/// The mathematical content of what reading a record returns.
pub open spec fn read_view(read: Result<Tagged, RecordError>) -> Result<
    TaggedView,
    RecordErrorView,
> {
    match read {
        Ok(action) => Ok(action@),
        Err(error) => Err(error@),
    }
}

fn text_is(text: &String, literal: &str) -> (same: bool)
    ensures
        same == (text@ == literal@),
{
    *text == String::from_str(literal)
}

fn name_of(state: ActionState) -> (name: String)
    ensures
        name@ == state_name(state),
{
    match state {
        ActionState::Uncompleted => String::from_str("Uncompleted"),
        ActionState::Completed => String::from_str("Completed"),
        ActionState::Failed => String::from_str("Failed"),
    }
}

fn state_named(name: &String) -> (state: Option<ActionState>)
    ensures
        state == named_state(name@),
{
    if text_is(name, "Uncompleted") {
        Some(ActionState::Uncompleted)
    } else if text_is(name, "Completed") {
        Some(ActionState::Completed)
    } else if text_is(name, "Failed") {
        Some(ActionState::Failed)
    } else {
        None
    }
}

fn text_at(config: &Vec<ConfigValue>, index: usize) -> (text: Option<String>)
    requires
        index < config.len(),
    ensures
        match text {
            Some(text) => config.deep_view()[index as int] == ConfigValueView::Text(text@),
            None => !(config.deep_view()[index as int] is Text),
        },
{
    match &config[index] {
        ConfigValue::Text(text) => Some(text.clone()),
        ConfigValue::Count(_) => None,
    }
}

fn count_at(config: &Vec<ConfigValue>, index: usize) -> (count: Option<u32>)
    requires
        index < config.len(),
    ensures
        match count {
            Some(count) => config.deep_view()[index as int] == ConfigValueView::Count(count),
            None => !(config.deep_view()[index as int] is Count),
        },
{
    match &config[index] {
        ConfigValue::Text(_) => None,
        ConfigValue::Count(count) => Some(*count),
    }
}

fn configure(
    action: &String,
    config: &Vec<ConfigValue>,
    action_state: &String,
    state: ActionState,
) -> (read: Result<Tagged, RecordError>)
    ensures
        read_view(read) == configured(
            StepRecordView {
                action: action@,
                config: config.deep_view(),
                action_state: action_state@,
            },
            state,
        ),
{
    if text_is(action, "fetch_nix") {
        if config.len() == 2 {
            match (text_at(config, 0), text_at(config, 1)) {
                (Some(url), Some(destination)) => {
                    return Ok(Tagged::FetchNix(FetchNix { url, destination, action_state: state }));
                },
                _ => {},
            }
        }
        Err(RecordError::InvalidConfiguration(action.clone()))
    } else if text_is(action, "create_users_and_group") {
        if config.len() == 3 {
            match (text_at(config, 0), text_at(config, 1), count_at(config, 2)) {
                (Some(nix_package_url), Some(nix_build_group_name), Some(daemon_user_count)) => {
                    return Ok(
                        Tagged::CreateUsersAndGroup(
                            CreateUsersAndGroup {
                                settings: CommonSettings {
                                    nix_package_url,
                                    nix_build_group_name,
                                    daemon_user_count,
                                },
                                action_state: state,
                            },
                        ),
                    );
                },
                _ => {},
            }
        }
        Err(RecordError::InvalidConfiguration(action.clone()))
    } else if text_is(action, "create_nix_tree") {
        if config.len() == 0 {
            Ok(Tagged::CreateNixTree(CreateNixTree { action_state: state }))
        } else {
            Err(RecordError::InvalidConfiguration(action.clone()))
        }
    } else if text_is(action, "move_unpacked_nix") {
        if config.len() == 1 {
            match text_at(config, 0) {
                Some(source) => {
                    return Ok(
                        Tagged::MoveUnpackedNix(MoveUnpackedNix { source, action_state: state }),
                    );
                },
                None => {},
            }
        }
        Err(RecordError::InvalidConfiguration(action.clone()))
    } else {
        Err(RecordError::UnknownAction(action.clone()))
    }
}

fn read_parts(action: &String, config: &Vec<ConfigValue>, action_state: &String) -> (read: Result<
    Tagged,
    RecordError,
>)
    ensures
        read_view(read) == read_step(
            StepRecordView {
                action: action@,
                config: config.deep_view(),
                action_state: action_state@,
            },
        ),
{
    match configure(action, config, action_state, ActionState::Uncompleted) {
        Err(error) => Err(error),
        Ok(_) => match state_named(action_state) {
            Some(state) => configure(action, config, action_state, state),
            None => Err(RecordError::UnknownState(action_state.clone())),
        },
    }
}

fn text_value(text: &String) -> (value: ConfigValue)
    ensures
        value@ == ConfigValueView::Text(text@),
{
    ConfigValue::Text(text.clone())
}

impl FetchNix {
    /// The record under which this action is persisted.
    pub fn to_record(&self) -> (record: StepRecord)
        ensures
            record@ == fetch_nix_record(self@),
    {
        let mut config: Vec<ConfigValue> = Vec::new();
        config.push(text_value(&self.url));
        config.push(text_value(&self.destination));
        assert(config.deep_view() =~= fetch_nix_record(self@).config);
        StepRecord {
            action: String::from_str("fetch_nix"),
            config,
            action_state: name_of(self.action_state),
        }
    }
}

impl CreateUsersAndGroup {
    /// The record under which this action is persisted.
    pub fn to_record(&self) -> (record: StepRecord)
        ensures
            record@ == create_users_and_group_record(self@),
    {
        let mut config: Vec<ConfigValue> = Vec::new();
        config.push(text_value(&self.settings.nix_package_url));
        config.push(text_value(&self.settings.nix_build_group_name));
        config.push(ConfigValue::Count(self.settings.daemon_user_count));
        assert(config.deep_view() =~= create_users_and_group_record(self@).config);
        StepRecord {
            action: String::from_str("create_users_and_group"),
            config,
            action_state: name_of(self.action_state),
        }
    }
}

impl CreateNixTree {
    /// The record under which this action is persisted.
    pub fn to_record(&self) -> (record: StepRecord)
        ensures
            record@ == create_nix_tree_record(self@),
    {
        let config: Vec<ConfigValue> = Vec::new();
        assert(config.deep_view() =~= create_nix_tree_record(self@).config);
        StepRecord {
            action: String::from_str("create_nix_tree"),
            config,
            action_state: name_of(self.action_state),
        }
    }
}

impl MoveUnpackedNix {
    /// The record under which this action is persisted.
    pub fn to_record(&self) -> (record: StepRecord)
        ensures
            record@ == move_unpacked_nix_record(self@),
    {
        let mut config: Vec<ConfigValue> = Vec::new();
        config.push(text_value(&self.source));
        assert(config.deep_view() =~= move_unpacked_nix_record(self@).config);
        StepRecord {
            action: String::from_str("move_unpacked_nix"),
            config,
            action_state: name_of(self.action_state),
        }
    }
}

fn standing_alone(step: StepRecord) -> (record: Record)
    ensures
        record@ == alone(step@),
{
    let steps: Vec<StepRecord> = Vec::new();
    assert(steps.deep_view() =~= Seq::<StepRecordView>::empty());
    Record { action: step.action, config: step.config, steps, action_state: step.action_state }
}

impl Tagged {
    /// Writes the action to the record under which it is persisted.
    pub fn serialize(&self) -> (record: Record)
        ensures
            record@ == self@.record(),
    {
        match self {
            Tagged::FetchNix(action) => standing_alone(action.to_record()),
            Tagged::CreateUsersAndGroup(action) => standing_alone(action.to_record()),
            Tagged::CreateNixTree(action) => standing_alone(action.to_record()),
            Tagged::MoveUnpackedNix(action) => standing_alone(action.to_record()),
            Tagged::ProvisionNix(action) => {
                let config: Vec<ConfigValue> = Vec::new();
                assert(config.deep_view() =~= Seq::<ConfigValueView>::empty());
                let mut steps: Vec<StepRecord> = Vec::new();
                steps.push(action.fetch_nix.to_record());
                steps.push(action.create_users_and_group.to_record());
                steps.push(action.create_nix_tree.to_record());
                steps.push(action.move_unpacked_nix.to_record());
                assert(steps.deep_view() =~= self@.record().steps);
                Record {
                    action: String::from_str("provision_nix"),
                    config,
                    steps,
                    action_state: name_of(action.action_state),
                }
            },
        }
    }

    /// Reads an action back from a record, told by the tag of the record
    /// which kind of action it is. The record is refused when its tag names
    /// no kind, when its configuration or its steps are not those of the
    /// kind, or when the name of a state is none.
    pub fn deserialize(record: &Record) -> (read_back: Result<Tagged, RecordError>)
        ensures
            read_view(read_back) == read(record@),
    {
        if text_is(&record.action, "provision_nix") {
            if record.config.len() != 0 || record.steps.len() != 4 {
                return Err(RecordError::InvalidConfiguration(record.action.clone()));
            }
            let first = &record.steps[0];
            let second = &record.steps[1];
            let third = &record.steps[2];
            let fourth = &record.steps[3];
            let first = match read_parts(&first.action, &first.config, &first.action_state) {
                Ok(action) => action,
                Err(error) => {
                    return Err(error);
                },
            };
            let second = match read_parts(&second.action, &second.config, &second.action_state) {
                Ok(action) => action,
                Err(error) => {
                    return Err(error);
                },
            };
            let third = match read_parts(&third.action, &third.config, &third.action_state) {
                Ok(action) => action,
                Err(error) => {
                    return Err(error);
                },
            };
            let fourth = match read_parts(&fourth.action, &fourth.config, &fourth.action_state) {
                Ok(action) => action,
                Err(error) => {
                    return Err(error);
                },
            };
            match (first, second, third, fourth) {
                (
                    Tagged::FetchNix(fetch_nix),
                    Tagged::CreateUsersAndGroup(create_users_and_group),
                    Tagged::CreateNixTree(create_nix_tree),
                    Tagged::MoveUnpackedNix(move_unpacked_nix),
                ) => match state_named(&record.action_state) {
                    Some(action_state) => Ok(
                        Tagged::ProvisionNix(
                            ProvisionNix {
                                fetch_nix,
                                create_users_and_group,
                                create_nix_tree,
                                move_unpacked_nix,
                                action_state,
                            },
                        ),
                    ),
                    None => Err(RecordError::UnknownState(record.action_state.clone())),
                },
                _ => Err(RecordError::InvalidConfiguration(record.action.clone())),
            }
        } else {
            match configure(
                &record.action,
                &record.config,
                &record.action_state,
                ActionState::Uncompleted,
            ) {
                Err(error) => Err(error),
                Ok(_) => if record.steps.len() != 0 {
                    Err(RecordError::InvalidConfiguration(record.action.clone()))
                } else {
                    read_parts(&record.action, &record.config, &record.action_state)
                },
            }
        }
    }
}

/// The names of the three states differ, so a state is told from its name.
pub proof fn lemma_state_names(state: ActionState)
    ensures
        named_state(state_name(state)) == Some(state),
{
    reveal_strlit("Uncompleted");
    reveal_strlit("Completed");
    reveal_strlit("Failed");
    assert("Uncompleted"@.len() == 11);
    assert("Completed"@.len() == 9);
    assert("Failed"@.len() == 6);
}

/// No two kinds of action share a tag.
pub proof fn lemma_tags_differ()
    ensures
        "fetch_nix"@ != "create_users_and_group"@,
        "fetch_nix"@ != "create_nix_tree"@,
        "fetch_nix"@ != "move_unpacked_nix"@,
        "fetch_nix"@ != "provision_nix"@,
        "create_users_and_group"@ != "create_nix_tree"@,
        "create_users_and_group"@ != "move_unpacked_nix"@,
        "create_users_and_group"@ != "provision_nix"@,
        "create_nix_tree"@ != "move_unpacked_nix"@,
        "create_nix_tree"@ != "provision_nix"@,
        "move_unpacked_nix"@ != "provision_nix"@,
{
    reveal_strlit("fetch_nix");
    reveal_strlit("create_users_and_group");
    reveal_strlit("create_nix_tree");
    reveal_strlit("move_unpacked_nix");
    reveal_strlit("provision_nix");
    assert("fetch_nix"@.len() == 9);
    assert("create_users_and_group"@.len() == 22);
    assert("create_nix_tree"@.len() == 15);
    assert("move_unpacked_nix"@.len() == 17);
    assert("provision_nix"@.len() == 13);
}

/// Reading the record of an action without steps gives the action back.
pub proof fn lemma_step_round_trip(action: TaggedView)
    requires
        !(action is ProvisionNix),
    ensures
        read(action.record()) == Ok::<TaggedView, RecordErrorView>(action),
        read_step(
            StepRecordView {
                action: action.record().action,
                config: action.record().config,
                action_state: action.record().action_state,
            },
        ) == Ok::<TaggedView, RecordErrorView>(action),
{
    lemma_tags_differ();
    match action {
        TaggedView::FetchNix(inner) => {
            lemma_state_names(inner.action_state);
        },
        TaggedView::CreateUsersAndGroup(inner) => {
            lemma_state_names(inner.action_state);
        },
        TaggedView::CreateNixTree(inner) => {
            lemma_state_names(inner.action_state);
        },
        TaggedView::MoveUnpackedNix(inner) => {
            lemma_state_names(inner.action_state);
        },
        TaggedView::ProvisionNix(_) => {},
    }
}

/// Writing an action to its record and reading the record back gives an
/// action of the same kind with the same configuration and the same states.
pub proof fn law_round_trip(action: TaggedView)
    ensures
        read(action.record()) == Ok::<TaggedView, RecordErrorView>(action),
{
    match action {
        TaggedView::ProvisionNix(inner) => {
            lemma_tags_differ();
            lemma_state_names(inner.action_state);
            lemma_step_round_trip(TaggedView::FetchNix(inner.fetch_nix));
            lemma_step_round_trip(TaggedView::CreateUsersAndGroup(inner.create_users_and_group));
            lemma_step_round_trip(TaggedView::CreateNixTree(inner.create_nix_tree));
            lemma_step_round_trip(TaggedView::MoveUnpackedNix(inner.move_unpacked_nix));
            let record = action.record();
            assert(record.steps[0] == fetch_nix_record(inner.fetch_nix));
            assert(record.steps[1] == create_users_and_group_record(inner.create_users_and_group));
            assert(record.steps[2] == create_nix_tree_record(inner.create_nix_tree));
            assert(record.steps[3] == move_unpacked_nix_record(inner.move_unpacked_nix));
        },
        _ => {
            lemma_step_round_trip(action);
        },
    }
}

} // verus!
