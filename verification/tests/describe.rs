use nix_installer::action::common::provision_nix::ProvisionNix;
use nix_installer::action::{
    needs_work, record_outcome, Action, ActionDescription, ActionState, Operation,
};
use nix_installer::settings::CommonSettings;

fn planned() -> ProvisionNix {
    ProvisionNix::plan(&CommonSettings {
        nix_package_url: "https://example.org/runtime.tar.xz".to_string(),
        nix_build_group_name: "nixbld".to_string(),
        daemon_user_count: 32,
    })
    .unwrap()
}

fn lines(descriptions: &[ActionDescription]) -> Vec<(String, Vec<String>)> {
    descriptions.iter().map(|d| (d.synopsis.clone(), d.explanation.clone())).collect()
}

#[test]
fn execute_description_lists_the_steps_first_to_last() {
    let action = planned();
    let expected = vec![
        (
            "Fetch Nix from `https://example.org/runtime.tar.xz`".to_string(),
            vec!["Unpack it to `/nix/temp-install-dir`".to_string()],
        ),
        (
            "Create build users and group".to_string(),
            vec!["Create the group `nixbld` and its build users".to_string()],
        ),
        (
            "Create a directory tree in `/nix`".to_string(),
            vec!["Create the directories that hold the Nix store and state".to_string()],
        ),
        (
            "Move the unpacked Nix into `/nix`".to_string(),
            vec!["Move the contents of `/nix/temp-install-dir` into `/nix`".to_string()],
        ),
    ];
    assert_eq!(lines(&action.execute_description()), expected);
}

#[test]
fn revert_description_lists_the_steps_last_to_first() {
    let action = planned();
    let expected = vec![
        (
            "Move the unpacked Nix out of `/nix`".to_string(),
            vec!["Move the contents of `/nix` back to `/nix/temp-install-dir`".to_string()],
        ),
        (
            "Remove the directory tree in `/nix`".to_string(),
            vec!["Remove the directories that hold the Nix store and state".to_string()],
        ),
        (
            "Remove build users and group".to_string(),
            vec!["Remove the group `nixbld` and its build users".to_string()],
        ),
        (
            "Remove the fetched Nix".to_string(),
            vec!["Remove `/nix/temp-install-dir`".to_string()],
        ),
    ];
    assert_eq!(lines(&action.revert_description()), expected);
}

#[test]
fn composite_descriptions_are_the_concatenation_of_the_steps() {
    let action = planned();
    let mut forward = Vec::new();
    forward.extend(lines(&action.fetch_nix.execute_description()));
    forward.extend(lines(&action.create_users_and_group.execute_description()));
    forward.extend(lines(&action.create_nix_tree.execute_description()));
    forward.extend(lines(&action.move_unpacked_nix.execute_description()));
    assert_eq!(lines(&action.execute_description()), forward);
    let mut backward = Vec::new();
    backward.extend(lines(&action.move_unpacked_nix.revert_description()));
    backward.extend(lines(&action.create_nix_tree.revert_description()));
    backward.extend(lines(&action.create_users_and_group.revert_description()));
    backward.extend(lines(&action.fetch_nix.revert_description()));
    assert_eq!(lines(&action.revert_description()), backward);
}

#[test]
fn synopses_name_the_actions() {
    let action = planned();
    assert_eq!(action.tracing_synopsis(), "Provision Nix");
    assert_eq!(
        action.fetch_nix.tracing_synopsis(),
        "Fetch Nix from `https://example.org/runtime.tar.xz`"
    );
    assert_eq!(action.create_users_and_group.tracing_synopsis(), "Create build users and group");
    assert_eq!(action.create_nix_tree.tracing_synopsis(), "Create a directory tree in `/nix`");
    assert_eq!(action.move_unpacked_nix.tracing_synopsis(), "Move the unpacked Nix into `/nix`");
}

#[test]
fn descriptions_do_not_depend_on_the_state() {
    let mut action = planned();
    let before = lines(&action.execute_description());
    action.set_action_state(ActionState::Completed);
    action.fetch_nix.set_action_state(ActionState::Completed);
    assert_eq!(lines(&action.execute_description()), before);
}

#[test]
fn state_accessors_read_and_write_the_state_only() {
    let mut action = planned();
    assert_eq!(action.action_state(), ActionState::Uncompleted);
    action.set_action_state(ActionState::Failed);
    assert_eq!(action.action_state(), ActionState::Failed);
    assert_eq!(action.fetch_nix.action_state(), ActionState::Uncompleted);
    action.move_unpacked_nix.set_action_state(ActionState::Completed);
    assert_eq!(action.move_unpacked_nix.action_state(), ActionState::Completed);
    assert_eq!(action.move_unpacked_nix.source, "/nix/temp-install-dir");
}

#[test]
fn new_description_keeps_title_and_lines() {
    let description =
        ActionDescription::new("Title".to_string(), vec!["one".to_string(), "two".to_string()]);
    assert_eq!(description.synopsis, "Title");
    assert_eq!(description.explanation, vec!["one".to_string(), "two".to_string()]);
}

#[test]
fn operations_are_needed_by_state() {
    assert!(Operation::Execute.is_needed(ActionState::Uncompleted));
    assert!(Operation::Execute.is_needed(ActionState::Failed));
    assert!(!Operation::Execute.is_needed(ActionState::Completed));
    assert!(Operation::Revert.is_needed(ActionState::Completed));
    assert!(!Operation::Revert.is_needed(ActionState::Uncompleted));
    assert!(!Operation::Revert.is_needed(ActionState::Failed));
}

#[test]
fn attempts_settle_the_state() {
    assert_eq!(Operation::Execute.settle(ActionState::Uncompleted, true), ActionState::Completed);
    assert_eq!(Operation::Execute.settle(ActionState::Uncompleted, false), ActionState::Failed);
    assert_eq!(Operation::Execute.settle(ActionState::Failed, true), ActionState::Completed);
    assert_eq!(Operation::Revert.settle(ActionState::Completed, true), ActionState::Uncompleted);
    assert_eq!(Operation::Revert.settle(ActionState::Completed, false), ActionState::Completed);
}

#[test]
fn a_completed_step_is_not_executed_again() {
    let mut action = planned();
    assert!(needs_work(&action.fetch_nix, Operation::Execute));
    record_outcome(&mut action.fetch_nix, Operation::Execute, true);
    assert_eq!(action.fetch_nix.action_state, ActionState::Completed);
    assert!(!needs_work(&action.fetch_nix, Operation::Execute));
    assert!(needs_work(&action.fetch_nix, Operation::Revert));
    record_outcome(&mut action.fetch_nix, Operation::Revert, true);
    assert_eq!(action.fetch_nix.action_state, ActionState::Uncompleted);
    assert!(!needs_work(&action.fetch_nix, Operation::Revert));
}

#[test]
fn a_failed_step_can_be_executed_again_but_not_reverted() {
    let mut action = planned();
    record_outcome(&mut action.create_nix_tree, Operation::Execute, false);
    assert_eq!(action.create_nix_tree.action_state, ActionState::Failed);
    assert!(needs_work(&action.create_nix_tree, Operation::Execute));
    assert!(!needs_work(&action.create_nix_tree, Operation::Revert));
}
