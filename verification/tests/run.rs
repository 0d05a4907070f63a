use nix_installer::action::base::FetchNixError;
use nix_installer::action::common::provision_nix::run::{Directive, Finished, Run, Signal, Step};
use nix_installer::action::common::provision_nix::{JoinError, ProvisionNix, ProvisionNixError};
use nix_installer::action::common::{CreateNixTreeError, CreateUsersAndGroupError};
use nix_installer::action::{ActionState, Operation};
use nix_installer::settings::CommonSettings;

use ActionState::{Completed, Failed, Uncompleted};

fn planned() -> ProvisionNix {
    ProvisionNix::plan(&CommonSettings {
        nix_package_url: "https://example.org/runtime.tar.xz".to_string(),
        nix_build_group_name: "nixbld".to_string(),
        daemon_user_count: 32,
    })
    .unwrap()
}

fn with_states(
    fetch: ActionState,
    users: ActionState,
    tree: ActionState,
    moved: ActionState,
    own: ActionState,
) -> ProvisionNix {
    let mut action = planned();
    action.fetch_nix.action_state = fetch;
    action.create_users_and_group.action_state = users;
    action.create_nix_tree.action_state = tree;
    action.move_unpacked_nix.action_state = moved;
    action.action_state = own;
    action
}

fn states(action: &ProvisionNix) -> [ActionState; 5] {
    [
        action.fetch_nix.action_state,
        action.create_users_and_group.action_state,
        action.create_nix_tree.action_state,
        action.move_unpacked_nix.action_state,
        action.action_state,
    ]
}

/// What the host reports for each step.
struct Host {
    failing: Option<Step>,
    join: Option<JoinError>,
}

fn fine() -> Host {
    Host { failing: None, join: None }
}

fn failing(step: Step) -> Host {
    Host { failing: Some(step), join: None }
}

fn outcome(host: &Host, step: Step) -> Result<(), String> {
    if host.failing == Some(step) {
        Err(format!("{:?} went wrong", step))
    } else {
        Ok(())
    }
}

fn finish(run: Run) -> Finished {
    match run.finish() {
        Ok(finished) => finished,
        Err(_) => panic!("the run is not done"),
    }
}

fn drive(mut run: Run, host: &Host) -> (Vec<Directive>, Finished) {
    let mut trace = Vec::new();
    loop {
        let directive = run.pending();
        trace.push(directive);
        let signal = match directive {
            Directive::Spawn(_, _) => Signal::Spawned,
            Directive::Run(step, _) => Signal::Ran(outcome(host, step)),
            Directive::Join => Signal::Joined(match host.join {
                Some(error) => Err(error),
                None => Ok(outcome(host, Step::FetchNix)),
            }),
            Directive::Abort => Signal::Aborted,
            Directive::Return => return (trace, finish(run)),
        };
        run = run.advance(signal);
        assert!(trace.len() <= 6);
    }
}

#[test]
fn execution_runs_the_steps_in_order_and_completes_everything() {
    let (trace, finished) = drive(planned().execute(), &fine());
    assert_eq!(
        trace,
        vec![
            Directive::Spawn(Step::FetchNix, Operation::Execute),
            Directive::Run(Step::CreateUsersAndGroup, Operation::Execute),
            Directive::Run(Step::CreateNixTree, Operation::Execute),
            Directive::Join,
            Directive::Run(Step::MoveUnpackedNix, Operation::Execute),
            Directive::Return,
        ]
    );
    assert!(finished.result.is_ok());
    assert_eq!(states(&finished.action), [Completed; 5]);
    assert_eq!(finished.action.move_unpacked_nix.source, "/nix/temp-install-dir");
    assert_eq!(finished.action.fetch_nix.url, "https://example.org/runtime.tar.xz");
}

#[test]
fn the_action_is_completed_only_when_all_four_steps_are() {
    let mut run = planned().execute();
    assert_eq!(run.action().action_state, Uncompleted);
    run = run.advance(Signal::Spawned);
    assert_eq!(run.action().action_state, Uncompleted);
    run = run.advance(Signal::Ran(Ok(())));
    assert_eq!(states(run.action()), [Uncompleted, Completed, Uncompleted, Uncompleted, Uncompleted]);
    run = run.advance(Signal::Ran(Ok(())));
    assert_eq!(states(run.action()), [Uncompleted, Completed, Completed, Uncompleted, Uncompleted]);
    assert!(!run.is_done());
    run = run.advance(Signal::Joined(Ok(Ok(()))));
    assert_eq!(states(run.action()), [Completed, Completed, Completed, Uncompleted, Uncompleted]);
    assert_eq!(run.pending(), Directive::Run(Step::MoveUnpackedNix, Operation::Execute));
    run = run.advance(Signal::Ran(Ok(())));
    assert!(run.is_done());
    assert_eq!(states(run.action()), [Completed; 5]);
}

#[test]
fn revert_runs_the_steps_in_reverse_and_undoes_everything() {
    let (_, executed) = drive(planned().execute(), &fine());
    let (trace, reverted) = drive(executed.action.revert(), &fine());
    assert_eq!(
        trace,
        vec![
            Directive::Spawn(Step::FetchNix, Operation::Revert),
            Directive::Run(Step::CreateNixTree, Operation::Revert),
            Directive::Run(Step::CreateUsersAndGroup, Operation::Revert),
            Directive::Join,
            Directive::Run(Step::MoveUnpackedNix, Operation::Revert),
            Directive::Return,
        ]
    );
    assert!(reverted.result.is_ok());
    assert_eq!(states(&reverted.action), [Uncompleted; 5]);
}

#[test]
fn executing_a_completed_action_asks_nothing_of_the_host() {
    let action = with_states(Completed, Completed, Completed, Completed, Completed);
    let (trace, finished) = drive(action.execute(), &fine());
    assert_eq!(trace, vec![Directive::Return]);
    assert!(finished.result.is_ok());
    assert_eq!(states(&finished.action), [Completed; 5]);
}

#[test]
fn reverting_an_uncompleted_action_asks_nothing_of_the_host() {
    let (trace, finished) = drive(planned().revert(), &fine());
    assert_eq!(trace, vec![Directive::Return]);
    assert!(finished.result.is_ok());
    assert_eq!(states(&finished.action), [Uncompleted; 5]);
}

#[test]
fn execution_skips_the_steps_that_are_completed() {
    let action = with_states(Completed, Uncompleted, Completed, Failed, Failed);
    let (trace, finished) = drive(action.execute(), &fine());
    assert_eq!(
        trace,
        vec![
            Directive::Run(Step::CreateUsersAndGroup, Operation::Execute),
            Directive::Run(Step::MoveUnpackedNix, Operation::Execute),
            Directive::Return,
        ]
    );
    assert!(finished.result.is_ok());
    assert_eq!(states(&finished.action), [Completed; 5]);
}

#[test]
fn failing_users_step_stops_the_execution_before_tree_and_move() {
    let (trace, finished) =
        drive(planned().execute(), &failing(Step::CreateUsersAndGroup));
    assert_eq!(
        trace,
        vec![
            Directive::Spawn(Step::FetchNix, Operation::Execute),
            Directive::Run(Step::CreateUsersAndGroup, Operation::Execute),
            Directive::Return,
        ]
    );
    match &finished.result {
        Err(ProvisionNixError::CreateUsersAndGroup(CreateUsersAndGroupError::Host(report))) => {
            assert_eq!(report, "CreateUsersAndGroup went wrong");
        },
        other => panic!("unexpected: {:?}", other),
    }
    assert_eq!(finished.result.as_ref().unwrap_err().message(), "Creating users and group");
    assert_eq!(
        states(&finished.action),
        [Uncompleted, Failed, Uncompleted, Uncompleted, Failed]
    );
}

#[test]
fn failing_tree_step_leaves_the_move_alone() {
    let (trace, finished) = drive(planned().execute(), &failing(Step::CreateNixTree));
    assert_eq!(
        trace,
        vec![
            Directive::Spawn(Step::FetchNix, Operation::Execute),
            Directive::Run(Step::CreateUsersAndGroup, Operation::Execute),
            Directive::Run(Step::CreateNixTree, Operation::Execute),
            Directive::Return,
        ]
    );
    match &finished.result {
        Err(ProvisionNixError::CreateNixTree(CreateNixTreeError::Host(report))) => {
            assert_eq!(report, "CreateNixTree went wrong");
        },
        other => panic!("unexpected: {:?}", other),
    }
    assert_eq!(finished.result.as_ref().unwrap_err().message(), "Creating nix tree");
    assert_eq!(states(&finished.action), [Uncompleted, Completed, Failed, Uncompleted, Failed]);
}

#[test]
fn failing_fetch_is_reported_when_it_is_joined() {
    let (trace, finished) = drive(planned().execute(), &failing(Step::FetchNix));
    assert_eq!(
        trace,
        vec![
            Directive::Spawn(Step::FetchNix, Operation::Execute),
            Directive::Run(Step::CreateUsersAndGroup, Operation::Execute),
            Directive::Run(Step::CreateNixTree, Operation::Execute),
            Directive::Join,
            Directive::Return,
        ]
    );
    match &finished.result {
        Err(ProvisionNixError::FetchNix(FetchNixError::Host(report))) => {
            assert_eq!(report, "FetchNix went wrong");
        },
        other => panic!("unexpected: {:?}", other),
    }
    assert_eq!(finished.result.as_ref().unwrap_err().message(), "Fetching Nix");
    assert_eq!(states(&finished.action), [Failed, Completed, Completed, Uncompleted, Failed]);
}

#[test]
fn failing_move_fails_the_action() {
    let (_, finished) = drive(planned().execute(), &failing(Step::MoveUnpackedNix));
    assert_eq!(finished.result.as_ref().unwrap_err().message(), "Moving unpacked nix");
    assert_eq!(states(&finished.action), [Completed, Completed, Completed, Failed, Failed]);
}

#[test]
fn a_task_that_ends_without_outcome_is_a_join_error() {
    let host = Host { failing: None, join: Some(JoinError::Panicked) };
    let (trace, finished) = drive(planned().execute(), &host);
    assert_eq!(trace.last(), Some(&Directive::Return));
    assert_eq!(trace[trace.len() - 2], Directive::Join);
    match &finished.result {
        Err(ProvisionNixError::Join(JoinError::Panicked)) => {},
        other => panic!("unexpected: {:?}", other),
    }
    assert_eq!(finished.result.as_ref().unwrap_err().message(), "Joining spawned async task");
    assert_eq!(states(&finished.action), [Uncompleted, Completed, Completed, Uncompleted, Failed]);
}

#[test]
fn revert_after_a_failed_execution_undoes_exactly_what_was_completed() {
    let (_, executed) = drive(planned().execute(), &failing(Step::CreateNixTree));
    assert_eq!(states(&executed.action), [Uncompleted, Completed, Failed, Uncompleted, Failed]);
    let (trace, reverted) = drive(executed.action.revert(), &fine());
    assert_eq!(
        trace,
        vec![
            Directive::Run(Step::CreateUsersAndGroup, Operation::Revert),
            Directive::Return,
        ]
    );
    assert!(reverted.result.is_ok());
    assert_eq!(
        states(&reverted.action),
        [Uncompleted, Uncompleted, Failed, Uncompleted, Uncompleted]
    );
}

#[test]
fn revert_after_a_failed_move_also_undoes_the_fetch() {
    let (_, executed) = drive(planned().execute(), &failing(Step::MoveUnpackedNix));
    let (trace, reverted) = drive(executed.action.revert(), &fine());
    assert_eq!(
        trace,
        vec![
            Directive::Spawn(Step::FetchNix, Operation::Revert),
            Directive::Run(Step::CreateNixTree, Operation::Revert),
            Directive::Run(Step::CreateUsersAndGroup, Operation::Revert),
            Directive::Join,
            Directive::Return,
        ]
    );
    assert!(reverted.result.is_ok());
    assert_eq!(
        states(&reverted.action),
        [Uncompleted, Uncompleted, Uncompleted, Failed, Uncompleted]
    );
}

#[test]
fn a_failed_execution_can_be_tried_again() {
    let (_, executed) = drive(planned().execute(), &failing(Step::CreateUsersAndGroup));
    let (trace, retried) = drive(executed.action.execute(), &fine());
    assert_eq!(
        trace,
        vec![
            Directive::Spawn(Step::FetchNix, Operation::Execute),
            Directive::Run(Step::CreateUsersAndGroup, Operation::Execute),
            Directive::Run(Step::CreateNixTree, Operation::Execute),
            Directive::Join,
            Directive::Run(Step::MoveUnpackedNix, Operation::Execute),
            Directive::Return,
        ]
    );
    assert!(retried.result.is_ok());
    assert_eq!(states(&retried.action), [Completed; 5]);
}

#[test]
fn failing_revert_cancels_the_fetch_before_it_returns_the_error() {
    let (_, executed) = drive(planned().execute(), &fine());
    let (trace, reverted) = drive(executed.action.revert(), &failing(Step::CreateNixTree));
    assert_eq!(
        trace,
        vec![
            Directive::Spawn(Step::FetchNix, Operation::Revert),
            Directive::Run(Step::CreateNixTree, Operation::Revert),
            Directive::Abort,
            Directive::Return,
        ]
    );
    match &reverted.result {
        Err(ProvisionNixError::CreateNixTree(CreateNixTreeError::Host(report))) => {
            assert_eq!(report, "CreateNixTree went wrong");
        },
        other => panic!("unexpected: {:?}", other),
    }
    assert_eq!(states(&reverted.action), [Completed, Completed, Completed, Completed, Failed]);
}

#[test]
fn failing_revert_of_users_cancels_the_fetch_too() {
    let (_, executed) = drive(planned().execute(), &fine());
    let (trace, reverted) =
        drive(executed.action.revert(), &failing(Step::CreateUsersAndGroup));
    assert_eq!(
        trace,
        vec![
            Directive::Spawn(Step::FetchNix, Operation::Revert),
            Directive::Run(Step::CreateNixTree, Operation::Revert),
            Directive::Run(Step::CreateUsersAndGroup, Operation::Revert),
            Directive::Abort,
            Directive::Return,
        ]
    );
    assert_eq!(reverted.result.as_ref().unwrap_err().message(), "Creating users and group");
    assert_eq!(states(&reverted.action), [Completed, Completed, Uncompleted, Completed, Failed]);
}

#[test]
fn failing_revert_without_a_background_task_returns_at_once() {
    let action = with_states(Uncompleted, Completed, Completed, Uncompleted, Failed);
    let (trace, reverted) = drive(action.revert(), &failing(Step::CreateNixTree));
    assert_eq!(
        trace,
        vec![Directive::Run(Step::CreateNixTree, Operation::Revert), Directive::Return]
    );
    assert!(reverted.result.is_err());
    assert_eq!(states(&reverted.action), [Uncompleted, Completed, Completed, Uncompleted, Failed]);
}

#[test]
fn the_run_waits_for_the_report_of_the_cancellation() {
    let (_, executed) = drive(planned().execute(), &fine());
    let mut run = executed.action.revert();
    run = run.advance(Signal::Spawned);
    run = run.advance(Signal::Ran(Err("disk full".to_string())));
    assert_eq!(run.pending(), Directive::Abort);
    run = run.advance(Signal::Ran(Ok(())));
    assert_eq!(run.pending(), Directive::Abort);
    run = run.advance(Signal::Joined(Ok(Ok(()))));
    assert_eq!(run.pending(), Directive::Abort);
    assert!(!run.is_done());
    run = run.advance(Signal::Aborted);
    assert_eq!(run.pending(), Directive::Return);
    let finished = finish(run);
    match finished.result {
        Err(ProvisionNixError::CreateNixTree(CreateNixTreeError::Host(report))) => {
            assert_eq!(report, "disk full");
        },
        other => panic!("unexpected: {:?}", other),
    }
}

#[test]
fn an_execution_never_cancels_the_fetch() {
    for step in [Step::CreateUsersAndGroup, Step::CreateNixTree, Step::MoveUnpackedNix, Step::FetchNix] {
        let (trace, _) = drive(planned().execute(), &failing(step));
        assert!(!trace.contains(&Directive::Abort));
    }
}

#[test]
fn reports_that_answer_nothing_are_ignored() {
    let mut run = planned().execute();
    run = run.advance(Signal::Ran(Ok(())));
    run = run.advance(Signal::Joined(Ok(Ok(()))));
    run = run.advance(Signal::Aborted);
    assert_eq!(run.pending(), Directive::Spawn(Step::FetchNix, Operation::Execute));
    assert_eq!(states(run.action()), [Uncompleted; 5]);
    run = run.advance(Signal::Spawned);
    run = run.advance(Signal::Spawned);
    assert_eq!(run.pending(), Directive::Run(Step::CreateUsersAndGroup, Operation::Execute));
}

#[test]
fn a_run_that_is_not_done_is_handed_back() {
    let run = planned().execute();
    let run = match run.finish() {
        Ok(_) => panic!("the run has not begun"),
        Err(run) => run,
    };
    assert_eq!(run.pending(), Directive::Spawn(Step::FetchNix, Operation::Execute));
}

#[test]
fn a_run_that_is_done_stays_done() {
    let (_, executed) = drive(planned().execute(), &failing(Step::CreateNixTree));
    let mut run = executed.action.revert();
    while !run.is_done() {
        let signal = match run.pending() {
            Directive::Run(_, _) => Signal::Ran(Ok(())),
            Directive::Spawn(_, _) => Signal::Spawned,
            Directive::Join => Signal::Joined(Ok(Ok(()))),
            Directive::Abort => Signal::Aborted,
            Directive::Return => break,
        };
        run = run.advance(signal);
    }
    run = run.advance(Signal::Ran(Err("late".to_string())));
    run = run.advance(Signal::Spawned);
    assert!(run.is_done());
    assert!(finish(run).result.is_ok());
}

#[test]
fn state_of_reads_each_step() {
    let action = with_states(Completed, Failed, Uncompleted, Completed, Failed);
    assert_eq!(action.state_of(Step::FetchNix), Completed);
    assert_eq!(action.state_of(Step::CreateUsersAndGroup), Failed);
    assert_eq!(action.state_of(Step::CreateNixTree), Uncompleted);
    assert_eq!(action.state_of(Step::MoveUnpackedNix), Completed);
}
