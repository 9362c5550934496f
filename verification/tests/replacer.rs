use goto::outcome::Outcome;
use goto::replacer::{begin, choose_shell, step, ReplacerAction, ReplacerState};

fn failed(cause: &str) -> Result<(), String> {
    Err(cause.to_string())
}

#[test]
fn choose_shell_takes_the_configured_shell() {
    assert_eq!(choose_shell(Some("/usr/bin/fish".to_string())), "/usr/bin/fish");
}

#[test]
fn choose_shell_falls_back_to_bash() {
    assert_eq!(choose_shell(None), "bash");
}

#[test]
fn choose_shell_keeps_an_empty_value() {
    assert_eq!(choose_shell(Some(String::new())), "");
}

#[test]
fn begin_asks_for_the_configured_shell() {
    let (state, action) = begin(311, Some("/bin/zsh".to_string()));
    assert_eq!(state, ReplacerState::Idle { parent: 311 });
    assert_eq!(action, ReplacerAction::Spawn { program: "/bin/zsh".to_string() });
}

#[test]
fn begin_without_shell_asks_for_bash() {
    let (state, action) = begin(1, None);
    assert_eq!(state, ReplacerState::Idle { parent: 1 });
    assert_eq!(action, ReplacerAction::Spawn { program: "bash".to_string() });
}

#[test]
fn spawned_child_leads_to_killing_the_captured_parent() {
    let (state, action) = step(ReplacerState::Idle { parent: 9871 }, Ok(()));
    assert_eq!(state, ReplacerState::ChildSpawned);
    assert_eq!(action, ReplacerAction::KillParent { pid: 9871 });
}

#[test]
fn failed_spawn_is_final() {
    let (state, action) = step(ReplacerState::Idle { parent: 9871 }, failed("No such file"));
    assert_eq!(state, ReplacerState::SpawnFailed);
    assert_eq!(
        action,
        ReplacerAction::Conclude { outcome: Outcome::SpawnFailed { cause: "No such file".to_string() } }
    );
}

#[test]
fn killed_parent_concludes_with_success() {
    let (state, action) = step(ReplacerState::ChildSpawned, Ok(()));
    assert_eq!(state, ReplacerState::ParentKilled);
    assert_eq!(action, ReplacerAction::Conclude { outcome: Outcome::Replaced });
}

#[test]
fn surviving_parent_leads_to_killing_the_child() {
    let (state, action) = step(ReplacerState::ChildSpawned, failed("EPERM"));
    assert_eq!(state, ReplacerState::ParentKillFailed { cause: "EPERM".to_string() });
    assert_eq!(action, ReplacerAction::KillChild);
}

#[test]
fn killed_child_concludes_with_the_parent_failure() {
    let (state, action) =
        step(ReplacerState::ParentKillFailed { cause: "EPERM".to_string() }, Ok(()));
    assert_eq!(state, ReplacerState::ChildKilled);
    assert_eq!(
        action,
        ReplacerAction::Conclude { outcome: Outcome::ParentSurvived { cause: "EPERM".to_string() } }
    );
}

#[test]
fn surviving_child_concludes_with_both_failures() {
    let (state, action) =
        step(ReplacerState::ParentKillFailed { cause: "EPERM".to_string() }, failed("EINVAL"));
    assert_eq!(state, ReplacerState::ChildKillAlsoFailed);
    assert_eq!(
        action,
        ReplacerAction::Conclude {
            outcome: Outcome::Stranded {
                parent_cause: "EPERM".to_string(),
                child_cause: "EINVAL".to_string(),
            }
        }
    );
}

#[test]
fn final_states_do_not_move() {
    let finals = vec![
        ReplacerState::SpawnFailed,
        ReplacerState::ParentKilled,
        ReplacerState::ChildKilled,
        ReplacerState::ChildKillAlsoFailed,
    ];
    for state in finals {
        let label = format!("{:?}", state);
        let (after_ok, action) = step(state, Ok(()));
        assert_eq!(format!("{:?}", after_ok), label);
        assert_eq!(action, ReplacerAction::Conclude { outcome: Outcome::OutOfTurn });
        let (after_err, action) = step(after_ok, failed("late"));
        assert_eq!(format!("{:?}", after_err), label);
        assert_eq!(action, ReplacerAction::Conclude { outcome: Outcome::OutOfTurn });
    }
}

#[test]
fn full_replacement_in_three_actions() {
    let (state, action) = begin(77, Some("sh".to_string()));
    assert_eq!(action, ReplacerAction::Spawn { program: "sh".to_string() });
    let (state, action) = step(state, Ok(()));
    assert_eq!(action, ReplacerAction::KillParent { pid: 77 });
    let (state, action) = step(state, Ok(()));
    assert_eq!(state, ReplacerState::ParentKilled);
    assert_eq!(action, ReplacerAction::Conclude { outcome: Outcome::Replaced });
}
