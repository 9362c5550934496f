use goto::outcome::Outcome;

fn cause(text: &str) -> String {
    text.to_string()
}

#[test]
fn usage_exits_with_one() {
    assert_eq!(Outcome::Usage.exit_code(), 1);
    assert_eq!(Outcome::Usage.message(), "Usage: goto <project_name>");
}

#[test]
fn no_match_is_no_failure() {
    assert_eq!(Outcome::NoMatch.exit_code(), 0);
    assert_eq!(Outcome::NoMatch.message(), "No matches found");
}

#[test]
fn replaced_is_no_failure() {
    assert_eq!(Outcome::Replaced.exit_code(), 0);
    assert_eq!(Outcome::Replaced.message(), "killed");
}

#[test]
fn duplicate_is_a_failure() {
    assert_eq!(Outcome::Duplicate.exit_code(), 4);
    assert_eq!(
        Outcome::Duplicate.message(),
        "Unexpected error: check config file for duplicate keys"
    );
}

#[test]
fn unreadable_config_reports_step_and_cause() {
    let outcome = Outcome::ConfigUnreadable { cause: cause("No such file or directory (os error 2)") };
    assert_eq!(outcome.exit_code(), 2);
    assert_eq!(
        outcome.message(),
        "Error: cannot read config: No such file or directory (os error 2)"
    );
}

#[test]
fn malformed_config_reports_step_and_cause() {
    let outcome = Outcome::ConfigMalformed { cause: cause("missing field `projects` at line 1 column 2") };
    assert_eq!(outcome.exit_code(), 3);
    assert_eq!(
        outcome.message(),
        "Error: cannot parse config: missing field `projects` at line 1 column 2"
    );
}

#[test]
fn unavailable_directory_reports_step_and_cause() {
    let outcome = Outcome::DirectoryUnavailable { cause: cause("Not a directory (os error 20)") };
    assert_eq!(outcome.exit_code(), 5);
    assert_eq!(
        outcome.message(),
        "Error: cannot change directory: Not a directory (os error 20)"
    );
}

#[test]
fn spawn_failure_reports_cause() {
    let outcome = Outcome::SpawnFailed { cause: cause("not found") };
    assert_eq!(outcome.exit_code(), 6);
    assert_eq!(outcome.message(), "Could not start new shell: not found");
}

#[test]
fn surviving_parent_reports_cause() {
    let outcome = Outcome::ParentSurvived { cause: cause("EPERM: Operation not permitted") };
    assert_eq!(outcome.exit_code(), 7);
    assert_eq!(
        outcome.message(),
        "Could not kill parent shell: EPERM: Operation not permitted"
    );
}

#[test]
fn stranded_reports_both_causes() {
    let outcome = Outcome::Stranded {
        parent_cause: cause("ESRCH: No such process"),
        child_cause: cause("invalid argument"),
    };
    assert_eq!(outcome.exit_code(), 8);
    assert_eq!(
        outcome.message(),
        "Could not kill parent shell: ESRCH: No such process\nCould not kill child shell: invalid argument"
    );
}

#[test]
fn out_of_turn_is_a_failure() {
    assert_eq!(Outcome::OutOfTurn.exit_code(), 9);
    assert_eq!(
        Outcome::OutOfTurn.message(),
        "Unexpected error: reply does not answer the request"
    );
}

#[test]
fn empty_cause_leaves_only_the_prefix() {
    let outcome = Outcome::SpawnFailed { cause: String::new() };
    assert_eq!(outcome.message(), "Could not start new shell: ");
}

#[test]
fn every_failure_has_its_own_status() {
    let failures = vec![
        Outcome::Usage,
        Outcome::ConfigUnreadable { cause: cause("a") },
        Outcome::ConfigMalformed { cause: cause("b") },
        Outcome::Duplicate,
        Outcome::DirectoryUnavailable { cause: cause("c") },
        Outcome::SpawnFailed { cause: cause("d") },
        Outcome::ParentSurvived { cause: cause("e") },
        Outcome::Stranded { parent_cause: cause("f"), child_cause: cause("g") },
        Outcome::OutOfTurn,
    ];
    let codes: Vec<i32> = failures.iter().map(|o| o.exit_code()).collect();
    for (i, code) in codes.iter().enumerate() {
        assert_ne!(*code, 0);
        for other in &codes[i + 1..] {
            assert_ne!(code, other);
        }
    }
}
