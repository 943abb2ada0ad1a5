use action_hero::github::Config;
use action_hero::history::{
    check_is_submitted, form_record_filename, mark_run_submitted, record_directory,
};
use action_hero::poll::{begin, next_step, Outcome, Step};

fn config() -> Config {
    Config {
        owner: "octo".to_string(),
        repository: "hello".to_string(),
        workflow: "check.yaml".to_string(),
        devel: false,
    }
}

#[test]
fn marker_path_names_the_run() {
    assert_eq!(form_record_filename("record", &config(), 42), "record/octo/hello/check.yaml/42");
    assert_eq!(
        form_record_filename("/var/lib/hero", &config(), u64::MAX),
        "/var/lib/hero/octo/hello/check.yaml/18446744073709551615"
    );
    assert_eq!(form_record_filename("record", &config(), 0), "record/octo/hello/check.yaml/0");
}

#[test]
fn marker_directory_names_the_workflow() {
    assert_eq!(record_directory("record", &config()), "record/octo/hello/check.yaml");
}

#[test]
fn present_marker_skips_the_run() {
    assert_eq!(check_is_submitted(true), Outcome::Present);
    assert_eq!(check_is_submitted(false), Outcome::Absent);
    assert_eq!(next_step(Step::Check(0), check_is_submitted(true), 2), Step::Check(1));
    assert_eq!(next_step(Step::Check(0), check_is_submitted(false), 2), Step::Project(0));
}

#[test]
fn marker_is_written_once() {
    assert_eq!(
        mark_run_submitted(false, "5c94e14416b081602476da063dd71d87"),
        Some("5c94e14416b081602476da063dd71d87\n".to_string())
    );
    assert_eq!(mark_run_submitted(true, "5c94e14416b081602476da063dd71d87"), None);
}

/// Runs one cycle over `present.len()` runs against a ledger in memory and
/// returns the runs that were projected; `fails` names a run whose
/// projection fails.
fn cycle(present: &mut Vec<bool>, fails: Option<usize>) -> Vec<usize> {
    let mut projected = Vec::new();
    let mut step = begin(present.len());
    let mut turns = 0;
    loop {
        turns += 1;
        assert!(turns < 100);
        let outcome = match step {
            Step::Done => break,
            Step::Check(index) => check_is_submitted(present[index]),
            Step::Project(index) => {
                if fails == Some(index) {
                    Outcome::Failed
                } else {
                    projected.push(index);
                    Outcome::Projected
                }
            }
            Step::Mark(index) => {
                if mark_run_submitted(present[index], "abc").is_some() {
                    present[index] = true;
                }
                Outcome::Marked
            }
        };
        step = next_step(step, outcome, present.len());
    }
    projected
}

#[test]
fn second_poll_sends_nothing() {
    let mut present = vec![false, false, false];
    assert_eq!(cycle(&mut present, None), vec![0, 1, 2]);
    assert_eq!(present, vec![true, true, true]);
    assert_eq!(cycle(&mut present, None), Vec::<usize>::new());
}

#[test]
fn known_runs_are_passed_over() {
    let mut present = vec![true, false, true];
    assert_eq!(cycle(&mut present, None), vec![1]);
    assert_eq!(present, vec![true, true, true]);
}

#[test]
fn failed_projection_leaves_no_marker_and_no_gap() {
    let mut present = vec![false, false, false];
    assert_eq!(cycle(&mut present, Some(1)), vec![0, 2]);
    assert_eq!(present, vec![true, false, true]);
    assert_eq!(cycle(&mut present, None), vec![1]);
}

#[test]
fn cycle_over_nothing_is_done() {
    assert_eq!(begin(0), Step::Done);
    assert_eq!(begin(3), Step::Check(0));
    assert_eq!(next_step(Step::Done, Outcome::Projected, 3), Step::Done);
}

#[test]
fn every_step_has_its_successor() {
    assert_eq!(next_step(Step::Check(1), Outcome::Absent, 3), Step::Project(1));
    assert_eq!(next_step(Step::Check(1), Outcome::Present, 3), Step::Check(2));
    assert_eq!(next_step(Step::Check(1), Outcome::Failed, 3), Step::Check(2));
    assert_eq!(next_step(Step::Check(2), Outcome::Present, 3), Step::Done);
    assert_eq!(next_step(Step::Project(1), Outcome::Projected, 3), Step::Mark(1));
    assert_eq!(next_step(Step::Project(1), Outcome::Failed, 3), Step::Check(2));
    assert_eq!(next_step(Step::Project(2), Outcome::Failed, 3), Step::Done);
    assert_eq!(next_step(Step::Mark(0), Outcome::Marked, 3), Step::Check(1));
    assert_eq!(next_step(Step::Mark(0), Outcome::Failed, 3), Step::Check(1));
    assert_eq!(next_step(Step::Mark(2), Outcome::Marked, 3), Step::Done);
    assert_eq!(next_step(Step::Check(usize::MAX), Outcome::Present, usize::MAX), Step::Done);
}
