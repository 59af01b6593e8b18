use wex::task::advance;
use wex::task::failed;
use wex::task::failure_context;
use wex::task::start;
use wex::task::Progress;
use wex::task::Step;
use wex::task::TaskOutcome;

fn run(results: &[bool]) -> (TaskOutcome, usize) {
    let mut step = start();
    let mut taken = 0;
    loop {
        let succeeded = results[taken];
        taken += 1;
        match advance(step, succeeded) {
            Progress::Run(next) => step = next,
            Progress::Done(outcome) => return (outcome, taken),
        }
    }
}

#[test]
fn an_execution_starts_by_instantiating() {
    assert_eq!(start(), Step::Instantiate);
}

#[test]
fn the_steps_follow_in_order() {
    assert_eq!(advance(Step::Instantiate, true), Progress::Run(Step::PushMessage));
    assert_eq!(advance(Step::PushMessage, true), Progress::Run(Step::Invoke));
    assert_eq!(advance(Step::Invoke, true), Progress::Run(Step::Handle));
    assert_eq!(advance(Step::Handle, true), Progress::Done(TaskOutcome::Handled));
}

#[test]
fn a_failed_host_step_ends_the_execution_as_a_host_failure() {
    assert_eq!(advance(Step::Instantiate, false), Progress::Done(TaskOutcome::HostFailure(Step::Instantiate)));
    assert_eq!(advance(Step::PushMessage, false), Progress::Done(TaskOutcome::HostFailure(Step::PushMessage)));
    assert_eq!(advance(Step::Invoke, false), Progress::Done(TaskOutcome::HostFailure(Step::Invoke)));
}

#[test]
fn a_bad_verdict_ends_the_execution_as_a_workload_failure() {
    assert_eq!(advance(Step::Handle, false), Progress::Done(TaskOutcome::WorkloadFailure));
}

#[test]
fn an_execution_runs_four_steps_or_stops_at_the_first_failure() {
    assert_eq!(run(&[true, true, true, true]), (TaskOutcome::Handled, 4));
    assert_eq!(run(&[false, true, true, true]), (TaskOutcome::HostFailure(Step::Instantiate), 1));
    assert_eq!(run(&[true, false, true, true]), (TaskOutcome::HostFailure(Step::PushMessage), 2));
    assert_eq!(run(&[true, true, false, true]), (TaskOutcome::HostFailure(Step::Invoke), 3));
    assert_eq!(run(&[true, true, true, false]), (TaskOutcome::WorkloadFailure, 4));
}

#[test]
fn everything_but_a_handled_event_is_a_failure() {
    assert!(!failed(TaskOutcome::Handled));
    assert!(failed(TaskOutcome::WorkloadFailure));
    assert!(failed(TaskOutcome::Aborted));
    assert!(failed(TaskOutcome::HostFailure(Step::Instantiate)));
    assert!(failed(TaskOutcome::HostFailure(Step::Invoke)));
}

#[test]
fn every_step_has_its_own_context() {
    assert_eq!(failure_context(Step::Instantiate), "failed to instantiate `command`");
    assert_eq!(failure_context(Step::PushMessage), "failed to push message to table");
    assert_eq!(failure_context(Step::Invoke), "failed to invoke component");
    assert_eq!(failure_context(Step::Handle), "failed to handle NATS.io message");
}

#[test]
fn the_context_of_a_host_failure_is_not_that_of_the_workload() {
    for step in [Step::Instantiate, Step::PushMessage, Step::Invoke] {
        assert_ne!(failure_context(step), failure_context(Step::Handle));
    }
}
