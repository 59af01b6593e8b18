use wex::scheduler::Directive;
use wex::scheduler::Event;
use wex::scheduler::ExitStatus;
use wex::scheduler::Interest;
use wex::scheduler::Phase;
use wex::scheduler::Reaction;
use wex::scheduler::Scheduler;
use wex::scheduler::report;
use wex::task::Step;
use wex::task::TaskOutcome;

const WAIT: Reaction = Reaction { report: None, directive: Directive::Wait };

fn serving_with(tasks: usize) -> Scheduler {
    let mut scheduler = Scheduler::new(0);
    for expected in 0..tasks {
        let reaction = scheduler.step(Event::Message);
        assert_eq!(reaction, Reaction { report: None, directive: Directive::Spawn { task: expected } });
    }
    scheduler
}

fn done(task: usize, outcome: TaskOutcome) -> Event {
    Event::TaskDone { task, outcome }
}

#[test]
fn without_configuration_the_host_serves_at_once_and_waits_for_the_signal() {
    let plan = wex::subscription::subscription_plan(&wex::config::Config::default().trigger.nats);
    let mut scheduler = Scheduler::new(plan.len());
    assert_eq!(scheduler.phase(), Phase::Serving);
    assert!(scheduler.is_idle());
    assert_eq!(
        scheduler.wants(),
        Interest { subscriptions: false, messages: true, tasks: false, interrupt: true }
    );
    let reaction = scheduler.step(Event::Interrupt { ok: true });
    assert_eq!(reaction, Reaction { report: None, directive: Directive::Exit { status: ExitStatus::Clean } });
    assert_eq!(scheduler.phase(), Phase::Stopped);
    assert_eq!(scheduler.status(), ExitStatus::Clean);
}

#[test]
fn one_message_causes_exactly_one_task() {
    let mut scheduler = Scheduler::new(1);
    assert_eq!(scheduler.phase(), Phase::Subscribing);
    assert_eq!(
        scheduler.wants(),
        Interest { subscriptions: true, messages: false, tasks: false, interrupt: false }
    );
    assert_eq!(scheduler.step(Event::Subscribed { ok: true }), WAIT);
    assert_eq!(scheduler.phase(), Phase::Serving);
    let reaction = scheduler.step(Event::Message);
    assert_eq!(reaction, Reaction { report: None, directive: Directive::Spawn { task: 0 } });
    assert_eq!(scheduler.in_flight(), vec![0]);
    assert!(scheduler.holds(0));
    assert!(!scheduler.holds(1));
    assert_eq!(
        scheduler.wants(),
        Interest { subscriptions: false, messages: true, tasks: true, interrupt: true }
    );
    assert_eq!(scheduler.step(done(0, TaskOutcome::Handled)), WAIT);
    assert!(scheduler.is_idle());
    assert_eq!(scheduler.in_flight(), Vec::<usize>::new());
    assert_eq!(scheduler.phase(), Phase::Serving);
}

#[test]
fn the_host_serves_only_once_every_subscription_is_confirmed() {
    let mut scheduler = Scheduler::new(3);
    assert_eq!(scheduler.step(Event::Subscribed { ok: true }), WAIT);
    assert_eq!(scheduler.phase(), Phase::Subscribing);
    assert_eq!(scheduler.step(Event::Message), WAIT);
    assert!(scheduler.is_idle());
    assert_eq!(scheduler.step(Event::Subscribed { ok: true }), WAIT);
    assert_eq!(scheduler.phase(), Phase::Subscribing);
    assert!(!scheduler.wants().messages);
    assert_eq!(scheduler.step(Event::Subscribed { ok: true }), WAIT);
    assert_eq!(scheduler.phase(), Phase::Serving);
    assert!(scheduler.wants().messages);
}

#[test]
fn one_refused_subscription_stops_startup() {
    let mut scheduler = Scheduler::new(3);
    assert_eq!(scheduler.step(Event::Subscribed { ok: true }), WAIT);
    let reaction = scheduler.step(Event::Subscribed { ok: false });
    assert_eq!(
        reaction,
        Reaction { report: None, directive: Directive::Exit { status: ExitStatus::StartupFailed } }
    );
    assert_eq!(scheduler.phase(), Phase::Stopped);
    assert_eq!(scheduler.status(), ExitStatus::StartupFailed);
    assert_eq!(
        scheduler.wants(),
        Interest { subscriptions: false, messages: false, tasks: false, interrupt: false }
    );
    assert_eq!(scheduler.step(Event::Subscribed { ok: true }), WAIT);
    assert_eq!(scheduler.step(Event::Message), WAIT);
    assert_eq!(scheduler.step(Event::Interrupt { ok: true }), WAIT);
    assert_eq!(scheduler.phase(), Phase::Stopped);
    assert_eq!(scheduler.status(), ExitStatus::StartupFailed);
    assert!(scheduler.is_idle());
}

#[test]
fn a_refusal_of_the_first_subscription_stops_startup_too() {
    let mut scheduler = Scheduler::new(1);
    let reaction = scheduler.step(Event::Subscribed { ok: false });
    assert_eq!(reaction.directive, Directive::Exit { status: ExitStatus::StartupFailed });
    assert_eq!(scheduler.phase(), Phase::Stopped);
}

#[test]
fn every_message_gets_the_lowest_free_number() {
    let mut scheduler = serving_with(3);
    assert_eq!(scheduler.in_flight(), vec![0, 1, 2]);
    assert_eq!(scheduler.step(done(1, TaskOutcome::Handled)), WAIT);
    assert_eq!(scheduler.in_flight(), vec![0, 2]);
    assert_eq!(scheduler.step(Event::Message).directive, Directive::Spawn { task: 1 });
    assert_eq!(scheduler.step(Event::Message).directive, Directive::Spawn { task: 3 });
    assert_eq!(scheduler.in_flight(), vec![0, 1, 2, 3]);
}

#[test]
fn a_failed_task_is_reported_and_changes_nothing_else() {
    let mut scheduler = serving_with(2);
    let before = scheduler.in_flight();
    assert_eq!(scheduler.step(Event::Message).directive, Directive::Spawn { task: 2 });
    let failure = TaskOutcome::HostFailure(Step::Instantiate);
    let reaction = scheduler.step(done(2, failure));
    assert_eq!(reaction, Reaction { report: Some(failure), directive: Directive::Wait });
    assert_eq!(scheduler.in_flight(), before);
    assert_eq!(scheduler.phase(), Phase::Serving);
    assert!(scheduler.holds(0) && scheduler.holds(1));
    assert!(scheduler.wants().messages);
}

#[test]
fn every_kind_of_failure_is_reported_and_success_is_not() {
    assert_eq!(report(TaskOutcome::Handled), None);
    assert_eq!(report(TaskOutcome::WorkloadFailure), Some(TaskOutcome::WorkloadFailure));
    assert_eq!(report(TaskOutcome::Aborted), Some(TaskOutcome::Aborted));
    assert_eq!(
        report(TaskOutcome::HostFailure(Step::Invoke)),
        Some(TaskOutcome::HostFailure(Step::Invoke))
    );
    let mut scheduler = serving_with(3);
    assert_eq!(scheduler.step(done(0, TaskOutcome::WorkloadFailure)).report, Some(TaskOutcome::WorkloadFailure));
    assert_eq!(scheduler.step(done(1, TaskOutcome::Aborted)).report, Some(TaskOutcome::Aborted));
    assert_eq!(scheduler.step(done(2, TaskOutcome::Handled)).report, None);
    assert_eq!(scheduler.phase(), Phase::Serving);
}

#[test]
fn the_end_of_an_unknown_task_is_ignored() {
    let mut scheduler = serving_with(1);
    assert_eq!(scheduler.step(done(7, TaskOutcome::WorkloadFailure)), WAIT);
    assert_eq!(scheduler.in_flight(), vec![0]);
    assert_eq!(scheduler.step(done(0, TaskOutcome::Handled)), WAIT);
    assert_eq!(scheduler.step(done(0, TaskOutcome::WorkloadFailure)), WAIT);
    assert!(scheduler.is_idle());
}

#[test]
fn the_signal_ends_the_intake_and_the_host_waits_for_its_tasks() {
    let mut scheduler = serving_with(2);
    assert_eq!(scheduler.step(Event::Interrupt { ok: true }), WAIT);
    assert_eq!(scheduler.phase(), Phase::Draining);
    assert_eq!(
        scheduler.wants(),
        Interest { subscriptions: false, messages: false, tasks: true, interrupt: false }
    );
    assert_eq!(scheduler.step(Event::Message), WAIT);
    assert_eq!(scheduler.in_flight(), vec![0, 1]);
    assert_eq!(scheduler.step(Event::Interrupt { ok: false }), WAIT);
    assert_eq!(scheduler.status(), ExitStatus::Clean);
    assert_eq!(scheduler.step(done(1, TaskOutcome::Handled)), WAIT);
    assert_eq!(scheduler.phase(), Phase::Draining);
    let failure = TaskOutcome::WorkloadFailure;
    let reaction = scheduler.step(done(0, failure));
    assert_eq!(
        reaction,
        Reaction { report: Some(failure), directive: Directive::Exit { status: ExitStatus::Clean } }
    );
    assert_eq!(scheduler.phase(), Phase::Stopped);
    assert!(scheduler.is_idle());
    assert_eq!(scheduler.step(Event::Message), WAIT);
}

#[test]
fn a_failed_wait_for_the_signal_becomes_the_exit_status() {
    let mut scheduler = serving_with(0);
    let reaction = scheduler.step(Event::Interrupt { ok: false });
    assert_eq!(reaction.directive, Directive::Exit { status: ExitStatus::InterruptFailed });
    assert_eq!(scheduler.status(), ExitStatus::InterruptFailed);

    let mut scheduler = serving_with(1);
    assert_eq!(scheduler.step(Event::Interrupt { ok: false }), WAIT);
    assert_eq!(scheduler.phase(), Phase::Draining);
    let reaction = scheduler.step(done(0, TaskOutcome::Handled));
    assert_eq!(
        reaction,
        Reaction { report: None, directive: Directive::Exit { status: ExitStatus::InterruptFailed } }
    );
}

#[test]
fn many_tasks_are_taken_in_without_a_bound() {
    let mut scheduler = serving_with(1000);
    assert_eq!(scheduler.in_flight().len(), 1000);
    for task in 0..1000 {
        assert_eq!(scheduler.step(done(task, TaskOutcome::Handled)), WAIT);
    }
    assert!(scheduler.is_idle());
    assert_eq!(scheduler.step(Event::Message).directive, Directive::Spawn { task: 0 });
}
