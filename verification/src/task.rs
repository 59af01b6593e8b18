//! One execution of the workload, step by step.
//!
//! Every event gets an execution of its own, which runs four steps in order:
//! the sandbox is instantiated into a fresh context, the event's payload is put
//! into the context's resource table, the workload's message handler is
//! invoked, and the handler's own verdict is taken. The first three steps are
//! the host's, the last is the workload's. An execution ends with the first
//! step that fails, and a failure of the host is never mistaken for one that
//! the workload reported.

use vstd::prelude::*;
use vstd::string::*;

verus! {

/// A step of an execution.
#[derive(Clone, Copy, Debug, PartialEq, Eq, Structural)]
pub enum Step {
    /// The sandbox is instantiated into the execution's context.
    Instantiate,
    /// The event's payload is put into the resource table.
    PushMessage,
    /// The workload's message handler is invoked.
    Invoke,
    /// The handler's own verdict is taken.
    Handle,
}

/// How an execution ended.
#[derive(Clone, Copy, Debug, PartialEq, Eq, Structural)]
pub enum TaskOutcome {
    /// The workload handled the event.
    Handled,
    /// The host failed at the given step, before the workload gave a verdict.
    HostFailure(Step),
    /// The workload reported that it failed to handle the event.
    WorkloadFailure,
    /// The execution did not run to its end: it panicked or was cancelled.
    Aborted,
}

/// What comes after a step.
#[derive(Clone, Copy, Debug, PartialEq, Eq, Structural)]
pub enum Progress {
    /// The next step to run.
    Run(Step),
    /// The execution is over.
    Done(TaskOutcome),
}

/// The step that every execution starts with.
pub open spec fn first_step() -> Step {
    Step::Instantiate
}

/// Whether the step is one of the host's.
pub open spec fn is_host_step(step: Step) -> bool {
    step != Step::Handle
}

/// What comes after `step`, given whether it succeeded.
pub open spec fn progress_after(step: Step, succeeded: bool) -> Progress {
    if succeeded {
        match step {
            Step::Instantiate => Progress::Run(Step::PushMessage),
            Step::PushMessage => Progress::Run(Step::Invoke),
            Step::Invoke => Progress::Run(Step::Handle),
            Step::Handle => Progress::Done(TaskOutcome::Handled),
        }
    } else {
        match step {
            Step::Handle => Progress::Done(TaskOutcome::WorkloadFailure),
            _ => Progress::Done(TaskOutcome::HostFailure(step)),
        }
    }
}

/// Whether an outcome is a failure, to be reported.
pub open spec fn is_failure(outcome: TaskOutcome) -> bool {
    outcome != TaskOutcome::Handled
}

/// The text that goes with a failure of `step`.
pub open spec fn context_text(step: Step) -> Seq<char> {
    match step {
        Step::Instantiate => "failed to instantiate `command`"@,
        Step::PushMessage => "failed to push message to table"@,
        Step::Invoke => "failed to invoke component"@,
        Step::Handle => "failed to handle NATS.io message"@,
    }
}

/// The step that every execution starts with.
pub fn start() -> (step: Step)
    ensures
        step == first_step(),
{
    Step::Instantiate
}

/// What comes after `step`, given whether it succeeded.
///
/// A step that succeeds is followed by the next one, and the last by the end
/// of the execution. A step that fails ends the execution: as a failure of the
/// host at that step, or, for the handler's verdict, as a failure that the
/// workload reported.
pub fn advance(step: Step, succeeded: bool) -> (progress: Progress)
    ensures
        progress == progress_after(step, succeeded),
{
    if succeeded {
        match step {
            Step::Instantiate => Progress::Run(Step::PushMessage),
            Step::PushMessage => Progress::Run(Step::Invoke),
            Step::Invoke => Progress::Run(Step::Handle),
            Step::Handle => Progress::Done(TaskOutcome::Handled),
        }
    } else {
        match step {
            Step::Handle => Progress::Done(TaskOutcome::WorkloadFailure),
            Step::Instantiate => Progress::Done(TaskOutcome::HostFailure(Step::Instantiate)),
            Step::PushMessage => Progress::Done(TaskOutcome::HostFailure(Step::PushMessage)),
            Step::Invoke => Progress::Done(TaskOutcome::HostFailure(Step::Invoke)),
        }
    }
}

/// Whether `outcome` is a failure, to be reported.
pub fn failed(outcome: TaskOutcome) -> (answer: bool)
    ensures
        answer == is_failure(outcome),
{
    match outcome {
        TaskOutcome::Handled => false,
        _ => true,
    }
}

/// The text that goes with a failure of `step`.
pub fn failure_context(step: Step) -> (context: String)
    ensures
        context@ == context_text(step),
{
    match step {
        Step::Instantiate => String::from_str("failed to instantiate `command`"),
        Step::PushMessage => String::from_str("failed to push message to table"),
        Step::Invoke => String::from_str("failed to invoke component"),
        Step::Handle => String::from_str("failed to handle NATS.io message"),
    }
}

/// An execution that fails at a step of the host ends as a failure of the host
/// at that step, and one whose handler gives a bad verdict as a failure of the
/// workload: the two are never confused.
pub proof fn law_host_failure_is_told_apart(step: Step)
    ensures
        is_host_step(step) ==> progress_after(step, false) == Progress::Done(
            TaskOutcome::HostFailure(step),
        ),
        !is_host_step(step) ==> progress_after(step, false) == Progress::Done(
            TaskOutcome::WorkloadFailure,
        ),
        progress_after(step, false) matches Progress::Done(outcome) && is_failure(outcome),
{
}

/// The text that goes with a failure of the host differs from the one that
/// goes with a failure that the workload reported.
pub proof fn law_host_context_differs(step: Step)
    requires
        is_host_step(step),
    ensures
        context_text(step) != context_text(Step::Handle),
{
    reveal_strlit("failed to instantiate `command`");
    reveal_strlit("failed to push message to table");
    reveal_strlit("failed to invoke component");
    reveal_strlit("failed to handle NATS.io message");
    assert(context_text(step).len() != context_text(Step::Handle).len());
}

} // verus!
