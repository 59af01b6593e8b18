//! The scheduler: what the host does about each thing that happens to it.
//!
//! The host starts by asking for its subscriptions, and serves only once every
//! one of them is confirmed: a single refusal stops startup. While it serves,
//! every message gets a task of its own, entered into a registry of tasks in
//! flight and struck from it when the task ends. A task that fails is reported
//! and changes nothing else. The interrupt signal ends the intake of messages;
//! the host then waits for the registry to run empty and exits with the
//! outcome of the wait for the signal.
//!
//! The scheduler decides and remembers. Waiting for the broker, the tasks and
//! the signal is left to the program that drives it: it hands in an [`Event`]
//! and carries out the [`Reaction`].

use vstd::prelude::*;
use crate::task::is_failure;
use crate::task::failed;
use crate::task::TaskOutcome;

verus! {

/// Where the host stands.
#[derive(Clone, Copy, Debug, PartialEq, Eq, Structural)]
pub enum Phase {
    /// Subscriptions have been asked for and not all are confirmed.
    Subscribing,
    /// Messages are taken in.
    Serving,
    /// The interrupt signal has come; tasks in flight are waited for.
    Draining,
    /// The host is done.
    Stopped,
}

/// How the host ended, or is about to end.
#[derive(Clone, Copy, Debug, PartialEq, Eq, Structural)]
pub enum ExitStatus {
    /// The interrupt signal came and the wait for it went well.
    Clean,
    /// A subscription was refused during startup.
    StartupFailed,
    /// The wait for the interrupt signal failed.
    InterruptFailed,
}

/// Something that happened.
#[derive(Clone, Copy, Debug, PartialEq, Eq, Structural)]
pub enum Event {
    /// The broker answered one of the subscriptions asked for.
    Subscribed { ok: bool },
    /// A message arrived on one of the subscriptions.
    Message,
    /// A task ended.
    TaskDone { task: usize, outcome: TaskOutcome },
    /// The wait for the interrupt signal ended.
    Interrupt { ok: bool },
}

/// What the host is to do next.
#[derive(Clone, Copy, Debug, PartialEq, Eq, Structural)]
pub enum Directive {
    /// Go on waiting for whatever the phase asks for.
    Wait,
    /// Start a task for the message, under the given number.
    Spawn { task: usize },
    /// Exit.
    Exit { status: ExitStatus },
}

/// The answer to an event.
#[derive(Clone, Copy, Debug, PartialEq, Eq)]
pub struct Reaction {
    /// The failure to report, if the event was the end of a failed task.
    pub report: Option<TaskOutcome>,
    /// What to do next.
    pub directive: Directive,
}

/// What the host waits for.
#[derive(Clone, Copy, Debug, PartialEq, Eq, Structural)]
pub struct Interest {
    /// Answers to subscriptions.
    pub subscriptions: bool,
    /// Messages.
    pub messages: bool,
    /// Ends of tasks.
    pub tasks: bool,
    /// The interrupt signal.
    pub interrupt: bool,
}

/// The lowest number from `start` on that no task in flight holds, or the
/// length of the registry where all are taken.
pub open spec fn first_free_from(slots: Seq<bool>, start: int) -> int
    decreases slots.len() - start,
{
    if start < 0 || start >= slots.len() {
        slots.len() as int
    } else if !slots[start] {
        start
    } else {
        first_free_from(slots, start + 1)
    }
}

/// The registry with the lowest free number taken.
pub open spec fn occupy(slots: Seq<bool>) -> Seq<bool> {
    let task = first_free_from(slots, 0);
    if task < slots.len() {
        slots.update(task, true)
    } else {
        slots.push(true)
    }
}

/// The status that the outcome of the wait for the interrupt signal stands for.
pub open spec fn interrupt_status(ok: bool) -> ExitStatus {
    if ok {
        ExitStatus::Clean
    } else {
        ExitStatus::InterruptFailed
    }
}

/// The reaction that changes nothing and reports nothing.
pub open spec fn carry_on() -> Reaction {
    Reaction { report: None, directive: Directive::Wait }
}

/// The report that the end of a task calls for: its outcome, if it failed.
pub open spec fn report_of(outcome: TaskOutcome) -> Option<TaskOutcome> {
    if is_failure(outcome) {
        Some(outcome)
    } else {
        None
    }
}

/// The state of the host.
pub struct HostModel {
    /// Where the host stands.
    pub phase: Phase,
    /// The subscriptions that are not confirmed yet.
    pub pending: nat,
    /// The registry: whether a task with the given number is in flight.
    pub slots: Seq<bool>,
    /// The status that the host exits with, once it does.
    pub status: ExitStatus,
}

impl HostModel {
    /// The state that the host starts in: serving at once where it asks for no
    /// subscription, and waiting for the answers otherwise.
    pub open spec fn initial(subscriptions: nat) -> HostModel {
        HostModel {
            phase: if subscriptions == 0 {
                Phase::Serving
            } else {
                Phase::Subscribing
            },
            pending: subscriptions,
            slots: Seq::empty(),
            status: ExitStatus::Clean,
        }
    }

    /// Whether the task is in flight.
    pub open spec fn holds(self, task: int) -> bool {
        0 <= task < self.slots.len() && self.slots[task]
    }

    /// The numbers of the tasks in flight.
    pub open spec fn in_flight(self) -> Set<int> {
        Set::new(|task: int| self.holds(task))
    }

    /// Whether no task is in flight.
    pub open spec fn idle(self) -> bool {
        forall|task: int| !self.holds(task)
    }

    /// What holds of every state that the host can be in: it serves only with
    /// every subscription confirmed, it drains only while tasks are in flight,
    /// and it has stopped only with none left.
    pub open spec fn wf(self) -> bool {
        match self.phase {
            Phase::Subscribing => self.pending > 0 && self.idle(),
            Phase::Serving => self.pending == 0,
            Phase::Draining => self.pending == 0 && !self.idle(),
            Phase::Stopped => self.idle(),
        }
    }

    /// What the host waits for.
    pub open spec fn wants(self) -> Interest {
        Interest {
            subscriptions: self.phase is Subscribing,
            messages: self.phase is Serving,
            tasks: (self.phase is Serving || self.phase is Draining) && !self.idle(),
            interrupt: self.phase is Serving,
        }
    }

    /// The state with the given task struck from the registry.
    pub open spec fn release(self, task: int) -> HostModel {
        HostModel { slots: self.slots.update(task, false), ..self }
    }

    /// The state that an event leads to, and the answer to it.
    pub open spec fn react(self, event: Event) -> (HostModel, Reaction) {
        match self.phase {
            Phase::Subscribing => match event {
                Event::Subscribed { ok } => if !ok {
                    (
                        HostModel {
                            phase: Phase::Stopped,
                            status: ExitStatus::StartupFailed,
                            ..self
                        },
                        Reaction {
                            report: None,
                            directive: Directive::Exit { status: ExitStatus::StartupFailed },
                        },
                    )
                } else if self.pending == 1 {
                    (HostModel { phase: Phase::Serving, pending: 0, ..self }, carry_on())
                } else {
                    (HostModel { pending: (self.pending - 1) as nat, ..self }, carry_on())
                },
                _ => (self, carry_on()),
            },
            Phase::Serving => match event {
                Event::Message => (
                    HostModel { slots: occupy(self.slots), ..self },
                    Reaction {
                        report: None,
                        directive: Directive::Spawn {
                            task: first_free_from(self.slots, 0) as usize,
                        },
                    },
                ),
                Event::TaskDone { task, outcome } => if self.holds(task as int) {
                    (
                        self.release(task as int),
                        Reaction { report: report_of(outcome), directive: Directive::Wait },
                    )
                } else {
                    (self, carry_on())
                },
                Event::Interrupt { ok } => if self.idle() {
                    (
                        HostModel { phase: Phase::Stopped, status: interrupt_status(ok), ..self },
                        Reaction {
                            report: None,
                            directive: Directive::Exit { status: interrupt_status(ok) },
                        },
                    )
                } else {
                    (
                        HostModel { phase: Phase::Draining, status: interrupt_status(ok), ..self },
                        carry_on(),
                    )
                },
                Event::Subscribed { .. } => (self, carry_on()),
            },
            Phase::Draining => match event {
                Event::TaskDone { task, outcome } => if self.holds(task as int) {
                    if self.release(task as int).idle() {
                        (
                            HostModel { phase: Phase::Stopped, ..self.release(task as int) },
                            Reaction {
                                report: report_of(outcome),
                                directive: Directive::Exit { status: self.status },
                            },
                        )
                    } else {
                        (
                            self.release(task as int),
                            Reaction { report: report_of(outcome), directive: Directive::Wait },
                        )
                    }
                } else {
                    (self, carry_on())
                },
                _ => (self, carry_on()),
            },
            Phase::Stopped => (self, carry_on()),
        }
    }

    /// The state that a sequence of events leads to.
    pub open spec fn run(self, events: Seq<Event>) -> HostModel
        decreases events.len(),
    {
        if events.len() == 0 {
            self
        } else {
            self.react(events[0]).0.run(events.drop_first())
        }
    }
}

/// The first free number lies within the registry or just behind it, every
/// number below it is taken, and it is free itself where it lies within.
pub proof fn lemma_first_free(slots: Seq<bool>, start: int)
    requires
        0 <= start <= slots.len(),
    ensures
        start <= first_free_from(slots, start) <= slots.len(),
        forall|task: int| start <= task < first_free_from(slots, start) ==> slots[task],
        first_free_from(slots, start) < slots.len() ==> !slots[first_free_from(slots, start)],
    decreases slots.len() - start,
{
    if start < slots.len() && slots[start] {
        lemma_first_free(slots, start + 1);
    }
}

/// The scheduler of a host.
pub struct Scheduler {
    phase: Phase,
    pending: usize,
    slots: Vec<bool>,
    status: ExitStatus,
}

impl View for Scheduler {
    type V = HostModel;

    closed spec fn view(&self) -> HostModel {
        HostModel {
            phase: self.phase,
            pending: self.pending as nat,
            slots: self.slots@,
            status: self.status,
        }
    }
}

impl Scheduler {
    /// The scheduler of a host that asks for the given number of subscriptions.
    pub fn new(subscriptions: usize) -> (scheduler: Self)
        ensures
            scheduler@ == HostModel::initial(subscriptions as nat),
            scheduler@.wf(),
    {
        let phase = if subscriptions == 0 {
            Phase::Serving
        } else {
            Phase::Subscribing
        };
        Scheduler { phase, pending: subscriptions, slots: Vec::new(), status: ExitStatus::Clean }
    }

    /// Where the host stands.
    pub fn phase(&self) -> (phase: Phase)
        ensures
            phase == self@.phase,
    {
        self.phase
    }

    /// The status that the host exits with, once it does.
    pub fn status(&self) -> (status: ExitStatus)
        ensures
            status == self@.status,
    {
        self.status
    }

    /// Whether the task is in flight.
    pub fn holds(&self, task: usize) -> (answer: bool)
        ensures
            answer == self@.holds(task as int),
    {
        task < self.slots.len() && self.slots[task]
    }

    /// Whether no task is in flight.
    pub fn is_idle(&self) -> (answer: bool)
        ensures
            answer == self@.idle(),
    {
        let mut task: usize = 0;
        while task < self.slots.len()
            invariant
                task <= self.slots@.len(),
                forall|earlier: int| 0 <= earlier < task ==> !self.slots@[earlier],
            decreases self.slots@.len() - task,
        {
            if self.slots[task] {
                assert(self@.holds(task as int));
                return false;
            }
            task = task + 1;
        }
        true
    }

    /// The numbers of the tasks in flight, in rising order.
    pub fn in_flight(&self) -> (tasks: Vec<usize>)
        ensures
            forall|task: int| self@.holds(task) <==> exists|at: int|
                0 <= at < tasks@.len() && #[trigger] tasks@[at] == task,
            forall|a: int, b: int| 0 <= a < b < tasks@.len() ==> tasks@[a] < tasks@[b],
    {
        let mut tasks: Vec<usize> = Vec::new();
        let mut task: usize = 0;
        while task < self.slots.len()
            invariant
                task <= self.slots@.len(),
                forall|at: int| 0 <= at < tasks@.len() ==> #[trigger] tasks@[at] < task
                    && self@.holds(tasks@[at] as int),
                forall|earlier: int|
                    0 <= earlier < task && self@.holds(earlier) ==> exists|at: int|
                        0 <= at < tasks@.len() && #[trigger] tasks@[at] == earlier,
                forall|a: int, b: int| 0 <= a < b < tasks@.len() ==> tasks@[a] < tasks@[b],
            decreases self.slots@.len() - task,
        {
            if self.slots[task] {
                let ghost before = tasks@;
                tasks.push(task);
                assert(tasks@[before.len() as int] == task);
                assert forall|earlier: int|
                    0 <= earlier < task + 1 && self@.holds(earlier) implies exists|at: int|
                    0 <= at < tasks@.len() && #[trigger] tasks@[at] == earlier by {
                    if earlier < task {
                        let at = choose|at: int|
                            0 <= at < before.len() && #[trigger] before[at] == earlier;
                        assert(tasks@[at] == earlier);
                    }
                }
            }
            task = task + 1;
        }
        tasks
    }

    /// What the host waits for.
    pub fn wants(&self) -> (interest: Interest)
        ensures
            interest == self@.wants(),
    {
        let busy = !self.is_idle();
        match self.phase {
            Phase::Subscribing => Interest {
                subscriptions: true,
                messages: false,
                tasks: false,
                interrupt: false,
            },
            Phase::Serving => Interest {
                subscriptions: false,
                messages: true,
                tasks: busy,
                interrupt: true,
            },
            Phase::Draining => Interest {
                subscriptions: false,
                messages: false,
                tasks: busy,
                interrupt: false,
            },
            Phase::Stopped => Interest {
                subscriptions: false,
                messages: false,
                tasks: false,
                interrupt: false,
            },
        }
    }

    /// Enters a task into the registry under the lowest free number.
    fn enter(&mut self) -> (task: usize)
        ensures
            task == first_free_from(old(self)@.slots, 0),
            final(self)@ == (HostModel { slots: occupy(old(self)@.slots), ..old(self)@ }),
    {
        let mut task: usize = 0;
        while task < self.slots.len()
            invariant
                task <= self.slots@.len(),
                first_free_from(self.slots@, 0) == first_free_from(self.slots@, task as int),
                *self == *old(self),
            decreases self.slots@.len() - task,
        {
            if !self.slots[task] {
                self.slots.set(task, true);
                return task;
            }
            task = task + 1;
        }
        self.slots.push(true);
        task
    }

    /// Strikes a task from the registry.
    fn strike(&mut self, task: usize)
        requires
            old(self)@.holds(task as int),
        ensures
            final(self)@ == old(self)@.release(task as int),
    {
        self.slots.set(task, false);
    }

    /// Takes in an event and answers it.
    ///
    /// The new state and the answer are those that [`HostModel::react`] names
    /// for the old state and the event, and the new state is one that the host
    /// can be in.
    pub fn step(&mut self, event: Event) -> (reaction: Reaction)
        requires
            old(self)@.wf(),
        ensures
            (final(self)@, reaction) == old(self)@.react(event),
            final(self)@.wf(),
    {
        proof {
            law_react_keeps_wf(self@, event);
        }
        let wait = Reaction { report: None, directive: Directive::Wait };
        match self.phase {
            Phase::Subscribing => match event {
                Event::Subscribed { ok } => {
                    if !ok {
                        self.phase = Phase::Stopped;
                        self.status = ExitStatus::StartupFailed;
                        Reaction {
                            report: None,
                            directive: Directive::Exit { status: ExitStatus::StartupFailed },
                        }
                    } else if self.pending == 1 {
                        self.phase = Phase::Serving;
                        self.pending = 0;
                        wait
                    } else {
                        self.pending = self.pending - 1;
                        wait
                    }
                },
                _ => wait,
            },
            Phase::Serving => match event {
                Event::Message => {
                    let task = self.enter();
                    Reaction { report: None, directive: Directive::Spawn { task } }
                },
                Event::TaskDone { task, outcome } => {
                    if self.holds(task) {
                        self.strike(task);
                        Reaction { report: report(outcome), directive: Directive::Wait }
                    } else {
                        wait
                    }
                },
                Event::Interrupt { ok } => {
                    let status = if ok {
                        ExitStatus::Clean
                    } else {
                        ExitStatus::InterruptFailed
                    };
                    if self.is_idle() {
                        self.status = status;
                        self.phase = Phase::Stopped;
                        Reaction { report: None, directive: Directive::Exit { status } }
                    } else {
                        self.status = status;
                        self.phase = Phase::Draining;
                        wait
                    }
                },
                Event::Subscribed { .. } => wait,
            },
            Phase::Draining => match event {
                Event::TaskDone { task, outcome } => {
                    if self.holds(task) {
                        self.strike(task);
                        if self.is_idle() {
                            self.phase = Phase::Stopped;
                                Reaction {
                                report: report(outcome),
                                directive: Directive::Exit { status: self.status },
                            }
                        } else {
                                Reaction { report: report(outcome), directive: Directive::Wait }
                        }
                    } else {
                        wait
                    }
                },
                _ => wait,
            },
            Phase::Stopped => wait,
        }
    }
}

/// The report that the end of a task calls for: its outcome, if it failed.
pub fn report(outcome: TaskOutcome) -> (report: Option<TaskOutcome>)
    ensures
        report == report_of(outcome),
{
    if failed(outcome) {
        Some(outcome)
    } else {
        None
    }
}

/// Taking the lowest free number leaves every task that was in flight in
/// flight, and adds exactly the one with that number.
pub proof fn lemma_occupy(slots: Seq<bool>)
    ensures
        !(HostModel {
            phase: Phase::Serving,
            pending: 0,
            slots,
            status: ExitStatus::Clean,
        }).holds(first_free_from(slots, 0)),
        forall|task: int|
            0 <= task < occupy(slots).len() ==> (#[trigger] occupy(slots)[task] <==> (task
                == first_free_from(slots, 0) || (task < slots.len() && slots[task]))),
        occupy(slots).len() >= slots.len(),
        0 <= first_free_from(slots, 0) < occupy(slots).len(),
{
    lemma_first_free(slots, 0);
}

/// Every event leads from a state that the host can be in to another such
/// state.
pub proof fn law_react_keeps_wf(state: HostModel, event: Event)
    requires
        state.wf(),
    ensures
        state.react(event).0.wf(),
{
    let after = state.react(event).0;
    match state.phase {
        Phase::Subscribing => {
            assert(forall|task: int| after.holds(task) == state.holds(task));
        },
        Phase::Serving => {
            match event {
                Event::Interrupt { ok } => {
                    assert(forall|task: int| after.holds(task) == state.holds(task));
                },
                _ => {},
            }
        },
        Phase::Draining => {
            match event {
                Event::TaskDone { task, outcome } => {
                    if state.holds(task as int) {
                        let released = state.release(task as int);
                        assert(forall|other: int| after.holds(other) == released.holds(other));
                    }
                },
                _ => {},
            }
        },
        Phase::Stopped => {},
    }
}

/// No partial activation: a refused subscription stops the host at once, with
/// no subscription served, and a host serves only once every subscription that
/// it asked for is confirmed.
pub proof fn law_refused_subscription_stops_startup(state: HostModel)
    requires
        state.wf(),
        state.phase is Subscribing,
    ensures
        state.react(Event::Subscribed { ok: false }).0.phase is Stopped,
        !state.react(Event::Subscribed { ok: false }).0.wants().messages,
        state.react(Event::Subscribed { ok: false }).1.directive == (Directive::Exit {
            status: ExitStatus::StartupFailed,
        }),
        state.react(Event::Subscribed { ok: true }).0.phase is Serving <==> state.pending == 1,
{
}

/// A host that has stopped stays stopped, whatever happens: it takes in
/// nothing and starts nothing.
pub proof fn law_stopped_is_final(state: HostModel, events: Seq<Event>)
    requires
        state.phase is Stopped,
    ensures
        state.run(events) == state,
        forall|event: Event| #[trigger] state.react(event) == (state, carry_on()),
    decreases events.len(),
{
    if events.len() > 0 {
        law_stopped_is_final(state.react(events[0]).0, events.drop_first());
    }
}

/// Isolation: the end of a task, failed or not, strikes that task from the
/// registry and touches nothing else. The other tasks stay in flight, the
/// host stays in its phase, and it is not told to exit while it serves.
pub proof fn law_task_end_is_isolated(state: HostModel, task: usize, outcome: TaskOutcome)
    requires
        state.wf(),
        state.phase is Serving,
        state.holds(task as int),
    ensures
        state.react(Event::TaskDone { task, outcome }).0.phase is Serving,
        state.react(Event::TaskDone { task, outcome }).1.directive is Wait,
        state.react(Event::TaskDone { task, outcome }).1.report == report_of(outcome),
        !state.react(Event::TaskDone { task, outcome }).0.holds(task as int),
        forall|other: int|
            other != task ==> (#[trigger] state.react(Event::TaskDone { task, outcome }).0.holds(
                other,
            ) <==> state.holds(other)),
{
}

/// A task that is started and then ends, however it ends, leaves the set of
/// tasks in flight as it was before the task was started.
pub proof fn law_failed_task_restores_in_flight(state: HostModel, outcome: TaskOutcome)
    requires
        state.wf(),
        state.phase is Serving,
        state.slots.len() <= usize::MAX,
    ensures
        ({
            let (started, spawned) = state.react(Event::Message);
            let task = first_free_from(state.slots, 0) as usize;
            let (ended, settled) = started.react(Event::TaskDone { task, outcome });
            &&& spawned.directive == Directive::Spawn { task }
            &&& started.in_flight() == state.in_flight().insert(task as int)
            &&& !state.in_flight().contains(task as int)
            &&& ended.in_flight() == state.in_flight()
            &&& ended.phase is Serving
            &&& settled.directive is Wait
            &&& settled.report == report_of(outcome)
        }),
{
    lemma_first_free(state.slots, 0);
    lemma_occupy(state.slots);
    let (started, spawned) = state.react(Event::Message);
    let task = first_free_from(state.slots, 0) as usize;
    assert(task as int == first_free_from(state.slots, 0));
    let (ended, settled) = started.react(Event::TaskDone { task, outcome });
    assert(started.holds(task as int));
    assert forall|other: int| started.in_flight().contains(other) <==> state.in_flight().insert(
        task as int,
    ).contains(other) by {
        if 0 <= other < started.slots.len() {
            assert(occupy(state.slots)[other] <==> (other == first_free_from(state.slots, 0) || (
            other < state.slots.len() && state.slots[other])));
        }
    }
    assert(started.in_flight() =~= state.in_flight().insert(task as int));
    assert forall|other: int| ended.in_flight().contains(other) <==> state.in_flight().contains(
        other,
    ) by {
        if 0 <= other < started.slots.len() {
            assert(occupy(state.slots)[other] <==> (other == first_free_from(state.slots, 0) || (
            other < state.slots.len() && state.slots[other])));
        }
    }
    assert(ended.in_flight() =~= state.in_flight());
}

/// The interrupt signal ends the intake: from then on the host asks for no
/// message and none is given a task, whatever happens.
pub proof fn law_interrupt_ends_intake(state: HostModel, ok: bool, later: Seq<Event>, event: Event)
    requires
        state.wf(),
        state.phase is Serving,
    ensures
        ({
            let interrupted = state.react(Event::Interrupt { ok }).0;
            let reached = interrupted.run(later);
            &&& !interrupted.wants().messages
            &&& !reached.wants().messages
            &&& !(reached.react(event).1.directive is Spawn)
            &&& reached.react(event).0.in_flight().subset_of(reached.in_flight())
        }),
{
    let interrupted = state.react(Event::Interrupt { ok }).0;
    lemma_no_intake_once_interrupted(interrupted, later);
    let reached = interrupted.run(later);
    lemma_no_intake_once_interrupted(reached, seq![event]);
}

/// A host that drains or has stopped goes on draining or stays stopped, and no
/// event adds a task.
pub proof fn lemma_no_intake_once_interrupted(state: HostModel, events: Seq<Event>)
    requires
        state.phase is Draining || state.phase is Stopped,
    ensures
        state.run(events).phase is Draining || state.run(events).phase is Stopped,
        forall|event: Event|
            !(#[trigger] state.react(event).1.directive is Spawn) && state.react(
                event,
            ).0.in_flight().subset_of(state.in_flight()),
    decreases events.len(),
{
    if events.len() > 0 {
        lemma_no_intake_once_interrupted(state.react(events[0]).0, events.drop_first());
    }
}

/// The host exits only with no task in flight, and where the interrupt signal
/// made it exit, the status is that of the wait for the signal.
pub proof fn law_exit_only_when_drained(state: HostModel, event: Event)
    requires
        state.wf(),
    ensures
        state.react(event).1.directive is Exit ==> state.react(event).0.idle() && state.react(
            event,
        ).0.phase is Stopped && state.react(event).1.directive == (Directive::Exit {
            status: state.react(event).0.status,
        }),
        forall|ok: bool|
            state.phase is Serving ==> (#[trigger] state.react(Event::Interrupt { ok })).0.status
                == interrupt_status(ok),
        state.phase is Draining ==> state.react(event).0.status == state.status,
{
    law_react_keeps_wf(state, event);
}

} // verus!
