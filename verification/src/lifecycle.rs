//! The lifecycle state machine of the orchestrator.
//!
//! Starting and stopping a subsystem is work that the machine cannot do
//! itself and that may fail. So the machine decides and the caller acts: a
//! transition is begun, the machine names the next action, the caller
//! performs it and reports how it went, and so on until the machine reports
//! the end of the transition.
//!
//! Startup walks the start order forwards. If a start fails, the subsystems
//! started so far are stopped again in reverse order, and only then is the
//! failure reported: the state reads `Initialized` until all three run, so a
//! partial start is never visible. Shutdown walks the start order backwards,
//! attempts every stop whatever became of the one before, drains the
//! execution engine last, and reports all failures together.

use vstd::prelude::*;
use crate::error::{Error, StopFailures};
use crate::subsystem::{participant, participant_at, SubsystemId, PARTICIPANTS};

verus! {

/// Where the orchestrator stands.
#[derive(Clone, Copy, Debug, PartialEq, Eq, Structural)]
pub enum LifecycleState {
    Uninitialized,
    Initialized,
    Running,
    ShuttingDown,
    Stopped,
}

/// How far the transition under way has come.
#[derive(Clone, Copy, Debug, PartialEq, Eq, Structural)]
pub enum Phase {
    /// No transition is under way.
    Idle,
    /// Startup: the start of the participant at `next` is pending.
    Starting { next: u8 },
    /// Startup failed at `failed`: the stop of the participant at `next` is pending.
    RollingBack { failed: u8, next: u8 },
    /// Shutdown: the stop of the participant at `next` is pending.
    Stopping { next: u8 },
    /// Shutdown: the drain of the execution engine is pending.
    Draining,
}

/// What the caller is to do next.
#[derive(Clone, Copy, Debug, PartialEq, Eq, Structural)]
pub enum Action {
    /// Start this subsystem, then report the outcome.
    Start(SubsystemId),
    /// Stop this subsystem, then report the outcome.
    Stop(SubsystemId),
    /// Let the execution engine finish its running tasks, within the grace
    /// period, then report the outcome.
    Drain,
    /// The transition has ended well. Nothing is pending.
    Completed,
    /// The transition has ended with this error. Nothing is pending.
    Failed(Error),
    /// An outcome was reported though nothing was pending. Nothing changed.
    Nothing,
}

/// Which participants are started.
#[derive(Clone, Copy, Debug, PartialEq, Eq, Structural)]
pub struct Started {
    pub metrics: bool,
    pub performance_monitor: bool,
    pub battery_optimizer: bool,
}

impl Started {
    /// The first `count` participants of the start order, and no others.
    pub open spec fn prefix(count: int) -> Started {
        Started { metrics: count > 0, performance_monitor: count > 1, battery_optimizer: count > 2 }
    }

    /// No participant.
    pub open spec fn none() -> Started {
        Started::prefix(0)
    }

    /// Every participant.
    pub open spec fn all() -> Started {
        Started::prefix(PARTICIPANTS as int)
    }

    /// Whether the participant at `position` is started.
    pub open spec fn at(self, position: u8) -> bool {
        if position == 0 {
            self.metrics
        } else if position == 1 {
            self.performance_monitor
        } else {
            self.battery_optimizer
        }
    }

    /// The same, but for the participant at `position`.
    pub open spec fn set(self, position: u8, started: bool) -> Started {
        if position == 0 {
            Started { metrics: started, ..self }
        } else if position == 1 {
            Started { performance_monitor: started, ..self }
        } else {
            Started { battery_optimizer: started, ..self }
        }
    }

    /// No participant at or after `count` is started.
    pub open spec fn within(self, count: int) -> bool {
        &&& self.metrics ==> count > 0
        &&& self.performance_monitor ==> count > 1
        &&& self.battery_optimizer ==> count > 2
    }

    /// Notes the participant at `position` as started or not.
    pub fn mark(&mut self, position: u8, started: bool)
        ensures
            *final(self) == old(self).set(position, started),
    {
        if position == 0 {
            self.metrics = started;
        } else if position == 1 {
            self.performance_monitor = started;
        } else {
            self.battery_optimizer = started;
        }
    }
}

/// The state machine: the state that callers see, the progress of the
/// transition under way, which participants are started, and the stops
/// that failed in the latest stop sequence.
#[derive(Clone, Copy, Debug, PartialEq, Eq, Structural)]
pub struct Lifecycle {
    pub state: LifecycleState,
    pub phase: Phase,
    pub started: Started,
    pub failures: StopFailures,
}

impl Lifecycle {
    /// The machine before anything is constructed.
    pub open spec fn uninitialized() -> Lifecycle {
        Lifecycle {
            state: LifecycleState::Uninitialized,
            phase: Phase::Idle,
            started: Started::none(),
            failures: StopFailures::empty(),
        }
    }

    /// State, progress and started participants agree.
    ///
    /// In particular `Running` is read only while all participants are
    /// started, and while nothing is under way every other state means that
    /// none is.
    pub open spec fn wf(self) -> bool {
        match self.phase {
            Phase::Idle => {
                &&& self.state != LifecycleState::ShuttingDown
                &&& self.started == if self.state == LifecycleState::Running {
                    Started::all()
                } else {
                    Started::none()
                }
            },
            Phase::Starting { next } => {
                &&& self.state == LifecycleState::Initialized
                &&& next < PARTICIPANTS
                &&& self.started == Started::prefix(next as int)
            },
            Phase::RollingBack { failed, next } => {
                &&& self.state == LifecycleState::Initialized
                &&& next < failed < PARTICIPANTS
                &&& self.started == Started::prefix(next + 1)
            },
            Phase::Stopping { next } => {
                &&& self.state == LifecycleState::ShuttingDown
                &&& next < PARTICIPANTS
                &&& self.started.within(next + 1)
            },
            Phase::Draining => {
                &&& self.state == LifecycleState::ShuttingDown
                &&& self.started == Started::none()
            },
        }
    }

    /// Whether a transition is under way.
    pub open spec fn busy(self) -> bool {
        self.phase != Phase::Idle
    }

    /// The machine once everything is constructed. Only a machine that is
    /// uninitialized and idle moves; any other stays as it is.
    pub open spec fn initialized(self) -> Lifecycle {
        if self.state == LifecycleState::Uninitialized && !self.busy() {
            Lifecycle { state: LifecycleState::Initialized, ..self }
        } else {
            self
        }
    }

    /// Startup begins.
    ///
    /// - While a transition is under way: refused.
    /// - From `Initialized`: the first participant is to be started.
    /// - From `Running`: nothing to do, all run already.
    /// - From any other state: refused, naming the state.
    pub open spec fn start_begun(self) -> (Lifecycle, Action) {
        if self.busy() {
            (self, Action::Failed(Error::TransitionInProgress))
        } else if self.state == LifecycleState::Initialized {
            (Lifecycle { phase: Phase::Starting { next: 0 }, ..self }, Action::Start(participant_at(0)))
        } else if self.state == LifecycleState::Running {
            (self, Action::Completed)
        } else {
            (self, Action::Failed(Error::InvalidState(self.state)))
        }
    }

    /// Shutdown begins.
    ///
    /// - While a transition is under way: refused.
    /// - From `Stopped`: nothing to do, and nothing is asked of any subsystem.
    /// - From `Running` or `Initialized`: the state becomes `ShuttingDown`,
    ///   the record of failed stops is cleared, and the last participant of
    ///   the start order is to be stopped.
    /// - From any other state: refused, naming the state.
    pub open spec fn shutdown_begun(self) -> (Lifecycle, Action) {
        if self.busy() {
            (self, Action::Failed(Error::TransitionInProgress))
        } else if self.state == LifecycleState::Stopped {
            (self, Action::Completed)
        } else if self.state == LifecycleState::Running || self.state
            == LifecycleState::Initialized {
            (
                Lifecycle {
                    state: LifecycleState::ShuttingDown,
                    phase: Phase::Stopping { next: (PARTICIPANTS - 1) as u8 },
                    failures: StopFailures::empty(),
                    ..self
                },
                Action::Stop(participant_at((PARTICIPANTS - 1) as u8)),
            )
        } else {
            (self, Action::Failed(Error::InvalidState(self.state)))
        }
    }

    /// The record of failed stops after the stop of `id` went as `succeeded`.
    pub open spec fn failures_after(self, id: SubsystemId, succeeded: bool) -> StopFailures {
        if succeeded {
            self.failures
        } else {
            self.failures.including(id)
        }
    }

    /// The pending action went as `succeeded` says.
    ///
    /// - A start that succeeded: the participant counts as started; the next
    ///   one is to be started, or, after the last, the state is `Running`.
    /// - A start that failed: the participant before it is to be stopped,
    ///   or, if it was the first, the failure is reported at once.
    /// - A stop, succeeded or not: the participant counts as stopped, a
    ///   failure goes on record, and the participant before it is to be
    ///   stopped. After the first participant a rollback reports the failed
    ///   start; a shutdown goes on to drain the execution engine.
    /// - The drain, succeeded or not: the state is `Stopped`; the failures on
    ///   record are reported together, if there are any.
    pub open spec fn advanced(self, succeeded: bool) -> (Lifecycle, Action) {
        match self.phase {
            Phase::Idle => (self, Action::Nothing),
            Phase::Starting { next } => {
                if succeeded {
                    let started = self.started.set(next, true);
                    if next + 1 >= PARTICIPANTS {
                        (
                            Lifecycle {
                                state: LifecycleState::Running,
                                phase: Phase::Idle,
                                started,
                                ..self
                            },
                            Action::Completed,
                        )
                    } else {
                        (
                            Lifecycle {
                                phase: Phase::Starting { next: (next + 1) as u8 },
                                started,
                                ..self
                            },
                            Action::Start(participant_at((next + 1) as u8)),
                        )
                    }
                } else if next == 0 {
                    (
                        Lifecycle { phase: Phase::Idle, failures: StopFailures::empty(), ..self },
                        Action::Failed(
                            Error::SubsystemStart {
                                subsystem: participant_at(next),
                                rollback: StopFailures::empty(),
                            },
                        ),
                    )
                } else {
                    (
                        Lifecycle {
                            phase: Phase::RollingBack { failed: next, next: (next - 1) as u8 },
                            failures: StopFailures::empty(),
                            ..self
                        },
                        Action::Stop(participant_at((next - 1) as u8)),
                    )
                }
            },
            Phase::RollingBack { failed, next } => {
                let started = self.started.set(next, false);
                let failures = self.failures_after(participant_at(next), succeeded);
                if next == 0 {
                    (
                        Lifecycle { phase: Phase::Idle, started, failures, ..self },
                        Action::Failed(
                            Error::SubsystemStart {
                                subsystem: participant_at(failed),
                                rollback: failures,
                            },
                        ),
                    )
                } else {
                    (
                        Lifecycle {
                            phase: Phase::RollingBack { failed, next: (next - 1) as u8 },
                            started,
                            failures,
                            ..self
                        },
                        Action::Stop(participant_at((next - 1) as u8)),
                    )
                }
            },
            Phase::Stopping { next } => {
                let started = self.started.set(next, false);
                let failures = self.failures_after(participant_at(next), succeeded);
                if next == 0 {
                    (Lifecycle { phase: Phase::Draining, started, failures, ..self }, Action::Drain)
                } else {
                    (
                        Lifecycle {
                            phase: Phase::Stopping { next: (next - 1) as u8 },
                            started,
                            failures,
                            ..self
                        },
                        Action::Stop(participant_at((next - 1) as u8)),
                    )
                }
            },
            Phase::Draining => {
                let failures = self.failures_after(SubsystemId::Core, succeeded);
                (
                    Lifecycle {
                        state: LifecycleState::Stopped,
                        phase: Phase::Idle,
                        failures,
                        ..self
                    },
                    if failures.none_failed() {
                        Action::Completed
                    } else {
                        Action::Failed(Error::SubsystemStop(failures))
                    },
                )
            },
        }
    }

    /// The machine after the outcomes were reported one by one, for as long
    /// as an action was pending. Outcomes that are left over when the
    /// transition has ended are not read.
    pub open spec fn settled(self, outcomes: Seq<bool>) -> Lifecycle
        decreases outcomes.len(),
    {
        if !self.busy() || outcomes.len() == 0 {
            self
        } else {
            self.advanced(outcomes[0]).0.settled(outcomes.drop_first())
        }
    }

    /// The machine before anything is constructed.
    pub fn new() -> (machine: Lifecycle)
        ensures
            machine == Lifecycle::uninitialized(),
            machine.wf(),
    {
        Lifecycle {
            state: LifecycleState::Uninitialized,
            phase: Phase::Idle,
            started: Started { metrics: false, performance_monitor: false, battery_optimizer: false },
            failures: StopFailures::new(),
        }
    }

    /// Whether a transition is under way.
    pub fn is_busy(&self) -> (busy: bool)
        ensures
            busy == self.busy(),
    {
        match self.phase {
            Phase::Idle => false,
            _ => true,
        }
    }

    /// Notes that everything is constructed.
    pub fn initialize(&mut self)
        requires
            old(self).wf(),
        ensures
            *final(self) == old(self).initialized(),
            final(self).wf(),
    {
        if !self.is_busy() {
            match self.state {
                LifecycleState::Uninitialized => {
                    self.state = LifecycleState::Initialized;
                },
                _ => {},
            }
        }
    }

    /// Begins startup and names the first action.
    pub fn begin_start(&mut self) -> (action: Action)
        requires
            old(self).wf(),
        ensures
            (*final(self), action) == old(self).start_begun(),
            final(self).wf(),
    {
        if self.is_busy() {
            return Action::Failed(Error::TransitionInProgress);
        }
        match self.state {
            LifecycleState::Initialized => {
                self.phase = Phase::Starting { next: 0 };
                Action::Start(participant(0))
            },
            LifecycleState::Running => Action::Completed,
            _ => Action::Failed(Error::InvalidState(self.state)),
        }
    }

    /// Begins shutdown and names the first action.
    pub fn begin_shutdown(&mut self) -> (action: Action)
        requires
            old(self).wf(),
        ensures
            (*final(self), action) == old(self).shutdown_begun(),
            final(self).wf(),
    {
        if self.is_busy() {
            return Action::Failed(Error::TransitionInProgress);
        }
        match self.state {
            LifecycleState::Stopped => Action::Completed,
            LifecycleState::Running | LifecycleState::Initialized => {
                self.state = LifecycleState::ShuttingDown;
                self.phase = Phase::Stopping { next: PARTICIPANTS - 1 };
                self.failures = StopFailures::new();
                Action::Stop(participant(PARTICIPANTS - 1))
            },
            _ => Action::Failed(Error::InvalidState(self.state)),
        }
    }

    /// Takes the outcome of the pending action and names the next one.
    pub fn advance(&mut self, succeeded: bool) -> (action: Action)
        requires
            old(self).wf(),
        ensures
            (*final(self), action) == old(self).advanced(succeeded),
            final(self).wf(),
    {
        match self.phase {
            Phase::Idle => Action::Nothing,
            Phase::Starting { next } => {
                if succeeded {
                    self.started.mark(next, true);
                    if next + 1 >= PARTICIPANTS {
                        self.state = LifecycleState::Running;
                        self.phase = Phase::Idle;
                        Action::Completed
                    } else {
                        self.phase = Phase::Starting { next: next + 1 };
                        Action::Start(participant(next + 1))
                    }
                } else if next == 0 {
                    self.phase = Phase::Idle;
                    self.failures = StopFailures::new();
                    Action::Failed(
                        Error::SubsystemStart {
                            subsystem: participant(next),
                            rollback: StopFailures::new(),
                        },
                    )
                } else {
                    self.phase = Phase::RollingBack { failed: next, next: next - 1 };
                    self.failures = StopFailures::new();
                    Action::Stop(participant(next - 1))
                }
            },
            Phase::RollingBack { failed, next } => {
                self.started.mark(next, false);
                if !succeeded {
                    self.failures.record(participant(next));
                }
                if next == 0 {
                    self.phase = Phase::Idle;
                    Action::Failed(
                        Error::SubsystemStart {
                            subsystem: participant(failed),
                            rollback: self.failures,
                        },
                    )
                } else {
                    self.phase = Phase::RollingBack { failed, next: next - 1 };
                    Action::Stop(participant(next - 1))
                }
            },
            Phase::Stopping { next } => {
                self.started.mark(next, false);
                if !succeeded {
                    self.failures.record(participant(next));
                }
                if next == 0 {
                    self.phase = Phase::Draining;
                    Action::Drain
                } else {
                    self.phase = Phase::Stopping { next: next - 1 };
                    Action::Stop(participant(next - 1))
                }
            },
            Phase::Draining => {
                if !succeeded {
                    self.failures.record(SubsystemId::Core);
                }
                self.state = LifecycleState::Stopped;
                self.phase = Phase::Idle;
                if self.failures.is_empty() {
                    Action::Completed
                } else {
                    Action::Failed(Error::SubsystemStop(self.failures))
                }
            },
        }
    }
}

/// Every transition keeps state, progress and started participants in
/// agreement.
pub proof fn lemma_transitions_preserve_wf(machine: Lifecycle, succeeded: bool)
    requires
        machine.wf(),
    ensures
        machine.initialized().wf(),
        machine.start_begun().0.wf(),
        machine.shutdown_begun().0.wf(),
        machine.advanced(succeeded).0.wf(),
{
}

/// Whatever outcomes are reported, in whatever number, the machine stays
/// well formed.
pub proof fn lemma_settled_preserves_wf(machine: Lifecycle, outcomes: Seq<bool>)
    requires
        machine.wf(),
    ensures
        machine.settled(outcomes).wf(),
    decreases outcomes.len(),
{
    if machine.busy() && outcomes.len() > 0 {
        lemma_transitions_preserve_wf(machine, outcomes[0]);
        lemma_settled_preserves_wf(machine.advanced(outcomes[0]).0, outcomes.drop_first());
    }
}

/// No partial start is ever visible: in every well-formed machine, whether
/// or not a transition is under way, the state reads `Running` only if all
/// three participants are started, and an idle machine in any other state
/// has none started.
pub proof fn lemma_no_partial_start_is_visible(machine: Lifecycle)
    requires
        machine.wf(),
    ensures
        machine.state == LifecycleState::Running ==> machine.started == Started::all()
            && !machine.busy(),
        !machine.busy() && machine.state != LifecycleState::Running ==> machine.started
            == Started::none(),
{
}

/// Startup is all or nothing. From an idle, initialized machine, and for
/// every sequence of outcomes long enough to see the transition through
/// (three starts and two stops at most), startup ends either in `Running`
/// with all three participants started, or back in `Initialized` with none
/// started. It ends in `Running` exactly when the three starts succeed.
pub proof fn lemma_startup_is_all_or_nothing(machine: Lifecycle, outcomes: Seq<bool>)
    requires
        machine.wf(),
        machine.state == LifecycleState::Initialized,
        !machine.busy(),
        outcomes.len() >= 2 * PARTICIPANTS - 1,
    ensures
        ({
            let end = machine.start_begun().0.settled(outcomes);
            let all_succeed = outcomes[0] && outcomes[1] && outcomes[2];
            &&& !end.busy()
            &&& end.wf()
            &&& all_succeed ==> end.state == LifecycleState::Running && end.started
                == Started::all()
            &&& !all_succeed ==> end.state == LifecycleState::Initialized && end.started
                == Started::none()
        }),
{
    reveal_with_fuel(Lifecycle::settled, 6);
    let s0 = machine.start_begun().0;
    let o1 = outcomes.drop_first();
    let o2 = o1.drop_first();
    let o3 = o2.drop_first();
    let o4 = o3.drop_first();
    assert(o1[0] == outcomes[1]);
    assert(o2[0] == outcomes[2]);
    assert(o3[0] == outcomes[3]);
    assert(o4[0] == outcomes[4]);
    lemma_settled_preserves_wf(s0, outcomes);
}

/// Shutdown always arrives, and is idempotent. From an idle machine that is
/// running or initialized, and for every sequence of outcomes long enough
/// to see the transition through (three stops and the drain), shutdown ends
/// in `Stopped` with no participant started, whatever failed on the way. A
/// second shutdown then changes nothing and asks nothing of any subsystem:
/// it completes at once.
pub proof fn lemma_shutdown_is_idempotent(machine: Lifecycle, outcomes: Seq<bool>)
    requires
        machine.wf(),
        machine.state == LifecycleState::Running || machine.state == LifecycleState::Initialized,
        !machine.busy(),
        outcomes.len() >= PARTICIPANTS + 1,
    ensures
        ({
            let end = machine.shutdown_begun().0.settled(outcomes);
            &&& !end.busy()
            &&& end.wf()
            &&& end.state == LifecycleState::Stopped
            &&& end.started == Started::none()
            &&& end.shutdown_begun() == (end, Action::Completed)
        }),
{
    reveal_with_fuel(Lifecycle::settled, 5);
    let s0 = machine.shutdown_begun().0;
    let o1 = outcomes.drop_first();
    let o2 = o1.drop_first();
    let o3 = o2.drop_first();
    assert(o1[0] == outcomes[1]);
    assert(o2[0] == outcomes[2]);
    assert(o3[0] == outcomes[3]);
    lemma_settled_preserves_wf(s0, outcomes);
}

/// Shutdown stops in the reverse of the start order and drains last: the
/// actions of a shutdown are, in this order, the stop of the battery
/// optimizer, of the performance monitor, of the metrics collector, and the
/// drain of the execution engine. A failed stop does not change what comes
/// next.
pub proof fn lemma_shutdown_order(machine: Lifecycle, a: bool, b: bool, c: bool)
    requires
        machine.wf(),
        machine.state == LifecycleState::Running || machine.state == LifecycleState::Initialized,
        !machine.busy(),
    ensures
        ({
            let (s0, first) = machine.shutdown_begun();
            let (s1, second) = s0.advanced(a);
            let (s2, third) = s1.advanced(b);
            let (s3, fourth) = s2.advanced(c);
            &&& first == Action::Stop(SubsystemId::BatteryOptimizer)
            &&& second == Action::Stop(SubsystemId::PerformanceMonitor)
            &&& third == Action::Stop(SubsystemId::Metrics)
            &&& fourth == Action::Drain
            &&& s3.failures.battery_optimizer == !a
            &&& s3.failures.performance_monitor == !b
            &&& s3.failures.metrics == !c
        }),
{
}

/// Startup starts in order: the metrics collector, then the performance
/// monitor, then the battery optimizer; each only after the one before it
/// has started.
pub proof fn lemma_startup_order(machine: Lifecycle)
    requires
        machine.wf(),
        machine.state == LifecycleState::Initialized,
        !machine.busy(),
    ensures
        ({
            let (s0, first) = machine.start_begun();
            let (s1, second) = s0.advanced(true);
            let (s2, third) = s1.advanced(true);
            let (s3, last) = s2.advanced(true);
            &&& first == Action::Start(SubsystemId::Metrics)
            &&& second == Action::Start(SubsystemId::PerformanceMonitor)
            &&& third == Action::Start(SubsystemId::BatteryOptimizer)
            &&& last == Action::Completed
            &&& s3.state == LifecycleState::Running
        }),
{
}

} // verus!
