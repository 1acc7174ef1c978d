use sovereign_core::error::StopFailures;
use sovereign_core::lifecycle::{Action, Lifecycle, LifecycleState, Phase, Started};
use sovereign_core::subsystem::{participant, SubsystemId, PARTICIPANTS};
use sovereign_core::Error;

const NONE: Started =
    Started { metrics: false, performance_monitor: false, battery_optimizer: false };
const ALL: Started = Started { metrics: true, performance_monitor: true, battery_optimizer: true };
const NO_FAILURE: StopFailures =
    StopFailures { battery_optimizer: false, performance_monitor: false, metrics: false, core: false };

fn initialized() -> Lifecycle {
    let mut machine = Lifecycle::new();
    machine.initialize();
    machine
}

fn running() -> Lifecycle {
    let mut machine = initialized();
    machine.begin_start();
    machine.advance(true);
    machine.advance(true);
    machine.advance(true);
    machine
}

fn stopped() -> Lifecycle {
    let mut machine = running();
    machine.begin_shutdown();
    for _ in 0..4 {
        machine.advance(true);
    }
    machine
}

#[test]
fn machine_begins_uninitialized() {
    let machine = Lifecycle::new();
    assert_eq!(machine.state, LifecycleState::Uninitialized);
    assert_eq!(machine.phase, Phase::Idle);
    assert_eq!(machine.started, NONE);
    assert_eq!(machine.failures, NO_FAILURE);
    assert!(!machine.is_busy());
}

#[test]
fn uninitialized_machine_neither_starts_nor_shuts_down() {
    let mut machine = Lifecycle::new();
    assert_eq!(
        machine.begin_start(),
        Action::Failed(Error::InvalidState(LifecycleState::Uninitialized))
    );
    assert_eq!(
        machine.begin_shutdown(),
        Action::Failed(Error::InvalidState(LifecycleState::Uninitialized))
    );
    assert_eq!(machine, Lifecycle::new());
}

#[test]
fn initialize_moves_only_an_uninitialized_machine() {
    let machine = initialized();
    assert_eq!(machine.state, LifecycleState::Initialized);
    let mut again = running();
    again.initialize();
    assert_eq!(again, running());
    let mut ended = stopped();
    ended.initialize();
    assert_eq!(ended, stopped());
}

#[test]
fn start_order_is_metrics_then_monitor_then_optimizer() {
    assert_eq!(PARTICIPANTS, 3);
    assert_eq!(participant(0), SubsystemId::Metrics);
    assert_eq!(participant(1), SubsystemId::PerformanceMonitor);
    assert_eq!(participant(2), SubsystemId::BatteryOptimizer);
}

#[test]
fn startup_reaches_running_with_all_three_started() {
    let mut machine = initialized();
    assert_eq!(machine.begin_start(), Action::Start(SubsystemId::Metrics));
    assert_eq!(machine.state, LifecycleState::Initialized);
    assert!(machine.is_busy());
    assert_eq!(machine.advance(true), Action::Start(SubsystemId::PerformanceMonitor));
    assert_eq!(machine.state, LifecycleState::Initialized);
    assert_eq!(machine.advance(true), Action::Start(SubsystemId::BatteryOptimizer));
    assert_eq!(machine.state, LifecycleState::Initialized);
    assert_eq!(machine.advance(true), Action::Completed);
    assert_eq!(machine.state, LifecycleState::Running);
    assert_eq!(machine.started, ALL);
    assert!(!machine.is_busy());
}

#[test]
fn failed_first_start_is_reported_at_once() {
    let mut machine = initialized();
    machine.begin_start();
    assert_eq!(
        machine.advance(false),
        Action::Failed(Error::SubsystemStart {
            subsystem: SubsystemId::Metrics,
            rollback: NO_FAILURE
        })
    );
    assert_eq!(machine, initialized());
}

#[test]
fn failed_second_start_stops_the_first_before_it_is_reported() {
    let mut machine = initialized();
    machine.begin_start();
    machine.advance(true);
    assert_eq!(machine.advance(false), Action::Stop(SubsystemId::Metrics));
    assert_eq!(machine.state, LifecycleState::Initialized);
    assert!(machine.is_busy());
    assert_eq!(
        machine.advance(true),
        Action::Failed(Error::SubsystemStart {
            subsystem: SubsystemId::PerformanceMonitor,
            rollback: NO_FAILURE
        })
    );
    assert_eq!(machine.state, LifecycleState::Initialized);
    assert_eq!(machine.started, NONE);
    assert!(!machine.is_busy());
}

#[test]
fn failed_third_start_rolls_back_in_reverse_order() {
    let mut machine = initialized();
    machine.begin_start();
    machine.advance(true);
    machine.advance(true);
    assert_eq!(machine.advance(false), Action::Stop(SubsystemId::PerformanceMonitor));
    assert_eq!(
        machine.started,
        Started { metrics: true, performance_monitor: true, battery_optimizer: false }
    );
    assert_eq!(machine.advance(true), Action::Stop(SubsystemId::Metrics));
    assert_eq!(
        machine.started,
        Started { metrics: true, performance_monitor: false, battery_optimizer: false }
    );
    assert_eq!(
        machine.advance(true),
        Action::Failed(Error::SubsystemStart {
            subsystem: SubsystemId::BatteryOptimizer,
            rollback: NO_FAILURE
        })
    );
    assert_eq!(machine, initialized());
}

#[test]
fn failed_stops_of_a_rollback_are_reported_with_the_failed_start() {
    let mut machine = initialized();
    machine.begin_start();
    machine.advance(true);
    machine.advance(true);
    machine.advance(false);
    assert_eq!(machine.advance(false), Action::Stop(SubsystemId::Metrics));
    let rollback = StopFailures { performance_monitor: true, ..NO_FAILURE };
    assert_eq!(
        machine.advance(true),
        Action::Failed(Error::SubsystemStart { subsystem: SubsystemId::BatteryOptimizer, rollback })
    );
    assert_eq!(machine.state, LifecycleState::Initialized);
    assert_eq!(machine.started, NONE);
    assert_eq!(machine.failures, rollback);
}

#[test]
fn startup_never_leaks_a_partial_start() {
    for outcomes in 0u32..32 {
        let mut machine = initialized();
        let mut action = machine.begin_start();
        let mut step = 0;
        loop {
            match action {
                Action::Start(_) | Action::Stop(_) => {
                    assert_eq!(machine.state, LifecycleState::Initialized);
                    action = machine.advance(outcomes & (1 << step) != 0);
                    step += 1;
                }
                Action::Completed => {
                    assert_eq!(machine.state, LifecycleState::Running);
                    assert_eq!(machine.started, ALL);
                    assert_eq!(outcomes & 7, 7);
                    break;
                }
                Action::Failed(Error::SubsystemStart { .. }) => {
                    assert_eq!(machine.state, LifecycleState::Initialized);
                    assert_eq!(machine.started, NONE);
                    assert_ne!(outcomes & 7, 7);
                    break;
                }
                other => panic!("startup gave {:?}", other),
            }
        }
        assert!(!machine.is_busy());
        assert!(step <= 5);
    }
}

#[test]
fn startup_can_be_tried_again_after_a_failure() {
    let mut machine = initialized();
    machine.begin_start();
    machine.advance(false);
    assert_eq!(machine.begin_start(), Action::Start(SubsystemId::Metrics));
    machine.advance(true);
    machine.advance(true);
    assert_eq!(machine.advance(true), Action::Completed);
    assert_eq!(machine.state, LifecycleState::Running);
}

#[test]
fn starting_a_running_machine_changes_nothing() {
    let mut machine = running();
    assert_eq!(machine.begin_start(), Action::Completed);
    assert_eq!(machine, running());
}

#[test]
fn shutdown_stops_in_reverse_order_and_drains_last() {
    let mut machine = running();
    assert_eq!(machine.begin_shutdown(), Action::Stop(SubsystemId::BatteryOptimizer));
    assert_eq!(machine.state, LifecycleState::ShuttingDown);
    assert_eq!(machine.advance(true), Action::Stop(SubsystemId::PerformanceMonitor));
    assert_eq!(machine.advance(true), Action::Stop(SubsystemId::Metrics));
    assert_eq!(machine.advance(true), Action::Drain);
    assert_eq!(machine.state, LifecycleState::ShuttingDown);
    assert_eq!(machine.started, NONE);
    assert_eq!(machine.advance(true), Action::Completed);
    assert_eq!(machine.state, LifecycleState::Stopped);
    assert!(!machine.is_busy());
}

#[test]
fn shutdown_attempts_every_stop_and_reports_all_failures_together() {
    let mut machine = running();
    machine.begin_shutdown();
    assert_eq!(machine.advance(false), Action::Stop(SubsystemId::PerformanceMonitor));
    assert_eq!(machine.advance(true), Action::Stop(SubsystemId::Metrics));
    assert_eq!(machine.advance(false), Action::Drain);
    let failures = StopFailures { battery_optimizer: true, metrics: true, ..NO_FAILURE };
    assert_eq!(machine.advance(true), Action::Failed(Error::SubsystemStop(failures)));
    assert_eq!(machine.state, LifecycleState::Stopped);
    assert_eq!(machine.started, NONE);
    assert_eq!(machine.failures, failures);
    assert!(failures.contains(SubsystemId::BatteryOptimizer));
    assert!(failures.contains(SubsystemId::Metrics));
    assert!(!failures.contains(SubsystemId::PerformanceMonitor));
    assert!(!failures.contains(SubsystemId::Core));
    assert!(!failures.is_empty());
}

#[test]
fn failed_drain_is_reported_and_still_ends_in_stopped() {
    let mut machine = running();
    machine.begin_shutdown();
    machine.advance(true);
    machine.advance(true);
    machine.advance(true);
    let failures = StopFailures { core: true, ..NO_FAILURE };
    assert_eq!(machine.advance(false), Action::Failed(Error::SubsystemStop(failures)));
    assert_eq!(machine.state, LifecycleState::Stopped);
}

#[test]
fn shutdown_always_ends_in_stopped() {
    for outcomes in 0u32..16 {
        let mut machine = running();
        let mut action = machine.begin_shutdown();
        let mut step = 0;
        let mut asked: Vec<Action> = Vec::new();
        loop {
            match action {
                Action::Stop(_) | Action::Drain => {
                    asked.push(action);
                    action = machine.advance(outcomes & (1 << step) != 0);
                    step += 1;
                }
                Action::Completed => {
                    assert_eq!(outcomes, 15);
                    break;
                }
                Action::Failed(Error::SubsystemStop(failures)) => {
                    assert_ne!(outcomes, 15);
                    assert_eq!(failures.battery_optimizer, outcomes & 1 == 0);
                    assert_eq!(failures.performance_monitor, outcomes & 2 == 0);
                    assert_eq!(failures.metrics, outcomes & 4 == 0);
                    assert_eq!(failures.core, outcomes & 8 == 0);
                    break;
                }
                other => panic!("shutdown gave {:?}", other),
            }
        }
        assert_eq!(
            asked,
            vec![
                Action::Stop(SubsystemId::BatteryOptimizer),
                Action::Stop(SubsystemId::PerformanceMonitor),
                Action::Stop(SubsystemId::Metrics),
                Action::Drain,
            ]
        );
        assert_eq!(machine.state, LifecycleState::Stopped);
        assert_eq!(machine.started, NONE);
    }
}

#[test]
fn second_shutdown_does_nothing_and_succeeds() {
    let mut machine = stopped();
    assert_eq!(machine.state, LifecycleState::Stopped);
    let before = machine;
    assert_eq!(machine.begin_shutdown(), Action::Completed);
    assert_eq!(machine, before);
    assert_eq!(machine.state, LifecycleState::Stopped);
    assert!(!machine.is_busy());
    assert_eq!(machine.begin_shutdown(), Action::Completed);
    assert_eq!(machine, before);
}

#[test]
fn second_shutdown_after_failures_still_succeeds() {
    let mut machine = running();
    machine.begin_shutdown();
    for _ in 0..4 {
        machine.advance(false);
    }
    let before = machine;
    assert_eq!(machine.begin_shutdown(), Action::Completed);
    assert_eq!(machine, before);
}

#[test]
fn stopped_machine_does_not_start_again() {
    let mut machine = stopped();
    assert_eq!(
        machine.begin_start(),
        Action::Failed(Error::InvalidState(LifecycleState::Stopped))
    );
    assert_eq!(machine, stopped());
}

#[test]
fn shutdown_of_a_machine_that_never_ran_goes_the_same_way() {
    let mut machine = initialized();
    assert_eq!(machine.begin_shutdown(), Action::Stop(SubsystemId::BatteryOptimizer));
    assert_eq!(machine.advance(true), Action::Stop(SubsystemId::PerformanceMonitor));
    assert_eq!(machine.advance(true), Action::Stop(SubsystemId::Metrics));
    assert_eq!(machine.advance(true), Action::Drain);
    assert_eq!(machine.advance(true), Action::Completed);
    assert_eq!(machine.state, LifecycleState::Stopped);
}

#[test]
fn transitions_do_not_interleave() {
    let mut machine = initialized();
    machine.begin_start();
    let during_start = machine;
    assert_eq!(machine.begin_start(), Action::Failed(Error::TransitionInProgress));
    assert_eq!(machine.begin_shutdown(), Action::Failed(Error::TransitionInProgress));
    assert_eq!(machine, during_start);
    let mut machine = running();
    machine.begin_shutdown();
    machine.advance(true);
    let during_shutdown = machine;
    assert_eq!(machine.begin_start(), Action::Failed(Error::TransitionInProgress));
    assert_eq!(machine.begin_shutdown(), Action::Failed(Error::TransitionInProgress));
    assert_eq!(machine, during_shutdown);
}

#[test]
fn outcome_without_a_pending_action_changes_nothing() {
    let mut machine = initialized();
    assert_eq!(machine.advance(true), Action::Nothing);
    assert_eq!(machine.advance(false), Action::Nothing);
    assert_eq!(machine, initialized());
    let mut machine = running();
    assert_eq!(machine.advance(false), Action::Nothing);
    assert_eq!(machine, running());
}

#[test]
fn shutdown_clears_the_failures_of_an_earlier_rollback() {
    let mut machine = initialized();
    machine.begin_start();
    machine.advance(true);
    machine.advance(false);
    machine.advance(false);
    assert_eq!(machine.failures, StopFailures { metrics: true, ..NO_FAILURE });
    machine.begin_shutdown();
    assert_eq!(machine.failures, NO_FAILURE);
    for _ in 0..3 {
        machine.advance(true);
    }
    assert_eq!(machine.advance(true), Action::Completed);
}

#[test]
fn failure_records_collect_subsystems() {
    let mut failures = StopFailures::new();
    assert!(failures.is_empty());
    assert_eq!(failures, NO_FAILURE);
    failures.record(SubsystemId::Core);
    failures.record(SubsystemId::Core);
    assert_eq!(failures, StopFailures { core: true, ..NO_FAILURE });
    failures.record(SubsystemId::Metrics);
    failures.record(SubsystemId::PerformanceMonitor);
    failures.record(SubsystemId::BatteryOptimizer);
    assert_eq!(
        failures,
        StopFailures { battery_optimizer: true, performance_monitor: true, metrics: true, core: true }
    );
}

#[test]
fn started_marks_follow_positions() {
    let mut started = NONE;
    started.mark(1, true);
    assert_eq!(
        started,
        Started { metrics: false, performance_monitor: true, battery_optimizer: false }
    );
    started.mark(0, true);
    started.mark(2, true);
    assert_eq!(started, ALL);
    started.mark(1, false);
    assert_eq!(
        started,
        Started { metrics: true, performance_monitor: false, battery_optimizer: true }
    );
}
