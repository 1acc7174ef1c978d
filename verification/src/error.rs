//! What can go wrong, and how it is reported.

use vstd::prelude::*;
use crate::lifecycle::LifecycleState;
use crate::subsystem::SubsystemId;

verus! {

/// A tunable of the configuration.
#[derive(Clone, Copy, Debug, PartialEq, Eq, Structural)]
pub enum ConfigField {
    TickInterval,
    SlaLatencyThreshold,
    LowBatteryThreshold,
    PolicyStep,
    MetricsCapacity,
}

/// The subsystems whose stop failed during one stop sequence. Failures are
/// collected, never short-circuited: every stop is attempted.
#[derive(Clone, Copy, Debug, PartialEq, Eq, Structural)]
pub struct StopFailures {
    pub battery_optimizer: bool,
    pub performance_monitor: bool,
    pub metrics: bool,
    pub core: bool,
}

impl StopFailures {
    /// No failure at all.
    pub open spec fn empty() -> StopFailures {
        StopFailures {
            battery_optimizer: false,
            performance_monitor: false,
            metrics: false,
            core: false,
        }
    }

    /// Whether the stop of `id` is on record as failed.
    pub open spec fn includes(self, id: SubsystemId) -> bool {
        match id {
            SubsystemId::Core => self.core,
            SubsystemId::Metrics => self.metrics,
            SubsystemId::PerformanceMonitor => self.performance_monitor,
            SubsystemId::BatteryOptimizer => self.battery_optimizer,
        }
    }

    /// The record with the stop of `id` added as failed.
    pub open spec fn including(self, id: SubsystemId) -> StopFailures {
        match id {
            SubsystemId::Core => StopFailures { core: true, ..self },
            SubsystemId::Metrics => StopFailures { metrics: true, ..self },
            SubsystemId::PerformanceMonitor => StopFailures { performance_monitor: true, ..self },
            SubsystemId::BatteryOptimizer => StopFailures { battery_optimizer: true, ..self },
        }
    }

    /// Whether nothing failed.
    pub open spec fn none_failed(self) -> bool {
        self == StopFailures::empty()
    }

    /// A record without failures.
    pub fn new() -> (failures: StopFailures)
        ensures
            failures == StopFailures::empty(),
    {
        StopFailures {
            battery_optimizer: false,
            performance_monitor: false,
            metrics: false,
            core: false,
        }
    }

    /// Adds the stop of `id` as failed.
    pub fn record(&mut self, id: SubsystemId)
        ensures
            *final(self) == old(self).including(id),
    {
        match id {
            SubsystemId::Core => {
                self.core = true;
            },
            SubsystemId::Metrics => {
                self.metrics = true;
            },
            SubsystemId::PerformanceMonitor => {
                self.performance_monitor = true;
            },
            SubsystemId::BatteryOptimizer => {
                self.battery_optimizer = true;
            },
        }
    }

    /// Whether the stop of `id` is on record as failed.
    pub fn contains(&self, id: SubsystemId) -> (failed: bool)
        ensures
            failed == self.includes(id),
    {
        match id {
            SubsystemId::Core => self.core,
            SubsystemId::Metrics => self.metrics,
            SubsystemId::PerformanceMonitor => self.performance_monitor,
            SubsystemId::BatteryOptimizer => self.battery_optimizer,
        }
    }

    /// Whether nothing failed.
    pub fn is_empty(&self) -> (empty: bool)
        ensures
            empty == self.none_failed(),
    {
        !self.battery_optimizer && !self.performance_monitor && !self.metrics && !self.core
    }
}

/// The errors that the orchestrator surfaces.
#[derive(Clone, Copy, Debug, PartialEq, Eq, Structural)]
pub enum Error {
    /// A tunable was invalid at construction. Fatal: nothing is constructed.
    Configuration(ConfigField),
    /// A subsystem failed to start. Those started before it were stopped
    /// again, in reverse order; `rollback` holds the stops that failed.
    SubsystemStart { subsystem: SubsystemId, rollback: StopFailures },
    /// One or more stops failed during shutdown. The sequence ran to its end
    /// all the same.
    SubsystemStop(StopFailures),
    /// A transition was asked for while another was still under way.
    TransitionInProgress,
    /// The transition is not open from this state: nothing starts again
    /// what has stopped for good.
    InvalidState(LifecycleState),
}

} // verus!
