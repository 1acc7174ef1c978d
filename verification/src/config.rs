//! The tunables of the governance loop and their validation.

use vstd::prelude::*;
use crate::error::{ConfigField, Error};

verus! {

/// One whole, in the parts per million in which every fraction is held.
pub const PPM: u32 = 1_000_000;

/// The largest sample buffer that a configuration may ask for.
pub const MAX_METRICS_CAPACITY: usize = 1_048_576;

/// The tunables, as handed in. Times are in milliseconds, fractions in
/// parts per million, latencies in the unit of the samples' values.
///
/// The fields are wide enough to hold values that make no sense (a negative
/// interval, a threshold above one): validation turns those into an error.
#[derive(Clone, Copy, Debug, PartialEq, Eq, Structural)]
pub struct Config {
    /// Time between two evaluations; at least 1.
    pub tick_interval_ms: i64,
    /// The p99 latency above which the budget is raised; not negative.
    pub sla_latency_threshold: i64,
    /// Battery fraction below which an unplugged device is throttled; within [0, 1].
    pub low_battery_threshold: i64,
    /// Concurrency at full budget.
    pub base_concurrency: u32,
    /// How far the budget moves per evaluation; within [0, 1].
    pub policy_step: i64,
    /// How many samples the collector keeps; from 1 to `MAX_METRICS_CAPACITY`.
    pub metrics_capacity: usize,
}

impl Config {
    pub open spec fn tick_interval_valid(self) -> bool {
        self.tick_interval_ms >= 1
    }

    pub open spec fn sla_latency_threshold_valid(self) -> bool {
        self.sla_latency_threshold >= 0
    }

    pub open spec fn low_battery_threshold_valid(self) -> bool {
        0 <= self.low_battery_threshold <= PPM
    }

    pub open spec fn policy_step_valid(self) -> bool {
        0 <= self.policy_step <= PPM
    }

    pub open spec fn metrics_capacity_valid(self) -> bool {
        1 <= self.metrics_capacity <= MAX_METRICS_CAPACITY
    }

    /// Every tunable is within its range.
    pub open spec fn valid(self) -> bool {
        &&& self.tick_interval_valid()
        &&& self.sla_latency_threshold_valid()
        &&& self.low_battery_threshold_valid()
        &&& self.policy_step_valid()
        &&& self.metrics_capacity_valid()
    }

    /// The first tunable that is out of range, in the order of `ConfigField`.
    pub open spec fn fault(self) -> Option<ConfigField> {
        if !self.tick_interval_valid() {
            Some(ConfigField::TickInterval)
        } else if !self.sla_latency_threshold_valid() {
            Some(ConfigField::SlaLatencyThreshold)
        } else if !self.low_battery_threshold_valid() {
            Some(ConfigField::LowBatteryThreshold)
        } else if !self.policy_step_valid() {
            Some(ConfigField::PolicyStep)
        } else if !self.metrics_capacity_valid() {
            Some(ConfigField::MetricsCapacity)
        } else {
            None
        }
    }

    /// Accepts the configuration, or names the first tunable out of range.
    pub fn validate(&self) -> (result: Result<(), Error>)
        ensures
            result is Ok <==> self.valid(),
            match self.fault() {
                Some(field) => result == Err::<(), Error>(Error::Configuration(field)),
                None => result is Ok,
            },
    {
        if self.tick_interval_ms < 1 {
            Err(Error::Configuration(ConfigField::TickInterval))
        } else if self.sla_latency_threshold < 0 {
            Err(Error::Configuration(ConfigField::SlaLatencyThreshold))
        } else if self.low_battery_threshold < 0 || self.low_battery_threshold > PPM as i64 {
            Err(Error::Configuration(ConfigField::LowBatteryThreshold))
        } else if self.policy_step < 0 || self.policy_step > PPM as i64 {
            Err(Error::Configuration(ConfigField::PolicyStep))
        } else if self.metrics_capacity < 1 || self.metrics_capacity > MAX_METRICS_CAPACITY {
            Err(Error::Configuration(ConfigField::MetricsCapacity))
        } else {
            Ok(())
        }
    }
}

impl Default for Config {
    /// One evaluation per second, a 100 000-unit latency bound, throttling
    /// below 15 % battery, eight tasks at full budget, steps of 10 %, and
    /// room for 1024 samples.
    fn default() -> (config: Config)
        ensures
            config == (Config {
                tick_interval_ms: 1000,
                sla_latency_threshold: 100_000,
                low_battery_threshold: 150_000,
                base_concurrency: 8,
                policy_step: 100_000,
                metrics_capacity: 1024,
            }),
            config.valid(),
    {
        Config {
            tick_interval_ms: 1000,
            sla_latency_threshold: 100_000,
            low_battery_threshold: 150_000,
            base_concurrency: 8,
            policy_step: 100_000,
            metrics_capacity: 1024,
        }
    }
}

} // verus!
