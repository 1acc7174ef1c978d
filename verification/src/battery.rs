//! The throttling decision table and the optimizer that applies it tick by
//! tick.
//!
//! The optimizer is a hysteresis controller. The two hard triggers (thermal
//! risk, low battery) set the CPU budget to a fixed value at once; in every
//! other case the budget climbs back towards one whole by one step per
//! evaluation.

use vstd::prelude::*;
use crate::config::{Config, PPM};
use crate::error::Error;
use crate::performance::PerformanceSignal;

verus! {

/// The CPU budget under thermal risk: 40 %.
pub const THERMAL_BUDGET: u32 = 400_000;

/// The CPU budget of an unplugged device that is low on battery: 50 %.
pub const LOW_BATTERY_BUDGET: u32 = 500_000;

/// The device's power state, as the host reports it once per evaluation.
#[derive(Clone, Copy, Debug, PartialEq, Eq, Structural)]
pub struct PowerState {
    /// Charge left, in parts per million of a full battery.
    pub battery_fraction: u32,
    pub charging: bool,
    pub thermal_risk: bool,
}

/// Why a policy holds the budget where it is.
#[derive(Clone, Copy, Debug, PartialEq, Eq, Structural)]
pub enum ThrottleReason {
    /// No rule throttles: the budget is on its way back to one whole.
    Unthrottled,
    LowBattery,
    ThermalRisk,
    PerformanceDegradation,
}

/// A throttling directive for the execution engine.
#[derive(Clone, Copy, Debug, PartialEq, Eq, Structural)]
pub struct ResourcePolicy {
    /// Share of the CPU that work may use, in parts per million.
    pub cpu_budget_fraction: u32,
    /// How many tasks may run at once; never less than one.
    pub max_concurrent_tasks: u32,
    pub throttle_reason: ThrottleReason,
}

/// The tunables that the decision table reads.
#[derive(Clone, Copy, Debug, PartialEq, Eq, Structural)]
pub struct PolicyTunables {
    /// A p99 latency above this asks for more budget.
    pub sla_latency_threshold: u64,
    /// Battery fraction below which an unplugged device is throttled.
    pub low_battery_threshold: u32,
    /// How far the budget moves per evaluation when no hard trigger fires.
    pub policy_step: u32,
    /// Concurrency at full budget.
    pub base_concurrency: u32,
}

/// `budget` raised by `step`, capped at one whole.
pub open spec fn raised(budget: u32, step: u32) -> u32 {
    if budget + step >= PPM {
        PPM
    } else {
        (budget + step) as u32
    }
}

/// `floor(base * budget)`, but never less than one task.
pub open spec fn concurrency_at(base: u32, budget: u32) -> u32
    recommends
        budget <= PPM,
{
    let scaled = (base as int * budget as int) / (PPM as int);
    if scaled < 1 {
        1
    } else {
        scaled as u32
    }
}

/// The budget and the reason that the decision table gives. The first rule
/// that matches wins:
/// 1. thermal risk: the thermal budget;
/// 2. battery below the threshold and not charging: the low-battery budget;
/// 3. p99 latency above the bound while the budget is below one whole: one
///    step up, as recovery from degraded performance;
/// 4. otherwise: one step up, towards one whole.
pub open spec fn decided_budget(
    tunables: PolicyTunables,
    prior_budget: u32,
    power: PowerState,
    p99_latency: u64,
) -> (u32, ThrottleReason) {
    if power.thermal_risk {
        (THERMAL_BUDGET, ThrottleReason::ThermalRisk)
    } else if power.battery_fraction < tunables.low_battery_threshold && !power.charging {
        (LOW_BATTERY_BUDGET, ThrottleReason::LowBattery)
    } else if p99_latency > tunables.sla_latency_threshold && prior_budget < PPM {
        (raised(prior_budget, tunables.policy_step), ThrottleReason::PerformanceDegradation)
    } else {
        (raised(prior_budget, tunables.policy_step), ThrottleReason::Unthrottled)
    }
}

/// The policy that follows `prior_budget` under the given power state and
/// latency.
pub open spec fn decided_policy(
    tunables: PolicyTunables,
    prior_budget: u32,
    power: PowerState,
    p99_latency: u64,
) -> ResourcePolicy {
    let (budget, reason) = decided_budget(tunables, prior_budget, power, p99_latency);
    ResourcePolicy {
        cpu_budget_fraction: budget,
        max_concurrent_tasks: concurrency_at(tunables.base_concurrency, budget),
        throttle_reason: reason,
    }
}

impl ResourcePolicy {
    /// The budget is a fraction and at least one task may run.
    pub open spec fn wf(self) -> bool {
        &&& self.cpu_budget_fraction <= PPM
        &&& self.max_concurrent_tasks >= 1
    }

    /// The policy in force before any evaluation: full budget, unthrottled.
    pub open spec fn unthrottled(base_concurrency: u32) -> ResourcePolicy {
        ResourcePolicy {
            cpu_budget_fraction: PPM,
            max_concurrent_tasks: concurrency_at(base_concurrency, PPM),
            throttle_reason: ThrottleReason::Unthrottled,
        }
    }

    /// The policy in force before any evaluation: full budget, unthrottled.
    pub fn full(base_concurrency: u32) -> (policy: ResourcePolicy)
        ensures
            policy == ResourcePolicy::unthrottled(base_concurrency),
            policy.wf(),
            policy.max_concurrent_tasks == if base_concurrency == 0 {
                1
            } else {
                base_concurrency
            },
    {
        ResourcePolicy {
            cpu_budget_fraction: PPM,
            max_concurrent_tasks: scale_concurrency(base_concurrency, PPM),
            throttle_reason: ThrottleReason::Unthrottled,
        }
    }
}

/// `budget` raised by `step`, capped at one whole.
pub fn raise(budget: u32, step: u32) -> (next: u32)
    ensures
        next == raised(budget, step),
        next <= PPM,
{
    let sum: u64 = budget as u64 + step as u64;
    if sum >= PPM as u64 {
        PPM
    } else {
        sum as u32
    }
}

/// How many tasks may run at once under `budget`: `floor(base * budget)`,
/// but never less than one.
pub fn scale_concurrency(base: u32, budget: u32) -> (tasks: u32)
    requires
        budget <= PPM,
    ensures
        tasks == concurrency_at(base, budget),
        1 <= tasks,
        tasks <= base || tasks == 1,
{
    assert(base * budget <= 0xFFFF_FFFF * 1_000_000) by (nonlinear_arith)
        requires
            base <= 0xFFFF_FFFF,
            budget <= 1_000_000,
    ;
    let product: u64 = base as u64 * budget as u64;
    let scaled: u64 = product / (PPM as u64);
    assert(scaled <= base) by (nonlinear_arith)
        requires
            scaled == (base as int * budget as int) / (PPM as int),
            budget <= PPM,
            PPM == 1_000_000,
    ;
    if scaled < 1 {
        1
    } else {
        scaled as u32
    }
}

/// The decision table: the policy for this evaluation, from the budget of
/// the last one, the device's power state and the latest signal.
pub fn decide(
    tunables: &PolicyTunables,
    prior_budget: u32,
    power: &PowerState,
    signal: &PerformanceSignal,
) -> (policy: ResourcePolicy)
    ensures
        policy == decided_policy(*tunables, prior_budget, *power, signal.p99_latency),
        policy.wf(),
{
    let (budget, reason) = if power.thermal_risk {
        (THERMAL_BUDGET, ThrottleReason::ThermalRisk)
    } else if power.battery_fraction < tunables.low_battery_threshold && !power.charging {
        (LOW_BATTERY_BUDGET, ThrottleReason::LowBattery)
    } else if signal.p99_latency > tunables.sla_latency_threshold && prior_budget < PPM {
        (raise(prior_budget, tunables.policy_step), ThrottleReason::PerformanceDegradation)
    } else {
        (raise(prior_budget, tunables.policy_step), ThrottleReason::Unthrottled)
    };
    ResourcePolicy {
        cpu_budget_fraction: budget,
        max_concurrent_tasks: scale_concurrency(tunables.base_concurrency, budget),
        throttle_reason: reason,
    }
}

/// The distance between two budgets.
pub open spec fn budget_distance(a: u32, b: u32) -> int {
    if a <= b {
        b - a
    } else {
        a - b
    }
}

/// Bounded steps: unless a hard trigger fires, the budget moves by at most
/// the configured step, and never downwards. When thermal risk or low
/// battery fires, the budget is the trigger's fixed value, whatever it was
/// before.
pub proof fn lemma_budget_moves_by_bounded_steps(
    tunables: PolicyTunables,
    prior_budget: u32,
    power: PowerState,
    p99_latency: u64,
)
    requires
        prior_budget <= PPM,
    ensures
        ({
            let next = decided_policy(tunables, prior_budget, power, p99_latency);
            &&& next.throttle_reason == ThrottleReason::ThermalRisk ==> next.cpu_budget_fraction
                == THERMAL_BUDGET
            &&& next.throttle_reason == ThrottleReason::LowBattery ==> next.cpu_budget_fraction
                == LOW_BATTERY_BUDGET
            &&& (next.throttle_reason == ThrottleReason::Unthrottled || next.throttle_reason
                == ThrottleReason::PerformanceDegradation) ==> {
                &&& prior_budget <= next.cpu_budget_fraction
                &&& budget_distance(prior_budget, next.cpu_budget_fraction)
                    <= tunables.policy_step
            }
            &&& next.throttle_reason == ThrottleReason::ThermalRisk <==> power.thermal_risk
            &&& next.throttle_reason == ThrottleReason::LowBattery <==> (!power.thermal_risk
                && power.battery_fraction < tunables.low_battery_threshold && !power.charging)
        }),
{
}

/// The subsystem that turns power state and performance signal into a
/// policy, once per evaluation.
#[derive(Clone, Copy, Debug, PartialEq, Eq, Structural)]
pub struct BatteryOptimizer {
    tunables: PolicyTunables,
    policy: ResourcePolicy,
    started: bool,
}

impl BatteryOptimizer {
    /// The latest policy is well formed.
    pub closed spec fn wf(&self) -> bool {
        self.policy.wf()
    }

    pub closed spec fn spec_tunables(&self) -> PolicyTunables {
        self.tunables
    }

    pub closed spec fn spec_policy(&self) -> ResourcePolicy {
        self.policy
    }

    pub closed spec fn spec_is_started(&self) -> bool {
        self.started
    }

    /// The tunables that a valid configuration gives the optimizer.
    pub open spec fn tunables_of(config: Config) -> PolicyTunables {
        PolicyTunables {
            sla_latency_threshold: config.sla_latency_threshold as u64,
            low_battery_threshold: config.low_battery_threshold as u32,
            policy_step: config.policy_step as u32,
            base_concurrency: config.base_concurrency,
        }
    }

    /// An optimizer that has not been started, holding the unthrottled
    /// policy. Fails exactly when the configuration is invalid, with its
    /// first fault.
    pub fn new(config: &Config) -> (result: Result<BatteryOptimizer, Error>)
        ensures
            result is Ok <==> config.valid(),
            match result {
                Ok(optimizer) => {
                    &&& optimizer.wf()
                    &&& optimizer.spec_tunables() == BatteryOptimizer::tunables_of(*config)
                    &&& optimizer.spec_policy() == ResourcePolicy::unthrottled(
                        config.base_concurrency,
                    )
                    &&& !optimizer.spec_is_started()
                },
                Err(error) => config.fault() == Some(error->Configuration_0) && error
                    is Configuration,
            },
    {
        match config.validate() {
            Err(error) => Err(error),
            Ok(()) => {
                let tunables = PolicyTunables {
                    sla_latency_threshold: config.sla_latency_threshold as u64,
                    low_battery_threshold: config.low_battery_threshold as u32,
                    policy_step: config.policy_step as u32,
                    base_concurrency: config.base_concurrency,
                };
                Ok(
                    BatteryOptimizer {
                        tunables,
                        policy: ResourcePolicy::full(config.base_concurrency),
                        started: false,
                    },
                )
            },
        }
    }

    #[verifier::when_used_as_spec(spec_tunables)]
    pub fn tunables(&self) -> (tunables: PolicyTunables)
        ensures
            tunables == self.spec_tunables(),
    {
        self.tunables
    }

    /// The policy of the latest evaluation.
    #[verifier::when_used_as_spec(spec_policy)]
    pub fn policy(&self) -> (policy: ResourcePolicy)
        ensures
            policy == self.spec_policy(),
    {
        self.policy
    }

    #[verifier::when_used_as_spec(spec_is_started)]
    pub fn is_started(&self) -> (started: bool)
        ensures
            started == self.spec_is_started(),
    {
        self.started
    }

    /// Starts the optimizer. On one that runs already this changes nothing.
    pub fn start(&mut self)
        ensures
            final(self).is_started(),
            final(self).tunables() == old(self).tunables(),
            final(self).policy() == old(self).policy(),
            old(self).wf() ==> final(self).wf(),
    {
        self.started = true;
    }

    /// Stops the optimizer. On one that does not run this changes nothing.
    pub fn stop(&mut self)
        ensures
            !final(self).is_started(),
            final(self).tunables() == old(self).tunables(),
            final(self).policy() == old(self).policy(),
            old(self).wf() ==> final(self).wf(),
    {
        self.started = false;
    }

    /// One evaluation: the decision table applied to the budget of the last
    /// policy. The new policy replaces the old one as a whole. An optimizer
    /// that does not run keeps its policy and returns it.
    pub fn evaluate(&mut self, power: &PowerState, signal: &PerformanceSignal) -> (policy:
        ResourcePolicy)
        requires
            old(self).wf(),
        ensures
            final(self).wf(),
            final(self).tunables() == old(self).tunables(),
            final(self).is_started() == old(self).is_started(),
            policy == final(self).policy(),
            policy.wf(),
            policy == if old(self).is_started() {
                decided_policy(
                    old(self).tunables(),
                    old(self).policy().cpu_budget_fraction,
                    *power,
                    signal.p99_latency,
                )
            } else {
                old(self).policy()
            },
    {
        if self.started {
            let next = decide(&self.tunables, self.policy.cpu_budget_fraction, power, signal);
            self.policy = next;
        }
        self.policy
    }
}

} // verus!
