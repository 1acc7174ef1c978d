//! The orchestrator: it owns the four subsystems, drives their lifecycle
//! and wires the path from telemetry to policy to budget.
//!
//! Per evaluation the data flows one way: the execution engine's samples
//! are collected, the performance monitor condenses the latest window into a
//! signal, the battery optimizer turns signal and power state into a
//! policy, and the policy becomes the execution engine's budget. The two
//! evaluations run on timers of their own, so each has its own entry point.

use vstd::prelude::*;
use crate::battery::{decided_policy, BatteryOptimizer, PowerState, ResourcePolicy};
use crate::capability::{check, validate_system_capabilities, warnings_for, SystemCapabilities, Warning};
use crate::config::Config;
use crate::error::Error;
use crate::lifecycle::{Action, Lifecycle, LifecycleState, Phase, Started};
use crate::metrics::{appended, selector, MetricSample, MetricsCollector};
use crate::performance::{next_signal, PerformanceMonitor, PerformanceSignal};
use crate::runtime::{is_fresh, SovereignCore};
use crate::subsystem::SubsystemId;

verus! {

/// The state of the whole runtime: one per process, held by the process's
/// entry point.
pub struct AppState {
    core: SovereignCore,
    battery_optimizer: BatteryOptimizer,
    performance_monitor: PerformanceMonitor,
    metrics: MetricsCollector,
    config: Config,
    capabilities: SystemCapabilities,
    lifecycle: Lifecycle,
}

impl AppState {
    pub closed spec fn spec_core(&self) -> SovereignCore {
        self.core
    }

    pub closed spec fn spec_battery_optimizer(&self) -> BatteryOptimizer {
        self.battery_optimizer
    }

    pub closed spec fn spec_performance_monitor(&self) -> PerformanceMonitor {
        self.performance_monitor
    }

    pub closed spec fn spec_metrics(&self) -> MetricsCollector {
        self.metrics
    }

    pub closed spec fn spec_config(&self) -> Config {
        self.config
    }

    pub closed spec fn spec_capabilities(&self) -> SystemCapabilities {
        self.capabilities
    }

    pub closed spec fn spec_lifecycle(&self) -> Lifecycle {
        self.lifecycle
    }

    /// The state that callers see.
    pub open spec fn spec_state(&self) -> LifecycleState {
        self.spec_lifecycle().state
    }

    /// The subsystems are well formed and built from the configuration, the
    /// lifecycle machine agrees with what the subsystems say of themselves,
    /// the execution engine's budget is the optimizer's latest policy, and
    /// the engine takes work until its drain begins.
    pub open spec fn wf(&self) -> bool {
        let lifecycle = self.spec_lifecycle();
        &&& self.spec_config().valid()
        &&& self.spec_core().wf()
        &&& self.spec_battery_optimizer().wf()
        &&& self.spec_performance_monitor().wf()
        &&& self.spec_metrics().wf()
        &&& lifecycle.wf()
        &&& lifecycle.state != LifecycleState::Uninitialized
        &&& lifecycle.started == (Started {
            metrics: self.spec_metrics().is_started(),
            performance_monitor: self.spec_performance_monitor().is_started(),
            battery_optimizer: self.spec_battery_optimizer().is_started(),
        })
        &&& self.spec_core().policy() == self.spec_battery_optimizer().policy()
        &&& self.spec_core().is_accepting() == (lifecycle.phase != Phase::Draining
            && lifecycle.state != LifecycleState::Stopped)
        &&& self.spec_performance_monitor().tick_interval_ms() == self.spec_config().tick_interval_ms
        &&& self.spec_battery_optimizer().tunables() == BatteryOptimizer::tunables_of(
            self.spec_config(),
        )
        &&& self.spec_metrics().capacity() == self.spec_config().metrics_capacity
    }

    /// What a freshly constructed orchestrator looks like: initialized and
    /// idle, nothing started, no sample seen, full budget.
    pub open spec fn fresh(&self, config: Config, capabilities: SystemCapabilities) -> bool {
        &&& self.wf()
        &&& self.spec_config() == config
        &&& self.spec_capabilities() == capabilities
        &&& self.spec_lifecycle() == Lifecycle::uninitialized().initialized()
        &&& self.spec_metrics()@ == Seq::<MetricSample>::empty()
        &&& self.spec_metrics().evicted() == 0
        &&& self.spec_performance_monitor().signal() == PerformanceSignal::initial()
        &&& self.spec_battery_optimizer().policy() == ResourcePolicy::unthrottled(
            config.base_concurrency,
        )
        &&& self.spec_core().applied_tick() is None
        &&& self.spec_core().in_flight() == 0
    }

    /// Whether `other` holds the same telemetry, policy and load as `self`:
    /// all but the lifecycle and what follows from it.
    pub open spec fn same_data(&self, other: &AppState) -> bool {
        &&& other.spec_config() == self.spec_config()
        &&& other.spec_capabilities() == self.spec_capabilities()
        &&& other.spec_metrics()@ == self.spec_metrics()@
        &&& other.spec_metrics().evicted() == self.spec_metrics().evicted()
        &&& other.spec_performance_monitor().signal() == self.spec_performance_monitor().signal()
        &&& other.spec_battery_optimizer().policy() == self.spec_battery_optimizer().policy()
        &&& other.spec_core().applied_tick() == self.spec_core().applied_tick()
        &&& other.spec_core().in_flight() == self.spec_core().in_flight()
    }

    /// Constructs the subsystems from `config` and takes the host's
    /// capabilities as given. Capability warnings never stand in the way:
    /// construction fails exactly when the configuration is invalid, and
    /// then with its first fault.
    pub fn with_capabilities(config: Config, capabilities: SystemCapabilities) -> (result: Result<
        AppState,
        Error,
    >)
        ensures
            result is Ok <==> config.valid(),
            match result {
                Ok(app) => app.fresh(config, capabilities),
                Err(error) => error is Configuration && config.fault() == Some(
                    error->Configuration_0,
                ),
            },
    {
        let core = match SovereignCore::new(&config) {
            Ok(core) => core,
            Err(error) => {
                return Err(error);
            },
        };
        let battery_optimizer = match BatteryOptimizer::new(&config) {
            Ok(battery_optimizer) => battery_optimizer,
            Err(error) => {
                return Err(error);
            },
        };
        let performance_monitor = match PerformanceMonitor::new(&config) {
            Ok(performance_monitor) => performance_monitor,
            Err(error) => {
                return Err(error);
            },
        };
        let metrics = match MetricsCollector::new(&config) {
            Ok(metrics) => metrics,
            Err(error) => {
                return Err(error);
            },
        };
        let mut lifecycle = Lifecycle::new();
        lifecycle.initialize();
        Ok(
            AppState {
                core,
                battery_optimizer,
                performance_monitor,
                metrics,
                config,
                capabilities,
                lifecycle,
            },
        )
    }

    /// Constructs the subsystems from `config`, then queries the host for its
    /// capabilities. What the host reports decides nothing but the warnings:
    /// construction fails exactly when the configuration is invalid, and
    /// then with its first fault.
    pub fn new(config: Config) -> (result: Result<AppState, Error>)
        ensures
            result is Ok <==> config.valid(),
            match result {
                Ok(app) => app.fresh(config, app.spec_capabilities()),
                Err(error) => error is Configuration && config.fault() == Some(
                    error->Configuration_0,
                ),
            },
    {
        match config.validate() {
            Err(error) => Err(error),
            Ok(()) => {
                let report = validate_system_capabilities();
                AppState::with_capabilities(config, report.capabilities)
            },
        }
    }

    /// The state that callers see.
    #[verifier::when_used_as_spec(spec_state)]
    pub fn state(&self) -> (state: LifecycleState)
        ensures
            state == self.spec_state(),
    {
        self.lifecycle.state
    }

    /// The lifecycle machine as it stands.
    #[verifier::when_used_as_spec(spec_lifecycle)]
    pub fn lifecycle(&self) -> (lifecycle: Lifecycle)
        ensures
            lifecycle == self.spec_lifecycle(),
    {
        self.lifecycle
    }

    #[verifier::when_used_as_spec(spec_config)]
    pub fn config(&self) -> (config: Config)
        ensures
            config == self.spec_config(),
    {
        self.config
    }

    /// The host's capabilities, as taken at construction.
    #[verifier::when_used_as_spec(spec_capabilities)]
    pub fn capabilities(&self) -> (capabilities: SystemCapabilities)
        ensures
            capabilities == self.spec_capabilities(),
    {
        self.capabilities
    }

    /// The warnings that the host's capabilities draw.
    pub fn warnings(&self) -> (warnings: Vec<Warning>)
        ensures
            warnings@ == warnings_for(self.capabilities()),
    {
        check(self.capabilities)
    }

    /// The execution engine.
    pub fn runtime(&self) -> (runtime: &SovereignCore)
        ensures
            *runtime == self.spec_core(),
    {
        &self.core
    }

    pub fn battery_optimizer(&self) -> (battery_optimizer: &BatteryOptimizer)
        ensures
            *battery_optimizer == self.spec_battery_optimizer(),
    {
        &self.battery_optimizer
    }

    pub fn performance_monitor(&self) -> (performance_monitor: &PerformanceMonitor)
        ensures
            *performance_monitor == self.spec_performance_monitor(),
    {
        &self.performance_monitor
    }

    pub fn metrics(&self) -> (metrics: &MetricsCollector)
        ensures
            *metrics == self.spec_metrics(),
    {
        &self.metrics
    }

    /// The latest performance signal.
    pub fn signal(&self) -> (signal: PerformanceSignal)
        ensures
            signal == self.spec_performance_monitor().signal(),
    {
        self.performance_monitor.signal()
    }

    /// The policy in force.
    pub fn policy(&self) -> (policy: ResourcePolicy)
        ensures
            policy == self.spec_core().policy(),
    {
        self.core.policy()
    }

    /// Begins startup and names the first action. The lifecycle machine
    /// says what that is; telemetry, policy and load are not touched.
    pub fn start(&mut self) -> (action: Action)
        requires
            old(self).wf(),
        ensures
            final(self).wf(),
            (final(self).lifecycle(), action) == old(self).lifecycle().start_begun(),
            old(self).same_data(final(self)),
    {
        self.lifecycle.begin_start()
    }

    /// Begins shutdown and names the first action. The lifecycle machine
    /// says what that is; telemetry, policy and load are not touched. On an
    /// orchestrator that has stopped this completes at once and changes
    /// nothing.
    pub fn shutdown(&mut self) -> (action: Action)
        requires
            old(self).wf(),
        ensures
            final(self).wf(),
            (final(self).lifecycle(), action) == old(self).lifecycle().shutdown_begun(),
            old(self).same_data(final(self)),
            old(self).state() == LifecycleState::Stopped ==> action == Action::Completed
                && final(self).lifecycle() == old(self).lifecycle(),
    {
        self.lifecycle.begin_shutdown()
    }

    /// Takes the outcome of the pending action and names the next one. The
    /// lifecycle machine says what that is. The subsystem that the action
    /// was about is noted as started or stopped accordingly, and the
    /// execution engine is closed to new work when its drain begins.
    pub fn complete(&mut self, succeeded: bool) -> (action: Action)
        requires
            old(self).wf(),
        ensures
            final(self).wf(),
            (final(self).lifecycle(), action) == old(self).lifecycle().advanced(succeeded),
            old(self).same_data(final(self)),
    {
        let action = self.lifecycle.advance(succeeded);
        let started = self.lifecycle.started;
        if started.metrics {
            self.metrics.start();
        } else {
            self.metrics.stop();
        }
        if started.performance_monitor {
            self.performance_monitor.start();
        } else {
            self.performance_monitor.stop();
        }
        if started.battery_optimizer {
            self.battery_optimizer.start();
        } else {
            self.battery_optimizer.stop();
        }
        match self.lifecycle.phase {
            Phase::Draining => {
                let _ = self.core.shutdown();
            },
            _ => {},
        }
        action
    }

    /// Hands a sample to the metrics collector. This never fails and never
    /// waits, in any state.
    pub fn record(&mut self, sample: MetricSample)
        requires
            old(self).wf(),
        ensures
            final(self).wf(),
            final(self).spec_metrics()@ == appended(
                old(self).spec_metrics()@,
                old(self).spec_metrics().capacity() as nat,
                sample,
            ),
            final(self).lifecycle() == old(self).lifecycle(),
            final(self).spec_performance_monitor() == old(self).spec_performance_monitor(),
            final(self).spec_battery_optimizer() == old(self).spec_battery_optimizer(),
            final(self).spec_core() == old(self).spec_core(),
            final(self).config() == old(self).config(),
            final(self).capabilities() == old(self).capabilities(),
    {
        self.metrics.record(sample);
    }

    /// Asks the execution engine to run one more task.
    pub fn try_begin_work(&mut self) -> (admitted: bool)
        requires
            old(self).wf(),
        ensures
            final(self).wf(),
            admitted == (old(self).spec_core().is_accepting() && old(self).spec_core().in_flight()
                < old(self).spec_core().policy().max_concurrent_tasks),
            final(self).spec_core().in_flight() == if admitted {
                old(self).spec_core().in_flight() + 1
            } else {
                old(self).spec_core().in_flight() as int
            },
            final(self).lifecycle() == old(self).lifecycle(),
            final(self).spec_core().policy() == old(self).spec_core().policy(),
    {
        self.core.try_begin_work()
    }

    /// Notes that a task of the execution engine has ended.
    pub fn finish_work(&mut self) -> (finished: bool)
        requires
            old(self).wf(),
        ensures
            final(self).wf(),
            finished == (old(self).spec_core().in_flight() > 0),
            final(self).spec_core().in_flight() == if finished {
                old(self).spec_core().in_flight() - 1
            } else {
                0
            },
            final(self).lifecycle() == old(self).lifecycle(),
            final(self).spec_core().policy() == old(self).spec_core().policy(),
    {
        self.core.finish_work()
    }

    /// The signal that an evaluation at `now` publishes: that of the
    /// execution engine's samples in the interval that ends at `now`, or the
    /// signal before if there are none.
    pub open spec fn signal_at(&self, now: u64) -> PerformanceSignal {
        let interval = self.spec_performance_monitor().tick_interval_ms();
        next_signal(
            self.spec_performance_monitor().signal(),
            self.spec_metrics()@.filter(selector(SubsystemId::Core, now, interval)),
            interval,
        )
    }

    /// One evaluation of the performance monitor, at the instant `now`. It
    /// reads only samples taken at or before `now`. While the orchestrator
    /// is not running nothing is evaluated and nothing published.
    pub fn monitor_tick(&mut self, now: u64) -> (published: Option<PerformanceSignal>)
        requires
            old(self).wf(),
        ensures
            final(self).wf(),
            published == if old(self).state() == LifecycleState::Running {
                Some(old(self).signal_at(now))
            } else {
                None
            },
            final(self).spec_performance_monitor().signal() == match published {
                Some(signal) => signal,
                None => old(self).spec_performance_monitor().signal(),
            },
            final(self).lifecycle() == old(self).lifecycle(),
            final(self).spec_metrics() == old(self).spec_metrics(),
            final(self).spec_battery_optimizer() == old(self).spec_battery_optimizer(),
            final(self).spec_core() == old(self).spec_core(),
            final(self).config() == old(self).config(),
            final(self).capabilities() == old(self).capabilities(),
    {
        match self.lifecycle.state {
            LifecycleState::Running => {
                let interval = self.performance_monitor.tick_interval_ms();
                let window = self.metrics.window(SubsystemId::Core, now, interval);
                proof {
                    self.metrics.lemma_wf_bounds();
                }
                let signal = self.performance_monitor.evaluate(&window);
                Some(signal)
            },
            _ => None,
        }
    }

    /// The policy that an evaluation under `power` decides: the decision
    /// table applied to the budget in force and the latest signal.
    pub open spec fn policy_under(&self, power: PowerState) -> ResourcePolicy {
        decided_policy(
            self.spec_battery_optimizer().tunables(),
            self.spec_battery_optimizer().policy().cpu_budget_fraction,
            power,
            self.spec_performance_monitor().signal().p99_latency,
        )
    }

    /// Whether an evaluation tagged `tick` takes effect: the orchestrator
    /// runs, and no policy of this tick or a later one is in force.
    pub open spec fn takes_tick(&self, tick: u64) -> bool {
        self.spec_state() == LifecycleState::Running && is_fresh(
            self.spec_core().applied_tick(),
            tick,
        )
    }

    /// One evaluation of the battery optimizer, tagged with its tick. The
    /// policy is decided from the latest published signal and becomes the
    /// execution engine's budget at once. An evaluation that comes out of
    /// order, or while the orchestrator is not running, decides nothing and
    /// leaves the policy in force untouched.
    pub fn optimizer_tick(&mut self, tick: u64, power: PowerState) -> (applied: Option<
        ResourcePolicy,
    >)
        requires
            old(self).wf(),
        ensures
            final(self).wf(),
            applied == if old(self).takes_tick(tick) {
                Some(old(self).policy_under(power))
            } else {
                None
            },
            final(self).spec_core().policy() == match applied {
                Some(policy) => policy,
                None => old(self).spec_core().policy(),
            },
            final(self).spec_core().applied_tick() == match applied {
                Some(policy) => Some(tick),
                None => old(self).spec_core().applied_tick(),
            },
            final(self).spec_core().in_flight() == old(self).spec_core().in_flight(),
            final(self).lifecycle() == old(self).lifecycle(),
            final(self).spec_metrics() == old(self).spec_metrics(),
            final(self).spec_performance_monitor() == old(self).spec_performance_monitor(),
            final(self).config() == old(self).config(),
            final(self).capabilities() == old(self).capabilities(),
    {
        let running = match self.lifecycle.state {
            LifecycleState::Running => true,
            _ => false,
        };
        if running && self.core.accepts_tick(tick) {
            let signal = self.performance_monitor.signal();
            let policy = self.battery_optimizer.evaluate(&power, &signal);
            let _ = self.core.apply_policy(policy, tick);
            Some(policy)
        } else {
            None
        }
    }
}

} // verus!
