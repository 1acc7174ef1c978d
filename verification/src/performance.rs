//! The performance monitor: once per evaluation it condenses the latest
//! window of the execution engine's samples into a signal.

use vstd::prelude::*;
use crate::config::Config;
use crate::error::Error;
use crate::metrics::MetricSample;
use crate::quantile::{percentile_of, rank_position, sort};

verus! {

/// What one evaluation says of the execution engine's performance. Each
/// evaluation's signal replaces the one before as a whole.
#[derive(Clone, Copy, Debug, PartialEq, Eq, Structural)]
pub struct PerformanceSignal {
    /// The median of the window's values.
    pub p50_latency: u64,
    /// The 99th percentile of the window's values.
    pub p99_latency: u64,
    /// Samples per second over the evaluation interval.
    pub throughput: u64,
    /// How many samples the window held.
    pub sample_window: u64,
}

/// The values of the samples, in their order.
pub open spec fn values_of(window: Seq<MetricSample>) -> Seq<u64> {
    window.map_values(|sample: MetricSample| sample.value)
}

/// Samples per second: `count` samples in `interval_ms` milliseconds.
pub open spec fn throughput_of(count: nat, interval_ms: u64) -> int
    recommends
        interval_ms > 0,
{
    (count as int * 1000) / (interval_ms as int)
}

/// The signal of a window that holds samples.
pub open spec fn signal_of(window: Seq<MetricSample>, interval_ms: u64) -> PerformanceSignal
    recommends
        window.len() > 0,
        interval_ms > 0,
        window.len() * 1000 <= u64::MAX,
{
    PerformanceSignal {
        p50_latency: percentile_of(values_of(window), 50),
        p99_latency: percentile_of(values_of(window), 99),
        throughput: throughput_of(window.len(), interval_ms) as u64,
        sample_window: window.len() as u64,
    }
}

/// The signal after an evaluation: that of the window, or, when the window
/// is empty, the signal of the evaluation before, unchanged. An idle period
/// thus never reads as zero throughput.
pub open spec fn next_signal(
    prior: PerformanceSignal,
    window: Seq<MetricSample>,
    interval_ms: u64,
) -> PerformanceSignal {
    if window.len() == 0 {
        prior
    } else {
        signal_of(window, interval_ms)
    }
}

impl PerformanceSignal {
    /// The signal before any sample was seen.
    pub open spec fn initial() -> PerformanceSignal {
        PerformanceSignal { p50_latency: 0, p99_latency: 0, throughput: 0, sample_window: 0 }
    }

    /// The signal before any sample was seen.
    pub fn zero() -> (signal: PerformanceSignal)
        ensures
            signal == PerformanceSignal::initial(),
    {
        PerformanceSignal { p50_latency: 0, p99_latency: 0, throughput: 0, sample_window: 0 }
    }
}

/// The values of the samples, in their order.
pub fn sample_values(window: &Vec<MetricSample>) -> (values: Vec<u64>)
    ensures
        values@ == values_of(window@),
{
    let mut values: Vec<u64> = Vec::new();
    let mut i: usize = 0;
    while i < window.len()
        invariant
            i <= window.len(),
            values@ == values_of(window@.take(i as int)),
        decreases window.len() - i,
    {
        values.push(window[i].value);
        proof {
            assert(values_of(window@.take(i + 1)) =~= values_of(window@.take(i as int)).push(
                window@[i as int].value,
            ));
        }
        i = i + 1;
    }
    proof {
        assert(window@.take(window.len() as int) =~= window@);
    }
    values
}

/// Condenses a window into a signal, or hands back `prior` when the window
/// is empty.
pub fn summarize(prior: PerformanceSignal, window: &Vec<MetricSample>, interval_ms: u64) -> (signal:
    PerformanceSignal)
    requires
        interval_ms > 0,
        window.len() * 1000 <= u64::MAX,
    ensures
        signal == next_signal(prior, window@, interval_ms),
{
    let count = window.len();
    if count == 0 {
        prior
    } else {
        let values = sample_values(window);
        let sorted = sort(&values);
        let p50 = sorted[rank_position(count, 50)];
        let p99 = sorted[rank_position(count, 99)];
        let scaled: u64 = count as u64 * 1000;
        PerformanceSignal {
            p50_latency: p50,
            p99_latency: p99,
            throughput: scaled / interval_ms,
            sample_window: count as u64,
        }
    }
}

/// The subsystem that publishes a signal once per evaluation.
#[derive(Clone, Copy, Debug, PartialEq, Eq, Structural)]
pub struct PerformanceMonitor {
    tick_interval_ms: u64,
    signal: PerformanceSignal,
    started: bool,
}

impl PerformanceMonitor {
    /// The evaluation interval is positive.
    pub closed spec fn wf(&self) -> bool {
        self.tick_interval_ms > 0
    }

    pub closed spec fn spec_tick_interval_ms(&self) -> u64 {
        self.tick_interval_ms
    }

    pub closed spec fn spec_signal(&self) -> PerformanceSignal {
        self.signal
    }

    pub closed spec fn spec_is_started(&self) -> bool {
        self.started
    }

    /// A monitor that has not been started and has seen no sample. Fails
    /// exactly when the configuration is invalid, with its first fault.
    pub fn new(config: &Config) -> (result: Result<PerformanceMonitor, Error>)
        ensures
            result is Ok <==> config.valid(),
            match result {
                Ok(monitor) => {
                    &&& monitor.wf()
                    &&& monitor.spec_tick_interval_ms() == config.tick_interval_ms
                    &&& monitor.spec_signal() == PerformanceSignal::initial()
                    &&& !monitor.spec_is_started()
                },
                Err(error) => config.fault() == Some(error->Configuration_0) && error
                    is Configuration,
            },
    {
        match config.validate() {
            Err(error) => Err(error),
            Ok(()) => Ok(
                PerformanceMonitor {
                    tick_interval_ms: config.tick_interval_ms as u64,
                    signal: PerformanceSignal::zero(),
                    started: false,
                },
            ),
        }
    }

    /// The time between two evaluations, in milliseconds.
    #[verifier::when_used_as_spec(spec_tick_interval_ms)]
    pub fn tick_interval_ms(&self) -> (interval: u64)
        ensures
            interval == self.spec_tick_interval_ms(),
    {
        self.tick_interval_ms
    }

    /// The signal of the latest evaluation.
    #[verifier::when_used_as_spec(spec_signal)]
    pub fn signal(&self) -> (signal: PerformanceSignal)
        ensures
            signal == self.spec_signal(),
    {
        self.signal
    }

    #[verifier::when_used_as_spec(spec_is_started)]
    pub fn is_started(&self) -> (started: bool)
        ensures
            started == self.spec_is_started(),
    {
        self.started
    }

    /// Starts the monitor. On one that runs already this changes nothing.
    pub fn start(&mut self)
        ensures
            final(self).is_started(),
            final(self).tick_interval_ms() == old(self).tick_interval_ms(),
            final(self).signal() == old(self).signal(),
            old(self).wf() ==> final(self).wf(),
    {
        self.started = true;
    }

    /// Stops the monitor. On one that does not run this changes nothing.
    pub fn stop(&mut self)
        ensures
            !final(self).is_started(),
            final(self).tick_interval_ms() == old(self).tick_interval_ms(),
            final(self).signal() == old(self).signal(),
            old(self).wf() ==> final(self).wf(),
    {
        self.started = false;
    }

    /// One evaluation over the window of the interval that just ended. The
    /// new signal replaces the old one as a whole; an empty window leaves the
    /// old signal in place. A monitor that does not run keeps its signal and
    /// returns it.
    pub fn evaluate(&mut self, window: &Vec<MetricSample>) -> (signal: PerformanceSignal)
        requires
            old(self).wf(),
            window.len() * 1000 <= u64::MAX,
        ensures
            final(self).wf(),
            final(self).tick_interval_ms() == old(self).tick_interval_ms(),
            final(self).is_started() == old(self).is_started(),
            signal == final(self).signal(),
            signal == if old(self).is_started() {
                next_signal(old(self).signal(), window@, old(self).tick_interval_ms())
            } else {
                old(self).signal()
            },
    {
        if self.started {
            let next = summarize(self.signal, window, self.tick_interval_ms);
            self.signal = next;
        }
        self.signal
    }
}

} // verus!
