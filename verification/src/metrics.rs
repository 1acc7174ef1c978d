//! The metrics collector: a bounded, append-only buffer of samples.
//!
//! Producers append; when the buffer is full the oldest sample gives way, so
//! an append never fails and never waits. Readers take a copy of the samples
//! of one subsystem within a trailing time window.

use std::collections::VecDeque;
use vstd::prelude::*;
use crate::config::{Config, MAX_METRICS_CAPACITY};
use crate::error::Error;
use crate::subsystem::SubsystemId;

verus! {

/// One measurement, published by a subsystem.
#[derive(Clone, Copy, Debug, PartialEq, Eq, Structural)]
pub struct MetricSample {
    /// The subsystem that published the sample.
    pub subsystem_id: SubsystemId,
    /// The metric's name, interned by the publisher. The core does not read it.
    pub name: u32,
    pub value: u64,
    /// When the sample was taken, in milliseconds.
    pub timestamp: u64,
}

/// Whether `timestamp` lies in the window of length `duration` that ends at
/// `end`: after `end - duration`, and not after `end`.
pub open spec fn in_window(timestamp: u64, end: u64, duration: u64) -> bool {
    end - duration < timestamp <= end
}

/// Whether a read of `subsystem`'s window takes `sample`.
pub open spec fn selects(subsystem: SubsystemId, end: u64, duration: u64, sample: MetricSample) -> bool {
    sample.subsystem_id == subsystem && in_window(sample.timestamp, end, duration)
}

/// `selects`, as the predicate of a filter.
pub open spec fn selector(subsystem: SubsystemId, end: u64, duration: u64) -> spec_fn(
    MetricSample,
) -> bool {
    |sample: MetricSample| selects(subsystem, end, duration, sample)
}

/// The buffer after `sample` was appended: the oldest sample leaves first
/// when there is no room.
pub open spec fn appended(buffer: Seq<MetricSample>, capacity: nat, sample: MetricSample) -> Seq<
    MetricSample,
> {
    if buffer.len() < capacity {
        buffer.push(sample)
    } else {
        buffer.drop_first().push(sample)
    }
}

/// The eviction counter after one more eviction. It stops at `u64::MAX`.
pub open spec fn bumped(count: u64) -> u64 {
    if count < u64::MAX {
        (count + 1) as u64
    } else {
        count
    }
}

/// No future leakage. Whatever was written to the buffer, in whatever order,
/// a read of the window that ends at `end` holds no sample newer than `end`:
/// each sample in it was written, was published by `subsystem`, and has its
/// timestamp within the window.
pub proof fn lemma_window_holds_no_future_sample(
    buffer: Seq<MetricSample>,
    subsystem: SubsystemId,
    end: u64,
    duration: u64,
)
    ensures
        forall|i: int|
            0 <= i < buffer.filter(selector(subsystem, end, duration)).len() ==> {
                let sample = #[trigger] buffer.filter(selector(subsystem, end, duration))[i];
                &&& buffer.contains(sample)
                &&& sample.subsystem_id == subsystem
                &&& sample.timestamp <= end
                &&& end - duration < sample.timestamp
            },
{
    let keep = selector(subsystem, end, duration);
    let read = buffer.filter(keep);
    assert forall|i: int| 0 <= i < read.len() implies {
        let sample = #[trigger] read[i];
        &&& buffer.contains(sample)
        &&& selects(subsystem, end, duration, sample)
    } by {
        buffer.lemma_filter_pred(keep, i);
        assert(read.contains(read[i]));
        buffer.lemma_filter_contains_rev(keep, read[i]);
    }
}

/// The passive sink of all samples.
pub struct MetricsCollector {
    samples: VecDeque<MetricSample>,
    capacity: usize,
    evicted: u64,
    started: bool,
}

impl View for MetricsCollector {
    type V = Seq<MetricSample>;

    /// The samples held, oldest first.
    closed spec fn view(&self) -> Seq<MetricSample> {
        self.samples@
    }
}

impl MetricsCollector {
    /// The buffer holds at most `capacity` samples.
    pub closed spec fn wf(&self) -> bool {
        &&& 1 <= self.capacity <= MAX_METRICS_CAPACITY
        &&& self.samples@.len() <= self.capacity
    }

    pub closed spec fn spec_capacity(&self) -> usize {
        self.capacity
    }

    pub closed spec fn spec_evicted(&self) -> u64 {
        self.evicted
    }

    pub closed spec fn spec_is_started(&self) -> bool {
        self.started
    }

    /// What well-formedness says of the view.
    pub proof fn lemma_wf_bounds(&self)
        requires
            self.wf(),
        ensures
            self@.len() <= self.spec_capacity(),
            1 <= self.spec_capacity() <= MAX_METRICS_CAPACITY,
    {
    }

    /// An empty collector that has not been started. Fails exactly when the
    /// configuration is invalid, with its first fault.
    pub fn new(config: &Config) -> (result: Result<MetricsCollector, Error>)
        ensures
            result is Ok <==> config.valid(),
            match result {
                Ok(collector) => {
                    &&& collector.wf()
                    &&& collector@ == Seq::<MetricSample>::empty()
                    &&& collector.spec_capacity() == config.metrics_capacity
                    &&& collector.spec_evicted() == 0
                    &&& !collector.spec_is_started()
                },
                Err(error) => config.fault() == Some(error->Configuration_0) && error
                    is Configuration,
            },
    {
        match config.validate() {
            Err(error) => Err(error),
            Ok(()) => Ok(
                MetricsCollector {
                    samples: VecDeque::new(),
                    capacity: config.metrics_capacity,
                    evicted: 0,
                    started: false,
                },
            ),
        }
    }

    /// How many samples the buffer holds at most.
    #[verifier::when_used_as_spec(spec_capacity)]
    pub fn capacity(&self) -> (capacity: usize)
        ensures
            capacity == self.spec_capacity(),
    {
        self.capacity
    }

    /// How many samples are held.
    pub fn len(&self) -> (len: usize)
        ensures
            len == self@.len(),
    {
        self.samples.len()
    }

    /// How many samples have been dropped to make room. The counter is for
    /// observation only; an eviction is never an error.
    #[verifier::when_used_as_spec(spec_evicted)]
    pub fn evicted(&self) -> (evicted: u64)
        ensures
            evicted == self.spec_evicted(),
    {
        self.evicted
    }

    #[verifier::when_used_as_spec(spec_is_started)]
    pub fn is_started(&self) -> (started: bool)
        ensures
            started == self.spec_is_started(),
    {
        self.started
    }

    /// Starts the collector. On one that runs already this changes nothing.
    pub fn start(&mut self)
        ensures
            final(self).is_started(),
            final(self)@ == old(self)@,
            final(self).capacity() == old(self).capacity(),
            final(self).evicted() == old(self).evicted(),
            old(self).wf() ==> final(self).wf(),
    {
        self.started = true;
    }

    /// Stops the collector. On one that does not run this changes nothing.
    /// The samples stay.
    pub fn stop(&mut self)
        ensures
            !final(self).is_started(),
            final(self)@ == old(self)@,
            final(self).capacity() == old(self).capacity(),
            final(self).evicted() == old(self).evicted(),
            old(self).wf() ==> final(self).wf(),
    {
        self.started = false;
    }

    /// Appends a sample. A full buffer drops its oldest sample to make room
    /// and counts the eviction.
    pub fn record(&mut self, sample: MetricSample)
        requires
            old(self).wf(),
        ensures
            final(self).wf(),
            final(self)@ == appended(old(self)@, old(self).capacity() as nat, sample),
            final(self).evicted() == if old(self)@.len() < old(self).capacity() {
                old(self).evicted()
            } else {
                bumped(old(self).evicted())
            },
            final(self).capacity() == old(self).capacity(),
            final(self).is_started() == old(self).is_started(),
    {
        if self.samples.len() >= self.capacity {
            let _ = self.samples.pop_front();
            if self.evicted < u64::MAX {
                self.evicted = self.evicted + 1;
            }
        }
        self.samples.push_back(sample);
    }

    /// A copy of the samples of `subsystem` whose timestamps lie in the
    /// window of length `duration` that ends at `end`, in the order in which
    /// they were recorded. Later appends do not change the copy, and no
    /// sample in it is newer than `end`.
    pub fn window(&self, subsystem: SubsystemId, end: u64, duration: u64) -> (snapshot: Vec<
        MetricSample,
    >)
        ensures
            snapshot@ == self@.filter(selector(subsystem, end, duration)),
            snapshot@.len() <= self@.len(),
            forall|i: int|
                0 <= i < snapshot@.len() ==> selects(subsystem, end, duration, #[trigger] snapshot@[i]),
            forall|i: int| 0 <= i < snapshot@.len() ==> (#[trigger] snapshot@[i]).timestamp <= end,
    {
        let ghost keep = selector(subsystem, end, duration);
        let mut snapshot: Vec<MetricSample> = Vec::new();
        let n = self.samples.len();
        let mut i: usize = 0;
        while i < n
            invariant
                n == self.samples@.len(),
                i <= n,
                keep == selector(subsystem, end, duration),
                snapshot@ == self.samples@.take(i as int).filter(keep),
            decreases n - i,
        {
            let sample = self.samples[i];
            proof {
                reveal(Seq::filter);
                assert(self.samples@.take(i + 1).drop_last() =~= self.samples@.take(i as int));
                assert(self.samples@.take(i + 1).last() == sample);
            }
            if sample.subsystem_id == subsystem && sample.timestamp <= end && end
                - sample.timestamp < duration {
                snapshot.push(sample);
            }
            i = i + 1;
        }
        proof {
            assert(self.samples@.take(n as int) =~= self.samples@);
            self@.lemma_filter_len(keep);
            lemma_window_holds_no_future_sample(self@, subsystem, end, duration);
        }
        snapshot
    }
}

} // verus!
