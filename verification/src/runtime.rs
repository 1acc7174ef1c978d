//! The execution engine, seen as a work scheduler under a resource budget.
//!
//! What the engine executes is not this crate's concern. The crate governs
//! how much may run at once, and that policies take effect in tick order.

use vstd::prelude::*;
use crate::battery::ResourcePolicy;
use crate::config::Config;
use crate::error::Error;

verus! {

/// The execution engine's budget and load.
#[derive(Clone, Copy, Debug, PartialEq, Eq, Structural)]
pub struct SovereignCore {
    policy: ResourcePolicy,
    applied_tick: Option<u64>,
    in_flight: u32,
    accepting: bool,
}

/// Whether a policy tagged `tick` is newer than the one in force.
pub open spec fn is_fresh(applied_tick: Option<u64>, tick: u64) -> bool {
    match applied_tick {
        Some(applied) => tick > applied,
        None => true,
    }
}

impl SovereignCore {
    /// The policy in force is well formed.
    pub closed spec fn wf(&self) -> bool {
        self.policy.wf()
    }

    pub closed spec fn spec_policy(&self) -> ResourcePolicy {
        self.policy
    }

    pub closed spec fn spec_applied_tick(&self) -> Option<u64> {
        self.applied_tick
    }

    pub closed spec fn spec_in_flight(&self) -> u32 {
        self.in_flight
    }

    pub closed spec fn spec_is_accepting(&self) -> bool {
        self.accepting
    }

    /// An idle engine under the unthrottled policy, ready to take work.
    /// Fails exactly when the configuration is invalid, with its first fault.
    pub fn new(config: &Config) -> (result: Result<SovereignCore, Error>)
        ensures
            result is Ok <==> config.valid(),
            match result {
                Ok(core) => {
                    &&& core.wf()
                    &&& core.spec_policy() == ResourcePolicy::unthrottled(config.base_concurrency)
                    &&& core.spec_applied_tick() is None
                    &&& core.spec_in_flight() == 0
                    &&& core.spec_is_accepting()
                },
                Err(error) => config.fault() == Some(error->Configuration_0) && error
                    is Configuration,
            },
    {
        match config.validate() {
            Err(error) => Err(error),
            Ok(()) => Ok(
                SovereignCore {
                    policy: ResourcePolicy::full(config.base_concurrency),
                    applied_tick: None,
                    in_flight: 0,
                    accepting: true,
                },
            ),
        }
    }

    /// The policy in force: the one applied last.
    #[verifier::when_used_as_spec(spec_policy)]
    pub fn policy(&self) -> (policy: ResourcePolicy)
        ensures
            policy == self.spec_policy(),
    {
        self.policy
    }

    /// The tick of the policy in force; none before the first application.
    #[verifier::when_used_as_spec(spec_applied_tick)]
    pub fn applied_tick(&self) -> (tick: Option<u64>)
        ensures
            tick == self.spec_applied_tick(),
    {
        self.applied_tick
    }

    /// How many tasks are running.
    #[verifier::when_used_as_spec(spec_in_flight)]
    pub fn in_flight(&self) -> (tasks: u32)
        ensures
            tasks == self.spec_in_flight(),
    {
        self.in_flight
    }

    /// Whether the engine still takes new work.
    #[verifier::when_used_as_spec(spec_is_accepting)]
    pub fn is_accepting(&self) -> (accepting: bool)
        ensures
            accepting == self.spec_is_accepting(),
    {
        self.accepting
    }

    /// Whether no task is running.
    pub fn is_drained(&self) -> (drained: bool)
        ensures
            drained == (self.in_flight() == 0),
    {
        self.in_flight == 0
    }

    /// Whether a policy tagged `tick` would take effect.
    pub fn accepts_tick(&self, tick: u64) -> (fresh: bool)
        ensures
            fresh == is_fresh(self.applied_tick(), tick),
    {
        match self.applied_tick {
            Some(applied) => tick > applied,
            None => true,
        }
    }

    /// Puts `policy` in force if it is newer than the one in force, and says
    /// whether it did. A stale policy never overwrites a fresher one. The
    /// change governs the work admitted after the call; tasks that run
    /// already are left alone.
    pub fn apply_policy(&mut self, policy: ResourcePolicy, tick: u64) -> (applied: bool)
        requires
            old(self).wf(),
            policy.wf(),
        ensures
            final(self).wf(),
            applied == is_fresh(old(self).applied_tick(), tick),
            applied ==> final(self).policy() == policy && final(self).applied_tick() == Some(tick),
            !applied ==> final(self).policy() == old(self).policy() && final(self).applied_tick()
                == old(self).applied_tick(),
            final(self).in_flight() == old(self).in_flight(),
            final(self).is_accepting() == old(self).is_accepting(),
    {
        if self.accepts_tick(tick) {
            self.policy = policy;
            self.applied_tick = Some(tick);
            true
        } else {
            false
        }
    }

    /// Asks to run one more task. It is admitted if the engine takes new
    /// work and fewer tasks run than the policy allows.
    pub fn try_begin_work(&mut self) -> (admitted: bool)
        ensures
            admitted == (old(self).is_accepting() && old(self).in_flight() < old(
                self,
            ).policy().max_concurrent_tasks),
            final(self).in_flight() == if admitted {
                old(self).in_flight() + 1
            } else {
                old(self).in_flight() as int
            },
            final(self).policy() == old(self).policy(),
            final(self).applied_tick() == old(self).applied_tick(),
            final(self).is_accepting() == old(self).is_accepting(),
            old(self).wf() ==> final(self).wf(),
    {
        if self.accepting && self.in_flight < self.policy.max_concurrent_tasks {
            self.in_flight = self.in_flight + 1;
            true
        } else {
            false
        }
    }

    /// Notes that a task has ended, and says whether one was running.
    pub fn finish_work(&mut self) -> (finished: bool)
        ensures
            finished == (old(self).in_flight() > 0),
            final(self).in_flight() == if finished {
                old(self).in_flight() - 1
            } else {
                0
            },
            final(self).policy() == old(self).policy(),
            final(self).applied_tick() == old(self).applied_tick(),
            final(self).is_accepting() == old(self).is_accepting(),
            old(self).wf() ==> final(self).wf(),
    {
        if self.in_flight > 0 {
            self.in_flight = self.in_flight - 1;
            true
        } else {
            false
        }
    }

    /// Closes the engine to new work and returns how many tasks are left to
    /// drain. Tasks that run are not cut short. On an engine that is closed
    /// already only the count is read.
    pub fn shutdown(&mut self) -> (left: u32)
        ensures
            !final(self).is_accepting(),
            left == old(self).in_flight(),
            final(self).in_flight() == old(self).in_flight(),
            final(self).policy() == old(self).policy(),
            final(self).applied_tick() == old(self).applied_tick(),
            old(self).wf() ==> final(self).wf(),
    {
        self.accepting = false;
        self.in_flight
    }
}

} // verus!
