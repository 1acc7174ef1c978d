//! The subsystems that the orchestrator coordinates, and their start order.

use vstd::prelude::*;

verus! {

/// Names a subsystem: as the source of a metric sample, as the target of a
/// lifecycle action, or as the origin of a failure.
#[derive(Clone, Copy, Debug, PartialEq, Eq, Hash, Structural)]
pub enum SubsystemId {
    /// The execution engine.
    Core,
    Metrics,
    PerformanceMonitor,
    BatteryOptimizer,
}

/// How many subsystems take part in startup. The execution engine is not
/// among them: it is only drained, at the very end of shutdown.
pub const PARTICIPANTS: u8 = 3;

/// The participant at a position of the start order: the metrics collector
/// first, then the performance monitor, then the battery optimizer.
/// Shutdown walks the same order backwards.
pub open spec fn participant_at(position: u8) -> SubsystemId
    recommends
        position < PARTICIPANTS,
{
    if position == 0 {
        SubsystemId::Metrics
    } else if position == 1 {
        SubsystemId::PerformanceMonitor
    } else {
        SubsystemId::BatteryOptimizer
    }
}

/// The participant at a position of the start order.
pub fn participant(position: u8) -> (id: SubsystemId)
    requires
        position < PARTICIPANTS,
    ensures
        id == participant_at(position),
{
    if position == 0 {
        SubsystemId::Metrics
    } else if position == 1 {
        SubsystemId::PerformanceMonitor
    } else {
        SubsystemId::BatteryOptimizer
    }
}

} // verus!
