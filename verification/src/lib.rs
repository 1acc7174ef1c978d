//! Coordination core of an adaptive mobile runtime: host capability checks,
//! telemetry aggregation, the throttling decision table and the lifecycle
//! state machine that brings the subsystems up and down in order.

pub mod battery;
pub mod capability;
pub mod config;
pub mod error;
pub mod lifecycle;
pub mod metrics;
pub mod orchestrator;
pub mod performance;
pub mod quantile;
pub mod runtime;
pub mod subsystem;

pub use battery::BatteryOptimizer;
pub use config::Config;
pub use error::Error;
pub use metrics::MetricsCollector;
pub use orchestrator::AppState;
pub use performance::PerformanceMonitor;
pub use runtime::SovereignCore;
