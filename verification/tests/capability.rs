use sovereign_core::capability::{
    check, validate_system_capabilities, SystemCapabilities, Warning, MIN_CORE_COUNT,
    MIN_MEMORY_BYTES,
};
use sovereign_core::lifecycle::LifecycleState;
use sovereign_core::{AppState, Config};

#[test]
fn low_memory_and_single_core_draw_both_warnings() {
    let capabilities = SystemCapabilities { total_memory_bytes: 500_000_000, core_count: 1 };
    assert_eq!(check(capabilities), vec![Warning::LowMemory, Warning::LowCpu]);
}

#[test]
fn warnings_do_not_block_initialization() {
    let capabilities = SystemCapabilities { total_memory_bytes: 500_000_000, core_count: 1 };
    let app = AppState::with_capabilities(Config::default(), capabilities).unwrap();
    assert_eq!(app.state(), LifecycleState::Initialized);
    assert_eq!(app.capabilities(), capabilities);
    assert_eq!(app.warnings(), vec![Warning::LowMemory, Warning::LowCpu]);
}

#[test]
fn ample_host_draws_no_warning() {
    let capabilities = SystemCapabilities { total_memory_bytes: 8_000_000_000, core_count: 8 };
    assert_eq!(check(capabilities), Vec::<Warning>::new());
}

#[test]
fn thresholds_are_exclusive() {
    assert_eq!(MIN_MEMORY_BYTES, 1_000_000_000);
    assert_eq!(MIN_CORE_COUNT, 2);
    let at_threshold = SystemCapabilities { total_memory_bytes: 1_000_000_000, core_count: 2 };
    assert_eq!(check(at_threshold), Vec::<Warning>::new());
    let just_below = SystemCapabilities { total_memory_bytes: 999_999_999, core_count: 2 };
    assert_eq!(check(just_below), vec![Warning::LowMemory]);
    let one_core = SystemCapabilities { total_memory_bytes: 1_000_000_000, core_count: 1 };
    assert_eq!(check(one_core), vec![Warning::LowCpu]);
    let no_core = SystemCapabilities { total_memory_bytes: 0, core_count: 0 };
    assert_eq!(check(no_core), vec![Warning::LowMemory, Warning::LowCpu]);
}

#[test]
fn snapshot_keeps_what_the_host_reported() {
    let capabilities = SystemCapabilities::from_host(16_000_000_000, 12);
    assert_eq!(
        capabilities,
        SystemCapabilities { total_memory_bytes: 16_000_000_000, core_count: 12 }
    );
    let zero = SystemCapabilities::from_host(0, 0);
    assert_eq!(zero, SystemCapabilities { total_memory_bytes: 0, core_count: 0 });
}

#[test]
fn core_counts_beyond_u32_saturate() {
    let cores = usize::MAX;
    let capabilities = SystemCapabilities::from_host(1, cores);
    let expected = if (cores as u128) > (u32::MAX as u128) { u32::MAX } else { cores as u32 };
    assert_eq!(capabilities.core_count, expected);
    let exact = SystemCapabilities::from_host(1, u32::MAX as usize);
    assert_eq!(exact.core_count, u32::MAX);
}

#[test]
fn host_query_reports_a_machine() {
    let capabilities = SystemCapabilities::detect();
    assert!(capabilities.total_memory_bytes > 0);
    assert!(capabilities.core_count >= 1);
}

#[test]
fn host_report_is_consistent_with_the_check() {
    let report = validate_system_capabilities();
    assert_eq!(report.warnings, check(report.capabilities));
    assert!(report.capabilities.total_memory_bytes > 0);
}
