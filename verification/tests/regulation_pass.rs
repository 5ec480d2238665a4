use vm_autoscaler::memory::MemorySnapshot;
use vm_autoscaler::regulation::{failed_workers, plan_regulation};
use vm_autoscaler::Config;

fn test_config() -> Config {
    Config {
        initial_worker_memory: 4 * 1024 * 1024 * 1024,
        safety_margin: 2 * 1024 * 1024 * 1024,
        cooldown_ticks: 10,
        regulation_threshold: 1024 * 1024 * 200,
    }
}

#[test]
fn regulation_call_carries_used_estimate_then_threshold() {
    // A worker over the threshold: the reclaim mechanism is owed the
    // computed estimate and the configured threshold, in that order.
    let cfg = test_config();
    let mut s = MemorySnapshot::zeroed();
    s.available = 1024 * 1024 * 1024;
    s.usable = 512 * 1024 * 1024;
    s.swap_in = 100;
    s.swap_out = 300;
    let call = plan_regulation(&s, &cfg);
    assert_eq!(call.used_estimate, 512 * 1024 * 1024 + 200);
    assert_eq!(call.threshold, 1024 * 1024 * 200);
    assert!(call.used_estimate > call.threshold);
}

#[test]
fn regulation_call_below_threshold_still_reports_the_estimate() {
    let cfg = test_config();
    let mut s = MemorySnapshot::zeroed();
    s.available = 1000;
    s.usable = 900;
    let call = plan_regulation(&s, &cfg);
    assert_eq!(call.used_estimate, 100);
    assert_eq!(call.threshold, cfg.regulation_threshold);
}

#[test]
fn failed_workers_keeps_failures_in_pass_order() {
    let outcomes: Vec<(u64, bool)> = vec![(0, true), (1, false), (2, true), (3, false), (4, false)];
    assert_eq!(failed_workers(&outcomes), vec![1, 3, 4]);
}

#[test]
fn failed_workers_of_clean_pass_is_empty() {
    let outcomes: Vec<(u64, bool)> = vec![(0, true), (1, true)];
    assert!(failed_workers(&outcomes).is_empty());
    assert!(failed_workers(&Vec::new()).is_empty());
}
