use vm_autoscaler::controller::{Controller, Phase, TickInput};
use vm_autoscaler::power::PowerSnapshot;
use vm_autoscaler::worker::WorkerPhase;
use vm_autoscaler::Config;

fn test_config() -> Config {
    Config {
        initial_worker_memory: 4096,
        safety_margin: 1024,
        cooldown_ticks: 3,
        regulation_threshold: 500,
    }
}

fn tick(free_memory: u64, provision_ok: bool, timestamp: u64) -> TickInput {
    TickInput { free_memory, provision_ok, timestamp }
}

#[test]
fn fresh_controller_is_empty_and_running() {
    let c = Controller::new(test_config());
    assert_eq!(c.phase, Phase::Running);
    assert_eq!(c.workers.len(), 0);
    assert_eq!(c.next_seq, 0);
    assert_eq!(c.ticks_completed, 0);
    assert_eq!(c.records_written, 0);
}

#[test]
fn headroom_plus_one_admits_exactly_one_worker() {
    // Free memory one byte above the floor and the cooldown elapsed:
    // the next tick admits exactly one worker, named with the next
    // sequence number.
    let cfg = test_config();
    let mut c = Controller::new(cfg);
    for t in 0..3 {
        let plan = c.run_tick(tick(0, false, t));
        assert_eq!(plan.admitted, None);
    }
    assert_eq!(c.ticks_since_admission, 3);
    let plan = c.run_tick(tick(4096 + 1024 + 1, true, 3));
    assert_eq!(plan.admitted, Some(0));
    assert_eq!(c.workers.len(), 1);
    assert_eq!(c.workers[0].seq, 0);
    assert_eq!(c.next_seq, 1);
}

#[test]
fn free_memory_at_floor_never_admits() {
    // Exactly the floor is not headroom: admission needs strictly more.
    let mut c = Controller::new(test_config());
    for t in 0..10 {
        let plan = c.run_tick(tick(4096 + 1024, true, t));
        assert_eq!(plan.admitted, None);
    }
    assert_eq!(c.workers.len(), 0);
}

#[test]
fn low_memory_writes_all_records_and_admits_none() {
    // One hundred starved ticks: zero workers, one hundred records.
    let mut c = Controller::new(test_config());
    for t in 0..100 {
        let plan = c.run_tick(tick(100, true, t));
        assert_eq!(plan.admitted, None);
        assert!(plan.regulate.is_empty());
    }
    assert_eq!(c.workers.len(), 0);
    assert_eq!(c.records_written, 100);
    assert_eq!(c.ticks_completed, 100);
}

#[test]
fn cooldown_separates_admissions() {
    // With plentiful memory on every tick, admissions are spaced
    // strictly more than cooldown_ticks apart.
    let cfg = test_config();
    let mut c = Controller::new(cfg);
    let mut admitted_at: Vec<u64> = Vec::new();
    for t in 0..12 {
        let plan = c.run_tick(tick(1 << 20, true, t));
        if plan.admitted.is_some() {
            admitted_at.push(t);
        }
    }
    // Ticks 0..2 accrue the cooldown; tick 3 admits; then every
    // fourth tick after it.
    assert_eq!(admitted_at, vec![3, 7, 11]);
    for pair in admitted_at.windows(2) {
        assert!(pair[1] - pair[0] > cfg.cooldown_ticks);
    }
}

#[test]
fn admission_decision_matches_run_tick() {
    let mut c = Controller::new(test_config());
    for t in 0..3 {
        assert_eq!(c.admission_decision(1 << 20), None);
        c.run_tick(tick(0, false, t));
    }
    assert_eq!(c.admission_decision(4096 + 1024), None);
    assert_eq!(c.admission_decision(4096 + 1024 + 1), Some(0));
}

#[test]
fn failed_provisioning_skips_a_name() {
    // The sequence counter advances on a failed attempt, so the name
    // is spent and the live set unchanged.
    let mut c = Controller::new(test_config());
    for t in 0..3 {
        c.run_tick(tick(0, false, t));
    }
    let plan = c.run_tick(tick(1 << 20, false, 3));
    assert_eq!(plan.admitted, Some(0));
    assert_eq!(c.workers.len(), 0);
    assert_eq!(c.next_seq, 1);
    for t in 4..7 {
        c.run_tick(tick(0, false, t));
    }
    let plan = c.run_tick(tick(1 << 20, true, 7));
    assert_eq!(plan.admitted, Some(1));
    assert_eq!(c.workers.len(), 1);
    assert_eq!(c.workers[0].seq, 1);
}

#[test]
fn fresh_worker_is_regulated_on_its_admission_tick() {
    let mut cfg = test_config();
    cfg.cooldown_ticks = 0;
    let mut c = Controller::new(cfg);
    let plan = c.run_tick(tick(1 << 20, true, 0));
    assert_eq!(plan.admitted, Some(0));
    assert_eq!(plan.regulate, vec![0]);
    let plan = c.run_tick(tick(1 << 20, true, 1));
    assert_eq!(plan.admitted, Some(1));
    assert_eq!(plan.regulate, vec![0, 1]);
}

#[test]
fn regulation_lists_every_live_worker_once_per_tick() {
    let mut cfg = test_config();
    cfg.cooldown_ticks = 0;
    let mut c = Controller::new(cfg);
    for t in 0..4 {
        c.run_tick(tick(1 << 20, true, t));
    }
    // No admission now: below the floor, list stays the full live set.
    let plan = c.run_tick(tick(0, false, 4));
    assert_eq!(plan.admitted, None);
    assert_eq!(plan.regulate, vec![0, 1, 2, 3]);
}

#[test]
fn interrupt_with_three_live_workers_destroys_all_oldest_first() {
    // Interrupt mid-run with three live workers: all three are torn
    // down before the run ends, oldest first.
    let mut cfg = test_config();
    cfg.cooldown_ticks = 0;
    let mut c = Controller::new(cfg);
    for t in 0..3 {
        c.run_tick(tick(1 << 20, true, t));
    }
    assert_eq!(c.workers.len(), 3);
    c.observe_interrupt();
    assert_eq!(c.phase, Phase::ShuttingDown);
    let destroyed = c.shutdown();
    assert_eq!(destroyed, vec![0, 1, 2]);
    assert_eq!(c.phase, Phase::Terminated);
    assert_eq!(c.workers.len(), 3);
    for w in &c.workers {
        assert_eq!(w.phase, WorkerPhase::Destroyed);
    }
}

#[test]
fn shutdown_with_no_workers_destroys_nothing() {
    let mut c = Controller::new(test_config());
    c.run_tick(tick(0, false, 0));
    c.observe_interrupt();
    let destroyed = c.shutdown();
    assert!(destroyed.is_empty());
    assert_eq!(c.phase, Phase::Terminated);
}

#[test]
fn record_carries_tick_state() {
    let mut cfg = test_config();
    cfg.cooldown_ticks = 0;
    let mut c = Controller::new(cfg);
    c.run_tick(tick(1 << 20, true, 17));
    let power = PowerSnapshot {
        watts: 1,
        volts: 2,
        amps: 3,
        kwh: 4,
        cost: 5,
        mo_kwh: 6,
        mo_cost: 7,
        max_watts: 8,
        min_volts: 9,
        max_amps: 10,
        min_watts: 11,
        max_volts: 12,
        min_amps: 13,
        power_factor: 14,
        duty_cycle: 15,
        power_cycle: 16,
        frequency: 17,
        va: 18,
    };
    let r = c.make_record(55, 2048, power);
    assert_eq!(r.timestamp, 17);
    assert_eq!(r.cpu_raw, 55);
    assert_eq!(r.used_memory_mb, 2048);
    assert_eq!(r.worker_count, 1);
    assert_eq!(r.power, power);
}
