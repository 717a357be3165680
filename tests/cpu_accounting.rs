use procmon::{cpu_usage, elapsed_ticks, process_ticks, total_cpu_time, CpuTimes};

fn times() -> CpuTimes {
    CpuTimes {
        user: 1000,
        nice: 50,
        system: 300,
        idle: 5000,
        iowait: Some(20),
        irq: Some(3),
        softirq: Some(7),
        steal: Some(11),
        guest: Some(100),
        guest_nice: Some(10),
    }
}

#[test]
fn total_counts_guest_time_once() {
    // (1000-100) + (50-10) + (300+3+7) + (5000+20) + (100+10) + 11
    assert_eq!(total_cpu_time(&times()), Some(6391));
}

#[test]
fn total_missing_counters_count_as_zero() {
    let t = CpuTimes {
        iowait: None,
        irq: None,
        softirq: None,
        steal: None,
        guest: None,
        guest_nice: None,
        ..times()
    };
    assert_eq!(total_cpu_time(&t), Some(1000 + 50 + 300 + 5000));
}

#[test]
fn total_rejects_inconsistent_guest_time() {
    let t = CpuTimes { guest: Some(1001), ..times() };
    assert_eq!(total_cpu_time(&t), None);
    let t = CpuTimes { guest_nice: Some(51), ..times() };
    assert_eq!(total_cpu_time(&t), None);
}

#[test]
fn total_rejects_overflow() {
    let t = CpuTimes { idle: u64::MAX, ..times() };
    assert_eq!(total_cpu_time(&t), None);
}

#[test]
fn process_ticks_adds_user_and_system() {
    assert_eq!(process_ticks(30, 12), Some(42));
    assert_eq!(process_ticks(u64::MAX, 1), None);
}

#[test]
fn elapsed_never_negative() {
    assert_eq!(elapsed_ticks(500, 200), 300);
    assert_eq!(elapsed_ticks(200, 200), 0);
    assert_eq!(elapsed_ticks(100, 200), 0);
}

#[test]
fn cpu_zero_period_gives_zero() {
    assert_eq!(cpu_usage(150, 100, 1000, 1000, 4), 0);
    assert_eq!(cpu_usage(150, 100, 900, 1000, 4), 0);
}

#[test]
fn cpu_share_formula() {
    // period = 1000 / 4 = 250 ticks; 50 / 250 * 100 = 20.0 %
    assert_eq!(cpu_usage(150, 100, 1100, 100, 4), 200);
    // 1 / (3 / 1) * 100 = 33.33 % -> 33.3
    assert_eq!(cpu_usage(1, 0, 3, 0, 1), 333);
    // 2 / 3 * 100 = 66.67 % -> 66.7
    assert_eq!(cpu_usage(2, 0, 3, 0, 1), 667);
}

#[test]
fn cpu_share_is_not_clamped() {
    // 1000 busy ticks over a period of 100 / 2 = 50 ticks: 2000 %
    assert_eq!(cpu_usage(1000, 0, 100, 0, 2), 20000);
}

#[test]
fn cpu_share_large_values_do_not_overflow() {
    assert_eq!(cpu_usage(u64::MAX, 0, u64::MAX, 0, u32::MAX), 1000 * u32::MAX as u128);
}
