use procmon::{add_wire_length, CaptureEngine, EngineState};

#[test]
fn counter_sums_wire_lengths() {
    let lens: Vec<u32> = vec![60, 1514, 42, 0, 9000];
    let mut total: u64 = 0;
    for l in &lens {
        add_wire_length(&mut total, *l);
    }
    assert_eq!(total, lens.iter().map(|l| *l as u64).sum::<u64>());
    assert_eq!(total, 10616);
}

#[test]
fn counter_saturates() {
    let mut total: u64 = u64::MAX - 10;
    add_wire_length(&mut total, 100);
    assert_eq!(total, u64::MAX);
}

#[test]
fn newest_pending_filter_wins() {
    let e = CaptureEngine::new("ip and not ip".to_string());
    assert_eq!(e.after_packet(vec![]), None);
    assert_eq!(
        e.after_packet(vec!["old".to_string(), "newer".to_string(), "newest".to_string()]),
        Some("newest".to_string())
    );
}

#[test]
fn failed_install_keeps_last_good_filter() {
    let mut e = CaptureEngine::new("first".to_string());
    e.installed_outcome("second".to_string(), true);
    assert_eq!(e.installed, "second");
    e.installed_outcome("broken (".to_string(), false);
    assert_eq!(e.installed, "second");
    assert!(e.is_capturing());
}

#[test]
fn read_failure_stops_engine() {
    let mut e = CaptureEngine::new("f".to_string());
    e.read_failed();
    assert_eq!(e.state, EngineState::Stopped);
    assert!(!e.is_capturing());
    assert_eq!(e.after_packet(vec!["g".to_string()]), None);
    assert_eq!(e.installed, "f");
}
