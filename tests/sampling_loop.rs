use procmon::{build_packet_filter, status_line, FdTarget, Monitor, Reading, Sample, MATCH_NOTHING};

fn reading(ticks: u64, total: u64, pages: u64, rd: u64, wr: u64, net: u64) -> Reading {
    Reading {
        process_ticks: ticks,
        system_ticks: total,
        resident_pages: pages,
        read_bytes: rd,
        write_bytes: wr,
        net_bytes: net,
    }
}

#[test]
fn idle_process_reports_zero_rates() {
    let first = reading(10, 1000, 300, 4096, 8192, 0);
    let mut m = Monitor::new(first, 4096, 8, 1);
    let s = m.cycle(reading(10, 1800, 300, 4096, 8192, 0));
    assert_eq!(
        s,
        Sample { cpu_tenths: 0, mem_bytes: 300 * 4096, io_bps: 0, net_bps: 0 }
    );
    assert_eq!(status_line(&s), "CPU: 0.0% Mem: 1228800B I/O: 0B Net: 0B");
    let fds: Vec<FdTarget> = vec![FdTarget::Other];
    assert_eq!(build_packet_filter(&fds, &vec![]), MATCH_NOTHING);
}

#[test]
fn cycle_computes_rates_and_moves_baseline() {
    let mut m = Monitor::new(reading(100, 1000, 10, 1000, 2000, 500), 4096, 4, 2);
    let s = m.cycle(reading(150, 2000, 20, 3000, 2500, 1500));
    // period = 1000 / 4 = 250; 50 / 250 = 20 %
    assert_eq!(s.cpu_tenths, 200);
    assert_eq!(s.mem_bytes, 20 * 4096);
    assert_eq!(s.io_bps, (2000 + 500) / 2);
    assert_eq!(s.net_bps, 1000 / 2);
    assert_eq!(m.previous, reading(150, 2000, 20, 3000, 2500, 1500));
    let s2 = m.cycle(reading(150, 2000, 20, 3000, 2500, 1500));
    assert_eq!(s2.cpu_tenths, 0);
    assert_eq!(s2.io_bps, 0);
    assert_eq!(s2.net_bps, 0);
}

#[test]
fn status_line_format() {
    let s = Sample { cpu_tenths: 1234, mem_bytes: 5, io_bps: 1024, net_bps: 77 };
    assert_eq!(status_line(&s), "CPU: 123.4% Mem: 5B I/O: 1024B Net: 77B");
    let s = Sample { cpu_tenths: 7, mem_bytes: 0, io_bps: 0, net_bps: 0 };
    assert_eq!(status_line(&s), "CPU: 0.7% Mem: 0B I/O: 0B Net: 0B");
}

#[test]
fn frozen_counter_gives_zero_net_rate() {
    let mut m = Monitor::new(reading(0, 0, 0, 0, 0, 9000), 4096, 1, 1);
    let s = m.cycle(reading(0, 100, 0, 0, 0, 9000));
    assert_eq!(s.net_bps, 0);
}
