use vstd::prelude::*;
use vstd::string::StringExecFns;

use crate::cpu::{advance, cpu_tenths, cpu_usage, elapsed_ticks};
use crate::flow::{build_packet_filter, filter_text, FdTarget, FlowEntry};
use crate::text::{decimal, push_decimal};

verus! {

/// The counters read for the process in one cycle.
#[derive(Clone, Copy, Debug, PartialEq, Eq, Structural)]
pub struct Reading {
    /// User plus system ticks of the process.
    pub process_ticks: u64,
    /// Aggregate ticks of the machine.
    pub system_ticks: u64,
    pub resident_pages: u64,
    pub read_bytes: u64,
    pub write_bytes: u64,
    /// The capture thread's byte counter.
    pub net_bytes: u64,
}

/// What one cycle reports.
#[derive(Clone, Copy, Debug, PartialEq, Eq, Structural)]
pub struct Sample {
    /// CPU share in tenths of a percent.
    pub cpu_tenths: u128,
    pub mem_bytes: u128,
    /// Disk bytes read and written per second.
    pub io_bps: u128,
    /// Captured bytes per second.
    pub net_bps: u64,
}

/// The sampling loop's state: the previous cycle's counters, which are the
/// baseline of the next rates, and the constants read once at startup.
#[derive(Debug)]
pub struct Monitor {
    pub previous: Reading,
    pub page_size: u64,
    pub cores: u32,
    pub interval_secs: u64,
}

/// The sample that `current` gives against the baseline `previous`.
pub open spec fn sample_of(
    previous: Reading,
    current: Reading,
    page_size: u64,
    cores: u32,
    interval_secs: u64,
) -> Sample {
    Sample {
        cpu_tenths: cpu_tenths(
            advance(current.process_ticks, previous.process_ticks),
            advance(current.system_ticks, previous.system_ticks),
            cores as nat,
        ) as u128,
        mem_bytes: (current.resident_pages * page_size) as u128,
        io_bps: ((advance(current.read_bytes, previous.read_bytes) + advance(
            current.write_bytes,
            previous.write_bytes,
        )) / interval_secs as nat) as u128,
        net_bps: (advance(current.net_bytes, previous.net_bytes) / interval_secs as nat) as u64,
    }
}

/// A cycle over which the process ran no tick, moved no disk byte and sent or
/// received no captured byte reports zero CPU, I/O and network rates, and
/// its resident memory as it stands.
pub proof fn lemma_idle_cycle(
    previous: Reading,
    current: Reading,
    page_size: u64,
    cores: u32,
    interval_secs: u64,
)
    requires
        interval_secs >= 1,
        current.process_ticks == previous.process_ticks,
        current.read_bytes == previous.read_bytes,
        current.write_bytes == previous.write_bytes,
        current.net_bytes == previous.net_bytes,
    ensures
        sample_of(previous, current, page_size, cores, interval_secs) == (Sample {
            cpu_tenths: 0,
            mem_bytes: (current.resident_pages * page_size) as u128,
            io_bps: 0,
            net_bps: 0,
        }),
{
    let elapsed = advance(current.system_ticks, previous.system_ticks);
    if elapsed > 0 {
        assert((2000 * 0 * (cores as nat) + elapsed) / (2 * elapsed) == 0) by (nonlinear_arith)
            requires
                elapsed > 0,
        ;
    }
}

impl Monitor {
    /// The interval is at least one second, so rates never divide by zero.
    pub open spec fn wf(&self) -> bool {
        self.interval_secs >= 1
    }

    /// A monitor whose baseline is the reading taken at startup.
    pub fn new(first: Reading, page_size: u64, cores: u32, interval_secs: u64) -> (r: Monitor)
        requires
            interval_secs >= 1,
        ensures
            r.wf(),
            r.previous == first,
            r.page_size == page_size,
            r.cores == cores,
            r.interval_secs == interval_secs,
    {
        Monitor { previous: first, page_size, cores, interval_secs }
    }

    /// One cycle: computes the rates of `current` against the previous
    /// reading, then makes `current` the baseline of the next cycle.
    pub fn cycle(&mut self, current: Reading) -> (r: Sample)
        requires
            old(self).wf(),
        ensures
            final(self).wf(),
            r == sample_of(
                old(self).previous,
                current,
                old(self).page_size,
                old(self).cores,
                old(self).interval_secs,
            ),
            final(self).previous == current,
            final(self).page_size == old(self).page_size,
            final(self).cores == old(self).cores,
            final(self).interval_secs == old(self).interval_secs,
    {
        let prev = self.previous;
        let cpu = cpu_usage(
            current.process_ticks,
            prev.process_ticks,
            current.system_ticks,
            prev.system_ticks,
            self.cores,
        );
        let pages = current.resident_pages as u128;
        let size = self.page_size as u128;
        assert(pages * size <= u64::MAX * u64::MAX) by (nonlinear_arith)
            requires
                pages <= u64::MAX,
                size <= u64::MAX,
        ;
        let mem = pages * size;
        let io = (elapsed_ticks(current.read_bytes, prev.read_bytes) as u128 + elapsed_ticks(
            current.write_bytes,
            prev.write_bytes,
        ) as u128) / self.interval_secs as u128;
        let net = elapsed_ticks(current.net_bytes, prev.net_bytes) / self.interval_secs;
        self.previous = current;
        Sample { cpu_tenths: cpu, mem_bytes: mem, io_bps: io, net_bps: net }
    }
}

/// The filter to send this cycle. Where the descriptor list or the
/// connection table could not be read, nothing is sent and the installed
/// filter stays.
pub fn filter_update(fds: Option<Vec<FdTarget>>, flows: Option<Vec<FlowEntry>>) -> (r: Option<
    String,
>)
    ensures
        r.is_some() <==> fds.is_some() && flows.is_some(),
        r matches Some(f) ==> f@ == filter_text(fds.unwrap()@, flows.unwrap()@),
{
    match (fds, flows) {
        (Some(fds), Some(flows)) => Some(build_packet_filter(&fds, &flows)),
        _ => None,
    }
}

/// The status line of a sample:
/// `CPU: <pct, 1 decimal>% Mem: <bytes>B I/O: <bytes/sec>B Net: <bytes/sec>B`.
pub open spec fn status_text(s: Sample) -> Seq<char> {
    "CPU: "@ + decimal(s.cpu_tenths as nat / 10) + "."@ + decimal(s.cpu_tenths as nat % 10)
        + "% Mem: "@ + decimal(s.mem_bytes as nat) + "B I/O: "@ + decimal(s.io_bps as nat)
        + "B Net: "@ + decimal(s.net_bps as nat) + "B"@
}

/// Renders the status line of a sample.
pub fn status_line(s: &Sample) -> (r: String)
    ensures
        r@ == status_text(*s),
{
    let mut out = String::from_str("CPU: ");
    push_decimal(&mut out, s.cpu_tenths / 10);
    out.append(".");
    push_decimal(&mut out, s.cpu_tenths % 10);
    out.append("% Mem: ");
    push_decimal(&mut out, s.mem_bytes);
    out.append("B I/O: ");
    push_decimal(&mut out, s.io_bps);
    out.append("B Net: ");
    push_decimal(&mut out, s.net_bps as u128);
    out.append("B");
    assert(out@ =~= status_text(*s));
    out
}

} // verus!
