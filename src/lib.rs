//! Live resource attribution for a single process: CPU share, resident
//! memory, disk and network throughput, and the packet-capture filter that
//! selects the process's own TCP traffic.

pub mod capture;
pub mod cpu;
pub mod flow;
pub mod sampling;
pub mod text;

pub use capture::{
    add_wire_length, lemma_hot_swap, lemma_tally_is_sum, CaptureEngine, EngineState,
};
pub use cpu::{
    cpu_usage, elapsed_ticks, lemma_cpu_period_defined, lemma_cpu_share_nearest, process_ticks,
    total_cpu_time, CpuTimes,
};
pub use flow::{
    build_packet_filter, holds_socket, lemma_no_sockets_match_nothing, FdTarget, FlowEntry,
    MATCH_NOTHING,
};
pub use sampling::{filter_update, lemma_idle_cycle, status_line, Monitor, Reading, Sample};
pub use text::push_decimal;
