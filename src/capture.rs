use vstd::prelude::*;

verus! {

/// The byte counter after one more packet: it grows by the packet's wire
/// length and stops at the largest `u64` rather than wrapping.
pub open spec fn counted(total: u64, wire_len: u32) -> u64 {
    if total + wire_len <= u64::MAX {
        (total + wire_len) as u64
    } else {
        u64::MAX
    }
}

/// The byte counter after a run of packets, from `start`.
pub open spec fn tally(start: u64, lens: Seq<u32>) -> u64
    decreases lens.len(),
{
    if lens.len() == 0 {
        start
    } else {
        counted(tally(start, lens.drop_last()), lens.last())
    }
}

/// Sum of the wire lengths.
pub open spec fn total_len(lens: Seq<u32>) -> int
    decreases lens.len(),
{
    if lens.len() == 0 {
        0
    } else {
        total_len(lens.drop_last()) + lens.last()
    }
}

/// Adds the wire length of a captured packet to the byte counter.
pub fn add_wire_length(total: &mut u64, wire_len: u32)
    ensures
        *final(total) == counted(*old(total), wire_len),
{
    *total = total.saturating_add(wire_len as u64);
}

/// Counting a run of packets from zero gives the sum of their wire lengths,
/// as long as that sum fits the counter.
pub proof fn lemma_tally_is_sum(lens: Seq<u32>)
    requires
        total_len(lens) <= u64::MAX,
    ensures
        tally(0, lens) == total_len(lens),
    decreases lens.len(),
{
    if lens.len() > 0 {
        lemma_total_len_nonneg(lens.drop_last());
        lemma_tally_is_sum(lens.drop_last());
    }
}

proof fn lemma_total_len_nonneg(lens: Seq<u32>)
    ensures
        total_len(lens) >= 0,
    decreases lens.len(),
{
    if lens.len() > 0 {
        lemma_total_len_nonneg(lens.drop_last());
    }
}

/// A filter update sent while packets flow is in force after the next
/// packet, once the device accepts it: whatever else was pending, it is the
/// newest update that the check after that packet installs.
pub proof fn lemma_hot_swap(installed: Seq<char>, pending: Seq<String>, newest: String)
    requires
        pending.len() > 0,
        pending.last() == newest,
    ensures
        swap_target(EngineState::Capturing, pending) == Some(newest@),
        in_force_after(installed, swap_target(EngineState::Capturing, pending).unwrap(), true)
            == newest@,
{
}

/// Where the capture thread stands.
#[derive(Clone, Copy, Debug, PartialEq, Eq, Structural)]
pub enum EngineState {
    Capturing,
    Stopped,
}

/// The filter that the check after a packet hands to the device: the newest
/// of the pending updates, none when there is none or capture has stopped.
pub open spec fn swap_target(state: EngineState, pending: Seq<String>) -> Option<Seq<char>> {
    if state == EngineState::Stopped || pending.len() == 0 {
        None
    } else {
        Some(pending.last()@)
    }
}

/// The filter in force after the device was asked to install `filter`.
pub open spec fn in_force_after(installed: Seq<char>, filter: Seq<char>, ok: bool) -> Seq<char> {
    if ok {
        filter
    } else {
        installed
    }
}

/// The capture thread's own state: the filter last installed with success,
/// and whether it still reads packets.
#[derive(Debug)]
pub struct CaptureEngine {
    pub installed: String,
    pub state: EngineState,
}

impl CaptureEngine {
    /// An engine capturing under the filter installed at startup.
    pub fn new(initial: String) -> (r: CaptureEngine)
        ensures
            r.installed@ == initial@,
            r.state == EngineState::Capturing,
    {
        CaptureEngine { installed: initial, state: EngineState::Capturing }
    }

    /// After each packet: of the filter updates that arrived since the last
    /// packet, the newest is the one to install; the others are stale. With
    /// none pending the read loop goes straight on. A stopped engine installs
    /// nothing.
    pub fn after_packet(&self, pending: Vec<String>) -> (r: Option<String>)
        ensures
            r.is_some() == swap_target(self.state, pending@).is_some(),
            r matches Some(f) ==> swap_target(self.state, pending@) == Some(f@),
    {
        if self.state == EngineState::Stopped {
            return None;
        }
        let mut pending = pending;
        pending.pop()
    }

    /// Records the outcome of installing `filter`: on success it becomes the
    /// installed filter; on failure capture goes on under the last good one.
    pub fn installed_outcome(&mut self, filter: String, ok: bool)
        ensures
            final(self).state == old(self).state,
            final(self).installed@ == in_force_after(old(self).installed@, filter@, ok),
    {
        if ok {
            self.installed = filter;
        }
    }

    /// A failed packet read ends capture for good; the byte counter keeps its
    /// last value.
    pub fn read_failed(&mut self)
        ensures
            final(self).state == EngineState::Stopped,
            final(self).installed@ == old(self).installed@,
    {
        self.state = EngineState::Stopped;
    }

    /// Whether the thread still reads packets.
    pub fn is_capturing(&self) -> (r: bool)
        ensures
            r == (self.state == EngineState::Capturing),
    {
        self.state == EngineState::Capturing
    }
}

} // verus!
