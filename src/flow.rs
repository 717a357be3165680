use vstd::prelude::*;
use vstd::string::StringExecFns;

use crate::text::{decimal, push_decimal};

verus! {

/// What an open file descriptor of the process refers to, as far as flow
/// attribution cares: a socket with its inode, or anything else.
#[derive(Clone, Copy, Debug, PartialEq, Eq, Structural)]
pub enum FdTarget {
    Socket(u64),
    Other,
}

/// One row of the kernel's TCP connection table. Hosts are held as the text
/// the capture grammar expects (`127.0.0.1`, `::1`).
#[derive(Clone, Debug)]
pub struct FlowEntry {
    pub inode: u64,
    pub local_host: String,
    pub local_port: u16,
    pub remote_host: String,
    pub remote_port: u16,
}

/// A predicate that no packet satisfies: installed when the process holds no
/// connection, since an empty expression would select every packet.
pub const MATCH_NOTHING: &'static str = "ip and not ip";

/// The text of `MATCH_NOTHING`.
pub open spec fn match_nothing() -> Seq<char> {
    "ip and not ip"@
}

/// The process holds a socket with this inode among its descriptors.
pub open spec fn owns_inode(fds: Seq<FdTarget>, inode: u64) -> bool {
    exists|i: int| 0 <= i < fds.len() && fds[i] == FdTarget::Socket(inode)
}

/// The predicate clause selecting the packets of one flow.
pub open spec fn clause(f: FlowEntry) -> Seq<char> {
    "(host "@ + f.local_host@ + " and host "@ + f.remote_host@ + " and port "@
        + decimal(f.local_port as nat) + " and port "@ + decimal(f.remote_port as nat) + ")"@
}

/// The clauses of the flows that belong to the process, in table order.
pub open spec fn clauses(fds: Seq<FdTarget>, flows: Seq<FlowEntry>) -> Seq<Seq<char>>
    decreases flows.len(),
{
    if flows.len() == 0 {
        seq![]
    } else {
        let rest = clauses(fds, flows.drop_last());
        if owns_inode(fds, flows.last().inode) {
            rest.push(clause(flows.last()))
        } else {
            rest
        }
    }
}

/// Clauses joined by ` or `.
pub open spec fn join_or(parts: Seq<Seq<char>>) -> Seq<char>
    decreases parts.len(),
{
    if parts.len() == 0 {
        seq![]
    } else if parts.len() == 1 {
        parts[0]
    } else {
        join_or(parts.drop_last()) + " or "@ + parts.last()
    }
}

/// The capture filter for a process: the disjunction of the clauses of its
/// flows, or the match-nothing predicate when it has none.
pub open spec fn filter_text(fds: Seq<FdTarget>, flows: Seq<FlowEntry>) -> Seq<char> {
    let parts = clauses(fds, flows);
    if parts.len() == 0 {
        match_nothing()
    } else {
        join_or(parts)
    }
}

/// Whether `inode` is the inode of one of the process's socket descriptors.
pub fn holds_socket(fds: &Vec<FdTarget>, inode: u64) -> (r: bool)
    ensures
        r == owns_inode(fds@, inode),
{
    let mut i: usize = 0;
    while i < fds.len()
        invariant
            i <= fds@.len(),
            forall|j: int| 0 <= j < i ==> fds@[j] != FdTarget::Socket(inode),
        decreases fds@.len() - i,
    {
        if fds[i] == FdTarget::Socket(inode) {
            return true;
        }
        i = i + 1;
    }
    false
}

fn push_clause(out: &mut String, f: &FlowEntry)
    ensures
        final(out)@ == old(out)@ + clause(*f),
{
    out.append("(host ");
    out.append(f.local_host.as_str());
    out.append(" and host ");
    out.append(f.remote_host.as_str());
    out.append(" and port ");
    push_decimal(out, f.local_port as u128);
    out.append(" and port ");
    push_decimal(out, f.remote_port as u128);
    out.append(")");
    proof {
        assert(final(out)@ =~= old(out)@ + clause(*f));
    }
}

/// Builds the capture filter that selects the traffic of the flows whose
/// inode is one of the process's sockets, or the match-nothing predicate
/// when there is none. A flow table row whose inode repeats is kept.
pub fn build_packet_filter(fds: &Vec<FdTarget>, flows: &Vec<FlowEntry>) -> (r: String)
    ensures
        r@ == filter_text(fds@, flows@),
{
    let mut out = String::new();
    let mut count: usize = 0;
    let mut i: usize = 0;
    while i < flows.len()
        invariant
            i <= flows@.len(),
            count == clauses(fds@, flows@.subrange(0, i as int)).len(),
            out@ == join_or(clauses(fds@, flows@.subrange(0, i as int))),
        decreases flows@.len() - i,
    {
        let ghost before = clauses(fds@, flows@.subrange(0, i as int));
        proof {
            assert(flows@.subrange(0, i + 1).drop_last() =~= flows@.subrange(0, i as int));
            assert(flows@.subrange(0, i + 1).last() == flows@[i as int]);
            assert(before.len() <= i) by {
                lemma_clauses_len(fds@, flows@.subrange(0, i as int));
            }
        }
        if holds_socket(fds, flows[i].inode) {
            if count > 0 {
                out.append(" or ");
            }
            push_clause(&mut out, &flows[i]);
            count = count + 1;
            proof {
                let now = before.push(clause(flows@[i as int]));
                assert(now.drop_last() =~= before);
                assert(out@ =~= join_or(now));
            }
        }
        i = i + 1;
    }
    assert(flows@.subrange(0, flows@.len() as int) =~= flows@);
    if count == 0 {
        proof {
            reveal_strlit("ip and not ip");
        }
        let r = String::from_str(MATCH_NOTHING);
        return r;
    }
    out
}

/// There are never more clauses than flows.
proof fn lemma_clauses_len(fds: Seq<FdTarget>, flows: Seq<FlowEntry>)
    ensures
        clauses(fds, flows).len() <= flows.len(),
    decreases flows.len(),
{
    if flows.len() > 0 {
        lemma_clauses_len(fds, flows.drop_last());
    }
}

/// A process with no socket among its descriptors gets the match-nothing
/// filter, whatever the connection table holds.
pub proof fn lemma_no_sockets_match_nothing(fds: Seq<FdTarget>, flows: Seq<FlowEntry>)
    requires
        forall|i: int| 0 <= i < fds.len() ==> fds[i] == FdTarget::Other,
    ensures
        filter_text(fds, flows) == match_nothing(),
{
    lemma_no_sockets_no_clauses(fds, flows);
}

proof fn lemma_no_sockets_no_clauses(fds: Seq<FdTarget>, flows: Seq<FlowEntry>)
    requires
        forall|i: int| 0 <= i < fds.len() ==> fds[i] == FdTarget::Other,
    ensures
        clauses(fds, flows).len() == 0,
    decreases flows.len(),
{
    if flows.len() > 0 {
        lemma_no_sockets_no_clauses(fds, flows.drop_last());
        assert(!owns_inode(fds, flows.last().inode));
    }
}

} // verus!
