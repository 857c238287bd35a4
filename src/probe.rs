use vstd::prelude::*;

verus! {

/// An IP address, held as plain numbers.
#[derive(Clone, Copy, Debug, PartialEq, Eq)]
pub enum IpAddress {
    V4([u8; 4]),
    V6([u16; 8]),
}

/// The outcome of one connection attempt.
#[derive(Clone, Copy, Debug, PartialEq, Eq, Structural)]
pub struct ProbeResult {
    pub port: u16,
    pub open: bool,
}

/// The ports reported open by a sequence of probe results, in the order of
/// the results.
pub open spec fn reported_ports(results: Seq<ProbeResult>) -> Seq<u16>
    decreases results.len(),
{
    if results.len() == 0 {
        Seq::empty()
    } else {
        let rest = reported_ports(results.drop_last());
        let last = results.last();
        if last.open {
            rest.push(last.port)
        } else {
            rest
        }
    }
}

/// Every result tells the truth about the set `open` of open ports.
pub open spec fn consistent_with(results: Seq<ProbeResult>, open: Set<u16>) -> bool {
    forall|i: int| 0 <= i < results.len() ==> #[trigger] results[i].open == open.contains(results[i].port)
}

/// The ports that a sequence of results speaks of.
pub open spec fn probed_ports(results: Seq<ProbeResult>) -> Set<u16> {
    Set::new(|p: u16| exists|i: int| 0 <= i < results.len() && #[trigger] results[i].port == p)
}

/// What a worker emits for its result: the port when it accepted a connection.
pub fn report(result: &ProbeResult) -> (r: Option<u16>)
    ensures
        r == (if result.open { Some(result.port) } else { None::<u16> }),
{
    if result.open {
        Some(result.port)
    } else {
        None
    }
}

/// The open ports among `results`, in the order the results came in.
pub fn open_ports(results: &Vec<ProbeResult>) -> (r: Vec<u16>)
    ensures
        r@ == reported_ports(results@),
{
    let mut r: Vec<u16> = Vec::new();
    let mut i: usize = 0;
    while i < results.len()
        invariant
            i <= results.len(),
            r@ == reported_ports(results@.subrange(0, i as int)),
        decreases results.len() - i,
    {
        let res = results[i];
        if let Some(p) = report(&res) {
            r.push(p);
        }
        proof {
            let s = results@.subrange(0, i as int + 1);
            assert(s.drop_last() =~= results@.subrange(0, i as int));
        }
        i = i + 1;
    }
    assert(results@.subrange(0, results@.len() as int) =~= results@);
    r
}

/// Some result says that `p` accepted a connection.
pub open spec fn seen_open(results: Seq<ProbeResult>, p: u16) -> bool {
    exists|i: int| 0 <= i < results.len() && #[trigger] results[i].port == p && results[i].open
}

/// A port is reported exactly when some result says it is open.
pub proof fn lemma_reported_members(results: Seq<ProbeResult>, p: u16)
    ensures
        reported_ports(results).contains(p) <==> seen_open(results, p),
    decreases results.len(),
{
    if results.len() > 0 {
        let rest = results.drop_last();
        let last = results.last();
        let rr = reported_ports(rest);
        lemma_reported_members(rest, p);
        if seen_open(rest, p) {
            let i = choose|i: int| 0 <= i < rest.len() && #[trigger] rest[i].port == p && rest[i].open;
            assert(results[i] == rest[i]);
        }
        if seen_open(results, p) {
            let i = choose|i: int| 0 <= i < results.len() && #[trigger] results[i].port == p && results[i].open;
            if i < results.len() - 1 {
                assert(rest[i] == results[i]);
            }
        }
        if last.open {
            assert(rr.push(last.port)[rr.len() as int] == last.port);
            assert(rr.push(last.port).contains(p) <==> (rr.contains(p) || last.port == p)) by {
                if rr.push(last.port).contains(p) {
                    let j = choose|j: int| 0 <= j < rr.len() + 1 && rr.push(last.port)[j] == p;
                    if j < rr.len() {
                        assert(rr[j] == p);
                    }
                }
                if rr.contains(p) {
                    let j = choose|j: int| 0 <= j < rr.len() && rr[j] == p;
                    assert(rr.push(last.port)[j] == p);
                }
            }
        }
    }
}

/// When every result tells the truth about the open ports, the reported set
/// is exactly the open ports among those probed, whatever the order.
pub proof fn lemma_reported_set_is_open_set(results: Seq<ProbeResult>, open: Set<u16>)
    requires
        consistent_with(results, open),
    ensures
        reported_ports(results).to_set() == open.intersect(probed_ports(results)),
{
    assert forall|p: u16| reported_ports(results).to_set().contains(p) <==> open.intersect(probed_ports(results)).contains(p) by {
        lemma_reported_members(results, p);
        if open.intersect(probed_ports(results)).contains(p) {
            let i = choose|i: int| 0 <= i < results.len() && #[trigger] results[i].port == p;
            assert(results[i].open);
        }
    }
    assert(reported_ports(results).to_set() =~= open.intersect(probed_ports(results)));
}

/// Two scans of the same ports against the same open ports report the same
/// set of ports, whatever order their results came in.
pub proof fn lemma_scan_idempotent(first: Seq<ProbeResult>, second: Seq<ProbeResult>, open: Set<u16>)
    requires
        consistent_with(first, open),
        consistent_with(second, open),
        probed_ports(first) == probed_ports(second),
    ensures
        reported_ports(first).to_set() == reported_ports(second).to_set(),
{
    lemma_reported_set_is_open_set(first, open);
    lemma_reported_set_is_open_set(second, open);
}

} // verus!
