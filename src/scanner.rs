use vstd::prelude::*;
use vstd::string::StringExecFns;
use core::time::Duration;
use crate::probe::{
    IpAddress, ProbeResult, consistent_with, lemma_reported_set_is_open_set, open_ports,
    probed_ports, reported_ports,
};

verus! {

/// What `Duration::from_secs` returns for a number of seconds.
pub uninterp spec fn duration_of_secs(secs: u64) -> Duration;

/// Relies on `Duration::from_secs`: the duration depends on the seconds alone.
pub assume_specification[ core::time::Duration::from_secs ](secs: u64) -> (r: Duration)
    ensures
        r == duration_of_secs(secs),
;

/// Why a scan could not run.
#[derive(Clone, Copy, Debug, PartialEq, Eq, Structural)]
pub enum ScannerError {
    InvalidPortRange,
    InvalidTarget,
}

impl ScannerError {
    /// A human-readable description of the error.
    pub fn message(&self) -> (r: &'static str)
        ensures
            *self == ScannerError::InvalidPortRange ==> r@ == "The given port range is invalid."@,
            *self == ScannerError::InvalidTarget ==> r@ == "The given target could not be resolved."@,
    {
        match self {
            ScannerError::InvalidPortRange => "The given port range is invalid.",
            ScannerError::InvalidTarget => "The given target could not be resolved.",
        }
    }
}

/// Which probes to run. Only the TCP connect probe is performed.
#[derive(Clone, Copy, Debug, PartialEq, Eq, Structural)]
pub struct Options {
    /// Check if the connection returns any bytes.
    pub response: bool,
    /// Use UDP.
    pub udp: bool,
    /// Use TCP.
    pub tcp: bool,
}

/// Options with every flag off.
pub fn build_options() -> (r: Options)
    ensures
        r == (Options { response: false, udp: false, tcp: false }),
{
    Options { response: false, udp: false, tcp: false }
}

impl Options {
    pub fn udp_mut(&mut self) -> (r: &mut bool)
        ensures
            *r == old(self).udp,
            *final(self) == (Options { udp: *final(r), ..*old(self) }),
    {
        &mut self.udp
    }

    pub fn tcp_mut(&mut self) -> (r: &mut bool)
        ensures
            *r == old(self).tcp,
            *final(self) == (Options { tcp: *final(r), ..*old(self) }),
    {
        &mut self.tcp
    }

    pub fn response_mut(&mut self) -> (r: &mut bool)
        ensures
            *r == old(self).response,
            *final(self) == (Options { response: *final(r), ..*old(self) }),
    {
        &mut self.response
    }
}

/// Where a scan stands. No phase is entered twice.
#[derive(Clone, Copy, Debug, PartialEq, Eq, Structural)]
pub enum Phase {
    Configuring,
    Resolving,
    Probing,
    Done,
    Failed(ScannerError),
}

/// One connection attempt to run: an address, a port and the timeout.
#[derive(Clone, Copy, Debug, PartialEq, Eq)]
pub struct ProbeTask {
    pub ip: IpAddress,
    pub port: u16,
    pub timeout: Duration,
}

/// The probe plan for `ip`: one task per port of `[start_port, max_port)`, in
/// port order, all with the same timeout.
pub open spec fn is_plan(tasks: Seq<ProbeTask>, ip: IpAddress, start_port: u16, max_port: u16, timeout: Duration) -> bool {
    &&& tasks.len() == max_port - start_port
    &&& forall|i: int| 0 <= i < tasks.len() ==> #[trigger] tasks[i] == (ProbeTask { ip, port: (start_port + i) as u16, timeout })
}

/// A scan of one target over a range of ports: the decisions of a scan, with
/// the lookup and the connections left to the caller.
pub struct Scanner {
    pub options: Options,
    pub target: String,
    pub start_port: u16,
    pub max_port: u16,
    pub timeout: Duration,
    pub phase: Phase,
}

/// Scanning a planned range reports exactly the open ports of that range,
/// whatever order the probes complete in, when each planned port was probed
/// once or more and every result tells the truth about the open ports.
pub proof fn lemma_scan_reports_open_ports_in_range(
    tasks: Seq<ProbeTask>,
    ip: IpAddress,
    start_port: u16,
    max_port: u16,
    timeout: Duration,
    results: Seq<ProbeResult>,
    open: Set<u16>,
)
    requires
        is_plan(tasks, ip, start_port, max_port, timeout),
        consistent_with(results, open),
        forall|p: u16| #[trigger] probed_ports(results).contains(p) <==> exists|j: int|
            0 <= j < tasks.len() && tasks[j].port == p,
    ensures
        reported_ports(results).to_set() == open.filter(|p: u16| start_port <= p < max_port),
{
    lemma_reported_set_is_open_set(results, open);
    assert forall|p: u16| probed_ports(results).contains(p) <==> start_port <= p < max_port by {
        if start_port <= p < max_port {
            let j = p - start_port;
            assert(tasks[j].port == p);
        }
        if probed_ports(results).contains(p) {
            let j = choose|j: int| 0 <= j < tasks.len() && tasks[j].port == p;
            assert(tasks[j].port == (start_port + j) as u16);
        }
    }
    assert(open.intersect(probed_ports(results)) =~= open.filter(|p: u16| start_port <= p < max_port));
}

/// A scanner that has not been configured yet.
pub fn build_scanner(options: Options) -> (r: Scanner)
    ensures
        r.options == options,
        r.target@ == Seq::<char>::empty(),
        r.start_port == 0,
        r.max_port == 0,
        r.timeout == duration_of_secs(10),
        r.phase == Phase::Configuring,
{
    Scanner {
        options,
        target: String::new(),
        start_port: 0,
        max_port: 0,
        timeout: Duration::from_secs(10),
        phase: Phase::Configuring,
    }
}

impl Scanner {
    pub fn set_target(&mut self, target: String)
        requires
            old(self).phase == Phase::Configuring,
        ensures
            final(self).target@ == target@,
            final(self).options == old(self).options,
            final(self).start_port == old(self).start_port,
            final(self).max_port == old(self).max_port,
            final(self).timeout == old(self).timeout,
            final(self).phase == old(self).phase,
    {
        self.target = target
    }

    pub fn set_port_range(&mut self, start_port: u16, max_port: u16)
        requires
            old(self).phase == Phase::Configuring,
        ensures
            final(self).start_port == start_port,
            final(self).max_port == max_port,
            final(self).target@ == old(self).target@,
            final(self).options == old(self).options,
            final(self).timeout == old(self).timeout,
            final(self).phase == old(self).phase,
    {
        self.start_port = start_port;
        self.max_port = max_port;
    }

    pub fn set_timeout(&mut self, timeout: Duration)
        requires
            old(self).phase == Phase::Configuring,
        ensures
            final(self).timeout == timeout,
            final(self).target@ == old(self).target@,
            final(self).options == old(self).options,
            final(self).start_port == old(self).start_port,
            final(self).max_port == old(self).max_port,
            final(self).phase == old(self).phase,
    {
        self.timeout = timeout
    }

    /// The port range is well formed: `max_port > start_port`.
    pub fn validate(&self) -> (r: Result<(), ScannerError>)
        ensures
            r == (if self.max_port <= self.start_port {
                Err::<(), ScannerError>(ScannerError::InvalidPortRange)
            } else {
                Ok(())
            }),
    {
        if self.max_port <= self.start_port {
            return Err(ScannerError::InvalidPortRange);
        }
        Ok(())
    }

    /// Begins the scan: validates the range before anything touches the
    /// network. On a bad range the scan fails for good, so no probe is ever
    /// planned; otherwise it waits for the target's lookup.
    pub fn start(&mut self) -> (r: Result<(), ScannerError>)
        requires
            old(self).phase == Phase::Configuring,
        ensures
            r is Err <==> old(self).max_port <= old(self).start_port,
            r is Err ==> r == Err::<(), ScannerError>(ScannerError::InvalidPortRange)
                && final(self).phase == Phase::Failed(ScannerError::InvalidPortRange),
            r is Ok ==> final(self).phase == Phase::Resolving,
            final(self).target@ == old(self).target@,
            final(self).options == old(self).options,
            final(self).start_port == old(self).start_port,
            final(self).max_port == old(self).max_port,
            final(self).timeout == old(self).timeout,
    {
        match self.validate() {
            Ok(()) => {
                self.phase = Phase::Resolving;
                Ok(())
            },
            Err(e) => {
                self.phase = Phase::Failed(e);
                Err(e)
            },
        }
    }

    /// The name to look up for the target: the target with port 0.
    pub fn lookup_name(&self) -> (r: String)
        ensures
            r@ == self.target@ + ":0"@,
    {
        self.target.clone().concat(":0")
    }

    /// Takes the outcome of the target's lookup (`None` when the lookup
    /// itself failed). With no address the scan fails with `InvalidTarget`;
    /// otherwise the first address is probed on every port of the range, and
    /// the plan's length is the size of the barrier the probes meet at.
    pub fn on_resolved(&mut self, addresses: Option<Vec<IpAddress>>) -> (r: Result<Vec<ProbeTask>, ScannerError>)
        requires
            old(self).phase == Phase::Resolving,
            old(self).start_port < old(self).max_port,
        ensures
            r is Err <==> (addresses is None || addresses.unwrap()@.len() == 0),
            r is Err ==> r == Err::<Vec<ProbeTask>, ScannerError>(ScannerError::InvalidTarget)
                && final(self).phase == Phase::Failed(ScannerError::InvalidTarget),
            r is Ok ==> final(self).phase == Phase::Probing && is_plan(
                r.unwrap()@,
                addresses.unwrap()@[0],
                old(self).start_port,
                old(self).max_port,
                old(self).timeout,
            ),
            final(self).target@ == old(self).target@,
            final(self).options == old(self).options,
            final(self).start_port == old(self).start_port,
            final(self).max_port == old(self).max_port,
            final(self).timeout == old(self).timeout,
    {
        let addrs = match addresses {
            Some(a) => a,
            None => {
                self.phase = Phase::Failed(ScannerError::InvalidTarget);
                return Err(ScannerError::InvalidTarget);
            },
        };
        if addrs.len() == 0 {
            self.phase = Phase::Failed(ScannerError::InvalidTarget);
            return Err(ScannerError::InvalidTarget);
        }
        let ip = addrs[0];
        let mut tasks: Vec<ProbeTask> = Vec::new();
        let mut port: u16 = self.start_port;
        while port < self.max_port
            invariant
                self.start_port <= port <= self.max_port,
                tasks@.len() == port - self.start_port,
                forall|i: int| 0 <= i < tasks@.len() ==> #[trigger] tasks@[i] == (ProbeTask {
                    ip,
                    port: (self.start_port + i) as u16,
                    timeout: self.timeout,
                }),
            decreases self.max_port - port,
        {
            tasks.push(ProbeTask { ip, port, timeout: self.timeout });
            port = port + 1;
        }
        self.phase = Phase::Probing;
        Ok(tasks)
    }

    /// Ends the scan once every probe has finished, and gives the open ports
    /// in the order the probes completed.
    pub fn finish(&mut self, results: &Vec<ProbeResult>) -> (r: Vec<u16>)
        requires
            old(self).phase == Phase::Probing,
        ensures
            r@ == reported_ports(results@),
            final(self).phase == Phase::Done,
            final(self).target@ == old(self).target@,
            final(self).options == old(self).options,
            final(self).start_port == old(self).start_port,
            final(self).max_port == old(self).max_port,
            final(self).timeout == old(self).timeout,
    {
        self.phase = Phase::Done;
        open_ports(results)
    }
}

} // verus!
