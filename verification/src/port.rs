//! Port discovery: an ascending scan of a closed port range that ends at the
//! first port on which a local listener could be bound.

use vstd::prelude::*;

verus! {

/// The lowest port of the range that is scanned by default.
pub const DEFAULT_FIRST_PORT: u16 = 5555;

/// The highest port of the range that is scanned by default.
pub const DEFAULT_LAST_PORT: u16 = 5655;

/// A closed interval of candidate ports, `start..=end`. It holds no port when
/// `start > end`.
#[derive(Clone, Copy, Debug, PartialEq, Eq)]
pub struct PortRange {
    pub start: u16,
    pub end: u16,
}

impl PortRange {
    /// Whether `port` lies in the interval.
    pub open spec fn contains(self, port: int) -> bool {
        self.start <= port <= self.end
    }

    /// The number of ports in the interval.
    pub open spec fn count(self) -> nat {
        if self.start <= self.end {
            (self.end - self.start + 1) as nat
        } else {
            0
        }
    }

    pub fn new(start: u16, end: u16) -> (range: PortRange)
        ensures
            range == (PortRange { start, end }),
    {
        PortRange { start, end }
    }

    /// The range 5555..=5655, which keeps the service's address predictable
    /// from one run to the next.
    pub fn standard() -> (range: PortRange)
        ensures
            range == (PortRange { start: DEFAULT_FIRST_PORT, end: DEFAULT_LAST_PORT }),
    {
        PortRange { start: DEFAULT_FIRST_PORT, end: DEFAULT_LAST_PORT }
    }

    pub fn includes(&self, port: u16) -> (inside: bool)
        ensures
            inside == self.contains(port as int),
    {
        self.start <= port && port <= self.end
    }

    pub fn len(&self) -> (n: u32)
        ensures
            n == self.count(),
    {
        if self.start <= self.end {
            (self.end - self.start) as u32 + 1
        } else {
            0
        }
    }
}

/// Every port of the range was already bound by somebody else.
#[derive(Clone, Copy, Debug, PartialEq, Eq)]
pub struct AllPortsExhausted {
    pub range: PortRange,
}

/// What a scan asks of its driver.
#[derive(Clone, Copy, Debug, PartialEq, Eq)]
pub enum ScanStep {
    /// Try to bind a listener on this port of the loopback interface, release
    /// it at once, and report with `observe` whether the bind succeeded.
    TryBind(u16),
    /// The scan is over.
    Finished(Result<u16, AllPortsExhausted>),
}

/// The state of a scan: every port of `range` below `cursor` was found
/// occupied, and `claimed` says that `cursor` itself could be bound.
pub struct ScanModel {
    pub range: PortRange,
    pub cursor: int,
    pub claimed: bool,
}

impl ScanModel {
    /// A scan that has tried nothing yet.
    pub open spec fn begin(range: PortRange) -> ScanModel {
        ScanModel { range, cursor: range.start as int, claimed: false }
    }

    /// What holds of every state that a scan goes through: the cursor has
    /// not left the range by more than one step, and a claimed port lies in
    /// the range.
    pub open spec fn wf(self) -> bool {
        &&& self.range.start <= self.cursor
        &&& self.cursor <= self.range.end + 1 || self.cursor == self.range.start
        &&& self.claimed ==> self.cursor <= self.range.end
    }

    /// Whether no further bind attempt will be asked for.
    pub open spec fn finished(self) -> bool {
        self.claimed || self.cursor > self.range.end
    }

    pub open spec fn step(self) -> ScanStep {
        if self.claimed {
            ScanStep::Finished(Ok(self.cursor as u16))
        } else if self.cursor > self.range.end {
            ScanStep::Finished(Err(AllPortsExhausted { range: self.range }))
        } else {
            ScanStep::TryBind(self.cursor as u16)
        }
    }

    /// The state after the driver reported on the candidate of `step`. A
    /// finished scan ignores the report.
    pub open spec fn after(self, bound: bool) -> ScanModel {
        if self.finished() {
            self
        } else if bound {
            ScanModel { claimed: true, ..self }
        } else {
            ScanModel { cursor: self.cursor + 1, ..self }
        }
    }

    /// The number of bind attempts that can still be asked for.
    pub open spec fn budget(self) -> nat {
        if self.finished() {
            0
        } else {
            (self.range.end - self.cursor + 1) as nat
        }
    }

    /// Where the scan ends when it is driven to its end in a world in which
    /// exactly the ports of `occupied` cannot be bound.
    pub open spec fn outcome(self, occupied: Set<u16>) -> Result<u16, AllPortsExhausted>
        decreases self.budget(),
    {
        match self.step() {
            ScanStep::Finished(result) => result,
            ScanStep::TryBind(port) => self.after(!occupied.contains(port)).outcome(occupied),
        }
    }
}

/// The port that the allocator hands out for `range` in a world in which
/// exactly the ports of `occupied` cannot be bound.
pub open spec fn find_available_port(range: PortRange, occupied: Set<u16>) -> Result<
    u16,
    AllPortsExhausted,
> {
    ScanModel::begin(range).outcome(occupied)
}

/// A scan in progress.
pub struct PortScan {
    range: PortRange,
    cursor: u32,
    claimed: bool,
}

impl View for PortScan {
    type V = ScanModel;

    closed spec fn view(&self) -> ScanModel {
        ScanModel { range: self.range, cursor: self.cursor as int, claimed: self.claimed }
    }
}

impl PortScan {
    #[verifier::type_invariant]
    spec fn inv(self) -> bool {
        self@.wf()
    }

    pub fn new(range: PortRange) -> (scan: PortScan)
        ensures
            scan@ == ScanModel::begin(range),
            scan@.wf(),
    {
        PortScan { range, cursor: range.start as u32, claimed: false }
    }

    /// What the driver has to do now.
    pub fn next_step(&self) -> (step: ScanStep)
        ensures
            step == self@.step(),
            self@.wf(),
    {
        proof {
            use_type_invariant(self);
        }
        if self.claimed {
            ScanStep::Finished(Ok(self.cursor as u16))
        } else if self.cursor > self.range.end as u32 {
            ScanStep::Finished(Err(AllPortsExhausted { range: self.range }))
        } else {
            ScanStep::TryBind(self.cursor as u16)
        }
    }

    /// Takes the driver's report on the candidate that `next_step` named.
    pub fn observe(&mut self, bound: bool)
        ensures
            final(self)@ == old(self)@.after(bound),
            final(self)@.wf(),
    {
        proof {
            use_type_invariant(&*self);
        }
        if !self.claimed && self.cursor <= self.range.end as u32 {
            if bound {
                self.claimed = true;
            } else {
                self.cursor = self.cursor + 1;
            }
        }
    }
}

/// Every port that a scan names, be it to try or as its result, lies in the
/// range, and no report takes a scan out of the states that `wf` describes.
pub proof fn law_scan_stays_in_range(scan: ScanModel, bound: bool)
    requires
        scan.wf(),
    ensures
        scan.after(bound).wf(),
        scan.step() matches ScanStep::TryBind(port) ==> scan.range.contains(port as int),
        scan.step() matches ScanStep::Finished(Ok(port)) ==> scan.range.contains(port as int),
        scan.step() matches ScanStep::Finished(Err(e)) ==> e.range == scan.range,
{
}

/// A scan that still has candidates, and below whose cursor nothing is left
/// to find, ends at the first free port from the cursor on.
proof fn lemma_outcome_from(scan: ScanModel, occupied: Set<u16>)
    requires
        !scan.claimed,
        scan.range.start <= scan.cursor <= scan.range.end + 1,
    ensures
        match scan.outcome(occupied) {
            Ok(port) => {
                &&& scan.cursor <= port <= scan.range.end
                &&& !occupied.contains(port)
                &&& forall|q: u16| scan.cursor <= q < port ==> occupied.contains(q)
            },
            Err(e) => {
                &&& e.range == scan.range
                &&& forall|q: u16| scan.cursor <= q <= scan.range.end ==> occupied.contains(q)
            },
        },
    decreases scan.range.end + 1 - scan.cursor,
{
    if scan.cursor <= scan.range.end {
        let port = scan.cursor as u16;
        if occupied.contains(port) {
            let next = scan.after(false);
            lemma_outcome_from(next, occupied);
            assert(scan.outcome(occupied) == next.outcome(occupied));
        } else {
            let next = scan.after(true);
            assert(next.outcome(occupied) == Ok::<u16, AllPortsExhausted>(port));
            assert(scan.outcome(occupied) == next.outcome(occupied));
        }
    }
}

/// The allocator hands out the lowest port of the range that is not occupied,
/// and fails exactly when the range holds no such port.
pub proof fn law_lowest_free_port(range: PortRange, occupied: Set<u16>)
    ensures
        match find_available_port(range, occupied) {
            Ok(port) => {
                &&& range.contains(port as int)
                &&& !occupied.contains(port)
                &&& forall|q: u16| range.start <= q < port ==> occupied.contains(q)
            },
            Err(e) => {
                &&& e.range == range
                &&& forall|q: u16| range.contains(q as int) ==> occupied.contains(q)
            },
        },
{
    if range.start <= range.end {
        lemma_outcome_from(ScanModel::begin(range), occupied);
    }
}

/// When the `k + 1` lowest ports of the range are occupied and a higher port
/// of the range is free, the allocator hands out the first free port above
/// them.
pub proof fn law_skips_occupied_prefix(range: PortRange, occupied: Set<u16>, k: nat, free: u16)
    requires
        forall|q: u16| range.start <= q <= range.start + k ==> occupied.contains(q),
        range.contains(free as int),
        !occupied.contains(free),
    ensures
        find_available_port(range, occupied) matches Ok(port) && {
            &&& range.start + k < port <= free
            &&& !occupied.contains(port)
            &&& forall|q: u16| range.start <= q < port ==> occupied.contains(q)
        },
{
    law_lowest_free_port(range, occupied);
}

/// In a range whose ports are all occupied the allocator fails, whatever the
/// range.
pub proof fn law_exhausted_when_all_occupied(range: PortRange, occupied: Set<u16>)
    requires
        forall|q: u16| range.contains(q as int) ==> occupied.contains(q),
    ensures
        find_available_port(range, occupied) == Err::<u16, AllPortsExhausted>(
            AllPortsExhausted { range },
        ),
{
    law_lowest_free_port(range, occupied);
}

} // verus!
