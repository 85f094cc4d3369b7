//! Scan orchestration decisions: target resolution, the target×port job
//! set, the per-probe action and its fallback, the adaptive technique, retry
//! of filtered outcomes, and admission delay.
//!
//! The caller runs the probes concurrently; every decision it takes between
//! network operations is made here.
use crate::probe::{classified, classify, idle_scan, idle_verdict, ProbeAction, Response, Table, TcpFlags};
use crate::text::has_char;
use crate::timing::{delay_ms, get_timing_delay, Timing};
use crate::types::{IpAddress, PortResult, PortState, ScanType};
use vstd::arithmetic::power2::{lemma2_to64, lemma_pow2_adds, lemma_pow2_pos, lemma_pow2_unfold, pow2};
use vstd::prelude::*;

verus! {

// ---------------------------------------------------------------------------
// Target resolution

/// What `cidr::Ipv4Cidr`'s parser makes of a text: the block's first
/// address and its prefix length, or `None` where it rejects the text.
pub uninterp spec fn block_of(s: Seq<char>) -> Option<(u32, u8)>;

/// Relies on `cidr::Ipv4Cidr`'s `FromStr`, `first_address` and
/// `network_length`: a parsed block has a prefix length of at most 32 and
/// no bits set in its host part (`Ipv4Cidr::new` rejects both otherwise).
#[verifier::external_body]
fn parse_block(s: &str) -> (r: Option<(u32, u8)>)
    ensures
        r == block_of(s@),
        r matches Some((first, len)) ==> len <= 32 && first as nat % pow2((32 - len) as nat) == 0,
{
    s.parse::<cidr::Ipv4Cidr>().ok().map(|c| (u32::from(c.first_address()), c.network_length()))
}

/// The number of addresses in a block of prefix length `len`.
pub open spec fn block_size(len: u8) -> nat {
    pow2((32 - len) as nat)
}

/// Every address of the block starting at `first`, in increasing order.
pub open spec fn block_addresses(first: u32, len: u8) -> Seq<IpAddress> {
    Seq::new(block_size(len), |i: int| IpAddress::V4((first + i) as u32))
}

proof fn lemma_block_fits(first: u32, len: u8)
    requires
        len <= 32,
        first as nat % block_size(len) == 0,
    ensures
        first + block_size(len) <= 0x1_0000_0000,
{
    let size = block_size(len);
    let rest = pow2(len as nat);
    lemma_pow2_adds((32 - len) as nat, len as nat);
    lemma2_to64();
    lemma_pow2_pos((32 - len) as nat);
    lemma_pow2_pos(len as nat);
    assert(size * rest == 0x1_0000_0000);
    let q = first as nat / size;
    assert(first == q * size) by (nonlinear_arith)
        requires
            first as nat % size == 0,
            size > 0,
            q == first as nat / size;
    assert(q < rest) by (nonlinear_arith)
        requires
            first == q * size,
            first < 0x1_0000_0000,
            size * rest == 0x1_0000_0000,
            size > 0;
    assert(first + size <= 0x1_0000_0000) by (nonlinear_arith)
        requires
            first == q * size,
            q + 1 <= rest,
            size * rest == 0x1_0000_0000,
            size > 0;
}

/// Every address of the block with first address `first` and prefix
/// length `len`, in increasing order.
pub fn expand_block(first: u32, len: u8) -> (r: Vec<IpAddress>)
    requires
        len <= 32,
        first as nat % block_size(len) == 0,
    ensures
        r@ == block_addresses(first, len),
{
    let shift: u8 = 32 - len;
    let mut size: u64 = 1;
    let mut k: u8 = 0;
    proof {
        lemma2_to64();
    }
    while k < shift
        invariant
            k <= shift <= 32,
            size as nat == pow2(k as nat),
        decreases shift - k,
    {
        proof {
            lemma_pow2_unfold((k + 1) as nat);
            lemma2_to64();
            vstd::arithmetic::power2::lemma_pow2_strictly_increases(k as nat, 32);
        }
        size = size * 2;
        k = k + 1;
    }
    proof {
        lemma_block_fits(first, len);
    }
    let mut out: Vec<IpAddress> = Vec::new();
    let mut i: u64 = 0;
    while i < size
        invariant
            size as nat == block_size(len),
            first + block_size(len) <= 0x1_0000_0000,
            i <= size,
            out@ =~= Seq::new(i as nat, |j: int| IpAddress::V4((first + j) as u32)),
        decreases size - i,
    {
        out.push(IpAddress::V4((first as u64 + i) as u32));
        i = i + 1;
    }
    out
}

/// A resolved target expression: its addresses, or a name still to be
/// looked up.
#[derive(Debug, Clone)]
pub enum Resolution {
    Addresses(Vec<IpAddress>),
    Lookup,
}

/// Why a target expression cannot be scanned.
#[derive(Debug, Clone, Copy, PartialEq, Eq, Structural)]
pub enum ResolutionError {
    /// A block expression (holding `/`) that does not parse.
    InvalidBlock,
    /// A name lookup that gave no address.
    NoAddresses,
}

/// What a target expression resolves to: a text holding `/` is an IPv4
/// block, every address of which is a target; otherwise `literal`, the
/// address the text reads as (if any), is the one target; otherwise the
/// text is a name to look up.
pub open spec fn resolution_of(
    target: Seq<char>,
    literal: Option<IpAddress>,
    r: Result<Resolution, ResolutionError>,
) -> bool {
    if has_char(target, '/') {
        match block_of(target) {
            Some((first, len)) => r matches Ok(Resolution::Addresses(v)) && v@ == block_addresses(first, len),
            None => r == Err::<Resolution, ResolutionError>(ResolutionError::InvalidBlock),
        }
    } else {
        match literal {
            Some(ip) => r matches Ok(Resolution::Addresses(v)) && v@ == seq![ip],
            None => r matches Ok(Resolution::Lookup),
        }
    }
}

/// Resolves a target expression; `literal` is the address the expression
/// reads as, if it reads as one.
pub fn resolve_targets(target: &str, literal: Option<IpAddress>) -> (r: Result<Resolution, ResolutionError>)
    ensures
        resolution_of(target@, literal, r),
{
    let chars = crate::text::chars_of(target);
    let mut slash = false;
    let mut i: usize = 0;
    while i < chars.len()
        invariant
            chars@ == target@,
            i <= chars@.len(),
            slash == has_char(chars@.subrange(0, i as int), '/'),
        decreases chars.len() - i,
    {
        proof {
            let next = chars@.subrange(0, i + 1);
            assert(next.subrange(0, i as int) =~= chars@.subrange(0, i as int));
            if has_char(chars@.subrange(0, i as int), '/') {
                let w = choose|w: int| 0 <= w < i && chars@.subrange(0, i as int)[w] == '/';
                assert(next[w] == '/');
            }
            if has_char(next, '/') {
                let w = choose|w: int| 0 <= w < i + 1 && next[w] == '/';
                if w < i {
                    assert(chars@.subrange(0, i as int)[w] == '/');
                }
            }
        }
        if chars[i] == '/' {
            proof {
                assert(chars@.subrange(0, i + 1)[i as int] == '/');
            }
            slash = true;
        }
        i = i + 1;
    }
    proof {
        assert(chars@.subrange(0, chars@.len() as int) =~= target@);
    }
    if slash {
        match parse_block(target) {
            Some((first, len)) => Ok(Resolution::Addresses(expand_block(first, len))),
            None => Err(ResolutionError::InvalidBlock),
        }
    } else {
        match literal {
            Some(ip) => {
                let v = vec![ip];
                proof {
                    assert(v@ =~= seq![ip]);
                }
                Ok(Resolution::Addresses(v))
            },
            None => Ok(Resolution::Lookup),
        }
    }
}

/// Accepts the addresses a name lookup gave, in the order given; no address
/// is an error.
pub fn accept_lookup(addresses: Vec<IpAddress>) -> (r: Result<Vec<IpAddress>, ResolutionError>)
    ensures
        addresses@.len() == 0 ==> r == Err::<Vec<IpAddress>, ResolutionError>(ResolutionError::NoAddresses),
        addresses@.len() > 0 ==> (r matches Ok(v) && v@ == addresses@),
{
    if addresses.len() == 0 {
        Err(ResolutionError::NoAddresses)
    } else {
        Ok(addresses)
    }
}

// ---------------------------------------------------------------------------
// Jobs

/// One unit of work: a port of a target address.
#[derive(Debug, Clone, Copy, PartialEq, Eq, Structural)]
pub struct ProbeJob {
    pub target: IpAddress,
    pub port: u16,
}

/// Where the job of target `t` and port `p` stands among `n_ports` ports per
/// target.
pub open spec fn job_index(t: int, p: int, n_ports: int) -> int {
    t * n_ports + p
}

/// The job set: for each target in order, each port in order.
pub open spec fn jobs_of(targets: Seq<IpAddress>, ports: Seq<u16>, jobs: Seq<ProbeJob>) -> bool {
    &&& jobs.len() == targets.len() * ports.len()
    &&& forall|t: int, p: int|
        0 <= t < targets.len() && 0 <= p < ports.len() ==> #[trigger] jobs[job_index(t, p, ports.len() as int)]
            == (ProbeJob { target: targets[t], port: ports[p] })
}

/// Builds the cross product of targets and ports as jobs.
pub fn build_jobs(targets: &Vec<IpAddress>, ports: &Vec<u16>) -> (r: Vec<ProbeJob>)
    requires
        targets@.len() * ports@.len() <= usize::MAX,
    ensures
        jobs_of(targets@, ports@, r@),
{
    let n = ports.len();
    let mut out: Vec<ProbeJob> = Vec::new();
    let mut t: usize = 0;
    while t < targets.len()
        invariant
            n == ports@.len(),
            t <= targets@.len(),
            targets@.len() * n <= usize::MAX,
            out@.len() == t * n,
            forall|a: int, b: int|
                0 <= a < t && 0 <= b < n ==> #[trigger] out@[job_index(a, b, n as int)]
                    == (ProbeJob { target: targets@[a], port: ports@[b] }),
        decreases targets.len() - t,
    {
        let mut p: usize = 0;
        while p < n
            invariant
                n == ports@.len(),
                t < targets@.len(),
                p <= n,
                out@.len() == t * n + p,
                forall|a: int, b: int|
                    0 <= a < t && 0 <= b < n ==> #[trigger] out@[job_index(a, b, n as int)]
                        == (ProbeJob { target: targets@[a], port: ports@[b] }),
                forall|b: int|
                    0 <= b < p ==> #[trigger] out@[job_index(t as int, b, n as int)]
                        == (ProbeJob { target: targets@[t as int], port: ports@[b] }),
            decreases n - p,
        {
            proof {
                assert forall|a: int, b: int| 0 <= a < t && 0 <= b < n implies job_index(a, b, n as int) < t * n by {
                    assert(a * n + b < t * n) by (nonlinear_arith)
                        requires
                            0 <= a < t,
                            0 <= b < n;
                }
            }
            out.push(ProbeJob { target: targets[t], port: ports[p] });
            p = p + 1;
        }
        proof {
            assert((t + 1) * n == t * n + n) by (nonlinear_arith);
            assert forall|a: int, b: int| 0 <= a < t + 1 && 0 <= b < n implies #[trigger] out@[job_index(a, b, n as int)]
                == (ProbeJob { target: targets@[a], port: ports@[b] }) by {
                if a == t {
                } else {
                }
            }
            assert((t + 1) * n <= targets@.len() * n) by (nonlinear_arith)
                requires
                    t + 1 <= targets@.len();
        }
        t = t + 1;
    }
    out
}

/// Every job has its own place: distinct (target, port) pairs never share
/// an index, and every index lies in the job set.
pub proof fn lemma_jobs_distinct(n_targets: nat, n_ports: nat, ta: int, pa: int, tb: int, pb: int)
    requires
        0 <= ta < n_targets,
        0 <= tb < n_targets,
        0 <= pa < n_ports,
        0 <= pb < n_ports,
    ensures
        0 <= job_index(ta, pa, n_ports as int) < n_targets * n_ports,
        job_index(ta, pa, n_ports as int) == job_index(tb, pb, n_ports as int) ==> ta == tb && pa == pb,
{
    assert(0 <= ta * n_ports + pa < n_targets * n_ports) by (nonlinear_arith)
        requires
            0 <= ta < n_targets,
            0 <= pa < n_ports;
    if ta * n_ports + pa == tb * n_ports + pb {
        if ta < tb {
            assert(ta * n_ports + pa < tb * n_ports + pb) by (nonlinear_arith)
                requires
                    ta < tb,
                    0 <= pa < n_ports,
                    0 <= pb;
        } else if tb < ta {
            assert(tb * n_ports + pb < ta * n_ports + pa) by (nonlinear_arith)
                requires
                    tb < ta,
                    0 <= pb < n_ports,
                    0 <= pa;
        }
    }
}

// ---------------------------------------------------------------------------
// Probe planning

/// Raw-access failures after which the adaptive technique stops trying SYN
/// probes and uses full handshakes.
pub const RAW_FAILURE_LIMIT: u32 = 3;

/// What the adaptive technique has observed so far in a run.
#[derive(Debug, Clone, Copy, PartialEq, Eq, Structural)]
pub struct CompositeState {
    /// Probes whose raw packets could not be sent.
    pub raw_failures: u32,
    /// Probes observed.
    pub probes: u32,
}

/// The sub-technique the adaptive technique picks next: SYN until raw
/// access has failed `RAW_FAILURE_LIMIT` times, full handshakes after.
pub open spec fn composite_choice(s: CompositeState) -> ProbeAction {
    if s.raw_failures >= RAW_FAILURE_LIMIT {
        ProbeAction::Connect
    } else {
        ProbeAction::RawTcp(TcpFlags::Syn)
    }
}

impl CompositeState {
    /// Nothing observed yet.
    pub fn new() -> (r: CompositeState)
        ensures
            r.raw_failures == 0,
            r.probes == 0,
    {
        CompositeState { raw_failures: 0, probes: 0 }
    }

    /// The sub-technique for the next probe; it depends on the observations
    /// alone.
    pub fn pick(&self) -> (r: ProbeAction)
        ensures
            r == composite_choice(*self),
    {
        if self.raw_failures >= RAW_FAILURE_LIMIT {
            ProbeAction::Connect
        } else {
            ProbeAction::RawTcp(TcpFlags::Syn)
        }
    }

    /// Records one probe, and whether its raw packets could be sent; the
    /// counters stop at their maximum.
    pub fn observe(&mut self, raw_available: bool)
        ensures
            final(self).probes == if old(self).probes == u32::MAX { u32::MAX } else { (old(self).probes + 1) as u32 },
            final(self).raw_failures == if raw_available || old(self).raw_failures == u32::MAX {
                old(self).raw_failures
            } else {
                (old(self).raw_failures + 1) as u32
            },
    {
        self.probes = self.probes.saturating_add(1);
        if !raw_available {
            self.raw_failures = self.raw_failures.saturating_add(1);
        }
    }
}

/// The operation a technique performs first: full handshake for connect and
/// custom techniques; a crafted segment for the flag techniques, and a SYN
/// for fragmented and decoy probes; a datagram for UDP; the zombie sequence
/// for idle probes with a zombie, and a SYN without one; the adaptive pick
/// for the adaptive technique.
pub open spec fn planned_action(t: ScanType, has_zombie: bool, c: CompositeState) -> ProbeAction {
    match t {
        ScanType::Apollo => composite_choice(c),
        ScanType::Syn | ScanType::Fragment | ScanType::Decoy => ProbeAction::RawTcp(TcpFlags::Syn),
        ScanType::Fin => ProbeAction::RawTcp(TcpFlags::Fin),
        ScanType::Null => ProbeAction::RawTcp(TcpFlags::Null),
        ScanType::Xmas => ProbeAction::RawTcp(TcpFlags::Xmas),
        ScanType::Ack => ProbeAction::RawTcp(TcpFlags::Ack),
        ScanType::Udp => ProbeAction::Udp,
        ScanType::Idle => if has_zombie {
            ProbeAction::ZombieRelay
        } else {
            ProbeAction::RawTcp(TcpFlags::Syn)
        },
        ScanType::Connect | ScanType::Custom(_) => ProbeAction::Connect,
    }
}

/// The operation to perform first for a probe.
pub fn plan_probe(scan_type: &ScanType, has_zombie: bool, composite: &CompositeState) -> (r: ProbeAction)
    ensures
        r == planned_action(*scan_type, has_zombie, *composite),
{
    match scan_type {
        ScanType::Apollo => composite.pick(),
        ScanType::Syn | ScanType::Fragment | ScanType::Decoy => ProbeAction::RawTcp(TcpFlags::Syn),
        ScanType::Fin => ProbeAction::RawTcp(TcpFlags::Fin),
        ScanType::Null => ProbeAction::RawTcp(TcpFlags::Null),
        ScanType::Xmas => ProbeAction::RawTcp(TcpFlags::Xmas),
        ScanType::Ack => ProbeAction::RawTcp(TcpFlags::Ack),
        ScanType::Udp => ProbeAction::Udp,
        ScanType::Idle => if has_zombie {
            ProbeAction::ZombieRelay
        } else {
            ProbeAction::RawTcp(TcpFlags::Syn)
        },
        ScanType::Connect | ScanType::Custom(_) => ProbeAction::Connect,
    }
}

/// What to do when an operation cannot be performed for want of raw packet
/// access: crafted segments and the zombie sequence fall back to a full
/// handshake; a handshake or datagram has no fallback.
pub fn fallback_action(action: ProbeAction) -> (r: Option<ProbeAction>)
    ensures
        r == match action {
            ProbeAction::RawTcp(_) | ProbeAction::ZombieRelay => Some(ProbeAction::Connect),
            _ => None::<ProbeAction>,
        },
{
    match action {
        ProbeAction::RawTcp(_) | ProbeAction::ZombieRelay => Some(ProbeAction::Connect),
        _ => None,
    }
}

/// The table a response to `action` is classified with under technique `t`.
pub open spec fn table_for(t: ScanType, action: ProbeAction) -> Table {
    match action {
        ProbeAction::Connect => Table::Connect,
        ProbeAction::Udp => Table::Udp,
        ProbeAction::RawTcp(TcpFlags::Fin) | ProbeAction::RawTcp(TcpFlags::Null)
        | ProbeAction::RawTcp(TcpFlags::Xmas) => Table::NoAck,
        ProbeAction::RawTcp(TcpFlags::Ack) => Table::Ack,
        _ => match t {
            ScanType::Fragment => Table::Fragment,
            ScanType::Decoy => Table::Decoy,
            _ => Table::Syn,
        },
    }
}

/// The classification table for a technique's action.
pub fn select_table(scan_type: &ScanType, action: ProbeAction) -> (r: Table)
    ensures
        r == table_for(*scan_type, action),
{
    match action {
        ProbeAction::Connect => Table::Connect,
        ProbeAction::Udp => Table::Udp,
        ProbeAction::RawTcp(TcpFlags::Fin) | ProbeAction::RawTcp(TcpFlags::Null)
        | ProbeAction::RawTcp(TcpFlags::Xmas) => Table::NoAck,
        ProbeAction::RawTcp(TcpFlags::Ack) => Table::Ack,
        _ => match scan_type {
            ScanType::Fragment => Table::Fragment,
            ScanType::Decoy => Table::Decoy,
            _ => Table::Syn,
        },
    }
}

/// What an operation observed.
#[derive(Debug, Clone, Copy, PartialEq, Eq, Structural)]
pub enum Observation {
    /// The response class of a handshake, crafted segment or datagram.
    Reply(Response),
    /// The zombie's IP identifier before and after the spoofed probe.
    Zombie { baseline: u16, after: u16 },
}

/// Whether `r` is the outcome of probing `port` of `target` under technique
/// `t`: the target kept, and the port classified from what `action`
/// observed (the table of `t` and `action` for a reply, the zombie rule
/// for identifier readings).
pub open spec fn port_scan_outcome(
    target: IpAddress,
    port: u16,
    t: ScanType,
    action: ProbeAction,
    observed: Observation,
    timing: Timing,
    elapsed_us: u64,
    r: (IpAddress, PortResult),
) -> bool {
    &&& r.0 == target
    &&& r.1.wf()
    &&& r.1.port == port
    &&& match observed {
        Observation::Reply(resp) => classified(r.1, table_for(t, action), port, resp, timing, elapsed_us),
        Observation::Zombie { baseline, after } => (r.1.state, r.1.confidence, r.1.reason@) == idle_verdict(
            baseline,
            after,
        ),
    }
}

/// The outcome of one job, from the operation performed and what it
/// observed; `elapsed_us` is the measured round trip.
pub fn perform_port_scan(
    target: IpAddress,
    port: u16,
    scan_type: &ScanType,
    action: ProbeAction,
    observed: Observation,
    timing: Timing,
    elapsed_us: u64,
) -> (r: (IpAddress, PortResult))
    ensures
        port_scan_outcome(target, port, *scan_type, action, observed, timing, elapsed_us, r),
{
    match observed {
        Observation::Reply(resp) => {
            let table = select_table(scan_type, action);
            (target, classify(table, port, resp, timing, elapsed_us))
        },
        Observation::Zombie { baseline, after } => (target, idle_scan(port, baseline, after)),
    }
}

/// Adaptive probe: classified with the table of the sub-technique that
/// `composite` picks.
pub fn apollo_scan(port: u16, composite: &CompositeState, response: Response, timing: Timing, elapsed_us: u64) -> (r: PortResult)
    ensures
        classified(r, table_for(ScanType::Apollo, composite_choice(*composite)), port, response, timing, elapsed_us),
{
    let action = composite.pick();
    let table = select_table(&ScanType::Apollo, action);
    classify(table, port, response, timing, elapsed_us)
}

// ---------------------------------------------------------------------------
// Retries and admission

/// How many attempts a job gets: `max_retries`, and at least one.
pub open spec fn attempt_limit(max_retries: u8) -> nat {
    if max_retries == 0 { 1 } else { max_retries as nat }
}

/// Whether a job is probed again after its `attempts`-th attempt gave
/// `state`: only a filtered outcome is retried, and only while attempts
/// remain.
pub fn should_retry(attempts: u32, max_retries: u8, state: PortState) -> (r: bool)
    ensures
        r == (state == PortState::Filtered && attempts < attempt_limit(max_retries)),
{
    let limit: u32 = if max_retries == 0 { 1 } else { max_retries as u32 };
    state == PortState::Filtered && attempts < limit
}

/// The index of the attempt whose outcome is kept, among successive
/// attempts with outcomes `states`, starting the search at `i`: the first
/// that is not filtered, or the last one allowed.
pub open spec fn settled_attempt(states: Seq<PortState>, limit: nat, i: nat) -> nat
    decreases limit - i,
{
    if i + 1 >= limit || i + 1 >= states.len() || states[i as int] != PortState::Filtered {
        i
    } else {
        settled_attempt(states, limit, i + 1)
    }
}

/// The states of a sequence of outcomes.
pub open spec fn states_of(outcomes: Seq<PortResult>) -> Seq<PortState> {
    outcomes.map_values(|o: PortResult| o.state)
}

/// Among the outcomes of successive attempts of one job, the index of the
/// one that is reported (see `settled_attempt`).
pub fn settle_attempts(max_retries: u8, outcomes: &Vec<PortResult>) -> (r: usize)
    requires
        outcomes@.len() > 0,
    ensures
        r == settled_attempt(states_of(outcomes@), attempt_limit(max_retries), 0),
        r < outcomes@.len(),
        r < attempt_limit(max_retries),
{
    let limit: usize = if max_retries == 0 { 1 } else { max_retries as usize };
    let mut i: usize = 0;
    while i + 1 < limit && i + 1 < outcomes.len() && outcomes[i].state == PortState::Filtered
        invariant
            limit == attempt_limit(max_retries),
            i < limit,
            i < outcomes@.len(),
            settled_attempt(states_of(outcomes@), limit as nat, i as nat)
                == settled_attempt(states_of(outcomes@), limit as nat, 0),
        decreases limit - i,
    {
        i = i + 1;
    }
    i
}

/// A job that is filtered on every attempt is probed exactly
/// `attempt_limit(max_retries)` times, never more: `max_retries - 1`
/// retries (none when `max_retries` is 0 or 1), and the reported outcome is
/// that of the last attempt.
pub proof fn lemma_retry_bound(max_retries: u8, states: Seq<PortState>)
    requires
        states.len() >= attempt_limit(max_retries),
        forall|i: int| 0 <= i < states.len() ==> states[i] == PortState::Filtered,
    ensures
        settled_attempt(states, attempt_limit(max_retries), 0) == attempt_limit(max_retries) - 1,
{
    lemma_filtered_settles_last(states, attempt_limit(max_retries), 0);
}

proof fn lemma_filtered_settles_last(states: Seq<PortState>, limit: nat, i: nat)
    requires
        i < limit <= states.len(),
        forall|k: int| 0 <= k < states.len() ==> states[k] == PortState::Filtered,
    ensures
        settled_attempt(states, limit, i) == limit - 1,
    decreases limit - i,
{
    if i + 1 < limit {
        lemma_filtered_settles_last(states, limit, i + 1);
    }
}

/// The delay before dispatching a probe, in milliseconds: the template's
/// delay when a rate limit is set, none otherwise.
pub fn admission_delay(rate_limit: Option<u32>, timing: &Timing) -> (r: Option<u64>)
    ensures
        r == match rate_limit {
            Some(_) => Some(delay_ms(*timing) as u64),
            None => None::<u64>,
        },
{
    match rate_limit {
        Some(_) => Some(get_timing_delay(timing)),
        None => None,
    }
}

} // verus!
