//! The result aggregator: outcomes are grouped by target, and the summary
//! counts always equal what was aggregated.
use crate::config::ScanConfig;
use crate::evasion::{apply_stealth_modifications, requested_names, string_views};
use crate::scan::{job_index, jobs_of, perform_port_scan, port_scan_outcome, Observation, ProbeJob};
use crate::probe::ProbeAction;
use crate::timing::Timing;
use crate::types::{IpAddress, PortResult, PortState, ScanResults, ScanStats, ScanSummary, ScanType, TargetResult};
use vstd::prelude::*;

verus! {

/// Relies on `chrono::Utc::now` and `DateTime::timestamp_millis`: the
/// current time in milliseconds since the Unix epoch. Nothing is promised of
/// the value.
#[verifier::external_body]
fn now_millis() -> (r: i64) {
    chrono::Utc::now().timestamp_millis()
}

/// The number of outcomes held for all targets.
pub open spec fn port_count(ts: Seq<TargetResult>) -> nat
    decreases ts.len(),
{
    if ts.len() == 0 {
        0
    } else {
        port_count(ts.drop_last()) + ts.last().ports@.len()
    }
}

/// The number of open outcomes in a list.
pub open spec fn open_in(ps: Seq<PortResult>) -> nat
    decreases ps.len(),
{
    if ps.len() == 0 {
        0
    } else {
        open_in(ps.drop_last()) + if ps.last().state == PortState::Open { 1nat } else { 0nat }
    }
}

/// The number of open outcomes held for all targets.
pub open spec fn open_count(ts: Seq<TargetResult>) -> nat
    decreases ts.len(),
{
    if ts.len() == 0 {
        0
    } else {
        open_count(ts.drop_last()) + open_in(ts.last().ports@)
    }
}

proof fn lemma_open_in_le(ps: Seq<PortResult>)
    ensures
        open_in(ps) <= ps.len(),
    decreases ps.len(),
{
    if ps.len() > 0 {
        lemma_open_in_le(ps.drop_last());
    }
}

proof fn lemma_open_count_le(ts: Seq<TargetResult>)
    ensures
        open_count(ts) <= port_count(ts),
    decreases ts.len(),
{
    if ts.len() > 0 {
        lemma_open_count_le(ts.drop_last());
        lemma_open_in_le(ts.last().ports@);
    }
}

proof fn lemma_open_in_push(ps: Seq<PortResult>, p: PortResult)
    ensures
        open_in(ps.push(p)) == open_in(ps) + if p.state == PortState::Open { 1nat } else { 0nat },
{
    assert(ps.push(p).drop_last() =~= ps);
}

proof fn lemma_counts_update(ts: Seq<TargetResult>, k: int, t: TargetResult)
    requires
        0 <= k < ts.len(),
    ensures
        port_count(ts.update(k, t)) == port_count(ts) - ts[k].ports@.len() + t.ports@.len(),
        open_count(ts.update(k, t)) == open_count(ts) - open_in(ts[k].ports@) + open_in(t.ports@),
    decreases ts.len(),
{
    let u = ts.update(k, t);
    if k == ts.len() - 1 {
        assert(u.drop_last() =~= ts.drop_last());
    } else {
        assert(u.drop_last() =~= ts.drop_last().update(k, t));
        lemma_counts_update(ts.drop_last(), k, t);
    }
    lemma_count_parts(ts);
    lemma_count_parts(u);
}

proof fn lemma_count_parts(ts: Seq<TargetResult>)
    ensures
        ts.len() > 0 ==> port_count(ts) >= ts.last().ports@.len(),
        ts.len() > 0 ==> open_count(ts) >= open_in(ts.last().ports@),
        forall|k: int| 0 <= k < ts.len() ==> port_count(ts) >= (#[trigger] ts[k]).ports@.len(),
        forall|k: int| 0 <= k < ts.len() ==> open_count(ts) >= open_in((#[trigger] ts[k]).ports@),
    decreases ts.len(),
{
    if ts.len() > 0 {
        lemma_count_parts(ts.drop_last());
        assert forall|k: int| 0 <= k < ts.len() implies port_count(ts) >= (#[trigger] ts[k]).ports@.len()
            && open_count(ts) >= open_in(ts[k].ports@) by {
            if k < ts.len() - 1 {
                assert(ts[k] == ts.drop_last()[k]);
            }
        }
    }
}

/// Whether no two targets share an address.
pub open spec fn distinct_targets(ts: Seq<TargetResult>) -> bool {
    forall|i: int, j: int| 0 <= i < j < ts.len() ==> (#[trigger] ts[i]).ip != (#[trigger] ts[j]).ip
}

/// Whether `t` holds exactly the one outcome `p` for address `ip`, with no
/// other data yet.
pub open spec fn fresh_target(t: TargetResult, ip: IpAddress, p: PortResult) -> bool {
    &&& t.ip == ip
    &&& t.ports@ == seq![p]
    &&& t.hostname is None
    &&& t.os_detection is None
    &&& t.scripts@.len() == 0
    &&& t.fingerprint is None
    &&& t.evasion_success is None
}

/// The outcomes filed under address `ip` (those of its entry, if any).
pub open spec fn outcomes_for(ts: Seq<TargetResult>, ip: IpAddress) -> Seq<PortResult>
    decreases ts.len(),
{
    if ts.len() == 0 {
        Seq::empty()
    } else if ts.last().ip == ip {
        ts.last().ports@
    } else {
        outcomes_for(ts.drop_last(), ip)
    }
}

/// The outcomes of a batch that are for address `ip`, in order.
pub open spec fn outcomes_at(outs: Seq<(IpAddress, PortResult)>, ip: IpAddress) -> Seq<PortResult>
    decreases outs.len(),
{
    if outs.len() == 0 {
        Seq::empty()
    } else if outs.last().0 == ip {
        outcomes_at(outs.drop_last(), ip).push(outs.last().1)
    } else {
        outcomes_at(outs.drop_last(), ip)
    }
}

/// The number of open outcomes in a batch.
pub open spec fn open_outcomes(outs: Seq<(IpAddress, PortResult)>) -> nat
    decreases outs.len(),
{
    if outs.len() == 0 {
        0
    } else {
        open_outcomes(outs.drop_last()) + if outs.last().1.state == PortState::Open { 1nat } else { 0nat }
    }
}

proof fn lemma_outcomes_for(ts: Seq<TargetResult>, ip: IpAddress)
    requires
        distinct_targets(ts),
    ensures
        forall|k: int| 0 <= k < ts.len() && (#[trigger] ts[k]).ip == ip ==> outcomes_for(ts, ip) == ts[k].ports@,
        (forall|k: int| 0 <= k < ts.len() ==> (#[trigger] ts[k]).ip != ip) ==> outcomes_for(ts, ip) == Seq::<PortResult>::empty(),
    decreases ts.len(),
{
    if ts.len() > 0 {
        let init = ts.drop_last();
        assert forall|i: int, j: int| 0 <= i < j < init.len() implies (#[trigger] init[i]).ip != (#[trigger] init[j]).ip by {
            assert(init[i] == ts[i] && init[j] == ts[j]);
        }
        lemma_outcomes_for(init, ip);
        assert forall|k: int| 0 <= k < ts.len() && (#[trigger] ts[k]).ip == ip implies outcomes_for(ts, ip) == ts[k].ports@ by {
            if k < ts.len() - 1 {
                assert(init[k] == ts[k]);
                assert(ts[k].ip != ts[ts.len() - 1].ip);
            }
        }
        if forall|k: int| 0 <= k < ts.len() ==> (#[trigger] ts[k]).ip != ip {
            assert forall|k: int| 0 <= k < init.len() implies (#[trigger] init[k]).ip != ip by {
                assert(init[k] == ts[k]);
            }
        }
    }
}

impl ScanResults {
    /// The report's invariant: one entry per target address, and summary
    /// counts equal to the hosts, outcomes and open outcomes it holds.
    pub open spec fn wf(&self) -> bool {
        &&& distinct_targets(self.targets@)
        &&& self.summary.total_hosts == self.targets@.len()
        &&& self.summary.total_ports == port_count(self.targets@)
        &&& self.summary.open_ports == open_count(self.targets@)
    }

    /// An empty report, stamped with the current time.
    pub fn new() -> (r: ScanResults)
        ensures
            r.wf(),
            r.targets@.len() == 0,
            r.summary == (ScanSummary { total_hosts: 0, total_ports: 0, open_ports: 0 }),
            r.scan_stats.start_time == r.timestamp,
            r.scan_stats.end_time is None,
            r.scan_stats.duration is None,
            r.scan_stats.packets_sent == 0,
            r.scan_stats.packets_received == 0,
            r.scan_stats.packets_dropped == 0,
            r.scan_stats.evasion_techniques_used@.len() == 0,
            r.evasion_report is None,
    {
        let now = now_millis();
        ScanResults {
            timestamp: now,
            targets: Vec::new(),
            summary: ScanSummary { total_hosts: 0, total_ports: 0, open_ports: 0 },
            scan_stats: ScanStats {
                start_time: now,
                end_time: None,
                duration: None,
                packets_sent: 0,
                packets_received: 0,
                packets_dropped: 0,
                evasion_techniques_used: Vec::new(),
            },
            evasion_report: None,
        }
    }

    /// Aggregates one outcome under its target address: appended to that
    /// target's outcomes, or to a new target entry; the counts follow.
    pub fn add_result(&mut self, target: IpAddress, port_result: PortResult)
        requires
            old(self).wf(),
            old(self).summary.total_ports < u32::MAX,
            old(self).summary.total_hosts < u32::MAX,
        ensures
            final(self).wf(),
            final(self).summary.total_ports == old(self).summary.total_ports + 1,
            final(self).summary.total_hosts <= old(self).summary.total_hosts + 1,
            forall|ip: IpAddress|
                #[trigger] outcomes_for(final(self).targets@, ip) == if ip == target {
                    outcomes_for(old(self).targets@, ip).push(port_result)
                } else {
                    outcomes_for(old(self).targets@, ip)
                },
            final(self).summary.open_ports == old(self).summary.open_ports + if port_result.state
                == PortState::Open { 1nat } else { 0nat },
            (exists|k: int| 0 <= k < old(self).targets@.len() && old(self).targets@[k].ip == target)
                ==> (exists|k: int|
                0 <= k < old(self).targets@.len() && old(self).targets@[k].ip == target
                    && final(self).targets@ == old(self).targets@.update(
                    k,
                    TargetResult { ports: final(self).targets@[k].ports, ..old(self).targets@[k] },
                ) && final(self).targets@[k].ports@ == old(self).targets@[k].ports@.push(port_result)),
            !(exists|k: int| 0 <= k < old(self).targets@.len() && old(self).targets@[k].ip == target)
                ==> final(self).targets@.len() == old(self).targets@.len() + 1
                && final(self).targets@.drop_last() == old(self).targets@
                && fresh_target(final(self).targets@.last(), target, port_result),
            final(self).timestamp == old(self).timestamp,
            final(self).scan_stats == old(self).scan_stats,
            final(self).evasion_report == old(self).evasion_report,
    {
        proof {
            lemma_open_count_le(self.targets@);
        }
        let ghost old_targets = self.targets@;
        let mut i: usize = 0;
        while i < self.targets.len()
            invariant
                self.targets@ == old_targets,
                i <= old_targets.len(),
                forall|k: int| 0 <= k < i ==> old_targets[k].ip != target,
            ensures
                self.targets@ == old_targets,
                i <= old_targets.len(),
                forall|k: int| 0 <= k < i ==> old_targets[k].ip != target,
                i < old_targets.len() ==> old_targets[i as int].ip == target,
            decreases self.targets.len() - i,
        {
            if self.targets[i].ip == target {
                break;
            }
            i = i + 1;
        }
        let is_open = port_result.state == PortState::Open;
        if i < self.targets.len() {
            let mut entry = self.targets.remove(i);
            let ghost before = entry;
            entry.ports.push(port_result);
            proof {
                lemma_open_in_push(before.ports@, port_result);
                lemma_counts_update(old_targets, i as int, entry);
            }
            self.targets.insert(i, entry);
            proof {
                assert(self.targets@ =~= old_targets.update(i as int, entry));
                assert(entry == TargetResult { ports: entry.ports, ..old_targets[i as int] });
                assert(self.targets@[i as int] == entry);
                assert(0 <= i < old_targets.len() && old_targets[i as int].ip == target
                    && self.targets@ == old_targets.update(
                    i as int,
                    TargetResult { ports: self.targets@[i as int].ports, ..old_targets[i as int] },
                ) && self.targets@[i as int].ports@ == old_targets[i as int].ports@.push(port_result));
                assert forall|a: int, b: int| 0 <= a < b < self.targets@.len() implies
                    (#[trigger] self.targets@[a]).ip != (#[trigger] self.targets@[b]).ip by {
                    assert(old_targets[a].ip == self.targets@[a].ip);
                    assert(old_targets[b].ip == self.targets@[b].ip);
                }
                assert forall|ipx: IpAddress| #[trigger] outcomes_for(self.targets@, ipx) == if ipx == target {
                    outcomes_for(old_targets, ipx).push(port_result)
                } else {
                    outcomes_for(old_targets, ipx)
                } by {
                    lemma_outcomes_for(old_targets, ipx);
                    lemma_outcomes_for(self.targets@, ipx);
                    assert(self.targets@[i as int].ip == target);
                    if exists|j: int| 0 <= j < old_targets.len() && old_targets[j].ip == ipx {
                        let j = choose|j: int| 0 <= j < old_targets.len() && old_targets[j].ip == ipx;
                        assert(self.targets@[j].ip == ipx);
                        if ipx == target {
                            assert(j == i as int);
                        }
                    } else {
                        assert(old_targets[i as int].ip == target);
                        assert forall|k: int| 0 <= k < self.targets@.len() implies (#[trigger] self.targets@[k]).ip != ipx by {
                            assert(old_targets[k].ip == self.targets@[k].ip);
                        }
                    }
                }
            }
        } else {
            let mut ports: Vec<PortResult> = Vec::new();
            ports.push(port_result);
            let entry = TargetResult {
                ip: target,
                hostname: None,
                ports,
                os_detection: None,
                scripts: Vec::new(),
                fingerprint: None,
                evasion_success: None,
            };
            self.targets.push(entry);
            proof {
                assert(self.targets@.drop_last() =~= old_targets);
                assert(ports@ =~= seq![port_result]);
                lemma_open_in_push(Seq::empty(), port_result);
                assert(Seq::<PortResult>::empty().push(port_result) =~= seq![port_result]);
                assert(seq![port_result].drop_last() =~= Seq::<PortResult>::empty());
                assert(!(exists|k: int| 0 <= k < old_targets.len() && old_targets[k].ip == target));
                assert(fresh_target(self.targets@.last(), target, port_result));
                assert forall|ipx: IpAddress| #[trigger] outcomes_for(self.targets@, ipx) == if ipx == target {
                    outcomes_for(old_targets, ipx).push(port_result)
                } else {
                    outcomes_for(old_targets, ipx)
                } by {
                    lemma_outcomes_for(old_targets, ipx);
                    lemma_outcomes_for(self.targets@, ipx);
                    let last = old_targets.len() as int;
                    assert(self.targets@[last].ip == target);
                    if exists|j: int| 0 <= j < old_targets.len() && old_targets[j].ip == ipx {
                        let j = choose|j: int| 0 <= j < old_targets.len() && old_targets[j].ip == ipx;
                        assert(self.targets@[j] == old_targets[j]);
                    } else {
                        if ipx == target {
                            assert(Seq::<PortResult>::empty().push(port_result) =~= seq![port_result]);
                        } else {
                            assert forall|k: int| 0 <= k < self.targets@.len() implies (#[trigger] self.targets@[k]).ip != ipx by {
                                if k < last {
                                    assert(self.targets@[k] == old_targets[k]);
                                }
                            }
                        }
                    }
                }
            }
            self.summary.total_hosts = self.summary.total_hosts + 1;
        }
        self.summary.total_ports = self.summary.total_ports + 1;
        if is_open {
            self.summary.open_ports = self.summary.open_ports + 1;
        }
    }

    /// Aggregates a batch of outcomes, in order.
    pub fn record_outcomes(&mut self, outcomes: Vec<(IpAddress, PortResult)>)
        requires
            old(self).wf(),
            old(self).summary.total_ports + outcomes@.len() <= u32::MAX,
            old(self).summary.total_hosts + outcomes@.len() <= u32::MAX,
        ensures
            final(self).wf(),
            final(self).summary.total_ports == old(self).summary.total_ports + outcomes@.len(),
            final(self).summary.total_hosts <= old(self).summary.total_hosts + outcomes@.len(),
            final(self).summary.open_ports == old(self).summary.open_ports + open_outcomes(outcomes@),
            forall|ip: IpAddress|
                #[trigger] outcomes_for(final(self).targets@, ip) == outcomes_for(old(self).targets@, ip)
                    + outcomes_at(outcomes@, ip),
            final(self).scan_stats == old(self).scan_stats,
            final(self).evasion_report == old(self).evasion_report,
    {
        let ghost all = outcomes@;
        let ghost n = outcomes@.len();
        let mut rest = outcomes;
        proof {
            assert(all.subrange(0, 0) =~= Seq::<(IpAddress, PortResult)>::empty());
            assert forall|ip: IpAddress| #[trigger] outcomes_for(self.targets@, ip) == outcomes_for(old(self).targets@, ip)
                + outcomes_at(all.subrange(0, 0), ip) by {
                assert(outcomes_for(self.targets@, ip) =~= outcomes_for(self.targets@, ip) + Seq::<PortResult>::empty());
            }
            assert(rest@ =~= all.subrange(0, n as int));
        }
        while rest.len() > 0
            invariant
                self.wf(),
                rest@.len() <= n,
                n == all.len(),
                rest@ == all.subrange(n - rest@.len(), n as int),
                self.summary.total_ports == old(self).summary.total_ports + (n - rest@.len()),
                self.summary.total_hosts <= old(self).summary.total_hosts + (n - rest@.len()),
                self.summary.open_ports == old(self).summary.open_ports + open_outcomes(
                    all.subrange(0, n - rest@.len()),
                ),
                forall|ip: IpAddress|
                    #[trigger] outcomes_for(self.targets@, ip) == outcomes_for(old(self).targets@, ip)
                        + outcomes_at(all.subrange(0, n - rest@.len()), ip),
                old(self).summary.total_ports + n <= u32::MAX,
                old(self).summary.total_hosts + n <= u32::MAX,
                self.scan_stats == old(self).scan_stats,
                self.evasion_report == old(self).evasion_report,
            decreases rest@.len(),
        {
            let ghost c = n - rest@.len();
            let ghost before = self.targets@;
            let (ip, pr) = rest.remove(0);
            proof {
                assert(all[c] == (ip, pr));
                assert(rest@ =~= all.subrange(c + 1, n as int));
                assert(all.subrange(0, c + 1).drop_last() =~= all.subrange(0, c));
            }
            self.add_result(ip, pr);
            proof {
                assert forall|ipx: IpAddress| #[trigger] outcomes_for(self.targets@, ipx) == outcomes_for(old(self).targets@, ipx)
                    + outcomes_at(all.subrange(0, c + 1), ipx) by {
                    assert(outcomes_for(before, ipx) == outcomes_for(old(self).targets@, ipx) + outcomes_at(all.subrange(0, c), ipx));
                    if ipx == ip {
                        assert((outcomes_for(old(self).targets@, ipx) + outcomes_at(all.subrange(0, c), ipx)).push(pr)
                            =~= outcomes_for(old(self).targets@, ipx) + outcomes_at(all.subrange(0, c), ipx).push(pr));
                    }
                }
            }
        }
        proof {
            assert(all.subrange(0, n as int) =~= all);
        }
    }

    /// Stamps the end of the run at `end` (milliseconds since the epoch) and
    /// records the duration since the start (zero if the clock went back).
    pub fn finalize_at(&mut self, end: i64)
        ensures
            final(self).scan_stats.end_time == Some(end),
            final(self).scan_stats.duration == Some(
                if end >= old(self).scan_stats.start_time { (end - old(self).scan_stats.start_time) as u64 } else { 0u64 },
            ),
            final(self).scan_stats.start_time == old(self).scan_stats.start_time,
            final(self).scan_stats.packets_sent == old(self).scan_stats.packets_sent,
            final(self).scan_stats.packets_received == old(self).scan_stats.packets_received,
            final(self).scan_stats.packets_dropped == old(self).scan_stats.packets_dropped,
            final(self).scan_stats.evasion_techniques_used == old(self).scan_stats.evasion_techniques_used,
            final(self).targets == old(self).targets,
            final(self).summary == old(self).summary,
            final(self).timestamp == old(self).timestamp,
            final(self).evasion_report == old(self).evasion_report,
    {
        let start = self.scan_stats.start_time;
        let duration: u64 = if end >= start { (end as i128 - start as i128) as u64 } else { 0 };
        self.scan_stats.end_time = Some(end);
        self.scan_stats.duration = Some(duration);
    }

    /// Stamps the end of the run with the current time (see `finalize_at`).
    pub fn finalize(&mut self)
        ensures
            final(self).scan_stats.end_time is Some,
            final(self).scan_stats.duration is Some,
            final(self).scan_stats.start_time == old(self).scan_stats.start_time,
            final(self).targets == old(self).targets,
            final(self).summary == old(self).summary,
            final(self).evasion_report == old(self).evasion_report,
    {
        let end = now_millis();
        self.finalize_at(end);
    }

    /// Records the name of an evasion technique used in the run.
    pub fn add_evasion_technique(&mut self, technique: String)
        ensures
            final(self).scan_stats.evasion_techniques_used@ == old(self).scan_stats.evasion_techniques_used@.push(technique),
            final(self).targets == old(self).targets,
            final(self).summary == old(self).summary,
            final(self).timestamp == old(self).timestamp,
            final(self).evasion_report == old(self).evasion_report,
            final(self).scan_stats.start_time == old(self).scan_stats.start_time,
            final(self).scan_stats.end_time == old(self).scan_stats.end_time,
            final(self).scan_stats.duration == old(self).scan_stats.duration,
            final(self).scan_stats.packets_sent == old(self).scan_stats.packets_sent,
            final(self).scan_stats.packets_received == old(self).scan_stats.packets_received,
            final(self).scan_stats.packets_dropped == old(self).scan_stats.packets_dropped,
    {
        self.scan_stats.evasion_techniques_used.push(technique);
    }
}

/// Whether `outcomes` holds one outcome per job, in job order, each for its
/// job's target and port.
pub open spec fn one_outcome_per_job(jobs: Seq<ProbeJob>, outcomes: Seq<(IpAddress, PortResult)>) -> bool {
    &&& outcomes.len() == jobs.len()
    &&& forall|i: int| 0 <= i < jobs.len() ==> (#[trigger] outcomes[i]).0 == jobs[i].target
        && outcomes[i].1.port == jobs[i].port
}

/// Classifies every job from what its operation observed: `observed[i]` is
/// what job `i`'s operation `actions[i]` saw, after `elapsed_us[i]`.
pub fn scan_jobs(
    jobs: &Vec<ProbeJob>,
    scan_type: &ScanType,
    actions: &Vec<ProbeAction>,
    observed: &Vec<Observation>,
    elapsed_us: &Vec<u64>,
    timing: Timing,
) -> (r: Vec<(IpAddress, PortResult)>)
    requires
        actions@.len() == jobs@.len(),
        observed@.len() == jobs@.len(),
        elapsed_us@.len() == jobs@.len(),
    ensures
        one_outcome_per_job(jobs@, r@),
        forall|i: int|
            0 <= i < r@.len() ==> port_scan_outcome(
                jobs@[i].target,
                jobs@[i].port,
                *scan_type,
                actions@[i],
                observed@[i],
                timing,
                elapsed_us@[i],
                #[trigger] r@[i],
            ),
{
    let mut out: Vec<(IpAddress, PortResult)> = Vec::new();
    let mut i: usize = 0;
    while i < jobs.len()
        invariant
            i <= jobs@.len(),
            actions@.len() == jobs@.len(),
            observed@.len() == jobs@.len(),
            elapsed_us@.len() == jobs@.len(),
            out@.len() == i,
            forall|k: int|
                0 <= k < i ==> port_scan_outcome(
                    jobs@[k].target,
                    jobs@[k].port,
                    *scan_type,
                    actions@[k],
                    observed@[k],
                    timing,
                    elapsed_us@[k],
                    #[trigger] out@[k],
                ),
        decreases jobs.len() - i,
    {
        let job = jobs[i];
        let r = perform_port_scan(job.target, job.port, scan_type, actions[i], observed[i], timing, elapsed_us[i]);
        proof {
            match observed@[i as int] {
                Observation::Reply(_) => {},
                Observation::Zombie { .. } => {},
            }
        }
        out.push(r);
        i = i + 1;
    }
    out
}

/// Every job yields exactly one outcome: over the job set of `targets` and
/// `ports`, one outcome per job means `targets.len() * ports.len()`
/// outcomes, and the outcome at each (target, port) place is for that
/// target and port.
pub proof fn lemma_one_outcome_per_job(
    targets: Seq<IpAddress>,
    ports: Seq<u16>,
    jobs: Seq<ProbeJob>,
    outcomes: Seq<(IpAddress, PortResult)>,
)
    requires
        jobs_of(targets, ports, jobs),
        one_outcome_per_job(jobs, outcomes),
    ensures
        outcomes.len() == targets.len() * ports.len(),
        forall|t: int, p: int|
            0 <= t < targets.len() && 0 <= p < ports.len() ==> (#[trigger] outcomes[job_index(t, p, ports.len() as int)]).0
                == targets[t] && outcomes[job_index(t, p, ports.len() as int)].1.port == ports[p],
{
    assert forall|t: int, p: int| 0 <= t < targets.len() && 0 <= p < ports.len() implies
        (#[trigger] outcomes[job_index(t, p, ports.len() as int)]).0 == targets[t]
        && outcomes[job_index(t, p, ports.len() as int)].1.port == ports[p] by {
        crate::scan::lemma_jobs_distinct(targets.len(), ports.len(), t, p, t, p);
        assert(jobs[job_index(t, p, ports.len() as int)] == (ProbeJob { target: targets[t], port: ports[p] }));
    }
}

/// A finished probe of one job: the operation last performed, what it
/// observed, and the measured round trip in microseconds.
#[derive(Debug, Clone, Copy, PartialEq, Eq, Structural)]
pub struct ProbeRecord {
    pub action: ProbeAction,
    pub observed: Observation,
    pub elapsed_us: u64,
}

/// Whether `r` is the outcome reported for the job of target `t` and port
/// `p`: the classification of that job's record.
pub open spec fn job_reported(
    config: ScanConfig,
    targets: Seq<IpAddress>,
    records: Seq<ProbeRecord>,
    t: int,
    p: int,
    r: PortResult,
) -> bool {
    let rec = records[job_index(t, p, config.ports@.len() as int)];
    port_scan_outcome(
        targets[t],
        config.ports@[p],
        config.scan_type,
        rec.action,
        rec.observed,
        config.timing,
        rec.elapsed_us,
        (targets[t], r),
    )
}

/// Whether entry `t` of `ts` is the entry of `targets[t]` holding the
/// reported outcomes of its first `count` ports, in port order.
pub open spec fn entry_holds(
    config: ScanConfig,
    targets: Seq<IpAddress>,
    records: Seq<ProbeRecord>,
    ts: Seq<TargetResult>,
    t: int,
    count: int,
) -> bool {
    &&& ts[t].ip == targets[t]
    &&& ts[t].ports@.len() == count
    &&& forall|b: int| 0 <= b < count ==> job_reported(config, targets, records, t, b, #[trigger] ts[t].ports@[b])
}

/// The report of a run over resolved `targets`: `records[i]` is the finished
/// probe of job `i` of `build_jobs(targets, config.ports)`. Every job yields
/// exactly one outcome, the classification of its record, filed under its
/// target; with distinct targets, entry `t` is that of `targets[t]` and holds
/// one outcome per port, in port order. Evasion techniques are recorded
/// when stealth mode is on.
pub fn perform_scan(config: &ScanConfig, targets: &Vec<IpAddress>, records: &Vec<ProbeRecord>) -> (r: ScanResults)
    requires
        targets@.len() * config.ports@.len() <= u32::MAX,
        records@.len() == targets@.len() * config.ports@.len(),
    ensures
        r.wf(),
        r.summary.total_ports == targets@.len() * config.ports@.len(),
        targets@.no_duplicates() ==> r.summary.total_hosts == (if config.ports@.len() > 0 {
            targets@.len()
        } else {
            0
        }),
        targets@.no_duplicates() && config.ports@.len() > 0 ==> forall|t: int|
            0 <= t < targets@.len() ==> #[trigger] entry_holds(
                *config,
                targets@,
                records@,
                r.targets@,
                t,
                config.ports@.len() as int,
            ),
        config.apollo_stealth ==> string_views(r.scan_stats.evasion_techniques_used@) == requested_names(*config),
        !config.apollo_stealth ==> r.scan_stats.evasion_techniques_used@.len() == 0 && r.evasion_report is None,
{
    let mut results = ScanResults::new();
    if config.apollo_stealth {
        apply_stealth_modifications(&mut results, config);
        proof {
            assert(string_views(Seq::<String>::empty()) =~= Seq::<Seq<char>>::empty());
            assert(Seq::<Seq<char>>::empty() + requested_names(*config) =~= requested_names(*config));
        }
    }
    let ghost stats = results.scan_stats;
    let ghost evasion = results.evasion_report;
    let ghost nd = targets@.no_duplicates();
    let n = config.ports.len();
    let ghost big_t = targets@.len();
    let mut t: usize = 0;
    while t < targets.len()
        invariant
            n == config.ports@.len(),
            big_t == targets@.len(),
            t <= big_t,
            big_t * n <= u32::MAX,
            records@.len() == big_t * n,
            nd == targets@.no_duplicates(),
            results.wf(),
            results.summary.total_ports == t * n,
            results.summary.total_hosts <= results.summary.total_ports,
            results.scan_stats == stats,
            results.evasion_report == evasion,
            nd ==> results.targets@.len() == (if n > 0 { t as int } else { 0 }),
            nd && n > 0 ==> forall|a: int|
                0 <= a < t ==> #[trigger] entry_holds(*config, targets@, records@, results.targets@, a, n as int),
        decreases big_t - t,
    {
        let mut p: usize = 0;
        while p < n
            invariant
                n == config.ports@.len(),
                big_t == targets@.len(),
                t < big_t,
                p <= n,
                big_t * n <= u32::MAX,
                records@.len() == big_t * n,
                nd == targets@.no_duplicates(),
                results.wf(),
                results.summary.total_ports == t * n + p,
                results.summary.total_hosts <= results.summary.total_ports,
                results.scan_stats == stats,
                results.evasion_report == evasion,
                nd ==> results.targets@.len() == (if n > 0 { t + (if p > 0 { 1int } else { 0 }) } else { 0 }),
                nd && n > 0 ==> forall|a: int|
                    0 <= a < t ==> #[trigger] entry_holds(*config, targets@, records@, results.targets@, a, n as int),
                nd && p > 0 ==> entry_holds(*config, targets@, records@, results.targets@, t as int, p as int),
            decreases n - p,
        {
            proof {
                assert(t * n + p < big_t * n) by (nonlinear_arith)
                    requires
                        t < big_t,
                        p < n;
            }
            let idx: usize = t * n + p;
            let rec = records[idx];
            let (ip, pr) = perform_port_scan(
                targets[t],
                config.ports[p],
                &config.scan_type,
                rec.action,
                rec.observed,
                config.timing,
                rec.elapsed_us,
            );
            let ghost before = results.targets@;
            proof {
                assert(job_index(t as int, p as int, n as int) == idx);
                assert(job_reported(*config, targets@, records@, t as int, p as int, pr));
                if nd {
                    if p == 0 {
                        assert forall|k: int| 0 <= k < before.len() implies before[k].ip != ip by {
                            if n > 0 {
                                assert(entry_holds(*config, targets@, records@, before, k, n as int));
                            }
                        }
                    } else {
                        assert(before[t as int].ip == ip);
                    }
                }
            }
            results.add_result(ip, pr);
            proof {
                let after = results.targets@;
                if nd {
                    if p == 0 {
                        assert(after.drop_last() == before);
                        assert forall|a: int| 0 <= a < t implies #[trigger] entry_holds(
                            *config,
                            targets@,
                            records@,
                            after,
                            a,
                            n as int,
                        ) by {
                            assert(entry_holds(*config, targets@, records@, before, a, n as int));
                            assert(after[a] == before[a]);
                        }
                        assert(after[t as int].ports@ == seq![pr]);
                        assert(entry_holds(*config, targets@, records@, after, t as int, 1));
                    } else {
                        let k = choose|k: int|
                            0 <= k < before.len() && before[k].ip == ip && after == before.update(
                                k,
                                TargetResult { ports: after[k].ports, ..before[k] },
                            ) && after[k].ports@ == before[k].ports@.push(pr);
                        assert(k == t) by {
                            if k != t {
                                assert(before[k].ip == before[t as int].ip);
                            }
                        }
                        assert forall|a: int| 0 <= a < t implies #[trigger] entry_holds(
                            *config,
                            targets@,
                            records@,
                            after,
                            a,
                            n as int,
                        ) by {
                            assert(entry_holds(*config, targets@, records@, before, a, n as int));
                            assert(after[a] == before[a]);
                        }
                        assert forall|b: int| 0 <= b < p + 1 implies job_reported(
                            *config,
                            targets@,
                            records@,
                            t as int,
                            b,
                            #[trigger] after[t as int].ports@[b],
                        ) by {
                            if b < p {
                                assert(after[t as int].ports@[b] == before[t as int].ports@[b]);
                            }
                        }
                    }
                }
            }
            p = p + 1;
        }
        proof {
            if nd && n > 0 {
                assert forall|a: int| 0 <= a < t + 1 implies #[trigger] entry_holds(
                    *config,
                    targets@,
                    records@,
                    results.targets@,
                    a,
                    n as int,
                ) by {
                    if a == t {
                        assert(entry_holds(*config, targets@, records@, results.targets@, t as int, p as int));
                    }
                }
            }
            assert((t + 1) * n == t * n + n) by (nonlinear_arith);
            assert((t + 1) * n <= big_t * n) by (nonlinear_arith)
                requires
                    t + 1 <= big_t;
        }
        t = t + 1;
    }
    results
}

} // verus!
