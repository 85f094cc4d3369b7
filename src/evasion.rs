//! The evasion plan: which packet-path transformations a run's
//! configuration asks for, and how they are recorded in the report.
use crate::config::ScanConfig;
use crate::types::{EvasionReport, ScanResults};
use vstd::prelude::*;
use vstd::string::*;

verus! {

/// A packet-path transformation.
#[derive(Debug, Clone, Copy, PartialEq, Eq, Structural)]
pub enum EvasionTechnique {
    Fragmentation,
    RandomMac,
    IdsBypass,
    SourceSpoofing,
    DecoyHosts,
}

/// The name a technique is reported under.
pub open spec fn technique_name(t: EvasionTechnique) -> Seq<char> {
    match t {
        EvasionTechnique::Fragmentation => "IP Fragmentation"@,
        EvasionTechnique::RandomMac => "Random MAC Address"@,
        EvasionTechnique::IdsBypass => "IDS Bypass Sequence"@,
        EvasionTechnique::SourceSpoofing => "Source IP Spoofing"@,
        EvasionTechnique::DecoyHosts => "Decoy Host Obfuscation"@,
    }
}

/// `s` followed by `t` where `flag` holds.
pub open spec fn push_if(s: Seq<EvasionTechnique>, flag: bool, t: EvasionTechnique) -> Seq<EvasionTechnique> {
    if flag { s.push(t) } else { s }
}

/// The techniques a configuration asks for, in a fixed order:
/// fragmentation, random link-layer address, IDS bypass, source spoofing,
/// decoys.
pub open spec fn requested_techniques(c: ScanConfig) -> Seq<EvasionTechnique> {
    push_if(
        push_if(
            push_if(
                push_if(push_if(Seq::empty(), c.fragment, EvasionTechnique::Fragmentation), c.random_mac, EvasionTechnique::RandomMac),
                c.ids_bypass,
                EvasionTechnique::IdsBypass,
            ),
            c.spoof_ip is Some,
            EvasionTechnique::SourceSpoofing,
        ),
        c.decoys is Some,
        EvasionTechnique::DecoyHosts,
    )
}

/// The character sequences of a list of strings.
pub open spec fn string_views(v: Seq<String>) -> Seq<Seq<char>> {
    v.map_values(|s: String| s@)
}

/// The names of the techniques a configuration asks for.
pub open spec fn requested_names(c: ScanConfig) -> Seq<Seq<char>> {
    requested_techniques(c).map_values(|t: EvasionTechnique| technique_name(t))
}

/// The detection classes a run reports as avoided.
pub open spec fn avoided_names() -> Seq<Seq<char>> {
    seq!["Generic Pattern Matching"@, "Statistical Anomaly Detection"@]
}

fn name_of(t: EvasionTechnique) -> (r: &'static str)
    ensures
        r@ == technique_name(t),
{
    match t {
        EvasionTechnique::Fragmentation => "IP Fragmentation",
        EvasionTechnique::RandomMac => "Random MAC Address",
        EvasionTechnique::IdsBypass => "IDS Bypass Sequence",
        EvasionTechnique::SourceSpoofing => "Source IP Spoofing",
        EvasionTechnique::DecoyHosts => "Decoy Host Obfuscation",
    }
}

/// The techniques a configuration asks for (see `requested_techniques`).
pub fn plan_evasion(config: &ScanConfig) -> (r: Vec<EvasionTechnique>)
    ensures
        r@ == requested_techniques(*config),
{
    let mut v: Vec<EvasionTechnique> = Vec::new();
    if config.fragment {
        v.push(EvasionTechnique::Fragmentation);
    }
    if config.random_mac {
        v.push(EvasionTechnique::RandomMac);
    }
    if config.ids_bypass {
        v.push(EvasionTechnique::IdsBypass);
    }
    if config.spoof_ip.is_some() {
        v.push(EvasionTechnique::SourceSpoofing);
    }
    if config.decoys.is_some() {
        v.push(EvasionTechnique::DecoyHosts);
    }
    v
}

fn technique_names(config: &ScanConfig) -> (r: Vec<String>)
    ensures
        string_views(r@) == requested_names(*config),
{
    let plan = plan_evasion(config);
    let mut names: Vec<String> = Vec::new();
    let mut i: usize = 0;
    while i < plan.len()
        invariant
            plan@ == requested_techniques(*config),
            i <= plan@.len(),
            string_views(names@) =~= plan@.subrange(0, i as int).map_values(
                |t: EvasionTechnique| technique_name(t),
            ),
        decreases plan.len() - i,
    {
        let ghost prev = names@;
        names.push(String::from_str(name_of(plan[i])));
        proof {
            assert(names@ == prev.push(names@.last()));
            assert(string_views(names@) =~= string_views(prev).push(technique_name(plan@[i as int])));
            assert(plan@.subrange(0, i + 1).map_values(|t: EvasionTechnique| technique_name(t))
                =~= plan@.subrange(0, i as int).map_values(|t: EvasionTechnique| technique_name(t)).push(
                technique_name(plan@[i as int]),
            ));
        }
        i = i + 1;
    }
    proof {
        assert(plan@.subrange(0, plan@.len() as int) =~= plan@);
    }
    names
}

fn avoided() -> (r: Vec<String>)
    ensures
        string_views(r@) == avoided_names(),
{
    let mut v: Vec<String> = Vec::new();
    v.push(String::from_str("Generic Pattern Matching"));
    v.push(String::from_str("Statistical Anomaly Detection"));
    proof {
        assert(string_views(v@) =~= avoided_names());
    }
    v
}

/// Records the evasion techniques a configuration asks for: when there is
/// at least one, the report gets an evasion section naming them; each name
/// is added to the techniques used.
pub fn apply_stealth_modifications(results: &mut ScanResults, config: &ScanConfig)
    ensures
        string_views(final(results).scan_stats.evasion_techniques_used@) == string_views(
            old(results).scan_stats.evasion_techniques_used@,
        ) + requested_names(*config),
        requested_names(*config).len() > 0 ==> (final(results).evasion_report matches Some(rep)
            && string_views(rep.techniques_successful@) == requested_names(*config)
            && string_views(rep.packet_modifications@) == requested_names(*config)
            && string_views(rep.ids_avoided@) == avoided_names()
            && rep.firewall_bypassed == Some(true)),
        requested_names(*config).len() == 0 ==> *final(results) == *old(results),
        final(results).targets == old(results).targets,
        final(results).summary == old(results).summary,
        final(results).timestamp == old(results).timestamp,
        final(results).scan_stats.start_time == old(results).scan_stats.start_time,
        final(results).scan_stats.end_time == old(results).scan_stats.end_time,
        final(results).scan_stats.duration == old(results).scan_stats.duration,
        final(results).scan_stats.packets_sent == old(results).scan_stats.packets_sent,
        final(results).scan_stats.packets_received == old(results).scan_stats.packets_received,
        final(results).scan_stats.packets_dropped == old(results).scan_stats.packets_dropped,
{
    let names = technique_names(config);
    if names.len() == 0 {
        return;
    }
    results.evasion_report = Some(EvasionReport {
        techniques_successful: technique_names(config),
        ids_avoided: avoided(),
        firewall_bypassed: Some(true),
        packet_modifications: technique_names(config),
    });
    let ghost before = string_views(results.scan_stats.evasion_techniques_used@);
    let ghost report = results.evasion_report;
    let mut i: usize = 0;
    while i < names.len()
        invariant
            string_views(names@) == requested_names(*config),
            i <= names@.len(),
            string_views(results.scan_stats.evasion_techniques_used@) =~= before + string_views(
                names@,
            ).subrange(0, i as int),
            results.evasion_report == report,
            results.targets == old(results).targets,
            results.summary == old(results).summary,
            results.timestamp == old(results).timestamp,
            results.scan_stats.start_time == old(results).scan_stats.start_time,
            results.scan_stats.end_time == old(results).scan_stats.end_time,
            results.scan_stats.duration == old(results).scan_stats.duration,
            results.scan_stats.packets_sent == old(results).scan_stats.packets_sent,
            results.scan_stats.packets_received == old(results).scan_stats.packets_received,
            results.scan_stats.packets_dropped == old(results).scan_stats.packets_dropped,
        decreases names.len() - i,
    {
        let ghost prev = results.scan_stats.evasion_techniques_used@;
        let name = names[i].clone();
        results.add_evasion_technique(name);
        proof {
            assert(string_views(results.scan_stats.evasion_techniques_used@) =~= string_views(prev).push(
                names@[i as int]@,
            ));
            assert(string_views(names@).subrange(0, i + 1) =~= string_views(names@).subrange(0, i as int).push(
                names@[i as int]@,
            ));
        }
        i = i + 1;
    }
    proof {
        assert(string_views(names@).subrange(0, names@.len() as int) =~= string_views(names@));
    }
}

} // verus!
