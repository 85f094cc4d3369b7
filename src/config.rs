//! Scan configuration: the command-line values and what they parse into.
use crate::evasion::string_views;
use crate::probe::opt_view;
use crate::text::{string_from_chars, chars_of, has_char, lower_of, lowercase, parse_u16, read_u16, split_on, split_text, text_is, views};
pub use crate::timing::Timing;
pub use crate::types::ScanType;
use crate::types::IpAddress;
use vstd::prelude::*;
use vstd::string::*;

verus! {

/// The option values a run is started with, as given on the command line.
#[derive(Debug, Clone)]
pub struct Args {
    pub target: String,
    pub scan_type: String,
    pub ports: Option<String>,
    pub scripts: Option<String>,
    pub rate: Option<u32>,
    pub timing: String,
    pub output: Option<String>,
    pub apollo_stealth: bool,
    pub zombie: Option<String>,
    pub decoys: Option<String>,
    pub fragment: bool,
    pub data_length: Option<u16>,
    pub ttl: Option<u8>,
    pub source_port: Option<u16>,
    pub max_retries: Option<u8>,
    pub spoof_ip: Option<String>,
    pub random_mac: bool,
    pub ids_bypass: bool,
    pub custom_signature: Option<String>,
}

/// Immutable parameters of one run.
#[derive(Debug, Clone)]
pub struct ScanConfig {
    pub target: String,
    pub scan_type: ScanType,
    pub ports: Vec<u16>,
    pub rate_limit: Option<u32>,
    pub timing: Timing,
    pub scripts: Vec<String>,
    pub apollo_stealth: bool,
    pub zombie: Option<String>,
    pub decoys: Option<Vec<IpAddress>>,
    pub fragment: bool,
    pub data_length: Option<u16>,
    pub ttl: Option<u8>,
    pub source_port: Option<u16>,
    pub max_retries: u8,
    pub spoof_ip: Option<IpAddress>,
    pub random_mac: bool,
    pub ids_bypass: bool,
    pub custom_signature: Option<String>,
}

/// The ports probed when no port expression is given.
pub open spec fn default_ports() -> Seq<u16> {
    seq![21u16, 22, 23, 25, 53, 80, 110, 111, 135, 139, 143, 443, 993, 995, 1433, 3306, 3389,
        5432, 6379, 27017]
}

/// The inclusive range `lo..=hi`, empty when `lo > hi`.
pub open spec fn port_range(lo: u16, hi: u16) -> Seq<u16> {
    Seq::new(if lo <= hi { (hi - lo + 1) as nat } else { 0 }, |i: int| (lo + i) as u16)
}

/// The ports of a comma list: each segment that reads as a `u16`, in order;
/// the others are skipped.
pub open spec fn listed_ports(parts: Seq<Seq<char>>) -> Seq<u16>
    decreases parts.len(),
{
    if parts.len() == 0 {
        Seq::empty()
    } else {
        let init = listed_ports(parts.drop_last());
        match parse_u16(parts.last()) {
            Some(p) => init.push(p),
            None => init,
        }
    }
}

/// The ports a port expression stands for: `-` is every port from 1 to
/// 65535; a text holding `-` is an inclusive range `a-b` of two numbers, and
/// anything else holding `-` gives no port; otherwise a comma list.
pub open spec fn ports_of_text(s: Seq<char>) -> Seq<u16> {
    if s == seq!['-'] {
        port_range(1, 65535)
    } else if has_char(s, '-') {
        let parts = split_on(s, '-');
        if parts.len() == 2 && parse_u16(parts[0]) is Some && parse_u16(parts[1]) is Some {
            port_range(parse_u16(parts[0])->0, parse_u16(parts[1])->0)
        } else {
            Seq::empty()
        }
    } else {
        listed_ports(split_on(s, ','))
    }
}

/// The ports of an optional port expression; absent means the default list.
pub open spec fn ports_of(p: Option<Seq<char>>) -> Seq<u16> {
    match p {
        Some(s) => ports_of_text(s),
        None => default_ports(),
    }
}

/// The template a lower-case name selects; unknown names select `Normal`.
pub open spec fn timing_named(l: Seq<char>) -> Timing {
    if l == "paranoid"@ {
        Timing::Paranoid
    } else if l == "sneaky"@ {
        Timing::Sneaky
    } else if l == "polite"@ {
        Timing::Polite
    } else if l == "aggressive"@ {
        Timing::Aggressive
    } else if l == "insane"@ {
        Timing::Insane
    } else if l == "apocalyptic"@ {
        Timing::Apocalyptic
    } else {
        Timing::Normal
    }
}

/// Whether `r` is the technique named by `name`, whose lower-case form is
/// `l`; an unknown name gives `Custom` holding the name as written.
pub open spec fn scan_type_named(r: ScanType, name: Seq<char>, l: Seq<char>) -> bool {
    if l == "apollo"@ {
        r is Apollo
    } else if l == "syn"@ {
        r is Syn
    } else if l == "fin"@ {
        r is Fin
    } else if l == "null"@ {
        r is Null
    } else if l == "xmas"@ {
        r is Xmas
    } else if l == "ack"@ {
        r is Ack
    } else if l == "udp"@ {
        r is Udp
    } else if l == "idle"@ {
        r is Idle
    } else if l == "fragment"@ {
        r is Fragment
    } else if l == "decoy"@ {
        r is Decoy
    } else if l == "connect"@ {
        r is Connect
    } else {
        r matches ScanType::Custom(n) && n@ == name
    }
}

fn contains_char(v: &Vec<char>, c: char) -> (r: bool)
    ensures
        r == has_char(v@, c),
{
    let mut i: usize = 0;
    while i < v.len()
        invariant
            i <= v@.len(),
            forall|k: int| 0 <= k < i ==> v@[k] != c,
        decreases v.len() - i,
    {
        if v[i] == c {
            return true;
        }
        i = i + 1;
    }
    false
}

fn range_ports(lo: u16, hi: u16) -> (r: Vec<u16>)
    ensures
        r@ == port_range(lo, hi),
{
    let mut v: Vec<u16> = Vec::new();
    if lo > hi {
        proof {
            assert(v@ =~= port_range(lo, hi));
        }
        return v;
    }
    let mut p: u32 = lo as u32;
    while p <= hi as u32
        invariant
            lo <= hi,
            lo <= p <= hi as u32 + 1,
            v@ =~= Seq::new((p - lo) as nat, |i: int| (lo + i) as u16),
        decreases hi as u32 + 1 - p,
    {
        v.push(p as u16);
        p = p + 1;
    }
    proof {
        assert(v@ =~= port_range(lo, hi));
    }
    v
}

fn default_port_list() -> (r: Vec<u16>)
    ensures
        r@ == default_ports(),
{
    let v: Vec<u16> = vec![21, 22, 23, 25, 53, 80, 110, 111, 135, 139, 143, 443, 993, 995, 1433,
        3306, 3389, 5432, 6379, 27017];
    proof {
        assert(v@ =~= default_ports());
    }
    v
}

fn comma_list_ports(parts: &Vec<Vec<char>>) -> (r: Vec<u16>)
    ensures
        r@ == listed_ports(views(parts@)),
{
    let mut out: Vec<u16> = Vec::new();
    let mut i: usize = 0;
    while i < parts.len()
        invariant
            i <= parts@.len(),
            out@ == listed_ports(views(parts@).subrange(0, i as int)),
        decreases parts.len() - i,
    {
        let ghost pre = views(parts@).subrange(0, i as int);
        proof {
            assert(views(parts@).subrange(0, i + 1).drop_last() =~= pre);
            assert(views(parts@).subrange(0, i + 1).last() == parts@[i as int]@);
        }
        match read_u16(&parts[i]) {
            Some(p) => out.push(p),
            None => {},
        }
        i = i + 1;
    }
    proof {
        assert(views(parts@).subrange(0, parts@.len() as int) =~= views(parts@));
    }
    out
}

/// The ports named by an optional port expression (see `ports_of`).
pub fn parse_ports(ports: &Option<String>) -> (r: Vec<u16>)
    ensures
        r@ == ports_of(
            match ports {
                Some(p) => Some(p@),
                None => None,
            },
        ),
{
    match ports {
        None => default_port_list(),
        Some(p) => {
            let s = chars_of(p.as_str());
            if s.len() == 1 && s[0] == '-' {
                proof {
                    assert(s@ =~= seq!['-']);
                }
                range_ports(1, 65535)
            } else if contains_char(&s, '-') {
                proof {
                    assert(s@ != seq!['-']);
                }
                let parts = split_text(&s, '-');
                if parts.len() == 2 {
                    let lo = read_u16(&parts[0]);
                    let hi = read_u16(&parts[1]);
                    proof {
                        assert(views(parts@)[0] == parts@[0]@);
                        assert(views(parts@)[1] == parts@[1]@);
                    }
                    match (lo, hi) {
                        (Some(a), Some(b)) => range_ports(a, b),
                        _ => Vec::new(),
                    }
                } else {
                    Vec::new()
                }
            } else {
                proof {
                    if s@ == seq!['-'] {
                        assert(s@[0] == '-');
                    }
                }
                let parts = split_text(&s, ',');
                comma_list_ports(&parts)
            }
        },
    }
}

/// Selects a timing template by name, ignoring case; unknown names select
/// `Normal`.
pub fn parse_timing(timing: &str) -> (r: Timing)
    ensures
        r == timing_named(lower_of(timing@)),
{
    let l = lowercase(timing);
    Timing::from_lowercase(l.as_str())
}

impl ScanType {
    /// The technique named by `s`, ignoring case; an unknown name gives
    /// `Custom` holding `s` as written.
    pub fn parse_name(s: &str) -> (r: ScanType)
        ensures
            scan_type_named(r, s@, lower_of(s@)),
    {
        let l = lowercase(s);
        ScanType::from_lowercase(s, l.as_str())
    }

    /// The technique named by `name`, given its lower-case form `lower`; an
    /// unknown name gives `Custom` holding `name` as written.
    pub fn from_lowercase(name: &str, lower: &str) -> (r: ScanType)
        ensures
            scan_type_named(r, name@, lower@),
    {
        let v = chars_of(lower);
        if text_is(&v, "apollo") {
            ScanType::Apollo
        } else if text_is(&v, "syn") {
            ScanType::Syn
        } else if text_is(&v, "fin") {
            ScanType::Fin
        } else if text_is(&v, "null") {
            ScanType::Null
        } else if text_is(&v, "xmas") {
            ScanType::Xmas
        } else if text_is(&v, "ack") {
            ScanType::Ack
        } else if text_is(&v, "udp") {
            ScanType::Udp
        } else if text_is(&v, "idle") {
            ScanType::Idle
        } else if text_is(&v, "fragment") {
            ScanType::Fragment
        } else if text_is(&v, "decoy") {
            ScanType::Decoy
        } else if text_is(&v, "connect") {
            ScanType::Connect
        } else {
            ScanType::Custom(String::from_str(name))
        }
    }
}

impl std::str::FromStr for ScanType {
    type Err = ();

    fn from_str(s: &str) -> Result<Self, Self::Err> {
        Ok(ScanType::parse_name(s))
    }
}

impl Timing {
    /// The template named by `s`, ignoring case; unknown names select `Normal`.
    pub fn parse_name(s: &str) -> (r: Timing)
        ensures
            r == timing_named(lower_of(s@)),
    {
        parse_timing(s)
    }

    /// The template named by an already lower-case name; unknown names
    /// select `Normal`.
    pub fn from_lowercase(lower: &str) -> (r: Timing)
        ensures
            r == timing_named(lower@),
    {
        let v = chars_of(lower);
        if text_is(&v, "paranoid") {
            Timing::Paranoid
        } else if text_is(&v, "sneaky") {
            Timing::Sneaky
        } else if text_is(&v, "polite") {
            Timing::Polite
        } else if text_is(&v, "aggressive") {
            Timing::Aggressive
        } else if text_is(&v, "insane") {
            Timing::Insane
        } else if text_is(&v, "apocalyptic") {
            Timing::Apocalyptic
        } else {
            Timing::Normal
        }
    }
}

impl std::str::FromStr for Timing {
    type Err = ();

    fn from_str(s: &str) -> Result<Self, Self::Err> {
        Ok(Timing::parse_name(s))
    }
}

/// The segments of a comma-separated list, as strings; an empty text gives
/// one empty segment.
pub fn split_list(s: &str) -> (r: Vec<String>)
    ensures
        string_views(r@) == split_on(s@, ','),
{
    let chars = chars_of(s);
    let parts = split_text(&chars, ',');
    let mut out: Vec<String> = Vec::new();
    let mut i: usize = 0;
    while i < parts.len()
        invariant
            i <= parts@.len(),
            views(parts@) == split_on(s@, ','),
            string_views(out@) =~= views(parts@).subrange(0, i as int),
        decreases parts.len() - i,
    {
        let ghost prev = out@;
        out.push(string_from_chars(&parts[i]));
        proof {
            assert(string_views(out@) =~= string_views(prev).push(parts@[i as int]@));
            assert(views(parts@).subrange(0, i + 1) =~= views(parts@).subrange(0, i as int).push(parts@[i as int]@));
        }
        i = i + 1;
    }
    proof {
        assert(views(parts@).subrange(0, parts@.len() as int) =~= views(parts@));
    }
    out
}

/// The text of an optional value, empty when absent.
pub open spec fn text_or_empty(s: Option<String>) -> Seq<char> {
    match s {
        Some(x) => x@,
        None => Seq::empty(),
    }
}

fn clone_opt(s: &Option<String>) -> (r: Option<String>)
    ensures
        opt_view(r) == opt_view(*s),
{
    match s {
        Some(x) => Some(x.clone()),
        None => None,
    }
}

/// Why a configuration cannot be built.
#[derive(Debug, Clone, Copy, PartialEq, Eq, Structural)]
pub enum ConfigurationError {
    /// A decoy entry that is not an address.
    InvalidDecoy,
    /// A spoofed source that is not an address.
    InvalidSpoofAddress,
}

/// Whether some decoy entry did not read as an address.
pub open spec fn decoys_invalid(decoys: Option<Vec<Option<IpAddress>>>) -> bool {
    decoys matches Some(v) && exists|i: int| 0 <= i < v@.len() && v@[i] is None
}

/// The addresses of a list of read results, all of which are addresses.
pub open spec fn addresses_of(v: Seq<Option<IpAddress>>) -> Seq<IpAddress> {
    v.map_values(|o: Option<IpAddress>| o->0)
}

/// The addresses of a list of read results, or `None` if one is not an
/// address.
fn collect_addresses(v: &Vec<Option<IpAddress>>) -> (r: Option<Vec<IpAddress>>)
    ensures
        r is None <==> exists|i: int| 0 <= i < v@.len() && v@[i] is None,
        r matches Some(d) ==> d@ == addresses_of(v@),
{
    let mut out: Vec<IpAddress> = Vec::new();
    let mut i: usize = 0;
    while i < v.len()
        invariant
            i <= v@.len(),
            forall|k: int| 0 <= k < i ==> v@[k] is Some,
            out@ =~= addresses_of(v@.subrange(0, i as int)),
        decreases v.len() - i,
    {
        match v[i] {
            Some(ip) => out.push(ip),
            None => {
                return None;
            },
        }
        i = i + 1;
    }
    proof {
        assert(v@.subrange(0, v@.len() as int) =~= v@);
    }
    Some(out)
}

/// What the configuration built from `args` holds, given the addresses read
/// from its evasion fields.
pub open spec fn config_of(
    args: &Args,
    decoys: Option<Vec<Option<IpAddress>>>,
    spoof_ip: Option<Option<IpAddress>>,
    r: ScanConfig,
) -> bool {
    &&& r.target@ == args.target@
    &&& scan_type_named(r.scan_type, args.scan_type@, lower_of(args.scan_type@))
    &&& r.ports@ == ports_of(opt_view(args.ports))
    &&& r.rate_limit == args.rate
    &&& r.timing == timing_named(lower_of(args.timing@))
    &&& string_views(r.scripts@) == split_on(text_or_empty(args.scripts), ',')
    &&& r.apollo_stealth == args.apollo_stealth
    &&& opt_view(r.zombie) == opt_view(args.zombie)
    &&& (r.decoys is Some <==> decoys is Some)
    &&& (r.decoys matches Some(d) ==> d@ == addresses_of(decoys->0@))
    &&& r.fragment == args.fragment
    &&& r.data_length == args.data_length
    &&& r.ttl == args.ttl
    &&& r.source_port == args.source_port
    &&& r.max_retries == match args.max_retries {
        Some(m) => m,
        None => 1u8,
    }
    &&& r.spoof_ip == match spoof_ip {
        Some(Some(ip)) => Some(ip),
        _ => None::<IpAddress>,
    }
    &&& r.random_mac == args.random_mac
    &&& r.ids_bypass == args.ids_bypass
    &&& opt_view(r.custom_signature) == opt_view(args.custom_signature)
}

impl ScanConfig {
    /// The configuration the options describe. `decoys` holds what each
    /// segment of `split_list(args.decoys)` reads as (`None` where it is not
    /// an address), and `spoof_ip` what `args.spoof_ip` reads as. An evasion
    /// address that does not read as an address is a configuration error:
    /// decoys are checked first.
    pub fn from_args(
        args: &Args,
        decoys: Option<Vec<Option<IpAddress>>>,
        spoof_ip: Option<Option<IpAddress>>,
    ) -> (res: Result<ScanConfig, ConfigurationError>)
        ensures
            decoys_invalid(decoys) ==> res == Err::<ScanConfig, ConfigurationError>(ConfigurationError::InvalidDecoy),
            !decoys_invalid(decoys) && spoof_ip == Some(None::<IpAddress>) ==> res == Err::<
                ScanConfig,
                ConfigurationError,
            >(ConfigurationError::InvalidSpoofAddress),
            !decoys_invalid(decoys) && spoof_ip != Some(None::<IpAddress>) ==> res is Ok,
            res matches Ok(r) ==> config_of(args, decoys, spoof_ip, r),
    {
        let decoy_list = match &decoys {
            Some(v) => match collect_addresses(v) {
                Some(d) => Some(d),
                None => {
                    return Err(ConfigurationError::InvalidDecoy);
                },
            },
            None => None,
        };
        let spoof = match spoof_ip {
            Some(Some(ip)) => Some(ip),
            Some(None) => {
                return Err(ConfigurationError::InvalidSpoofAddress);
            },
            None => None,
        };
        Ok(ScanConfig::from_parts(args, decoy_list, spoof))
    }

    fn from_parts(args: &Args, decoys: Option<Vec<IpAddress>>, spoof_ip: Option<IpAddress>) -> (r: ScanConfig)
        ensures
            r.target@ == args.target@,
            scan_type_named(r.scan_type, args.scan_type@, lower_of(args.scan_type@)),
            r.ports@ == ports_of(opt_view(args.ports)),
            r.rate_limit == args.rate,
            r.timing == timing_named(lower_of(args.timing@)),
            string_views(r.scripts@) == split_on(text_or_empty(args.scripts), ','),
            r.apollo_stealth == args.apollo_stealth,
            opt_view(r.zombie) == opt_view(args.zombie),
            r.decoys == decoys,
            r.fragment == args.fragment,
            r.data_length == args.data_length,
            r.ttl == args.ttl,
            r.source_port == args.source_port,
            r.max_retries == match args.max_retries {
                Some(m) => m,
                None => 1u8,
            },
            r.spoof_ip == spoof_ip,
            r.random_mac == args.random_mac,
            r.ids_bypass == args.ids_bypass,
            opt_view(r.custom_signature) == opt_view(args.custom_signature),
    {
        let scripts = match &args.scripts {
            Some(text) => split_list(text.as_str()),
            None => split_list(""),
        };
        proof {
            reveal_strlit("");
            if args.scripts is None {
                assert(""@ =~= text_or_empty(args.scripts));
            }
        }
        ScanConfig {
            target: args.target.clone(),
            scan_type: ScanType::parse_name(args.scan_type.as_str()),
            ports: parse_ports(&args.ports),
            rate_limit: args.rate,
            timing: parse_timing(args.timing.as_str()),
            scripts,
            apollo_stealth: args.apollo_stealth,
            zombie: clone_opt(&args.zombie),
            decoys,
            fragment: args.fragment,
            data_length: args.data_length,
            ttl: args.ttl,
            source_port: args.source_port,
            max_retries: match args.max_retries {
                Some(m) => m,
                None => 1,
            },
            spoof_ip,
            random_mac: args.random_mac,
            ids_bypass: args.ids_bypass,
            custom_signature: clone_opt(&args.custom_signature),
        }
    }
}

} // verus!
