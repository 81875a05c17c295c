//! Process settings and the resolver plan derived from them.
//!
//! Durations are carried as whole milliseconds throughout the crate.

use vstd::prelude::*;

verus! {

/// Four octets of an IPv4 address, or eight 16-bit segments of an IPv6
/// address, most significant first.
#[derive(Clone, Copy, Debug)]
pub enum IpOctets {
    V4 { octets: [u8; 4] },
    V6 { segments: [u16; 8] },
}

/// A resolver endpoint: a bare address (standard DNS port implied) or an
/// address with an explicit port.
#[derive(Clone, Copy, Debug)]
pub enum DnsAddr {
    Ip { addr: IpOctets },
    Socket { addr: IpOctets, port: u16 },
}

impl DnsAddr {
    pub open spec fn ip_spec(&self) -> IpOctets {
        match *self {
            DnsAddr::Ip { addr } => addr,
            DnsAddr::Socket { addr, .. } => addr,
        }
    }

    pub open spec fn port_spec(&self) -> u16 {
        match *self {
            DnsAddr::Ip { .. } => 53,
            DnsAddr::Socket { port, .. } => port,
        }
    }

    /// The address queries are sent to.
    pub fn ip(&self) -> (r: IpOctets)
        ensures
            r == self.ip_spec(),
    {
        match self {
            DnsAddr::Ip { addr } => *addr,
            DnsAddr::Socket { addr, .. } => *addr,
        }
    }

    /// The port queries are sent to; a bare address means the standard
    /// DNS port.
    pub fn port(&self) -> (r: u16)
        ensures
            r == self.port_spec(),
    {
        match self {
            DnsAddr::Ip { .. } => 53,
            DnsAddr::Socket { port, .. } => *port,
        }
    }
}

/// Everything the reconciler is configured with. All durations are in
/// milliseconds.
pub struct Settings {
    /// Explicit DNS server to query; absent means the ambient system
    /// resolver configuration is used.
    pub dns_server: Option<DnsAddr>,
    /// Timeout for a single DNS lookup, in milliseconds. Only meaningful
    /// together with an explicit server.
    pub dns_timeout: Option<u64>,
    /// Search domain for DNS lookups. Only meaningful together with an
    /// explicit server.
    pub dns_domain: Option<String>,
    /// Annotation key that marks a service record as managed and carries
    /// its externally advertised hostname.
    pub vip_annotation: String,
    /// How long to poll for a recreated service to resolve, in
    /// milliseconds.
    pub check_timeout: u64,
    /// Interval between polls, in milliseconds.
    pub check_interval: u64,
}

/// Default interval between convergence polls: five seconds.
pub fn default_check_interval() -> (r: u64)
    ensures
        r == 5000,
{
    5000
}

/// Default budget for waiting on a recreated service to resolve: two
/// minutes.
pub fn default_check_timeout() -> (r: u64)
    ensures
        r == 120000,
{
    120000
}

/// The well-known annotation key carrying the hostname of a managed
/// load-balancer service.
pub fn loadbalancer_hostname() -> (r: String)
    ensures
        r@ == "kube-vip.io/loadbalancerHostname"@,
{
    String::from_str("kube-vip.io/loadbalancerHostname")
}

/// How the resolver capability should be constructed.
pub enum DnsPlan {
    /// Use the ambient system resolver configuration.
    SystemConf,
    /// Query an explicit server. `timeout` is in milliseconds; `domain`
    /// is the search domain, if any.
    Explicit { addr: IpOctets, port: u16, domain: Option<String>, timeout: Option<u64> },
}

/// A contradictory setting that is ignored rather than applied.
#[derive(Clone, Copy, Debug, PartialEq, Eq, Structural)]
pub enum ConfigWarning {
    /// A lookup timeout was configured without an explicit server.
    TimeoutIgnored,
    /// A search domain was configured without an explicit server.
    DomainIgnored,
}

/// The warnings owed for settings that configure lookup details without
/// an explicit server.
pub open spec fn ignored_setting_warnings(settings: &Settings) -> Seq<ConfigWarning> {
    (if settings.dns_timeout is Some {
        seq![ConfigWarning::TimeoutIgnored]
    } else {
        Seq::<ConfigWarning>::empty()
    }) + (if settings.dns_domain is Some {
        seq![ConfigWarning::DomainIgnored]
    } else {
        Seq::<ConfigWarning>::empty()
    })
}

/// Decide how the resolver is to be built. With an explicit server the
/// plan carries the configured address, port, domain and timeout and no
/// warnings; without one the plan falls back to the system configuration
/// and any timeout or domain configured alongside is flagged, not
/// silently applied.
pub fn resolver_plan(settings: &Settings) -> (r: (DnsPlan, Vec<ConfigWarning>))
    ensures
        settings.dns_server matches Some(server) ==> ({
            &&& r.0 matches DnsPlan::Explicit { addr, port, domain, timeout }
                && addr == server.ip_spec()
                && port == server.port_spec()
                && domain == settings.dns_domain
                && timeout == settings.dns_timeout
            &&& r.1@ == Seq::<ConfigWarning>::empty()
        }),
        settings.dns_server is None ==> ({
            &&& r.0 is SystemConf
            &&& r.1@ == ignored_setting_warnings(settings)
        }),
{
    match &settings.dns_server {
        Some(server) => {
            let domain: Option<String> = match &settings.dns_domain {
                Some(d) => Some(d.clone()),
                None => None,
            };
            let plan = DnsPlan::Explicit {
                addr: server.ip(),
                port: server.port(),
                domain,
                timeout: settings.dns_timeout,
            };
            let warnings: Vec<ConfigWarning> = Vec::new();
            proof {
                assert(warnings@ =~= Seq::<ConfigWarning>::empty());
            }
            (plan, warnings)
        },
        None => {
            let mut warnings: Vec<ConfigWarning> = Vec::new();
            if settings.dns_timeout.is_some() {
                warnings.push(ConfigWarning::TimeoutIgnored);
            }
            if settings.dns_domain.is_some() {
                warnings.push(ConfigWarning::DomainIgnored);
            }
            proof {
                assert(warnings@ =~= ignored_setting_warnings(settings));
            }
            (DnsPlan::SystemConf, warnings)
        },
    }
}

} // verus!
