use vip_reconciler::settings::default_check_interval;
use vip_reconciler::settings::default_check_timeout;
use vip_reconciler::settings::loadbalancer_hostname;
use vip_reconciler::settings::resolver_plan;
use vip_reconciler::settings::ConfigWarning;
use vip_reconciler::settings::DnsAddr;
use vip_reconciler::settings::DnsPlan;
use vip_reconciler::settings::IpOctets;
use vip_reconciler::settings::Settings;

fn base_settings() -> Settings {
    Settings {
        dns_server: None,
        dns_timeout: None,
        dns_domain: None,
        vip_annotation: loadbalancer_hostname(),
        check_timeout: default_check_timeout(),
        check_interval: default_check_interval(),
    }
}

#[test]
fn defaults_are_five_seconds_and_two_minutes() {
    assert_eq!(default_check_interval(), 5000);
    assert_eq!(default_check_timeout(), 120000);
}

#[test]
fn default_annotation_is_the_well_known_key() {
    assert_eq!(loadbalancer_hostname(), "kube-vip.io/loadbalancerHostname");
}

#[test]
fn bare_address_implies_standard_dns_port() {
    let addr = DnsAddr::Ip { addr: IpOctets::V4 { octets: [10, 0, 0, 53] } };
    assert_eq!(addr.port(), 53);
    assert!(matches!(addr.ip(), IpOctets::V4 { octets: [10, 0, 0, 53] }));
}

#[test]
fn socket_address_keeps_its_port() {
    let addr = DnsAddr::Socket { addr: IpOctets::V4 { octets: [10, 0, 0, 53] }, port: 5353 };
    assert_eq!(addr.port(), 5353);
    assert!(matches!(addr.ip(), IpOctets::V4 { octets: [10, 0, 0, 53] }));
}

#[test]
fn explicit_server_plan_carries_all_settings() {
    let mut settings = base_settings();
    settings.dns_server = Some(DnsAddr::Socket {
        addr: IpOctets::V4 { octets: [192, 168, 1, 1] },
        port: 5353,
    });
    settings.dns_timeout = Some(2500);
    settings.dns_domain = Some(String::from("example.com"));
    let (plan, warnings) = resolver_plan(&settings);
    assert!(warnings.is_empty());
    match plan {
        DnsPlan::Explicit { addr, port, domain, timeout } => {
            assert!(matches!(addr, IpOctets::V4 { octets: [192, 168, 1, 1] }));
            assert_eq!(port, 5353);
            assert_eq!(domain.as_deref(), Some("example.com"));
            assert_eq!(timeout, Some(2500));
        }
        _ => panic!("an explicit server must yield an explicit plan"),
    }
}

#[test]
fn missing_server_flags_contradictory_settings() {
    let mut settings = base_settings();
    settings.dns_timeout = Some(2500);
    settings.dns_domain = Some(String::from("example.com"));
    let (plan, warnings) = resolver_plan(&settings);
    assert!(matches!(plan, DnsPlan::SystemConf));
    assert_eq!(warnings, vec![ConfigWarning::TimeoutIgnored, ConfigWarning::DomainIgnored]);
}

#[test]
fn missing_server_alone_warns_nothing() {
    let settings = base_settings();
    let (plan, warnings) = resolver_plan(&settings);
    assert!(matches!(plan, DnsPlan::SystemConf));
    assert!(warnings.is_empty());
}

#[test]
fn missing_server_with_domain_only_flags_domain() {
    let mut settings = base_settings();
    settings.dns_domain = Some(String::from("example.com"));
    let (_, warnings) = resolver_plan(&settings);
    assert_eq!(warnings, vec![ConfigWarning::DomainIgnored]);
}
