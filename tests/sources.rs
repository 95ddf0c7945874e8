use ipupdate::addr::{IpAddr, Ipv4Addr, Ipv6Addr};
use ipupdate::addrset::AddressSet;
use ipupdate::ipsource::domain::DomainIpSource;
use ipupdate::ipsource::icanhazip::{Error, ICanHazIpSource};
use ipupdate::ipsource::interface::{InterfaceIpSource, NetworkInterface};
use ipupdate::ipsource::{Ipv4Source, Ipv6Source, SourceError};

fn lib_addr(network: &pnet::ipnetwork::IpNetwork) -> IpAddr {
    match network {
        pnet::ipnetwork::IpNetwork::V4(n) => {
            let o = n.ip().octets();
            IpAddr::V4(Ipv4Addr::new(o[0], o[1], o[2], o[3]))
        }
        pnet::ipnetwork::IpNetwork::V6(n) => {
            let s = n.ip().segments();
            IpAddr::V6(Ipv6Addr::new(s[0], s[1], s[2], s[3], s[4], s[5], s[6], s[7]))
        }
    }
}

/// A source whose resolver could not find the name.
fn unresolved_source(domain: &str) -> DomainIpSource {
    let mut source = DomainIpSource::new(domain);
    let target = source.lookup_target();
    source.complete_lookup(Err(format!("failed to lookup address information for {target}")));
    source
}

fn os_interfaces() -> Vec<NetworkInterface> {
    pnet::datalink::interfaces()
        .into_iter()
        .map(|i| NetworkInterface {
            name: i.name.clone(),
            ips: i.ips.iter().map(lib_addr).collect(),
        })
        .collect()
}

fn looked_up_interface(name: &str) -> InterfaceIpSource {
    let mut source = InterfaceIpSource::new(name);
    source.complete_lookup(&os_interfaces());
    source
}

#[test]
fn invalid_domain_ipv4_source() {
    let domain = "invalidhost";
    let source = unresolved_source(domain);
    let Err(_error) = source.get_ipv4() else {
        panic!("Successfully resolved {domain}");
    };
}

#[test]
fn invalid_domain_ipv6_source() {
    let domain = "invalidhost";
    let source = unresolved_source(domain);
    let Err(_error) = source.get_ipv6() else {
        panic!("Successfully resolved {domain}");
    };
}

#[test]
fn invalid_interface_ipv4_source() {
    let random = "foobar1337";
    let source = looked_up_interface(random);
    let ips = source.get_ipv4().expect("Infallible function failed");

    assert!(ips.is_empty());
}

#[test]
fn invalid_interface_ipv6_source() {
    let random = "foobar1337";
    let source = looked_up_interface(random);
    let ips = source.get_ipv6().expect("Infallible function failed");

    assert!(ips.is_empty());
}

#[test]
fn domain_lookup_target_has_https_port() {
    let source = DomainIpSource::new("foobar.example");
    assert_eq!(source.lookup_target(), "foobar.example:443");
    assert_eq!(source.domain(), "foobar.example");
    assert!(source.needs_lookup());
}

#[test]
fn domain_resolution_failure_is_an_error() {
    let mut source = DomainIpSource::new("no-such-host.invalid");
    source.complete_lookup(Err("name not known".to_string()));
    assert!(!source.needs_lookup());
    assert_eq!(
        source.get_ipv4(),
        Err(SourceError::ResolutionFailure("name not known".to_string()))
    );
    assert_eq!(
        source.get_ipv6(),
        Err(SourceError::ResolutionFailure("name not known".to_string()))
    );
}

#[test]
fn domain_answers_both_families_from_one_lookup() {
    let mut lookups = 0;
    let mut source = DomainIpSource::new("foobar.example");
    let mut lookup = |source: &mut DomainIpSource| {
        if source.needs_lookup() {
            lookups += 1;
            source.complete_lookup(Ok(vec![
                IpAddr::V4(Ipv4Addr::new(192, 0, 2, 0)),
                IpAddr::V6(Ipv6Addr::new(0x2001, 0xdb8, 0, 0, 0, 0, 0, 1)),
                IpAddr::V4(Ipv4Addr::new(192, 0, 2, 0)),
            ]));
        }
    };
    lookup(&mut source);
    let v4 = source.get_ipv4().unwrap();
    lookup(&mut source);
    let v6 = source.get_ipv6().unwrap();
    assert_eq!(lookups, 1);
    assert_eq!(v4, vec![Ipv4Addr::new(192, 0, 2, 0)]);
    assert_eq!(v6, vec![Ipv6Addr::new(0x2001, 0xdb8, 0, 0, 0, 0, 0, 1)]);
}

#[test]
fn domain_keeps_first_lookup() {
    let mut source = DomainIpSource::new("foobar.example");
    source.complete_lookup(Ok(vec![IpAddr::V4(Ipv4Addr::new(192, 0, 2, 0))]));
    source.complete_lookup(Err("later failure".to_string()));
    assert_eq!(source.get_ipv4(), Ok(vec![Ipv4Addr::new(192, 0, 2, 0)]));
}

fn fixed_interfaces() -> Vec<NetworkInterface> {
    vec![
        NetworkInterface {
            name: "lo".to_string(),
            ips: vec![
                IpAddr::V4(Ipv4Addr::localhost()),
                IpAddr::V6(Ipv6Addr::localhost()),
            ],
        },
        NetworkInterface {
            name: "eth0".to_string(),
            ips: vec![
                IpAddr::V4(Ipv4Addr::new(192, 168, 1, 5)),
                IpAddr::V4(Ipv4Addr::new(198, 51, 100, 7)),
                IpAddr::V6(Ipv6Addr::new(0xfe80, 0, 0, 0, 0, 0, 0, 1)),
                IpAddr::V6(Ipv6Addr::new(0x2001, 0xdb8, 0, 0, 0, 0, 0, 1)),
            ],
        },
    ]
}

#[test]
fn interface_keeps_all_addresses_by_default() {
    let mut source = InterfaceIpSource::new("eth0");
    source.complete_lookup(&fixed_interfaces());
    assert_eq!(
        source.get_ipv4().unwrap(),
        vec![Ipv4Addr::new(192, 168, 1, 5), Ipv4Addr::new(198, 51, 100, 7)]
    );
    assert_eq!(source.get_ipv6().unwrap().len(), 2);
    assert_eq!(source.name(), "eth0");
}

#[test]
fn interface_global_filter_drops_reserved_addresses() {
    let mut source = InterfaceIpSource::new("eth0").global_only(true);
    source.complete_lookup(&fixed_interfaces());
    assert_eq!(source.get_ipv4().unwrap(), vec![Ipv4Addr::new(198, 51, 100, 7)]);
    assert_eq!(
        source.get_ipv6().unwrap(),
        vec![Ipv6Addr::new(0x2001, 0xdb8, 0, 0, 0, 0, 0, 1)]
    );
}

#[test]
fn missing_interface_yields_empty_sets() {
    let mut source = InterfaceIpSource::new("wlan9");
    source.complete_lookup(&fixed_interfaces());
    assert_eq!(source.get_ipv4(), Ok(vec![]));
    assert_eq!(source.get_ipv6(), Ok(vec![]));
}

#[test]
fn interface_lookup_made_once() {
    let mut lookups = 0;
    let mut source = InterfaceIpSource::new("lo");
    for _ in 0..2 {
        if source.needs_lookup() {
            lookups += 1;
            source.complete_lookup(&fixed_interfaces());
        }
    }
    let v4 = source.get_ipv4().unwrap();
    if source.needs_lookup() {
        lookups += 1;
    }
    let v6 = source.get_ipv6().unwrap();
    assert_eq!(lookups, 1);
    assert_eq!(v4, vec![Ipv4Addr::localhost()]);
    assert_eq!(v6, vec![Ipv6Addr::localhost()]);
}

#[test]
fn echo_address_family_decides() {
    let mut source = ICanHazIpSource::new("https://icanhazip.example/");
    assert!(source.needs_request());
    source.complete_request(Ok(IpAddr::V4(Ipv4Addr::new(192, 0, 2, 0))));
    assert!(!source.needs_request());
    assert_eq!(source.get_ipv4(), Ok(vec![Ipv4Addr::new(192, 0, 2, 0)]));
    assert_eq!(source.get_ipv6(), Ok(vec![]));
    assert_eq!(source.url(), "https://icanhazip.example/");

    let mut source = ICanHazIpSource::new("https://icanhazip.example/");
    source.complete_request(Ok(IpAddr::V6(Ipv6Addr::new(0x2001, 0xdb8, 0, 0, 0, 0, 0, 0))));
    assert_eq!(source.get_ipv4(), Ok(vec![]));
    assert_eq!(
        source.get_ipv6(),
        Ok(vec![Ipv6Addr::new(0x2001, 0xdb8, 0, 0, 0, 0, 0, 0)])
    );
}

#[test]
fn echo_errors_are_kept_apart() {
    let mut source = ICanHazIpSource::new("https://icanhazip.example/");
    source.complete_request(Err(Error::RequestError("refused".to_string())));
    assert_eq!(source.get_ipv4(), Err(Error::RequestError("refused".to_string())));
    let e: SourceError = source.get_ipv6().unwrap_err().into();
    assert_eq!(e, SourceError::TransportFailure("refused".to_string()));

    let mut source = ICanHazIpSource::new("https://icanhazip.example/");
    source.complete_request(Err(Error::ResponseError("not an address".to_string())));
    let e: SourceError = source.get_ipv4().unwrap_err().into();
    assert_eq!(e, SourceError::ResponseParseFailure("not an address".to_string()));
    assert_eq!(e.message(), "not an address");
}

#[test]
fn sources_compose_into_current_set() {
    let mut interface = InterfaceIpSource::new("eth0").global_only(true);
    interface.complete_lookup(&fixed_interfaces());
    let mut echo = ICanHazIpSource::new("https://icanhazip.example/");
    echo.complete_request(Ok(IpAddr::V4(Ipv4Addr::new(203, 0, 113, 1))));
    let a = AddressSet::from_families(&interface.get_ipv4().unwrap(), &interface.get_ipv6().unwrap());
    let b = AddressSet::from_families(&echo.get_ipv4().unwrap(), &echo.get_ipv6().unwrap());
    let current = a.union(&b);
    assert_eq!(current.len(), 3);
    assert!(current.contains(&IpAddr::V4(Ipv4Addr::new(203, 0, 113, 1))));
}

#[test]
fn echo_error_text() {
    assert_eq!(
        Error::RequestError("connection refused".to_string()).to_string(),
        "Failed to request IP address: connection refused"
    );
    assert_eq!(
        Error::ResponseError("invalid IP address syntax".to_string()).to_string(),
        "Failed to parse IP address from response: invalid IP address syntax"
    );
}
