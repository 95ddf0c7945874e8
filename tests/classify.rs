use ipupdate::addr::{IpAddr, Ipv4Addr, Ipv6Addr};
use ipupdate::ipsource::MaybeGlobal;

#[test]
fn maybe_global() {
    let ipv4 = IpAddr::V4(Ipv4Addr::new(9, 9, 9, 9));
    assert!(ipv4.maybe_global());

    let ipv6 = IpAddr::V6(Ipv6Addr::new(0x2620, 0xfe, 0, 0, 0, 0, 0, 0xfe));
    assert!(ipv6.maybe_global());
}

#[test]
fn may_not_be_global() {
    let ipv4 = IpAddr::V4(Ipv4Addr::new(127, 0, 0, 1));
    assert!(!ipv4.maybe_global());

    let ipv6 = IpAddr::V6(Ipv6Addr::new(0, 0, 0, 0, 0, 0, 0, 1));
    assert!(!ipv6.maybe_global());
}

#[test]
fn reserved_ipv4_blocks_are_not_global() {
    let reserved = [
        Ipv4Addr::new(127, 0, 0, 0),
        Ipv4Addr::new(127, 255, 255, 255),
        Ipv4Addr::new(10, 0, 0, 0),
        Ipv4Addr::new(10, 255, 255, 255),
        Ipv4Addr::new(172, 16, 0, 0),
        Ipv4Addr::new(172, 31, 255, 255),
        Ipv4Addr::new(192, 168, 0, 0),
        Ipv4Addr::new(192, 168, 255, 255),
        Ipv4Addr::new(169, 254, 0, 0),
        Ipv4Addr::new(169, 254, 255, 255),
    ];
    for a in reserved.iter() {
        assert!(!a.maybe_global(), "{:?}", a);
        assert!(!IpAddr::V4(*a).maybe_global(), "{:?}", a);
    }
}

#[test]
fn ipv4_just_outside_reserved_blocks_is_global() {
    let outside = [
        Ipv4Addr::new(126, 255, 255, 255),
        Ipv4Addr::new(128, 0, 0, 0),
        Ipv4Addr::new(11, 0, 0, 0),
        Ipv4Addr::new(172, 15, 255, 255),
        Ipv4Addr::new(172, 32, 0, 0),
        Ipv4Addr::new(192, 167, 0, 0),
        Ipv4Addr::new(192, 169, 0, 0),
        Ipv4Addr::new(169, 253, 0, 0),
        Ipv4Addr::new(169, 255, 0, 0),
        Ipv4Addr::new(192, 0, 2, 0),
    ];
    for a in outside.iter() {
        assert!(a.maybe_global(), "{:?}", a);
    }
}

#[test]
fn ipv6_segment_band() {
    let fe80 = Ipv6Addr::new(0xfe80, 0, 0, 0, 0, 0, 0, 1);
    let ff00 = Ipv6Addr::new(0xff00, 0, 0, 0, 0, 0, 0, 1);
    let f000 = Ipv6Addr::new(0xf000, 0, 0, 0, 0, 0, 0, 0);
    let efff = Ipv6Addr::new(0xefff, 0, 0, 0, 0, 0, 0, 0);
    let one = Ipv6Addr::new(0x0001, 0, 0, 0, 0, 0, 0, 0);
    assert!(!fe80.maybe_global());
    assert!(!ff00.maybe_global());
    assert!(!f000.maybe_global());
    assert!(!Ipv6Addr::unspecified().maybe_global());
    assert!(!Ipv6Addr::localhost().maybe_global());
    assert!(efff.maybe_global());
    assert!(one.maybe_global());
}

#[test]
fn ipv4_predicates() {
    assert!(Ipv4Addr::localhost().is_loopback());
    assert!(Ipv4Addr::new(172, 20, 1, 1).is_private());
    assert!(!Ipv4Addr::new(172, 20, 1, 1).is_loopback());
    assert!(Ipv4Addr::new(169, 254, 3, 4).is_link_local());
    assert!(!Ipv4Addr::new(169, 253, 3, 4).is_link_local());
    assert_eq!(Ipv4Addr::unspecified(), Ipv4Addr::new(0, 0, 0, 0));
    assert!(IpAddr::V4(Ipv4Addr::unspecified()).is_ipv4());
    assert!(IpAddr::V6(Ipv6Addr::unspecified()).is_ipv6());
    assert!(!IpAddr::V6(Ipv6Addr::unspecified()).is_ipv4());
}
