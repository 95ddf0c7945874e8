use vstd::prelude::*;

pub mod domain;
pub mod icanhazip;
pub mod interface;

use crate::addr::{IpAddr, Ipv4Addr, Ipv6Addr};

verus! {

/// Why a source could not report its addresses.
#[derive(Clone, Debug, PartialEq, Eq)]
pub enum SourceError {
    /// The network interfaces could not be listed.
    EnumerationFailure(String),
    /// The domain name did not resolve.
    ResolutionFailure(String),
    /// The echo service could not be reached.
    TransportFailure(String),
    /// The echo service answered with something that is not an address.
    ResponseParseFailure(String),
}

impl SourceError {
    /// A copy of the error, message included.
    pub fn duplicate(&self) -> (r: SourceError)
        ensures
            r == *self,
    {
        match self {
            SourceError::EnumerationFailure(m) => SourceError::EnumerationFailure(m.clone()),
            SourceError::ResolutionFailure(m) => SourceError::ResolutionFailure(m.clone()),
            SourceError::TransportFailure(m) => SourceError::TransportFailure(m.clone()),
            SourceError::ResponseParseFailure(m) => SourceError::ResponseParseFailure(m.clone()),
        }
    }

    /// The message that came with the error.
    pub fn message(&self) -> (r: &String)
        ensures
            r == match self {
                SourceError::EnumerationFailure(m) => m,
                SourceError::ResolutionFailure(m) => m,
                SourceError::TransportFailure(m) => m,
                SourceError::ResponseParseFailure(m) => m,
            },
    {
        match self {
            SourceError::EnumerationFailure(m) => m,
            SourceError::ResolutionFailure(m) => m,
            SourceError::TransportFailure(m) => m,
            SourceError::ResponseParseFailure(m) => m,
        }
    }
}

/// A source of IPv4 addresses. Its lookup is made once, before the addresses are asked for.
pub trait Ipv4Source<E> {
    /// Whether the lookup behind the source has been made, and its outcome kept.
    spec fn spec_ready(&self) -> bool;

    /// What the lookup gave for IPv4: the addresses, or the error.
    spec fn spec_ipv4(&self) -> Result<Set<Ipv4Addr>, E>;

    fn get_ipv4(&self) -> (r: Result<Vec<Ipv4Addr>, E>)
        requires
            self.spec_ready(),
        ensures
            r is Ok <==> self.spec_ipv4() is Ok,
            r is Ok ==> r->Ok_0@.no_duplicates() && r->Ok_0@.to_set() == self.spec_ipv4()->Ok_0,
            r is Err ==> r->Err_0 == self.spec_ipv4()->Err_0,
    ;
}

/// A source of IPv6 addresses. Its lookup is made once, before the addresses are asked for.
pub trait Ipv6Source<E> {
    /// Whether the lookup behind the source has been made, and its outcome kept.
    spec fn spec_ready(&self) -> bool;

    /// What the lookup gave for IPv6: the addresses, or the error.
    spec fn spec_ipv6(&self) -> Result<Set<Ipv6Addr>, E>;

    fn get_ipv6(&self) -> (r: Result<Vec<Ipv6Addr>, E>)
        requires
            self.spec_ready(),
        ensures
            r is Ok <==> self.spec_ipv6() is Ok,
            r is Ok ==> r->Ok_0@.no_duplicates() && r->Ok_0@.to_set() == self.spec_ipv6()->Ok_0,
            r is Err ==> r->Err_0 == self.spec_ipv6()->Err_0,
    ;
}

/// Whether an address may be reachable from the public internet.
pub trait MaybeGlobal {
    spec fn spec_maybe_global(&self) -> bool;

    fn maybe_global(&self) -> (r: bool)
        ensures
            r == self.spec_maybe_global(),
    ;
}

/// Neither loopback, private nor link-local.
impl MaybeGlobal for Ipv4Addr {
    open spec fn spec_maybe_global(&self) -> bool {
        !(self.spec_is_loopback() || self.spec_is_private() || self.spec_is_link_local())
    }

    fn maybe_global(&self) -> (r: bool) {
        !(self.is_loopback() || self.is_private() || self.is_link_local())
    }
}

/// A coarse test: the first segment lies strictly between `0x0000` and `0xf000`.
impl MaybeGlobal for Ipv6Addr {
    open spec fn spec_maybe_global(&self) -> bool {
        0x0000 < self.s0 && self.s0 < 0xf000
    }

    fn maybe_global(&self) -> (r: bool) {
        0x0000 < self.s0 && self.s0 < 0xf000
    }
}

impl MaybeGlobal for IpAddr {
    open spec fn spec_maybe_global(&self) -> bool {
        match self {
            IpAddr::V6(ipv6) => ipv6.spec_maybe_global(),
            IpAddr::V4(ipv4) => ipv4.spec_maybe_global(),
        }
    }

    fn maybe_global(&self) -> (r: bool) {
        match self {
            IpAddr::V6(ipv6) => ipv6.maybe_global(),
            IpAddr::V4(ipv4) => ipv4.maybe_global(),
        }
    }
}

/// No IPv4 address in `127.0.0.0/8`, `10.0.0.0/8`, `172.16.0.0/12`, `192.168.0.0/16` or
/// `169.254.0.0/16` is taken for global.
pub proof fn reserved_ipv4_not_global(a: Ipv4Addr)
    requires
        a.o0 == 127 || a.o0 == 10 || (a.o0 == 172 && 16 <= a.o1 <= 31) || (a.o0 == 192 && a.o1
            == 168) || (a.o0 == 169 && a.o1 == 254),
    ensures
        !IpAddr::V4(a).spec_maybe_global(),
{
}

/// No IPv6 address whose first segment is `0` or at least `0xf000` is taken for global.
pub proof fn reserved_ipv6_not_global(a: Ipv6Addr)
    requires
        a.s0 == 0 || a.s0 >= 0xf000,
    ensures
        !IpAddr::V6(a).spec_maybe_global(),
{
}

} // verus!
