use vstd::prelude::*;

use crate::addr::{IpAddr, Ipv4Addr, Ipv6Addr};
use crate::addrset::{v4_set, v6_set, AddressSet};
use crate::ipsource::{Ipv4Source, Ipv6Source, SourceError};
use crate::text::concat;

verus! {

/// The addresses that a domain name resolves to. The caller resolves
/// [`DomainIpSource::lookup_target`] once and hands the outcome to
/// [`DomainIpSource::complete_lookup`]; both families are then answered from it.
#[derive(Debug)]
pub struct DomainIpSource {
    domain: String,
    ip_addrs: Option<Result<AddressSet, SourceError>>,
}

impl DomainIpSource {
    pub closed spec fn spec_domain(&self) -> Seq<char> {
        self.domain@
    }

    /// The outcome of the lookup, once made.
    pub closed spec fn spec_lookup(&self) -> Option<Result<AddressSet, SourceError>> {
        self.ip_addrs
    }

    pub fn new(domain: &str) -> (r: DomainIpSource)
        ensures
            r.spec_domain() == domain@,
            r.spec_lookup() is None,
    {
        DomainIpSource { domain: domain.to_owned(), ip_addrs: None }
    }

    pub fn domain(&self) -> (r: &str)
        ensures
            r@ == self.spec_domain(),
    {
        self.domain.as_str()
    }

    /// What to resolve: the domain with the HTTPS port, `<domain>:443`.
    pub fn lookup_target(&self) -> (r: String)
        ensures
            r@ == self.spec_domain() + ":443"@,
    {
        concat(self.domain.as_str(), ":443")
    }

    /// The lookup was made, and the addresses it found are held without duplicates.
    pub open spec fn spec_ready(&self) -> bool {
        match self.spec_lookup() {
            Some(Ok(set)) => set.wf(),
            Some(Err(_)) => true,
            None => false,
        }
    }

    /// Whether the lookup is still to be made.
    pub fn needs_lookup(&self) -> (r: bool)
        ensures
            r == self.spec_lookup() is None,
    {
        self.ip_addrs.is_none()
    }

    /// Records the outcome of resolving the lookup target: the addresses found, or the
    /// resolver's message. A source whose lookup was already made keeps its first outcome.
    pub fn complete_lookup(&mut self, resolved: Result<Vec<IpAddr>, String>)
        ensures
            old(self).spec_lookup() is Some ==> *final(self) == *old(self),
            final(self).spec_domain() == old(self).spec_domain(),
            old(self).spec_ready() ==> final(self).spec_ready(),
            old(self).spec_lookup() is None ==> final(self).spec_ready(),
            old(self).spec_lookup() is None ==> match resolved {
                Ok(v) => final(self).spec_lookup() matches Some(Ok(set)) && set.wf() && set@
                    == v@.to_set(),
                Err(m) => final(self).spec_lookup() == Some(
                    Err::<AddressSet, SourceError>(SourceError::ResolutionFailure(m)),
                ),
            },
    {
        if self.ip_addrs.is_none() {
            self.ip_addrs = match resolved {
                Ok(v) => Some(Ok(AddressSet::from_vec(&v))),
                Err(m) => Some(Err(SourceError::ResolutionFailure(m))),
            };
        }
    }
}

impl Ipv4Source<SourceError> for DomainIpSource {
    open spec fn spec_ready(&self) -> bool {
        self.spec_ready()
    }

    open spec fn spec_ipv4(&self) -> Result<Set<Ipv4Addr>, SourceError> {
        match self.spec_lookup() {
            Some(Ok(set)) => Ok(v4_set(set@)),
            Some(Err(e)) => Err(e),
            None => Ok(Set::empty()),
        }
    }

    fn get_ipv4(&self) -> (r: Result<Vec<Ipv4Addr>, SourceError>) {
        match &self.ip_addrs {
            Some(Ok(set)) => Ok(set.ipv4s()),
            Some(Err(e)) => Err(e.duplicate()),
            None => Ok(Vec::new()),
        }
    }
}

impl Ipv6Source<SourceError> for DomainIpSource {
    open spec fn spec_ready(&self) -> bool {
        self.spec_ready()
    }

    open spec fn spec_ipv6(&self) -> Result<Set<Ipv6Addr>, SourceError> {
        match self.spec_lookup() {
            Some(Ok(set)) => Ok(v6_set(set@)),
            Some(Err(e)) => Err(e),
            None => Ok(Set::empty()),
        }
    }

    fn get_ipv6(&self) -> (r: Result<Vec<Ipv6Addr>, SourceError>) {
        match &self.ip_addrs {
            Some(Ok(set)) => Ok(set.ipv6s()),
            Some(Err(e)) => Err(e.duplicate()),
            None => Ok(Vec::new()),
        }
    }
}

/// A name that did not resolve gives a resolution failure for both families, never
/// as an empty set.
pub proof fn unresolved_domain_fails(source: DomainIpSource, message: String)
    requires
        source.spec_lookup() == Some(
            Err::<AddressSet, SourceError>(SourceError::ResolutionFailure(message)),
        ),
    ensures
        source.spec_ipv4() == Err::<Set<Ipv4Addr>, SourceError>(
            SourceError::ResolutionFailure(message),
        ),
        source.spec_ipv6() == Err::<Set<Ipv6Addr>, SourceError>(
            SourceError::ResolutionFailure(message),
        ),
{
}

/// Both families are answered from the one recorded lookup: the two answers fail together
/// with the same error, or are the two families of one set of addresses.
pub proof fn both_families_from_one_lookup(source: DomainIpSource)
    requires
        source.spec_ready(),
    ensures
        source.spec_ipv4() is Err <==> source.spec_ipv6() is Err,
        source.spec_ipv4() is Err ==> source.spec_ipv4()->Err_0 == source.spec_ipv6()->Err_0,
        source.spec_ipv4() is Ok ==> exists|set: AddressSet|
            source.spec_lookup() == Some(Ok::<AddressSet, SourceError>(set))
                && source.spec_ipv4()->Ok_0 == v4_set(set@) && source.spec_ipv6()->Ok_0
                == v6_set(set@),
{
    if let Some(Ok(set)) = source.spec_lookup() {
        assert(source.spec_lookup() == Some(Ok::<AddressSet, SourceError>(set)));
    }
}

} // verus!
