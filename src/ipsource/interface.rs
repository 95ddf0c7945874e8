use vstd::prelude::*;

use crate::addr::{IpAddr, Ipv4Addr, Ipv6Addr};
use crate::addrset::{v4_set, v6_set, AddressSet};
use crate::ipsource::{Ipv4Source, Ipv6Source, MaybeGlobal, SourceError};

verus! {

/// One network interface as the operating system lists it: its name and the addresses bound
/// to it.
#[derive(Clone, Debug)]
pub struct NetworkInterface {
    pub name: String,
    pub ips: Vec<IpAddr>,
}

/// The addresses of `ips` that pass the filter: all of them, or the global ones only.
pub open spec fn kept(ips: Set<IpAddr>, global_only: bool) -> Set<IpAddr> {
    ips.filter(|a: IpAddr| !global_only || a.spec_maybe_global())
}

/// The addresses bound to the interfaces of `ifs` named `name`, filtered as `kept` says.
pub open spec fn interface_addrs(ifs: Seq<NetworkInterface>, name: Seq<char>, global_only: bool) -> Set<
    IpAddr,
>
    decreases ifs.len(),
{
    if ifs.len() == 0 {
        Set::empty()
    } else {
        let rest = interface_addrs(ifs.drop_last(), name, global_only);
        if ifs.last().name@ == name {
            rest.union(kept(ifs.last().ips@.to_set(), global_only))
        } else {
            rest
        }
    }
}

/// The addresses bound to one network interface. The caller lists the interfaces once and
/// hands the list to [`InterfaceIpSource::complete_lookup`]; both families are then answered
/// from it. An interface that is not listed has no address: that is no error.
pub struct InterfaceIpSource {
    name: String,
    global_only: bool,
    ip_addrs: Option<AddressSet>,
}

impl InterfaceIpSource {
    pub closed spec fn spec_name(&self) -> Seq<char> {
        self.name@
    }

    /// Whether only the addresses that may be global are kept.
    pub closed spec fn spec_global_only(&self) -> bool {
        self.global_only
    }

    /// The addresses found by the lookup, once made.
    pub closed spec fn spec_lookup(&self) -> Option<AddressSet> {
        self.ip_addrs
    }

    /// The lookup was made, and the addresses it found are held without duplicates.
    pub open spec fn spec_ready(&self) -> bool {
        match self.spec_lookup() {
            Some(set) => set.wf(),
            None => false,
        }
    }

    /// A source for the interface `name` that keeps every address bound to it.
    pub fn new(name: &str) -> (r: InterfaceIpSource)
        ensures
            r.spec_name() == name@,
            !r.spec_global_only(),
            r.spec_lookup() is None,
    {
        InterfaceIpSource { name: name.to_owned(), global_only: false, ip_addrs: None }
    }

    /// The same source, keeping only the addresses that may be global where `on` holds.
    pub fn global_only(self, on: bool) -> (r: InterfaceIpSource)
        ensures
            r.spec_name() == self.spec_name(),
            r.spec_global_only() == on,
            r.spec_lookup() == self.spec_lookup(),
    {
        InterfaceIpSource { global_only: on, ..self }
    }

    pub fn name(&self) -> (r: &str)
        ensures
            r@ == self.spec_name(),
    {
        self.name.as_str()
    }

    /// Whether the lookup is still to be made.
    pub fn needs_lookup(&self) -> (r: bool)
        ensures
            r == self.spec_lookup() is None,
    {
        self.ip_addrs.is_none()
    }

    /// Records the addresses of the interface named as this source's name, out of the list
    /// of all interfaces. A source whose lookup was already made keeps its first outcome.
    pub fn complete_lookup(&mut self, interfaces: &Vec<NetworkInterface>)
        ensures
            old(self).spec_lookup() is Some ==> *final(self) == *old(self),
            final(self).spec_name() == old(self).spec_name(),
            final(self).spec_global_only() == old(self).spec_global_only(),
            old(self).spec_ready() ==> final(self).spec_ready(),
            old(self).spec_lookup() is None ==> final(self).spec_ready(),
            old(self).spec_lookup() is None ==> final(self).spec_lookup().unwrap()@ == interface_addrs(
                interfaces@,
                old(self).spec_name(),
                old(self).spec_global_only(),
            ),
    {
        if self.ip_addrs.is_none() {
            let set = collect_interface_addrs(interfaces, &self.name, self.global_only);
            self.ip_addrs = Some(set);
        }
    }
}

/// The addresses bound to the interfaces of `interfaces` named `name`.
fn collect_interface_addrs(interfaces: &Vec<NetworkInterface>, name: &String, global_only: bool) -> (r:
    AddressSet)
    ensures
        r.wf(),
        r@ == interface_addrs(interfaces@, name@, global_only),
{
    let mut r = AddressSet::new();
    let mut k: usize = 0;
    while k < interfaces.len()
        invariant
            0 <= k <= interfaces@.len(),
            r.wf(),
            r@ == interface_addrs(interfaces@.subrange(0, k as int), name@, global_only),
        decreases interfaces@.len() - k,
    {
        let iface = &interfaces[k];
        let ghost before = r@;
        proof {
            assert(interfaces@.subrange(0, k + 1).drop_last() == interfaces@.subrange(0, k as int));
        }
        if iface.name == *name {
            let mut j: usize = 0;
            while j < iface.ips.len()
                invariant
                    0 <= j <= iface.ips@.len(),
                    r.wf(),
                    r@ == before.union(kept(iface.ips@.subrange(0, j as int).to_set(), global_only)),
                decreases iface.ips@.len() - j,
            {
                let a = iface.ips[j];
                let keep = !global_only || a.maybe_global();
                if keep {
                    r.insert(a);
                }
                proof {
                    let s = iface.ips@;
                    assert(s.subrange(0, j + 1) == s.subrange(0, j as int).push(s[j as int]));
                    s.subrange(0, j as int).lemma_push_to_set_commute(s[j as int]);
                    assert(r@ =~= before.union(kept(s.subrange(0, j + 1).to_set(), global_only)));
                }
                j += 1;
            }
            proof {
                assert(iface.ips@.subrange(0, iface.ips@.len() as int) == iface.ips@);
            }
        }
        k += 1;
    }
    proof {
        assert(interfaces@.subrange(0, interfaces@.len() as int) == interfaces@);
    }
    r
}

impl Ipv4Source<SourceError> for InterfaceIpSource {
    open spec fn spec_ready(&self) -> bool {
        self.spec_ready()
    }

    open spec fn spec_ipv4(&self) -> Result<Set<Ipv4Addr>, SourceError> {
        match self.spec_lookup() {
            Some(set) => Ok(v4_set(set@)),
            None => Ok(Set::empty()),
        }
    }

    fn get_ipv4(&self) -> (r: Result<Vec<Ipv4Addr>, SourceError>) {
        match &self.ip_addrs {
            Some(set) => Ok(set.ipv4s()),
            None => Ok(Vec::new()),
        }
    }
}

impl Ipv6Source<SourceError> for InterfaceIpSource {
    open spec fn spec_ready(&self) -> bool {
        self.spec_ready()
    }

    open spec fn spec_ipv6(&self) -> Result<Set<Ipv6Addr>, SourceError> {
        match self.spec_lookup() {
            Some(set) => Ok(v6_set(set@)),
            None => Ok(Set::empty()),
        }
    }

    fn get_ipv6(&self) -> (r: Result<Vec<Ipv6Addr>, SourceError>) {
        match &self.ip_addrs {
            Some(set) => Ok(set.ipv6s()),
            None => Ok(Vec::new()),
        }
    }
}

/// A source for an interface that the list does not hold reports no address of either
/// family, and no error.
pub proof fn missing_interface_is_empty(
    source: InterfaceIpSource,
    ifs: Seq<NetworkInterface>,
)
    requires
        forall|i: int| 0 <= i < ifs.len() ==> ifs[i].name@ != source.spec_name(),
        source.spec_lookup() matches Some(set) && set@ == interface_addrs(
            ifs,
            source.spec_name(),
            source.spec_global_only(),
        ),
    ensures
        source.spec_ipv4() == Ok::<Set<Ipv4Addr>, SourceError>(Set::empty()),
        source.spec_ipv6() == Ok::<Set<Ipv6Addr>, SourceError>(Set::empty()),
{
    lemma_no_match_is_empty(ifs, source.spec_name(), source.spec_global_only());
    let set = source.spec_lookup().unwrap();
    assert(v4_set(set@) =~= Set::empty());
    assert(v6_set(set@) =~= Set::empty());
}

proof fn lemma_no_match_is_empty(ifs: Seq<NetworkInterface>, name: Seq<char>, global_only: bool)
    requires
        forall|i: int| 0 <= i < ifs.len() ==> ifs[i].name@ != name,
    ensures
        interface_addrs(ifs, name, global_only) == Set::<IpAddr>::empty(),
    decreases ifs.len(),
{
    if ifs.len() > 0 {
        let t = ifs.drop_last();
        assert forall|i: int| 0 <= i < t.len() implies t[i].name@ != name by {
            assert(t[i] == ifs[i]);
        }
        lemma_no_match_is_empty(t, name, global_only);
        assert(ifs.last() == ifs[ifs.len() - 1]);
    }
}

} // verus!
