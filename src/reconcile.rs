use vstd::prelude::*;

use crate::addr::{IpAddr, Ipv4Addr, Ipv6Addr};
use crate::addrset::{lemma_v4_of_contains, lemma_v6_of_contains, v4_of, v4_set, v6_of, v6_set, AddressSet};

verus! {

/// What a comparison of the current addresses with the published ones decides.
#[derive(Clone, Copy, Debug, PartialEq, Eq, Structural)]
pub struct UpdateDecision {
    /// Whether some current address is not published.
    pub needs_update: bool,
    /// The IPv4 address to publish: the first current one, or `0.0.0.0`.
    pub ipv4_representative: Ipv4Addr,
    /// The IPv6 address to publish: the first current one, or `::`.
    pub ipv6_representative: Ipv6Addr,
}

/// The first IPv4 address of `s`, or `0.0.0.0` where there is none.
pub open spec fn representative_v4(s: Seq<IpAddr>) -> Ipv4Addr {
    if v4_of(s).len() > 0 {
        v4_of(s)[0]
    } else {
        Ipv4Addr::spec_unspecified()
    }
}

/// The first IPv6 address of `s`, or `::` where there is none.
pub open spec fn representative_v6(s: Seq<IpAddr>) -> Ipv6Addr {
    if v6_of(s).len() > 0 {
        v6_of(s)[0]
    } else {
        Ipv6Addr::spec_unspecified()
    }
}

pub open spec fn spec_reconcile(current: AddressSet, published: AddressSet) -> UpdateDecision {
    UpdateDecision {
        needs_update: !current@.subset_of(published@),
        ipv4_representative: representative_v4(current.elems()),
        ipv6_representative: representative_v6(current.elems()),
    }
}

/// Compares the current addresses with the published ones: an update is needed exactly when
/// some current address is not published.
pub fn reconcile(current: &AddressSet, published: &AddressSet) -> (r: UpdateDecision)
    ensures
        r == spec_reconcile(*current, *published),
{
    let needs_update = !current.is_subset(published);
    let v4 = current.ipv4s();
    let v6 = current.ipv6s();
    let ipv4_representative = if v4.len() > 0 {
        v4[0]
    } else {
        Ipv4Addr::unspecified()
    };
    let ipv6_representative = if v6.len() > 0 {
        v6[0]
    } else {
        Ipv6Addr::unspecified()
    };
    UpdateDecision { needs_update, ipv4_representative, ipv6_representative }
}

/// With no current address nothing needs updating, whatever is published.
pub proof fn empty_current_needs_no_update(current: AddressSet, published: AddressSet)
    requires
        current@ == Set::<IpAddr>::empty(),
    ensures
        !spec_reconcile(current, published).needs_update,
{
}

/// Where the current addresses hold no IPv4 (IPv6) address, the representative is `0.0.0.0`
/// (`::`); where they hold exactly one, the representative is that address.
pub proof fn representatives_of_current(current: AddressSet, published: AddressSet)
    ensures
        v4_set(current@) == Set::<Ipv4Addr>::empty() ==> spec_reconcile(
            current,
            published,
        ).ipv4_representative == Ipv4Addr::spec_unspecified(),
        v6_set(current@) == Set::<Ipv6Addr>::empty() ==> spec_reconcile(
            current,
            published,
        ).ipv6_representative == Ipv6Addr::spec_unspecified(),
        forall|a: Ipv4Addr|
            v4_set(current@) == set![a] ==> spec_reconcile(current, published).ipv4_representative
                == a,
        forall|a: Ipv6Addr|
            v6_set(current@) == set![a] ==> spec_reconcile(current, published).ipv6_representative
                == a,
{
    let s = current.elems();
    assert forall|a: Ipv4Addr| v4_set(current@) == set![a] implies spec_reconcile(
        current,
        published,
    ).ipv4_representative == a by {
        assert(v4_set(current@).contains(a));
        lemma_v4_of_contains(s, a);
        let b = v4_of(s)[0];
        assert(v4_of(s).contains(b));
        lemma_v4_of_contains(s, b);
        assert(v4_set(current@).contains(b));
    }
    assert forall|a: Ipv6Addr| v6_set(current@) == set![a] implies spec_reconcile(
        current,
        published,
    ).ipv6_representative == a by {
        assert(v6_set(current@).contains(a));
        lemma_v6_of_contains(s, a);
        let b = v6_of(s)[0];
        assert(v6_of(s).contains(b));
        lemma_v6_of_contains(s, b);
        assert(v6_set(current@).contains(b));
    }
    if v4_of(s).len() > 0 {
        let b = v4_of(s)[0];
        assert(v4_of(s).contains(b));
        lemma_v4_of_contains(s, b);
        assert(v4_set(current@).contains(b));
    }
    if v6_of(s).len() > 0 {
        let b = v6_of(s)[0];
        assert(v6_of(s).contains(b));
        lemma_v6_of_contains(s, b);
        assert(v6_set(current@).contains(b));
    }
}

} // verus!
