use vstd::prelude::*;

use crate::addr::{IpAddr, Ipv4Addr, Ipv6Addr};

verus! {

/// The IPv4 addresses among `s`, in order.
pub open spec fn v4_of(s: Seq<IpAddr>) -> Seq<Ipv4Addr>
    decreases s.len(),
{
    if s.len() == 0 {
        Seq::empty()
    } else {
        let rest = v4_of(s.drop_last());
        match s.last() {
            IpAddr::V4(a) => rest.push(a),
            IpAddr::V6(_) => rest,
        }
    }
}

/// The IPv6 addresses among `s`, in order.
pub open spec fn v6_of(s: Seq<IpAddr>) -> Seq<Ipv6Addr>
    decreases s.len(),
{
    if s.len() == 0 {
        Seq::empty()
    } else {
        let rest = v6_of(s.drop_last());
        match s.last() {
            IpAddr::V6(a) => rest.push(a),
            IpAddr::V4(_) => rest,
        }
    }
}

/// The elements of `s` at their first occurrence, in order.
pub open spec fn first_occurrences<T>(s: Seq<T>) -> Seq<T>
    decreases s.len(),
{
    if s.len() == 0 {
        Seq::empty()
    } else {
        let rest = first_occurrences(s.drop_last());
        if rest.contains(s.last()) {
            rest
        } else {
            rest.push(s.last())
        }
    }
}

/// A sequence without duplicates is its own first occurrences.
pub proof fn lemma_first_occurrences_unique<T>(s: Seq<T>)
    requires
        s.no_duplicates(),
    ensures
        first_occurrences(s) == s,
    decreases s.len(),
{
    if s.len() > 0 {
        let t = s.drop_last();
        assert(t.no_duplicates()) by {
            assert forall|i: int, j: int| 0 <= i < t.len() && 0 <= j < t.len() && i != j implies t[i]
                != t[j] by {
                assert(s[i] == t[i] && s[j] == t[j]);
            }
        }
        lemma_first_occurrences_unique(t);
        if t.contains(s.last()) {
            let i = choose|i: int| 0 <= i < t.len() && t[i] == s.last();
            assert(s[i] == s[s.len() - 1]);
        }
        assert(t.push(s.last()) =~= s);
    }
}

/// The IPv4 addresses of a set.
pub open spec fn v4_set(s: Set<IpAddr>) -> Set<Ipv4Addr> {
    Set::new(|a: Ipv4Addr| s.contains(IpAddr::V4(a)))
}

/// The IPv6 addresses of a set.
pub open spec fn v6_set(s: Set<IpAddr>) -> Set<Ipv6Addr> {
    Set::new(|a: Ipv6Addr| s.contains(IpAddr::V6(a)))
}

pub proof fn lemma_v4_of_contains(s: Seq<IpAddr>, a: Ipv4Addr)
    ensures
        v4_of(s).contains(a) <==> s.contains(IpAddr::V4(a)),
    decreases s.len(),
{
    if s.len() > 0 {
        lemma_v4_of_contains(s.drop_last(), a);
        assert(s =~= s.drop_last().push(s.last()));
        assert(s.contains(IpAddr::V4(a)) <==> (s.drop_last().contains(IpAddr::V4(a)) || s.last()
            == IpAddr::V4(a))) by {
            if s.contains(IpAddr::V4(a)) {
                let i = choose|i: int| 0 <= i < s.len() && s[i] == IpAddr::V4(a);
                if i < s.len() - 1 {
                    assert(s.drop_last()[i] == IpAddr::V4(a));
                }
            }
            if s.drop_last().contains(IpAddr::V4(a)) {
                let i = choose|i: int| 0 <= i < s.len() - 1 && s.drop_last()[i] == IpAddr::V4(a);
                assert(s[i] == IpAddr::V4(a));
            }
            if s.last() == IpAddr::V4(a) {
                assert(s[s.len() - 1] == IpAddr::V4(a));
            }
        }
        let rest = v4_of(s.drop_last());
        match s.last() {
            IpAddr::V4(b) => {
                assert(rest.push(b)[rest.len() as int] == b);
                if rest.contains(a) {
                    let j = choose|j: int| 0 <= j < rest.len() && rest[j] == a;
                    assert(rest.push(b)[j] == a);
                }
                if rest.push(b).contains(a) && a != b {
                    let j = choose|j: int| 0 <= j < rest.len() + 1 && rest.push(b)[j] == a;
                    assert(rest[j] == a);
                }
            },
            IpAddr::V6(_) => {},
        }
    }
}

pub proof fn lemma_v6_of_contains(s: Seq<IpAddr>, a: Ipv6Addr)
    ensures
        v6_of(s).contains(a) <==> s.contains(IpAddr::V6(a)),
    decreases s.len(),
{
    if s.len() > 0 {
        lemma_v6_of_contains(s.drop_last(), a);
        assert(s.contains(IpAddr::V6(a)) <==> (s.drop_last().contains(IpAddr::V6(a)) || s.last()
            == IpAddr::V6(a))) by {
            if s.contains(IpAddr::V6(a)) {
                let i = choose|i: int| 0 <= i < s.len() && s[i] == IpAddr::V6(a);
                if i < s.len() - 1 {
                    assert(s.drop_last()[i] == IpAddr::V6(a));
                }
            }
            if s.drop_last().contains(IpAddr::V6(a)) {
                let i = choose|i: int| 0 <= i < s.len() - 1 && s.drop_last()[i] == IpAddr::V6(a);
                assert(s[i] == IpAddr::V6(a));
            }
            if s.last() == IpAddr::V6(a) {
                assert(s[s.len() - 1] == IpAddr::V6(a));
            }
        }
        let rest = v6_of(s.drop_last());
        match s.last() {
            IpAddr::V6(b) => {
                assert(rest.push(b)[rest.len() as int] == b);
                if rest.contains(a) {
                    let j = choose|j: int| 0 <= j < rest.len() && rest[j] == a;
                    assert(rest.push(b)[j] == a);
                }
                if rest.push(b).contains(a) && a != b {
                    let j = choose|j: int| 0 <= j < rest.len() + 1 && rest.push(b)[j] == a;
                    assert(rest[j] == a);
                }
            },
            IpAddr::V4(_) => {},
        }
    }
}

pub proof fn lemma_v4_of_no_duplicates(s: Seq<IpAddr>)
    requires
        s.no_duplicates(),
    ensures
        v4_of(s).no_duplicates(),
    decreases s.len(),
{
    if s.len() > 0 {
        let t = s.drop_last();
        assert(t.no_duplicates()) by {
            assert forall|i: int, j: int| 0 <= i < t.len() && 0 <= j < t.len() && i != j implies t[i]
                != t[j] by {
                assert(s[i] == t[i] && s[j] == t[j]);
            }
        }
        lemma_v4_of_no_duplicates(t);
        match s.last() {
            IpAddr::V4(b) => {
                lemma_v4_of_contains(t, b);
                if t.contains(IpAddr::V4(b)) {
                    let i = choose|i: int| 0 <= i < t.len() && t[i] == IpAddr::V4(b);
                    assert(s[i] == s[s.len() - 1]);
                }
                let rest = v4_of(t);
                let r = rest.push(b);
                assert forall|i: int, j: int| 0 <= i < r.len() && 0 <= j < r.len() && i != j implies r[i]
                    != r[j] by {
                    if i == rest.len() {
                        assert(rest.contains(rest[j]));
                    } else if j == rest.len() {
                        assert(rest.contains(rest[i]));
                    }
                }
            },
            IpAddr::V6(_) => {},
        }
    }
}

pub proof fn lemma_v6_of_no_duplicates(s: Seq<IpAddr>)
    requires
        s.no_duplicates(),
    ensures
        v6_of(s).no_duplicates(),
    decreases s.len(),
{
    if s.len() > 0 {
        let t = s.drop_last();
        assert(t.no_duplicates()) by {
            assert forall|i: int, j: int| 0 <= i < t.len() && 0 <= j < t.len() && i != j implies t[i]
                != t[j] by {
                assert(s[i] == t[i] && s[j] == t[j]);
            }
        }
        lemma_v6_of_no_duplicates(t);
        match s.last() {
            IpAddr::V6(b) => {
                lemma_v6_of_contains(t, b);
                if t.contains(IpAddr::V6(b)) {
                    let i = choose|i: int| 0 <= i < t.len() && t[i] == IpAddr::V6(b);
                    assert(s[i] == s[s.len() - 1]);
                }
                let rest = v6_of(t);
                let r = rest.push(b);
                assert forall|i: int, j: int| 0 <= i < r.len() && 0 <= j < r.len() && i != j implies r[i]
                    != r[j] by {
                    if i == rest.len() {
                        assert(rest.contains(rest[j]));
                    } else if j == rest.len() {
                        assert(rest.contains(rest[i]));
                    }
                }
            },
            IpAddr::V4(_) => {},
        }
    }
}

/// A set of addresses without duplicates, kept in the order in which they were added.
#[derive(Clone, Debug)]
pub struct AddressSet {
    addrs: Vec<IpAddr>,
}

impl AddressSet {
    /// The addresses in the order in which they were added.
    pub closed spec fn elems(&self) -> Seq<IpAddr> {
        self.addrs@
    }

    pub open spec fn view(&self) -> Set<IpAddr> {
        self.elems().to_set()
    }

    pub open spec fn wf(&self) -> bool {
        self.elems().no_duplicates()
    }

    pub fn new() -> (r: AddressSet)
        ensures
            r.wf(),
            r.elems() == Seq::<IpAddr>::empty(),
            r@ == Set::<IpAddr>::empty(),
    {
        let r = AddressSet { addrs: Vec::new() };
        assert(r@ =~= Set::<IpAddr>::empty());
        r
    }

    pub fn contains(&self, a: &IpAddr) -> (r: bool)
        ensures
            r == self@.contains(*a),
    {
        let mut i: usize = 0;
        while i < self.addrs.len()
            invariant
                0 <= i <= self.addrs@.len(),
                forall|j: int| 0 <= j < i ==> self.addrs@[j] != *a,
            decreases self.addrs@.len() - i,
        {
            if self.addrs[i] == *a {
                assert(self.elems()[i as int] == *a);
                return true;
            }
            i += 1;
        }
        false
    }

    /// Adds `a` at the end unless it is already there.
    pub fn insert(&mut self, a: IpAddr)
        requires
            old(self).wf(),
        ensures
            final(self).wf(),
            final(self)@ == old(self)@.insert(a),
            old(self)@.contains(a) ==> final(self).elems() == old(self).elems(),
            !old(self)@.contains(a) ==> final(self).elems() == old(self).elems().push(a),
    {
        if !self.contains(&a) {
            proof {
                assert(!self.elems().contains(a));
            }
            self.addrs.push(a);
            proof {
                assert(final(self).elems() == old(self).elems().push(a));
                assert(final(self).elems().no_duplicates()) by {
                    let s = final(self).elems();
                    assert forall|i: int, j: int| 0 <= i < s.len() && 0 <= j < s.len() && i != j
                        implies s[i] != s[j] by {
                        if i == s.len() - 1 {
                            assert(old(self).elems()[j] == s[j]);
                        } else if j == s.len() - 1 {
                            assert(old(self).elems()[i] == s[i]);
                        }
                    }
                }
                assert(final(self)@ =~= old(self)@.insert(a)) by {
                    old(self).elems().lemma_push_to_set_commute(a);
                }
            }
        } else {
            assert(old(self)@.insert(a) =~= old(self)@);
        }
    }

    /// The set of the addresses in `v`, in their first occurrence's order.
    pub fn from_vec(v: &Vec<IpAddr>) -> (r: AddressSet)
        ensures
            r.wf(),
            r.elems() == first_occurrences(v@),
            r@ == v@.to_set(),
    {
        let mut r = AddressSet::new();
        let mut i: usize = 0;
        while i < v.len()
            invariant
                0 <= i <= v@.len(),
                r.wf(),
                r@ == v@.subrange(0, i as int).to_set(),
                r.elems() == first_occurrences(v@.subrange(0, i as int)),
            decreases v@.len() - i,
        {
            r.insert(v[i]);
            proof {
                assert(v@.subrange(0, i + 1).drop_last() == v@.subrange(0, i as int));
                assert(v@.subrange(0, i + 1) == v@.subrange(0, i as int).push(v@[i as int]));
                v@.subrange(0, i as int).lemma_push_to_set_commute(v@[i as int]);
            }
            i += 1;
        }
        assert(v@.subrange(0, v@.len() as int) == v@);
        r
    }

    /// The set of the IPv4 addresses of `v4` and the IPv6 addresses of `v6`: the IPv4 ones
    /// first, each family in the order given.
    pub fn from_families(v4: &Vec<Ipv4Addr>, v6: &Vec<Ipv6Addr>) -> (r: AddressSet)
        ensures
            r.wf(),
            r.elems() == first_occurrences(
                v4@.map_values(|a: Ipv4Addr| IpAddr::V4(a)) + v6@.map_values(
                    |b: Ipv6Addr| IpAddr::V6(b),
                ),
            ),
            v4_set(r@) == v4@.to_set(),
            v6_set(r@) == v6@.to_set(),
    {
        let ghost m4 = v4@.map_values(|a: Ipv4Addr| IpAddr::V4(a));
        let ghost m6 = v6@.map_values(|b: Ipv6Addr| IpAddr::V6(b));
        let mut r = AddressSet::new();
        let mut i: usize = 0;
        while i < v4.len()
            invariant
                0 <= i <= v4@.len(),
                r.wf(),
                v4_set(r@) == v4@.subrange(0, i as int).to_set(),
                v6_set(r@) == Set::<Ipv6Addr>::empty(),
                r.elems() == first_occurrences(m4.subrange(0, i as int)),
                m4 == v4@.map_values(|a: Ipv4Addr| IpAddr::V4(a)),
            decreases v4@.len() - i,
        {
            let ghost before = r@;
            r.insert(IpAddr::V4(v4[i]));
            proof {
                assert(m4.subrange(0, i + 1) =~= m4.subrange(0, i as int).push(IpAddr::V4(v4@[i as int])));
                assert(m4.subrange(0, i + 1).drop_last() == m4.subrange(0, i as int));
                let s = v4@;
                assert(s.subrange(0, i + 1) == s.subrange(0, i as int).push(s[i as int]));
                s.subrange(0, i as int).lemma_push_to_set_commute(s[i as int]);
                assert(v4_set(r@) =~= v4_set(before).insert(s[i as int]));
                assert(v6_set(r@) =~= v6_set(before));
            }
            i += 1;
        }
        proof {
            assert(v4@.subrange(0, v4@.len() as int) == v4@);
            assert(m4.subrange(0, m4.len() as int) == m4);
            assert(m4 + m6.subrange(0, 0) =~= m4);
        }
        let mut j: usize = 0;
        while j < v6.len()
            invariant
                0 <= j <= v6@.len(),
                r.wf(),
                v4_set(r@) == v4@.to_set(),
                v6_set(r@) == v6@.subrange(0, j as int).to_set(),
                r.elems() == first_occurrences(m4 + m6.subrange(0, j as int)),
                m6 == v6@.map_values(|b: Ipv6Addr| IpAddr::V6(b)),
            decreases v6@.len() - j,
        {
            let ghost before = r@;
            r.insert(IpAddr::V6(v6[j]));
            proof {
                assert(m4 + m6.subrange(0, j + 1) =~= (m4 + m6.subrange(0, j as int)).push(
                    IpAddr::V6(v6@[j as int]),
                ));
                assert((m4 + m6.subrange(0, j + 1)).drop_last() == m4 + m6.subrange(0, j as int));
                let s = v6@;
                assert(s.subrange(0, j + 1) == s.subrange(0, j as int).push(s[j as int]));
                s.subrange(0, j as int).lemma_push_to_set_commute(s[j as int]);
                assert(v6_set(r@) =~= v6_set(before).insert(s[j as int]));
                assert(v4_set(r@) =~= v4_set(before));
            }
            j += 1;
        }
        proof {
            assert(v6@.subrange(0, v6@.len() as int) == v6@);
            assert(m6.subrange(0, m6.len() as int) == m6);
        }
        r
    }

    /// All addresses of `self`, then those of `other` that `self` lacks.
    pub fn union(&self, other: &AddressSet) -> (r: AddressSet)
        requires
            self.wf(),
        ensures
            r.wf(),
            r.elems() == first_occurrences(self.elems() + other.elems()),
            r@ == self@.union(other@),
    {
        let mut r = self.clone_set();
        proof {
            lemma_first_occurrences_unique(self.elems());
            assert(self.elems() + other.addrs@.subrange(0, 0) =~= self.elems());
        }
        let mut i: usize = 0;
        while i < other.addrs.len()
            invariant
                0 <= i <= other.addrs@.len(),
                r.wf(),
                r@ == self@.union(other.addrs@.subrange(0, i as int).to_set()),
                r.elems() == first_occurrences(self.elems() + other.addrs@.subrange(0, i as int)),
            decreases other.addrs@.len() - i,
        {
            r.insert(other.addrs[i]);
            proof {
                let s = other.addrs@;
                assert(self.elems() + s.subrange(0, i + 1) =~= (self.elems() + s.subrange(
                    0,
                    i as int,
                )).push(s[i as int]));
                assert((self.elems() + s.subrange(0, i + 1)).drop_last() == self.elems()
                    + s.subrange(0, i as int));
                assert(s.subrange(0, i + 1) == s.subrange(0, i as int).push(s[i as int]));
                s.subrange(0, i as int).lemma_push_to_set_commute(s[i as int]);
                assert(r@ =~= self@.union(s.subrange(0, i + 1).to_set()));
            }
            i += 1;
        }
        assert(other.addrs@.subrange(0, other.addrs@.len() as int) == other.addrs@);
        r
    }

    /// A copy with the same addresses in the same order.
    pub fn clone_set(&self) -> (r: AddressSet)
        ensures
            r.elems() == self.elems(),
    {
        let mut addrs: Vec<IpAddr> = Vec::new();
        let mut i: usize = 0;
        while i < self.addrs.len()
            invariant
                0 <= i <= self.addrs@.len(),
                addrs@ == self.addrs@.subrange(0, i as int),
            decreases self.addrs@.len() - i,
        {
            addrs.push(self.addrs[i]);
            assert(addrs@ =~= self.addrs@.subrange(0, i + 1));
            i += 1;
        }
        assert(addrs@ =~= self.addrs@);
        AddressSet { addrs }
    }

    /// Whether every address of `self` is in `other`.
    pub fn is_subset(&self, other: &AddressSet) -> (r: bool)
        ensures
            r == self@.subset_of(other@),
    {
        let mut i: usize = 0;
        while i < self.addrs.len()
            invariant
                0 <= i <= self.addrs@.len(),
                forall|j: int| 0 <= j < i ==> other@.contains(#[trigger] self.addrs@[j]),
            decreases self.addrs@.len() - i,
        {
            if !other.contains(&self.addrs[i]) {
                assert(self@.contains(self.elems()[i as int]));
                return false;
            }
            i += 1;
        }
        assert forall|a: IpAddr| self@.contains(a) implies other@.contains(a) by {
            let j = choose|j: int| 0 <= j < self.elems().len() && self.elems()[j] == a;
        }
        true
    }

    pub fn len(&self) -> (r: usize)
        requires
            self.wf(),
        ensures
            r == self@.len(),
    {
        proof {
            self.elems().unique_seq_to_set();
        }
        self.addrs.len()
    }

    pub fn is_empty(&self) -> (r: bool)
        requires
            self.wf(),
        ensures
            r == (self@ == Set::<IpAddr>::empty()),
    {
        proof {
            self.elems().unique_seq_to_set();
            if self@.len() == 0 {
                assert(self@ =~= Set::<IpAddr>::empty());
            }
        }
        self.addrs.len() == 0
    }

    /// The addresses in the order in which they were added.
    pub fn to_vec(&self) -> (r: Vec<IpAddr>)
        ensures
            r@ == self.elems(),
    {
        self.clone_set().addrs
    }

    /// The IPv4 addresses, in order.
    pub fn ipv4s(&self) -> (r: Vec<Ipv4Addr>)
        ensures
            r@ == v4_of(self.elems()),
            r@.to_set() == v4_set(self@),
            self.wf() ==> r@.no_duplicates(),
    {
        proof {
            if self.wf() {
                lemma_v4_of_no_duplicates(self.elems());
            }
            assert forall|a: Ipv4Addr| #[trigger] v4_of(self.elems()).contains(a) <==> v4_set(self@).contains(a) by {
                lemma_v4_of_contains(self.elems(), a);
            }
            assert(v4_of(self.elems()).to_set() =~= v4_set(self@));
        }
        let mut r: Vec<Ipv4Addr> = Vec::new();
        let mut i: usize = 0;
        while i < self.addrs.len()
            invariant
                0 <= i <= self.addrs@.len(),
                r@ == v4_of(self.addrs@.subrange(0, i as int)),
            decreases self.addrs@.len() - i,
        {
            let ghost pre = self.addrs@.subrange(0, i as int);
            assert(self.addrs@.subrange(0, i + 1).drop_last() == pre);
            match self.addrs[i] {
                IpAddr::V4(a) => r.push(a),
                IpAddr::V6(_) => {},
            }
            i += 1;
        }
        assert(self.addrs@.subrange(0, self.addrs@.len() as int) == self.addrs@);
        r
    }

    /// The IPv6 addresses, in order.
    pub fn ipv6s(&self) -> (r: Vec<Ipv6Addr>)
        ensures
            r@ == v6_of(self.elems()),
            r@.to_set() == v6_set(self@),
            self.wf() ==> r@.no_duplicates(),
    {
        proof {
            if self.wf() {
                lemma_v6_of_no_duplicates(self.elems());
            }
            assert forall|a: Ipv6Addr| #[trigger] v6_of(self.elems()).contains(a) <==> v6_set(self@).contains(a) by {
                lemma_v6_of_contains(self.elems(), a);
            }
            assert(v6_of(self.elems()).to_set() =~= v6_set(self@));
        }
        let mut r: Vec<Ipv6Addr> = Vec::new();
        let mut i: usize = 0;
        while i < self.addrs.len()
            invariant
                0 <= i <= self.addrs@.len(),
                r@ == v6_of(self.addrs@.subrange(0, i as int)),
            decreases self.addrs@.len() - i,
        {
            let ghost pre = self.addrs@.subrange(0, i as int);
            assert(self.addrs@.subrange(0, i + 1).drop_last() == pre);
            match self.addrs[i] {
                IpAddr::V6(a) => r.push(a),
                IpAddr::V4(_) => {},
            }
            i += 1;
        }
        assert(self.addrs@.subrange(0, self.addrs@.len() as int) == self.addrs@);
        r
    }
}

} // verus!
