//! Lookups for SRV records, and the addresses that come along with them.
use crate::lookup::{data_of, Lookup, LookupIntoIter, LookupIter, LookupView};
use crate::op::Query;
use crate::rr::{A, AAAA, IpAddr, RData, SRV};
use crate::select::{
    lemma_filter_map_concat, lemma_filter_map_exact, lemma_filter_map_front, next_borrowed, next_taken,
    selected,
};
use crate::walk::{after_next, next_of};
use vstd::prelude::*;

verus! {

/// The addresses of the A and AAAA data, in their order.
pub open spec fn addresses(data: Seq<RData>) -> Seq<IpAddr> {
    data.filter_map(|rdata: RData| rdata.spec_ip_addr())
}

/// The addresses of a lookup are those of its A and AAAA records, and no other.
pub proof fn law_addresses_exactly(data: Seq<RData>, addr: IpAddr)
    ensures
        addresses(data).contains(addr) <==> exists|i: int|
            0 <= i < data.len() && (#[trigger] data[i]).spec_ip_addr() == Some(addr),
{
    lemma_filter_map_exact(data, |rdata: RData| rdata.spec_ip_addr(), addr);
}

/// An A record counts once among the addresses, with its own octets, an AAAA record once, with its
/// own segments, and a record of another type not at all.
pub proof fn law_addresses_once(octets: [u8; 4], segments: [u16; 8], other: RData)
    ensures
        addresses(seq![RData::A(A(octets))]) == seq![IpAddr::V4(octets)],
        addresses(seq![RData::AAAA(AAAA(segments))]) == seq![IpAddr::V6(segments)],
        !(other is A) && !(other is AAAA) ==> addresses(seq![other]).len() == 0,
        addresses(Seq::empty()).len() == 0,
{
    let pick = |rdata: RData| rdata.spec_ip_addr();
    Seq::<RData>::lemma_filter_map_singleton(RData::A(A(octets)), pick);
    Seq::<RData>::lemma_filter_map_singleton(RData::AAAA(AAAA(segments)), pick);
    Seq::<RData>::lemma_filter_map_singleton(other, pick);
}

/// The addresses of a lookup keep the order of the records.
pub proof fn law_addresses_in_order(before: Seq<RData>, after: Seq<RData>)
    ensures
        addresses(before + after) == addresses(before) + addresses(after),
{
    lemma_filter_map_concat(before, after, |rdata: RData| rdata.spec_ip_addr());
}

/// The result of an SRV lookup.
#[derive(Debug)]
pub struct SrvLookup(Lookup);

impl View for SrvLookup {
    type V = LookupView;

    closed spec fn view(&self) -> LookupView {
        self.0@
    }
}

impl Clone for SrvLookup {
    fn clone(&self) -> (copy: Self)
        ensures
            copy == *self,
    {
        Self(self.0.clone())
    }
}

impl SrvLookup {
    /// The lookup inside.
    pub closed spec fn spec_lookup(self) -> Lookup {
        self.0
    }

    /// Walks through the SRV data.
    pub fn iter(&self) -> (iter: SrvLookupIter<'_>)
        ensures
            iter@ == selected::<SRV>(data_of(self@.records)),
    {
        SrvLookupIter(self.0.iter())
    }

    /// The query that this is the result of.
    pub fn query(&self) -> (query: &Query)
        ensures
            *query == self@.query,
    {
        self.0.query()
    }

    /// Walks through the addresses that came along with the SRV records.
    pub fn ip_iter(&self) -> (iter: LookupIpIter<'_>)
        ensures
            iter@ == addresses(data_of(self@.records)),
    {
        LookupIpIter(self.0.iter())
    }

    /// The lookup inside, with the records of all types.
    pub fn as_lookup(&self) -> (lookup: &Lookup)
        ensures
            *lookup == self.spec_lookup(),
            lookup@ == self@,
    {
        &self.0
    }

    /// Walks through copies of the SRV data.
    pub fn into_iter(self) -> (iter: SrvLookupIntoIter)
        ensures
            iter@ == selected::<SRV>(data_of(self@.records)),
    {
        SrvLookupIntoIter(self.0.into_iter())
    }
}

impl From<Lookup> for SrvLookup {
    fn from(lookup: Lookup) -> (srv: Self)
        ensures
            srv.spec_lookup() == lookup,
            srv@ == lookup@,
    {
        Self(lookup)
    }
}

impl vstd::std_specs::convert::FromSpecImpl<Lookup> for SrvLookup {
    open spec fn obeys_from_spec() -> bool {
        true
    }

    closed spec fn from_spec(lookup: Lookup) -> Self {
        SrvLookup(lookup)
    }
}

/// A walk through the SRV data of a lookup.
pub struct SrvLookupIter<'i>(LookupIter<'i>);

impl<'i> View for SrvLookupIter<'i> {
    type V = Seq<SRV>;

    /// The data still to come.
    closed spec fn view(&self) -> Seq<SRV> {
        selected::<SRV>(self.0@)
    }
}

impl<'i> SrvLookupIter<'i> {
    /// The next SRV data, or `None` behind the last.
    pub fn next(&mut self) -> (next: Option<&'i SRV>)
        ensures
            final(self)@ == after_next(old(self)@),
            match next {
                Some(item) => next_of(old(self)@) == Some(*item),
                None => next_of(old(self)@) is None,
            },
    {
        next_borrowed(&mut self.0)
    }
}

/// A walk through the SRV data of a lookup that hands out copies.
pub struct SrvLookupIntoIter(LookupIntoIter);

impl View for SrvLookupIntoIter {
    type V = Seq<SRV>;

    /// The data still to come.
    closed spec fn view(&self) -> Seq<SRV> {
        selected::<SRV>(self.0@)
    }
}

impl SrvLookupIntoIter {
    /// The next SRV data, or `None` behind the last.
    pub fn next(&mut self) -> (next: Option<SRV>)
        ensures
            final(self)@ == after_next(old(self)@),
            next == next_of(old(self)@),
    {
        next_taken(&mut self.0)
    }
}

/// A walk through the addresses in a lookup.
pub struct LookupIpIter<'i>(LookupIter<'i>);

impl<'i> View for LookupIpIter<'i> {
    type V = Seq<IpAddr>;

    /// The addresses still to come.
    closed spec fn view(&self) -> Seq<IpAddr> {
        addresses(self.0@)
    }
}

impl<'i> LookupIpIter<'i> {
    /// The next address, or `None` behind the last.
    pub fn next(&mut self) -> (next: Option<IpAddr>)
        ensures
            final(self)@ == after_next(old(self)@),
            next == next_of(old(self)@),
    {
        let ghost all = self@;
        loop
            invariant
                self@ == all,
                all == old(self)@,
            decreases self.0@.len(),
        {
            let ghost before = self.0@;
            match self.0.next() {
                None => {
                    return None;
                },
                Some(rdata) => {
                    proof {
                        lemma_filter_map_front(before, |rdata: RData| rdata.spec_ip_addr());
                    }
                    if let Some(addr) = rdata.ip_addr() {
                        assert(self@ =~= all.drop_first());
                        return Some(addr);
                    }
                },
            }
        }
    }
}

} // verus!
