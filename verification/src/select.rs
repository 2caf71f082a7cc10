//! Picking the data of one record type out of the data of a lookup.
use crate::lookup::{LookupIntoIter, LookupIter};
use crate::rr::{A, AAAA, CERT, MX, NS, PTR, RData, SOA, SRV, TLSA, TXT};
use crate::walk::{after_next, next_of};
use vstd::prelude::*;

verus! {

/// The data of one record type.
pub trait RecordData: Sized {
    /// The data of this type that `data` holds, if it is of this type.
    spec fn of(data: RData) -> Option<Self>;

    /// Borrows the data, if it is of this type.
    fn try_borrow(data: &RData) -> (borrowed: Option<&Self>)
        ensures
            match Self::of(*data) {
                Some(own) => borrowed == Some(&own),
                None => borrowed is None,
            },
    ;

    /// Takes the data, if it is of this type.
    fn try_take(data: RData) -> (taken: Option<Self>)
        ensures
            taken == Self::of(data),
    ;
}

/// The data of type `T`, in its order.
pub open spec fn selected<T: RecordData>(data: Seq<RData>) -> Seq<T> {
    data.filter_map(|rdata: RData| T::of(rdata))
}

/// A filter that maps takes a sequence apart at its front as it does at its end.
pub(crate) proof fn lemma_filter_map_front<S, T>(items: Seq<S>, f: spec_fn(S) -> Option<T>)
    requires
        items.len() > 0,
    ensures
        items.filter_map(f) == match f(items.first()) {
            Some(item) => seq![item] + items.drop_first().filter_map(f),
            None => items.drop_first().filter_map(f),
        },
    decreases items.len(),
{
    reveal_with_fuel(Seq::filter_map, 2);
    if items.len() > 1 {
        lemma_filter_map_front(items.drop_last(), f);
        assert(items.drop_first().drop_last() =~= items.drop_last().drop_first());
    } else {
        assert(items.drop_last() =~= Seq::<S>::empty());
        assert(items.drop_first() =~= Seq::<S>::empty());
    }
}

/// A filter that maps keeps the image of every item that has one, and nothing else.
pub(crate) proof fn lemma_filter_map_exact<S, T>(items: Seq<S>, f: spec_fn(S) -> Option<T>, image: T)
    ensures
        items.filter_map(f).contains(image) <==> exists|i: int|
            0 <= i < items.len() && f(#[trigger] items[i]) == Some(image),
    decreases items.len(),
{
    if items.len() > 0 {
        let rest = items.drop_last();
        let kept = items.filter_map(f);
        lemma_filter_map_exact(rest, f, image);
        if kept.contains(image) {
            items.lemma_filter_map_contains(f, image);
            let item = choose|item: S| #[trigger] items.contains(item) && f(item) == Some(image);
            let i = items.index_of(item);
            assert(f(items[i]) == Some(image));
        }
        if exists|i: int| 0 <= i < items.len() && f(#[trigger] items[i]) == Some(image) {
            let i = choose|i: int| 0 <= i < items.len() && f(#[trigger] items[i]) == Some(image);
            if i < rest.len() {
                assert(f(rest[i]) == Some(image));
                let j = rest.filter_map(f).index_of(image);
                assert(kept[j] == image);
            } else {
                assert(kept[kept.len() - 1] == image);
            }
        }
    }
}

/// A filter that maps can be applied to the parts of a sequence.
pub(crate) proof fn lemma_filter_map_concat<S, T>(a: Seq<S>, b: Seq<S>, f: spec_fn(S) -> Option<T>)
    ensures
        (a + b).filter_map(f) == a.filter_map(f) + b.filter_map(f),
    decreases b.len(),
{
    if b.len() == 0 {
        assert(a + b =~= a);
        assert((a + b).filter_map(f) =~= a.filter_map(f) + b.filter_map(f));
    } else {
        lemma_filter_map_concat(a, b.drop_last(), f);
        assert((a + b).drop_last() =~= a + b.drop_last());
        assert((a + b).filter_map(f) =~= a.filter_map(f) + b.filter_map(f));
    }
}

/// Every SRV record has SRV data, whatever that is: its own. A record of another type has none.
pub proof fn law_srv_data(own: SRV, other: RData)
    ensures
        SRV::of(RData::SRV(own)) == Some(own),
        !(other is SRV) ==> SRV::of(other) is None,
{
}

/// Every PTR record has PTR data, whatever that is: its own. A record of another type has none.
pub proof fn law_ptr_data(own: PTR, other: RData)
    ensures
        PTR::of(RData::PTR(own)) == Some(own),
        !(other is PTR) ==> PTR::of(other) is None,
{
}

/// Every A record has A data, whatever that is: its own. A record of another type has none.
pub proof fn law_a_data(own: A, other: RData)
    ensures
        A::of(RData::A(own)) == Some(own),
        !(other is A) ==> A::of(other) is None,
{
}

/// Every AAAA record has AAAA data, whatever that is: its own. A record of another type has none.
pub proof fn law_aaaa_data(own: AAAA, other: RData)
    ensures
        AAAA::of(RData::AAAA(own)) == Some(own),
        !(other is AAAA) ==> AAAA::of(other) is None,
{
}

/// Every MX record has MX data, whatever that is: its own. A record of another type has none.
pub proof fn law_mx_data(own: MX, other: RData)
    ensures
        MX::of(RData::MX(own)) == Some(own),
        !(other is MX) ==> MX::of(other) is None,
{
}

/// Every TLSA record has TLSA data, whatever that is: its own. A record of another type has none.
pub proof fn law_tlsa_data(own: TLSA, other: RData)
    ensures
        TLSA::of(RData::TLSA(own)) == Some(own),
        !(other is TLSA) ==> TLSA::of(other) is None,
{
}

/// Every TXT record has TXT data, whatever that is: its own. A record of another type has none.
pub proof fn law_txt_data(own: TXT, other: RData)
    ensures
        TXT::of(RData::TXT(own)) == Some(own),
        !(other is TXT) ==> TXT::of(other) is None,
{
}

/// Every CERT record has CERT data, whatever that is: its own. A record of another type has none.
pub proof fn law_cert_data(own: CERT, other: RData)
    ensures
        CERT::of(RData::CERT(own)) == Some(own),
        !(other is CERT) ==> CERT::of(other) is None,
{
}

/// Every SOA record has SOA data, whatever that is: its own. A record of another type has none.
pub proof fn law_soa_data(own: SOA, other: RData)
    ensures
        SOA::of(RData::SOA(own)) == Some(own),
        !(other is SOA) ==> SOA::of(other) is None,
{
}

/// Every NS record has NS data, whatever that is: its own. A record of another type has none.
pub proof fn law_ns_data(own: NS, other: RData)
    ensures
        NS::of(RData::NS(own)) == Some(own),
        !(other is NS) ==> NS::of(other) is None,
{
}

/// A record of the type counts once in a walk through the data of one type, and a record of another
/// type not at all.
pub proof fn law_selected_once<T: RecordData>(data: RData)
    ensures
        T::of(data) matches Some(own) ==> selected::<T>(seq![data]) == seq![own],
        T::of(data) is None ==> selected::<T>(seq![data]).len() == 0,
        selected::<T>(Seq::empty()).len() == 0,
{
    Seq::<RData>::lemma_filter_map_singleton(data, |rdata: RData| T::of(rdata));
}

/// A walk through the data of one type hands out the data of every record of that type, and no
/// other.
pub proof fn law_selected_exactly<T: RecordData>(data: Seq<RData>, own: T)
    ensures
        selected::<T>(data).contains(own) <==> exists|i: int|
            0 <= i < data.len() && T::of(#[trigger] data[i]) == Some(own),
{
    lemma_filter_map_exact(data, |rdata: RData| T::of(rdata), own);
}

/// A walk through the data of one type keeps the order of the records.
pub proof fn law_selected_in_order<T: RecordData>(before: Seq<RData>, after: Seq<RData>)
    ensures
        selected::<T>(before + after) == selected::<T>(before) + selected::<T>(after),
{
    lemma_filter_map_concat(before, after, |rdata: RData| T::of(rdata));
}

/// The next data of type `T` in a walk; data of other types is passed over.
pub(crate) fn next_borrowed<'i, T: RecordData>(iter: &mut LookupIter<'i>) -> (next: Option<&'i T>)
    ensures
        selected::<T>(final(iter)@) == after_next(selected::<T>(old(iter)@)),
        match next {
            Some(item) => next_of(selected::<T>(old(iter)@)) == Some(*item),
            None => next_of(selected::<T>(old(iter)@)) is None,
        },
{
    let ghost all = selected::<T>(iter@);
    loop
        invariant
            selected::<T>(iter@) == all,
            all == selected::<T>(old(iter)@),
        decreases iter@.len(),
    {
        let ghost before = iter@;
        match iter.next() {
            None => {
                return None;
            },
            Some(rdata) => {
                proof {
                    lemma_filter_map_front(before, |rdata: RData| T::of(rdata));
                }
                if let Some(data) = T::try_borrow(rdata) {
                    assert(selected::<T>(iter@) =~= all.drop_first());
                    return Some(data);
                }
            },
        }
    }
}

/// The next data of type `T` in a walk that hands out copies; data of other types is passed over.
pub(crate) fn next_taken<T: RecordData>(iter: &mut LookupIntoIter) -> (next: Option<T>)
    ensures
        selected::<T>(final(iter)@) == after_next(selected::<T>(old(iter)@)),
        next == next_of(selected::<T>(old(iter)@)),
{
    let ghost all = selected::<T>(iter@);
    loop
        invariant
            selected::<T>(iter@) == all,
            all == selected::<T>(old(iter)@),
        decreases iter@.len(),
    {
        let ghost before = iter@;
        match iter.next() {
            None => {
                return None;
            },
            Some(rdata) => {
                proof {
                    lemma_filter_map_front(before, |rdata: RData| T::of(rdata));
                }
                if let Some(data) = T::try_take(rdata) {
                    assert(selected::<T>(iter@) =~= all.drop_first());
                    return Some(data);
                }
            },
        }
    }
}

impl RecordData for SRV {
    open spec fn of(data: RData) -> Option<Self> {
        match data {
            RData::SRV(own) => Some(own),
            _ => None,
        }
    }

    fn try_borrow(data: &RData) -> (borrowed: Option<&Self>)
        ensures
            forall|own: Self| *data == RData::SRV(own) ==> borrowed == Some(&own),
            !(*data is SRV) ==> borrowed is None,
    {
        match data {
            RData::SRV(own) => Some(own),
            _ => None,
        }
    }

    fn try_take(data: RData) -> (taken: Option<Self>)
        ensures
            forall|own: Self| data == RData::SRV(own) ==> taken == Some(own),
            !(data is SRV) ==> taken is None,
    {
        match data {
            RData::SRV(own) => Some(own),
            _ => None,
        }
    }
}

impl RecordData for PTR {
    open spec fn of(data: RData) -> Option<Self> {
        match data {
            RData::PTR(own) => Some(own),
            _ => None,
        }
    }

    fn try_borrow(data: &RData) -> (borrowed: Option<&Self>)
        ensures
            forall|own: Self| *data == RData::PTR(own) ==> borrowed == Some(&own),
            !(*data is PTR) ==> borrowed is None,
    {
        match data {
            RData::PTR(own) => Some(own),
            _ => None,
        }
    }

    fn try_take(data: RData) -> (taken: Option<Self>)
        ensures
            forall|own: Self| data == RData::PTR(own) ==> taken == Some(own),
            !(data is PTR) ==> taken is None,
    {
        match data {
            RData::PTR(own) => Some(own),
            _ => None,
        }
    }
}

impl RecordData for A {
    open spec fn of(data: RData) -> Option<Self> {
        match data {
            RData::A(own) => Some(own),
            _ => None,
        }
    }

    fn try_borrow(data: &RData) -> (borrowed: Option<&Self>)
        ensures
            forall|own: Self| *data == RData::A(own) ==> borrowed == Some(&own),
            !(*data is A) ==> borrowed is None,
    {
        match data {
            RData::A(own) => Some(own),
            _ => None,
        }
    }

    fn try_take(data: RData) -> (taken: Option<Self>)
        ensures
            forall|own: Self| data == RData::A(own) ==> taken == Some(own),
            !(data is A) ==> taken is None,
    {
        match data {
            RData::A(own) => Some(own),
            _ => None,
        }
    }
}

impl RecordData for AAAA {
    open spec fn of(data: RData) -> Option<Self> {
        match data {
            RData::AAAA(own) => Some(own),
            _ => None,
        }
    }

    fn try_borrow(data: &RData) -> (borrowed: Option<&Self>)
        ensures
            forall|own: Self| *data == RData::AAAA(own) ==> borrowed == Some(&own),
            !(*data is AAAA) ==> borrowed is None,
    {
        match data {
            RData::AAAA(own) => Some(own),
            _ => None,
        }
    }

    fn try_take(data: RData) -> (taken: Option<Self>)
        ensures
            forall|own: Self| data == RData::AAAA(own) ==> taken == Some(own),
            !(data is AAAA) ==> taken is None,
    {
        match data {
            RData::AAAA(own) => Some(own),
            _ => None,
        }
    }
}

impl RecordData for MX {
    open spec fn of(data: RData) -> Option<Self> {
        match data {
            RData::MX(own) => Some(own),
            _ => None,
        }
    }

    fn try_borrow(data: &RData) -> (borrowed: Option<&Self>)
        ensures
            forall|own: Self| *data == RData::MX(own) ==> borrowed == Some(&own),
            !(*data is MX) ==> borrowed is None,
    {
        match data {
            RData::MX(own) => Some(own),
            _ => None,
        }
    }

    fn try_take(data: RData) -> (taken: Option<Self>)
        ensures
            forall|own: Self| data == RData::MX(own) ==> taken == Some(own),
            !(data is MX) ==> taken is None,
    {
        match data {
            RData::MX(own) => Some(own),
            _ => None,
        }
    }
}

impl RecordData for TLSA {
    open spec fn of(data: RData) -> Option<Self> {
        match data {
            RData::TLSA(own) => Some(own),
            _ => None,
        }
    }

    fn try_borrow(data: &RData) -> (borrowed: Option<&Self>)
        ensures
            forall|own: Self| *data == RData::TLSA(own) ==> borrowed == Some(&own),
            !(*data is TLSA) ==> borrowed is None,
    {
        match data {
            RData::TLSA(own) => Some(own),
            _ => None,
        }
    }

    fn try_take(data: RData) -> (taken: Option<Self>)
        ensures
            forall|own: Self| data == RData::TLSA(own) ==> taken == Some(own),
            !(data is TLSA) ==> taken is None,
    {
        match data {
            RData::TLSA(own) => Some(own),
            _ => None,
        }
    }
}

impl RecordData for TXT {
    open spec fn of(data: RData) -> Option<Self> {
        match data {
            RData::TXT(own) => Some(own),
            _ => None,
        }
    }

    fn try_borrow(data: &RData) -> (borrowed: Option<&Self>)
        ensures
            forall|own: Self| *data == RData::TXT(own) ==> borrowed == Some(&own),
            !(*data is TXT) ==> borrowed is None,
    {
        match data {
            RData::TXT(own) => Some(own),
            _ => None,
        }
    }

    fn try_take(data: RData) -> (taken: Option<Self>)
        ensures
            forall|own: Self| data == RData::TXT(own) ==> taken == Some(own),
            !(data is TXT) ==> taken is None,
    {
        match data {
            RData::TXT(own) => Some(own),
            _ => None,
        }
    }
}

impl RecordData for CERT {
    open spec fn of(data: RData) -> Option<Self> {
        match data {
            RData::CERT(own) => Some(own),
            _ => None,
        }
    }

    fn try_borrow(data: &RData) -> (borrowed: Option<&Self>)
        ensures
            forall|own: Self| *data == RData::CERT(own) ==> borrowed == Some(&own),
            !(*data is CERT) ==> borrowed is None,
    {
        match data {
            RData::CERT(own) => Some(own),
            _ => None,
        }
    }

    fn try_take(data: RData) -> (taken: Option<Self>)
        ensures
            forall|own: Self| data == RData::CERT(own) ==> taken == Some(own),
            !(data is CERT) ==> taken is None,
    {
        match data {
            RData::CERT(own) => Some(own),
            _ => None,
        }
    }
}

impl RecordData for SOA {
    open spec fn of(data: RData) -> Option<Self> {
        match data {
            RData::SOA(own) => Some(own),
            _ => None,
        }
    }

    fn try_borrow(data: &RData) -> (borrowed: Option<&Self>)
        ensures
            forall|own: Self| *data == RData::SOA(own) ==> borrowed == Some(&own),
            !(*data is SOA) ==> borrowed is None,
    {
        match data {
            RData::SOA(own) => Some(own),
            _ => None,
        }
    }

    fn try_take(data: RData) -> (taken: Option<Self>)
        ensures
            forall|own: Self| data == RData::SOA(own) ==> taken == Some(own),
            !(data is SOA) ==> taken is None,
    {
        match data {
            RData::SOA(own) => Some(own),
            _ => None,
        }
    }
}

impl RecordData for NS {
    open spec fn of(data: RData) -> Option<Self> {
        match data {
            RData::NS(own) => Some(own),
            _ => None,
        }
    }

    fn try_borrow(data: &RData) -> (borrowed: Option<&Self>)
        ensures
            forall|own: Self| *data == RData::NS(own) ==> borrowed == Some(&own),
            !(*data is NS) ==> borrowed is None,
    {
        match data {
            RData::NS(own) => Some(own),
            _ => None,
        }
    }

    fn try_take(data: RData) -> (taken: Option<Self>)
        ensures
            forall|own: Self| data == RData::NS(own) ==> taken == Some(own),
            !(data is NS) ==> taken is None,
    {
        match data {
            RData::NS(own) => Some(own),
            _ => None,
        }
    }
}

} // verus!
