//! Lookups for records of one type.
use crate::lookup::{data_of, Lookup, LookupIntoIter, LookupIter, LookupView};
use crate::op::Query;
use crate::rr::{A, AAAA, CERT, MX, NS, PTR, RData, SOA, TLSA, TXT};
use crate::select::{next_borrowed, next_taken, selected, RecordData};
use crate::time::Instant;
use crate::walk::{after_next, next_of};
use std::marker::PhantomData;
use vstd::prelude::*;
use vstd::std_specs::convert::FromSpec;

verus! {

/// The result of a reverse lookup.
pub type ReverseLookup = RecordLookup<PTR>;

/// A walk through the PTR data of a lookup.
pub type ReverseLookupIter<'i> = RecordLookupIter<'i, PTR>;

/// A walk through the PTR data of a lookup that hands out copies.
pub type ReverseLookupIntoIter = RecordLookupIntoIter<PTR>;

/// The result of a lookup for A records.
pub type Ipv4Lookup = RecordLookup<A>;

/// A walk through the A data of a lookup.
pub type Ipv4LookupIter<'i> = RecordLookupIter<'i, A>;

/// A walk through the A data of a lookup that hands out copies.
pub type Ipv4LookupIntoIter = RecordLookupIntoIter<A>;

/// The result of a lookup for AAAA records.
pub type Ipv6Lookup = RecordLookup<AAAA>;

/// A walk through the AAAA data of a lookup.
pub type Ipv6LookupIter<'i> = RecordLookupIter<'i, AAAA>;

/// A walk through the AAAA data of a lookup that hands out copies.
pub type Ipv6LookupIntoIter = RecordLookupIntoIter<AAAA>;

/// The result of a lookup for MX records.
pub type MxLookup = RecordLookup<MX>;

/// A walk through the MX data of a lookup.
pub type MxLookupIter<'i> = RecordLookupIter<'i, MX>;

/// A walk through the MX data of a lookup that hands out copies.
pub type MxLookupIntoIter = RecordLookupIntoIter<MX>;

/// The result of a lookup for TLSA records.
pub type TlsaLookup = RecordLookup<TLSA>;

/// A walk through the TLSA data of a lookup.
pub type TlsaLookupIter<'i> = RecordLookupIter<'i, TLSA>;

/// A walk through the TLSA data of a lookup that hands out copies.
pub type TlsaLookupIntoIter = RecordLookupIntoIter<TLSA>;

/// The result of a lookup for TXT records.
pub type TxtLookup = RecordLookup<TXT>;

/// A walk through the TXT data of a lookup.
pub type TxtLookupIter<'i> = RecordLookupIter<'i, TXT>;

/// A walk through the TXT data of a lookup that hands out copies.
pub type TxtLookupIntoIter = RecordLookupIntoIter<TXT>;

/// The result of a lookup for CERT records.
pub type CertLookup = RecordLookup<CERT>;

/// A walk through the CERT data of a lookup.
pub type CertLookupIter<'i> = RecordLookupIter<'i, CERT>;

/// A walk through the CERT data of a lookup that hands out copies.
pub type CertLookupIntoIter = RecordLookupIntoIter<CERT>;

/// The result of a lookup for SOA records.
pub type SoaLookup = RecordLookup<SOA>;

/// A walk through the SOA data of a lookup.
pub type SoaLookupIter<'i> = RecordLookupIter<'i, SOA>;

/// A walk through the SOA data of a lookup that hands out copies.
pub type SoaLookupIntoIter = RecordLookupIntoIter<SOA>;

/// The result of a lookup for NS records.
pub type NsLookup = RecordLookup<NS>;

/// A walk through the NS data of a lookup.
pub type NsLookupIter<'i> = RecordLookupIter<'i, NS>;

/// A walk through the NS data of a lookup that hands out copies.
pub type NsLookupIntoIter = RecordLookupIntoIter<NS>;

/// The result of a lookup for records whose data is of type `T`.
#[derive(Debug)]
pub struct RecordLookup<T> {
    lookup: Lookup,
    data: PhantomData<T>,
}

impl<T> View for RecordLookup<T> {
    type V = LookupView;

    closed spec fn view(&self) -> LookupView {
        self.lookup@
    }
}

impl<T> RecordLookup<T> {
    /// The lookup inside.
    pub closed spec fn spec_lookup(self) -> Lookup {
        self.lookup
    }
}

impl<T> Clone for RecordLookup<T> {
    fn clone(&self) -> (copy: Self)
        ensures
            copy == *self,
    {
        Self { lookup: self.lookup.clone(), data: PhantomData }
    }
}

impl<T: RecordData> RecordLookup<T> {
    /// Walks through the data of the records that are of this type.
    pub fn iter(&self) -> (iter: RecordLookupIter<'_, T>)
        ensures
            iter@ == selected::<T>(data_of(self@.records)),
    {
        RecordLookupIter { iter: self.lookup.iter(), data: PhantomData }
    }

    /// The query that this is the result of.
    pub fn query(&self) -> (query: &Query)
        ensures
            *query == self@.query,
    {
        self.lookup.query()
    }

    /// The instant at which this result is no longer valid.
    pub fn valid_until(&self) -> (valid_until: Instant)
        ensures
            valid_until == self@.valid_until,
    {
        self.lookup.valid_until()
    }

    /// The lookup inside, with the records of all types.
    pub fn as_lookup(&self) -> (lookup: &Lookup)
        ensures
            *lookup == self.spec_lookup(),
            lookup@ == self@,
    {
        &self.lookup
    }

    /// Walks through copies of the data of the records that are of this type.
    pub fn into_iter(self) -> (iter: RecordLookupIntoIter<T>)
        ensures
            iter@ == selected::<T>(data_of(self@.records)),
    {
        RecordLookupIntoIter { iter: self.lookup.into_iter(), data: PhantomData }
    }
}

impl<T> From<Lookup> for RecordLookup<T> {
    fn from(lookup: Lookup) -> (typed: Self)
        ensures
            typed.spec_lookup() == lookup,
            typed@ == lookup@,
    {
        Self { lookup, data: PhantomData }
    }
}

impl<T> vstd::std_specs::convert::FromSpecImpl<Lookup> for RecordLookup<T> {
    open spec fn obeys_from_spec() -> bool {
        true
    }

    closed spec fn from_spec(lookup: Lookup) -> Self {
        RecordLookup { lookup, data: PhantomData }
    }
}

impl<T> From<RecordLookup<T>> for Lookup {
    fn from(typed: RecordLookup<T>) -> (lookup: Self)
        ensures
            lookup == typed.spec_lookup(),
            lookup@ == typed@,
    {
        typed.lookup
    }
}

impl<T> vstd::std_specs::convert::FromSpecImpl<RecordLookup<T>> for Lookup {
    open spec fn obeys_from_spec() -> bool {
        true
    }

    open spec fn from_spec(typed: RecordLookup<T>) -> Self {
        typed.spec_lookup()
    }
}

/// To take a lookup as one for records of type `T` and back changes nothing.
pub proof fn law_round_trip<T>(lookup: Lookup, typed: RecordLookup<T>)
    ensures
        Lookup::from_spec(RecordLookup::<T>::from_spec(lookup)) == lookup,
        RecordLookup::<T>::from_spec(Lookup::from_spec(typed)) == typed,
{
}

/// A walk through the data of type `T` in a lookup.
pub struct RecordLookupIter<'i, T> {
    iter: LookupIter<'i>,
    data: PhantomData<&'i T>,
}

impl<'i, T: RecordData> View for RecordLookupIter<'i, T> {
    type V = Seq<T>;

    /// The data still to come.
    closed spec fn view(&self) -> Seq<T> {
        selected::<T>(self.iter@)
    }
}

impl<'i, T: RecordData> RecordLookupIter<'i, T> {
    /// The next data of this type, or `None` behind the last.
    pub fn next(&mut self) -> (next: Option<&'i T>)
        ensures
            final(self)@ == after_next(old(self)@),
            match next {
                Some(item) => next_of(old(self)@) == Some(*item),
                None => next_of(old(self)@) is None,
            },
    {
        next_borrowed(&mut self.iter)
    }
}

/// A walk through the data of type `T` in a lookup that hands out copies.
pub struct RecordLookupIntoIter<T> {
    iter: LookupIntoIter,
    data: PhantomData<T>,
}

impl<T: RecordData> View for RecordLookupIntoIter<T> {
    type V = Seq<T>;

    /// The data still to come.
    closed spec fn view(&self) -> Seq<T> {
        selected::<T>(self.iter@)
    }
}

impl<T: RecordData> RecordLookupIntoIter<T> {
    /// The next data of this type, or `None` behind the last.
    pub fn next(&mut self) -> (next: Option<T>)
        ensures
            final(self)@ == after_next(old(self)@),
            next == next_of(old(self)@),
    {
        next_taken(&mut self.iter)
    }
}

} // verus!
