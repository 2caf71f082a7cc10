//! The answer to a query, and the ways to walk through its records.
use crate::op::Query;
use crate::rr::{DNSClass, Proof, Proven, RData, Record};
use crate::shared::{into_shared, share};
use crate::time::{
    gap_on, law_sooner_is_first, lie_apart, sooner, Clock, Instant, NANOS_PER_SEC,
};
use crate::walk::{after_next, next_of};
use std::sync::Arc;
use vstd::prelude::*;

verus! {

/// The longest time, in seconds, that a record is held to be valid: one day.
pub const MAX_TTL: u32 = 86400;

/// What a [`Lookup`] holds.
#[verifier::ext_equal]
pub struct LookupView {
    pub query: Query,
    pub records: Seq<Record>,
    pub valid_until: Instant,
}

impl LookupView {
    /// The records of both lookups, those of `self` first; the query of `self`; the sooner of
    /// the two deadlines, where the origin of the other deadline comes `gap` nanoseconds after that
    /// of this one.
    pub open spec fn append(self, other: LookupView, gap: int) -> LookupView {
        LookupView {
            query: self.query,
            records: self.records + other.records,
            valid_until: sooner(self.valid_until, other.valid_until, gap),
        }
    }

    /// The lookups appended on a time line on which `at` says where the readings of the machine's
    /// clock lie.
    pub open spec fn append_on(
        self,
        at: spec_fn(std::time::Instant) -> int,
        other: LookupView,
    ) -> LookupView {
        self.append(other, gap_on(at, self.valid_until, other.valid_until))
    }

    /// The same lookup with more records behind its own.
    pub open spec fn extend(self, more: Seq<Record>) -> LookupView {
        LookupView { records: self.records + more, ..self }
    }

    /// The lookup after records have been added in each of the given portions, one by one.
    pub open spec fn extend_all(self, portions: Seq<Seq<Record>>) -> LookupView
        decreases portions.len(),
    {
        if portions.len() == 0 {
            self
        } else {
            self.extend_all(portions.drop_last()).extend(portions.last())
        }
    }
}

/// The data of each record.
pub open spec fn data_of(records: Seq<Record>) -> Seq<RData> {
    records.map_values(|record: Record| record.rdata)
}

/// Each record's data together with the proof that the record carries.
pub open spec fn proven_data_of(records: Seq<Record>) -> Seq<Proven<RData>> {
    records.map_values(|record: Record| Proven { proof: record.proof, value: record.rdata })
}

/// Each record together with the proof that it carries.
pub open spec fn proven_of(records: Seq<Record>) -> Seq<Proven<Record>> {
    records.map_values(|record: Record| Proven { proof: record.proof, value: record })
}

/// Every walk visits every record once, in its order: the walks through the data, through the
/// records with their proofs and through the data with their proofs hand out the same data, and
/// with it the proof of the record that holds it.
pub proof fn law_walks_agree(records: Seq<Record>)
    ensures
        data_of(records).len() == records.len(),
        proven_of(records).len() == records.len(),
        proven_data_of(records).len() == records.len(),
        forall|i: int|
            0 <= i < records.len() ==> {
                &&& #[trigger] data_of(records)[i] == records[i].rdata
                &&& proven_of(records)[i].value == records[i]
                &&& proven_of(records)[i].proof == records[i].proof
                &&& proven_data_of(records)[i].value == records[i].rdata
                &&& proven_data_of(records)[i].proof == records[i].proof
            },
{
}

/// The longest time that a record is held to be valid is a day.
pub proof fn law_max_ttl_is_a_day()
    ensures
        MAX_TTL == 24 * 60 * 60,
        MAX_TTL * NANOS_PER_SEC == MAX_TTL * 1_000_000_000,
{
}

/// An appended lookup keeps the query of the first part. It holds the records of the first part and
/// then those of the second, each where it stood, and no others.
pub proof fn law_append_keeps_both(a: LookupView, b: LookupView, gap: int, i: int)
    ensures
        a.append(b, gap).query == a.query,
        a.append(b, gap).records.len() == a.records.len() + b.records.len(),
        0 <= i < a.records.len() ==> a.append(b, gap).records[i] == a.records[i],
        0 <= i < b.records.len() ==> a.append(b, gap).records[a.records.len() + i] == b.records[i],
{
}

/// Where the other deadline's origin comes `gap` nanoseconds after this one's, an appended lookup
/// keeps the deadline of the first part unless that of the second comes before it.
pub proof fn law_append_deadline_by_gap(a: LookupView, b: LookupView, gap: int)
    ensures
        a.valid_until@ <= b.valid_until@ + gap ==> a.append(b, gap).valid_until == a.valid_until,
        b.valid_until@ + gap < a.valid_until@ ==> a.append(b, gap).valid_until == b.valid_until,
{
}

/// A lookup to which records are added keeps its query, its deadline and the records that it held,
/// each where it stood, and the new ones come behind them.
pub proof fn law_extend_adds_behind(lookup: LookupView, more: Seq<Record>, i: int)
    ensures
        lookup.extend(more).query == lookup.query,
        lookup.extend(more).valid_until == lookup.valid_until,
        lookup.extend(more).records.len() == lookup.records.len() + more.len(),
        0 <= i < lookup.records.len() ==> lookup.extend(more).records[i] == lookup.records[i],
        0 <= i < more.len() ==> lookup.extend(more).records[lookup.records.len() + i] == more[i],
{
}

/// A walk through an appended lookup goes through the data of the one and then of the other.
pub proof fn law_append_data(a: LookupView, b: LookupView, gap: int)
    ensures
        data_of(a.append(b, gap).records) == data_of(a.records) + data_of(b.records),
{
    assert(data_of(a.append(b, gap).records) =~= data_of(a.records) + data_of(b.records));
}

/// An appended lookup is valid no longer than either part, and as long as one of them, on whatever
/// clocks their deadlines are counted.
pub proof fn law_append_deadline(
    a: LookupView,
    b: LookupView,
    at: spec_fn(std::time::Instant) -> int,
)
    ensures
        ({
            let deadline = a.append_on(at, b).valid_until;
            &&& deadline.moment(at) <= a.valid_until.moment(at)
            &&& deadline.moment(at) <= b.valid_until.moment(at)
            &&& deadline == a.valid_until || deadline == b.valid_until
        }),
{
    law_sooner_is_first(a.valid_until, b.valid_until, at);
}

/// It does not matter which of two appends is made first.
pub proof fn law_append_associative(
    a: LookupView,
    b: LookupView,
    c: LookupView,
    at: spec_fn(std::time::Instant) -> int,
)
    ensures
        a.append_on(at, b).append_on(at, c) == a.append_on(at, b.append_on(at, c)),
{
    assert(a.append_on(at, b).append_on(at, c) =~= a.append_on(at, b.append_on(at, c)));
}

/// Records can be added at once or bit by bit.
pub proof fn law_extend_in_parts(lookup: LookupView, a: Seq<Record>, b: Seq<Record>)
    ensures
        lookup.extend(a).extend(b) == lookup.extend(a + b),
{
    assert(lookup.extend(a).extend(b) =~= lookup.extend(a + b));
}

/// However often records are added to a lookup, its query and its deadline stay, and the records
/// that it held come first.
pub proof fn law_extend_keeps_query_and_deadline(lookup: LookupView, portions: Seq<Seq<Record>>)
    ensures
        lookup.extend_all(portions).query == lookup.query,
        lookup.extend_all(portions).valid_until == lookup.valid_until,
        lookup.extend_all(portions).records == lookup.records + portions.flatten(),
    decreases portions.len(),
{
    if portions.len() == 0 {
        assert(lookup.records + portions.flatten() =~= lookup.records);
    } else {
        law_extend_keeps_query_and_deadline(lookup, portions.drop_last());
        portions.lemma_flatten_and_flatten_alt_are_equivalent();
        portions.drop_last().lemma_flatten_and_flatten_alt_are_equivalent();
        assert(lookup.extend_all(portions).records =~= lookup.records + portions.flatten());
    }
}

/// Adding the records of another lookup is appending that lookup, but for the deadline: it stays
/// as it was, even where the other lookup's is sooner.
pub proof fn law_extend_against_append(lookup: LookupView, other: LookupView, gap: int)
    ensures
        lookup.extend(other.records) == (LookupView {
            valid_until: lookup.valid_until,
            ..lookup.append(other, gap)
        }),
{
}

/// The result of a query for records of any type.
#[derive(Debug, PartialEq, Eq)]
pub struct Lookup {
    query: Query,
    records: Arc<[Record]>,
    valid_until: Instant,
}

impl View for Lookup {
    type V = LookupView;

    closed spec fn view(&self) -> LookupView {
        LookupView {
            query: self.query,
            records: self.records@,
            valid_until: self.valid_until,
        }
    }
}

impl Clone for Lookup {
    fn clone(&self) -> (copy: Self)
        ensures
            copy == *self,
    {
        Self {
            query: self.query.clone(),
            records: share(&self.records),
            valid_until: self.valid_until,
        }
    }
}

impl Lookup {
    /// A lookup that holds one record with the given data and the maximum TTL, valid for the
    /// maximum TTL from what `clock` reads now.
    pub fn from_rdata(query: Query, rdata: RData, clock: &Clock) -> (lookup: Self)
        ensures
            lookup@.query == query,
            lookup@.records == seq![Record::spec_from_rdata(query.name, MAX_TTL, rdata)],
            lookup@.records.len() == 1,
            lookup@.records[0].name == query.name,
            lookup@.records[0].dns_class == DNSClass::IN,
            lookup@.records[0].ttl == MAX_TTL,
            lookup@.records[0].rdata == rdata,
            lookup@.records[0].proof == Proof::Indeterminate,
            exists|now: Instant| #[trigger]
                call_ensures(Clock::now, (clock,), now) && lookup@.valid_until.comes_after(
                    now,
                    MAX_TTL * NANOS_PER_SEC,
                ) && lookup@.valid_until@ == now@ + MAX_TTL * 1_000_000_000,
            lookup@.valid_until.spec_origin() == clock.spec_origin(),
    {
        Self::from_rdata_at(query, rdata, clock.now())
    }

    /// A lookup that holds one record with the given data and the maximum TTL, valid for the
    /// maximum TTL from `now` on.
    pub fn from_rdata_at(query: Query, rdata: RData, now: Instant) -> (lookup: Self)
        requires
            now@ + MAX_TTL * NANOS_PER_SEC <= i128::MAX,
        ensures
            lookup@.query == query,
            lookup@.records == seq![Record::spec_from_rdata(query.name, MAX_TTL, rdata)],
            lookup@.records.len() == 1,
            lookup@.records[0].name == query.name,
            lookup@.records[0].dns_class == DNSClass::IN,
            lookup@.records[0].ttl == MAX_TTL,
            lookup@.records[0].rdata == rdata,
            lookup@.records[0].proof == Proof::Indeterminate,
            lookup@.valid_until.comes_after(now, MAX_TTL * NANOS_PER_SEC),
            lookup@.valid_until.spec_origin() == now.spec_origin(),
            lookup@.valid_until@ == now@ + MAX_TTL * 1_000_000_000,
    {
        let record = Record::from_rdata(query.name().clone(), MAX_TTL, rdata);
        Self::new_with_max_ttl_at(query, into_shared(vec![record]), now)
    }

    /// A lookup that holds the given records, valid for the maximum TTL from what `clock` reads
    /// now.
    pub fn new_with_max_ttl(query: Query, records: Arc<[Record]>, clock: &Clock) -> (lookup: Self)
        ensures
            lookup@.query == query,
            lookup@.records == records@,
            exists|now: Instant| #[trigger]
                call_ensures(Clock::now, (clock,), now) && lookup@.valid_until.comes_after(
                    now,
                    MAX_TTL * NANOS_PER_SEC,
                ) && lookup@.valid_until@ == now@ + MAX_TTL * 1_000_000_000,
            lookup@.valid_until.spec_origin() == clock.spec_origin(),
    {
        Self::new_with_max_ttl_at(query, records, clock.now())
    }

    /// A lookup that holds the given records, valid for the maximum TTL from `now` on.
    pub fn new_with_max_ttl_at(query: Query, records: Arc<[Record]>, now: Instant) -> (lookup: Self)
        requires
            now@ + MAX_TTL * NANOS_PER_SEC <= i128::MAX,
        ensures
            lookup@.query == query,
            lookup@.records == records@,
            lookup@.valid_until.comes_after(now, MAX_TTL * NANOS_PER_SEC),
            lookup@.valid_until.spec_origin() == now.spec_origin(),
            lookup@.valid_until@ == now@ + MAX_TTL * 1_000_000_000,
    {
        let valid_until = now.plus_secs(MAX_TTL);
        Self { query, records, valid_until }
    }

    /// A lookup that holds the given records until the given deadline.
    pub fn new_with_deadline(
        query: Query,
        records: Arc<[Record]>,
        valid_until: Instant,
    ) -> (lookup: Self)
        ensures
            lookup@ == (LookupView { query, records: records@, valid_until }),
    {
        Self { query, records, valid_until }
    }

    /// The query that this is the result of.
    pub fn query(&self) -> (query: &Query)
        ensures
            *query == self@.query,
    {
        &self.query
    }

    /// Walks through the data of all records. It may include records of other types than the
    /// one asked for, such as CNAME.
    pub fn iter(&self) -> (iter: LookupIter<'_>)
        ensures
            iter@ == data_of(self@.records),
    {
        LookupIter(&self.records)
    }

    /// Walks through the data of all records, each together with its proof.
    pub fn dnssec_iter(&self) -> (iter: DnssecIter<'_>)
        ensures
            iter@ == proven_data_of(self@.records),
    {
        let iter = DnssecIter(self.dnssec_record_iter());
        assert(iter@ =~= proven_data_of(self@.records));
        iter
    }

    /// Walks through all records. It may include records of other types than the one asked for,
    /// such as CNAME.
    pub fn record_iter(&self) -> (iter: LookupRecordIter<'_>)
        ensures
            iter@ == self@.records,
    {
        LookupRecordIter(&self.records)
    }

    /// Walks through all records, each together with its proof.
    pub fn dnssec_record_iter(&self) -> (iter: DnssecLookupRecordIter<'_>)
        ensures
            iter@ == proven_of(self@.records),
    {
        DnssecLookupRecordIter(&self.records)
    }

    /// The instant at which this result is no longer valid.
    pub fn valid_until(&self) -> (valid_until: Instant)
        ensures
            valid_until == self@.valid_until,
    {
        self.valid_until
    }

    /// Whether there are no records.
    pub fn is_empty(&self) -> (empty: bool)
        ensures
            empty <==> self@.records.len() == 0,
    {
        self.records.is_empty()
    }

    /// The number of records.
    pub fn len(&self) -> (len: usize)
        ensures
            len == self@.records.len(),
    {
        self.records.len()
    }

    /// All records. It may include records of other types than the one asked for, such as CNAME.
    pub fn records(&self) -> (records: &[Record])
        ensures
            records@ == self@.records,
    {
        &self.records
    }

    /// A new lookup with the records of `self` and then those of `other`, valid until the sooner
    /// of the two deadlines, on whatever clocks they are counted.
    pub fn append(&self, other: Self) -> (lookup: Self)
        requires
            self@.records.len() + other@.records.len() <= usize::MAX,
        ensures
            exists|gap: int| #[trigger]
                lie_apart(
                    self@.valid_until.spec_origin(),
                    other@.valid_until.spec_origin(),
                    gap,
                ) && lookup@ == self@.append(other@, gap) && (self@.valid_until@
                    <= other@.valid_until@ + gap ==> lookup@.valid_until == self@.valid_until) && (
                other@.valid_until@ + gap < self@.valid_until@ ==> lookup@.valid_until
                    == other@.valid_until),
            lookup@.query == self@.query,
            lookup@.records == self@.records + other@.records,
    {
        let mut records: Vec<Record> = Vec::with_capacity(self.len() + other.len());
        records.extend_from_slice(&self.records);
        records.extend_from_slice(&other.records);
        assert(records@ =~= self@.records + other@.records);
        let valid_until = self.valid_until().sooner(other.valid_until());
        Self::new_with_deadline(self.query.clone(), into_shared(records), valid_until)
    }

    /// Adds records behind those that this lookup holds. Its query and its deadline stay.
    pub fn extend_records(&mut self, other: Vec<Record>)
        requires
            old(self)@.records.len() + other@.len() <= usize::MAX,
        ensures
            final(self)@ == old(self)@.extend(other@),
            final(self)@.query == old(self)@.query,
            final(self)@.records == old(self)@.records + other@,
            final(self)@.valid_until == old(self)@.valid_until,
    {
        let mut other = other;
        let mut records: Vec<Record> = Vec::with_capacity(self.len() + other.len());
        records.extend_from_slice(&self.records);
        assert(records@ =~= self@.records);
        records.append(&mut other);
        self.records = into_shared(records);
    }

    /// Walks through the data of all records, each of which is copied as it is reached.
    pub fn into_iter(self) -> (iter: LookupIntoIter)
        ensures
            iter@ == data_of(self@.records),
    {
        let iter = LookupIntoIter { records: share(&self.records), index: 0 };
        assert(iter.records@.skip(0) =~= self.records@);
        iter
    }
}

/// A walk through the data of the records of a [`Lookup`].
pub struct LookupIter<'a>(&'a [Record]);

impl<'a> View for LookupIter<'a> {
    type V = Seq<RData>;

    /// The data still to come.
    closed spec fn view(&self) -> Seq<RData> {
        data_of(self.0@)
    }
}

impl<'a> LookupIter<'a> {
    /// The next record's data, or `None` behind the last.
    pub fn next(&mut self) -> (next: Option<&'a RData>)
        ensures
            final(self)@ == after_next(old(self)@),
            match next {
                Some(item) => next_of(old(self)@) == Some(*item),
                None => next_of(old(self)@) is None,
            },
    {
        if self.0.len() == 0 {
            None
        } else {
            let (head, tail) = self.0.split_at(1);
            self.0 = tail;
            assert(self@ =~= old(self)@.drop_first());
            Some(head[0].data())
        }
    }
}

/// A walk through the data of the records of a [`Lookup`], each together with its proof.
pub struct DnssecIter<'a>(DnssecLookupRecordIter<'a>);

impl<'a> View for DnssecIter<'a> {
    type V = Seq<Proven<RData>>;

    /// The data still to come, each together with its proof.
    closed spec fn view(&self) -> Seq<Proven<RData>> {
        self.0@.map_values(
            |proven: Proven<Record>| Proven { proof: proven.proof, value: proven.value.rdata },
        )
    }
}

impl<'a> DnssecIter<'a> {
    /// The next record's data together with its proof, or `None` behind the last.
    pub fn next(&mut self) -> (next: Option<Proven<&'a RData>>)
        ensures
            final(self)@ == after_next(old(self)@),
            match next {
                Some(item) => next_of(old(self)@) == Some(
                    Proven { proof: item.proof, value: *item.value },
                ),
                None => next_of(old(self)@) is None,
            },
    {
        match self.0.next() {
            None => None,
            Some(proven) => {
                assert(self@ =~= old(self)@.drop_first());
                Some(Proven { proof: proven.proof, value: proven.value.data() })
            },
        }
    }
}

/// A walk through the records of a [`Lookup`].
pub struct LookupRecordIter<'a>(&'a [Record]);

impl<'a> View for LookupRecordIter<'a> {
    type V = Seq<Record>;

    /// The records still to come.
    closed spec fn view(&self) -> Seq<Record> {
        self.0@
    }
}

impl<'a> LookupRecordIter<'a> {
    /// The next record, or `None` behind the last.
    pub fn next(&mut self) -> (next: Option<&'a Record>)
        ensures
            final(self)@ == after_next(old(self)@),
            match next {
                Some(item) => next_of(old(self)@) == Some(*item),
                None => next_of(old(self)@) is None,
            },
    {
        if self.0.len() == 0 {
            None
        } else {
            let (head, tail) = self.0.split_at(1);
            self.0 = tail;
            assert(self@ =~= old(self)@.drop_first());
            Some(&head[0])
        }
    }
}

/// A walk through the records of a [`Lookup`], each together with its proof.
pub struct DnssecLookupRecordIter<'a>(&'a [Record]);

impl<'a> View for DnssecLookupRecordIter<'a> {
    type V = Seq<Proven<Record>>;

    /// The records still to come, each together with its proof.
    closed spec fn view(&self) -> Seq<Proven<Record>> {
        proven_of(self.0@)
    }
}

impl<'a> DnssecLookupRecordIter<'a> {
    /// The next record together with its proof, or `None` behind the last.
    pub fn next(&mut self) -> (next: Option<Proven<&'a Record>>)
        ensures
            final(self)@ == after_next(old(self)@),
            match next {
                Some(item) => next_of(old(self)@) == Some(
                    Proven { proof: item.proof, value: *item.value },
                ),
                None => next_of(old(self)@) is None,
            },
    {
        if self.0.len() == 0 {
            None
        } else {
            let (head, tail) = self.0.split_at(1);
            self.0 = tail;
            assert(self@ =~= old(self)@.drop_first());
            Some(Proven::from(&head[0]))
        }
    }
}

/// A walk through the data of the records of a [`Lookup`] that hands out copies.
pub struct LookupIntoIter {
    records: Arc<[Record]>,
    index: usize,
}

impl View for LookupIntoIter {
    type V = Seq<RData>;

    /// The data still to come.
    closed spec fn view(&self) -> Seq<RData> {
        data_of(self.records@.skip(self.index as int))
    }
}

impl LookupIntoIter {
    #[verifier::type_invariant]
    spec fn within_records(self) -> bool {
        self.index <= self.records@.len()
    }

    /// A copy of the next record's data, or `None` behind the last.
    pub fn next(&mut self) -> (next: Option<RData>)
        ensures
            final(self)@ == after_next(old(self)@),
            next == next_of(old(self)@),
    {
        proof {
            use_type_invariant(&*self);
        }
        let records: &[Record] = &self.records;
        if self.index < records.len() {
            let rdata = records[self.index].data().clone();
            self.index = self.index + 1;
            assert(self@ =~= old(self)@.drop_first());
            Some(rdata)
        } else {
            None
        }
    }
}

} // verus!
