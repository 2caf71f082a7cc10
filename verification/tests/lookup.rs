use std::sync::{Arc, OnceLock};

use resolver_lookup::lookup::{Lookup, MAX_TTL};
use resolver_lookup::op::Query;
use resolver_lookup::rr::{Name, Proof, Proven, RData, Record, RecordType, A, CNAME};
use resolver_lookup::time::{Clock, Instant, NANOS_PER_SEC};

/// The clock on which all instants of these tests are counted.
static CLOCK: OnceLock<Clock> = OnceLock::new();

fn at(nanos: i128) -> Instant {
    CLOCK.get_or_init(Clock::start).at(nanos)
}

fn a_record(last: u8) -> Record {
    Record::from_rdata(
        Name::new("www.example.com."),
        80,
        RData::A(A::new(127, 0, 0, last)),
    )
}

fn lookup_of(records: Vec<Record>, deadline: i128) -> Lookup {
    Lookup::new_with_deadline(
        Query::default(),
        Arc::from(records),
        at(deadline),
    )
}

#[test]
fn test_lookup_into_iter_arc() {
    let mut lookup = Lookup::new_with_deadline(
        Query::default(),
        Arc::from([
            Record::from_rdata(
                Name::new("www.example.com."),
                80,
                RData::A(A::new(127, 0, 0, 1)),
            ),
            Record::from_rdata(
                Name::new("www.example.com."),
                80,
                RData::A(A::new(127, 0, 0, 2)),
            ),
        ]),
        at(0),
    )
    .into_iter();

    assert_eq!(lookup.next().unwrap(), RData::A(A::new(127, 0, 0, 1)));
    assert_eq!(lookup.next().unwrap(), RData::A(A::new(127, 0, 0, 2)));
    assert_eq!(lookup.next(), None);
}

#[test]
fn test_dnssec_lookup() {
    let mut a1 = Record::from_rdata(
        Name::new("www.example.com."),
        80,
        RData::A(A::new(127, 0, 0, 1)),
    );
    a1.set_proof(Proof::Secure);

    let mut a2 = Record::from_rdata(
        Name::new("www.example.com."),
        80,
        RData::A(A::new(127, 0, 0, 2)),
    );
    a2.set_proof(Proof::Insecure);

    let lookup = Lookup::new_with_deadline(
        Query::default(),
        Arc::from([a1.clone(), a2.clone()]),
        Clock::start().now(),
    );

    let mut lookup = lookup.dnssec_iter();

    assert_eq!(
        *lookup.next().unwrap().require(Proof::Secure).unwrap(),
        *a1.data()
    );
    assert_eq!(
        *lookup.next().unwrap().require(Proof::Insecure).unwrap(),
        *a2.data()
    );
    assert_eq!(lookup.next(), None);
}

#[test]
fn require_refuses_another_proof() {
    let record = a_record(1);
    let proven = Proven::from(&record);
    assert_eq!(proven.proof, Proof::Indeterminate);
    let refused = proven.require(Proof::Secure).unwrap_err();
    assert_eq!(refused, Proven::from(&record));
    assert_eq!(refused.require(Proof::Indeterminate), Ok(&record));
}

#[test]
fn records_come_with_their_proof() {
    let mut a1 = a_record(1);
    a1.set_proof(Proof::Bogus);
    let a2 = a_record(2);
    let lookup = lookup_of(vec![a1.clone(), a2.clone()], 5);
    let mut iter = lookup.dnssec_record_iter();
    assert_eq!(iter.next().unwrap().require(Proof::Bogus), Ok(&a1));
    assert_eq!(iter.next().unwrap().require(Proof::Indeterminate), Ok(&a2));
    assert_eq!(iter.next(), None);
    assert_eq!(iter.next(), None);
}

#[test]
fn every_walk_visits_every_record() {
    let alias = Record::from_rdata(
        Name::new("www.example.com."),
        80,
        RData::CNAME(CNAME(Name::new("example.com."))),
    );
    let records = vec![alias, a_record(1), a_record(2)];
    let lookup = lookup_of(records.clone(), 5);

    let mut data = lookup.iter();
    let mut whole = lookup.record_iter();
    let mut owned = lookup.clone().into_iter();
    for record in &records {
        assert_eq!(data.next(), Some(record.data()));
        assert_eq!(whole.next(), Some(record));
        assert_eq!(owned.next(), Some(record.data().clone()));
    }
    for _ in 0..3 {
        assert_eq!(data.next(), None);
        assert_eq!(whole.next(), None);
        assert_eq!(owned.next(), None);
    }
    assert_eq!(lookup.records(), &records[..]);
    assert_eq!(lookup.len(), 3);
    assert!(!lookup.is_empty());
}

#[test]
fn empty_lookup() {
    let lookup = lookup_of(vec![], 5);
    assert!(lookup.is_empty());
    assert_eq!(lookup.len(), 0);
    assert_eq!(lookup.iter().next(), None);
    assert_eq!(lookup.record_iter().next(), None);
    assert_eq!(lookup.dnssec_iter().next(), None);
    assert_eq!(lookup.into_iter().next(), None);
}

#[test]
fn append_takes_the_sooner_deadline() {
    let first = Lookup::new_with_deadline(
        Query::query(Name::new("a."), RecordType::A),
        Arc::from([a_record(1)]),
        at(7),
    );
    let second = Lookup::new_with_deadline(
        Query::query(Name::new("b."), RecordType::A),
        Arc::from([a_record(2), a_record(3)]),
        at(4),
    );

    let both = first.append(second.clone());
    assert_eq!(both.records(), &[a_record(1), a_record(2), a_record(3)]);
    assert_eq!(both.valid_until(), at(4));
    assert_eq!(both.query(), first.query());

    let both = second.append(first.clone());
    assert_eq!(both.records(), &[a_record(2), a_record(3), a_record(1)]);
    assert_eq!(both.valid_until(), at(4));
    assert_eq!(both.query(), second.query());

    assert_eq!(first.valid_until(), at(7));
    assert_eq!(first.len(), 1);
}

#[test]
fn append_is_associative() {
    let a = lookup_of(vec![a_record(1)], 7);
    let b = lookup_of(vec![a_record(2)], 9);
    let c = lookup_of(vec![a_record(3)], 8);
    assert_eq!(
        a.append(b.clone()).append(c.clone()),
        a.append(b.append(c))
    );
}

#[test]
fn extend_records_keeps_the_deadline() {
    let mut lookup = lookup_of(vec![a_record(1)], 7);
    let shared = lookup.clone();
    lookup.extend_records(vec![a_record(2)]);
    lookup.extend_records(vec![]);
    lookup.extend_records(vec![a_record(3), a_record(4)]);
    assert_eq!(
        lookup,
        lookup_of(vec![a_record(1), a_record(2), a_record(3), a_record(4)], 7)
    );
    assert_eq!(shared, lookup_of(vec![a_record(1)], 7));
    assert_eq!(lookup.query(), shared.query());
    assert_eq!(lookup.valid_until(), at(7));
    assert_eq!(lookup.clone().valid_until(), at(7));
}

#[test]
fn seconds_and_nanoseconds_make_an_instant() {
    let clock = Clock::start();
    assert_eq!(clock.after((3, 5)).as_nanos(), 3_000_000_005);
    assert_eq!(
        clock.after((u64::MAX, 999_999_999)).as_nanos(),
        18_446_744_073_709_551_615_999_999_999
    );
}

#[test]
fn a_clock_keeps_its_origin() {
    let clock = Clock::start();
    assert_eq!(clock.origin(), clock.origin());
    assert_eq!(clock.now().origin(), clock.origin());
    let before = clock.origin().elapsed().as_nanos() as i128;
    let now = clock.now().as_nanos();
    let after = clock.origin().elapsed().as_nanos() as i128;
    assert!(before <= now && now <= after);
}

/// Two clocks, the second of which was started later by the nanoseconds that are returned.
fn two_clocks() -> (Clock, Clock, i128) {
    let first = Clock::start();
    let mut second = Clock::start();
    while second.origin() == first.origin() {
        second = Clock::start();
    }
    let gap = second.origin().duration_since(first.origin()).as_nanos() as i128;
    (first, second, gap)
}

#[test]
fn the_same_moment_on_two_clocks() {
    let (first, second, gap) = two_clocks();
    assert_eq!(first.at(gap), second.at(0));
    assert_eq!(second.at(-gap), first.at(0));
    assert_eq!(first.at(gap + 5), second.at(5));
    assert_ne!(first.at(0), second.at(0));
    assert_ne!(first.at(gap + 1), second.at(0));
    assert_ne!(first.at(i128::MAX), second.at(i128::MIN));
}

#[test]
fn append_takes_the_sooner_deadline_of_two_clocks() {
    let (first, second, gap) = two_clocks();
    let on = |clock: &Clock, nanos: i128| {
        Lookup::new_with_deadline(Query::default(), Arc::from([a_record(1)]), clock.at(nanos))
    };

    let later = on(&first, gap + 1);
    let sooner = on(&second, 0);
    for both in [later.append(sooner.clone()), sooner.append(later.clone())] {
        assert_eq!(both.valid_until(), second.at(0));
        assert_eq!(both.valid_until().as_nanos(), 0);
    }

    // The sooner deadline has the greater count, or the same.
    let later = on(&second, 0);
    let sooner = on(&first, gap - 1);
    for both in [later.append(sooner.clone()), sooner.append(later.clone())] {
        assert_eq!(both.valid_until(), first.at(gap - 1));
        assert_eq!(both.valid_until().as_nanos(), gap - 1);
    }

    let later = on(&second, i128::MAX);
    let sooner = on(&first, i128::MIN);
    for both in [later.append(sooner.clone()), sooner.append(later.clone())] {
        assert_eq!(both.valid_until().as_nanos(), i128::MIN);
    }
}

#[test]
fn max_ttl_is_counted_from_now() {
    let query = Query::query(Name::new("a."), RecordType::A);
    let lookup = Lookup::new_with_max_ttl_at(
        query.clone(),
        Arc::from([a_record(1)]),
        at(17),
    );
    assert_eq!(lookup.valid_until().as_nanos(), 86_400_000_000_017);
    assert_eq!(lookup.records(), &[a_record(1)]);
    assert_eq!(lookup.query(), &query);
}

#[test]
fn from_rdata_holds_one_record() {
    let query = Query::query(Name::new("a."), RecordType::A);
    let rdata = RData::A(A::new(127, 0, 0, 1));
    let lookup = Lookup::from_rdata_at(query.clone(), rdata.clone(), at(0));
    assert_eq!(lookup.valid_until().as_nanos(), 86_400_000_000_000);
    assert_eq!(
        lookup.records(),
        &[Record::from_rdata(Name::new("a."), 86400, rdata)]
    );
    assert_eq!(lookup.query(), &query);
}

#[test]
fn clock_readings_do_not_go_back() {
    let clock = Clock::start();
    let rdata = RData::A(A::new(127, 0, 0, 1));
    let before = clock.now().as_nanos();
    let single = Lookup::from_rdata(Query::default(), rdata, &clock);
    let many = Lookup::new_with_max_ttl(Query::default(), Arc::from([a_record(1)]), &clock);
    let after = clock.now().as_nanos();

    let day = MAX_TTL as i128 * NANOS_PER_SEC;
    let single = single.valid_until().as_nanos();
    let many = many.valid_until().as_nanos();
    assert!(before + day <= single);
    assert!(single <= many);
    assert!(many <= after + day);
}
