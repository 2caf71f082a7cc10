use std::sync::{Arc, OnceLock};

use resolver_lookup::lookup::Lookup;
use resolver_lookup::op::Query;
use resolver_lookup::record_lookup::{
    CertLookup, Ipv4Lookup, Ipv6Lookup, MxLookup, NsLookup, ReverseLookup, SoaLookup, TlsaLookup,
    TxtLookup,
};
use resolver_lookup::rr::{
    IpAddr, Name, RData, Record, RecordType, A, AAAA, CERT, CNAME, MX, NS, PTR, SOA, SRV, TLSA, TXT,
};
use resolver_lookup::srv_lookup::SrvLookup;
use resolver_lookup::time::{Clock, Instant};

/// The clock on which all instants of these tests are counted.
static CLOCK: OnceLock<Clock> = OnceLock::new();

fn at(nanos: i128) -> Instant {
    CLOCK.get_or_init(Clock::start).at(nanos)
}

fn name(text: &str) -> Name {
    Name::new(text)
}

fn a(last: u8) -> A {
    A::new(127, 0, 0, last)
}

fn aaaa(last: u16) -> AAAA {
    AAAA::new(0x2001, 0xdb8, 0, 0, 0, 0, 0, last)
}

fn srv(port: u16) -> SRV {
    SRV {
        priority: 1,
        weight: 2,
        port,
        target: name("srv.example.com."),
    }
}

fn mx(preference: u16) -> MX {
    MX {
        preference,
        exchange: name("mx.example.com."),
    }
}

fn tlsa(selector: u8) -> TLSA {
    TLSA {
        cert_usage: 3,
        selector,
        matching: 1,
        cert_data: Arc::from([1u8, 2, 3]),
    }
}

fn txt(text: &str) -> TXT {
    TXT {
        txt_data: Arc::from([Arc::from(text.as_bytes())]),
    }
}

fn cert(key_tag: u16) -> CERT {
    CERT {
        cert_type: 1,
        key_tag,
        algorithm: 8,
        cert_data: Arc::from([4u8, 5, 6]),
    }
}

fn soa(serial: u32) -> SOA {
    SOA {
        mname: name("ns.example.com."),
        rname: name("admin.example.com."),
        serial,
        refresh: 1,
        retry: 2,
        expire: 3,
        minimum: 4,
    }
}

/// Two records of every type, the types mixed.
fn mixed() -> Lookup {
    let mut data = Vec::new();
    for i in 1..3u8 {
        data.push(RData::A(a(i)));
        data.push(RData::SRV(srv(i as u16)));
        data.push(RData::PTR(PTR(name(&format!("ptr{}.", i)))));
        data.push(RData::AAAA(aaaa(i as u16)));
        data.push(RData::MX(mx(i as u16)));
        data.push(RData::TLSA(tlsa(i)));
        data.push(RData::TXT(txt(&format!("text {}", i))));
        data.push(RData::CERT(cert(i as u16)));
        data.push(RData::SOA(soa(i as u32)));
        data.push(RData::NS(NS(name(&format!("ns{}.", i)))));
        data.push(RData::CNAME(CNAME(name(&format!("cname{}.", i)))));
        data.push(RData::Unknown {
            code: 65280,
            rdata: Arc::from([i]),
        });
    }
    let records: Vec<Record> = data
        .into_iter()
        .map(|rdata| Record::from_rdata(name("example.com."), 80, rdata))
        .collect();
    Lookup::new_with_deadline(
        Query::query(name("example.com."), RecordType::Unknown(255)),
        Arc::from(records),
        at(11),
    )
}

#[test]
fn copies_are_equal() {
    assert_eq!(mixed().clone(), mixed());
    let lookup = mixed();
    let mut owned = lookup.clone().into_iter();
    let mut borrowed = lookup.iter();
    for _ in 0..lookup.len() {
        assert_eq!(owned.next().as_ref(), borrowed.next());
    }
}

#[test]
fn srv_lookup_hands_out_srv_data() {
    let lookup = SrvLookup::from(mixed());
    let mut iter = lookup.iter();
    assert_eq!(iter.next(), Some(&srv(1)));
    assert_eq!(iter.next(), Some(&srv(2)));
    assert_eq!(iter.next(), None);
    assert_eq!(iter.next(), None);
    assert_eq!(lookup.query(), mixed().query());
    assert_eq!(lookup.as_lookup(), &mixed());

    let mut iter = lookup.clone().into_iter();
    assert_eq!(iter.next(), Some(srv(1)));
    assert_eq!(iter.next(), Some(srv(2)));
    assert_eq!(iter.next(), None);
    assert_eq!(iter.next(), None);
}

#[test]
fn srv_lookup_hands_out_addresses_in_order() {
    let lookup = SrvLookup::from(mixed());
    let mut iter = lookup.ip_iter();
    assert_eq!(iter.next(), Some(IpAddr::V4([127, 0, 0, 1])));
    assert_eq!(
        iter.next(),
        Some(IpAddr::V6([0x2001, 0xdb8, 0, 0, 0, 0, 0, 1]))
    );
    assert_eq!(iter.next(), Some(IpAddr::V4([127, 0, 0, 2])));
    assert_eq!(
        iter.next(),
        Some(IpAddr::V6([0x2001, 0xdb8, 0, 0, 0, 0, 0, 2]))
    );
    assert_eq!(iter.next(), None);
    assert_eq!(iter.next(), None);
}

#[test]
fn no_data_of_the_type() {
    let records = vec![Record::from_rdata(name("a."), 80, RData::A(a(1)))];
    let lookup = Lookup::new_with_deadline(
        Query::default(),
        Arc::from(records),
        at(1),
    );
    assert_eq!(SrvLookup::from(lookup.clone()).iter().next(), None);
    assert_eq!(SrvLookup::from(lookup.clone()).into_iter().next(), None);
    assert_eq!(MxLookup::from(lookup.clone()).iter().next(), None);
    assert_eq!(MxLookup::from(lookup).into_iter().next(), None);
}

#[test]
fn reverse_lookup_hands_out_its_data() {
    let lookup = ReverseLookup::from(mixed());
    let mut iter = lookup.iter();
    assert_eq!(iter.next(), Some(&PTR(name("ptr1."))));
    assert_eq!(iter.next(), Some(&PTR(name("ptr2."))));
    assert_eq!(iter.next(), None);
    assert_eq!(iter.next(), None);
    assert_eq!(lookup.query(), mixed().query());
    assert_eq!(lookup.valid_until(), at(11));
    assert_eq!(lookup.as_lookup(), &mixed());

    let mut iter = lookup.clone().into_iter();
    assert_eq!(iter.next(), Some(PTR(name("ptr1."))));
    assert_eq!(iter.next(), Some(PTR(name("ptr2."))));
    assert_eq!(iter.next(), None);
    assert_eq!(iter.next(), None);
    assert_eq!(Lookup::from(lookup), mixed());
}

#[test]
fn ipv4_lookup_hands_out_its_data() {
    let lookup = Ipv4Lookup::from(mixed());
    let mut iter = lookup.iter();
    assert_eq!(iter.next(), Some(&a(1)));
    assert_eq!(iter.next(), Some(&a(2)));
    assert_eq!(iter.next(), None);
    assert_eq!(iter.next(), None);
    assert_eq!(lookup.query(), mixed().query());
    assert_eq!(lookup.valid_until(), at(11));
    assert_eq!(lookup.as_lookup(), &mixed());

    let mut iter = lookup.clone().into_iter();
    assert_eq!(iter.next(), Some(a(1)));
    assert_eq!(iter.next(), Some(a(2)));
    assert_eq!(iter.next(), None);
    assert_eq!(iter.next(), None);
    assert_eq!(Lookup::from(lookup), mixed());
}

#[test]
fn ipv6_lookup_hands_out_its_data() {
    let lookup = Ipv6Lookup::from(mixed());
    let mut iter = lookup.iter();
    assert_eq!(iter.next(), Some(&aaaa(1)));
    assert_eq!(iter.next(), Some(&aaaa(2)));
    assert_eq!(iter.next(), None);
    assert_eq!(iter.next(), None);
    assert_eq!(lookup.query(), mixed().query());
    assert_eq!(lookup.valid_until(), at(11));
    assert_eq!(lookup.as_lookup(), &mixed());

    let mut iter = lookup.clone().into_iter();
    assert_eq!(iter.next(), Some(aaaa(1)));
    assert_eq!(iter.next(), Some(aaaa(2)));
    assert_eq!(iter.next(), None);
    assert_eq!(iter.next(), None);
    assert_eq!(Lookup::from(lookup), mixed());
}

#[test]
fn mx_lookup_hands_out_its_data() {
    let lookup = MxLookup::from(mixed());
    let mut iter = lookup.iter();
    assert_eq!(iter.next(), Some(&mx(1)));
    assert_eq!(iter.next(), Some(&mx(2)));
    assert_eq!(iter.next(), None);
    assert_eq!(iter.next(), None);
    assert_eq!(lookup.query(), mixed().query());
    assert_eq!(lookup.valid_until(), at(11));
    assert_eq!(lookup.as_lookup(), &mixed());

    let mut iter = lookup.clone().into_iter();
    assert_eq!(iter.next(), Some(mx(1)));
    assert_eq!(iter.next(), Some(mx(2)));
    assert_eq!(iter.next(), None);
    assert_eq!(iter.next(), None);
    assert_eq!(Lookup::from(lookup), mixed());
}

#[test]
fn tlsa_lookup_hands_out_its_data() {
    let lookup = TlsaLookup::from(mixed());
    let mut iter = lookup.iter();
    assert_eq!(iter.next(), Some(&tlsa(1)));
    assert_eq!(iter.next(), Some(&tlsa(2)));
    assert_eq!(iter.next(), None);
    assert_eq!(iter.next(), None);
    assert_eq!(lookup.query(), mixed().query());
    assert_eq!(lookup.valid_until(), at(11));
    assert_eq!(lookup.as_lookup(), &mixed());

    let mut iter = lookup.clone().into_iter();
    assert_eq!(iter.next(), Some(tlsa(1)));
    assert_eq!(iter.next(), Some(tlsa(2)));
    assert_eq!(iter.next(), None);
    assert_eq!(iter.next(), None);
    assert_eq!(Lookup::from(lookup), mixed());
}

#[test]
fn txt_lookup_hands_out_its_data() {
    let lookup = TxtLookup::from(mixed());
    let mut iter = lookup.iter();
    assert_eq!(iter.next(), Some(&txt("text 1")));
    assert_eq!(iter.next(), Some(&txt("text 2")));
    assert_eq!(iter.next(), None);
    assert_eq!(iter.next(), None);
    assert_eq!(lookup.query(), mixed().query());
    assert_eq!(lookup.valid_until(), at(11));
    assert_eq!(lookup.as_lookup(), &mixed());

    let mut iter = lookup.clone().into_iter();
    assert_eq!(iter.next(), Some(txt("text 1")));
    assert_eq!(iter.next(), Some(txt("text 2")));
    assert_eq!(iter.next(), None);
    assert_eq!(iter.next(), None);
    assert_eq!(Lookup::from(lookup), mixed());
}

#[test]
fn cert_lookup_hands_out_its_data() {
    let lookup = CertLookup::from(mixed());
    let mut iter = lookup.iter();
    assert_eq!(iter.next(), Some(&cert(1)));
    assert_eq!(iter.next(), Some(&cert(2)));
    assert_eq!(iter.next(), None);
    assert_eq!(iter.next(), None);
    assert_eq!(lookup.query(), mixed().query());
    assert_eq!(lookup.valid_until(), at(11));
    assert_eq!(lookup.as_lookup(), &mixed());

    let mut iter = lookup.clone().into_iter();
    assert_eq!(iter.next(), Some(cert(1)));
    assert_eq!(iter.next(), Some(cert(2)));
    assert_eq!(iter.next(), None);
    assert_eq!(iter.next(), None);
    assert_eq!(Lookup::from(lookup), mixed());
}

#[test]
fn soa_lookup_hands_out_its_data() {
    let lookup = SoaLookup::from(mixed());
    let mut iter = lookup.iter();
    assert_eq!(iter.next(), Some(&soa(1)));
    assert_eq!(iter.next(), Some(&soa(2)));
    assert_eq!(iter.next(), None);
    assert_eq!(iter.next(), None);
    assert_eq!(lookup.query(), mixed().query());
    assert_eq!(lookup.valid_until(), at(11));
    assert_eq!(lookup.as_lookup(), &mixed());

    let mut iter = lookup.clone().into_iter();
    assert_eq!(iter.next(), Some(soa(1)));
    assert_eq!(iter.next(), Some(soa(2)));
    assert_eq!(iter.next(), None);
    assert_eq!(iter.next(), None);
    assert_eq!(Lookup::from(lookup), mixed());
}

#[test]
fn ns_lookup_hands_out_its_data() {
    let lookup = NsLookup::from(mixed());
    let mut iter = lookup.iter();
    assert_eq!(iter.next(), Some(&NS(name("ns1."))));
    assert_eq!(iter.next(), Some(&NS(name("ns2."))));
    assert_eq!(iter.next(), None);
    assert_eq!(iter.next(), None);
    assert_eq!(lookup.query(), mixed().query());
    assert_eq!(lookup.valid_until(), at(11));
    assert_eq!(lookup.as_lookup(), &mixed());

    let mut iter = lookup.clone().into_iter();
    assert_eq!(iter.next(), Some(NS(name("ns1."))));
    assert_eq!(iter.next(), Some(NS(name("ns2."))));
    assert_eq!(iter.next(), None);
    assert_eq!(iter.next(), None);
    assert_eq!(Lookup::from(lookup), mixed());
}

#[test]
fn typed_data_of_appended_lookups() {
    let both = MxLookup::from(mixed().append(mixed()));
    let mut iter = both.iter();
    for preference in [1, 2, 1, 2] {
        assert_eq!(iter.next(), Some(&mx(preference)));
    }
    assert_eq!(iter.next(), None);
}
