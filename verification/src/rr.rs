//! Resource records: names, record data, and what validation proved of a record.
use crate::shared::share;
use std::sync::Arc;
use vstd::prelude::*;
use vstd::std_specs::convert::FromSpec;

verus! {

/// A domain name in presentation form, such as `www.example.com.`. Nothing in this crate looks
/// inside a name: it is carried, copied and compared.
#[derive(Debug, PartialEq, Eq, Hash)]
pub struct Name {
    text: String,
}

impl View for Name {
    type V = Seq<char>;

    /// The text of the name.
    closed spec fn view(&self) -> Seq<char> {
        self.text@
    }
}

impl Name {
    /// The name written as `text`.
    pub fn new(text: &str) -> (name: Self)
        ensures
            name@ == text@,
    {
        Self { text: text.to_owned() }
    }

    /// The root of the name space.
    pub fn root() -> (name: Self)
        ensures
            name@ == "."@,
    {
        Self::new(".")
    }

    /// The text of the name.
    pub fn as_str(&self) -> (text: &str)
        ensures
            text@ == self@,
    {
        self.text.as_str()
    }
}

impl Clone for Name {
    fn clone(&self) -> (copy: Self)
        ensures
            copy == *self,
    {
        Self { text: self.text.clone() }
    }
}

/// The type of a resource record.
#[derive(Clone, Copy, Debug, PartialEq, Eq, Hash, Structural)]
pub enum RecordType {
    A,
    AAAA,
    CERT,
    CNAME,
    MX,
    NS,
    PTR,
    SOA,
    SRV,
    TLSA,
    TXT,
    /// Any other type, by its registered code.
    Unknown(u16),
}

/// The class of a resource record.
#[derive(Clone, Copy, Debug, PartialEq, Eq, Hash, Structural)]
pub enum DNSClass {
    /// The Internet.
    IN,
    /// Any other class, by its registered code.
    Unknown(u16),
}

/// An IP address.
#[derive(Clone, Copy, Debug, PartialEq, Eq, Hash)]
pub enum IpAddr {
    /// An IPv4 address, by its octets.
    V4([u8; 4]),
    /// An IPv6 address, by its segments.
    V6([u16; 8]),
}

/// The data of an A record: an IPv4 address.
#[derive(Clone, Copy, Debug, PartialEq, Eq, Hash)]
pub struct A(pub [u8; 4]);

impl A {
    /// The address `a.b.c.d`.
    pub fn new(a: u8, b: u8, c: u8, d: u8) -> (data: Self)
        ensures
            data.0@ == seq![a, b, c, d],
    {
        Self([a, b, c, d])
    }
}

/// The data of an AAAA record: an IPv6 address.
#[derive(Clone, Copy, Debug, PartialEq, Eq, Hash)]
pub struct AAAA(pub [u16; 8]);

impl AAAA {
    /// The address `a:b:c:d:e:f:g:h`.
    pub fn new(a: u16, b: u16, c: u16, d: u16, e: u16, f: u16, g: u16, h: u16) -> (data: Self)
        ensures
            data.0@ == seq![a, b, c, d, e, f, g, h],
    {
        Self([a, b, c, d, e, f, g, h])
    }
}

/// The data of a PTR record: the name that an address belongs to.
#[derive(Debug, PartialEq, Eq, Hash)]
pub struct PTR(pub Name);

impl Clone for PTR {
    fn clone(&self) -> (copy: Self)
        ensures
            copy == *self,
    {
        Self(self.0.clone())
    }
}

/// The data of an NS record: the name of an authoritative server.
#[derive(Debug, PartialEq, Eq, Hash)]
pub struct NS(pub Name);

impl Clone for NS {
    fn clone(&self) -> (copy: Self)
        ensures
            copy == *self,
    {
        Self(self.0.clone())
    }
}

/// The data of a CNAME record: the name that an alias stands for.
#[derive(Debug, PartialEq, Eq, Hash)]
pub struct CNAME(pub Name);

impl Clone for CNAME {
    fn clone(&self) -> (copy: Self)
        ensures
            copy == *self,
    {
        Self(self.0.clone())
    }
}

/// The data of an MX record: a mail exchange.
#[derive(Debug, PartialEq, Eq, Hash)]
pub struct MX {
    pub preference: u16,
    pub exchange: Name,
}

impl Clone for MX {
    fn clone(&self) -> (copy: Self)
        ensures
            copy == *self,
    {
        Self { preference: self.preference, exchange: self.exchange.clone() }
    }
}

/// The data of an SRV record: where a service is offered.
#[derive(Debug, PartialEq, Eq, Hash)]
pub struct SRV {
    pub priority: u16,
    pub weight: u16,
    pub port: u16,
    pub target: Name,
}

impl Clone for SRV {
    fn clone(&self) -> (copy: Self)
        ensures
            copy == *self,
    {
        Self {
            priority: self.priority,
            weight: self.weight,
            port: self.port,
            target: self.target.clone(),
        }
    }
}

/// The data of an SOA record: the parameters of a zone.
#[derive(Debug, PartialEq, Eq, Hash)]
pub struct SOA {
    pub mname: Name,
    pub rname: Name,
    pub serial: u32,
    pub refresh: i32,
    pub retry: i32,
    pub expire: i32,
    pub minimum: u32,
}

impl Clone for SOA {
    fn clone(&self) -> (copy: Self)
        ensures
            copy == *self,
    {
        Self {
            mname: self.mname.clone(),
            rname: self.rname.clone(),
            serial: self.serial,
            refresh: self.refresh,
            retry: self.retry,
            expire: self.expire,
            minimum: self.minimum,
        }
    }
}

/// The data of a TXT record: a list of character strings.
#[derive(Debug, PartialEq, Eq, Hash)]
pub struct TXT {
    pub txt_data: Arc<[Arc<[u8]>]>,
}

impl Clone for TXT {
    fn clone(&self) -> (copy: Self)
        ensures
            copy == *self,
    {
        Self { txt_data: share(&self.txt_data) }
    }
}

/// The data of a TLSA record: a certificate association, its first three fields by their
/// registered codes.
#[derive(Debug, PartialEq, Eq, Hash)]
pub struct TLSA {
    pub cert_usage: u8,
    pub selector: u8,
    pub matching: u8,
    pub cert_data: Arc<[u8]>,
}

impl Clone for TLSA {
    fn clone(&self) -> (copy: Self)
        ensures
            copy == *self,
    {
        Self {
            cert_usage: self.cert_usage,
            selector: self.selector,
            matching: self.matching,
            cert_data: share(&self.cert_data),
        }
    }
}

/// The data of a CERT record: a stored certificate, its type and algorithm by their registered
/// codes.
#[derive(Debug, PartialEq, Eq, Hash)]
pub struct CERT {
    pub cert_type: u16,
    pub key_tag: u16,
    pub algorithm: u8,
    pub cert_data: Arc<[u8]>,
}

impl Clone for CERT {
    fn clone(&self) -> (copy: Self)
        ensures
            copy == *self,
    {
        Self {
            cert_type: self.cert_type,
            key_tag: self.key_tag,
            algorithm: self.algorithm,
            cert_data: share(&self.cert_data),
        }
    }
}

/// The data of a resource record.
#[derive(Debug, PartialEq, Eq, Hash)]
pub enum RData {
    A(A),
    AAAA(AAAA),
    CERT(CERT),
    CNAME(CNAME),
    MX(MX),
    NS(NS),
    PTR(PTR),
    SOA(SOA),
    SRV(SRV),
    TLSA(TLSA),
    TXT(TXT),
    /// The data of a record of another type, as it came off the wire.
    Unknown { code: u16, rdata: Arc<[u8]> },
}

impl RData {
    /// The IP address that an A or AAAA record holds.
    pub open spec fn spec_ip_addr(self) -> Option<IpAddr> {
        match self {
            RData::A(data) => Some(IpAddr::V4(data.0)),
            RData::AAAA(data) => Some(IpAddr::V6(data.0)),
            _ => None,
        }
    }

    /// The IP address that an A or AAAA record holds.
    pub fn ip_addr(&self) -> (addr: Option<IpAddr>)
        ensures
            addr == self.spec_ip_addr(),
            forall|octets: [u8; 4]| *self == RData::A(A(octets)) ==> addr == Some(IpAddr::V4(octets)),
            forall|segments: [u16; 8]|
                *self == RData::AAAA(AAAA(segments)) ==> addr == Some(IpAddr::V6(segments)),
            !(*self is A) && !(*self is AAAA) ==> addr is None,
    {
        match self {
            RData::A(data) => Some(IpAddr::V4(data.0)),
            RData::AAAA(data) => Some(IpAddr::V6(data.0)),
            _ => None,
        }
    }
}

/// The address of A data has the octets of the data, in their order, and that of AAAA data its
/// segments, in their order. Data of any other type has no address.
pub proof fn law_address_is_that_of_the_data(octets: [u8; 4], segments: [u16; 8], other: RData)
    ensures
        RData::A(A(octets)).spec_ip_addr() == Some(IpAddr::V4(octets)),
        RData::AAAA(AAAA(segments)).spec_ip_addr() == Some(IpAddr::V6(segments)),
        !(other is A) && !(other is AAAA) ==> other.spec_ip_addr() is None,
{
}

/// An address comes from one piece of data only: different data has different addresses.
pub proof fn law_address_tells_data_apart(a: RData, b: RData)
    requires
        a.spec_ip_addr() is Some,
        a.spec_ip_addr() == b.spec_ip_addr(),
    ensures
        a == b,
{
}

impl Clone for RData {
    fn clone(&self) -> (copy: Self)
        ensures
            copy == *self,
    {
        match self {
            RData::A(data) => RData::A(*data),
            RData::AAAA(data) => RData::AAAA(*data),
            RData::CERT(data) => RData::CERT(data.clone()),
            RData::CNAME(data) => RData::CNAME(data.clone()),
            RData::MX(data) => RData::MX(data.clone()),
            RData::NS(data) => RData::NS(data.clone()),
            RData::PTR(data) => RData::PTR(data.clone()),
            RData::SOA(data) => RData::SOA(data.clone()),
            RData::SRV(data) => RData::SRV(data.clone()),
            RData::TLSA(data) => RData::TLSA(data.clone()),
            RData::TXT(data) => RData::TXT(data.clone()),
            RData::Unknown { code, rdata } => RData::Unknown { code: *code, rdata: share(rdata) },
        }
    }
}

/// How far DNSSEC validation vouches for a record.
#[derive(Clone, Copy, Debug, PartialEq, Eq, Hash, Structural)]
pub enum Proof {
    /// A chain of trust leads to the record.
    Secure,
    /// It is proved that no chain of trust leads to the record.
    Insecure,
    /// A chain of trust should lead to the record, and does not.
    Bogus,
    /// Nothing is known.
    Indeterminate,
}

/// A value together with how far validation vouches for it.
#[derive(Debug, PartialEq, Eq)]
pub struct Proven<T> {
    pub proof: Proof,
    pub value: T,
}

impl<T> Proven<T> {
    /// The value, if it carries exactly the proof asked for; `self` unchanged otherwise.
    pub fn require(self, wanted: Proof) -> (checked: Result<T, Self>)
        ensures
            self.proof == wanted ==> checked == Ok::<T, Self>(self.value),
            self.proof != wanted ==> checked == Err::<T, Self>(self),
    {
        if self.proof == wanted {
            Ok(self.value)
        } else {
            Err(self)
        }
    }
}

impl<'a> From<&'a Record> for Proven<&'a Record> {
    /// The record together with the proof that it carries.
    fn from(record: &'a Record) -> (proven: Self)
        ensures
            proven.proof == record.proof,
            *proven.value == *record,
    {
        Self { proof: record.proof, value: record }
    }
}

impl<'a> vstd::std_specs::convert::FromSpecImpl<&'a Record> for Proven<&'a Record> {
    open spec fn obeys_from_spec() -> bool {
        true
    }

    open spec fn from_spec(record: &'a Record) -> Self {
        Proven { proof: record.proof, value: record }
    }
}

/// A record that is handed out with its proof carries the proof that was recorded for it, and is
/// otherwise the record itself.
pub proof fn law_proven_carries_the_record(record: Record)
    ensures
        Proven::<&Record>::from_spec(&record).proof == record.proof,
        *Proven::<&Record>::from_spec(&record).value == record,
{
}

/// A resource record.
#[derive(Debug, PartialEq, Eq, Hash)]
pub struct Record {
    pub name: Name,
    pub dns_class: DNSClass,
    pub ttl: u32,
    pub rdata: RData,
    pub proof: Proof,
}

impl Record {
    /// The record of class IN that holds `rdata`, of which nothing has been proved.
    pub open spec fn spec_from_rdata(name: Name, ttl: u32, rdata: RData) -> Record {
        Record { name, dns_class: DNSClass::IN, ttl, rdata, proof: Proof::Indeterminate }
    }

    /// The record of class IN that holds `rdata`, of which nothing has been proved.
    pub fn from_rdata(name: Name, ttl: u32, rdata: RData) -> (record: Self)
        ensures
            record == Self::spec_from_rdata(name, ttl, rdata),
            record.name == name,
            record.dns_class == DNSClass::IN,
            record.ttl == ttl,
            record.rdata == rdata,
            record.proof == Proof::Indeterminate,
    {
        Self { name, dns_class: DNSClass::IN, ttl, rdata, proof: Proof::Indeterminate }
    }

    /// The data of the record.
    pub fn data(&self) -> (data: &RData)
        ensures
            *data == self.rdata,
    {
        &self.rdata
    }

    /// Records how far validation vouches for this record.
    pub fn set_proof(&mut self, level: Proof)
        ensures
            *final(self) == (Record { proof: level, ..*old(self) }),
    {
        self.proof = level;
    }
}

/// A record made from data holds the name, the TTL and the data that it was made from, whatever
/// they are, in class IN, and nothing has been proved of it.
pub proof fn law_record_holds_what_it_was_given(name: Name, ttl: u32, rdata: RData)
    ensures
        Record::spec_from_rdata(name, ttl, rdata).name == name,
        Record::spec_from_rdata(name, ttl, rdata).dns_class == DNSClass::IN,
        Record::spec_from_rdata(name, ttl, rdata).ttl == ttl,
        Record::spec_from_rdata(name, ttl, rdata).rdata == rdata,
        Record::spec_from_rdata(name, ttl, rdata).proof == Proof::Indeterminate,
{
}

impl Clone for Record {
    fn clone(&self) -> (copy: Self)
        ensures
            copy == *self,
    {
        Self {
            name: self.name.clone(),
            dns_class: self.dns_class,
            ttl: self.ttl,
            rdata: self.rdata.clone(),
            proof: self.proof,
        }
    }
}

} // verus!
