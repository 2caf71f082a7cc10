use std::sync::{Arc, OnceLock};

use resolver_lookup::error::{ProtoErrorKind, ResolveError};
use resolver_lookup::lookup::Lookup;
use resolver_lookup::lookup_future::{Answer, Attempt, LookupFuture, Polled, Step};
use resolver_lookup::op::{DnsRequestOptions, Query};
use resolver_lookup::rr::{IpAddr, Name, RData, Record, RecordType, A};
use resolver_lookup::time::{Clock, Instant};

/// The clock on which all instants of these tests are counted.
static CLOCK: OnceLock<Clock> = OnceLock::new();

fn at(nanos: i128) -> Instant {
    CLOCK.get_or_init(Clock::start).at(nanos)
}

const LOCALHOST: IpAddr = IpAddr::V4([127, 0, 0, 1]);

/// What a server answers to a query.
type Message = fn(&Query) -> Answer;

fn v4_message(query: &Query) -> Answer {
    let record = Record::from_rdata(Name::root(), 86400, RData::A(A::new(127, 0, 0, 1)));
    Ok(Lookup::new_with_deadline(
        query.clone(),
        Arc::from([record]),
        at(1),
    ))
}

/// An empty response, which a client reports as an error.
fn empty(query: &Query) -> Answer {
    Err(ResolveError::Proto(ProtoErrorKind::NoRecordsFound {
        query: Box::new(query.clone()),
        negative_ttl: None,
    }))
}

/// A lookup that was answered with no records at all.
fn no_records(query: &Query) -> Answer {
    Ok(Lookup::new_with_deadline(
        query.clone(),
        Arc::from([]),
        at(2),
    ))
}

fn error(_: &Query) -> Answer {
    Err(ResolveError::Proto(ProtoErrorKind::Io))
}

/// A client that answers with its messages, the last one first, and then with empty responses. It
/// keeps what it was asked.
struct MockClient {
    messages: Vec<Message>,
    asked: Vec<(Query, DnsRequestOptions)>,
}

fn mock(messages: Vec<Message>) -> MockClient {
    MockClient {
        messages,
        asked: Vec::new(),
    }
}

impl MockClient {
    fn lookup(&mut self, query: Query, options: DnsRequestOptions) -> Answer {
        let message = self.messages.pop().unwrap_or(empty);
        let answer = message(&query);
        self.asked.push((query, options));
        answer
    }
}

/// What a lookup without local hosts consults.
const NO_HOSTS: Option<fn(&Query) -> Option<Lookup>> = None;

/// Runs a lookup that has begun to its end. Every attempt is pending once before it is answered.
fn drive<H: Fn(&Query) -> Option<Lookup>>(
    begun: (LookupFuture, Attempt),
    hosts: &Option<H>,
    client: &mut MockClient,
) -> Answer {
    let (mut future, mut attempt) = begun;
    loop {
        let answer = match attempt {
            Attempt::Ready(answer) => answer,
            Attempt::Client { query, options } => client.lookup(query, options),
        };
        assert!(matches!(future.poll(Polled::Pending, hosts), Step::Pending));
        match future.poll(Polled::Ready(answer), hosts) {
            Step::Pending => panic!("the attempt was answered"),
            Step::Retry(next) => attempt = next,
            Step::Done(answer) => return answer,
        }
    }
}

/// Runs a lookup for A records with local hosts.
fn drive_with_hosts<H: Fn(&Query) -> Option<Lookup>>(
    names: Vec<Name>,
    hosts: H,
    client: &mut MockClient,
) -> Answer {
    let hosts = Some(hosts);
    let begun = LookupFuture::lookup_with_hosts(
        names,
        RecordType::A,
        DnsRequestOptions::default(),
        &hosts,
    );
    drive(begun, &hosts, client)
}

fn lookup_root(mut client: MockClient) -> Answer {
    drive(
        LookupFuture::lookup(
            vec![Name::root()],
            RecordType::A,
            DnsRequestOptions::default(),
        ),
        &NO_HOSTS,
        &mut client,
    )
}

fn names(texts: &[&str]) -> Vec<Name> {
    texts.iter().map(|text| Name::new(text)).collect()
}

fn asked_for(client: &MockClient) -> Vec<&str> {
    client
        .asked
        .iter()
        .map(|(query, _)| query.name().as_str())
        .collect()
}

#[test]
fn test_lookup() {
    let lookup = lookup_root(mock(vec![v4_message])).unwrap();
    let mut iter = lookup.iter();
    let mut addresses: Vec<IpAddr> = Vec::new();
    while let Some(rdata) = iter.next() {
        addresses.push(rdata.ip_addr().unwrap());
    }
    assert_eq!(addresses, vec![LOCALHOST]);
}

#[test]
fn test_lookup_slice() {
    assert_eq!(
        Record::data(&lookup_root(mock(vec![v4_message])).unwrap().records()[0])
            .ip_addr()
            .unwrap(),
        LOCALHOST
    );
}

#[test]
fn test_lookup_into_iter() {
    let mut iter = lookup_root(mock(vec![v4_message])).unwrap().into_iter();
    let mut addresses: Vec<IpAddr> = Vec::new();
    while let Some(rdata) = iter.next() {
        addresses.push(rdata.ip_addr().unwrap());
    }
    assert_eq!(addresses, vec![LOCALHOST]);
}

#[test]
fn test_error() {
    assert!(lookup_root(mock(vec![error])).is_err());
}

#[test]
fn test_empty_no_response() {
    if let ProtoErrorKind::NoRecordsFound {
        query,
        negative_ttl,
    } = lookup_root(mock(vec![empty]))
        .expect_err("this should have been a NoRecordsFound")
        .proto()
        .expect("it should have been a ProtoError")
    {
        assert_eq!(**query, Query::query(Name::root(), RecordType::A));
        assert_eq!(*negative_ttl, None);
    } else {
        panic!("wrong error received");
    }
}

#[test]
fn no_names_is_an_error() {
    let mut client = mock(vec![v4_message]);
    let result = drive(
        LookupFuture::lookup(vec![], RecordType::A, DnsRequestOptions::default()),
        &NO_HOSTS,
        &mut client,
    );
    assert_eq!(
        result,
        Err(ResolveError::Message("can not lookup for no names"))
    );
    assert!(result.unwrap_err().proto().is_none());
    assert!(client.asked.is_empty());
}

#[test]
fn no_names_does_not_consult_the_hosts() {
    let hosts = |_: &Query| -> Option<Lookup> { panic!("there is no query") };
    let mut client = mock(vec![]);
    let result = drive_with_hosts(vec![], hosts, &mut client);
    assert_eq!(
        result,
        Err(ResolveError::Message("can not lookup for no names"))
    );
}

#[test]
fn names_are_attempted_in_queue_order() {
    let mut client = mock(vec![v4_message, no_records, error]);
    let options = DnsRequestOptions {
        max_request_depth: 3,
        use_edns: true,
        recursion_desired: false,
    };
    let result = drive(
        LookupFuture::lookup(names(&["d.", "c.", "b.", "a."]), RecordType::TXT, options),
        &NO_HOSTS,
        &mut client,
    );
    assert_eq!(asked_for(&client), vec!["a.", "b.", "c."]);
    for (query, used) in &client.asked {
        assert_eq!(query.query_type, RecordType::TXT);
        assert_eq!(*used, options);
    }
    let lookup = result.unwrap();
    assert_eq!(
        *lookup.query(),
        Query::query(Name::new("c."), RecordType::TXT)
    );
    assert_eq!(lookup.len(), 1);
}

#[test]
fn the_last_answer_stands() {
    let mut client = mock(vec![no_records, error]);
    let result = drive(
        LookupFuture::lookup(
            names(&["b.", "a."]),
            RecordType::A,
            DnsRequestOptions::default(),
        ),
        &NO_HOSTS,
        &mut client,
    );
    assert_eq!(asked_for(&client), vec!["a.", "b."]);
    assert!(result.unwrap().is_empty());

    let mut client = mock(vec![error, no_records]);
    let result = drive(
        LookupFuture::lookup(
            names(&["b.", "a."]),
            RecordType::A,
            DnsRequestOptions::default(),
        ),
        &NO_HOSTS,
        &mut client,
    );
    assert_eq!(asked_for(&client), vec!["a.", "b."]);
    assert_eq!(result, Err(ResolveError::Proto(ProtoErrorKind::Io)));
}

#[test]
fn hosts_are_preferred() {
    let hosts = |query: &Query| -> Option<Lookup> {
        assert_eq!(*query, Query::query(Name::new("a."), RecordType::A));
        v4_message(query).ok()
    };
    let mut client = mock(vec![error]);
    let result = drive_with_hosts(names(&["b.", "a."]), hosts, &mut client);
    assert_eq!(result, v4_message(&Query::query(Name::new("a."), RecordType::A)));
    assert!(client.asked.is_empty());
}

#[test]
fn hosts_without_the_name_are_passed_over() {
    let hosts = |_: &Query| -> Option<Lookup> { None };
    let mut client = mock(vec![v4_message]);
    let result = drive_with_hosts(names(&["b.", "a."]), hosts, &mut client);
    assert_eq!(asked_for(&client), vec!["a."]);
    assert_eq!(result.unwrap().len(), 1);
}

#[test]
fn hosts_are_preferred_for_every_name() {
    let hosts = |query: &Query| -> Option<Lookup> {
        if query.name().as_str() == "a." {
            v4_message(query).ok()
        } else {
            None
        }
    };
    let mut client = mock(vec![error]);
    let result = drive_with_hosts(names(&["a.", "b."]), hosts, &mut client);
    assert_eq!(asked_for(&client), vec!["b."]);
    assert_eq!(
        result,
        v4_message(&Query::query(Name::new("a."), RecordType::A))
    );
}

#[test]
fn hosts_are_consulted_in_queue_order() {
    let consulted = std::cell::RefCell::new(Vec::new());
    let hosts = |query: &Query| -> Option<Lookup> {
        consulted.borrow_mut().push(query.clone());
        None
    };
    let mut client = mock(vec![v4_message, error, no_records]);
    let result = drive_with_hosts(names(&["d.", "c.", "b.", "a."]), hosts, &mut client);
    assert_eq!(asked_for(&client), vec!["a.", "b.", "c."]);
    let asked: Vec<Query> = client.asked.iter().map(|(query, _)| query.clone()).collect();
    assert_eq!(consulted.into_inner(), asked);
    assert_eq!(result.unwrap().len(), 1);
}

#[test]
fn empty_hosts_entry_is_retried() {
    let hosts = |query: &Query| -> Option<Lookup> {
        if query.name().as_str() == "a." {
            no_records(query).ok()
        } else {
            None
        }
    };
    let mut client = mock(vec![v4_message]);
    let result = drive_with_hosts(names(&["b.", "a."]), hosts, &mut client);
    assert_eq!(asked_for(&client), vec!["b."]);
    assert_eq!(result.unwrap().len(), 1);
}

#[test]
fn an_attempt_takes_the_static_host() {
    let query = Query::query(Name::new("a."), RecordType::A);
    let options = DnsRequestOptions::default();
    let held = v4_message(&query).unwrap();
    match Attempt::new(query.clone(), options, Some(held.clone())) {
        Attempt::Ready(answer) => assert_eq!(answer, Ok(held)),
        Attempt::Client { .. } => panic!("the hosts hold the name"),
    }
    match Attempt::new(query.clone(), options, None) {
        Attempt::Ready(_) => panic!("the hosts hold nothing"),
        Attempt::Client {
            query: asked,
            options: used,
        } => {
            assert_eq!(asked, query);
            assert_eq!(used, options);
        }
    }
}
