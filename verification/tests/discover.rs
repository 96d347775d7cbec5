use mdns::addr::{IpAddr, Ipv4Addr, SocketAddr};
use mdns::codec::RecordClass;
use mdns::discover::{all, interface, interfaces, Action, Event, Session, Transmission};
use mdns::errors::{DnsError, Error, IoError};
use mdns::mdns::{create_socket, mDNSSender, Datagram};
use mdns::response::{Record, RecordKind, Response};

const SERVICE: &str = "_svc._tcp.local";

fn name(text: &str) -> Vec<u8> {
    let mut bytes = Vec::new();
    for label in text.split('.') {
        bytes.push(label.len() as u8);
        bytes.extend_from_slice(label.as_bytes());
    }
    bytes.push(0);
    bytes
}

fn record(owner: &str, rtype: u16, rdata: &[u8]) -> Vec<u8> {
    let mut bytes = name(owner);
    bytes.extend_from_slice(&rtype.to_be_bytes());
    bytes.extend_from_slice(&[0, 1, 0, 0, 0, 120]);
    bytes.extend_from_slice(&(rdata.len() as u16).to_be_bytes());
    bytes.extend_from_slice(rdata);
    bytes
}

fn datagram(answer_owner: &str) -> Vec<u8> {
    let mut bytes = vec![0, 0, 0x84, 0, 0, 0, 0, 1, 0, 0, 0, 1];
    bytes.extend_from_slice(&record(answer_owner, 12, &name("dev1._svc._tcp.local")));
    bytes.extend_from_slice(&record("dev1.local", 1, &[192, 0, 2, 5]));
    bytes
}

fn empty_datagram() -> Vec<u8> {
    vec![0, 0, 0x84, 0, 0, 0, 0, 0, 0, 0, 0, 0]
}

fn response(answer_owner: &str) -> Response {
    Response {
        answers: vec![Record {
            name: answer_owner.to_string(),
            class: RecordClass::IN,
            ttl: 120,
            kind: RecordKind::PTR("dev1._svc._tcp.local".to_string()),
        }],
        nameservers: vec![],
        additional: vec![Record {
            name: "dev1.local".to_string(),
            class: RecordClass::IN,
            ttl: 120,
            kind: RecordKind::A(Ipv4Addr::new(192, 0, 2, 5)),
        }],
    }
}

fn query() -> Datagram {
    mDNSSender { service_name: SERVICE.to_string() }.send_request()
}

fn session() -> Session {
    all(SERVICE, 1000).listen(0)
}

fn strict() -> Session {
    all(SERVICE, 1000).match_service_name(true).listen(0)
}

fn failure(code: i32) -> IoError {
    IoError { code: Some(code), message: format!("os error {}", code) }
}

#[test]
fn all_is_a_discovery_on_the_wildcard_interface() {
    assert_eq!(all(SERVICE, 1000), interface(SERVICE, 1000, Ipv4Addr::new(0, 0, 0, 0)));
    assert_eq!(all(SERVICE, 1000), interfaces(SERVICE, 1000, vec![Ipv4Addr::new(0, 0, 0, 0)]));
    assert_eq!(all(SERVICE, 1000).interface_count(), 1);
    assert_eq!(all(SERVICE, 1000).socket(0), create_socket(Ipv4Addr::new(0, 0, 0, 0)));
    assert_ne!(all(SERVICE, 1000), all(SERVICE, 1001));
    assert_ne!(all(SERVICE, 1000), all("_other._tcp.local", 1000));
}

#[test]
fn a_discovery_has_a_socket_for_each_interface() {
    let first = Ipv4Addr::new(192, 168, 1, 20);
    let second = Ipv4Addr::new(10, 0, 0, 7);
    let discovery = interfaces(SERVICE, 1000, vec![first, second]);
    assert_eq!(discovery.interface_count(), 2);
    assert_eq!(discovery.socket(0), create_socket(first));
    assert_eq!(discovery.socket(1), create_socket(second));
    assert_eq!(interfaces(SERVICE, 1000, vec![]).interface_count(), 0);
}

#[test]
fn setting_ignore_empty_twice_is_setting_it_once() {
    assert_eq!(
        all(SERVICE, 1000).ignore_empty(true).ignore_empty(true),
        all(SERVICE, 1000).ignore_empty(true)
    );
    assert_eq!(all(SERVICE, 1000).ignore_empty(true), all(SERVICE, 1000));
    assert_eq!(
        all(SERVICE, 1000).ignore_empty(false).ignore_empty(false),
        all(SERVICE, 1000).ignore_empty(false)
    );
    assert_eq!(all(SERVICE, 1000).ignore_empty(false).ignore_empty(true), all(SERVICE, 1000));
    assert_eq!(
        all(SERVICE, 1000).ignore_empty(true).ignore_empty(false),
        all(SERVICE, 1000).ignore_empty(false)
    );
    assert_ne!(all(SERVICE, 1000).ignore_empty(false), all(SERVICE, 1000));
}

#[test]
fn the_last_setting_of_ignore_empty_decides_the_filter() {
    let loose = |discovery: mdns::discover::Discovery| discovery.listen(0);
    let twice = loose(all(SERVICE, 1000).ignore_empty(true).ignore_empty(false));
    let once = loose(all(SERVICE, 1000).ignore_empty(false));
    let empty = Response { answers: vec![], nameservers: vec![], additional: vec![] };
    assert!(twice.accepts(&empty));
    assert!(once.accepts(&empty));
    let back = loose(all(SERVICE, 1000).ignore_empty(false).ignore_empty(true));
    assert!(!back.accepts(&empty));
    assert!(back.accepts(&response("elsewhere.local")));
}

#[test]
fn initial_send_defaults_to_false_and_can_be_set() {
    assert_eq!(all(SERVICE, 1000).initial_send(false), all(SERVICE, 1000));
    assert_ne!(all(SERVICE, 1000).initial_send(true), all(SERVICE, 1000));
    assert_eq!(
        all(SERVICE, 1000).initial_send(true).initial_send(false),
        all(SERVICE, 1000)
    );
    assert_eq!(all(SERVICE, 1000).match_service_name(false), all(SERVICE, 1000));
    assert_ne!(all(SERVICE, 1000).match_service_name(true), all(SERVICE, 1000));
    assert_eq!(
        all(SERVICE, 1000).match_service_name(true).match_service_name(false),
        all(SERVICE, 1000)
    );
}

#[test]
fn without_initial_send_the_first_query_waits_one_interval() {
    let mut session = all(SERVICE, 1000).listen(500);
    assert_eq!(session.next_query_at(), 1500);
    assert!(session.tick(500).is_empty());
    assert!(session.tick(1499).is_empty());
    assert_eq!(session.tick(1500), vec![Transmission { interface: 0, datagram: query() }]);
    assert_eq!(session.next_query_at(), 2500);
}

#[test]
fn with_initial_send_the_first_query_goes_out_at_once() {
    let mut session = all(SERVICE, 1000).initial_send(true).listen(500);
    assert_eq!(session.next_query_at(), 500);
    assert_eq!(session.tick(500), vec![Transmission { interface: 0, datagram: query() }]);
    assert_eq!(session.next_query_at(), 1500);
    assert!(session.tick(500).is_empty());
    assert!(session.tick(1499).is_empty());
    assert_eq!(session.tick(1500).len(), 1);
}

#[test]
fn a_burst_of_ticks_sends_one_round() {
    let mut session = all(SERVICE, 1000).initial_send(true).listen(0);
    let mut sent: Vec<u64> = Vec::new();
    for now in [0u64, 0, 1, 2, 999, 1000, 1000, 1001, 1500, 1999, 2000, 5000, 5001, 5999, 6000] {
        if !session.tick(now).is_empty() {
            sent.push(now);
        }
    }
    assert_eq!(sent, vec![0, 1000, 2000, 5000, 6000]);
}

#[test]
fn a_tick_that_sends_nothing_changes_nothing() {
    let mut session = all(SERVICE, 1000).initial_send(true).listen(0);
    assert_eq!(session.tick(0).len(), 1);
    let before = session.clone();
    assert!(session.tick(999).is_empty());
    assert_eq!(session, before);
    assert_eq!(session.tick(1000).len(), 1);
    assert_ne!(session, before);
}

#[test]
fn the_first_query_time_stops_at_the_end_of_the_clock() {
    let mut session = all(SERVICE, 10).listen(u64::MAX - 3);
    assert_eq!(session.next_query_at(), u64::MAX);
    assert!(session.tick(u64::MAX - 1).is_empty());
    assert_eq!(session.tick(u64::MAX).len(), 1);
    assert!(session.tick(u64::MAX).is_empty());
}

#[test]
fn a_name_that_cannot_be_encoded_is_never_asked_for() {
    let long = format!("{}._tcp.local", "x".repeat(63));
    let mut session = all(&long, 1000).initial_send(true).listen(0);
    assert!(session.tick(0).is_empty());
    assert!(session.tick(5000).is_empty());
}

#[test]
fn each_interface_transmits_one_query_on_a_tick() {
    let mut session = interfaces(
        SERVICE,
        1000,
        vec![Ipv4Addr::new(192, 168, 1, 20), Ipv4Addr::new(10, 0, 0, 7)],
    )
    .initial_send(true)
    .listen(0);
    assert_eq!(
        session.tick(0),
        vec![
            Transmission { interface: 0, datagram: query() },
            Transmission { interface: 1, datagram: query() },
        ]
    );
    assert_eq!(
        query().destination,
        SocketAddr::new(IpAddr::V4(Ipv4Addr::new(224, 0, 0, 251)), 5353)
    );
    assert!(session.tick(0).is_empty());
}

#[test]
fn what_two_interfaces_receive_is_yielded_twice() {
    let session = interfaces(
        SERVICE,
        1000,
        vec![Ipv4Addr::new(192, 168, 1, 20), Ipv4Addr::new(10, 0, 0, 7)],
    )
    .listen(0);
    let on_first = session.receive(&datagram(SERVICE));
    let on_second = session.receive(&datagram(SERVICE));
    assert_eq!(on_first, Some(Ok(response(SERVICE))));
    assert_eq!(on_second, Some(Ok(response(SERVICE))));
}

#[test]
fn a_received_response_is_yielded_with_hostname_and_address() {
    let item = session().receive(&datagram(SERVICE)).unwrap().unwrap();
    assert_eq!(item.hostname(), Some("dev1._svc._tcp.local"));
    assert_eq!(item.ip_addr(), Some(IpAddr::V4(Ipv4Addr::new(192, 0, 2, 5))));
}

#[test]
fn an_empty_datagram_yields_no_item_and_no_error() {
    assert_eq!(session().receive(&[]), None);
    let mut running = session();
    assert_eq!(running.handle(Event::Received { datagram: vec![] }), Action::Wait);
    let lenient = all(SERVICE, 1000).ignore_empty(false).listen(0);
    assert_eq!(lenient.receive(&[]), None);
    assert_eq!(strict().receive(&[]), None);
}

#[test]
fn an_empty_response_is_held_back_while_ignore_empty_is_set() {
    let empty = Response { answers: vec![], nameservers: vec![], additional: vec![] };
    let keeps = all(SERVICE, 1000).listen(0);
    assert_eq!(keeps.receive(&empty_datagram()), None);
    assert_eq!(all(SERVICE, 1000).ignore_empty(true).listen(0).receive(&empty_datagram()), None);
    let passes = all(SERVICE, 1000).ignore_empty(false).listen(0);
    assert_eq!(passes.receive(&empty_datagram()), Some(Ok(empty)));
    let named = all(SERVICE, 1000).ignore_empty(false).match_service_name(true).listen(0);
    assert_eq!(named.receive(&empty_datagram()), None);
}

#[test]
fn a_response_for_another_service_is_held_back_on_demand() {
    assert_eq!(strict().receive(&datagram("_other._tcp.local")), None);
    assert!(!strict().accepts(&response("_other._tcp.local")));
    assert!(strict().accepts(&response(SERVICE)));
    assert_eq!(strict().receive(&datagram(SERVICE)), Some(Ok(response(SERVICE))));
    assert_eq!(
        session().receive(&datagram("_other._tcp.local")),
        Some(Ok(response("_other._tcp.local")))
    );
    assert!(session().accepts(&response("_other._tcp.local")));
}

#[test]
fn only_answer_records_count_for_the_service_name() {
    let mut moved = response("_other._tcp.local");
    moved.additional[0].name = SERVICE.to_string();
    assert!(!strict().accepts(&moved));
    moved.nameservers.push(moved.additional[0].clone());
    assert!(!strict().accepts(&moved));
    moved.answers.push(moved.additional[0].clone());
    assert!(strict().accepts(&moved));
}

#[test]
fn a_decode_error_is_yielded_and_the_session_goes_on() {
    let running = session();
    assert_eq!(running.receive(&[1, 2, 3]), Some(Err(Error::Dns(DnsError::HeaderTooShort))));
    assert_eq!(running.receive(&datagram(SERVICE)), Some(Ok(response(SERVICE))));
    let mut cut = datagram(SERVICE);
    cut.truncate(cut.len() - 1);
    assert_eq!(running.receive(&cut), None);
}

#[test]
fn events_are_answered_as_the_single_calls_are() {
    let mut running = all(SERVICE, 1000).initial_send(true).match_service_name(true).listen(0);
    assert_eq!(
        running.handle(Event::Tick { now: 0 }),
        Action::Transmit(vec![Transmission { interface: 0, datagram: query() }])
    );
    assert_eq!(running.handle(Event::Tick { now: 10 }), Action::Transmit(vec![]));
    assert_eq!(
        running.handle(Event::Received { datagram: datagram(SERVICE) }),
        Action::Yield(Ok(response(SERVICE)))
    );
    assert_eq!(
        running.handle(Event::Received { datagram: datagram("_other._tcp.local") }),
        Action::Wait
    );
    assert_eq!(
        running.handle(Event::Received { datagram: vec![0; 3] }),
        Action::Yield(Err(Error::Dns(DnsError::HeaderTooShort)))
    );
    assert_eq!(
        running.handle(Event::ReceiveFailed { error: failure(104) }),
        Action::Yield(Err(Error::Io(failure(104))))
    );
}

#[test]
fn a_lookup_goes_on_with_the_interfaces_that_opened() {
    let first = Ipv4Addr::new(192, 168, 1, 20);
    let second = Ipv4Addr::new(10, 0, 0, 7);
    let third = Ipv4Addr::new(172, 16, 0, 1);
    let discovery = interfaces(SERVICE, 1000, vec![first, second, third]).ignore_empty(false);
    assert_eq!(
        discovery.clone().opened(&vec![Ok(()), Ok(()), Ok(())]),
        Ok(discovery.clone())
    );
    assert_eq!(
        discovery.clone().opened(&vec![Err(failure(98)), Ok(()), Err(failure(19))]),
        Ok(interfaces(SERVICE, 1000, vec![second]).ignore_empty(false))
    );
    assert_eq!(
        discovery.clone().opened(&vec![Ok(()), Err(failure(98))]),
        Ok(interfaces(SERVICE, 1000, vec![first]).ignore_empty(false))
    );
    assert_eq!(
        discovery.clone().opened(&vec![Ok(()), Err(failure(98)), Ok(()), Ok(())]),
        Ok(interfaces(SERVICE, 1000, vec![first, third]).ignore_empty(false))
    );
}

#[test]
fn a_lookup_fails_where_no_interface_opened() {
    let discovery = interfaces(
        SERVICE,
        1000,
        vec![Ipv4Addr::new(192, 168, 1, 20), Ipv4Addr::new(10, 0, 0, 7)],
    );
    assert_eq!(
        discovery.clone().opened(&vec![Err(failure(98)), Err(failure(19))]),
        Err(Error::Io(failure(98)))
    );
    assert_eq!(
        discovery.clone().opened(&vec![Err(failure(19))]),
        Err(Error::Io(failure(19)))
    );
    assert_eq!(all(SERVICE, 1000).opened(&vec![Err(failure(13))]), Err(Error::Io(failure(13))));
    let nothing = IoError { code: None, message: "no interface to open a socket on".to_string() };
    assert_eq!(discovery.clone().opened(&vec![]), Err(Error::Io(nothing.clone())));
    assert_eq!(
        interfaces(SERVICE, 1000, vec![]).opened(&vec![Ok(()), Err(failure(98))]),
        Err(Error::Io(nothing))
    );
}

#[test]
fn a_discovery_runs_until_dropped_unless_given_a_timeout() {
    let mut forever = all(SERVICE, 1000).initial_send(true).listen(0);
    assert!(!forever.is_over(0));
    assert!(!forever.is_over(u64::MAX));
    assert_eq!(forever.tick(u64::MAX).len(), 1);
    assert_ne!(all(SERVICE, 1000).timeout(5000), all(SERVICE, 1000));
    assert_eq!(all(SERVICE, 1000).timeout(1).timeout(5000), all(SERVICE, 1000).timeout(5000));
}

#[test]
fn a_session_is_over_once_its_timeout_has_passed() {
    let mut session = all(SERVICE, 1000).initial_send(true).timeout(2500).listen(100);
    assert!(!session.is_over(100));
    assert!(!session.is_over(2600));
    assert!(session.is_over(2601));
    let mut sent: Vec<u64> = Vec::new();
    for now in [100u64, 1100, 2100, 2600, 2601, 3100, 4100] {
        if !session.tick(now).is_empty() {
            sent.push(now);
        }
    }
    assert_eq!(sent, vec![100, 1100, 2100]);
    let endless = all(SERVICE, 1000).timeout(u64::MAX).listen(5);
    assert!(!endless.is_over(u64::MAX));
}

#[test]
fn an_error_says_what_went_wrong() {
    assert_eq!(Error::Io(failure(98)).message(), "os error 98");
    assert_eq!(Error::from(failure(98)), Error::Io(failure(98)));
    assert_eq!(
        Error::Dns(DnsError::HeaderTooShort).message(),
        "packet is smaller than header size"
    );
    assert_eq!(
        Error::from(DnsError::ReservedBitsAreNonZero).message(),
        "packet has non-zero reserved bits"
    );
    assert_eq!(Error::Dns(DnsError::Malformed("BadPointer".to_string())).message(), "BadPointer");
    assert_eq!(Error::from(mdns::errors::TimeoutError).message(), "future has timed out");
    assert!(DnsError::HeaderTooShort.is_envelope());
    assert!(DnsError::ReservedBitsAreNonZero.is_envelope());
    assert!(!DnsError::Malformed("UnexpectedEOF".to_string()).is_envelope());
}
