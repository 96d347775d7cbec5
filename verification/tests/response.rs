use mdns::addr::{IpAddr, Ipv4Addr, Ipv6Addr, SocketAddr};
use mdns::codec::{Message, Payload, RecordClass, Resource};
use mdns::response::{Record, RecordKind, Response};

fn record(name: &str, kind: RecordKind) -> Record {
    Record { name: name.to_string(), class: RecordClass::IN, ttl: 120, kind }
}

fn ptr(target: &str) -> Record {
    record("_svc._tcp.local", RecordKind::PTR(target.to_string()))
}

fn a(a: u8, b: u8, c: u8, d: u8) -> Record {
    record("dev1.local", RecordKind::A(Ipv4Addr::new(a, b, c, d)))
}

fn srv(port: u16) -> Record {
    record(
        "dev1._svc._tcp.local",
        RecordKind::SRV { priority: 0, weight: 0, port, target: "dev1.local".to_string() },
    )
}

fn txt(strings: &[&str]) -> Record {
    record(
        "dev1._svc._tcp.local",
        RecordKind::TXT(strings.iter().map(|s| s.to_string()).collect()),
    )
}

fn response(answers: Vec<Record>, nameservers: Vec<Record>, additional: Vec<Record>) -> Response {
    Response { answers, nameservers, additional }
}

#[test]
fn a_pointer_and_an_address_give_hostname_and_ip() {
    let r = response(vec![ptr("dev1._svc._tcp.local")], vec![], vec![a(192, 0, 2, 5)]);
    assert_eq!(r.hostname(), Some("dev1._svc._tcp.local"));
    assert_eq!(r.ip_addr(), Some(IpAddr::V4(Ipv4Addr::new(192, 0, 2, 5))));
}

#[test]
fn a_response_is_empty_exactly_when_all_sections_are() {
    assert!(response(vec![], vec![], vec![]).is_empty());
    assert!(!response(vec![ptr("x")], vec![], vec![]).is_empty());
    assert!(!response(vec![], vec![ptr("x")], vec![]).is_empty());
    assert!(!response(vec![], vec![], vec![ptr("x")]).is_empty());
    assert!(!response(vec![ptr("x")], vec![ptr("y")], vec![ptr("z")]).is_empty());
}

#[test]
fn records_come_answers_first_then_nameservers_then_additional() {
    let r = response(
        vec![ptr("a1"), ptr("a2")],
        vec![ptr("n1")],
        vec![ptr("x1"), ptr("x2")],
    );
    let targets: Vec<&RecordKind> = r.records().into_iter().map(|record| &record.kind).collect();
    assert_eq!(
        targets,
        vec![
            &RecordKind::PTR("a1".to_string()),
            &RecordKind::PTR("a2".to_string()),
            &RecordKind::PTR("n1".to_string()),
            &RecordKind::PTR("x1".to_string()),
            &RecordKind::PTR("x2".to_string()),
        ]
    );
    assert!(response(vec![], vec![], vec![]).records().is_empty());
}

#[test]
fn hostname_is_the_first_pointer_in_section_order() {
    let r = response(vec![a(10, 0, 0, 1)], vec![ptr("second")], vec![ptr("third")]);
    assert_eq!(r.hostname(), Some("second"));
    let r = response(vec![srv(80), ptr("first"), ptr("other")], vec![ptr("second")], vec![]);
    assert_eq!(r.hostname(), Some("first"));
    let r = response(vec![], vec![], vec![a(10, 0, 0, 1), ptr("last")]);
    assert_eq!(r.hostname(), Some("last"));
}

#[test]
fn hostname_is_none_without_a_pointer() {
    assert_eq!(response(vec![], vec![], vec![]).hostname(), None);
    let r = response(vec![a(10, 0, 0, 1)], vec![srv(1)], vec![txt(&["k=v"])]);
    assert_eq!(r.hostname(), None);
    let r = response(vec![record("n", RecordKind::CNAME("dev1".to_string()))], vec![], vec![]);
    assert_eq!(r.hostname(), None);
}

#[test]
fn ip_addr_is_the_first_address_of_either_family() {
    let v6 = Ipv6Addr { bits: 0x2001_0db8_0000_0000_0000_0000_0000_0001 };
    let r = response(
        vec![ptr("dev1")],
        vec![record("dev1.local", RecordKind::AAAA(v6))],
        vec![a(192, 0, 2, 5)],
    );
    assert_eq!(r.ip_addr(), Some(IpAddr::V6(v6)));
    let r = response(vec![a(192, 0, 2, 5), a(192, 0, 2, 6)], vec![], vec![]);
    assert_eq!(r.ip_addr(), Some(IpAddr::V4(Ipv4Addr::new(192, 0, 2, 5))));
    assert_eq!(response(vec![ptr("dev1")], vec![], vec![]).ip_addr(), None);
}

#[test]
fn port_is_that_of_the_first_service_record() {
    let r = response(vec![ptr("dev1")], vec![srv(8009)], vec![srv(80)]);
    assert_eq!(r.port(), Some(8009));
    assert_eq!(response(vec![ptr("dev1")], vec![], vec![]).port(), None);
}

#[test]
fn socket_address_needs_both_address_and_port() {
    let r = response(vec![ptr("dev1")], vec![], vec![srv(8009), a(192, 0, 2, 5)]);
    assert_eq!(
        r.socket_address(),
        Some(SocketAddr::new(IpAddr::V4(Ipv4Addr::new(192, 0, 2, 5)), 8009))
    );
    assert_eq!(response(vec![a(192, 0, 2, 5)], vec![], vec![]).socket_address(), None);
    assert_eq!(response(vec![srv(8009)], vec![], vec![]).socket_address(), None);
    assert_eq!(response(vec![], vec![], vec![]).socket_address(), None);
}

#[test]
fn txt_records_are_flattened_in_order() {
    let r = response(
        vec![txt(&["a=1", "b=2"]), ptr("dev1")],
        vec![txt(&[])],
        vec![txt(&["c=3"])],
    );
    assert_eq!(r.txt_records(), vec!["a=1", "b=2", "c=3"]);
    assert!(response(vec![ptr("dev1")], vec![], vec![]).txt_records().is_empty());
}

#[test]
fn ipv4_octets_round_trip() {
    let addr = Ipv4Addr::new(224, 0, 0, 251);
    assert_eq!(addr.bits, 0xE000_00FB);
    assert_eq!(addr.octets(), [224, 0, 0, 251]);
    assert_eq!(Ipv4Addr::new(0, 0, 0, 0).bits, 0);
    assert_eq!(Ipv4Addr::new(255, 255, 255, 255).bits, u32::MAX);
    assert_eq!(Ipv4Addr { bits: 0xC000_0205 }.octets(), [192, 0, 2, 5]);
}

#[test]
fn payloads_keep_addresses_names_and_numbers() {
    let v4 = Ipv4Addr::new(192, 0, 2, 5);
    let v6 = Ipv6Addr { bits: 1 };
    assert_eq!(RecordKind::from_rr_data(&Payload::A(v4)), RecordKind::A(v4));
    assert_eq!(RecordKind::from_rr_data(&Payload::AAAA(v6)), RecordKind::AAAA(v6));
    assert_eq!(
        RecordKind::from_rr_data(&Payload::CNAME("c.local".to_string())),
        RecordKind::CNAME("c.local".to_string())
    );
    assert_eq!(
        RecordKind::from_rr_data(&Payload::NS("ns.local".to_string())),
        RecordKind::NS("ns.local".to_string())
    );
    assert_eq!(
        RecordKind::from_rr_data(&Payload::PTR("dev1.local".to_string())),
        RecordKind::PTR("dev1.local".to_string())
    );
    assert_eq!(
        RecordKind::from_rr_data(&Payload::MX { preference: 10, exchange: "mx.local".to_string() }),
        RecordKind::MX { preference: 10, exchange: "mx.local".to_string() }
    );
    assert_eq!(
        RecordKind::from_rr_data(&Payload::SRV {
            priority: 1,
            weight: 2,
            port: 8009,
            target: "dev1.local".to_string()
        }),
        RecordKind::SRV { priority: 1, weight: 2, port: 8009, target: "dev1.local".to_string() }
    );
}

#[test]
fn text_payloads_are_read_leniently() {
    let payload = Payload::TXT(vec![b"id=42".to_vec(), vec![b'a', 0xff, b'b'], vec![]]);
    assert_eq!(
        RecordKind::from_rr_data(&payload),
        RecordKind::TXT(vec!["id=42".to_string(), "a\u{fffd}b".to_string(), String::new()])
    );
    assert_eq!(RecordKind::from_rr_data(&Payload::TXT(vec![])), RecordKind::TXT(vec![]));
}

#[test]
fn unsupported_payloads_degrade_to_unimplemented() {
    assert_eq!(
        RecordKind::from_rr_data(&Payload::SOA),
        RecordKind::Unimplemented(b"SOA record handling is not implemented".to_vec())
    );
    assert_eq!(
        RecordKind::from_rr_data(&Payload::Unknown(vec![1, 2, 3])),
        RecordKind::Unimplemented(vec![1, 2, 3])
    );
    assert_eq!(
        RecordKind::from_rr_data(&Payload::Unknown(vec![])),
        RecordKind::Unimplemented(vec![])
    );
}

#[test]
fn a_resource_record_keeps_name_class_and_ttl() {
    let rr = Resource {
        name: "_svc._tcp.local".to_string(),
        cls: RecordClass::CH,
        ttl: 4500,
        data: Payload::PTR("dev1._svc._tcp.local".to_string()),
    };
    assert_eq!(
        Record::from_resource_record(&rr),
        Record {
            name: "_svc._tcp.local".to_string(),
            class: RecordClass::CH,
            ttl: 4500,
            kind: RecordKind::PTR("dev1._svc._tcp.local".to_string()),
        }
    );
}

#[test]
fn a_packet_becomes_a_response_section_by_section() {
    let rr = |name: &str, data: Payload| Resource {
        name: name.to_string(),
        cls: RecordClass::IN,
        ttl: 120,
        data,
    };
    let packet = Message {
        answers: vec![
            rr("_svc._tcp.local", Payload::PTR("dev1".to_string())),
            rr("_svc._tcp.local", Payload::PTR("dev2".to_string())),
        ],
        nameservers: vec![rr("local", Payload::SOA)],
        additional: vec![rr("dev1.local", Payload::A(Ipv4Addr::new(192, 0, 2, 5)))],
    };
    let expected = response(
        vec![ptr("dev1"), ptr("dev2")],
        vec![record(
            "local",
            RecordKind::Unimplemented(b"SOA record handling is not implemented".to_vec()),
        )],
        vec![a(192, 0, 2, 5)],
    );
    assert_eq!(Response::from_packet(&packet), expected);
    let empty = Message { answers: vec![], nameservers: vec![], additional: vec![] };
    assert!(Response::from_packet(&empty).is_empty());
}
