//! The boundary to the DNS codec.
//!
//! The wire format is the codec's business. This module holds what a decoded
//! message is made of as plain values, reads a message out of the codec's own
//! structures record by record, and asks the codec for the bytes of a query.
//! What the codec computes is trusted; it is named here and nowhere spelled out.

use vstd::prelude::*;
use vstd::string::StringSliceAdditionalSpecFns;
use crate::addr::{Ipv4Addr, Ipv6Addr};
use crate::errors::{DnsError, DnsErrorView};

verus! {

/// One resource record of a message, as the codec parsed it.
#[verifier::external_type_specification]
#[verifier::external_body]
pub struct ExResourceRecord<'a>(dns_parser::ResourceRecord<'a>);

/// The class of a resource record.
#[derive(Clone, Copy, Debug, PartialEq, Eq, Structural, Hash)]
pub enum RecordClass {
    /// The Internet.
    IN,
    /// CSNET.
    CS,
    /// CHAOS.
    CH,
    /// Hesiod.
    HS,
}

/// The payload of a resource record.
#[derive(Clone, Debug, PartialEq, Eq)]
pub enum Payload {
    A(Ipv4Addr),
    AAAA(Ipv6Addr),
    CNAME(String),
    MX { preference: u16, exchange: String },
    NS(String),
    PTR(String),
    /// A start-of-authority record; its fields are not kept.
    SOA,
    SRV { priority: u16, weight: u16, port: u16, target: String },
    /// The character strings of a text record, undecoded.
    TXT(Vec<Vec<u8>>),
    /// The payload of a record type that the codec does not take apart.
    Unknown(Vec<u8>),
}

/// A resource record.
#[derive(Clone, Debug, PartialEq, Eq)]
pub struct Resource {
    pub name: String,
    pub cls: RecordClass,
    pub ttl: u32,
    pub data: Payload,
}

/// The record sections of a decoded message, each in wire order.
#[derive(Clone, Debug, PartialEq, Eq)]
pub struct Message {
    pub answers: Vec<Resource>,
    pub nameservers: Vec<Resource>,
    pub additional: Vec<Resource>,
}

/// What an [`Payload`] holds.
pub ghost enum PayloadView {
    A(Ipv4Addr),
    AAAA(Ipv6Addr),
    CNAME(Seq<char>),
    MX { preference: u16, exchange: Seq<char> },
    NS(Seq<char>),
    PTR(Seq<char>),
    SOA,
    SRV { priority: u16, weight: u16, port: u16, target: Seq<char> },
    TXT(Seq<Seq<u8>>),
    Unknown(Seq<u8>),
}

/// What a [`Resource`] holds.
pub ghost struct ResourceView {
    pub name: Seq<char>,
    pub cls: RecordClass,
    pub ttl: u32,
    pub data: PayloadView,
}

/// What a [`Message`] holds.
pub ghost struct MessageView {
    pub answers: Seq<ResourceView>,
    pub nameservers: Seq<ResourceView>,
    pub additional: Seq<ResourceView>,
}

/// The character strings of a text payload.
pub open spec fn chunks_view(chunks: Seq<Vec<u8>>) -> Seq<Seq<u8>> {
    chunks.map_values(|chunk: Vec<u8>| chunk@)
}

/// The records of one section.
pub open spec fn records_view(records: Seq<Resource>) -> Seq<ResourceView> {
    records.map_values(|record: Resource| record@)
}

impl View for Payload {
    type V = PayloadView;

    open spec fn view(&self) -> PayloadView {
        match *self {
            Payload::A(addr) => PayloadView::A(addr),
            Payload::AAAA(addr) => PayloadView::AAAA(addr),
            Payload::CNAME(name) => PayloadView::CNAME(name@),
            Payload::MX { preference, exchange } => PayloadView::MX {
                preference,
                exchange: exchange@,
            },
            Payload::NS(name) => PayloadView::NS(name@),
            Payload::PTR(name) => PayloadView::PTR(name@),
            Payload::SOA => PayloadView::SOA,
            Payload::SRV { priority, weight, port, target } => PayloadView::SRV {
                priority,
                weight,
                port,
                target: target@,
            },
            Payload::TXT(chunks) => PayloadView::TXT(chunks_view(chunks@)),
            Payload::Unknown(bytes) => PayloadView::Unknown(bytes@),
        }
    }
}

impl View for Resource {
    type V = ResourceView;

    open spec fn view(&self) -> ResourceView {
        ResourceView { name: self.name@, cls: self.cls, ttl: self.ttl, data: self.data@ }
    }
}

impl View for Message {
    type V = MessageView;

    open spec fn view(&self) -> MessageView {
        MessageView {
            answers: records_view(self.answers@),
            nameservers: records_view(self.nameservers@),
            additional: records_view(self.additional@),
        }
    }
}

impl PayloadView {
    /// Whether the payload holds a domain name, which the codec writes out as text.
    pub open spec fn holds_name(self) -> bool {
        self is CNAME || self is MX || self is NS || self is PTR || self is SRV
    }
}

/// What the codec parsed out of one record of a message.
pub uninterp spec fn parsed_record(record: &dns_parser::ResourceRecord) -> ResourceView;

/// What the codec makes of a whole message: its three record sections, or
/// its reason for rejecting the bytes.
pub uninterp spec fn parsed_message(bytes: Seq<u8>) -> Result<MessageView, DnsErrorView>;

/// What the codec parsed out of each record of a section.
pub open spec fn parsed_records(records: Seq<dns_parser::ResourceRecord>) -> Seq<
    ResourceView,
> {
    records.map_values(|record: dns_parser::ResourceRecord| parsed_record(&record))
}

/// Calls `dns_parser::Packet::parse` and hands out the three record sections
/// of its result, each record still in the codec's own form, or the codec's
/// error: the two faults of the header as they are, any other by its
/// description.
///
/// Trusted: the codec accepts the bytes exactly where `parsed_message` is
/// `Ok`, and the sections then hold, in order, the records it names. The
/// codec keeps an OPT pseudo-record apart from the additional section, and so
/// does this.
#[verifier::external_body]
fn parse_sections<'a>(bytes: &'a [u8]) -> (parsed: Result<
    (
        Vec<dns_parser::ResourceRecord<'a>>,
        Vec<dns_parser::ResourceRecord<'a>>,
        Vec<dns_parser::ResourceRecord<'a>>,
    ),
    DnsError,
>)
    ensures
        match parsed {
            Ok(sections) => parsed_message(bytes@) == Ok::<MessageView, DnsErrorView>(
                MessageView {
                    answers: parsed_records(sections.0@),
                    nameservers: parsed_records(sections.1@),
                    additional: parsed_records(sections.2@),
                },
            ),
            Err(error) => parsed_message(bytes@) == Err::<MessageView, DnsErrorView>(error@),
        },
{
    match dns_parser::Packet::parse(bytes) {
        Ok(packet) => Ok((packet.answers, packet.nameservers, packet.additional)),
        Err(dns_parser::Error::HeaderTooShort) => Err(DnsError::HeaderTooShort),
        Err(dns_parser::Error::ReservedBitsAreNonZero) => Err(DnsError::ReservedBitsAreNonZero),
        Err(other) => Err(DnsError::Malformed(other.to_string())),
    }
}

/// Reads the owner name, class and time to live of a parsed record. The name
/// is written out by `dns_parser::Name`'s `to_string`.
///
/// Trusted: the three values are those of the record.
#[verifier::external_body]
fn record_header(record: &dns_parser::ResourceRecord) -> (header: (String, RecordClass, u32))
    ensures
        header.0@ == parsed_record(record).name,
        header.1 == parsed_record(record).cls,
        header.2 == parsed_record(record).ttl,
{
    let cls = match record.cls {
        dns_parser::Class::IN => RecordClass::IN,
        dns_parser::Class::CS => RecordClass::CS,
        dns_parser::Class::CH => RecordClass::CH,
        dns_parser::Class::HS => RecordClass::HS,
    };
    (record.name.to_string(), cls, record.ttl)
}

/// Reads the payload of a parsed record where it holds a domain name, and
/// writes the name out by `dns_parser::Name`'s `to_string`.
///
/// Trusted: the result is the record's payload where that is a CNAME, MX, NS,
/// PTR or SRV payload, and `None` for every other.
#[verifier::external_body]
fn record_name_data(record: &dns_parser::ResourceRecord) -> (data: Option<Payload>)
    ensures
        match data {
            Some(data) => data@ == parsed_record(record).data && data@.holds_name(),
            None => !parsed_record(record).data.holds_name(),
        },
{
    match record.data {
        dns_parser::RData::CNAME(ref r) => Some(Payload::CNAME(r.0.to_string())),
        dns_parser::RData::MX(ref r) => {
            Some(Payload::MX { preference: r.preference, exchange: r.exchange.to_string() })
        },
        dns_parser::RData::NS(ref r) => Some(Payload::NS(r.0.to_string())),
        dns_parser::RData::PTR(ref r) => Some(Payload::PTR(r.0.to_string())),
        dns_parser::RData::SRV(ref r) => {
            let (priority, weight, port) = (r.priority, r.weight, r.port);
            Some(Payload::SRV { priority, weight, port, target: r.target.to_string() })
        },
        _ => None,
    }
}

/// Reads the payload of a parsed record where it holds no domain name: an
/// address, the character strings of a text record (by `iter` of the codec's
/// text record), or bytes that the codec left alone.
///
/// Trusted: the result is the record's payload where that is an A, AAAA, SOA,
/// TXT or unknown payload, and `None` for every other.
#[verifier::external_body]
fn record_plain_data(record: &dns_parser::ResourceRecord) -> (data: Option<Payload>)
    ensures
        match data {
            Some(data) => data@ == parsed_record(record).data && !data@.holds_name(),
            None => parsed_record(record).data.holds_name(),
        },
{
    match record.data {
        dns_parser::RData::A(ref r) => Some(Payload::A(Ipv4Addr { bits: r.0.into() })),
        dns_parser::RData::AAAA(ref r) => Some(Payload::AAAA(Ipv6Addr { bits: r.0.into() })),
        dns_parser::RData::SOA(_) => Some(Payload::SOA),
        dns_parser::RData::TXT(ref r) => Some(
            Payload::TXT(r.iter().map(|chunk| chunk.to_vec()).collect()),
        ),
        dns_parser::RData::Unknown(bytes) => Some(Payload::Unknown(bytes.to_vec())),
        _ => None,
    }
}

impl Payload {
    /// The payload of a record that the codec parsed.
    fn of_parsed(record: &dns_parser::ResourceRecord) -> (data: Payload)
        ensures
            data@ == parsed_record(record).data,
    {
        match record_name_data(record) {
            Some(data) => data,
            None => match record_plain_data(record) {
                Some(data) => data,
                None => vstd::pervasive::unreached(),
            },
        }
    }
}

impl Resource {
    /// The record that the codec parsed, as plain values.
    fn of_parsed(record: &dns_parser::ResourceRecord) -> (plain: Resource)
        ensures
            plain@ == parsed_record(record),
    {
        let (name, cls, ttl) = record_header(record);
        Resource { name, cls, ttl, data: Payload::of_parsed(record) }
    }
}

/// The records of one parsed section, in order.
fn section_of_parsed(records: &Vec<dns_parser::ResourceRecord>) -> (plain: Vec<Resource>)
    ensures
        records_view(plain@) == parsed_records(records@),
{
    let mut plain: Vec<Resource> = Vec::new();
    let mut i: usize = 0;
    while i < records.len()
        invariant
            i <= records.len(),
            plain@.len() == i,
            forall|k: int| 0 <= k < i ==> (#[trigger] plain@[k])@ == parsed_record(&records@[k]),
        decreases records.len() - i,
    {
        plain.push(Resource::of_parsed(&records[i]));
        i += 1;
    }
    assert(records_view(plain@) =~= parsed_records(records@));
    plain
}

impl Message {
    /// Parses a DNS message.
    ///
    /// The codec decides whether the bytes are a message and what its records
    /// hold: the result is `Ok` exactly where the codec accepts the bytes, and
    /// then holds the answer, name server and additional records that it
    /// parsed, each section in wire order. A record of a type that the codec
    /// does not take apart is kept as `Payload::Unknown`.
    pub fn parse(data: &[u8]) -> (parsed: Result<Message, DnsError>)
        ensures
            match parsed {
                Ok(message) => parsed_message(data@) == Ok::<MessageView, DnsErrorView>(message@),
                Err(error) => parsed_message(data@) == Err::<MessageView, DnsErrorView>(error@),
            },
    {
        match parse_sections(data) {
            Ok((answers, nameservers, additional)) => Ok(
                Message {
                    answers: section_of_parsed(&answers),
                    nameservers: section_of_parsed(&nameservers),
                    additional: section_of_parsed(&additional),
                },
            ),
            Err(error) => Err(error),
        }
    }
}

/// The byte that parts the labels of a name.
pub const DOT: u8 = 0x2e;

/// The most bytes of a name that a query has room for.
pub const MAX_NAME_LEN: usize = 494;

/// The length that a label must stay under.
pub const LABEL_LIMIT: usize = 63;

/// Whether a dot stands among the `LABEL_LIMIT` bytes of `name` from `start` on.
pub open spec fn label_ends_within(name: Seq<u8>, start: int) -> bool {
    exists|k: int| start <= k < start + LABEL_LIMIT && k < name.len() && name[k] == DOT
}

/// Whether the codec can write a question for a name of these bytes into one
/// message: every label, which is what stands between two dots or between a
/// dot and an end of the name, is shorter than `LABEL_LIMIT` bytes, and the
/// name is no longer than `MAX_NAME_LEN` bytes.
pub open spec fn encodable(name: Seq<u8>) -> bool {
    &&& name.len() <= MAX_NAME_LEN
    &&& forall|start: int|
        0 <= start && start + LABEL_LIMIT <= name.len() ==> #[trigger] label_ends_within(
            name,
            start,
        )
}

/// Whether a query for `name` can be built: see [`encodable`].
pub fn is_encodable(name: &str) -> (fits: bool)
    ensures
        fits == encodable(name.spec_bytes()),
{
    let bytes = name.as_bytes();
    if bytes.len() > MAX_NAME_LEN {
        return false;
    }
    let mut run: usize = 0;
    let mut i: usize = 0;
    while i < bytes.len()
        invariant
            bytes@ == name.spec_bytes(),
            i <= bytes.len(),
            run <= i,
            run < LABEL_LIMIT,
            forall|k: int| i - run <= k < i ==> bytes@[k] != DOT,
            run < i ==> bytes@[i - run - 1] == DOT,
            forall|start: int|
                0 <= start && start + LABEL_LIMIT <= i ==> #[trigger] label_ends_within(
                    bytes@,
                    start,
                ),
        decreases bytes.len() - i,
    {
        if bytes[i] == DOT {
            run = 0;
        } else {
            run += 1;
            if run == LABEL_LIMIT {
                assert(!label_ends_within(bytes@, i + 1 - LABEL_LIMIT));
                return false;
            }
        }
        i += 1;
        assert forall|start: int|
            0 <= start && start + LABEL_LIMIT <= i implies #[trigger] label_ends_within(
            bytes@,
            start,
        ) by {
            if start + LABEL_LIMIT == i {
                assert(bytes@[i - run - 1] == DOT);
            }
        }
    }
    true
}

/// The bytes of the message that asks one question, for the `PTR` records of
/// class `IN` under `name`, as the codec writes it.
pub uninterp spec fn ptr_query(
    id: u16,
    recursion: bool,
    name: Seq<char>,
    prefer_unicast: bool,
) -> Seq<u8>;

/// Builds a query by `dns_parser::Builder`: `new_query`, one `add_question`
/// for the `PTR` records of class `IN`, then `build`.
///
/// Trusted: the bytes depend on the four arguments alone. The codec panics on
/// a label of 63 bytes or more and cuts a message short at 512 bytes, of which
/// all but the name take 18; `requires` keeps both away.
#[verifier::external_body]
pub(crate) fn build_ptr_query(
    id: u16,
    recursion: bool,
    name: &str,
    prefer_unicast: bool,
) -> (packet: Vec<u8>)
    requires
        encodable(name.spec_bytes()),
    ensures
        packet@ == ptr_query(id, recursion, name@, prefer_unicast),
{
    let mut builder = dns_parser::Builder::new_query(id, recursion);
    builder.add_question(
        name,
        prefer_unicast,
        dns_parser::QueryType::PTR,
        dns_parser::QueryClass::IN,
    );
    match builder.build() {
        Ok(packet) => packet,
        Err(packet) => packet,
    }
}

} // verus!
