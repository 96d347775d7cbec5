//! The record model: what a decoded message says, and the questions a caller
//! asks of it.

use vstd::prelude::*;
use vstd::string::StringSliceAdditionalSpecFns;
use crate::addr::{IpAddr, Ipv4Addr, Ipv6Addr, SocketAddr};
use crate::codec::{
    chunks_view,
    records_view,
    Message,
    MessageView,
    Payload,
    PayloadView,
    RecordClass,
    Resource,
    ResourceView,
};

verus! {

/// A DNS response.
#[derive(Clone, Debug, PartialEq, Eq)]
pub struct Response {
    pub answers: Vec<Record>,
    pub nameservers: Vec<Record>,
    pub additional: Vec<Record>,
}

/// Any type of DNS record.
#[derive(Clone, Debug, PartialEq, Eq)]
pub struct Record {
    pub name: String,
    pub class: RecordClass,
    pub ttl: u32,
    pub kind: RecordKind,
}

/// A specific DNS record variant.
#[derive(Clone, Debug, PartialEq, Eq)]
pub enum RecordKind {
    A(Ipv4Addr),
    AAAA(Ipv6Addr),
    CNAME(String),
    MX { preference: u16, exchange: String },
    NS(String),
    SRV { priority: u16, weight: u16, port: u16, target: String },
    TXT(Vec<String>),
    PTR(String),
    /// A record kind that this library does not take apart.
    Unimplemented(Vec<u8>),
}

/// What a [`RecordKind`] holds.
pub ghost enum RecordKindView {
    A(Ipv4Addr),
    AAAA(Ipv6Addr),
    CNAME(Seq<char>),
    MX { preference: u16, exchange: Seq<char> },
    NS(Seq<char>),
    SRV { priority: u16, weight: u16, port: u16, target: Seq<char> },
    TXT(Seq<Seq<char>>),
    PTR(Seq<char>),
    Unimplemented(Seq<u8>),
}

/// What a [`Record`] holds.
pub ghost struct RecordView {
    pub name: Seq<char>,
    pub class: RecordClass,
    pub ttl: u32,
    pub kind: RecordKindView,
}

/// What a [`Response`] holds: its three sections, each in wire order.
pub ghost struct ResponseView {
    pub answers: Seq<RecordView>,
    pub nameservers: Seq<RecordView>,
    pub additional: Seq<RecordView>,
}

/// The texts that a sequence of strings holds.
pub open spec fn texts_view(texts: Seq<String>) -> Seq<Seq<char>> {
    texts.map_values(|text: String| text@)
}

/// The texts that a sequence of string slices holds.
pub open spec fn strs_view(texts: Seq<&str>) -> Seq<Seq<char>> {
    texts.map_values(|text: &str| text@)
}

/// The records of one section.
pub open spec fn section_view(records: Seq<Record>) -> Seq<RecordView> {
    records.map_values(|record: Record| record@)
}

/// The records that a sequence of borrowed records holds.
pub open spec fn refs_view(records: Seq<&Record>) -> Seq<RecordView> {
    records.map_values(|record: &Record| record@)
}

impl View for RecordKind {
    type V = RecordKindView;

    open spec fn view(&self) -> RecordKindView {
        match *self {
            RecordKind::A(addr) => RecordKindView::A(addr),
            RecordKind::AAAA(addr) => RecordKindView::AAAA(addr),
            RecordKind::CNAME(name) => RecordKindView::CNAME(name@),
            RecordKind::MX { preference, exchange } => RecordKindView::MX {
                preference,
                exchange: exchange@,
            },
            RecordKind::NS(name) => RecordKindView::NS(name@),
            RecordKind::SRV { priority, weight, port, target } => RecordKindView::SRV {
                priority,
                weight,
                port,
                target: target@,
            },
            RecordKind::TXT(texts) => RecordKindView::TXT(texts_view(texts@)),
            RecordKind::PTR(name) => RecordKindView::PTR(name@),
            RecordKind::Unimplemented(bytes) => RecordKindView::Unimplemented(bytes@),
        }
    }
}

impl View for Record {
    type V = RecordView;

    open spec fn view(&self) -> RecordView {
        RecordView { name: self.name@, class: self.class, ttl: self.ttl, kind: self.kind@ }
    }
}

impl View for Response {
    type V = ResponseView;

    open spec fn view(&self) -> ResponseView {
        ResponseView {
            answers: section_view(self.answers@),
            nameservers: section_view(self.nameservers@),
            additional: section_view(self.additional@),
        }
    }
}

/// Whether `i` is the place of the first record in `records` that is `wanted`.
pub open spec fn is_first(
    records: Seq<RecordView>,
    wanted: spec_fn(RecordView) -> bool,
    i: int,
) -> bool {
    &&& 0 <= i < records.len()
    &&& wanted(records[i])
    &&& forall|j: int| 0 <= j < i ==> !wanted(#[trigger] records[j])
}

/// The first record in `records` that is `wanted`, if there is one.
pub open spec fn first(records: Seq<RecordView>, wanted: spec_fn(RecordView) -> bool) -> Option<
    RecordView,
> {
    if exists|i: int| is_first(records, wanted, i) {
        Some(records[choose|i: int| is_first(records, wanted, i)])
    } else {
        None
    }
}

/// Holds of the records that carry an address.
pub open spec fn carries_address() -> spec_fn(RecordView) -> bool {
    |record: RecordView| record.kind is A || record.kind is AAAA
}

/// Holds of the `PTR` records.
pub open spec fn is_pointer() -> spec_fn(RecordView) -> bool {
    |record: RecordView| record.kind is PTR
}

/// Holds of the `SRV` records.
pub open spec fn is_service() -> spec_fn(RecordView) -> bool {
    |record: RecordView| record.kind is SRV
}

/// There is at most one first place.
pub proof fn first_is_unique(
    records: Seq<RecordView>,
    wanted: spec_fn(RecordView) -> bool,
    i: int,
)
    requires
        is_first(records, wanted, i),
    ensures
        first(records, wanted) == Some(records[i]),
{
    let chosen = choose|k: int| is_first(records, wanted, k);
    if chosen < i {
        assert(!wanted(records[chosen]));
    } else if i < chosen {
        assert(!wanted(records[i]));
    }
}

/// Where no record is wanted, there is no first.
pub proof fn first_is_none(records: Seq<RecordView>, wanted: spec_fn(RecordView) -> bool)
    requires
        forall|j: int| 0 <= j < records.len() ==> !wanted(#[trigger] records[j]),
    ensures
        first(records, wanted) is None,
{
}

/// The strings of each record: those of a `TXT` record, and none of any other.
pub open spec fn txt_of(records: Seq<RecordView>) -> Seq<Seq<Seq<char>>> {
    records.map_values(|record: RecordView| record.kind.txt())
}

/// The text strings that undecoded character strings stand for.
pub open spec fn lossy_texts(chunks: Seq<Seq<u8>>) -> Seq<Seq<char>> {
    chunks.map_values(|chunk: Seq<u8>| utf8_lossy(chunk))
}

/// The bytes that stand in for a start-of-authority record, which this
/// library does not take apart.
pub open spec fn soa_note() -> Seq<u8> {
    "SOA record handling is not implemented".spec_bytes()
}

impl RecordKindView {
    /// The record kind that a payload becomes.
    pub open spec fn from_rr_data(data: PayloadView) -> RecordKindView {
        match data {
            PayloadView::A(addr) => RecordKindView::A(addr),
            PayloadView::AAAA(addr) => RecordKindView::AAAA(addr),
            PayloadView::CNAME(name) => RecordKindView::CNAME(name),
            PayloadView::MX { preference, exchange } => RecordKindView::MX { preference, exchange },
            PayloadView::NS(name) => RecordKindView::NS(name),
            PayloadView::PTR(name) => RecordKindView::PTR(name),
            PayloadView::SRV { priority, weight, port, target } => RecordKindView::SRV {
                priority,
                weight,
                port,
                target,
            },
            PayloadView::TXT(chunks) => RecordKindView::TXT(lossy_texts(chunks)),
            PayloadView::SOA => RecordKindView::Unimplemented(soa_note()),
            PayloadView::Unknown(bytes) => RecordKindView::Unimplemented(bytes),
        }
    }

    /// The address of an `A` or `AAAA` record.
    pub open spec fn ip_addr(self) -> Option<IpAddr> {
        match self {
            RecordKindView::A(addr) => Some(IpAddr::V4(addr)),
            RecordKindView::AAAA(addr) => Some(IpAddr::V6(addr)),
            _ => None,
        }
    }

    /// The target of a `PTR` record.
    pub open spec fn hostname(self) -> Option<Seq<char>> {
        match self {
            RecordKindView::PTR(host) => Some(host),
            _ => None,
        }
    }

    /// The port of an `SRV` record.
    pub open spec fn port(self) -> Option<u16> {
        match self {
            RecordKindView::SRV { port, .. } => Some(port),
            _ => None,
        }
    }

    /// The strings of a `TXT` record; of any other record, none.
    pub open spec fn txt(self) -> Seq<Seq<char>> {
        match self {
            RecordKindView::TXT(texts) => texts,
            _ => Seq::empty(),
        }
    }
}

impl RecordView {
    /// The record that a resource record of a message becomes.
    pub open spec fn from_resource_record(rr: ResourceView) -> RecordView {
        RecordView {
            name: rr.name,
            class: rr.cls,
            ttl: rr.ttl,
            kind: RecordKindView::from_rr_data(rr.data),
        }
    }
}

impl ResponseView {
    /// The response that a decoded message becomes: record for record, each
    /// section in its order.
    pub open spec fn from_packet(packet: MessageView) -> ResponseView {
        ResponseView {
            answers: packet.answers.map_values(
                |rr: ResourceView| RecordView::from_resource_record(rr),
            ),
            nameservers: packet.nameservers.map_values(
                |rr: ResourceView| RecordView::from_resource_record(rr),
            ),
            additional: packet.additional.map_values(
                |rr: ResourceView| RecordView::from_resource_record(rr),
            ),
        }
    }

    /// All records: the answers, then the name servers, then the additional
    /// records, each section in wire order.
    pub open spec fn records(self) -> Seq<RecordView> {
        self.answers + self.nameservers + self.additional
    }

    /// Whether the response holds no record at all.
    pub open spec fn is_empty(self) -> bool {
        self.answers.len() == 0 && self.nameservers.len() == 0 && self.additional.len() == 0
    }

    /// The address of the first `A` or `AAAA` record.
    pub open spec fn ip_addr(self) -> Option<IpAddr> {
        match first(self.records(), carries_address()) {
            Some(record) => record.kind.ip_addr(),
            None => None,
        }
    }

    /// The target of the first `PTR` record.
    pub open spec fn hostname(self) -> Option<Seq<char>> {
        match first(self.records(), is_pointer()) {
            Some(record) => record.kind.hostname(),
            None => None,
        }
    }

    /// The port of the first `SRV` record.
    pub open spec fn port(self) -> Option<u16> {
        match first(self.records(), is_service()) {
            Some(record) => record.kind.port(),
            None => None,
        }
    }

    /// The first address together with the first port, where there are both.
    pub open spec fn socket_address(self) -> Option<SocketAddr> {
        match (self.ip_addr(), self.port()) {
            (Some(ip), Some(port)) => Some(SocketAddr { ip, port }),
            _ => None,
        }
    }

    /// The strings of all `TXT` records, in the order of the records and,
    /// within a record, in the order of its strings.
    pub open spec fn txt_records(self) -> Seq<Seq<char>> {
        txt_of(self.records()).flatten()
    }
}

/// The text that `String::from_utf8_lossy` makes of the bytes.
pub uninterp spec fn utf8_lossy(bytes: Seq<u8>) -> Seq<char>;

/// Calls `String::from_utf8_lossy` and takes the text as an owned string.
///
/// Trusted: the text depends on the bytes alone. What it is (the text that the
/// bytes encode, with a replacement character for each part that encodes
/// none) is not stated.
#[verifier::external_body]
fn from_utf8_lossy(bytes: &[u8]) -> (text: String)
    ensures
        text@ == utf8_lossy(bytes@),
{
    String::from_utf8_lossy(bytes).into_owned()
}

impl RecordKind {
    /// Makes a record kind of a payload.
    ///
    /// Addresses, names and numbers are taken as they are. The character
    /// strings of a text record are read as UTF-8, leniently. A payload that
    /// the codec left alone is kept as `Unimplemented` bytes, and so is a
    /// start-of-authority record, with a note in place of its fields: no
    /// payload makes this fail.
    pub fn from_rr_data(data: &Payload) -> (kind: RecordKind)
        ensures
            kind@ == RecordKindView::from_rr_data(data@),
    {
        match data {
            Payload::A(addr) => RecordKind::A(*addr),
            Payload::AAAA(addr) => RecordKind::AAAA(*addr),
            Payload::CNAME(name) => RecordKind::CNAME(name.clone()),
            Payload::MX { preference, exchange } => RecordKind::MX {
                preference: *preference,
                exchange: exchange.clone(),
            },
            Payload::NS(name) => RecordKind::NS(name.clone()),
            Payload::PTR(name) => RecordKind::PTR(name.clone()),
            Payload::SRV { priority, weight, port, target } => RecordKind::SRV {
                priority: *priority,
                weight: *weight,
                port: *port,
                target: target.clone(),
            },
            Payload::TXT(chunks) => {
                let mut texts: Vec<String> = Vec::new();
                let mut i: usize = 0;
                while i < chunks.len()
                    invariant
                        i <= chunks.len(),
                        texts@.len() == i,
                        forall|k: int|
                            0 <= k < i ==> (#[trigger] texts@[k])@ == utf8_lossy(chunks@[k]@),
                    decreases chunks.len() - i,
                {
                    texts.push(from_utf8_lossy(chunks[i].as_slice()));
                    i += 1;
                }
                assert(texts_view(texts@) =~= lossy_texts(chunks_view(chunks@)));
                RecordKind::TXT(texts)
            },
            Payload::SOA => {
                let note = "SOA record handling is not implemented";
                RecordKind::Unimplemented(vstd::slice::slice_to_vec(note.as_bytes()))
            },
            Payload::Unknown(bytes) => RecordKind::Unimplemented(bytes.clone()),
        }
    }
}

impl Record {
    /// Makes a record of a resource record of a message: its name, class and
    /// time to live as they are, its payload by [`RecordKind::from_rr_data`].
    pub fn from_resource_record(rr: &Resource) -> (record: Record)
        ensures
            record@ == RecordView::from_resource_record(rr@),
    {
        Record {
            name: rr.name.clone(),
            class: rr.cls,
            ttl: rr.ttl,
            kind: RecordKind::from_rr_data(&rr.data),
        }
    }

    /// The records of one section, in order.
    fn from_section(section: &Vec<Resource>) -> (records: Vec<Record>)
        ensures
            section_view(records@) == records_view(section@).map_values(
                |rr: ResourceView| RecordView::from_resource_record(rr),
            ),
    {
        let mut records: Vec<Record> = Vec::new();
        let mut i: usize = 0;
        while i < section.len()
            invariant
                i <= section.len(),
                records@.len() == i,
                forall|k: int|
                    0 <= k < i ==> (#[trigger] records@[k])@ == RecordView::from_resource_record(
                        section@[k]@,
                    ),
            decreases section.len() - i,
        {
            records.push(Record::from_resource_record(&section[i]));
            i += 1;
        }
        assert(section_view(records@) =~= records_view(section@).map_values(
            |rr: ResourceView| RecordView::from_resource_record(rr),
        ));
        records
    }
}

impl Response {
    /// Makes a response of a decoded message: every record of every section,
    /// in wire order.
    pub fn from_packet(packet: &Message) -> (response: Response)
        ensures
            response@ == ResponseView::from_packet(packet@),
    {
        Response {
            answers: Record::from_section(&packet.answers),
            nameservers: Record::from_section(&packet.nameservers),
            additional: Record::from_section(&packet.additional),
        }
    }

    /// All records of the response: the answers, then the name servers, then
    /// the additional records, each section in wire order.
    pub fn records(&self) -> (records: Vec<&Record>)
        ensures
            refs_view(records@) == self@.records(),
    {
        let mut records: Vec<&Record> = Vec::new();
        let mut i: usize = 0;
        while i < self.answers.len()
            invariant
                i <= self.answers.len(),
                records@.len() == i,
                forall|k: int| 0 <= k < i ==> *(#[trigger] records@[k]) == self.answers@[k],
            decreases self.answers.len() - i,
        {
            records.push(&self.answers[i]);
            i += 1;
        }
        let ghost answers = self.answers@.len();
        i = 0;
        while i < self.nameservers.len()
            invariant
                i <= self.nameservers.len(),
                answers == self.answers@.len(),
                records@.len() == answers + i,
                forall|k: int| 0 <= k < answers ==> *(#[trigger] records@[k]) == self.answers@[k],
                forall|k: int|
                    answers <= k < answers + i ==> *(#[trigger] records@[k])
                        == self.nameservers@[k - answers],
            decreases self.nameservers.len() - i,
        {
            records.push(&self.nameservers[i]);
            i += 1;
        }
        let ghost servers = self.nameservers@.len();
        i = 0;
        while i < self.additional.len()
            invariant
                i <= self.additional.len(),
                answers == self.answers@.len(),
                servers == self.nameservers@.len(),
                records@.len() == answers + servers + i,
                forall|k: int| 0 <= k < answers ==> *(#[trigger] records@[k]) == self.answers@[k],
                forall|k: int|
                    answers <= k < answers + servers ==> *(#[trigger] records@[k])
                        == self.nameservers@[k - answers],
                forall|k: int|
                    answers + servers <= k < answers + servers + i ==> *(#[trigger] records@[k])
                        == self.additional@[k - answers - servers],
            decreases self.additional.len() - i,
        {
            records.push(&self.additional[i]);
            i += 1;
        }
        assert(refs_view(records@) =~= self@.records());
        records
    }

    /// Whether the response holds no record in any of its three sections.
    pub fn is_empty(&self) -> (empty: bool)
        ensures
            empty == (self.answers@.len() == 0 && self.nameservers@.len() == 0
                && self.additional@.len() == 0),
            empty == self@.is_empty(),
    {
        self.answers.is_empty() && self.nameservers.is_empty() && self.additional.is_empty()
    }

    /// The address of the first `A` or `AAAA` record, in the order of
    /// [`Response::records`]; `None` where there is no such record.
    pub fn ip_addr(&self) -> (addr: Option<IpAddr>)
        ensures
            addr == self@.ip_addr(),
    {
        let records = self.records();
        let mut i: usize = 0;
        while i < records.len()
            invariant
                i <= records.len(),
                refs_view(records@) == self@.records(),
                forall|j: int| 0 <= j < i ==> !carries_address()(#[trigger] self@.records()[j]),
            decreases records.len() - i,
        {
            assert(self@.records()[i as int] == records@[i as int]@);
            match &records[i].kind {
                RecordKind::A(addr) => {
                    proof {
                        first_is_unique(self@.records(), carries_address(), i as int);
                    }
                    return Some(IpAddr::V4(*addr));
                },
                RecordKind::AAAA(addr) => {
                    proof {
                        first_is_unique(self@.records(), carries_address(), i as int);
                    }
                    return Some(IpAddr::V6(*addr));
                },
                _ => {},
            }
            i += 1;
        }
        proof {
            first_is_none(self@.records(), carries_address());
        }
        None
    }

    /// The target of the first `PTR` record, in the order of
    /// [`Response::records`]; `None` where there is no such record.
    pub fn hostname(&self) -> (host: Option<&str>)
        ensures
            match host {
                Some(host) => self@.hostname() == Some(host@),
                None => self@.hostname() is None,
            },
    {
        match self.pointer() {
            Some(host) => Some(host.as_str()),
            None => None,
        }
    }

    /// The target of the first `PTR` record, as the record holds it.
    pub(crate) fn pointer(&self) -> (host: Option<&String>)
        ensures
            match host {
                Some(host) => self@.hostname() == Some(host@),
                None => self@.hostname() is None,
            },
    {
        let records = self.records();
        let mut i: usize = 0;
        while i < records.len()
            invariant
                i <= records.len(),
                refs_view(records@) == self@.records(),
                forall|j: int| 0 <= j < i ==> !is_pointer()(#[trigger] self@.records()[j]),
            decreases records.len() - i,
        {
            assert(self@.records()[i as int] == records@[i as int]@);
            match &records[i].kind {
                RecordKind::PTR(host) => {
                    proof {
                        first_is_unique(self@.records(), is_pointer(), i as int);
                    }
                    return Some(host);
                },
                _ => {},
            }
            i += 1;
        }
        proof {
            first_is_none(self@.records(), is_pointer());
        }
        None
    }

    /// The port of the first `SRV` record, in the order of
    /// [`Response::records`]; `None` where there is no such record.
    pub fn port(&self) -> (port: Option<u16>)
        ensures
            port == self@.port(),
    {
        let records = self.records();
        let mut i: usize = 0;
        while i < records.len()
            invariant
                i <= records.len(),
                refs_view(records@) == self@.records(),
                forall|j: int| 0 <= j < i ==> !is_service()(#[trigger] self@.records()[j]),
            decreases records.len() - i,
        {
            assert(self@.records()[i as int] == records@[i as int]@);
            match &records[i].kind {
                RecordKind::SRV { port, .. } => {
                    proof {
                        first_is_unique(self@.records(), is_service(), i as int);
                    }
                    return Some(*port);
                },
                _ => {},
            }
            i += 1;
        }
        proof {
            first_is_none(self@.records(), is_service());
        }
        None
    }

    /// The first address together with the first port; `None` where the
    /// response lacks either.
    pub fn socket_address(&self) -> (addr: Option<SocketAddr>)
        ensures
            addr == self@.socket_address(),
    {
        match self.ip_addr() {
            Some(ip) => match self.port() {
                Some(port) => Some(SocketAddr::new(ip, port)),
                None => None,
            },
            None => None,
        }
    }

    /// The strings of all `TXT` records: record after record in the order of
    /// [`Response::records`], and the strings of one record in their order.
    pub fn txt_records(&self) -> (texts: Vec<&str>)
        ensures
            strs_view(texts@) == self@.txt_records(),
    {
        let records = self.records();
        let ghost all = self@.records();
        let mut texts: Vec<&str> = Vec::new();
        let mut i: usize = 0;
        assert(txt_of(all.take(0)) =~= Seq::<Seq<Seq<char>>>::empty());
        assert(strs_view(texts@) =~= txt_of(all.take(0)).flatten());
        while i < records.len()
            invariant
                i <= records.len(),
                all == self@.records(),
                refs_view(records@) == all,
                strs_view(texts@) == txt_of(all.take(i as int)).flatten(),
            decreases records.len() - i,
        {
            let ghost before = strs_view(texts@);
            assert(all[i as int] == records@[i as int]@);
            match &records[i].kind {
                RecordKind::TXT(strings) => {
                    let mut j: usize = 0;
                    while j < strings.len()
                        invariant
                            j <= strings.len(),
                            texts@.len() == before.len() + j,
                            forall|k: int|
                                0 <= k < before.len() ==> (#[trigger] texts@[k])@ == before[k],
                            forall|k: int|
                                before.len() <= k < before.len() + j ==> (#[trigger] texts@[k])@
                                    == strings@[k - before.len()]@,
                        decreases strings.len() - j,
                    {
                        texts.push(strings[j].as_str());
                        j += 1;
                    }
                    assert(strs_view(texts@) =~= before + all[i as int].kind.txt());
                },
                _ => {
                    assert(strs_view(texts@) =~= before + all[i as int].kind.txt());
                },
            }
            proof {
                assert(txt_of(all.take(i + 1)) =~= txt_of(all.take(i as int)).push(
                    all[i as int].kind.txt(),
                ));
                txt_of(all.take(i as int)).lemma_flatten_push(all[i as int].kind.txt());
            }
            i += 1;
        }
        assert(all.take(i as int) =~= all);
        texts
    }
}

/// The hostname of a response is the target of its first `PTR` record, in
/// the order answers, name servers, additional records and, within each, in
/// wire order; it has none exactly where it has no `PTR` record.
pub proof fn hostname_is_first_pointer(response: ResponseView)
    ensures
        response.records() == response.answers + response.nameservers + response.additional,
        match response.hostname() {
            Some(host) => exists|i: int|
                is_first(response.records(), is_pointer(), i) && response.records()[i].kind
                    == RecordKindView::PTR(host),
            None => forall|i: int|
                0 <= i < response.records().len() ==> !((#[trigger] response.records()[i]).kind
                    is PTR),
        },
{
    let records = response.records();
    if exists|i: int| is_first(records, is_pointer(), i) {
        let i = choose|i: int| is_first(records, is_pointer(), i);
        assert(is_first(records, is_pointer(), i));
    } else {
        assert forall|i: int| 0 <= i < records.len() implies !((#[trigger] records[i]).kind
            is PTR) by {
            if records[i].kind is PTR {
                least_exists(records, is_pointer(), i);
            }
        }
    }
}

/// Where some record is wanted, one of them is the first.
pub proof fn least_exists(records: Seq<RecordView>, wanted: spec_fn(RecordView) -> bool, i: int)
    requires
        0 <= i < records.len(),
        wanted(records[i]),
    ensures
        exists|k: int| is_first(records, wanted, k),
    decreases i,
{
    if forall|j: int| 0 <= j < i ==> !wanted(#[trigger] records[j]) {
        assert(is_first(records, wanted, i));
    } else {
        let j = choose|j: int| 0 <= j < i && wanted(#[trigger] records[j]);
        least_exists(records, wanted, j);
    }
}

} // verus!
