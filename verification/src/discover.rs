//! Discovery of the devices that answer for a service name.
//!
//! A [`Discovery`] says what to look for and how; [`Discovery::listen`] turns
//! it into a running [`Session`]. The session makes every decision of the
//! lookup and does none of its waiting: the embedding program owns the
//! sockets and the clock, tells the session what happened
//! ([`Session::tick`], [`Session::receive`]) and does what it answers.
//!
//! Queries are paced by a [`Throttle`]: the reactive kind, which never lets
//! two queries out closer together than the query interval and which the
//! program can ask for the time of the next one
//! ([`Session::next_query_at`]).
//!
//! Times are milliseconds on a clock of the caller's choosing.

use vstd::prelude::*;
use vstd::utf8::encode_utf8;
use crate::addr::Ipv4Addr;
use crate::codec::{encodable, ptr_query};
use crate::errors::{Error, ErrorView, IoError, IoErrorView};
use crate::mdns::{
    create_socket,
    decode,
    heard,
    item_is,
    mDNSSender,
    multicast_destination,
    socket_options,
    Datagram,
    SocketOptions,
    ADDR_ANY,
};
use crate::response::{Response, ResponseView};
use crate::throttle::Throttle;

verus! {

/// A multicast DNS discovery request.
///
/// This represents a single lookup of a single service name, on one or more
/// interfaces.
#[derive(Clone, Debug, PartialEq, Eq)]
pub struct Discovery {
    mdns_sender: mDNSSender,
    /// The interfaces to look on, one socket each.
    interfaces: Vec<Ipv4Addr>,
    /// Whether we should ignore empty responses.
    ignore_empty: bool,
    /// Whether to send a query as soon as the session starts.
    initial_send: bool,
    /// Whether a response must answer for the service name to be passed on.
    match_service_name: bool,
    /// The interval we should send mDNS queries.
    send_request_interval: u64,
    /// How long the lookup runs, where it does not run until it is dropped.
    timeout: Option<u64>,
}

/// What a [`Discovery`] holds.
pub ghost struct DiscoveryView {
    pub service_name: Seq<char>,
    pub interfaces: Seq<Ipv4Addr>,
    pub ignore_empty: bool,
    pub initial_send: bool,
    pub match_service_name: bool,
    pub send_request_interval: u64,
    pub timeout: Option<u64>,
}

/// A running discovery: the state between two events.
#[derive(Clone, Debug, PartialEq, Eq)]
pub struct Session {
    mdns_sender: mDNSSender,
    interfaces: Vec<Ipv4Addr>,
    ignore_empty: bool,
    match_service_name: bool,
    throttle: Throttle,
    /// The time before which no query goes out.
    not_before: u64,
    /// The time after which the session is over, where it has an end.
    deadline: Option<u64>,
}

/// What a [`Session`] holds.
pub ghost struct SessionView {
    pub service_name: Seq<char>,
    pub interfaces: Seq<Ipv4Addr>,
    pub ignore_empty: bool,
    pub match_service_name: bool,
    pub throttle: Throttle,
    pub not_before: u64,
    pub deadline: Option<u64>,
}

/// A query to transmit on the socket of one interface.
#[derive(Clone, Debug, PartialEq, Eq)]
pub struct Transmission {
    /// The place of the interface among the session's interfaces.
    pub interface: usize,
    pub datagram: Datagram,
}

/// Something that happened to a session.
#[derive(Clone, Debug, PartialEq, Eq)]
pub enum Event {
    /// The clock reached `now`.
    Tick { now: u64 },
    /// A socket received a datagram.
    Received { datagram: Vec<u8> },
    /// A socket failed to receive.
    ReceiveFailed { error: IoError },
}

/// What a session asks for in answer to an event.
#[derive(Debug, PartialEq, Eq)]
pub enum Action {
    /// Transmit each of these. There are none where no query is due.
    Transmit(Vec<Transmission>),
    /// Hand this item to the consumer of responses.
    Yield(Result<Response, Error>),
    /// Nothing.
    Wait,
}

impl View for Discovery {
    type V = DiscoveryView;

    closed spec fn view(&self) -> DiscoveryView {
        DiscoveryView {
            service_name: self.mdns_sender.service_name@,
            interfaces: self.interfaces@,
            ignore_empty: self.ignore_empty,
            initial_send: self.initial_send,
            match_service_name: self.match_service_name,
            send_request_interval: self.send_request_interval,
            timeout: self.timeout,
        }
    }
}

impl View for Session {
    type V = SessionView;

    closed spec fn view(&self) -> SessionView {
        SessionView {
            service_name: self.mdns_sender.service_name@,
            interfaces: self.interfaces@,
            ignore_empty: self.ignore_empty,
            match_service_name: self.match_service_name,
            throttle: self.throttle,
            not_before: self.not_before,
            deadline: self.deadline,
        }
    }
}

/// Whether a response answers for the service name: one of its answer records
/// is named by it.
pub open spec fn answers_for(response: ResponseView, service_name: Seq<char>) -> bool {
    exists|i: int| 0 <= i < response.answers.len() && (#[trigger] response.answers[i]).name
        == service_name
}

/// Whether a response is passed on to the consumer.
///
/// An empty response is protocol noise and is held back while `ignore_empty`
/// is set. While `match_service_name` is set, a response is also held back
/// unless it answers for the service name, which keeps apart the lookups that
/// share a port.
pub open spec fn passes(
    ignore_empty: bool,
    match_service_name: bool,
    service_name: Seq<char>,
    response: ResponseView,
) -> bool {
    &&& !response.is_empty() || !ignore_empty
    &&& match_service_name ==> answers_for(response, service_name)
}

/// The sum of a time and an interval, as far as the clock goes.
pub open spec fn later(now: u64, interval: u64) -> u64 {
    if now + interval <= u64::MAX {
        (now + interval) as u64
    } else {
        u64::MAX
    }
}

/// The interfaces whose socket was opened: those with an outcome, and a good
/// one, in their order.
pub open spec fn opened_interfaces(
    interfaces: Seq<Ipv4Addr>,
    outcomes: Seq<Result<(), IoError>>,
) -> Seq<Ipv4Addr>
    decreases interfaces.len(),
{
    if interfaces.len() == 0 {
        Seq::empty()
    } else {
        let before = opened_interfaces(interfaces.drop_last(), outcomes);
        let i = interfaces.len() - 1;
        if i < outcomes.len() && outcomes[i] is Ok {
            before.push(interfaces.last())
        } else {
            before
        }
    }
}

/// Whether `i` is the place of the first failure among the outcomes of
/// opening the first `count` interfaces.
pub open spec fn is_first_failure(outcomes: Seq<Result<(), IoError>>, count: int, i: int) -> bool {
    &&& 0 <= i < outcomes.len()
    &&& i < count
    &&& outcomes[i] is Err
    &&& forall|j: int| 0 <= j < i ==> (#[trigger] outcomes[j]) is Ok
}

/// What is reported where a session has no interface and no failure to show
/// for it.
pub open spec fn no_interface() -> IoErrorView {
    IoErrorView { code: None, message: "no interface to open a socket on"@ }
}

impl DiscoveryView {
    /// A discovery as it is first made: it ignores empty responses, waits one
    /// interval before its first query, passes on whatever is not empty, and
    /// runs until it is dropped.
    pub open spec fn new(
        service_name: Seq<char>,
        mdns_query_interval: u64,
        interfaces: Seq<Ipv4Addr>,
    ) -> DiscoveryView {
        DiscoveryView {
            service_name,
            interfaces,
            ignore_empty: true,
            initial_send: false,
            match_service_name: false,
            send_request_interval: mdns_query_interval,
            timeout: None,
        }
    }

    /// This discovery with `ignore_empty` set to `ignore`.
    pub open spec fn ignore_empty(self, ignore: bool) -> DiscoveryView {
        DiscoveryView { ignore_empty: ignore, ..self }
    }

    /// This discovery with `initial_send` set to `value`.
    pub open spec fn initial_send(self, value: bool) -> DiscoveryView {
        DiscoveryView { initial_send: value, ..self }
    }

    /// This discovery with `match_service_name` set to `value`.
    pub open spec fn match_service_name(self, value: bool) -> DiscoveryView {
        DiscoveryView { match_service_name: value, ..self }
    }

    /// This discovery with its run limited to `timeout`.
    pub open spec fn timeout(self, timeout: u64) -> DiscoveryView {
        DiscoveryView { timeout: Some(timeout), ..self }
    }

    /// Whether this discovery passes `response` on.
    pub open spec fn passes(self, response: ResponseView) -> bool {
        passes(self.ignore_empty, self.match_service_name, self.service_name, response)
    }

    /// The session that starts at `now`: no query has gone out, and the first
    /// may go out at once where `initial_send` is set, else one interval
    /// after the start. Where the discovery has a timeout, the session is
    /// over once that much time has passed.
    pub open spec fn listen(self, now: u64) -> SessionView {
        SessionView {
            service_name: self.service_name,
            interfaces: self.interfaces,
            ignore_empty: self.ignore_empty,
            match_service_name: self.match_service_name,
            throttle: Throttle::new_spec(self.send_request_interval),
            not_before: if self.initial_send {
                now
            } else {
                later(now, self.send_request_interval)
            },
            deadline: match self.timeout {
                Some(timeout) => Some(later(now, timeout)),
                None => None,
            },
        }
    }
}

impl SessionView {
    /// Whether the session is over at `now`: it has a deadline, and that has
    /// passed.
    pub open spec fn over(self, now: u64) -> bool {
        match self.deadline {
            Some(deadline) => now > deadline,
            None => false,
        }
    }

    /// Whether a query goes out at `now`: the session is not over, the time
    /// of the first query has come, the throttle permits, and the codec can
    /// write the service name.
    pub open spec fn due(self, now: u64) -> bool {
        &&& !self.over(now)
        &&& now >= self.not_before
        &&& self.throttle.allows(now)
        &&& encodable(encode_utf8(self.service_name))
    }

    /// The session after the clock reached `now`.
    pub open spec fn ticked(self, now: u64) -> SessionView {
        if self.due(now) {
            SessionView { throttle: self.throttle.marked(now), ..self }
        } else {
            self
        }
    }

    /// Whether this session passes `response` on.
    pub open spec fn passes(self, response: ResponseView) -> bool {
        passes(self.ignore_empty, self.match_service_name, self.service_name, response)
    }

    /// What the session hands on of what a datagram gave: an error always, a
    /// response where it passes.
    pub open spec fn yields(self, item: Option<Result<ResponseView, ErrorView>>) -> Option<
        Result<ResponseView, ErrorView>,
    > {
        match item {
            Some(Ok(response)) => if self.passes(response) {
                item
            } else {
                None
            },
            _ => item,
        }
    }

    /// The earliest time at which a query may be due.
    pub open spec fn next_query_at(self) -> u64 {
        if self.not_before >= self.throttle.opens_at() {
            self.not_before
        } else {
            self.throttle.opens_at()
        }
    }
}

/// Whether `transmissions` is one query for `service_name` on each of `count`
/// interfaces, in their order.
pub open spec fn is_round(
    transmissions: Seq<Transmission>,
    count: int,
    service_name: Seq<char>,
) -> bool {
    &&& transmissions.len() == count
    &&& forall|i: int|
        0 <= i < count ==> {
            &&& (#[trigger] transmissions[i]).interface == i
            &&& transmissions[i].datagram.payload@ == ptr_query(0, false, service_name, false)
            &&& transmissions[i].datagram.destination == multicast_destination()
        }
}

/// Gets a discovery of a service on all interfaces: on one socket that stands
/// for them all.
pub fn all(service_name: &str, mdns_query_interval: u64) -> (discovery: Discovery)
    ensures
        discovery@ == DiscoveryView::new(
            service_name@,
            mdns_query_interval,
            seq![Ipv4Addr { bits: ADDR_ANY }],
        ),
{
    interface(service_name, mdns_query_interval, Ipv4Addr { bits: ADDR_ANY })
}

/// Gets a discovery of a service on a given interface.
pub fn interface(
    service_name: &str,
    mdns_query_interval: u64,
    interface_addr: Ipv4Addr,
) -> (discovery: Discovery)
    ensures
        discovery@ == DiscoveryView::new(service_name@, mdns_query_interval, seq![interface_addr]),
{
    let mut addrs: Vec<Ipv4Addr> = Vec::new();
    addrs.push(interface_addr);
    let discovery = interfaces(service_name, mdns_query_interval, addrs);
    assert(discovery@.interfaces =~= seq![interface_addr]);
    discovery
}

/// Gets a discovery of a service on each of the given interfaces, with a
/// socket of its own for each.
pub fn interfaces(
    service_name: &str,
    mdns_query_interval: u64,
    interface_addrs: Vec<Ipv4Addr>,
) -> (discovery: Discovery)
    ensures
        discovery@ == DiscoveryView::new(service_name@, mdns_query_interval, interface_addrs@),
{
    let service_name = service_name.to_owned();
    Discovery {
        mdns_sender: mDNSSender { service_name },
        interfaces: interface_addrs,
        ignore_empty: true,
        initial_send: false,
        match_service_name: false,
        send_request_interval: mdns_query_interval,
        timeout: None,
    }
}

impl Discovery {
    /// Sets whether or not we should ignore empty responses.
    ///
    /// Defaults to `true`.
    pub fn ignore_empty(self, ignore: bool) -> (discovery: Discovery)
        ensures
            discovery@ == self@.ignore_empty(ignore),
    {
        let mut discovery = self;
        discovery.ignore_empty = ignore;
        discovery
    }

    /// Sets whether to send a query as soon as the session starts.
    ///
    /// Otherwise, the first query waits for one query interval.
    ///
    /// Defaults to `false`.
    pub fn initial_send(self, value: bool) -> (discovery: Discovery)
        ensures
            discovery@ == self@.initial_send(value),
    {
        let mut discovery = self;
        discovery.initial_send = value;
        discovery
    }

    /// Sets whether a response must answer for the service name to be passed
    /// on: a guard against the answers to other lookups on the same port.
    ///
    /// Defaults to `false`.
    pub fn match_service_name(self, value: bool) -> (discovery: Discovery)
        ensures
            discovery@ == self@.match_service_name(value),
    {
        let mut discovery = self;
        discovery.match_service_name = value;
        discovery
    }

    /// Sets how long the lookup runs: a session that has run for longer than
    /// `timeout` is over and asks for no more queries.
    ///
    /// By default a lookup runs until it is dropped.
    pub fn timeout(self, timeout: u64) -> (discovery: Discovery)
        ensures
            discovery@ == self@.timeout(timeout),
    {
        let mut discovery = self;
        discovery.timeout = Some(timeout);
        discovery
    }

    /// How the socket of the interface at place `i` is to be opened.
    pub fn socket(&self, i: usize) -> (socket: SocketOptions)
        requires
            i < self@.interfaces.len(),
        ensures
            socket == socket_options(self@.interfaces[i as int]),
    {
        create_socket(self.interfaces[i])
    }

    /// The number of interfaces, and so of sockets.
    pub fn interface_count(&self) -> (count: usize)
        ensures
            count == self@.interfaces.len(),
    {
        self.interfaces.len()
    }

    /// Settles on which interfaces the lookup runs, given how opening the
    /// socket of each went: `outcomes[i]` is that of the interface at place
    /// `i`, and an interface without an outcome counts as not opened.
    ///
    /// The lookup goes on with the interfaces whose socket was opened, if
    /// there is one. If there is none it fails: with the first failure, or,
    /// where nothing failed because there was nothing to open, with
    /// [`no_interface`].
    pub fn opened(self, outcomes: &Vec<Result<(), IoError>>) -> (settled: Result<Discovery, Error>)
        ensures
            match settled {
                Ok(discovery) => {
                    &&& opened_interfaces(self@.interfaces, outcomes@).len() > 0
                    &&& discovery@ == DiscoveryView {
                        interfaces: opened_interfaces(self@.interfaces, outcomes@),
                        ..self@
                    }
                },
                Err(error) => {
                    &&& opened_interfaces(self@.interfaces, outcomes@).len() == 0
                    &&& error@ matches ErrorView::Io(failure)
                    &&& if exists|i: int|
                        is_first_failure(outcomes@, self@.interfaces.len() as int, i) {
                        exists|i: int|
                            is_first_failure(outcomes@, self@.interfaces.len() as int, i)
                                && failure == outcomes@[i]->Err_0@
                    } else {
                        failure == no_interface()
                    }
                },
            },
    {
        let mut kept: Vec<Ipv4Addr> = Vec::new();
        let mut failure: Option<IoError> = None;
        let mut i: usize = 0;
        while i < self.interfaces.len()
            invariant
                i <= self.interfaces.len(),
                kept@ == opened_interfaces(self.interfaces@.take(i as int), outcomes@),
                match failure {
                    Some(first) => exists|k: int|
                        is_first_failure(outcomes@, i as int, k) && first@ == outcomes@[k]->Err_0@,
                    None => forall|k: int| 0 <= k < i && k < outcomes@.len() ==> (
                    #[trigger] outcomes@[k]) is Ok,
                },
            decreases self.interfaces.len() - i,
        {
            assert(self.interfaces@.take(i + 1).drop_last() =~= self.interfaces@.take(i as int));
            proof {
                if failure is Some {
                    let k = choose|k: int|
                        is_first_failure(outcomes@, i as int, k) && failure->Some_0@
                            == outcomes@[k]->Err_0@;
                    assert(is_first_failure(outcomes@, i + 1, k));
                }
            }
            if i < outcomes.len() {
                match &outcomes[i] {
                    Ok(_) => {
                        kept.push(self.interfaces[i]);
                    },
                    Err(error) => {
                        if failure.is_none() {
                            assert(is_first_failure(outcomes@, i + 1, i as int));
                            failure =
                            Some(IoError { code: error.code, message: error.message.clone() });
                        }
                    },
                }
            }
            i += 1;
        }
        assert(self.interfaces@.take(i as int) =~= self.interfaces@);
        if kept.len() > 0 {
            let mut discovery = self;
            discovery.interfaces = kept;
            Ok(discovery)
        } else {
            match failure {
                Some(first) => Err(Error::Io(first)),
                None => {
                    assert forall|k: int|
                        !is_first_failure(outcomes@, self@.interfaces.len() as int, k) by {
                        if is_first_failure(outcomes@, self@.interfaces.len() as int, k) {
                            assert(outcomes@[k] is Ok);
                        }
                    }
                    Err(
                        Error::Io(
                            IoError {
                                code: None,
                                message: "no interface to open a socket on".to_owned(),
                            },
                        ),
                    )
                },
            }
        }
    }

    /// Starts the lookup at `now`.
    ///
    /// A session cannot be started again: for another lookup, make another
    /// discovery.
    pub fn listen(self, now: u64) -> (session: Session)
        ensures
            session@ == self@.listen(now),
    {
        let ignore_empty = self.ignore_empty;
        let initial_send = self.initial_send;
        let not_before = if initial_send {
            now
        } else {
            now.saturating_add(self.send_request_interval)
        };
        let deadline = match self.timeout {
            Some(timeout) => Some(now.saturating_add(timeout)),
            None => None,
        };
        Session {
            mdns_sender: self.mdns_sender,
            interfaces: self.interfaces,
            ignore_empty,
            match_service_name: self.match_service_name,
            throttle: Throttle::new(self.send_request_interval),
            not_before,
            deadline,
        }
    }
}

impl Session {
    /// Tells the session that the clock reached `now`, and gets the queries
    /// to transmit.
    ///
    /// Where a query is due, the session records it and asks for one datagram
    /// on every interface. Where none is due, which includes every time at
    /// which the throttle does not permit one, it asks for nothing and stays
    /// as it is.
    pub fn tick(&mut self, now: u64) -> (transmissions: Vec<Transmission>)
        ensures
            final(self)@ == old(self)@.ticked(now),
            old(self)@.due(now) ==> is_round(
                transmissions@,
                old(self)@.interfaces.len() as int,
                old(self)@.service_name,
            ),
            !old(self)@.due(now) ==> transmissions@.len() == 0,
    {
        let mut transmissions: Vec<Transmission> = Vec::new();
        if !self.is_over(now) && now >= self.not_before && self.throttle.permits(now)
            && self.mdns_sender.can_send() {
            self.throttle.mark_sent(now);
            let mut i: usize = 0;
            while i < self.interfaces.len()
                invariant
                    i <= self.interfaces.len(),
                    encodable(encode_utf8(self.mdns_sender.service_name@)),
                    is_round(transmissions@, i as int, self.mdns_sender.service_name@),
                decreases self.interfaces.len() - i,
            {
                let datagram = self.mdns_sender.send_request();
                transmissions.push(Transmission { interface: i, datagram });
                i += 1;
            }
        }
        transmissions
    }

    /// Whether the session is over at `now`. What a socket receives after
    /// that is no longer the session's to look at.
    pub fn is_over(&self, now: u64) -> (over: bool)
        ensures
            over == self@.over(now),
    {
        match self.deadline {
            Some(deadline) => now > deadline,
            None => false,
        }
    }

    /// The earliest time at which a query may be due.
    pub fn next_query_at(&self) -> (at: u64)
        ensures
            at == self@.next_query_at(),
    {
        let open = self.throttle.next_permitted_at();
        if self.not_before >= open {
            self.not_before
        } else {
            open
        }
    }

    /// Whether the session passes `response` on to the consumer: see
    /// [`passes`].
    pub fn accepts(&self, response: &Response) -> (passed: bool)
        ensures
            passed == self@.passes(response@),
    {
        if response.is_empty() && self.ignore_empty {
            return false;
        }
        if !self.match_service_name {
            return true;
        }
        let mut i: usize = 0;
        while i < response.answers.len()
            invariant
                i <= response.answers.len(),
                forall|k: int|
                    0 <= k < i ==> (#[trigger] response@.answers[k]).name
                        != self.mdns_sender.service_name@,
            decreases response.answers.len() - i,
        {
            assert(response@.answers[i as int] == response.answers@[i as int]@);
            if response.answers[i].name == self.mdns_sender.service_name {
                return true;
            }
            i += 1;
        }
        false
    }

    /// Tells the session that a socket received `datagram`, and gets the item
    /// to hand to the consumer, if there is one.
    ///
    /// What the datagram gives is said by [`heard`]; of that the session
    /// hands on every error, and a response where it passes. Every datagram
    /// is taken by itself: what two sockets both receive is handed on twice.
    pub fn receive(&self, datagram: &[u8]) -> (item: Option<Result<Response, Error>>)
        ensures
            item_is(item, self@.yields(heard(datagram@))),
    {
        match decode(datagram) {
            Some(Ok(response)) => if self.accepts(&response) {
                Some(Ok(response))
            } else {
                None
            },
            Some(Err(error)) => Some(Err(error)),
            None => None,
        }
    }

    /// Tells the session what happened, and gets what to do about it.
    ///
    /// A tick is answered as by [`Session::tick`], a datagram as by
    /// [`Session::receive`]; a failure to receive is handed to the consumer
    /// as an error.
    pub fn handle(&mut self, event: Event) -> (action: Action)
        ensures
            match event {
                Event::Tick { now } => {
                    &&& final(self)@ == old(self)@.ticked(now)
                    &&& action matches Action::Transmit(transmissions)
                    &&& old(self)@.due(now) ==> is_round(
                        transmissions@,
                        old(self)@.interfaces.len() as int,
                        old(self)@.service_name,
                    )
                    &&& !old(self)@.due(now) ==> transmissions@.len() == 0
                },
                Event::Received { datagram } => {
                    &&& final(self)@ == old(self)@
                    &&& match action {
                        Action::Yield(item) => item_is(
                            Some(item),
                            old(self)@.yields(heard(datagram@)),
                        ),
                        Action::Wait => old(self)@.yields(heard(datagram@)) is None,
                        Action::Transmit(_) => false,
                    }
                },
                Event::ReceiveFailed { error } => {
                    &&& final(self)@ == old(self)@
                    &&& action matches Action::Yield(Err(failure))
                    &&& failure@ == ErrorView::Io(error@)
                },
            },
    {
        match event {
            Event::Tick { now } => Action::Transmit(self.tick(now)),
            Event::Received { datagram } => match self.receive(datagram.as_slice()) {
                Some(item) => Action::Yield(item),
                None => Action::Wait,
            },
            Event::ReceiveFailed { error } => Action::Yield(Err(Error::Io(error))),
        }
    }
}

/// Setting `ignore_empty` again leaves a discovery as the last setting alone
/// would, and with it what the discovery passes on: setting the same value
/// twice is setting it once.
pub proof fn ignore_empty_is_idempotent(
    discovery: DiscoveryView,
    first: bool,
    last: bool,
    response: ResponseView,
)
    ensures
        discovery.ignore_empty(first).ignore_empty(last) == discovery.ignore_empty(last),
        discovery.ignore_empty(last).ignore_empty(last) == discovery.ignore_empty(last),
        discovery.ignore_empty(first).ignore_empty(last).passes(response) == passes(
            last,
            discovery.match_service_name,
            discovery.service_name,
            response,
        ),
{
}

/// A session hands on nothing for an empty datagram: neither a response nor
/// an error.
pub proof fn empty_datagram_yields_nothing(session: SessionView)
    ensures
        session.yields(heard(Seq::<u8>::empty())) is None,
{
}

impl SessionView {
    /// The session after the clock reached each of `times`, in their order.
    pub open spec fn after(self, times: Seq<u64>) -> SessionView
        decreases times.len(),
    {
        if times.len() == 0 {
            self
        } else {
            self.after(times.drop_last()).ticked(times.last())
        }
    }

    /// Whether, of the ticks at `times`, the one at place `k` sends queries.
    pub open spec fn sends(self, times: Seq<u64>, k: int) -> bool
        recommends
            0 <= k < times.len(),
    {
        self.after(times.take(k)).due(times[k])
    }
}

/// Once a tick at `times[i]` has sent, the last round that the session
/// remembers after any longer run of ticks is that one or a later one at
/// least the query interval after it.
proof fn session_remembers_no_sooner(session: SessionView, times: Seq<u64>, i: int, m: int)
    requires
        0 <= i < m <= times.len(),
        session.sends(times, i),
    ensures
        session.after(times.take(m)).throttle.minimum_interval == session.throttle.minimum_interval,
        session.after(times.take(m)).throttle.state matches crate::throttle::ThrottleState::Active {
            last_sent_at,
        } && (last_sent_at == times[i] || last_sent_at - times[i]
            >= session.throttle.minimum_interval),
    decreases m,
{
    assert(times.take(m).drop_last() =~= times.take(m - 1));
    assert(times.take(m).last() == times[m - 1]);
    if m == i + 1 {
        session_keeps_interval(session, times.take(i));
    } else {
        session_remembers_no_sooner(session, times, i, m - 1);
    }
}

/// No tick changes the query interval.
proof fn session_keeps_interval(session: SessionView, times: Seq<u64>)
    ensures
        session.after(times).throttle.minimum_interval == session.throttle.minimum_interval,
    decreases times.len(),
{
    if times.len() > 0 {
        session_keeps_interval(session, times.drop_last());
    }
}

/// However often and whenever a session is woken, no two of its rounds of
/// queries are closer together than the query interval.
pub proof fn rounds_keep_their_distance(session: SessionView, times: Seq<u64>, i: int, j: int)
    requires
        0 <= i < j < times.len(),
        session.sends(times, i),
        session.sends(times, j),
    ensures
        times[j] - times[i] >= session.throttle.minimum_interval,
{
    session_remembers_no_sooner(session, times, i, j);
}

/// Every response that a session hands on was decoded from the datagram: the
/// datagram is not empty, the codec read it, and the response is what the
/// message it read becomes.
pub proof fn a_response_is_a_decoded_datagram(
    session: SessionView,
    datagram: Seq<u8>,
    response: ResponseView,
)
    requires
        session.yields(heard(datagram)) == Some(Ok::<ResponseView, ErrorView>(response)),
    ensures
        datagram.len() > 0,
        crate::codec::parsed_message(datagram) matches Ok(message) && response
            == ResponseView::from_packet(message),
        session.passes(response),
{
}

} // verus!
