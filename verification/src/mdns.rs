//! One multicast endpoint: how its socket is to be opened, what it sends, and
//! what it makes of the bytes it receives.
//!
//! The socket itself belongs to the embedding program. This module decides
//! everything about it that is not the act of reading and writing.

use vstd::prelude::*;
use vstd::slice::slice_subrange;
use vstd::utf8::encode_utf8;
use crate::addr::{IpAddr, Ipv4Addr, SocketAddr};
use crate::codec::{build_ptr_query, encodable, is_encodable, parsed_message, ptr_query, Message};
use crate::errors::{Error, ErrorView};
use crate::response::{Response, ResponseView};

verus! {

/// The IP address for the mDNS multicast socket, 224.0.0.251, as the number
/// its octets spell.
pub const MULTICAST_ADDR: u32 = 0xE000_00FB;

/// The port of mDNS.
pub const MULTICAST_PORT: u16 = 5353;

/// The address that stands for every local interface, 0.0.0.0, as the number
/// its octets spell.
pub const ADDR_ANY: u32 = 0;

/// The size of the buffer that a datagram is received into.
pub const RECV_BUFFER_LEN: usize = 4096;

/// How the socket of one interface is to be opened.
#[derive(Clone, Copy, Debug, PartialEq, Eq, Structural)]
pub struct SocketOptions {
    /// Whether other sockets may bind the same address.
    pub reuse_address: bool,
    /// Whether other sockets may bind the same port.
    pub reuse_port: bool,
    /// The local address to bind.
    pub bind: SocketAddr,
    /// Whether the socket hears its own transmissions.
    pub multicast_loop_v4: bool,
    /// The multicast group to join.
    pub group: Ipv4Addr,
    /// The interface on which the group is joined and through which the
    /// socket sends.
    pub interface: Ipv4Addr,
}

/// A datagram to transmit.
#[derive(Clone, Debug, PartialEq, Eq)]
pub struct Datagram {
    pub payload: Vec<u8>,
    pub destination: SocketAddr,
}

/// An mDNS sender on a specific interface.
#[derive(Clone, Debug, PartialEq, Eq)]
#[allow(non_camel_case_types)]
pub struct mDNSSender {
    pub service_name: String,
}

/// An mDNS listener on a specific interface.
#[derive(Clone, Debug, PartialEq, Eq)]
#[allow(non_camel_case_types)]
pub struct mDNSListener {
    /// How the socket of this interface is to be opened.
    pub socket: SocketOptions,
    /// Where the next datagram is received.
    pub recv_buffer: Vec<u8>,
}

/// Where every query goes: the mDNS group, at the mDNS port.
pub open spec fn multicast_destination() -> SocketAddr {
    SocketAddr { ip: IpAddr::V4(Ipv4Addr { bits: MULTICAST_ADDR }), port: MULTICAST_PORT }
}

/// The options of a socket for `interface_addr`: the mDNS port on the
/// interface, shared with whoever else binds it; no echo of the socket's own
/// transmissions; the mDNS group, joined on the interface.
pub open spec fn socket_options(interface_addr: Ipv4Addr) -> SocketOptions {
    SocketOptions {
        reuse_address: true,
        reuse_port: true,
        bind: SocketAddr { ip: IpAddr::V4(interface_addr), port: MULTICAST_PORT },
        multicast_loop_v4: false,
        group: Ipv4Addr { bits: MULTICAST_ADDR },
        interface: interface_addr,
    }
}

/// What a received datagram gives to the consumer of responses.
///
/// An empty datagram gives nothing. A datagram that the codec reads gives the
/// response it holds. One whose header the codec cannot read gives an error.
/// One whose header can be read but whose contents are garbled is multicast
/// noise, and gives nothing.
pub open spec fn heard(datagram: Seq<u8>) -> Option<Result<ResponseView, ErrorView>> {
    if datagram.len() == 0 {
        None
    } else {
        match parsed_message(datagram) {
            Ok(message) => Some(Ok(ResponseView::from_packet(message))),
            Err(error) => if error.is_envelope() {
                Some(Err(ErrorView::Dns(error)))
            } else {
                None
            },
        }
    }
}

/// Whether `item` holds what `view` says.
pub open spec fn item_is(
    item: Option<Result<Response, Error>>,
    view: Option<Result<ResponseView, ErrorView>>,
) -> bool {
    match item {
        None => view is None,
        Some(Ok(response)) => view == Some(Ok::<ResponseView, ErrorView>(response@)),
        Some(Err(error)) => view == Some(Err::<ResponseView, ErrorView>(error@)),
    }
}

/// Makes the two halves of the endpoint of one interface.
pub fn mdns_interface(service_name: String, interface_addr: Ipv4Addr) -> (halves: (
    mDNSListener,
    mDNSSender,
))
    ensures
        halves.0.socket == socket_options(interface_addr),
        halves.0.recv_buffer@ == Seq::new(RECV_BUFFER_LEN as nat, |i: int| 0u8),
        halves.1.service_name == service_name,
{
    let socket = create_socket(interface_addr);
    let recv_buffer = vec![0u8; RECV_BUFFER_LEN];
    assert(recv_buffer@ =~= Seq::new(RECV_BUFFER_LEN as nat, |i: int| 0u8));
    (mDNSListener { socket, recv_buffer }, mDNSSender { service_name })
}

/// The options of a socket for `interface_addr`.
pub fn create_socket(interface_addr: Ipv4Addr) -> (socket: SocketOptions)
    ensures
        socket == socket_options(interface_addr),
{
    SocketOptions {
        reuse_address: true,
        reuse_port: true,
        bind: SocketAddr::new(IpAddr::V4(interface_addr), MULTICAST_PORT),
        multicast_loop_v4: false,
        group: Ipv4Addr { bits: MULTICAST_ADDR },
        interface: interface_addr,
    }
}

/// What a received datagram gives: see [`heard`].
pub fn decode(datagram: &[u8]) -> (item: Option<Result<Response, Error>>)
    ensures
        item_is(item, heard(datagram@)),
{
    if datagram.len() > 0 {
        match Message::parse(datagram) {
            Ok(raw_packet) => Some(Ok(Response::from_packet(&raw_packet))),
            Err(error) => if error.is_envelope() {
                Some(Err(Error::Dns(error)))
            } else {
                None
            },
        }
    } else {
        None
    }
}

impl mDNSSender {
    /// Whether a query for the service name can be built. Where it cannot,
    /// nothing can be sent for it.
    pub fn can_send(&self) -> (able: bool)
        ensures
            able == encodable(encode_utf8(self.service_name@)),
    {
        is_encodable(self.service_name.as_str())
    }

    /// The datagram of one query: it asks for the `PTR` records of the service
    /// name, with id 0, without recursion, not preferring unicast answers, and
    /// goes to the mDNS group.
    pub fn send_request(&self) -> (datagram: Datagram)
        requires
            encodable(encode_utf8(self.service_name@)),
        ensures
            datagram.payload@ == ptr_query(0, false, self.service_name@, false),
            datagram.destination == multicast_destination(),
    {
        let prefer_unicast = false;
        let packet_data = build_ptr_query(0, false, self.service_name.as_str(), prefer_unicast);
        let addr = SocketAddr::new(IpAddr::V4(Ipv4Addr { bits: MULTICAST_ADDR }), MULTICAST_PORT);
        Datagram { payload: packet_data, destination: addr }
    }
}

impl mDNSListener {
    /// What the datagram gives that takes up the first `count` bytes of the
    /// receive buffer: see [`heard`].
    pub fn listen(&self, count: usize) -> (item: Option<Result<Response, Error>>)
        requires
            count <= self.recv_buffer@.len(),
        ensures
            item_is(item, heard(self.recv_buffer@.take(count as int))),
    {
        let datagram = slice_subrange(self.recv_buffer.as_slice(), 0, count);
        assert(datagram@ =~= self.recv_buffer@.take(count as int));
        decode(datagram)
    }
}

} // verus!
