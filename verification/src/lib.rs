//! Multicast DNS service discovery, without the network.
//!
//! This library finds the devices on a local network that advertise a
//! service name. It makes every decision of such a lookup and leaves the
//! sockets, the clock and the waiting to the program around it:
//!
//! - [`response`] is the record model: what a decoded message says and the
//!   questions a caller asks of it (hostname, address, port, text values).
//! - [`codec`] is the boundary to the DNS codec, which reads and writes the
//!   wire format.
//! - [`mdns`] is one multicast endpoint: the options of its socket, the query
//!   it sends, what it makes of a datagram.
//! - [`throttle`] paces the queries.
//! - [`discover`] is the lookup itself: a [`discover::Discovery`] says what to
//!   look for, a [`discover::Session`] answers every event with what to do.
//! - [`resolve`] narrows a lookup to the devices of given hostnames, under a
//!   deadline.
//! - [`addr`] and [`errors`] hold the addresses and errors that the rest
//!   speaks of.

pub use self::errors::Error;
pub use self::mdns::mDNSListener;
pub use self::response::{Record, RecordKind, Response};

pub mod addr;
pub mod codec;
pub mod discover;
pub mod errors;
pub mod mdns;
pub mod resolve;
pub mod response;
pub mod throttle;
