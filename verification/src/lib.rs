//! Keeps the NAT mapping of a WireGuard tunnel observable.
//!
//! The library holds the two pieces of logic that need kernel-interface
//! precision: a generic-netlink request/response transport with family
//! resolution, and the fixed packet filter that scopes a raw socket to the
//! traffic of one peer. Socket I/O itself is left to the caller: every
//! function here goes from values to values.
//!
//! * [`filter`] builds the packet filter and says which packets it admits.
//! * [`transport`] serializes a request and reads the datagrams of the
//!   answer, message by message.
//! * [`resolver`] finds the id of a family that is known by name only.
//! * [`device`] asks for a WireGuard device and reads its listen port.
//! * [`interface`] and [`key`] hold interface names and keys.
//! * [`message`] holds the netlink envelope and the errors of an exchange.
//! * [`search`] finds the first entry of a list of attributes.
//! * [`guard`] tells the messages that the packet crates can parse from
//!   those they trip over.
//! * [`wire`] is where the netlink packet crates are called.

pub mod device;
pub mod filter;
pub mod guard;
pub mod interface;
pub mod key;
pub mod message;
pub mod resolver;
pub mod search;
pub mod transport;
pub mod wire;
