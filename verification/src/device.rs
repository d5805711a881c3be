//! Asking the kernel for a WireGuard device's listen port.
//!
//! The answer to a device query is a dump: the attributes of the device may
//! be spread over several messages. They are taken as one list, in the order
//! the kernel sent them, and the first listen port in the list is the
//! answer.

use vstd::prelude::*;
use crate::interface::InterfaceName;
use crate::message::{Error, Message, Payload, NLM_F_ACK, NLM_F_DUMP, NLM_F_REQUEST};
use crate::search::{find_first, first_some, lemma_first_some_concat};
use crate::wire::{
    device_attribute_count, device_command, device_family, device_interface_names,
    device_listen_port_at, device_listen_ports, device_query, get_device, WG_CMD_GET_DEVICE,
};
use netlink_packet_generic::GenlMessage;
use netlink_packet_wireguard::Wireguard;

verus! {

/// The flags a device query goes out with: request, dump and acknowledge.
pub const QUERY_FLAGS: u16 = NLM_F_REQUEST | NLM_F_DUMP | NLM_F_ACK;

/// The listen-port entries of every attribute of the first `n` responses, in
/// arrival order, or `None` where one of those responses is no WireGuard
/// message.
pub open spec fn gathered_ports(responses: Seq<Message<GenlMessage<Wireguard>>>, n: int) -> Option<
    Seq<Option<u16>>,
>
    decreases n,
{
    if n <= 0 {
        Some(Seq::empty())
    } else {
        match (gathered_ports(responses, n - 1), responses[n - 1].payload) {
            (Some(ports), Payload::InnerMessage(message)) => Some(
                ports + device_listen_ports(message),
            ),
            _ => None,
        }
    }
}

/// The listen port that the responses to a device query name.
///
/// Every response must be a WireGuard message. The first listen port among
/// all their attributes is the answer.
pub open spec fn listen_port_in(responses: Seq<Message<GenlMessage<Wireguard>>>) -> Result<
    u16,
    Error,
> {
    match gathered_ports(responses, responses.len() as int) {
        None => Err(Error::UnexpectedPayload),
        Some(ports) => match first_some(ports) {
            Some(port) => Ok(port),
            None => Err(Error::NoListenPort),
        },
    }
}

/// The query for the device behind the interface `name`: a "get device"
/// command that carries the interface name and nothing else. Its family id
/// is still to be resolved; it goes out with [`QUERY_FLAGS`].
pub fn get_device_request(name: &InterfaceName) -> (request: GenlMessage<Wireguard>)
    ensures
        request == device_query(name.text()),
        device_family(request) == 0,
        device_command(request) == WG_CMD_GET_DEVICE,
        device_interface_names(request) == seq![Some(name.text())],
        device_listen_ports(request) == seq![None::<u16>],
{
    let text = name.as_str_lossy();
    get_device(text.as_str())
}

/// Reads the attributes of a WireGuard message: for each, the listen port it
/// holds, if it is one.
pub fn listen_ports(message: &GenlMessage<Wireguard>) -> (ports: Vec<Option<u16>>)
    ensures
        ports@ == device_listen_ports(*message),
{
    let count = device_attribute_count(message);
    let mut ports: Vec<Option<u16>> = Vec::new();
    let mut i: usize = 0;
    while i < count
        invariant
            i <= count == device_listen_ports(*message).len(),
            ports@ == device_listen_ports(*message).take(i as int),
        decreases count - i,
    {
        ports.push(device_listen_port_at(message, i));
        assert(ports@ =~= device_listen_ports(*message).take(i + 1));
        i += 1;
    }
    assert(ports@ =~= device_listen_ports(*message));
    ports
}

/// Reads the listen port out of the responses to a device query.
pub fn listen_port(responses: &Vec<Message<GenlMessage<Wireguard>>>) -> (r: Result<u16, Error>)
    ensures
        r == listen_port_in(responses@),
{
    let mut ports: Vec<Option<u16>> = Vec::new();
    let mut i: usize = 0;
    while i < responses.len()
        invariant
            i <= responses@.len(),
            gathered_ports(responses@, i as int) == Some(ports@),
        decreases responses@.len() - i,
    {
        match &responses[i].payload {
            Payload::InnerMessage(message) => {
                let mut more = listen_ports(message);
                ports.append(&mut more);
            },
            _ => {
                proof {
                    lemma_gathering_stays_failed(responses@, i + 1, responses@.len() as int);
                }
                return Err(Error::UnexpectedPayload);
            },
        }
        i += 1;
    }
    match find_first(&ports) {
        Some(port) => Ok(port),
        None => Err(Error::NoListenPort),
    }
}

/// Once a response is no WireGuard message, no later response mends it.
proof fn lemma_gathering_stays_failed(
    responses: Seq<Message<GenlMessage<Wireguard>>>,
    n: int,
    m: int,
)
    requires
        n <= m,
        gathered_ports(responses, n) is None,
    ensures
        gathered_ports(responses, m) is None,
    decreases m - n,
{
    if n < m {
        lemma_gathering_stays_failed(responses, n, m - 1);
    }
}

/// Gathering two answers in a row gives what each of them gives, one after
/// the other.
proof fn lemma_gathered_concat(
    a: Seq<Message<GenlMessage<Wireguard>>>,
    b: Seq<Message<GenlMessage<Wireguard>>>,
    n: int,
)
    requires
        0 <= n <= b.len(),
    ensures
        gathered_ports(a + b, a.len() + n) == match (
            gathered_ports(a, a.len() as int),
            gathered_ports(b, n),
        ) {
            (Some(first), Some(second)) => Some(first + second),
            _ => None,
        },
    decreases n,
{
    if n == 0 {
        lemma_gathered_prefix(a, a + b, a.len() as int);
        if let Some(first) = gathered_ports(a, a.len() as int) {
            assert(first + Seq::<Option<u16>>::empty() =~= first);
        }
    } else {
        lemma_gathered_concat(a, b, n - 1);
        assert((a + b)[a.len() + n - 1] == b[n - 1]);
        match (gathered_ports(a, a.len() as int), gathered_ports(b, n - 1), b[n - 1].payload) {
            (Some(first), Some(second), Payload::InnerMessage(message)) => {
                assert((first + second) + device_listen_ports(message) =~= first + (second
                    + device_listen_ports(message)));
            },
            _ => {},
        }
    }
}

/// What is gathered from the first `n` responses depends on those alone.
proof fn lemma_gathered_prefix(
    a: Seq<Message<GenlMessage<Wireguard>>>,
    b: Seq<Message<GenlMessage<Wireguard>>>,
    n: int,
)
    requires
        n <= a.len(),
        n <= b.len(),
        forall|i: int| 0 <= i < n ==> a[i] == b[i],
    ensures
        gathered_ports(a, n) == gathered_ports(b, n),
    decreases n,
{
    if n > 0 {
        lemma_gathered_prefix(a, b, n - 1);
    }
}

/// An answer that the kernel splits over several messages holds the listen
/// port of the device wherever the port's attribute falls: the port of two
/// runs of responses, taken as one answer, is the first run's where that
/// names one, and else the second run's. One response that is no WireGuard
/// message spoils the whole answer.
pub proof fn lemma_port_of_split_answer(
    a: Seq<Message<GenlMessage<Wireguard>>>,
    b: Seq<Message<GenlMessage<Wireguard>>>,
)
    ensures
        listen_port_in(a + b) == match (listen_port_in(a), listen_port_in(b)) {
            (Err(Error::UnexpectedPayload), _) => Err(Error::UnexpectedPayload),
            (_, Err(Error::UnexpectedPayload)) => Err(Error::UnexpectedPayload),
            (Ok(port), _) => Ok(port),
            (_, other) => other,
        },
{
    lemma_gathered_concat(a, b, b.len() as int);
    match (gathered_ports(a, a.len() as int), gathered_ports(b, b.len() as int)) {
        (Some(first), Some(second)) => {
            lemma_first_some_concat(first, second);
        },
        _ => {},
    }
}

} // verus!
