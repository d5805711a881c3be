//! One request, one answer: the exchange of a netlink request with the kernel.
//!
//! The caller owns the socket. This module tells it what to send and, for
//! each datagram that comes back, whether to read another one, to stop with
//! the collected responses, or to give up.

use vstd::prelude::*;
use vstd::slice::slice_subrange;
use crate::message::{
    Error, Header, Message, Payload, DEFAULT_FLAGS, MAX_NETLINK_BUFFER_LENGTH, NETLINK_HEADER_LEN,
};

verus! {

/// A protocol spoken over netlink: the inner messages that the transport can
/// put on the wire and read back.
pub trait Protocol: Sized {
    /// Can the message that starts at the first of `bytes` be handed to the
    /// parser? It cannot where one of its attributes is too short or too
    /// large for the parser to read.
    spec fn readable(bytes: Seq<u8>) -> bool;

    /// The message that starts at the first of `bytes`, or what the parser
    /// says where no well-formed message starts there. Bytes behind the
    /// message do not matter.
    spec fn decoded(bytes: Seq<u8>) -> Result<Message<Self>, String>;

    /// Length of this message on the wire, netlink header included.
    spec fn wire_len(&self) -> nat;

    /// The type that the netlink header names for this message.
    spec fn wire_type(&self) -> u16;

    /// The bytes of this message behind `header`.
    spec fn wire_bytes(&self, header: Header) -> Seq<u8>;

    /// Tells whether the message that starts at the first of `bytes` can be
    /// handed to the parser.
    fn is_readable(bytes: &[u8]) -> (ok: bool)
        ensures
            ok == Self::readable(bytes@),
    ;

    /// Reads the message that starts at the first of `bytes`, which must be
    /// readable.
    ///
    /// A message that is read declares a length that covers its header and
    /// lies within `bytes`.
    fn decode(bytes: &[u8]) -> (r: Result<Message<Self>, String>)
        requires
            Self::readable(bytes@),
        ensures
            r == Self::decoded(bytes@),
            r matches Ok(m) ==> NETLINK_HEADER_LEN <= m.header.length <= bytes@.len(),
    ;

    /// Computes the length of this message on the wire.
    fn buffer_len(&self) -> (len: usize)
        ensures
            len == self.wire_len(),
    ;

    /// Computes the type that the netlink header names for this message.
    fn message_type(&self) -> (message_type: u16)
        ensures
            message_type == self.wire_type(),
    ;

    /// Writes this message out behind `header`, which must declare the
    /// message's length. The message must be no longer than a request may
    /// be.
    fn serialize(&self, header: &Header) -> (bytes: Vec<u8>)
        requires
            header.length == self.wire_len(),
            header.length <= MAX_NETLINK_BUFFER_LENGTH,
        ensures
            bytes@ == self.wire_bytes(*header),
            bytes@.len() == header.length,
    ;
}

/// How far the messages of one datagram take an exchange.
pub enum Scan<I> {
    /// No message ended the exchange: another datagram is to be read. Holds
    /// the responses so far.
    More(Seq<Message<I>>),
    /// An acknowledgement or the end of a dump was met. Holds the responses
    /// that came before it.
    Finished(Seq<Message<I>>),
    /// The exchange failed; no response is handed out.
    Failed(Error),
}

/// The flags a request goes out with: those the sender names, else the
/// default ones.
pub open spec fn flags_or_default(flags: Option<u16>) -> u16 {
    match flags {
        Some(flags) => flags,
        None => DEFAULT_FLAGS,
    }
}

/// The finished header of a request: length and type computed from the
/// message, the flags as asked, sequence number and port id zero.
pub open spec fn request_header<I: Protocol>(message: &I, flags: Option<u16>) -> Header {
    Header::for_request(message.wire_len(), message.wire_type(), flags_or_default(flags))
}

/// The message that starts at the first of `bytes`, or why there is none:
/// the bytes cannot be handed to the parser, or the parser finds no
/// well-formed message in them.
pub open spec fn readable_message<I: Protocol>(bytes: Seq<u8>) -> Result<Message<I>, Error> {
    if I::readable(bytes) {
        match I::decoded(bytes) {
            Ok(m) => Ok(m),
            Err(reason) => Err(Error::Undecodable { reason }),
        }
    } else {
        Err(Error::Malformed)
    }
}

/// Reads the messages of the datagram `bytes` from `offset` on, after the
/// responses `seen`.
///
/// Each message starts where the one before it ends by its own declared
/// length. Bytes that hold no message the parser can read, or none that is
/// well formed, fail the exchange. An error message fails it with the
/// kernel's code. An
/// acknowledgement or a `Done` ends it with what was seen. Any other message
/// is a response. The datagram is used up when a message ends at or behind
/// its last byte, or declares the length zero.
pub open spec fn scan<I: Protocol>(bytes: Seq<u8>, offset: int, seen: Seq<Message<I>>) -> Scan<I>
    decreases bytes.len() - offset,
{
    match readable_message::<I>(bytes.skip(offset)) {
        Err(e) => Scan::Failed(e),
        Ok(m) => match m.payload {
            Payload::Ack { .. } | Payload::Done => Scan::Finished(seen),
            Payload::Error { code, .. } => Scan::Failed(Error::Kernel { code }),
            _ => {
                let next = offset + m.header.length;
                if m.header.length == 0 || next >= bytes.len() {
                    Scan::More(seen.push(m))
                } else {
                    scan(bytes, next, seen.push(m))
                }
            },
        },
    }
}

/// Serializes a request: the bytes to hand to the kernel in one write.
///
/// The header is finished first: flags as given or the default ones, the
/// length and the type computed from the message. A request of more than
/// [`MAX_NETLINK_BUFFER_LENGTH`] bytes is refused before anything is written.
pub fn serialize_request<I: Protocol>(message: &I, flags: Option<u16>) -> (r: Result<
    Vec<u8>,
    Error,
>)
    ensures
        match r {
            Ok(bytes) => {
                &&& message.wire_len() <= MAX_NETLINK_BUFFER_LENGTH
                &&& bytes@ == message.wire_bytes(request_header(message, flags))
                &&& bytes@.len() == message.wire_len()
            },
            Err(e) => {
                &&& message.wire_len() > MAX_NETLINK_BUFFER_LENGTH
                &&& e == Error::Oversize { len: message.wire_len() as usize }
            },
        },
{
    let len = message.buffer_len();
    if len > MAX_NETLINK_BUFFER_LENGTH {
        return Err(Error::Oversize { len });
    }
    let header = Header {
        length: len as u32,
        message_type: message.message_type(),
        flags: match flags {
            Some(flags) => flags,
            None => DEFAULT_FLAGS,
        },
        sequence_number: 0,
        port_number: 0,
    };
    Ok(message.serialize(&header))
}

/// Judges a write: the kernel must have taken the whole request at once.
pub fn check_sent(sent: usize, len: usize) -> (r: Result<(), Error>)
    ensures
        r == if sent == len {
            Ok::<(), Error>(())
        } else {
            Err::<(), Error>(Error::ShortWrite { sent, len })
        },
{
    if sent != len {
        return Err(Error::ShortWrite { sent, len });
    }
    Ok(())
}

/// The receiving side of an exchange: the responses collected so far.
pub struct Exchange<I> {
    responses: Vec<Message<I>>,
}

/// What to do after a datagram.
pub enum Step<I> {
    /// Read another datagram and hand it to the exchange.
    Receive(Exchange<I>),
    /// The exchange is over: these are its responses, in arrival order.
    Complete(Vec<Message<I>>),
    /// The exchange failed. What had been collected is dropped.
    Failed(Error),
}

impl<I> Exchange<I> {
    /// The responses collected so far, in arrival order.
    pub closed spec fn view(&self) -> Seq<Message<I>> {
        self.responses@
    }

    /// An exchange that has seen no datagram yet.
    pub fn new() -> (exchange: Self)
        ensures
            exchange@ == Seq::<Message<I>>::empty(),
    {
        Exchange { responses: Vec::new() }
    }
}

impl<I> Step<I> {
    /// The step as a scan's result.
    pub open spec fn view(&self) -> Scan<I> {
        match *self {
            Step::Receive(exchange) => Scan::More(exchange@),
            Step::Complete(responses) => Scan::Finished(responses@),
            Step::Failed(e) => Scan::Failed(e),
        }
    }
}

impl<I: Protocol> Exchange<I> {
    /// Takes one datagram from the kernel and says what comes next.
    pub fn on_datagram(self, bytes: &[u8]) -> (step: Step<I>)
        ensures
            step@ == scan(bytes@, 0, self@),
    {
        let ghost seen = self@;
        let mut responses = self.responses;
        let mut offset: usize = 0;
        loop
            invariant
                seen == self@,
                offset <= bytes@.len(),
                scan(bytes@, offset as int, responses@) == scan(bytes@, 0, seen),
            decreases bytes@.len() - offset,
        {
            let rest = slice_subrange(bytes, offset, bytes.len());
            assert(rest@ =~= bytes@.skip(offset as int));
            if !I::is_readable(rest) {
                return Step::Failed(Error::Malformed);
            }
            let response = match I::decode(rest) {
                Ok(response) => response,
                Err(reason) => {
                    return Step::Failed(Error::Undecodable { reason });
                },
            };
            match &response.payload {
                // Every part of the answer has been seen.
                Payload::Ack { .. } | Payload::Done => {
                    return Step::Complete(responses);
                },
                Payload::Error { code, .. } => {
                    return Step::Failed(Error::Kernel { code: *code });
                },
                _ => {},
            }
            let length = response.header.length;
            responses.push(response);
            offset += length as usize;
            if offset == bytes.len() || length == 0 {
                // The datagram is used up, but further datagrams may hold
                // more parts of the answer.
                return Step::Receive(Exchange { responses });
            }
        }
    }
}

} // verus!
