//! Netlink messages as the transport sees them, and what can go wrong with
//! an exchange.

use vstd::prelude::*;

verus! {

/// Must be set on every request.
pub const NLM_F_REQUEST: u16 = 1;

/// Asks for an acknowledgement.
pub const NLM_F_ACK: u16 = 4;

/// Asks for every entry: the answer may span several messages and ends with
/// a `Done` message.
pub const NLM_F_DUMP: u16 = 768;

/// Do not touch an object that exists already.
pub const NLM_F_EXCL: u16 = 512;

/// Create the object if it does not exist.
pub const NLM_F_CREATE: u16 = 1024;

/// The flags of a request whose sender names none: request, acknowledge,
/// exclusive, create.
pub const DEFAULT_FLAGS: u16 = NLM_F_REQUEST | NLM_F_ACK | NLM_F_EXCL | NLM_F_CREATE;

/// Length of the netlink header.
pub const NETLINK_HEADER_LEN: usize = 16;

/// Length of the generic-netlink header.
pub const GENL_HDRLEN: usize = 4;

/// The most bytes a serialized request may have.
pub const MAX_NETLINK_BUFFER_LENGTH: usize = 4096;

/// The most bytes the attributes of a generic-netlink request may have.
pub const MAX_GENL_PAYLOAD_LENGTH: usize = MAX_NETLINK_BUFFER_LENGTH - NETLINK_HEADER_LEN
    - GENL_HDRLEN;

/// The fixed header in front of every netlink message.
#[derive(Clone, Copy, Debug, PartialEq, Eq, Default)]
pub struct Header {
    /// Length of the whole message, header included.
    pub length: u32,
    /// What the payload is: a control type or a family id.
    pub message_type: u16,
    /// Request flags.
    pub flags: u16,
    /// Sequence number.
    pub sequence_number: u32,
    /// Port id of the sender.
    pub port_number: u32,
}

/// What a netlink message carries behind its header.
#[derive(Clone, Debug, PartialEq, Eq)]
pub enum Payload<I> {
    /// End of a multipart answer.
    Done,
    /// The kernel refused the request. `code` is a negative errno, `header`
    /// what the kernel echoed of the request.
    Error { code: i32, header: Vec<u8> },
    /// The kernel acknowledged the request.
    Ack { code: i32, header: Vec<u8> },
    /// To be ignored.
    Noop,
    /// Data was lost.
    Overrun(Vec<u8>),
    /// A message of the protocol spoken over netlink.
    InnerMessage(I),
}

/// A netlink message: header and payload.
#[derive(Clone, Debug, PartialEq, Eq)]
pub struct Message<I> {
    pub header: Header,
    pub payload: Payload<I>,
}

/// Why an exchange with the kernel failed.
#[derive(Clone, Debug, PartialEq, Eq)]
pub enum Error {
    /// The serialized request has `len` bytes, more than
    /// [`MAX_NETLINK_BUFFER_LENGTH`].
    Oversize { len: usize },
    /// The transport took `sent` of the request's `len` bytes.
    ShortWrite { sent: usize, len: usize },
    /// A datagram holds a message that cannot be handed to the parser: one
    /// of its attributes is too short or too large to be read.
    Malformed,
    /// A datagram holds no well-formed message where one must start;
    /// `reason` is what the parser says of it.
    Undecodable { reason: String },
    /// A response is not the kind of message that was expected.
    UnexpectedPayload,
    /// The answer to a family lookup names no family id.
    FamilyNotFound,
    /// The answer to a device query names no listen port.
    NoListenPort,
    /// The kernel answered with an error message that holds `code`.
    Kernel { code: i32 },
}

impl Error {
    /// The errno of a kernel error: the absolute value of its code.
    pub open spec fn spec_errno(self) -> Option<int> {
        match self {
            Error::Kernel { code } => Some(if code < 0 { -(code as int) } else { code as int }),
            _ => None,
        }
    }

    /// The errno that the kernel reported, for the errors that come from the
    /// kernel.
    pub fn errno(&self) -> (errno: Option<u32>)
        ensures
            match errno {
                Some(n) => self.spec_errno() == Some(n as int),
                None => self.spec_errno() is None,
            },
    {
        match self {
            Error::Kernel { code } => {
                let code: i32 = *code;
                if code >= 0 {
                    Some(code as u32)
                } else if code == i32::MIN {
                    Some(0x8000_0000)
                } else {
                    Some((-code) as u32)
                }
            },
            _ => None,
        }
    }
}

impl Header {
    /// The header of a request that is ready to be serialized: all zero but
    /// for the length, the type and the flags.
    pub open spec fn for_request(len: nat, message_type: u16, flags: u16) -> Header {
        Header { length: len as u32, message_type, flags, sequence_number: 0, port_number: 0 }
    }
}

} // verus!
