//! Telling the messages that the packet crates can take apart from those
//! they trip over.
//!
//! The crates parse a generic-netlink message into typed attributes, nested
//! ones included. A few of their parsers read a value without looking at its
//! length or range first and panic on a value that is too short or too
//! large: those for the mask of an allowed IP, for the handshake time of a
//! peer, and for the two kinds of policy of the controller. This module
//! walks the attribute headers of a message the way the crates' own iterator
//! does and says whether the walk meets such a value. A message is handed
//! to the crates only if it does not.
//!
//! The walk steps over values that the crates refuse for other reasons, so
//! it may find fault with a message that the crates would have refused
//! before they came to the faulty value. It finds none with a message that
//! the crates parse.

use vstd::prelude::*;

verus! {

/// Length of the netlink header and the generic-netlink header together:
/// where the attributes of a message start.
pub const ATTRIBUTES_OFFSET: usize = 20;

/// Length of an attribute's header: two bytes of length, two of type.
pub const NLA_HEADER_LEN: usize = 4;

/// The bits of an attribute's type field that say what the attribute is.
pub const NLA_TYPE_MASK: u16 = 0x3fff;

/// The last of the message types that netlink keeps for itself: no-op,
/// error, done and overrun are 1 to 4.
pub const NLMSG_LAST_CONTROL: u16 = 4;

/// Attribute of a WireGuard device: the list of its peers.
pub const WGDEVICE_A_PEERS: u16 = 8;

/// Attribute of a peer: the time of the last handshake.
pub const WGPEER_A_LAST_HANDSHAKE_TIME: u16 = 6;

/// Attribute of a peer: the list of its allowed IPs.
pub const WGPEER_A_ALLOWEDIPS: u16 = 9;

/// Attribute of an allowed IP: the length of its mask.
pub const WGALLOWEDIP_A_CIDR_MASK: u16 = 3;

/// Attribute of the controller: a policy.
pub const CTRL_ATTR_POLICY: u16 = 8;

/// Attribute of the controller: the policy of an operation.
pub const CTRL_ATTR_OP_POLICY: u16 = 9;

/// Length of a time on the wire: eight bytes of seconds, eight of
/// nanoseconds.
pub const TIMESPEC_LEN: usize = 16;

/// Nanoseconds in a second.
pub const NSEC_PER_SEC: u64 = 1_000_000_000;

/// The most seconds since the epoch that a point in time can hold.
pub const MAX_SECONDS: u64 = 0x7fff_ffff_ffff_ffff;

/// The number that `u16::from_ne_bytes` makes of two bytes.
pub uninterp spec fn native_u16(bytes: Seq<u8>) -> u16;

/// The number that `u32::from_ne_bytes` makes of four bytes.
pub uninterp spec fn native_u32(bytes: Seq<u8>) -> u32;

/// The number that `u64::from_ne_bytes` makes of eight bytes.
pub uninterp spec fn native_u64(bytes: Seq<u8>) -> u64;

/// Calls `u16::from_ne_bytes`: the bytes as a number in the byte order of
/// the machine, which is the order the packet crates read in.
#[verifier::external_body]
fn u16_from_native(bytes: [u8; 2]) -> (n: u16)
    ensures
        n == native_u16(bytes@),
{
    u16::from_ne_bytes(bytes)
}

/// Calls `u32::from_ne_bytes`: the bytes as a number in the byte order of
/// the machine.
#[verifier::external_body]
fn u32_from_native(bytes: [u8; 4]) -> (n: u32)
    ensures
        n == native_u32(bytes@),
{
    u32::from_ne_bytes(bytes)
}

/// Calls `u64::from_ne_bytes`: the bytes as a number in the byte order of
/// the machine.
#[verifier::external_body]
fn u64_from_native(bytes: [u8; 8]) -> (n: u64)
    ensures
        n == native_u64(bytes@),
{
    u64::from_ne_bytes(bytes)
}

/// The lists of attributes that a message can hold, from the outermost in.
#[derive(Clone, Copy, Debug, PartialEq, Eq)]
pub enum Layer {
    /// The attributes of a WireGuard device.
    Device,
    /// The peers of a device: one entry for each peer.
    Peers,
    /// The attributes of one peer.
    Peer,
    /// The allowed IPs of a peer: one entry for each.
    AllowedIps,
    /// The attributes of one allowed IP.
    AllowedIp,
    /// The attributes of a controller message.
    Control,
}

/// Where an attribute lies in a message.
pub struct Span {
    /// What the attribute is.
    pub kind: u16,
    /// Where its value starts.
    pub start: int,
    /// Where its value ends.
    pub end: int,
    /// Where the next attribute of the list starts, or the end of the list
    /// where none follows.
    pub next: int,
}

/// Where an attribute lies in a message, as the walk holds it.
#[derive(Clone, Copy, Debug, PartialEq, Eq)]
pub struct Attribute {
    /// What the attribute is.
    pub kind: u16,
    /// Where its value starts.
    pub start: usize,
    /// Where its value ends.
    pub end: usize,
    /// Where the next attribute of the list starts, or the end of the list
    /// where none follows.
    pub next: usize,
}

impl Attribute {
    /// The attribute's place in numbers without bound.
    pub open spec fn view(&self) -> Span {
        Span {
            kind: self.kind,
            start: self.start as int,
            end: self.end as int,
            next: self.next as int,
        }
    }
}

impl Layer {
    /// How many lists can be nested within a list of this layer.
    pub open spec fn depth(self) -> nat {
        match self {
            Layer::Device => 4,
            Layer::Peers => 3,
            Layer::Peer => 2,
            Layer::AllowedIps => 1,
            Layer::AllowedIp => 0,
            Layer::Control => 0,
        }
    }
}

/// A length rounded up to the next multiple of four: attributes are padded
/// to that.
pub open spec fn aligned(length: int) -> int {
    (length + 3) / 4 * 4
}

/// Rounding up by division is what the crates do with a mask: both give the
/// same number for every length an attribute can declare.
pub proof fn lemma_aligned_as_the_crates_align(length: u32)
    requires
        length <= 0xffff,
    ensures
        aligned(length as int) == ((length + 3) as u32 & !3u32),
{
    assert((length + 3) as u32 / 4 * 4 == ((length + 3) as u32 & !3u32)) by (bit_vector)
        requires
            length <= 0xffff,
    ;
}

/// The attribute whose header starts at `at` in a list that ends at `end`,
/// or `None` where no whole attribute starts there: where fewer than four
/// bytes are left, or where the declared length is less than the header's
/// or more than what is left.
pub open spec fn attribute_at(bytes: Seq<u8>, at: int, end: int) -> Option<Span> {
    if 0 <= at && at + NLA_HEADER_LEN <= end && end <= bytes.len() {
        let length = native_u16(bytes.subrange(at, at + 2)) as int;
        if NLA_HEADER_LEN <= length && at + length <= end {
            Some(
                Span {
                    kind: native_u16(bytes.subrange(at + 2, at + 4)) & NLA_TYPE_MASK,
                    start: at + NLA_HEADER_LEN,
                    end: at + length,
                    next: if at + aligned(length) < end {
                        at + aligned(length)
                    } else {
                        end
                    },
                },
            )
        } else {
            None
        }
    } else {
        None
    }
}

/// Can the value between `start` and `end` be read as a point in time? A
/// value of another length than a time's is refused by the crates before
/// they read it; one of that length must not lead past the last second
/// that a point in time can hold.
pub open spec fn time_fits(bytes: Seq<u8>, start: int, end: int) -> bool {
    end - start == TIMESPEC_LEN ==> native_u64(bytes.subrange(start, start + 8)) + native_u64(
        bytes.subrange(start + 8, start + 16),
    ) / NSEC_PER_SEC <= MAX_SECONDS
}

/// Does the value between `start` and `end` hold a policy: an attribute
/// that holds an attribute in turn, each with its whole header and no more
/// declared than is there?
pub open spec fn holds_policy(bytes: Seq<u8>, start: int, end: int) -> bool {
    match attribute_at(bytes, start, end) {
        Some(outer) => attribute_at(bytes, outer.start, outer.end) is Some,
        None => false,
    }
}

/// What the attribute at `span` must satisfy by itself in a list of the
/// layer `layer`, what is nested in it left aside.
pub open spec fn value_is_sound(bytes: Seq<u8>, layer: Layer, span: Span) -> bool {
    match layer {
        Layer::Peer => span.kind == WGPEER_A_LAST_HANDSHAKE_TIME ==> time_fits(
            bytes,
            span.start,
            span.end,
        ),
        Layer::AllowedIp => span.kind == WGALLOWEDIP_A_CIDR_MASK ==> span.start < span.end,
        Layer::Control => {
            &&& span.kind == CTRL_ATTR_POLICY ==> holds_policy(bytes, span.start, span.end)
            &&& span.kind == CTRL_ATTR_OP_POLICY ==> attribute_at(bytes, span.start, span.end)
                is Some
        },
        _ => true,
    }
}

/// The layer of the list that an attribute of kind `kind` holds in a list
/// of the layer `layer`, if it holds one.
pub open spec fn nested_layer(layer: Layer, kind: u16) -> Option<Layer> {
    match layer {
        Layer::Device => if kind == WGDEVICE_A_PEERS {
            Some(Layer::Peers)
        } else {
            None
        },
        Layer::Peers => Some(Layer::Peer),
        Layer::Peer => if kind == WGPEER_A_ALLOWEDIPS {
            Some(Layer::AllowedIps)
        } else {
            None
        },
        Layer::AllowedIps => Some(Layer::AllowedIp),
        Layer::AllowedIp => None,
        Layer::Control => None,
    }
}

/// Is the list of attributes of the layer `layer` between `at` and `end`
/// free of the values that the crates trip over, nested lists included?
///
/// The list is walked as the crates walk it: attribute by attribute, each
/// padded to a multiple of four bytes, up to the end of the list or to the
/// first place where no whole attribute starts.
pub open spec fn guarded(bytes: Seq<u8>, layer: Layer, at: int, end: int) -> bool
    decreases layer.depth(), end - at,
{
    match attribute_at(bytes, at, end) {
        None => true,
        Some(span) => {
            &&& value_is_sound(bytes, layer, span)
            &&& match nested_layer(layer, span.kind) {
                Some(inner) => inner.depth() < layer.depth() && guarded(
                    bytes,
                    inner,
                    span.start,
                    span.end,
                ),
                None => true,
            }
            &&& at < span.next < end ==> guarded(bytes, layer, span.next, end)
        },
    }
}

/// Where the attributes of the message at the start of `bytes` lie, or
/// `None` where the crates do not get as far as reading attributes: where
/// the header is not whole, the declared length does not reach to the
/// attributes or past the bytes, or the message is one of netlink's own.
pub open spec fn attributes_of(bytes: Seq<u8>) -> Option<(int, int)> {
    if bytes.len() >= ATTRIBUTES_OFFSET {
        let length = native_u32(bytes.subrange(0, 4)) as int;
        let message_type = native_u16(bytes.subrange(4, 6));
        if ATTRIBUTES_OFFSET <= length <= bytes.len() && !(1 <= message_type
            <= NLMSG_LAST_CONTROL) {
            Some((ATTRIBUTES_OFFSET as int, length))
        } else {
            None
        }
    } else {
        None
    }
}

/// Can the message at the start of `bytes` be parsed as one whose
/// attributes are of the layer `layer`?
pub open spec fn readable(bytes: Seq<u8>, layer: Layer) -> bool {
    match attributes_of(bytes) {
        Some((start, end)) => guarded(bytes, layer, start, end),
        None => true,
    }
}

/// Reads two bytes as a number in the byte order of the machine.
pub fn read_u16(bytes: &[u8], at: usize) -> (n: u16)
    requires
        at + 2 <= bytes@.len(),
    ensures
        n == native_u16(bytes@.subrange(at as int, at + 2)),
{
    let field = [bytes[at], bytes[at + 1]];
    assert(field@ =~= bytes@.subrange(at as int, at + 2));
    u16_from_native(field)
}

/// Reads four bytes as a number in the byte order of the machine.
pub fn read_u32(bytes: &[u8], at: usize) -> (n: u32)
    requires
        at + 4 <= bytes@.len(),
    ensures
        n == native_u32(bytes@.subrange(at as int, at + 4)),
{
    let field = [bytes[at], bytes[at + 1], bytes[at + 2], bytes[at + 3]];
    assert(field@ =~= bytes@.subrange(at as int, at + 4));
    u32_from_native(field)
}

/// Reads eight bytes as a number in the byte order of the machine.
pub fn read_u64(bytes: &[u8], at: usize) -> (n: u64)
    requires
        at + 8 <= bytes@.len(),
    ensures
        n == native_u64(bytes@.subrange(at as int, at + 8)),
{
    let field = [
        bytes[at],
        bytes[at + 1],
        bytes[at + 2],
        bytes[at + 3],
        bytes[at + 4],
        bytes[at + 5],
        bytes[at + 6],
        bytes[at + 7],
    ];
    assert(field@ =~= bytes@.subrange(at as int, at + 8));
    u64_from_native(field)
}

/// Reads the header of the attribute that starts at `at` in a list that
/// ends at `end`.
pub fn read_attribute(bytes: &[u8], at: usize, end: usize) -> (r: Option<Attribute>)
    requires
        at <= end <= bytes@.len(),
    ensures
        match r {
            Some(attribute) => attribute_at(bytes@, at as int, end as int) == Some(attribute@),
            None => attribute_at(bytes@, at as int, end as int) is None,
        },
        r matches Some(attribute) ==> at < attribute.start <= attribute.end <= end && at
            < attribute.next <= end,
{
    if end - at < NLA_HEADER_LEN {
        return None;
    }
    let length = read_u16(bytes, at) as usize;
    if length < NLA_HEADER_LEN || length > end - at {
        return None;
    }
    let kind = read_u16(bytes, at + 2) & NLA_TYPE_MASK;
    let padded = (length + 3) / 4 * 4;
    let next = if padded < end - at {
        at + padded
    } else {
        end
    };
    Some(Attribute { kind, start: at + NLA_HEADER_LEN, end: at + length, next })
}

/// Tells whether the value between `start` and `end` can be read as a point
/// in time.
pub fn check_time(bytes: &[u8], start: usize, end: usize) -> (ok: bool)
    requires
        start <= end <= bytes@.len(),
    ensures
        ok == time_fits(bytes@, start as int, end as int),
{
    if end - start != TIMESPEC_LEN {
        return true;
    }
    let seconds = read_u64(bytes, start);
    let nanoseconds = read_u64(bytes, start + 8);
    seconds <= MAX_SECONDS && seconds + nanoseconds / NSEC_PER_SEC <= MAX_SECONDS
}

/// Tells whether the value between `start` and `end` holds a policy.
pub fn check_policy(bytes: &[u8], start: usize, end: usize) -> (ok: bool)
    requires
        start <= end <= bytes@.len(),
    ensures
        ok == holds_policy(bytes@, start as int, end as int),
{
    match read_attribute(bytes, start, end) {
        Some(outer) => read_attribute(bytes, outer.start, outer.end).is_some(),
        None => false,
    }
}

/// Tells whether the attribute at `attribute` is sound by itself.
pub fn check_value(bytes: &[u8], layer: Layer, attribute: &Attribute) -> (ok: bool)
    requires
        attribute.start <= attribute.end <= bytes@.len(),
    ensures
        ok == value_is_sound(bytes@, layer, attribute@),
{
    match layer {
        Layer::Peer => attribute.kind != WGPEER_A_LAST_HANDSHAKE_TIME || check_time(
            bytes,
            attribute.start,
            attribute.end,
        ),
        Layer::AllowedIp => attribute.kind != WGALLOWEDIP_A_CIDR_MASK || attribute.start
            < attribute.end,
        Layer::Control => {
            (attribute.kind != CTRL_ATTR_POLICY || check_policy(
                bytes,
                attribute.start,
                attribute.end,
            )) && (attribute.kind != CTRL_ATTR_OP_POLICY || read_attribute(
                bytes,
                attribute.start,
                attribute.end,
            ).is_some())
        },
        _ => true,
    }
}

/// Tells which layer the list within an attribute has, if the attribute
/// holds a list.
pub fn layer_within(layer: Layer, kind: u16) -> (inner: Option<Layer>)
    ensures
        inner == nested_layer(layer, kind),
        inner matches Some(l) ==> l.depth() < layer.depth(),
{
    match layer {
        Layer::Device => if kind == WGDEVICE_A_PEERS {
            Some(Layer::Peers)
        } else {
            None
        },
        Layer::Peers => Some(Layer::Peer),
        Layer::Peer => if kind == WGPEER_A_ALLOWEDIPS {
            Some(Layer::AllowedIps)
        } else {
            None
        },
        Layer::AllowedIps => Some(Layer::AllowedIp),
        Layer::AllowedIp => None,
        Layer::Control => None,
    }
}

/// Walks the list of attributes between `start` and `end` and tells whether
/// it is free of the values that the crates trip over.
pub fn check_attributes(bytes: &[u8], layer: Layer, start: usize, end: usize) -> (ok: bool)
    requires
        start <= end <= bytes@.len(),
    ensures
        ok == guarded(bytes@, layer, start as int, end as int),
    decreases layer.depth(),
{
    let mut at = start;
    loop
        invariant
            start <= at <= end <= bytes@.len(),
            guarded(bytes@, layer, at as int, end as int) == guarded(
                bytes@,
                layer,
                start as int,
                end as int,
            ),
        decreases end - at,
    {
        let attribute = match read_attribute(bytes, at, end) {
            Some(attribute) => attribute,
            None => {
                return true;
            },
        };
        if !check_value(bytes, layer, &attribute) {
            return false;
        }
        if let Some(inner) = layer_within(layer, attribute.kind) {
            if !check_attributes(bytes, inner, attribute.start, attribute.end) {
                return false;
            }
        }
        if attribute.next >= end {
            return true;
        }
        at = attribute.next;
    }
}

/// Tells whether the message at the start of `bytes` can be handed to the
/// crates to be parsed as one whose attributes are of the layer `layer`.
pub fn is_readable(bytes: &[u8], layer: Layer) -> (ok: bool)
    ensures
        ok == readable(bytes@, layer),
{
    if bytes.len() < ATTRIBUTES_OFFSET {
        return true;
    }
    let length = read_u32(bytes, 0) as usize;
    let message_type = read_u16(bytes, 4);
    if length < ATTRIBUTES_OFFSET || length > bytes.len() || (1 <= message_type && message_type
        <= NLMSG_LAST_CONTROL) {
        return true;
    }
    check_attributes(bytes, layer, ATTRIBUTES_OFFSET, length)
}

} // verus!
