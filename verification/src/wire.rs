//! The boundary to the crates that know the netlink wire format.
//!
//! Generic-netlink messages stay values of those crates. What the library
//! needs of one, it asks through the functions below; their contracts are
//! believed, not proved.
//!
//! The crates panic on some inputs: on a message that is serialized into a
//! buffer of another length than its own, and on a few kinds of attribute
//! that are too short or too large to be read. The preconditions below
//! leave those inputs out; [`crate::guard`] tells them apart.

use vstd::prelude::*;
use crate::guard::{is_readable, readable, Layer};
use crate::message::{Header, Message, Payload};
use crate::resolver::Family;
use crate::transport::Protocol;
use netlink_packet_core::{NetlinkHeader, NetlinkMessage, NetlinkPayload, NetlinkSerializable};
use netlink_packet_generic::ctrl::nlas::GenlCtrlAttrs;
use netlink_packet_generic::ctrl::{GenlCtrl, GenlCtrlCmd};
use netlink_packet_generic::{GenlFamily, GenlMessage};
use netlink_packet_wireguard::nlas::WgDeviceAttrs;
use netlink_packet_wireguard::{Wireguard, WireguardCmd};

verus! {

/// The command that asks for a WireGuard device.
pub const WG_CMD_GET_DEVICE: u8 = 0;

/// The command that asks the controller for a family.
pub const CTRL_CMD_GETFAMILY: u8 = 3;

/// The family id of the controller, which is fixed.
pub const GENL_ID_CTRL: u16 = 16;

/// `netlink_packet_generic::GenlMessage`: a generic-netlink message with
/// its command, version, resolved family id and the family's payload.
#[verifier::external_type_specification]
#[verifier::external_body]
#[verifier::reject_recursive_types(F)]
pub struct ExGenlMessage<F>(GenlMessage<F>);

/// `netlink_packet_wireguard::Wireguard`: a command of the WireGuard family
/// and its attributes.
#[verifier::external_type_specification]
#[verifier::external_body]
pub struct ExWireguard(Wireguard);

/// `netlink_packet_generic::ctrl::GenlCtrl`: a command of the controller
/// family and its attributes.
#[verifier::external_type_specification]
#[verifier::external_body]
pub struct ExGenlCtrl(GenlCtrl);

/// What `NetlinkMessage::<GenlMessage<Wireguard>>::deserialize` makes of
/// `bytes`; where it fails, the text of its error.
pub uninterp spec fn device_message(bytes: Seq<u8>) -> Result<
    Message<GenlMessage<Wireguard>>,
    String,
>;

/// What `NetlinkMessage::buffer_len` returns for `message` behind a netlink
/// header.
pub uninterp spec fn device_len(message: GenlMessage<Wireguard>) -> nat;

/// What `GenlMessage::family_id` returns for `message`.
pub uninterp spec fn device_family(message: GenlMessage<Wireguard>) -> u16;

/// What a buffer of zeros holds after `NetlinkMessage::serialize` has written
/// `message` into it behind `header`.
pub uninterp spec fn device_bytes(header: Header, message: GenlMessage<Wireguard>) -> Seq<u8>;

/// For each attribute of `message`, in order: the listen port it holds, or
/// `None` where it is another attribute.
pub uninterp spec fn device_listen_ports(message: GenlMessage<Wireguard>) -> Seq<Option<u16>>;

/// The command that the header of `message` holds.
pub uninterp spec fn device_command(message: GenlMessage<Wireguard>) -> u8;

/// For each attribute of `message`, in order: the interface name it holds,
/// or `None` where it is another attribute.
pub uninterp spec fn device_interface_names(message: GenlMessage<Wireguard>) -> Seq<
    Option<Seq<char>>,
>;

/// The "get device" message that carries the interface name `name` and
/// nothing else.
pub uninterp spec fn device_query(name: Seq<char>) -> GenlMessage<Wireguard>;

/// `message` after `set_resolved_family_id(id)`.
pub uninterp spec fn device_with_family(message: GenlMessage<Wireguard>, id: u16) -> GenlMessage<
    Wireguard,
>;

/// What `NetlinkMessage::<GenlMessage<GenlCtrl>>::deserialize` makes of
/// `bytes`; where it fails, the text of its error.
pub uninterp spec fn control_message(bytes: Seq<u8>) -> Result<
    Message<GenlMessage<GenlCtrl>>,
    String,
>;

/// What `NetlinkMessage::buffer_len` returns for `message` behind a netlink
/// header.
pub uninterp spec fn control_len(message: GenlMessage<GenlCtrl>) -> nat;

/// What `NetlinkSerializable::message_type` returns for `message`.
pub uninterp spec fn control_type(message: GenlMessage<GenlCtrl>) -> u16;

/// What a buffer of zeros holds after `NetlinkMessage::serialize` has written
/// `message` into it behind `header`.
pub uninterp spec fn control_bytes(header: Header, message: GenlMessage<GenlCtrl>) -> Seq<u8>;

/// For each attribute of `message`, in order: the family id it holds, or
/// `None` where it is another attribute.
pub uninterp spec fn control_family_ids(message: GenlMessage<GenlCtrl>) -> Seq<Option<u16>>;

/// The command that the header of `message` holds.
pub uninterp spec fn control_command(message: GenlMessage<GenlCtrl>) -> u8;

/// For each attribute of `message`, in order: the family name it holds, or
/// `None` where it is another attribute.
pub uninterp spec fn control_family_names(message: GenlMessage<GenlCtrl>) -> Seq<
    Option<Seq<char>>,
>;

/// The "get family" message that carries the family name `name` and nothing
/// else.
pub uninterp spec fn family_query(name: Seq<char>) -> GenlMessage<GenlCtrl>;

/// Calls `NetlinkMessage::<GenlMessage<Wireguard>>::deserialize` and hands
/// the message out field by field, or the text of the crate's error. The
/// crate checks that the declared length is at least the header's 16 bytes
/// and at most the buffer's length.
///
/// The crate's parsers for the attributes of a peer index into the mask of
/// an allowed IP without looking at its length, and add a handshake time to
/// the epoch without looking at its range; they panic on an empty mask and
/// on a time past the last second that `SystemTime` holds. Every other
/// value is checked before it is read. The precondition leaves out the
/// messages in which the crate's walk through the attributes meets one of
/// the two.
#[verifier::external_body]
pub(crate) fn decode_device(bytes: &[u8]) -> (r: Result<Message<GenlMessage<Wireguard>>, String>)
    requires
        readable(bytes@, Layer::Device),
    ensures
        r == device_message(bytes@),
        r matches Ok(m) ==> 16 <= m.header.length <= bytes@.len(),
{
    let m = NetlinkMessage::<GenlMessage<Wireguard>>::deserialize(bytes).map_err(|e| e.to_string())?;
    let (h, p) = m.into_parts();
    let header = Header { length: h.length, message_type: h.message_type, flags: h.flags,
        sequence_number: h.sequence_number, port_number: h.port_number };
    let payload = match p {
        NetlinkPayload::Done => Payload::Done,
        NetlinkPayload::Error(e) => Payload::Error { code: e.code, header: e.header },
        NetlinkPayload::Ack(e) => Payload::Ack { code: e.code, header: e.header },
        NetlinkPayload::Noop => Payload::Noop,
        NetlinkPayload::Overrun(b) => Payload::Overrun(b),
        NetlinkPayload::InnerMessage(i) => Payload::InnerMessage(i),
    };
    Ok(Message { header, payload })
}

/// Calls `NetlinkMessage::buffer_len` on `message` wrapped in a netlink
/// message.
#[verifier::external_body]
pub(crate) fn device_buffer_len(message: &GenlMessage<Wireguard>) -> (len: usize)
    ensures
        len == device_len(*message),
{
    NetlinkMessage::from(message.clone()).buffer_len()
}

/// Calls `GenlMessage::family_id`. The crate puts the same number into the
/// type field of the netlink header: its `message_type` is this call.
#[verifier::external_body]
pub(crate) fn device_family_id(message: &GenlMessage<Wireguard>) -> (id: u16)
    ensures
        id == device_family(*message),
{
    message.family_id()
}

/// Calls `NetlinkMessage::serialize` on `message` behind `header`, into a
/// buffer of zeros that has the declared length. The crate panics unless
/// that length is the message's own, and where an attribute is too long for
/// the 16 bits of its length field; hence the preconditions.
#[verifier::external_body]
pub(crate) fn serialize_device(message: &GenlMessage<Wireguard>, header: &Header) -> (bytes: Vec<
    u8,
>)
    requires
        header.length == device_len(*message),
        header.length <= 4096,
    ensures
        bytes@ == device_bytes(*header, *message),
        bytes@.len() == header.length,
{
    let h = NetlinkHeader { length: header.length, message_type: header.message_type,
        flags: header.flags, sequence_number: header.sequence_number,
        port_number: header.port_number };
    let mut bytes = vec![0u8; header.length as usize];
    NetlinkMessage::new(h, NetlinkPayload::InnerMessage(message.clone())).serialize(&mut bytes);
    bytes
}

/// Counts the attributes of `message`.
#[verifier::external_body]
pub(crate) fn device_attribute_count(message: &GenlMessage<Wireguard>) -> (count: usize)
    ensures
        count == device_listen_ports(*message).len(),
{
    message.payload.nlas.len()
}

/// Looks at the attribute `i` of `message` and tells a listen port apart
/// from every other attribute.
#[verifier::external_body]
pub(crate) fn device_listen_port_at(message: &GenlMessage<Wireguard>, i: usize) -> (port: Option<
    u16,
>)
    requires
        i < device_listen_ports(*message).len(),
    ensures
        port == device_listen_ports(*message)[i as int],
{
    match &message.payload.nlas[i] {
        WgDeviceAttrs::ListenPort(port) => Some(*port),
        _ => None,
    }
}

/// Calls `GenlMessage::from_payload` on a "get device" command with the one
/// attribute `IfName(name)`. The crate copies the command's number, which is
/// 0, into the header. The message comes out with no family id: the
/// WireGuard family has no fixed one.
#[verifier::external_body]
pub(crate) fn get_device(name: &str) -> (message: GenlMessage<Wireguard>)
    ensures
        message == device_query(name@),
        device_family(message) == 0,
        device_command(message) == WG_CMD_GET_DEVICE,
        device_interface_names(message) == seq![Some(name@)],
        device_listen_ports(message) == seq![None::<u16>],
{
    let nlas = vec![WgDeviceAttrs::IfName(name.to_string())];
    GenlMessage::from_payload(Wireguard { cmd: WireguardCmd::GetDevice, nlas })
}

/// Calls `GenlMessage::set_resolved_family_id`, which assigns one field and
/// leaves the rest as it is. The WireGuard family has no fixed id, so the
/// message's family id is then the resolved one.
#[verifier::external_body]
pub(crate) fn set_device_family(message: &mut GenlMessage<Wireguard>, id: u16)
    ensures
        *final(message) == device_with_family(*old(message), id),
        device_family(*final(message)) == id,
        device_len(*final(message)) == device_len(*old(message)),
        device_command(*final(message)) == device_command(*old(message)),
        device_listen_ports(*final(message)) == device_listen_ports(*old(message)),
        device_interface_names(*final(message)) == device_interface_names(*old(message)),
{
    message.set_resolved_family_id(id)
}

/// Calls `Wireguard::family_name`, which is the constant "wireguard".
#[verifier::external_body]
pub(crate) fn device_family_name() -> (name: &'static str)
    ensures
        name@ == "wireguard"@,
{
    Wireguard::family_name()
}

/// Calls `NetlinkMessage::<GenlMessage<GenlCtrl>>::deserialize` and hands
/// the message out field by field, or the text of the crate's error. The
/// crate checks that the declared length is at least the header's 16 bytes
/// and at most the buffer's length.
///
/// The crate's parsers for a policy and for the policy of an operation read
/// the attribute nested in the value, and for a policy the one nested in
/// that, without checking that its header is whole and declares no more
/// than is there; they panic where it is not. Every other value is checked
/// before it is read. The precondition leaves out the messages in which the
/// crate's walk through the attributes meets such a value.
#[verifier::external_body]
pub(crate) fn decode_control(bytes: &[u8]) -> (r: Result<Message<GenlMessage<GenlCtrl>>, String>)
    requires
        readable(bytes@, Layer::Control),
    ensures
        r == control_message(bytes@),
        r matches Ok(m) ==> 16 <= m.header.length <= bytes@.len(),
{
    let m = NetlinkMessage::<GenlMessage<GenlCtrl>>::deserialize(bytes).map_err(|e| e.to_string())?;
    let (h, p) = m.into_parts();
    let header = Header { length: h.length, message_type: h.message_type, flags: h.flags,
        sequence_number: h.sequence_number, port_number: h.port_number };
    let payload = match p {
        NetlinkPayload::Done => Payload::Done,
        NetlinkPayload::Error(e) => Payload::Error { code: e.code, header: e.header },
        NetlinkPayload::Ack(e) => Payload::Ack { code: e.code, header: e.header },
        NetlinkPayload::Noop => Payload::Noop,
        NetlinkPayload::Overrun(b) => Payload::Overrun(b),
        NetlinkPayload::InnerMessage(i) => Payload::InnerMessage(i),
    };
    Ok(Message { header, payload })
}

/// Calls `NetlinkMessage::buffer_len` on `message` wrapped in a netlink
/// message.
#[verifier::external_body]
pub(crate) fn control_buffer_len(message: &GenlMessage<GenlCtrl>) -> (len: usize)
    ensures
        len == control_len(*message),
{
    NetlinkMessage::from(message.clone()).buffer_len()
}

/// Calls `NetlinkSerializable::message_type`, which for the controller is
/// its fixed family id, 16.
#[verifier::external_body]
pub(crate) fn control_message_type(message: &GenlMessage<GenlCtrl>) -> (id: u16)
    ensures
        id == control_type(*message),
        id == GENL_ID_CTRL,
{
    NetlinkSerializable::message_type(message)
}

/// Calls `NetlinkMessage::serialize` on `message` behind `header`, into a
/// buffer of zeros that has the declared length. The crate panics unless
/// that length is the message's own, and where an attribute is too long for
/// the 16 bits of its length field; hence the preconditions.
#[verifier::external_body]
pub(crate) fn serialize_control(message: &GenlMessage<GenlCtrl>, header: &Header) -> (bytes: Vec<
    u8,
>)
    requires
        header.length == control_len(*message),
        header.length <= 4096,
    ensures
        bytes@ == control_bytes(*header, *message),
        bytes@.len() == header.length,
{
    let h = NetlinkHeader { length: header.length, message_type: header.message_type,
        flags: header.flags, sequence_number: header.sequence_number,
        port_number: header.port_number };
    let mut bytes = vec![0u8; header.length as usize];
    NetlinkMessage::new(h, NetlinkPayload::InnerMessage(message.clone())).serialize(&mut bytes);
    bytes
}

/// Counts the attributes of `message`.
#[verifier::external_body]
pub(crate) fn control_attribute_count(message: &GenlMessage<GenlCtrl>) -> (count: usize)
    ensures
        count == control_family_ids(*message).len(),
{
    message.payload.nlas.len()
}

/// Looks at the attribute `i` of `message` and tells a family id apart from
/// every other attribute.
#[verifier::external_body]
pub(crate) fn control_family_id_at(message: &GenlMessage<GenlCtrl>, i: usize) -> (id: Option<u16>)
    requires
        i < control_family_ids(*message).len(),
    ensures
        id == control_family_ids(*message)[i as int],
{
    match &message.payload.nlas[i] {
        GenlCtrlAttrs::FamilyId(id) => Some(*id),
        _ => None,
    }
}

/// Calls `GenlMessage::from_payload` on a "get family" command with the one
/// attribute `FamilyName(name)`. The crate copies the command's number,
/// which is 3, into the header; the message is the controller's and goes
/// out under its fixed id.
#[verifier::external_body]
pub(crate) fn get_family(name: &str) -> (message: GenlMessage<GenlCtrl>)
    ensures
        message == family_query(name@),
        control_type(message) == GENL_ID_CTRL,
        control_command(message) == CTRL_CMD_GETFAMILY,
        control_family_names(message) == seq![Some(name@)],
        control_family_ids(message) == seq![None::<u16>],
{
    let nlas = vec![GenlCtrlAttrs::FamilyName(name.to_string())];
    GenlMessage::from_payload(GenlCtrl { cmd: GenlCtrlCmd::GetFamily, nlas })
}

impl Protocol for GenlMessage<Wireguard> {
    open spec fn readable(bytes: Seq<u8>) -> bool {
        readable(bytes, Layer::Device)
    }

    fn is_readable(bytes: &[u8]) -> (ok: bool) {
        is_readable(bytes, Layer::Device)
    }

    open spec fn decoded(bytes: Seq<u8>) -> Result<Message<Self>, String> {
        device_message(bytes)
    }

    open spec fn wire_len(&self) -> nat {
        device_len(*self)
    }

    open spec fn wire_type(&self) -> u16 {
        device_family(*self)
    }

    open spec fn wire_bytes(&self, header: Header) -> Seq<u8> {
        device_bytes(header, *self)
    }

    fn decode(bytes: &[u8]) -> (r: Result<Message<Self>, String>) {
        decode_device(bytes)
    }

    fn buffer_len(&self) -> (len: usize) {
        device_buffer_len(self)
    }

    fn message_type(&self) -> (message_type: u16) {
        device_family_id(self)
    }

    fn serialize(&self, header: &Header) -> (bytes: Vec<u8>) {
        serialize_device(self, header)
    }
}

impl Family for GenlMessage<Wireguard> {
    open spec fn name() -> Seq<char> {
        "wireguard"@
    }

    open spec fn with_family_id(self, id: u16) -> Self {
        device_with_family(self, id)
    }

    fn family_name() -> (name: &'static str) {
        device_family_name()
    }

    fn set_resolved_family_id(&mut self, id: u16) {
        set_device_family(self, id)
    }
}

impl Protocol for GenlMessage<GenlCtrl> {
    open spec fn readable(bytes: Seq<u8>) -> bool {
        readable(bytes, Layer::Control)
    }

    fn is_readable(bytes: &[u8]) -> (ok: bool) {
        is_readable(bytes, Layer::Control)
    }

    open spec fn decoded(bytes: Seq<u8>) -> Result<Message<Self>, String> {
        control_message(bytes)
    }

    open spec fn wire_len(&self) -> nat {
        control_len(*self)
    }

    open spec fn wire_type(&self) -> u16 {
        control_type(*self)
    }

    open spec fn wire_bytes(&self, header: Header) -> Seq<u8> {
        control_bytes(header, *self)
    }

    fn decode(bytes: &[u8]) -> (r: Result<Message<Self>, String>) {
        decode_control(bytes)
    }

    fn buffer_len(&self) -> (len: usize) {
        control_buffer_len(self)
    }

    fn message_type(&self) -> (message_type: u16) {
        control_message_type(self)
    }

    fn serialize(&self, header: &Header) -> (bytes: Vec<u8>) {
        serialize_control(self, header)
    }
}

} // verus!
