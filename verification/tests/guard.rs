use std::time::{Duration, SystemTime};

use netlink_packet_generic::constants as generic;
use netlink_packet_generic::ctrl::nlas::{
    AttributePolicyAttr, GenlCtrlAttrs, NlPolicyTypeAttrs, OppolicyAttr, PolicyAttr,
};
use netlink_packet_generic::ctrl::{GenlCtrl, GenlCtrlCmd};
use netlink_packet_generic::GenlMessage;
use netlink_packet_wireguard::constants as wireguard;
use netlink_packet_wireguard::nlas::{
    WgAllowedIp, WgAllowedIpAttrs, WgDeviceAttrs, WgPeer, WgPeerAttrs,
};
use netlink_packet_wireguard::{Wireguard, WireguardCmd};
use wg_nat::device::listen_port;
use wg_nat::guard::{
    check_attributes, check_policy, check_time, is_readable, read_attribute, read_u16, read_u32,
    read_u64, Attribute, Layer, ATTRIBUTES_OFFSET, CTRL_ATTR_OP_POLICY, CTRL_ATTR_POLICY,
    MAX_SECONDS, NLA_HEADER_LEN, NLA_TYPE_MASK, NLMSG_LAST_CONTROL, NSEC_PER_SEC, TIMESPEC_LEN,
    WGALLOWEDIP_A_CIDR_MASK, WGDEVICE_A_PEERS, WGPEER_A_ALLOWEDIPS, WGPEER_A_LAST_HANDSHAKE_TIME,
};
use wg_nat::message::{Error, Message, Payload};
use wg_nat::transport::{serialize_request, Exchange, Protocol, Step};
use wg_nat::wire::{CTRL_CMD_GETFAMILY, GENL_ID_CTRL, WG_CMD_GET_DEVICE};

type DeviceMessage = GenlMessage<Wireguard>;
type ControlMessage = GenlMessage<GenlCtrl>;

/// An attribute on the wire: header, value, padding.
fn attribute(kind: u16, value: &[u8]) -> Vec<u8> {
    let mut bytes = Vec::new();
    bytes.extend_from_slice(&((value.len() + 4) as u16).to_ne_bytes());
    bytes.extend_from_slice(&kind.to_ne_bytes());
    bytes.extend_from_slice(value);
    while bytes.len() % 4 != 0 {
        bytes.push(0);
    }
    bytes
}

/// A generic-netlink message on the wire.
fn message(message_type: u16, command: u8, version: u8, attributes: &[u8]) -> Vec<u8> {
    let mut bytes = Vec::new();
    bytes.extend_from_slice(&((20 + attributes.len()) as u32).to_ne_bytes());
    bytes.extend_from_slice(&message_type.to_ne_bytes());
    bytes.extend_from_slice(&[0u8; 10]);
    bytes.extend_from_slice(&[command, version, 0, 0]);
    bytes.extend_from_slice(attributes);
    bytes
}

fn time(seconds: u64, nanoseconds: u64) -> Vec<u8> {
    let mut bytes = seconds.to_ne_bytes().to_vec();
    bytes.extend_from_slice(&nanoseconds.to_ne_bytes());
    bytes
}

/// A device with one peer, as the kernel reports it.
fn device_with_peer() -> DeviceMessage {
    let mut message = GenlMessage::from_payload(Wireguard {
        cmd: WireguardCmd::GetDevice,
        nlas: vec![
            WgDeviceAttrs::IfName("wg0".to_string()),
            WgDeviceAttrs::ListenPort(51820),
            WgDeviceAttrs::Peers(vec![WgPeer(vec![
                WgPeerAttrs::PublicKey([1u8; 32]),
                WgPeerAttrs::LastHandshake(
                    SystemTime::UNIX_EPOCH + Duration::new(1_700_000_000, 5),
                ),
                WgPeerAttrs::AllowedIps(vec![WgAllowedIp(vec![
                    WgAllowedIpAttrs::Family(2),
                    WgAllowedIpAttrs::IpAddr([10, 0, 0, 0].into()),
                    WgAllowedIpAttrs::Cidr(24),
                ])]),
            ])]),
        ],
    });
    message.set_resolved_family_id(28);
    message
}

/// The first attribute of kind `kind` in the list between `start` and
/// `end`.
fn find(bytes: &[u8], kind: u16, start: usize, end: usize) -> Attribute {
    let mut at = start;
    loop {
        let attribute = read_attribute(bytes, at, end).unwrap();
        if attribute.kind == kind {
            return attribute;
        }
        assert!(attribute.next < end, "no attribute of kind {}", kind);
        at = attribute.next;
    }
}

/// The attributes of the one peer of `device_with_peer`.
fn peer(bytes: &[u8]) -> Attribute {
    let peers = find(bytes, WGDEVICE_A_PEERS, ATTRIBUTES_OFFSET, bytes.len());
    read_attribute(bytes, peers.start, peers.end).unwrap()
}

fn device_step(bytes: &[u8]) -> Step<DeviceMessage> {
    Exchange::<DeviceMessage>::new().on_datagram(bytes)
}

fn control_step(bytes: &[u8]) -> Step<ControlMessage> {
    Exchange::<ControlMessage>::new().on_datagram(bytes)
}

fn responses<I>(step: Step<I>) -> Vec<Message<I>> {
    match step {
        Step::Receive(_) => panic!("the exchange goes on"),
        Step::Complete(responses) => responses,
        Step::Failed(e) => panic!("the exchange failed: {:?}", e),
    }
}

fn is_malformed<I>(step: Step<I>) -> bool {
    matches!(step, Step::Failed(Error::Malformed))
}

fn done() -> Vec<u8> {
    let mut bytes = Vec::new();
    bytes.extend_from_slice(&20u32.to_ne_bytes());
    bytes.extend_from_slice(&3u16.to_ne_bytes());
    bytes.extend_from_slice(&[0u8; 14]);
    bytes
}

#[test]
fn kinds_are_those_of_the_families() {
    assert_eq!(WGDEVICE_A_PEERS, wireguard::WGDEVICE_A_PEERS);
    assert_eq!(WGPEER_A_LAST_HANDSHAKE_TIME, wireguard::WGPEER_A_LAST_HANDSHAKE_TIME);
    assert_eq!(WGPEER_A_ALLOWEDIPS, wireguard::WGPEER_A_ALLOWEDIPS);
    assert_eq!(WGALLOWEDIP_A_CIDR_MASK, wireguard::WGALLOWEDIP_A_CIDR_MASK);
    assert_eq!(WG_CMD_GET_DEVICE, wireguard::WG_CMD_GET_DEVICE);
    assert_eq!(CTRL_ATTR_POLICY, generic::CTRL_ATTR_POLICY);
    assert_eq!(CTRL_ATTR_OP_POLICY, generic::CTRL_ATTR_OP_POLICY);
    assert_eq!(CTRL_CMD_GETFAMILY, generic::CTRL_CMD_GETFAMILY);
    assert_eq!(GENL_ID_CTRL, generic::GENL_ID_CTRL);
    assert_eq!(NLMSG_LAST_CONTROL, netlink_packet_core::NLMSG_OVERRUN);
    assert_eq!(ATTRIBUTES_OFFSET, netlink_packet_core::NETLINK_HEADER_LEN + generic::GENL_HDRLEN);
    assert_eq!((NLA_HEADER_LEN, NLA_TYPE_MASK, TIMESPEC_LEN), (4, 0x3fff, 16));
    assert_eq!(MAX_SECONDS, i64::MAX as u64);
    assert_eq!(NSEC_PER_SEC, 1_000_000_000);
}

#[test]
fn numbers_are_read_in_the_machines_order() {
    let bytes = [0, 1, 2, 3, 4, 5, 6, 7, 8, 9];
    assert_eq!(read_u16(&bytes, 1), u16::from_ne_bytes([1, 2]));
    assert_eq!(read_u32(&bytes, 2), u32::from_ne_bytes([2, 3, 4, 5]));
    assert_eq!(read_u64(&bytes, 2), u64::from_ne_bytes([2, 3, 4, 5, 6, 7, 8, 9]));
    assert_eq!(read_u16(&0x1234u16.to_ne_bytes(), 0), 0x1234);
}

#[test]
fn attribute_header_is_read() {
    let mut list = attribute(6, &[1, 2]);
    list.extend_from_slice(&attribute(0x8000 | 8, &[9; 8]));
    assert_eq!(
        read_attribute(&list, 0, list.len()),
        Some(Attribute { kind: 6, start: 4, end: 6, next: 8 })
    );
    // The flag for nested attributes is no part of the kind.
    assert_eq!(
        read_attribute(&list, 8, list.len()),
        Some(Attribute { kind: 8, start: 12, end: 20, next: 20 })
    );
}

#[test]
fn attribute_without_a_whole_header_is_none() {
    let list = attribute(6, &[1, 2]);
    assert_eq!(read_attribute(&list, 0, 3), None);
    assert_eq!(read_attribute(&list, 8, 8), None);
    // Less declared than a header has.
    let mut short = attribute(6, &[]);
    short[..2].copy_from_slice(&3u16.to_ne_bytes());
    assert_eq!(read_attribute(&short, 0, 4), None);
    // More declared than is there.
    assert_eq!(read_attribute(&list, 0, 5), None);
    // Padding may be missing behind the last attribute.
    assert_eq!(
        read_attribute(&list, 0, 6),
        Some(Attribute { kind: 6, start: 4, end: 6, next: 6 })
    );
}

#[test]
fn times_up_to_the_last_second_fit() {
    let fits = |bytes: Vec<u8>| check_time(&bytes, 0, bytes.len());
    assert!(fits(time(0, 0)));
    assert!(fits(time(1_700_000_000, 999_999_999)));
    assert!(fits(time(MAX_SECONDS, 999_999_999)));
    assert!(fits(time(MAX_SECONDS - 1, 1_999_999_999)));
    assert!(!fits(time(MAX_SECONDS, 1_000_000_000)));
    assert!(!fits(time(MAX_SECONDS + 1, 0)));
    assert!(!fits(time(u64::MAX, u64::MAX)));
    assert!(!fits(time(MAX_SECONDS - 18_446_744_072, u64::MAX)));
    assert!(fits(time(MAX_SECONDS - 18_446_744_073, u64::MAX)));
    // Another length is no time, and is refused before it is read.
    assert!(fits(vec![0xff; 15]));
    assert!(fits(vec![]));
}

#[test]
fn policy_needs_two_whole_headers() {
    let holds = |bytes: Vec<u8>| check_policy(&bytes, 0, bytes.len());
    assert!(holds(attribute(1, &attribute(2, &[]))));
    assert!(holds(attribute(1, &attribute(2, &attribute(6, &1u32.to_ne_bytes())))));
    assert!(!holds(vec![]));
    assert!(!holds(vec![4, 0]));
    assert!(!holds(attribute(1, &[])));
    assert!(!holds(attribute(1, &[4, 0])));
    let mut long = attribute(1, &attribute(2, &[]));
    long[4..6].copy_from_slice(&5u16.to_ne_bytes());
    assert!(!holds(long));
}

#[test]
fn what_the_kernel_reports_is_readable() {
    let bytes = serialize_request(&device_with_peer(), Some(2)).unwrap();
    assert!(is_readable(&bytes, Layer::Device));
    assert!(<DeviceMessage as Protocol>::is_readable(&bytes));
    let mut datagram = bytes.clone();
    datagram.extend_from_slice(&done());
    let responses = responses(device_step(&datagram));
    assert_eq!(responses.len(), 1);
    assert_eq!(responses[0].payload, Payload::InnerMessage(device_with_peer()));
    assert_eq!(listen_port(&responses), Ok(51820));
}

#[test]
fn empty_mask_is_refused() {
    let mut bytes = serialize_request(&device_with_peer(), Some(2)).unwrap();
    let peer = peer(&bytes);
    let ips = find(&bytes, WGPEER_A_ALLOWEDIPS, peer.start, peer.end);
    let ip = read_attribute(&bytes, ips.start, ips.end).unwrap();
    let mask = find(&bytes, WGALLOWEDIP_A_CIDR_MASK, ip.start, ip.end);
    assert_eq!(mask.end - mask.start, 1);
    assert!(check_attributes(&bytes, Layer::AllowedIp, ip.start, ip.end));

    bytes[mask.start - 4..mask.start - 2].copy_from_slice(&4u16.to_ne_bytes());

    assert!(!check_attributes(&bytes, Layer::AllowedIp, ip.start, ip.end));
    assert!(!check_attributes(&bytes, Layer::AllowedIps, ips.start, ips.end));
    assert!(!check_attributes(&bytes, Layer::Peer, peer.start, peer.end));
    assert!(!is_readable(&bytes, Layer::Device));
    assert!(!<DeviceMessage as Protocol>::is_readable(&bytes));
    assert!(is_malformed(device_step(&bytes)));
}

#[test]
fn handshake_past_the_last_second_is_refused() {
    let mut bytes = serialize_request(&device_with_peer(), Some(2)).unwrap();
    let peer = peer(&bytes);
    let handshake = find(&bytes, WGPEER_A_LAST_HANDSHAKE_TIME, peer.start, peer.end);
    assert_eq!(handshake.end - handshake.start, TIMESPEC_LEN);

    bytes[handshake.start..handshake.end].copy_from_slice(&time(u64::MAX, 0));
    assert!(!is_readable(&bytes, Layer::Device));
    assert!(is_malformed(device_step(&bytes)));

    bytes[handshake.start..handshake.end].copy_from_slice(&time(MAX_SECONDS, NSEC_PER_SEC));
    assert!(!is_readable(&bytes, Layer::Device));
    assert!(is_malformed(device_step(&bytes)));
}

#[test]
fn handshake_at_the_last_second_is_read() {
    let mut bytes = serialize_request(&device_with_peer(), Some(2)).unwrap();
    let peer = peer(&bytes);
    let handshake = find(&bytes, WGPEER_A_LAST_HANDSHAKE_TIME, peer.start, peer.end);
    bytes[handshake.start..handshake.end].copy_from_slice(&time(MAX_SECONDS, 999_999_999));
    assert!(is_readable(&bytes, Layer::Device));
    bytes.extend_from_slice(&done());
    assert_eq!(responses(device_step(&bytes)).len(), 1);
}

#[test]
fn refused_message_behind_a_good_one_fails_the_exchange() {
    let mut bad = serialize_request(&device_with_peer(), Some(2)).unwrap();
    let peer = peer(&bad);
    let handshake = find(&bad, WGPEER_A_LAST_HANDSHAKE_TIME, peer.start, peer.end);
    bad[handshake.start..handshake.end].copy_from_slice(&time(u64::MAX, 0));
    let mut datagram = serialize_request(&device_with_peer(), Some(2)).unwrap();
    datagram.extend_from_slice(&bad);
    assert!(is_readable(&datagram, Layer::Device));
    assert!(is_malformed(device_step(&datagram)));
}

#[test]
fn netlinks_own_messages_are_not_walked() {
    // What would be an empty mask in a device message is an echoed header
    // in an error message.
    let mut bytes = message(2, 0, 1, &attribute(WGDEVICE_A_PEERS, &attribute(0, &attribute(
        WGPEER_A_ALLOWEDIPS,
        &attribute(0, &attribute(WGALLOWEDIP_A_CIDR_MASK, &[])),
    ))));
    assert!(is_readable(&bytes, Layer::Device));
    assert!(matches!(device_step(&bytes), Step::Complete(_) | Step::Failed(Error::Kernel { .. })));
    bytes[4..6].copy_from_slice(&28u16.to_ne_bytes());
    assert!(!is_readable(&bytes, Layer::Device));
    assert!(is_malformed(device_step(&bytes)));
}

#[test]
fn truncated_messages_are_left_to_the_parser() {
    let bytes = serialize_request(&device_with_peer(), Some(2)).unwrap();
    assert!(is_readable(&bytes[..10], Layer::Device));
    assert!(is_readable(&bytes[..bytes.len() - 1], Layer::Device));
    assert!(is_readable(&[], Layer::Control));
    assert!(matches!(
        device_step(&bytes[..bytes.len() - 1]),
        Step::Failed(Error::Undecodable { .. })
    ));
}

#[test]
fn whole_policy_is_read() {
    let policy = attribute(5, &attribute(7, &attribute(6, &1u32.to_ne_bytes())));
    let mut bytes = message(16, 1, 2, &attribute(CTRL_ATTR_POLICY, &policy));
    assert!(is_readable(&bytes, Layer::Control));
    assert!(<ControlMessage as Protocol>::is_readable(&bytes));
    bytes.extend_from_slice(&done());
    let responses = responses(control_step(&bytes));
    let mut expected = GenlMessage::from_payload(GenlCtrl {
        cmd: GenlCtrlCmd::NewFamily,
        nlas: vec![GenlCtrlAttrs::Policy(PolicyAttr {
            index: 5,
            attr_policy: AttributePolicyAttr {
                index: 7,
                policies: vec![NlPolicyTypeAttrs::MinLength(1)],
            },
        })],
    });
    expected.set_resolved_family_id(16);
    assert_eq!(responses.len(), 1);
    assert_eq!(responses[0].payload, Payload::InnerMessage(expected));
}

#[test]
fn whole_operation_policy_is_read() {
    let mut bytes = message(16, 1, 2, &attribute(CTRL_ATTR_OP_POLICY, &attribute(3, &[])));
    assert!(is_readable(&bytes, Layer::Control));
    bytes.extend_from_slice(&done());
    let responses = responses(control_step(&bytes));
    let mut expected = GenlMessage::from_payload(GenlCtrl {
        cmd: GenlCtrlCmd::NewFamily,
        nlas: vec![GenlCtrlAttrs::OpPolicy(OppolicyAttr { cmd: 3, policy_idx: vec![] })],
    });
    expected.set_resolved_family_id(16);
    assert_eq!(responses[0].payload, Payload::InnerMessage(expected));
}

#[test]
fn broken_policy_is_refused() {
    let refused = |value: &[u8]| {
        let bytes = message(16, 1, 2, &attribute(CTRL_ATTR_POLICY, value));
        !is_readable(&bytes, Layer::Control) && is_malformed(control_step(&bytes))
    };
    assert!(refused(&[]));
    assert!(refused(&[4, 0]));
    assert!(refused(&attribute(5, &[])));
    assert!(refused(&attribute(5, &[1, 2])));
    let mut long = attribute(5, &attribute(7, &[]));
    long[..2].copy_from_slice(&9u16.to_ne_bytes());
    assert!(refused(&long));
}

#[test]
fn broken_operation_policy_is_refused() {
    let refused = |value: &[u8]| {
        let bytes = message(16, 1, 2, &attribute(CTRL_ATTR_OP_POLICY, value));
        !is_readable(&bytes, Layer::Control) && is_malformed(control_step(&bytes))
    };
    assert!(refused(&[]));
    assert!(refused(&[1, 2, 3]));
    let mut long = attribute(3, &[]);
    long[..2].copy_from_slice(&5u16.to_ne_bytes());
    assert!(refused(&long));
}

#[test]
fn broken_policy_behind_other_attributes_is_found() {
    let mut attributes = attribute(1, &28u16.to_ne_bytes());
    attributes.extend_from_slice(&attribute(2, b"wireguard\0"));
    attributes.extend_from_slice(&attribute(CTRL_ATTR_POLICY, &[]));
    let bytes = message(16, 1, 2, &attributes);
    assert!(!is_readable(&bytes, Layer::Control));
    assert!(is_malformed(control_step(&bytes)));
    // The same bytes are no policy to the WireGuard family.
    assert!(is_readable(&bytes, Layer::Device));
}
