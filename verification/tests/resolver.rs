use netlink_packet_generic::ctrl::nlas::GenlCtrlAttrs;
use netlink_packet_generic::ctrl::{GenlCtrl, GenlCtrlCmd};
use netlink_packet_generic::{GenlFamily, GenlMessage};
use netlink_packet_wireguard::nlas::WgDeviceAttrs;
use netlink_packet_wireguard::{Wireguard, WireguardCmd};
use wg_nat::message::{Error, Header, Message, Payload};
use wg_nat::resolver::{
    family_id, family_ids, lookup_request, plan, resolve, Family, Plan, LOOKUP_FLAGS,
};
use wg_nat::transport::{serialize_request, Exchange, Step};

type ControlMessage = GenlMessage<GenlCtrl>;

fn query() -> GenlMessage<Wireguard> {
    GenlMessage::from_payload(Wireguard {
        cmd: WireguardCmd::GetDevice,
        nlas: vec![WgDeviceAttrs::IfName("wg0".to_string())],
    })
}

fn family(nlas: Vec<GenlCtrlAttrs>) -> ControlMessage {
    GenlMessage::from_payload(GenlCtrl { cmd: GenlCtrlCmd::NewFamily, nlas })
}

fn reply(nlas: Vec<GenlCtrlAttrs>) -> Message<ControlMessage> {
    Message { header: Header::default(), payload: Payload::InnerMessage(family(nlas)) }
}

fn acknowledgement() -> Vec<u8> {
    let mut bytes = Vec::new();
    bytes.extend_from_slice(&36u32.to_ne_bytes());
    bytes.extend_from_slice(&2u16.to_ne_bytes());
    bytes.extend_from_slice(&[0u8; 10]);
    bytes.extend_from_slice(&[0u8; 20]);
    bytes
}

#[test]
fn lookup_flags_are_request_and_acknowledge() {
    assert_eq!(LOOKUP_FLAGS, 5);
}

#[test]
fn lookup_carries_only_the_family_name() {
    let request = lookup_request("wireguard");
    assert_eq!(
        request,
        GenlMessage::from_payload(GenlCtrl {
            cmd: GenlCtrlCmd::GetFamily,
            nlas: vec![GenlCtrlAttrs::FamilyName("wireguard".to_string())],
        })
    );
    assert_eq!(request.header.cmd, 3);
    assert_eq!(request.header.version, 2);
}

#[test]
fn family_name_is_the_crates() {
    assert_eq!(<GenlMessage<Wireguard> as Family>::family_name(), "wireguard");
    assert_eq!(<GenlMessage<Wireguard> as Family>::family_name(), Wireguard::family_name());
}

#[test]
fn unresolved_message_needs_a_lookup() {
    match plan(query()) {
        Plan::Lookup { request, pending } => {
            assert_eq!(request, lookup_request("wireguard"));
            assert_eq!(pending, query());
        }
        Plan::Dispatch(_) => panic!("no lookup for an unresolved message"),
    }
}

#[test]
fn resolved_message_goes_out_as_it_is() {
    let mut message = query();
    message.set_resolved_family_id(28);
    match plan(message.clone()) {
        Plan::Dispatch(m) => assert_eq!(m, message),
        Plan::Lookup { .. } => panic!("a lookup for a resolved message"),
    }
}

#[test]
fn control_attributes_are_told_apart() {
    let message = family(vec![
        GenlCtrlAttrs::FamilyName("wireguard".to_string()),
        GenlCtrlAttrs::FamilyId(28),
        GenlCtrlAttrs::Version(28),
        GenlCtrlAttrs::FamilyId(0),
    ]);
    assert_eq!(family_ids(&message), vec![None, Some(28), None, Some(0)]);
    assert_eq!(family_ids(&family(vec![])), vec![]);
}

#[test]
fn first_family_id_is_the_answer() {
    let responses = vec![reply(vec![
        GenlCtrlAttrs::FamilyName("wireguard".to_string()),
        GenlCtrlAttrs::FamilyId(28),
        GenlCtrlAttrs::Version(1),
        GenlCtrlAttrs::FamilyId(29),
    ])];
    assert_eq!(family_id(&responses), Ok(28));
}

#[test]
fn only_the_first_response_is_searched() {
    let responses = vec![
        reply(vec![GenlCtrlAttrs::FamilyName("wireguard".to_string())]),
        reply(vec![GenlCtrlAttrs::FamilyId(28)]),
    ];
    assert_eq!(family_id(&responses), Err(Error::FamilyNotFound));
    let responses = vec![
        reply(vec![GenlCtrlAttrs::FamilyId(30)]),
        reply(vec![GenlCtrlAttrs::FamilyId(28)]),
    ];
    assert_eq!(family_id(&responses), Ok(30));
}

#[test]
fn answer_without_family_id_is_not_found() {
    assert_eq!(family_id(&vec![reply(vec![])]), Err(Error::FamilyNotFound));
    assert_eq!(
        family_id(&vec![reply(vec![GenlCtrlAttrs::Version(1), GenlCtrlAttrs::HdrSize(0)])]),
        Err(Error::FamilyNotFound)
    );
}

#[test]
fn answer_of_another_shape_is_unexpected() {
    assert_eq!(family_id(&vec![]), Err(Error::UnexpectedPayload));
    let noop: Message<ControlMessage> =
        Message { header: Header::default(), payload: Payload::Noop };
    assert_eq!(
        family_id(&vec![noop, reply(vec![GenlCtrlAttrs::FamilyId(28)])]),
        Err(Error::UnexpectedPayload)
    );
}

#[test]
fn resolving_sets_the_id_and_nothing_else() {
    let responses = vec![reply(vec![GenlCtrlAttrs::FamilyId(28)])];
    let message = resolve(query(), &responses).unwrap();
    assert_eq!(message.family_id(), 28);
    assert_eq!(message.resolved_family_id(), 28);
    let mut expected = query();
    expected.set_resolved_family_id(28);
    assert_eq!(message, expected);
}

#[test]
fn failed_lookup_sends_nothing() {
    assert_eq!(resolve(query(), &vec![]), Err(Error::UnexpectedPayload));
    assert_eq!(resolve(query(), &vec![reply(vec![])]), Err(Error::FamilyNotFound));
}

#[test]
fn setting_the_id_through_the_trait() {
    let mut message = query();
    Family::set_resolved_family_id(&mut message, 77);
    assert_eq!(message.family_id(), 77);
    assert_eq!(message.payload, query().payload);
}

#[test]
fn one_lookup_then_the_real_request() {
    let mut lookups = 0;
    let mut sent: Vec<Vec<u8>> = Vec::new();

    let pending = match plan(query()) {
        Plan::Dispatch(_) => panic!("no lookup for an unresolved message"),
        Plan::Lookup { request, pending } => {
            lookups += 1;
            sent.push(serialize_request(&request, Some(LOOKUP_FLAGS)).unwrap());
            pending
        }
    };

    // What the controller answers: the family, then an acknowledgement.
    let mut datagram = serialize_request(
        &family(vec![
            GenlCtrlAttrs::FamilyName("wireguard".to_string()),
            GenlCtrlAttrs::FamilyId(28),
        ]),
        Some(0),
    )
    .unwrap();
    datagram.extend_from_slice(&acknowledgement());
    let responses = match Exchange::<ControlMessage>::new().on_datagram(&datagram) {
        Step::Complete(responses) => responses,
        _ => panic!("the lookup did not end"),
    };

    let message = resolve(pending, &responses).unwrap();
    match plan(message) {
        Plan::Dispatch(message) => sent.push(serialize_request(&message, None).unwrap()),
        Plan::Lookup { .. } => lookups += 1,
    }

    assert_eq!(lookups, 1);
    assert_eq!(sent.len(), 2);
    assert_eq!(&sent[0][4..6], &16u16.to_ne_bytes());
    assert_eq!(&sent[1][4..6], &28u16.to_ne_bytes());
}
