//! Resolving a generic-netlink family by name.
//!
//! A family such as WireGuard has no fixed id: the kernel hands one out when
//! the module is loaded. A message for it can only be sent once the id is
//! known, so a message that has none is held back while the controller
//! family is asked for it. The id is asked for each time; nothing is kept.

use vstd::prelude::*;
use crate::message::{Error, Message, Payload, NLM_F_ACK, NLM_F_REQUEST};
use crate::search::{find_first, first_some};
use crate::transport::Protocol;
use crate::wire::{
    control_attribute_count, control_command, control_family_id_at, control_family_ids,
    control_family_names, family_query, get_family, CTRL_CMD_GETFAMILY, GENL_ID_CTRL,
};
use netlink_packet_generic::ctrl::GenlCtrl;
use netlink_packet_generic::GenlMessage;

verus! {

/// The flags a family lookup goes out with: request and acknowledge.
pub const LOOKUP_FLAGS: u16 = NLM_F_REQUEST | NLM_F_ACK;

/// A family that is addressed by name: its messages carry the id that the
/// name was resolved to, and zero as long as it was not.
pub trait Family: Protocol {
    /// The name the family is registered under.
    spec fn name() -> Seq<char>;

    /// This message with `id` as its family id.
    spec fn with_family_id(self, id: u16) -> Self;

    /// The name the family is registered under.
    fn family_name() -> (name: &'static str)
        ensures
            name@ == Self::name(),
    ;

    /// Gives the message its family id, which is thereafter the type it
    /// goes out with. Its length on the wire stays what it was.
    fn set_resolved_family_id(&mut self, id: u16)
        ensures
            *final(self) == old(self).with_family_id(id),
            final(self).wire_type() == id,
            final(self).wire_len() == old(self).wire_len(),
    ;
}

/// What has to happen before a message can go out.
pub enum Plan<M> {
    /// Nothing: the family id is known. Holds the message to send.
    Dispatch(M),
    /// One exchange with the controller: `request` is to be sent with
    /// [`LOOKUP_FLAGS`], and its responses handed to [`resolve`] together
    /// with the message that waits.
    Lookup { request: GenlMessage<GenlCtrl>, pending: M },
}

/// What [`plan`] decides for `message`.
pub open spec fn plan_of<M: Family>(message: M) -> Plan<M> {
    if message.wire_type() == 0 {
        Plan::Lookup { request: family_query(M::name()), pending: message }
    } else {
        Plan::Dispatch(message)
    }
}

/// The family id that the responses to a lookup name.
///
/// The first response must be a message of the controller family; the first
/// family id among its attributes is the answer.
pub open spec fn resolved_id(responses: Seq<Message<GenlMessage<GenlCtrl>>>) -> Result<u16, Error> {
    if responses.len() > 0 && responses[0].payload is InnerMessage {
        match first_some(control_family_ids(responses[0].payload->InnerMessage_0)) {
            Some(id) => Ok(id),
            None => Err(Error::FamilyNotFound),
        }
    } else {
        Err(Error::UnexpectedPayload)
    }
}

/// What becomes of the waiting message `pending` once the lookup's
/// `responses` are in: it goes out under the id they name, or not at all.
pub open spec fn resolution<M: Family>(
    pending: M,
    responses: Seq<Message<GenlMessage<GenlCtrl>>>,
) -> Result<M, Error> {
    match resolved_id(responses) {
        Ok(id) => Ok(pending.with_family_id(id)),
        Err(e) => Err(e),
    }
}

/// The request that asks the controller for the family called `name`: a
/// "get family" command that carries the family's name and nothing else.
pub fn lookup_request(name: &str) -> (request: GenlMessage<GenlCtrl>)
    ensures
        request == family_query(name@),
        request.wire_type() == GENL_ID_CTRL,
        control_command(request) == CTRL_CMD_GETFAMILY,
        control_family_names(request) == seq![Some(name@)],
        control_family_ids(request) == seq![None::<u16>],
{
    get_family(name)
}

/// Reads the attributes of a controller message: for each, the family id it
/// holds, if it is one.
pub fn family_ids(message: &GenlMessage<GenlCtrl>) -> (ids: Vec<Option<u16>>)
    ensures
        ids@ == control_family_ids(*message),
{
    let count = control_attribute_count(message);
    let mut ids: Vec<Option<u16>> = Vec::new();
    let mut i: usize = 0;
    while i < count
        invariant
            i <= count == control_family_ids(*message).len(),
            ids@ == control_family_ids(*message).take(i as int),
        decreases count - i,
    {
        ids.push(control_family_id_at(message, i));
        assert(ids@ =~= control_family_ids(*message).take(i + 1));
        i += 1;
    }
    assert(ids@ =~= control_family_ids(*message));
    ids
}

/// Decides what has to happen before `message` can go out: a message whose
/// family id is unresolved needs one lookup, any other none.
pub fn plan<M: Family>(message: M) -> (plan: Plan<M>)
    ensures
        plan == plan_of(message),
{
    if message.message_type() == 0 {
        Plan::Lookup { request: lookup_request(M::family_name()), pending: message }
    } else {
        Plan::Dispatch(message)
    }
}

/// Reads the family id out of the responses to a lookup.
pub fn family_id(responses: &Vec<Message<GenlMessage<GenlCtrl>>>) -> (r: Result<u16, Error>)
    ensures
        r == resolved_id(responses@),
{
    if responses.len() == 0 {
        return Err(Error::UnexpectedPayload);
    }
    match &responses[0].payload {
        Payload::InnerMessage(message) => {
            let ids = family_ids(message);
            match find_first(&ids) {
                Some(id) => Ok(id),
                None => Err(Error::FamilyNotFound),
            }
        },
        _ => Err(Error::UnexpectedPayload),
    }
}

/// Ends a lookup: gives the waiting message the id that the responses name
/// and hands it back for sending.
pub fn resolve<M: Family>(pending: M, responses: &Vec<Message<GenlMessage<GenlCtrl>>>) -> (r:
    Result<M, Error>)
    ensures
        r == resolution(pending, responses@),
        r matches Ok(m) ==> resolved_id(responses@) == Ok::<u16, Error>(m.wire_type()),
        r matches Ok(m) ==> m.wire_len() == pending.wire_len(),
{
    let id = match family_id(responses) {
        Ok(id) => id,
        Err(e) => {
            return Err(e);
        },
    };
    let mut message = pending;
    message.set_resolved_family_id(id);
    Ok(message)
}

/// A message with an unresolved family id costs exactly one lookup: the plan
/// for it is a lookup of its family's name, and what the lookup's responses
/// lead to is the message itself under the resolved id, or a failure, never
/// another lookup. A message that has its id costs none.
pub proof fn lemma_one_lookup<M: Family>(message: M, responses: Seq<Message<GenlMessage<GenlCtrl>>>)
    ensures
        message.wire_type() == 0 ==> plan_of(message) == (Plan::Lookup {
            request: family_query(M::name()),
            pending: message,
        }),
        message.wire_type() == 0 ==> (resolution(message, responses) matches Ok(m) ==> exists|
            id: u16,
        |
            m == message.with_family_id(id) && resolved_id(responses) == Ok::<u16, Error>(id)),
        message.wire_type() != 0 ==> plan_of(message) == Plan::Dispatch(message),
{
}

} // verus!
