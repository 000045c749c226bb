//! The boundary to the netlink packet crates: reading a decoded message.
//!
//! The transport hands over `NetlinkMessage<RouteNetlinkMessage>` values. To
//! the verifier such a value is opaque. The one thing that the monitor needs of
//! it for classification is the message type of its payload, which
//! `netlink-packet-core` computes. That call is trusted; what is done with its
//! result is verified.

use vstd::prelude::*;
use netlink_packet_core::NetlinkMessage;
use netlink_packet_route::RouteNetlinkMessage;
use crate::classify::{classification, classify_message_type};
use crate::envelope::{Envelope, EnvelopeView};
use crate::event::Event;

verus! {

/// `netlink_packet_core::NetlinkMessage`, a decoded netlink message: header
/// and payload. Declared so that it can be passed around; nothing is known of
/// what it holds.
#[verifier::external_type_specification]
#[verifier::external_body]
#[verifier::reject_recursive_types(I)]
pub struct ExNetlinkMessage<I>(NetlinkMessage<I>);

/// `netlink_packet_route::RouteNetlinkMessage`, the payload of a message of
/// the routing family. Declared so that it can be named; nothing is known of
/// what it holds.
#[verifier::external_type_specification]
#[verifier::external_body]
pub struct ExRouteNetlinkMessage(RouteNetlinkMessage);

/// The message type of the payload of `message`, as
/// `NetlinkPayload::message_type` of `netlink-packet-core` computes it: for a
/// routing message the type that `RouteNetlinkMessage::message_type` gives
/// its variant, for a control payload the type of that control message. It
/// depends on the variant of the payload alone.
pub uninterp spec fn payload_message_type(message: NetlinkMessage<RouteNetlinkMessage>) -> u16;

/// Trusted: calls `NetlinkPayload::message_type` on the payload of `message`.
/// The contract only names the result; it says nothing of which number comes
/// back for which payload.
#[verifier::external_body]
fn payload_type(message: &NetlinkMessage<RouteNetlinkMessage>) -> (message_type: u16)
    ensures
        message_type == payload_message_type(*message),
{
    message.payload.message_type()
}

/// Classifies a decoded message: the event that the type of its payload
/// reports, if any.
pub fn classify_message(message: &NetlinkMessage<RouteNetlinkMessage>) -> (event: Option<Event>)
    ensures
        event == classification(payload_message_type(*message)),
{
    classify_message_type(payload_type(message))
}

/// The envelope of a decoded message whose attributes the caller has rendered
/// as `rendering`.
pub fn envelope_of(
    message: &NetlinkMessage<RouteNetlinkMessage>,
    rendering: String,
) -> (envelope: Envelope)
    ensures
        envelope@ == (EnvelopeView {
            message_type: payload_message_type(*message),
            rendering: rendering@,
        }),
{
    Envelope::new(payload_type(message), rendering)
}

} // verus!
