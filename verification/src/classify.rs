//! The message classifier: from a netlink message type to the event it reports.
//!
//! A netlink message carries a 16-bit type. Types below [`NLMSG_MIN_TYPE`] are
//! control messages (no-op, error or acknowledgement, done, overrun). From
//! [`RTM_BASE`] on, the routing family numbers its messages in groups of four,
//! one group per class of object, and the position within the group is the
//! verb: new, delete, get, set.

use vstd::prelude::*;
use crate::event::{Action, Event, Variant};

verus! {

pub const NLMSG_NOOP: u16 = 1;
pub const NLMSG_ERROR: u16 = 2;
pub const NLMSG_DONE: u16 = 3;
pub const NLMSG_OVERRUN: u16 = 4;
/// The first message type that is not a control message.
pub const NLMSG_MIN_TYPE: u16 = 16;

/// The first routing message type.
pub const RTM_BASE: u16 = 16;

pub const RTM_NEWLINK: u16 = 16;
pub const RTM_DELLINK: u16 = 17;
pub const RTM_GETLINK: u16 = 18;
pub const RTM_SETLINK: u16 = 19;
pub const RTM_NEWADDR: u16 = 20;
pub const RTM_DELADDR: u16 = 21;
pub const RTM_GETADDR: u16 = 22;
pub const RTM_NEWROUTE: u16 = 24;
pub const RTM_DELROUTE: u16 = 25;
pub const RTM_GETROUTE: u16 = 26;
pub const RTM_NEWNEIGH: u16 = 28;
pub const RTM_DELNEIGH: u16 = 29;
pub const RTM_GETNEIGH: u16 = 30;
pub const RTM_NEWRULE: u16 = 32;
pub const RTM_DELRULE: u16 = 33;
pub const RTM_GETRULE: u16 = 34;
pub const RTM_NEWQDISC: u16 = 36;
pub const RTM_DELQDISC: u16 = 37;
pub const RTM_GETQDISC: u16 = 38;
pub const RTM_NEWTCLASS: u16 = 40;
pub const RTM_DELTCLASS: u16 = 41;
pub const RTM_GETTCLASS: u16 = 42;
pub const RTM_NEWTFILTER: u16 = 44;
pub const RTM_DELTFILTER: u16 = 45;
pub const RTM_GETTFILTER: u16 = 46;
pub const RTM_NEWPREFIX: u16 = 52;
pub const RTM_NEWNEIGHTBL: u16 = 64;
pub const RTM_GETNEIGHTBL: u16 = 66;
pub const RTM_SETNEIGHTBL: u16 = 67;
pub const RTM_NEWNSID: u16 = 88;
pub const RTM_DELNSID: u16 = 89;
pub const RTM_GETNSID: u16 = 90;
pub const RTM_NEWCHAIN: u16 = 100;
pub const RTM_DELCHAIN: u16 = 101;
pub const RTM_GETCHAIN: u16 = 102;
pub const RTM_NEWLINKPROP: u16 = 108;
pub const RTM_DELLINKPROP: u16 = 109;

/// The verb of a routing message: its position within its group of four.
#[derive(Clone, Copy, Debug, PartialEq, Eq, Structural)]
pub enum Verb {
    New,
    Del,
    Get,
    Modify,
}

/// The tag of a routing message about a tracked class: class and verb.
#[derive(Clone, Copy, Debug, PartialEq, Eq, Structural)]
pub struct Tag {
    pub variant: Variant,
    pub verb: Verb,
}

/// The type that opens the group of four of each tracked class.
pub open spec fn group_base(variant: Variant) -> u16 {
    match variant {
        Variant::Link => RTM_NEWLINK,
        Variant::Address => RTM_NEWADDR,
        Variant::Route => RTM_NEWROUTE,
        Variant::Neighbour => RTM_NEWNEIGH,
        Variant::Rule => RTM_NEWRULE,
        Variant::QueueDiscipline => RTM_NEWQDISC,
        Variant::TrafficClass => RTM_NEWTCLASS,
        Variant::TrafficFilter => RTM_NEWTFILTER,
        Variant::NeighbourTable => RTM_NEWNEIGHTBL,
        Variant::NamespaceId => RTM_NEWNSID,
        Variant::TrafficChain => RTM_NEWCHAIN,
        Variant::LinkProperty => RTM_NEWLINKPROP,
    }
}

/// The position of each verb within a group.
pub open spec fn verb_offset(verb: Verb) -> u16 {
    match verb {
        Verb::New => 0,
        Verb::Del => 1,
        Verb::Get => 2,
        Verb::Modify => 3,
    }
}

/// The message type that carries `tag` on the wire.
pub open spec fn message_type_of(tag: Tag) -> int {
    group_base(tag.variant) + verb_offset(tag.verb)
}

/// Control messages carry no routing message.
pub open spec fn is_control(message_type: u16) -> bool {
    message_type < NLMSG_MIN_TYPE
}

/// The class whose group of four starts at `RTM_BASE + 4 * group`, if it is tracked.
pub open spec fn variant_of_group(group: int) -> Option<Variant> {
    if group == 0 {
        Some(Variant::Link)
    } else if group == 1 {
        Some(Variant::Address)
    } else if group == 2 {
        Some(Variant::Route)
    } else if group == 3 {
        Some(Variant::Neighbour)
    } else if group == 4 {
        Some(Variant::Rule)
    } else if group == 5 {
        Some(Variant::QueueDiscipline)
    } else if group == 6 {
        Some(Variant::TrafficClass)
    } else if group == 7 {
        Some(Variant::TrafficFilter)
    } else if group == 12 {
        Some(Variant::NeighbourTable)
    } else if group == 18 {
        Some(Variant::NamespaceId)
    } else if group == 21 {
        Some(Variant::TrafficChain)
    } else if group == 23 {
        Some(Variant::LinkProperty)
    } else {
        None
    }
}

/// The verb at position `offset` of a group.
pub open spec fn verb_at(offset: int) -> Verb {
    if offset == 0 {
        Verb::New
    } else if offset == 1 {
        Verb::Del
    } else if offset == 2 {
        Verb::Get
    } else {
        Verb::Modify
    }
}

/// The tag that a message type carries: none for a control message and none
/// for a routing message about a class that is not tracked.
pub open spec fn tag_of(message_type: u16) -> Option<Tag> {
    if is_control(message_type) {
        None
    } else {
        match variant_of_group((message_type - RTM_BASE) / 4) {
            Some(variant) => Some(Tag { variant, verb: verb_at((message_type - RTM_BASE) % 4) }),
            None => None,
        }
    }
}

/// The action that a verb reports. A query reports none.
pub open spec fn action_of(verb: Verb) -> Option<Action> {
    match verb {
        Verb::New => Some(Action::Created),
        Verb::Del => Some(Action::Deleted),
        Verb::Modify => Some(Action::Modified),
        Verb::Get => None,
    }
}

/// The verb that reports an action.
pub open spec fn verb_of(action: Action) -> Verb {
    match action {
        Action::Created => Verb::New,
        Action::Deleted => Verb::Del,
        Action::Modified => Verb::Modify,
    }
}

/// The event that a tag reports: its class with the action of its verb, where
/// the class supports that action.
pub open spec fn event_of(tag: Tag) -> Option<Event> {
    match action_of(tag.verb) {
        Some(action) => if tag.variant.supports(action) {
            Some(Event { variant: tag.variant, action })
        } else {
            None
        },
        None => None,
    }
}

/// The classification of a message type.
pub open spec fn classification(message_type: u16) -> Option<Event> {
    match tag_of(message_type) {
        Some(tag) => event_of(tag),
        None => None,
    }
}

/// Classifies a netlink message type: the event it reports, or `None` where it
/// reports nothing (a control message, a query, a class that is not tracked, a
/// verb that the class does not support).
pub fn classify_message_type(message_type: u16) -> (event: Option<Event>)
    ensures
        event == classification(message_type),
{
    match message_type {
        RTM_NEWROUTE => Some(Event { variant: Variant::Route, action: Action::Created }),
        RTM_DELROUTE => Some(Event { variant: Variant::Route, action: Action::Deleted }),
        RTM_NEWLINK => Some(Event { variant: Variant::Link, action: Action::Created }),
        RTM_DELLINK => Some(Event { variant: Variant::Link, action: Action::Deleted }),
        RTM_SETLINK => Some(Event { variant: Variant::Link, action: Action::Modified }),
        RTM_NEWLINKPROP => Some(Event { variant: Variant::LinkProperty, action: Action::Created }),
        RTM_DELLINKPROP => Some(Event { variant: Variant::LinkProperty, action: Action::Deleted }),
        RTM_NEWADDR => Some(Event { variant: Variant::Address, action: Action::Created }),
        RTM_DELADDR => Some(Event { variant: Variant::Address, action: Action::Deleted }),
        RTM_NEWNEIGH => Some(Event { variant: Variant::Neighbour, action: Action::Created }),
        RTM_DELNEIGH => Some(Event { variant: Variant::Neighbour, action: Action::Deleted }),
        RTM_NEWNEIGHTBL => Some(Event { variant: Variant::NeighbourTable, action: Action::Created }),
        RTM_SETNEIGHTBL => Some(Event { variant: Variant::NeighbourTable, action: Action::Modified }),
        RTM_NEWQDISC => Some(Event { variant: Variant::QueueDiscipline, action: Action::Created }),
        RTM_DELQDISC => Some(Event { variant: Variant::QueueDiscipline, action: Action::Deleted }),
        RTM_NEWTCLASS => Some(Event { variant: Variant::TrafficClass, action: Action::Created }),
        RTM_DELTCLASS => Some(Event { variant: Variant::TrafficClass, action: Action::Deleted }),
        RTM_NEWTFILTER => Some(Event { variant: Variant::TrafficFilter, action: Action::Created }),
        RTM_DELTFILTER => Some(Event { variant: Variant::TrafficFilter, action: Action::Deleted }),
        RTM_NEWCHAIN => Some(Event { variant: Variant::TrafficChain, action: Action::Created }),
        RTM_DELCHAIN => Some(Event { variant: Variant::TrafficChain, action: Action::Deleted }),
        RTM_NEWNSID => Some(Event { variant: Variant::NamespaceId, action: Action::Created }),
        RTM_DELNSID => Some(Event { variant: Variant::NamespaceId, action: Action::Deleted }),
        RTM_NEWRULE => Some(Event { variant: Variant::Rule, action: Action::Created }),
        RTM_DELRULE => Some(Event { variant: Variant::Rule, action: Action::Deleted }),
        _ => None,
    }
}

/// A "new" message about a tracked class is classified as the creation of an
/// object of that class.
pub proof fn law_new_is_created(message_type: u16, variant: Variant)
    requires
        tag_of(message_type) == Some(Tag { variant, verb: Verb::New }),
    ensures
        classification(message_type) == Some(Event { variant, action: Action::Created }),
{
}

/// A "delete" message about a tracked class that can be deleted (every class
/// but the neighbour table) is classified as the deletion of an object of that
/// class.
pub proof fn law_del_is_deleted(message_type: u16, variant: Variant)
    requires
        tag_of(message_type) == Some(Tag { variant, verb: Verb::Del }),
        variant != Variant::NeighbourTable,
    ensures
        classification(message_type) == Some(Event { variant, action: Action::Deleted }),
{
}

/// A "set" message about a link or a neighbour table is classified as the
/// modification of an object of that class.
pub proof fn law_set_is_modified(message_type: u16, variant: Variant)
    requires
        tag_of(message_type) == Some(Tag { variant, verb: Verb::Modify }),
        variant == Variant::Link || variant == Variant::NeighbourTable,
    ensures
        classification(message_type) == Some(Event { variant, action: Action::Modified }),
{
}

/// Nothing is reported for a control message, for a message about a class that
/// is not tracked, for a query, or for a verb that the class does not support.
pub proof fn law_unreported(message_type: u16)
    ensures
        is_control(message_type) ==> classification(message_type) is None,
        tag_of(message_type) is None ==> classification(message_type) is None,
        tag_of(message_type) matches Some(tag) ==> {
            &&& tag.verb == Verb::Get ==> classification(message_type) is None
            &&& !tag.variant.supports(Action::Deleted) && tag.verb == Verb::Del
                ==> classification(message_type) is None
            &&& !tag.variant.supports(Action::Modified) && tag.verb == Verb::Modify
                ==> classification(message_type) is None
        },
{
}

/// Every tag of a tracked class is carried by exactly one message type: the
/// type computed for the tag carries it, and a type that carries a tag is the
/// type computed for it.
pub proof fn law_tag_round_trip(tag: Tag, message_type: u16)
    ensures
        RTM_BASE <= message_type_of(tag) <= u16::MAX,
        tag_of(message_type_of(tag) as u16) == Some(tag),
        tag_of(message_type) == Some(tag) ==> message_type_of(tag) == message_type,
{
}

/// What the classifier reports is well formed and is the only reading of the
/// message type: the class supports the action, and the type is the one that
/// carries the class with the verb of the action.
pub proof fn law_classification_is_sound(message_type: u16, event: Event)
    requires
        classification(message_type) == Some(event),
    ensures
        event.wf(),
        message_type_of(Tag { variant: event.variant, verb: verb_of(event.action) })
            == message_type,
{
}

/// Every well-formed event is reported by the message type that carries its
/// class with the verb of its action.
pub proof fn law_classification_is_complete(event: Event)
    requires
        event.wf(),
    ensures
        classification(
            message_type_of(Tag { variant: event.variant, verb: verb_of(event.action) }) as u16,
        ) == Some(event),
{
}

/// The classification is a function of the message type: two results for one
/// type are the same result.
pub proof fn law_classification_is_deterministic(
    message_type: u16,
    first: Option<Event>,
    second: Option<Event>,
)
    requires
        first == classification(message_type),
        second == classification(message_type),
    ensures
        first == second,
{
}

/// The named message types carry the tags that their names say, and the named
/// types that carry no tag of a tracked class carry none.
pub proof fn law_named_types()
    ensures
        tag_of(RTM_NEWLINK) == Some(Tag { variant: Variant::Link, verb: Verb::New }),
        tag_of(RTM_DELLINK) == Some(Tag { variant: Variant::Link, verb: Verb::Del }),
        tag_of(RTM_GETLINK) == Some(Tag { variant: Variant::Link, verb: Verb::Get }),
        tag_of(RTM_SETLINK) == Some(Tag { variant: Variant::Link, verb: Verb::Modify }),
        tag_of(RTM_NEWADDR) == Some(Tag { variant: Variant::Address, verb: Verb::New }),
        tag_of(RTM_DELADDR) == Some(Tag { variant: Variant::Address, verb: Verb::Del }),
        tag_of(RTM_GETADDR) == Some(Tag { variant: Variant::Address, verb: Verb::Get }),
        tag_of(RTM_NEWROUTE) == Some(Tag { variant: Variant::Route, verb: Verb::New }),
        tag_of(RTM_DELROUTE) == Some(Tag { variant: Variant::Route, verb: Verb::Del }),
        tag_of(RTM_GETROUTE) == Some(Tag { variant: Variant::Route, verb: Verb::Get }),
        tag_of(RTM_NEWNEIGH) == Some(Tag { variant: Variant::Neighbour, verb: Verb::New }),
        tag_of(RTM_DELNEIGH) == Some(Tag { variant: Variant::Neighbour, verb: Verb::Del }),
        tag_of(RTM_GETNEIGH) == Some(Tag { variant: Variant::Neighbour, verb: Verb::Get }),
        tag_of(RTM_NEWRULE) == Some(Tag { variant: Variant::Rule, verb: Verb::New }),
        tag_of(RTM_DELRULE) == Some(Tag { variant: Variant::Rule, verb: Verb::Del }),
        tag_of(RTM_GETRULE) == Some(Tag { variant: Variant::Rule, verb: Verb::Get }),
        tag_of(RTM_NEWQDISC) == Some(Tag { variant: Variant::QueueDiscipline, verb: Verb::New }),
        tag_of(RTM_DELQDISC) == Some(Tag { variant: Variant::QueueDiscipline, verb: Verb::Del }),
        tag_of(RTM_GETQDISC) == Some(Tag { variant: Variant::QueueDiscipline, verb: Verb::Get }),
        tag_of(RTM_NEWTCLASS) == Some(Tag { variant: Variant::TrafficClass, verb: Verb::New }),
        tag_of(RTM_DELTCLASS) == Some(Tag { variant: Variant::TrafficClass, verb: Verb::Del }),
        tag_of(RTM_GETTCLASS) == Some(Tag { variant: Variant::TrafficClass, verb: Verb::Get }),
        tag_of(RTM_NEWTFILTER) == Some(Tag { variant: Variant::TrafficFilter, verb: Verb::New }),
        tag_of(RTM_DELTFILTER) == Some(Tag { variant: Variant::TrafficFilter, verb: Verb::Del }),
        tag_of(RTM_GETTFILTER) == Some(Tag { variant: Variant::TrafficFilter, verb: Verb::Get }),
        tag_of(RTM_NEWNEIGHTBL) == Some(Tag { variant: Variant::NeighbourTable, verb: Verb::New }),
        tag_of(RTM_GETNEIGHTBL) == Some(Tag { variant: Variant::NeighbourTable, verb: Verb::Get }),
        tag_of(RTM_SETNEIGHTBL) == Some(
            Tag { variant: Variant::NeighbourTable, verb: Verb::Modify },
        ),
        tag_of(RTM_NEWNSID) == Some(Tag { variant: Variant::NamespaceId, verb: Verb::New }),
        tag_of(RTM_DELNSID) == Some(Tag { variant: Variant::NamespaceId, verb: Verb::Del }),
        tag_of(RTM_GETNSID) == Some(Tag { variant: Variant::NamespaceId, verb: Verb::Get }),
        tag_of(RTM_NEWCHAIN) == Some(Tag { variant: Variant::TrafficChain, verb: Verb::New }),
        tag_of(RTM_DELCHAIN) == Some(Tag { variant: Variant::TrafficChain, verb: Verb::Del }),
        tag_of(RTM_GETCHAIN) == Some(Tag { variant: Variant::TrafficChain, verb: Verb::Get }),
        tag_of(RTM_NEWLINKPROP) == Some(Tag { variant: Variant::LinkProperty, verb: Verb::New }),
        tag_of(RTM_DELLINKPROP) == Some(Tag { variant: Variant::LinkProperty, verb: Verb::Del }),
        tag_of(RTM_NEWPREFIX) is None,
        tag_of(NLMSG_NOOP) is None,
        tag_of(NLMSG_ERROR) is None,
        tag_of(NLMSG_DONE) is None,
        tag_of(NLMSG_OVERRUN) is None,
{
}

} // verus!
