use netlink_packet_core::{NetlinkHeader, NetlinkMessage, NetlinkPayload};
use netlink_packet_route::link::LinkMessage;
use netlink_packet_route::neighbour_table::NeighbourTableMessage;
use netlink_packet_route::route::RouteMessage;
use netlink_packet_route::RouteNetlinkMessage;
use rtnl_monitor::classify::{
    RTM_DELADDR, RTM_GETROUTE, RTM_NEWLINK, RTM_NEWPREFIX, RTM_NEWROUTE, RTM_SETNEIGHTBL,
};
use rtnl_monitor::netlink::{classify_message, envelope_of};
use rtnl_monitor::sink::{action_verb, report_line};
use rtnl_monitor::{Action, Envelope, Event, Variant};

fn wrap(inner: RouteNetlinkMessage) -> NetlinkMessage<RouteNetlinkMessage> {
    NetlinkMessage::new(NetlinkHeader::default(), NetlinkPayload::InnerMessage(inner))
}

#[test]
fn verbs() {
    assert_eq!(action_verb(Action::Created), "Created");
    assert_eq!(action_verb(Action::Deleted), "Deleted");
    assert_eq!(action_verb(Action::Modified), "Setting");
}

#[test]
fn lines_are_verb_separator_rendering() {
    assert_eq!(report_line(Action::Created, "LinkMessage { }"), "Created: LinkMessage { }");
    assert_eq!(report_line(Action::Deleted, "RouteMessage { }"), "Deleted: RouteMessage { }");
    assert_eq!(report_line(Action::Modified, "x"), "Setting: x");
}

#[test]
fn line_of_an_empty_rendering() {
    assert_eq!(report_line(Action::Created, ""), "Created: ");
    assert_eq!(report_line(Action::Deleted, ""), "Deleted: ");
    assert_eq!(report_line(Action::Modified, ""), "Setting: ");
}

#[test]
fn line_keeps_the_rendering_as_it_is() {
    let rendering = "Nla { name: \"eth0\", note: \"a: b\" } \u{e9}\u{4e16}";
    let line = report_line(Action::Deleted, rendering);
    assert!(line.starts_with("Deleted: "));
    assert_eq!(&line["Deleted: ".len()..], rendering);
    assert_eq!(line.chars().count(), 9 + rendering.chars().count());
}

#[test]
fn envelope_reports() {
    let created = Envelope::new(RTM_NEWROUTE, String::from("RouteMessage"));
    assert_eq!(created.report(), Some(String::from("Created: RouteMessage")));
    let deleted = Envelope::new(RTM_DELADDR, String::from("AddressMessage"));
    assert_eq!(deleted.report(), Some(String::from("Deleted: AddressMessage")));
    let set = Envelope::new(RTM_SETNEIGHTBL, String::from("NeighbourTableMessage"));
    assert_eq!(set.report(), Some(String::from("Setting: NeighbourTableMessage")));
    let query = Envelope::new(RTM_GETROUTE, String::from("RouteMessage"));
    assert_eq!(query.report(), None);
    let untracked = Envelope::new(RTM_NEWPREFIX, String::from("PrefixMessage"));
    assert_eq!(untracked.report(), None);
}

#[test]
fn classification_ignores_the_rendering() {
    let one = Envelope::new(RTM_NEWLINK, String::from("one"));
    let other = Envelope::new(RTM_NEWLINK, String::from("other"));
    assert_eq!(one.classify(), other.classify());
    assert_ne!(one.report(), other.report());
}

#[test]
fn scenario_new_link_with_index_two() {
    let mut link = LinkMessage::default();
    link.header.index = 2;
    let rendering = format!("{:?}", link);
    let message = wrap(RouteNetlinkMessage::NewLink(link));
    assert_eq!(
        classify_message(&message),
        Some(Event { variant: Variant::Link, action: Action::Created })
    );
    let envelope = envelope_of(&message, rendering);
    let line = envelope.report().expect("a new link is reported");
    assert!(line.starts_with("Created: LinkMessage {"));
    assert!(line.contains("index: 2"));
    assert!(line.ends_with('}'));
    assert!(!line.contains('\n'));
}

#[test]
fn scenario_set_neighbour_table() {
    let table = NeighbourTableMessage::default();
    let rendering = format!("{:?}", table);
    let message = wrap(RouteNetlinkMessage::SetNeighbourTable(table));
    let envelope = envelope_of(&message, rendering);
    let line = envelope.report().expect("a set neighbour table is reported");
    assert!(line.starts_with("Setting: "));
    assert!(line.starts_with("Setting: NeighbourTableMessage {"));
}

#[test]
fn scenario_get_route_gives_no_output() {
    let route = RouteMessage::default();
    let rendering = format!("{:?}", route);
    let message = wrap(RouteNetlinkMessage::GetRoute(route));
    assert_eq!(classify_message(&message), None);
    let envelope = envelope_of(&message, rendering);
    assert_eq!(envelope.report(), None);
}
