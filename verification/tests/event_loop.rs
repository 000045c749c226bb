use netlink_packet_core::{DoneMessage, NetlinkHeader, NetlinkMessage, NetlinkPayload};
use netlink_packet_route::address::AddressMessage;
use netlink_packet_route::link::LinkMessage;
use netlink_packet_route::route::RouteMessage;
use netlink_packet_route::RouteNetlinkMessage;
use rtnl_monitor::classify::{
    NLMSG_DONE, NLMSG_ERROR, RTM_DELLINK, RTM_GETADDR, RTM_GETROUTE, RTM_NEWADDR, RTM_NEWLINK,
    RTM_NEWPREFIX, RTM_SETLINK,
};
use rtnl_monitor::netlink::envelope_of;
use rtnl_monitor::{Command, Envelope, Input, Monitor, Phase};

fn delivery(message_type: u16, rendering: &str) -> Input {
    Input::Envelope(Envelope::new(message_type, String::from(rendering)))
}

fn listening() -> Monitor {
    let mut monitor = Monitor::new();
    assert_eq!(monitor.step(&Input::Bound), Command::Skip);
    monitor
}

#[test]
fn monitor_starts_unbound() {
    let monitor = Monitor::new();
    assert_eq!(monitor.phase(), Phase::Starting);
    assert_eq!(monitor.exit_status(), None);
}

#[test]
fn bound_monitor_listens() {
    let monitor = listening();
    assert_eq!(monitor.phase(), Phase::Listening);
    assert_eq!(monitor.exit_status(), None);
}

#[test]
fn listening_monitor_prints_reports() {
    let mut monitor = listening();
    assert_eq!(
        monitor.step(&delivery(RTM_NEWLINK, "LinkMessage")),
        Command::Print(String::from("Created: LinkMessage"))
    );
    assert_eq!(monitor.phase(), Phase::Listening);
    assert_eq!(
        monitor.step(&delivery(RTM_SETLINK, "LinkMessage")),
        Command::Print(String::from("Setting: LinkMessage"))
    );
    assert_eq!(monitor.phase(), Phase::Listening);
}

#[test]
fn listening_monitor_skips_what_reports_nothing() {
    let mut monitor = listening();
    assert_eq!(monitor.step(&delivery(RTM_GETROUTE, "RouteMessage")), Command::Skip);
    assert_eq!(monitor.step(&delivery(NLMSG_DONE, "")), Command::Skip);
    assert_eq!(monitor.step(&delivery(NLMSG_ERROR, "")), Command::Skip);
    assert_eq!(monitor.step(&delivery(RTM_NEWPREFIX, "PrefixMessage")), Command::Skip);
    assert_eq!(monitor.step(&Input::Bound), Command::Skip);
    assert_eq!(monitor.step(&Input::BindFailed(String::from("late"))), Command::Skip);
    assert_eq!(monitor.step(&Input::SocketFailed(String::from("late"))), Command::Skip);
    assert_eq!(monitor.phase(), Phase::Listening);
}

#[test]
fn same_envelope_same_answer() {
    let mut monitor = listening();
    let input = delivery(RTM_DELLINK, "LinkMessage");
    let first = monitor.step(&input);
    let second = monitor.step(&input);
    assert_eq!(first, second);
    assert_eq!(first, Command::Print(String::from("Deleted: LinkMessage")));
}

#[test]
fn end_of_stream_stops_with_success() {
    let mut monitor = listening();
    assert_eq!(monitor.step(&Input::EndOfStream), Command::Exit);
    assert_eq!(monitor.phase(), Phase::Stopped);
    assert_eq!(monitor.exit_status(), Some(0));
    assert_eq!(monitor.step(&delivery(RTM_NEWLINK, "LinkMessage")), Command::Skip);
    assert_eq!(monitor.step(&Input::EndOfStream), Command::Skip);
    assert_eq!(monitor.phase(), Phase::Stopped);
}

#[test]
fn end_of_stream_before_the_bind_stops() {
    let mut monitor = Monitor::new();
    assert_eq!(monitor.step(&Input::EndOfStream), Command::Exit);
    assert_eq!(monitor.phase(), Phase::Stopped);
}

#[test]
fn envelope_before_the_bind_is_not_reported() {
    let mut monitor = Monitor::new();
    assert_eq!(monitor.step(&delivery(RTM_NEWLINK, "LinkMessage")), Command::Skip);
    assert_eq!(monitor.phase(), Phase::Starting);
}

#[test]
fn scenario_failed_bind_is_fatal() {
    let mut monitor = Monitor::new();
    let reason = "Os { code: 22, kind: InvalidInput, message: \"Invalid argument\" }";
    let command = monitor.step(&Input::BindFailed(String::from(reason)));
    assert_eq!(command, Command::Abort(format!("failed to bind: {}", reason)));
    assert_eq!(monitor.phase(), Phase::Failed);
    let status = monitor.exit_status().expect("a failed monitor has an exit status");
    assert_ne!(status, 0);
    assert_eq!(status, 1);
    assert_eq!(monitor.step(&Input::Bound), Command::Skip);
    assert_eq!(monitor.step(&delivery(RTM_NEWLINK, "LinkMessage")), Command::Skip);
    let later = vec![
        delivery(RTM_NEWLINK, "LinkMessage"),
        delivery(RTM_NEWADDR, "AddressMessage"),
        Input::EndOfStream,
    ];
    assert_eq!(monitor.run(&later), Vec::<String>::new());
    assert_eq!(monitor.phase(), Phase::Failed);
}

#[test]
fn failed_socket_is_fatal() {
    let mut monitor = Monitor::new();
    let command = monitor.step(&Input::SocketFailed(String::from("Protocol not supported")));
    assert_eq!(command, Command::Abort(String::from("Protocol not supported")));
    assert_eq!(monitor.phase(), Phase::Failed);
    assert_eq!(monitor.exit_status(), Some(1));
    assert_eq!(monitor.step(&delivery(RTM_NEWLINK, "LinkMessage")), Command::Skip);
}

#[test]
fn empty_bind_failure_reason() {
    let mut monitor = Monitor::new();
    assert_eq!(
        monitor.step(&Input::BindFailed(String::new())),
        Command::Abort(String::from("failed to bind: "))
    );
}

#[test]
fn lines_come_out_in_the_order_of_the_envelopes() {
    let mut monitor = listening();
    let inputs = vec![
        delivery(RTM_NEWLINK, "first"),
        delivery(RTM_GETADDR, "dropped"),
        delivery(RTM_NEWADDR, "second"),
        delivery(NLMSG_DONE, "dropped"),
        delivery(RTM_DELLINK, "third"),
        delivery(RTM_NEWLINK, "first"),
        delivery(RTM_SETLINK, "fifth"),
    ];
    let lines = monitor.run(&inputs);
    assert_eq!(
        lines,
        vec![
            String::from("Created: first"),
            String::from("Created: second"),
            String::from("Deleted: third"),
            String::from("Created: first"),
            String::from("Setting: fifth"),
        ]
    );
    assert_eq!(monitor.phase(), Phase::Listening);
}

#[test]
fn run_is_step_by_step() {
    let inputs = vec![
        delivery(RTM_NEWLINK, "before the bind"),
        Input::Bound,
        delivery(RTM_NEWLINK, "a"),
        delivery(RTM_GETROUTE, "b"),
        delivery(RTM_DELLINK, "c"),
        Input::EndOfStream,
        delivery(RTM_NEWLINK, "after the end"),
    ];
    let mut stepped = Monitor::new();
    let mut expected = Vec::new();
    for input in &inputs {
        if let Command::Print(line) = stepped.step(input) {
            expected.push(line);
        }
    }
    let mut monitor = Monitor::new();
    let lines = monitor.run(&inputs);
    assert_eq!(lines, expected);
    assert_eq!(lines, vec![String::from("Created: a"), String::from("Deleted: c")]);
    assert_eq!(monitor.phase(), stepped.phase());
    assert_eq!(monitor.phase(), Phase::Stopped);
}

#[test]
fn run_in_two_parts_is_run_in_one() {
    let inputs = vec![
        Input::Bound,
        delivery(RTM_NEWLINK, "a"),
        delivery(RTM_NEWADDR, "b"),
        delivery(RTM_GETROUTE, "c"),
        delivery(RTM_DELLINK, "d"),
    ];
    let mut whole = Monitor::new();
    let all = whole.run(&inputs);
    for cut in 0..=inputs.len() {
        let mut monitor = Monitor::new();
        let mut lines = monitor.run(&inputs[..cut].to_vec());
        lines.extend(monitor.run(&inputs[cut..].to_vec()));
        assert_eq!(lines, all);
        assert_eq!(monitor.phase(), whole.phase());
    }
}

#[test]
fn run_on_nothing() {
    let mut monitor = listening();
    assert_eq!(monitor.run(&Vec::new()), Vec::<String>::new());
    assert_eq!(monitor.phase(), Phase::Listening);
}

#[test]
fn decoded_messages_through_the_loop() {
    let mut link = LinkMessage::default();
    link.header.index = 7;
    let messages = vec![
        (format!("{:?}", link), RouteNetlinkMessage::NewLink(link)),
        (
            format!("{:?}", RouteMessage::default()),
            RouteNetlinkMessage::GetRoute(RouteMessage::default()),
        ),
        (
            format!("{:?}", AddressMessage::default()),
            RouteNetlinkMessage::DelAddress(AddressMessage::default()),
        ),
    ];
    let mut inputs = vec![Input::Bound];
    for (rendering, inner) in messages {
        let message =
            NetlinkMessage::new(NetlinkHeader::default(), NetlinkPayload::InnerMessage(inner));
        inputs.push(Input::Envelope(envelope_of(&message, rendering)));
    }
    let done: NetlinkMessage<RouteNetlinkMessage> =
        NetlinkMessage::new(NetlinkHeader::default(), NetlinkPayload::Done(DoneMessage::default()));
    inputs.push(Input::Envelope(envelope_of(&done, String::new())));
    inputs.push(Input::EndOfStream);
    let mut monitor = Monitor::new();
    let lines = monitor.run(&inputs);
    assert_eq!(lines.len(), 2);
    assert!(lines[0].starts_with("Created: LinkMessage {"));
    assert!(lines[0].contains("index: 7"));
    assert!(lines[1].starts_with("Deleted: AddressMessage {"));
    assert_eq!(monitor.exit_status(), Some(0));
}
