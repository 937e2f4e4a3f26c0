use rmqtt::link::{
    ConnectionCloseReason, FlowCloseReason, FlowId, FlowKind, LinkError, LinkEvent, ReplyPath,
    SendReceipt, SendTarget,
};
use rmqtt::memory_link::{flow_kind_for, ClosedEvent, MemoryMqttLink, SentPacket};
use rmqtt::packet::{MqttPacket, PacketV3, PacketV5};

#[test]
fn memory_link_receives_injected_events_for_multiple_flows_in_order() {
    let mut link = MemoryMqttLink::new();
    assert!(link.has_flow_ids());
    let first_path = link.next_reply_path(FlowKind::Data);
    let second_path = link.next_reply_path(FlowKind::Data);

    link.inject_packet(v3_ping_request(), first_path);
    link.inject_event(LinkEvent::FlowClosed {
        flow_id: second_path.flow_id(),
        reason: FlowCloseReason::RecvFinished,
    });
    link.inject_packet(v5_ping_request(), second_path);
    assert_eq!(link.queued_len(), 3);

    let first = link.recv().expect("first event");
    let LinkEvent::Packet { packet, reply_path } = first else {
        panic!("expected packet event");
    };
    assert_eq!(reply_path, first_path);
    assert!(matches!(packet, MqttPacket::V3(PacketV3::PingRequest)));

    let second = link.recv().expect("second event");
    assert!(matches!(
        second,
        LinkEvent::FlowClosed {
            flow_id,
            reason: FlowCloseReason::RecvFinished,
        } if flow_id == second_path.flow_id()
    ));

    let third = link.recv().expect("third event");
    let LinkEvent::Packet { packet, reply_path } = third else {
        panic!("expected packet event");
    };
    assert_eq!(reply_path, second_path);
    assert!(matches!(packet, MqttPacket::V5(PacketV5::PingRequest)));
    assert!(link.recv().is_none());
}

#[test]
fn memory_link_captures_ordered_sends_with_resolved_receipts() {
    let mut link = MemoryMqttLink::new();
    let data_path = link.next_reply_path(FlowKind::Data);

    let control_receipt = link.send(SendTarget::Control, v3_ping_response()).unwrap();
    let reply_receipt = link.send(SendTarget::Reply(data_path), v5_ping_response()).unwrap();
    let bound_receipt =
        link.send(SendTarget::Bound(data_path.flow_id()), v3_ping_response()).unwrap();

    assert_eq!(control_receipt.path(), ReplyPath::control());
    assert_eq!(reply_receipt.path(), data_path);
    assert_eq!(bound_receipt.path(), data_path);

    let sent = link.take_sent();
    assert_eq!(sent.len(), 3);

    assert_sent(&sent[0], SendTarget::Control, control_receipt, |packet| {
        matches!(packet, MqttPacket::V3(PacketV3::PingResponse))
    });
    assert_sent(&sent[1], SendTarget::Reply(data_path), reply_receipt, |packet| {
        matches!(packet, MqttPacket::V5(PacketV5::PingResponse))
    });
    assert_sent(&sent[2], SendTarget::Bound(data_path.flow_id()), bound_receipt, |packet| {
        matches!(packet, MqttPacket::V3(PacketV3::PingResponse))
    });
    assert_eq!(link.sent_len(), 0);
}

#[test]
fn memory_link_can_fail_the_next_send_or_flush_deterministically() {
    let mut link = MemoryMqttLink::new();

    link.fail_next_send("injected send failure".to_string());
    let send_error =
        link.send(SendTarget::Control, v3_ping_response()).expect_err("next send should fail");
    assert_eq!(send_error, LinkError::Transport("injected send failure".to_string()));
    assert_eq!(link.sent_len(), 0);

    link.send(SendTarget::Control, v3_ping_response()).unwrap();
    assert_eq!(link.sent_len(), 1);

    link.fail_next_flush("injected flush failure".to_string());
    let flush_error = link.flush().expect_err("next flush should fail");
    assert_eq!(flush_error, LinkError::Transport("injected flush failure".to_string()));
    link.flush().unwrap();
}

#[test]
fn memory_link_records_reset_and_close_as_closed_state_and_events() {
    let mut link = MemoryMqttLink::new();
    let data_path = link.next_reply_path(FlowKind::Data);

    link.reset_flow(data_path.flow_id(), FlowCloseReason::SendFailed);
    link.close_connection(ConnectionCloseReason::ProtocolViolation);
    assert_eq!(link.closed_len(), 2);

    let closed = link.take_closed();
    assert_eq!(
        closed,
        vec![
            ClosedEvent::Flow { flow_id: data_path.flow_id(), reason: FlowCloseReason::SendFailed },
            ClosedEvent::Connection { reason: ConnectionCloseReason::ProtocolViolation },
        ]
    );

    assert!(matches!(
        link.recv(),
        Some(LinkEvent::FlowClosed {
            flow_id,
            reason: FlowCloseReason::SendFailed,
        }) if flow_id == data_path.flow_id()
    ));
    assert!(matches!(
        link.recv(),
        Some(LinkEvent::ConnectionClosed { reason: ConnectionCloseReason::ProtocolViolation })
    ));
}

#[test]
fn memory_link_generates_deterministic_reply_paths() {
    let mut link = MemoryMqttLink::new();

    let first = link.next_reply_path(FlowKind::Data);
    let second = link.next_reply_path(FlowKind::Data);
    let first_again = link.reply_path_for(first.flow_id(), FlowKind::Data);

    assert_eq!(first, ReplyPath::new(FlowId::new(1), FlowKind::Data, 1));
    assert_eq!(second, ReplyPath::new(FlowId::new(2), FlowKind::Data, 1));
    assert_eq!(first_again, first);
    assert_eq!(link.next_reply_path(FlowKind::Control), ReplyPath::control());
}

#[test]
fn control_flow_is_never_a_data_flow() {
    let mut link = MemoryMqttLink::new();
    assert_eq!(link.reply_path_for(FlowId::control(), FlowKind::Data), ReplyPath::control());
    assert_eq!(link.reply_path_for(FlowId::new(5), FlowKind::Control), ReplyPath::control());
    assert_eq!(flow_kind_for(FlowId::control()), FlowKind::Control);
    assert_eq!(flow_kind_for(FlowId::new(5)), FlowKind::Data);
    assert_eq!(
        link.send(SendTarget::Bound(FlowId::control()), v3_ping_response()).unwrap().path(),
        ReplyPath::control()
    );
}

fn assert_sent(
    sent: &SentPacket,
    target: SendTarget,
    receipt: SendReceipt,
    packet_matches: impl FnOnce(&MqttPacket) -> bool,
) {
    assert_eq!(sent.target, target);
    assert_eq!(sent.receipt, receipt);
    assert!(packet_matches(&sent.packet));
}

fn v3_ping_request() -> MqttPacket {
    MqttPacket::V3(PacketV3::PingRequest)
}

fn v3_ping_response() -> MqttPacket {
    MqttPacket::V3(PacketV3::PingResponse)
}

fn v5_ping_request() -> MqttPacket {
    MqttPacket::V5(PacketV5::PingRequest)
}

fn v5_ping_response() -> MqttPacket {
    MqttPacket::V5(PacketV5::PingResponse)
}
