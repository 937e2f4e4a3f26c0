use rmqtt::link::{
    is_serial_target, serial_recv, serial_reset_flow, serial_send, ConnectionCloseReason, FlowId,
    FlowKind, LinkError, LinkEvent, ReplyPath, SendReceipt, SendTarget, SerialMqttLink,
};
use rmqtt::packet::{ConnectV3, MqttPacket, PacketV3, PacketV5, ProtocolVersion};

#[test]
fn control_flow_id_is_opaque_zero() {
    assert_eq!(FlowId::control().get(), 0);
    assert_eq!(FlowId::new(7).get(), 7);
    assert_eq!(ReplyPath::control().flow_id(), FlowId::control());
    assert_eq!(ReplyPath::control().flow_kind(), FlowKind::Control);
}

#[test]
fn reply_paths_include_connection_generation() {
    let first = ReplyPath::new(FlowId::new(4), FlowKind::Data, 11);
    let second = ReplyPath::new(FlowId::new(4), FlowKind::Data, 12);

    assert_ne!(first, second);
    assert_eq!(first.generation(), 11);
    assert_eq!(second.generation(), 12);
}

#[test]
fn serial_link_can_return_inner_stream() {
    let link = SerialMqttLink::new(vec![1_u8, 2, 3]);
    assert_eq!(link.into_inner(), vec![1_u8, 2, 3]);
}

fn ping_response() -> MqttPacket {
    MqttPacket::V3(PacketV3::PingResponse)
}

#[test]
fn serial_link_receives_and_sends_control_packets() {
    let connect = MqttPacket::V3(PacketV3::Connect(ConnectV3 {
        protocol: 4,
        clean_session: true,
        keep_alive: 30,
        last_will: None,
        client_id: "serial-link".to_string(),
        username: None,
        password: None,
    }));
    let event = serial_recv(Some(Ok(connect))).unwrap().expect("packet event");
    let LinkEvent::Packet { packet, reply_path } = event else {
        panic!("serial links only emit packet events");
    };
    assert_eq!(reply_path, ReplyPath::control());
    assert!(matches!(packet, MqttPacket::V3(PacketV3::Connect(_))));

    let receipt = serial_send(SendTarget::Reply(reply_path), &ping_response(), false).unwrap();
    assert_eq!(receipt.path(), ReplyPath::control());
    assert!(serial_send(SendTarget::Control, &ping_response(), false).is_ok());
    assert!(serial_send(
        SendTarget::Bound(ReplyPath::control().flow_id()),
        &ping_response(),
        false
    )
    .is_ok());

    let data_reply_path = ReplyPath::new(FlowId::new(1), FlowKind::Data, 7);
    assert_eq!(
        serial_send(SendTarget::Reply(data_reply_path), &ping_response(), false),
        Err(LinkError::SerialControlOnly)
    );
    assert_eq!(
        serial_send(SendTarget::Bound(FlowId::new(1)), &ping_response(), false),
        Err(LinkError::SerialControlOnly)
    );
}

#[test]
fn serial_links_report_failures_and_their_end() {
    assert!(matches!(serial_recv(None), Ok(None)));
    assert!(matches!(
        serial_recv(Some(Err(LinkError::Transport("gone".to_string())))),
        Err(LinkError::Transport(text)) if text == "gone"
    ));
}

#[test]
fn serial_links_send_packets_of_their_version_only() {
    let v5 = MqttPacket::V5(PacketV5::PingResponse);
    assert_eq!(
        serial_send(SendTarget::Control, &v5, true),
        Ok(SendReceipt::new(ReplyPath::control()))
    );
    assert_eq!(
        serial_send(SendTarget::Control, &v5, false),
        Err(LinkError::StreamVersionMismatch)
    );
    assert_eq!(
        serial_send(SendTarget::Control, &ping_response(), true),
        Err(LinkError::StreamVersionMismatch)
    );
    assert_eq!(
        serial_send(SendTarget::Control, &MqttPacket::Version(ProtocolVersion::MQTT5), true),
        Err(LinkError::StreamVersionMismatch)
    );
}

#[test]
fn serial_links_have_no_flow_but_the_control_flow() {
    assert!(is_serial_target(SendTarget::Control));
    assert!(!is_serial_target(SendTarget::Bound(FlowId::new(9))));
    assert_eq!(
        serial_reset_flow(FlowId::control()),
        Ok(ConnectionCloseReason::ControlFlowClosed)
    );
    assert_eq!(serial_reset_flow(FlowId::new(1)), Err(LinkError::SerialNoDataFlow));
}
