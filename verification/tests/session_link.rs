use rmqtt::inbound::{Reply, SubscribeReply, UnsubscribeReply};
use rmqtt::link::{FlowCloseReason, FlowId, FlowKind, LinkError, LinkEvent, ReplyPath};
use rmqtt::packet::{
    Auth, DisconnectReasonCode, DisconnectV5, MqttPacket, Packet, PacketId, PacketV3, PacketV5,
    ProtocolVersion, Publish, PublishAck, PublishAck2, PublishAck2Reason, PublishProperties, QoS,
    SubscribeAck, SubscribeAckReason, SubscribeReturnCode, UnsubscribeAck, UnsubscribeAckReason,
};
use rmqtt::reason::PublishResult;
use rmqtt::session_link::{SessionLink, SessionLinkEvent};

fn packet_id(value: u16) -> PacketId {
    PacketId::new(value).unwrap()
}

fn publish(topic: &str) -> Publish {
    Publish {
        dup: false,
        retain: false,
        qos: QoS::AtLeastOnce,
        topic: topic.to_string(),
        packet_id: Some(packet_id(1)),
        payload: b"payload".to_vec(),
        properties: Some(PublishProperties {
            topic_alias: None,
            message_expiry_interval: None,
            content_type: None,
            correlation_data: None,
            response_topic: None,
            is_utf8_payload: false,
            subscription_ids: Vec::new(),
            user_properties: Vec::new(),
        }),
        delay_interval: None,
        create_time: None,
    }
}

#[test]
fn recv_maps_packets_and_preserves_reply_path() {
    let reply_path = ReplyPath::new(FlowId::new(7), FlowKind::Data, 3);
    let link = SessionLink::new(ProtocolVersion::MQTT3);
    let event = link
        .receive(Some(LinkEvent::Packet {
            packet: MqttPacket::V3(PacketV3::PingRequest),
            reply_path,
        }))
        .unwrap()
        .unwrap();

    match event {
        SessionLinkEvent::Packet {
            packet: Packet::V3(PacketV3::PingRequest),
            reply_path: actual,
        } => {
            assert_eq!(actual, reply_path)
        }
        event => panic!("unexpected event: {event:?}"),
    }
}

#[test]
fn recv_passes_closures_on() {
    let link = SessionLink::new(ProtocolVersion::MQTT5);
    assert_eq!(link.protocol(), ProtocolVersion::MQTT5);
    assert!(matches!(link.receive(None), Ok(None)));
    assert!(matches!(
        link.receive(Some(LinkEvent::FlowClosed {
            flow_id: FlowId::new(4),
            reason: FlowCloseReason::RecvReset(9),
        })),
        Ok(Some(SessionLinkEvent::FlowClosed { reason: FlowCloseReason::RecvReset(9), .. }))
    ));
}

#[test]
fn send_ping_response_preserves_target() {
    let link = SessionLink::new(ProtocolVersion::MQTT3);
    assert_eq!(link.ping_response(), MqttPacket::V3(PacketV3::PingResponse));
    assert_eq!(
        SessionLink::new(ProtocolVersion::MQTT5).ping_response(),
        MqttPacket::V5(PacketV5::PingResponse)
    );
}

#[test]
fn v3_helpers_construct_v3_ack_packets() {
    let packet_id = packet_id(12);
    let link = SessionLink::new(ProtocolVersion::MQTT3);

    assert!(matches!(
        link.publish_ack(packet_id, PublishResult::success()),
        MqttPacket::V3(PacketV3::PublishAck { packet_id: id }) if id == packet_id
    ));
    assert!(matches!(
        link.publish_received(packet_id, PublishResult::success()),
        MqttPacket::V3(PacketV3::PublishReceived { packet_id: id }) if id == packet_id
    ));
    assert!(matches!(
        link.publish_release(packet_id, None).unwrap(),
        MqttPacket::V3(PacketV3::PublishRelease { packet_id: id }) if id == packet_id
    ));
    assert!(matches!(
        link.publish_complete(packet_id, None).unwrap(),
        MqttPacket::V3(PacketV3::PublishComplete { packet_id: id }) if id == packet_id
    ));
    let status = vec![SubscribeReturnCode::Success(QoS::AtLeastOnce)];
    let ack = link
        .reply_packet(Reply::SubscribeAck(SubscribeReply::V3 { packet_id, status: status.clone() }))
        .unwrap();
    assert_eq!(ack, MqttPacket::V3(PacketV3::SubscribeAck { packet_id, status }));
    let ack = link
        .reply_packet(Reply::UnsubscribeAck(UnsubscribeReply::V3 { packet_id }))
        .unwrap();
    assert_eq!(ack, MqttPacket::V3(PacketV3::UnsubscribeAck { packet_id }));
}

#[test]
fn v5_helpers_construct_v5_packets() {
    let packet_id = packet_id(21);
    let link = SessionLink::new(ProtocolVersion::MQTT5);

    assert!(matches!(
        link.publish_ack(packet_id, PublishResult::success()),
        MqttPacket::V5(PacketV5::PublishAck(PublishAck { packet_id: id, .. })) if id == packet_id
    ));
    assert!(matches!(
        link.publish_received(packet_id, PublishResult::success()),
        MqttPacket::V5(PacketV5::PublishReceived(PublishAck { packet_id: id, .. }))
            if id == packet_id
    ));
    assert!(matches!(
        link.publish_release(packet_id, Some(PublishAck2Reason::PacketIdNotFound)).unwrap(),
        MqttPacket::V5(PacketV5::PublishRelease(PublishAck2 {
            packet_id: id,
            reason_code: PublishAck2Reason::PacketIdNotFound,
            ..
        })) if id == packet_id
    ));
    assert!(matches!(
        link.publish_complete(packet_id, None).unwrap(),
        MqttPacket::V5(PacketV5::PublishComplete(PublishAck2 {
            packet_id: id,
            reason_code: PublishAck2Reason::Success,
            ..
        })) if id == packet_id
    ));
    let ack = SubscribeAck {
        packet_id,
        properties: Vec::new(),
        reason_string: None,
        status: vec![SubscribeAckReason::GrantedQos1],
    };
    assert_eq!(
        link.reply_packet(Reply::SubscribeAck(SubscribeReply::V5(ack.clone()))).unwrap(),
        MqttPacket::V5(PacketV5::SubscribeAck(ack))
    );
    let ack = UnsubscribeAck {
        packet_id,
        properties: Vec::new(),
        reason_string: None,
        status: vec![UnsubscribeAckReason::Success],
    };
    assert_eq!(
        link.reply_packet(Reply::UnsubscribeAck(UnsubscribeReply::V5(ack.clone()))).unwrap(),
        MqttPacket::V5(PacketV5::UnsubscribeAck(ack))
    );
    assert!(matches!(
        link.auth(Auth::default()).unwrap(),
        MqttPacket::V5(PacketV5::Auth(_))
    ));
    assert!(matches!(
        link.disconnect(DisconnectV5::new(DisconnectReasonCode::NormalDisconnection)).unwrap(),
        MqttPacket::V5(PacketV5::Disconnect(DisconnectV5 {
            reason_code: DisconnectReasonCode::NormalDisconnection,
            ..
        }))
    ));
}

#[test]
fn publish_applies_v5_topic_aliases() {
    let link = SessionLink::new(ProtocolVersion::MQTT5);

    let first = link.publish_packet(
        publish("alias/topic"),
        Some(30),
        Some((Some("alias/topic".to_string()), Some(1))),
    );
    let second = link.publish_packet(publish("alias/topic"), Some(45), Some((None, Some(1))));

    let MqttPacket::V5(PacketV5::Publish(first)) = first else {
        panic!("expected first v5 publish")
    };
    assert_eq!(first.topic, "alias/topic");
    assert_eq!(first.properties.as_ref().unwrap().message_expiry_interval, Some(30));
    assert_eq!(first.properties.as_ref().unwrap().topic_alias, Some(1));

    let MqttPacket::V5(PacketV5::Publish(second)) = second else {
        panic!("expected second v5 publish")
    };
    assert_eq!(second.topic, "");
    assert_eq!(second.properties.as_ref().unwrap().message_expiry_interval, Some(45));
    assert_eq!(second.properties.as_ref().unwrap().topic_alias, Some(1));
}

#[test]
fn v3_messages_are_sent_as_they_are() {
    let link = SessionLink::new(ProtocolVersion::MQTT3);
    assert_eq!(
        link.publish_packet(publish("a"), Some(30), Some((None, Some(1)))),
        MqttPacket::V3(PacketV3::Publish(publish("a")))
    );
}

#[test]
fn version_mismatches_fail_without_sending() {
    let send_link = SessionLink::new(ProtocolVersion::MQTT3);
    assert_eq!(
        send_link.encode_packet(Packet::V5(PacketV5::PingResponse)),
        Err(LinkError::CannotSendV5OnV3)
    );
    assert_eq!(
        send_link.publish_release(packet_id(1), Some(PublishAck2Reason::PacketIdNotFound)),
        Err(LinkError::PubrelReasonOnV3)
    );
    assert_eq!(
        send_link.publish_complete(packet_id(1), Some(PublishAck2Reason::PacketIdNotFound)),
        Err(LinkError::PubcompReasonOnV3)
    );

    let recv_link = SessionLink::new(ProtocolVersion::MQTT5);
    assert!(matches!(
        recv_link.receive(Some(LinkEvent::Packet {
            packet: MqttPacket::V3(PacketV3::PingRequest),
            reply_path: ReplyPath::control(),
        })),
        Err(LinkError::ReceivedV3OnV5)
    ));
    assert_eq!(
        recv_link.decode_packet(MqttPacket::Version(ProtocolVersion::MQTT5)),
        Err(LinkError::ReceivedVersionProbe)
    );
    assert_eq!(
        send_link.decode_packet(MqttPacket::V5(PacketV5::PingRequest)),
        Err(LinkError::ReceivedV5OnV3)
    );
    assert_eq!(
        recv_link.encode_packet(Packet::V3(PacketV3::PingResponse)),
        Err(LinkError::CannotSendV3OnV5)
    );
}

#[test]
fn decoding_gives_back_what_was_encoded() {
    let link = SessionLink::new(ProtocolVersion::MQTT5);
    let packet = Packet::V5(PacketV5::Publish(publish("a/b")));
    let encoded = link.encode_packet(packet.clone()).unwrap();
    assert_eq!(link.decode_packet(encoded), Ok(packet));
}
