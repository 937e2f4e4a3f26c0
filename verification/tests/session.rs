use rmqtt::inbound::{
    classify_request, Await, Effect, Next, PacketStep, Reply, Request, Sent, SubscribeReply,
    UnsubscribeReply,
};
use rmqtt::link::{FlowCloseReason, FlowId, FlowKind, LinkError, ReplyPath, SendReceipt, SendTarget};
use rmqtt::outbound::{
    resolve_existing_outbound_route, DeliveryAwait, DeliveryEffect, DeliveryNext, MomentStatus,
};
use rmqtt::packet::{
    Disconnect, Packet, PacketId, PacketV3, PacketV5, Publish, PublishAck, PublishAck2,
    PublishAck2Reason, PublishAckReason, QoS, SubscribeReturnCode,
};
use rmqtt::reason::{ProtocolError, PublishResult, Reason};
use rmqtt::route::{
    PacketIssuer, PacketRouteKey, PacketRouteLedger, RouteError, TransactionFamily,
    TransactionStage,
};
use rmqtt::session::{
    accept_client_qos2_publish_route, accept_server_pubrec, required_packet_id,
    restore_client_pubrel_route, SessionState,
};
use rmqtt::topic::TopicFilter;

fn id(value: u16) -> PacketId {
    PacketId::new(value).unwrap()
}

fn data(flow: u64) -> ReplyPath {
    ReplyPath::new(FlowId::new(flow), FlowKind::Data, 9)
}

fn message(qos: QoS, packet_id: Option<u16>, dup: bool) -> Publish {
    Publish {
        dup,
        retain: false,
        qos,
        topic: "sensors/a".to_string(),
        packet_id: packet_id.map(id),
        payload: b"21".to_vec(),
        properties: None,
        delay_interval: None,
        create_time: None,
    }
}

fn published(qos: QoS, packet_id: Option<u16>, dup: bool) -> Packet {
    Packet::V3(PacketV3::Publish(message(qos, packet_id, dup)))
}

#[test]
fn non_duplicate_packet_id_reuse_is_rejected_before_route_selection() {
    let mut routes = PacketRouteLedger::new();
    let packet_id = id(42);
    let key = PacketRouteKey::new(PacketIssuer::Server, packet_id);
    let path = ReplyPath::new(FlowId::new(3), FlowKind::Data, 9);
    routes
        .insert(key, TransactionFamily::PublishQos1, TransactionStage::PublishQos1AwaitPuback, path)
        .unwrap();
    let transaction = Some((
        key,
        TransactionFamily::PublishQos1,
        TransactionStage::PublishQos1AwaitPuback,
        MomentStatus::UnAck,
    ));

    assert!(resolve_existing_outbound_route(&routes, transaction, false).is_err());
    assert_eq!(resolve_existing_outbound_route(&routes, transaction, true).unwrap(), Some(path));
}

#[test]
fn restored_dup_qos2_publish_rebuilds_route_without_republishing() {
    let mut routes = PacketRouteLedger::new();
    let packet_id = id(42);
    let key = PacketRouteKey::new(PacketIssuer::Client, packet_id);
    let path = ReplyPath::new(FlowId::new(3), FlowKind::Data, 9);

    let should_publish =
        accept_client_qos2_publish_route(&mut routes, key, path, true, true).unwrap();

    assert!(!should_publish);
    let entry = routes.get(key).unwrap();
    assert_eq!(entry.family(), TransactionFamily::PublishQos2);
    assert_eq!(entry.stage(), TransactionStage::PublishQos2AwaitPubrel);
    assert_eq!(entry.path(), path);
}

#[test]
fn restored_pubrel_without_route_rebuilds_current_path_for_completion() {
    let mut routes = PacketRouteLedger::new();
    let packet_id = id(7);
    let key = PacketRouteKey::new(PacketIssuer::Client, packet_id);
    let path = ReplyPath::new(FlowId::new(5), FlowKind::Data, 11);

    restore_client_pubrel_route(&mut routes, key, path, true).unwrap();
    routes
        .complete(
            key,
            TransactionFamily::PublishQos2,
            TransactionStage::PublishQos2AwaitPubrel,
            path,
        )
        .unwrap();

    assert!(routes.get(key).is_none());
}

#[test]
fn packet_identifiers_that_are_missing_or_in_use_are_refused() {
    assert_eq!(
        required_packet_id(None),
        Err(Reason::ProtocolError(ProtocolError::MissingPacketId))
    );
    assert_eq!(required_packet_id(Some(id(3))), Ok(id(3)));
    let mut routes = PacketRouteLedger::new();
    let key = PacketRouteKey::new(PacketIssuer::Client, id(3));
    assert_eq!(
        accept_client_qos2_publish_route(&mut routes, key, data(1), false, true),
        Err(Reason::PacketIdInUse(id(3)))
    );
    assert_eq!(
        restore_client_pubrel_route(&mut routes, key, data(1), false),
        Err(Reason::ProtocolError(ProtocolError::Route(RouteError::NotFound { key })))
    );
}

#[test]
fn repeated_pubrec_is_in_turn_after_the_first() {
    let mut routes = PacketRouteLedger::new();
    let key = PacketRouteKey::new(PacketIssuer::Server, id(3));
    routes
        .insert(
            key,
            TransactionFamily::PublishQos2,
            TransactionStage::PublishQos2AwaitPubrec,
            data(1),
        )
        .unwrap();
    assert_eq!(accept_server_pubrec(&mut routes, id(3), data(1)), Ok(()));
    assert_eq!(routes.get(key).unwrap().stage(), TransactionStage::PublishQos2AwaitPubcomp);
    assert_eq!(accept_server_pubrec(&mut routes, id(3), data(1)), Ok(()));
    assert!(accept_server_pubrec(&mut routes, id(3), data(2)).is_err());
}

fn awaited(step: PacketStep) -> Await {
    match step.next {
        Next::Await(awaited) => awaited,
        next => panic!("unexpected step: {next:?}"),
    }
}

fn failure(step: PacketStep) -> Reason {
    match step.next {
        Next::Fail(reason) => reason,
        next => panic!("unexpected step: {next:?}"),
    }
}

fn is_done(step: &PacketStep) -> bool {
    matches!(step.next, Next::Done)
}

fn receipt(path: ReplyPath) -> Result<SendReceipt, LinkError> {
    Ok(SendReceipt::new(path))
}

#[test]
fn requests_are_told_apart() {
    assert!(matches!(classify_request(Packet::V3(PacketV3::PingRequest)), Request::Ping));
    assert!(matches!(classify_request(Packet::V5(PacketV5::PingRequest)), Request::Ping));
    assert!(matches!(
        classify_request(Packet::V3(PacketV3::Disconnect)),
        Request::Disconnect(Disconnect::V3)
    ));
    assert!(matches!(
        classify_request(Packet::V3(PacketV3::PingResponse)),
        Request::Unimplemented
    ));
}

#[test]
fn pings_are_answered_on_their_path() {
    let mut state = SessionState::new(0, 0, false);
    let step = state.begin_packet(Packet::V3(PacketV3::PingRequest), data(4), false, 0);
    let Await::Send { reply, path, sent } = awaited(step) else {
        panic!("expected a reply");
    };
    assert!(matches!(reply, Reply::PingResponse));
    assert_eq!(path, data(4));
    let step = state.on_sent(sent, path, receipt(path));
    assert!(is_done(&step));
    assert!(matches!(step.effects[..], [Effect::Keepalive { ping: true }]));
}

#[test]
fn qos0_messages_open_no_transaction() {
    let mut state = SessionState::new(0, 0, false);
    let step = state.begin_packet(published(QoS::AtMostOnce, None, false), data(4), false, 7);
    let Await::Publish { publish, transaction } = awaited(step) else {
        panic!("expected a publication");
    };
    assert_eq!(publish.create_time, Some(7));
    assert!(transaction.is_none());
    let step = state.on_published(None, Ok(PublishResult::success()));
    assert!(is_done(&step));
    assert_eq!(state.routes.len(), 0);
}

#[test]
fn qos1_message_runs_to_its_puback() {
    let mut state = SessionState::new(0, 0, false);
    let step = state.begin_packet(published(QoS::AtLeastOnce, Some(5), false), data(4), false, 7);
    let Await::Reserve { publish, packet_id, path } = awaited(step) else {
        panic!("expected a reservation");
    };
    let step = state.on_reserved(publish, packet_id, path, Ok(true));
    let Await::Publish { transaction, .. } = awaited(step) else {
        panic!("expected a publication");
    };
    assert_eq!(state.routes.len(), 1);
    let step = state.on_published(transaction, Ok(PublishResult::success()));
    let Await::Send { reply, path, sent } = awaited(step) else {
        panic!("expected a reply");
    };
    assert!(matches!(reply, Reply::PublishAck { packet_id, .. } if packet_id == id(5)));
    assert_eq!(path, data(4));
    let step = state.on_sent(sent, path, receipt(path));
    assert!(is_done(&step));
    assert!(matches!(
        step.effects[..],
        [Effect::ReleaseInbound(packet_id), Effect::Keepalive { ping: false }] if packet_id == id(5)
    ));
    assert_eq!(state.routes.len(), 0);
}

#[test]
fn qos2_message_is_published_once() {
    let mut state = SessionState::new(0, 0, false);
    let step = state.begin_packet(published(QoS::ExactlyOnce, Some(5), false), data(4), false, 7);
    let Await::Reserve { publish, packet_id, path } = awaited(step) else {
        panic!("expected a reservation");
    };
    let step = state.on_reserved(publish, packet_id, path, Ok(true));
    let Await::Publish { transaction, .. } = awaited(step) else {
        panic!("expected a publication");
    };
    let step = state.on_published(transaction, Ok(PublishResult::success()));
    let Await::Send { reply, path, sent } = awaited(step) else {
        panic!("expected a reply");
    };
    assert!(matches!(reply, Reply::PublishReceived { .. }));
    assert!(is_done(&state.on_sent(sent, path, receipt(path))));

    let step = state.begin_packet(published(QoS::ExactlyOnce, Some(5), true), data(4), false, 8);
    let Await::Send { reply, path, sent } = awaited(step) else {
        panic!("a retransmission must not be published again");
    };
    assert!(matches!(reply, Reply::PublishReceived { result: None, .. }));
    assert!(is_done(&state.on_sent(sent, path, receipt(path))));

    let wrong = state.begin_packet(published(QoS::ExactlyOnce, Some(5), true), data(5), false, 8);
    assert!(matches!(
        failure(wrong),
        Reason::ProtocolError(ProtocolError::Route(RouteError::WrongFlow { .. }))
    ));

    let step = state.begin_packet(
        Packet::V3(PacketV3::PublishRelease { packet_id: id(5) }),
        data(4),
        false,
        9,
    );
    let Await::Send { reply, path, sent } = awaited(step) else {
        panic!("expected a reply");
    };
    assert!(matches!(reply, Reply::PublishComplete { packet_id } if packet_id == id(5)));
    let step = state.on_sent(sent, path, receipt(path));
    assert!(is_done(&step));
    assert_eq!(state.routes.len(), 0);
}

#[test]
fn failed_publication_leaves_no_transaction() {
    let mut state = SessionState::new(0, 0, false);
    let step = state.begin_packet(published(QoS::AtLeastOnce, Some(5), false), data(4), false, 7);
    let Await::Reserve { publish, packet_id, path } = awaited(step) else {
        panic!("expected a reservation");
    };
    let step = state.on_reserved(publish, packet_id, path, Ok(true));
    let Await::Publish { transaction, .. } = awaited(step) else {
        panic!("expected a publication");
    };
    let reason = Reason::PublishRefused(PublishAckReason::NotAuthorized, "no".to_string());
    let step = state.on_published(transaction, Err(reason));
    assert!(matches!(failure(step), Reason::PublishRefused(PublishAckReason::NotAuthorized, _)));
    assert_eq!(state.routes.len(), 0);
}

#[test]
fn subscriptions_bind_once_acknowledged() {
    let mut state = SessionState::new(0, 0, false);
    let step = state.begin_packet(
        Packet::V3(PacketV3::Subscribe {
            packet_id: id(6),
            topic_filters: vec![("sensors/#".to_string(), QoS::AtMostOnce)],
        }),
        data(3),
        false,
        0,
    );
    let Await::Subscribe { path, .. } = awaited(step) else {
        panic!("expected subscriptions");
    };
    let reply = SubscribeReply::V3 {
        packet_id: id(6),
        status: vec![SubscribeReturnCode::Success(QoS::AtMostOnce)],
    };
    let bound = vec![TopicFilter::parse("sensors/#").unwrap()];
    let step = state.on_subscribed(id(6), path, Ok((reply, bound)));
    let Await::Send { path, sent, .. } = awaited(step) else {
        panic!("expected a reply");
    };
    assert_eq!(state.subscription_bindings.route("sensors/a"), None);
    assert!(is_done(&state.on_sent(sent, path, receipt(path))));
    assert_eq!(state.subscription_bindings.route("sensors/a"), Some(data(3)));
    assert_eq!(state.routes.len(), 0);

    let step = state.begin_packet(
        Packet::V3(PacketV3::Unsubscribe {
            packet_id: id(7),
            topic_filters: vec!["sensors/#".to_string()],
        }),
        data(3),
        false,
        0,
    );
    let Await::Unsubscribe { path, .. } = awaited(step) else {
        panic!("expected unsubscriptions");
    };
    let unbound = vec![TopicFilter::parse("sensors/#").unwrap()];
    let reply = UnsubscribeReply::V3 { packet_id: id(7) };
    let step = state.on_unsubscribed(id(7), path, Ok((reply, unbound)));
    let Await::Send { path, sent, .. } = awaited(step) else {
        panic!("expected a reply");
    };
    assert!(matches!(sent, Sent::Unsuback { .. }));
    assert!(is_done(&state.on_sent(sent, path, receipt(path))));
    assert_eq!(state.subscription_bindings.route("sensors/a"), None);
}

#[test]
fn services_and_links_that_fail_end_the_session() {
    let mut state = SessionState::new(0, 0, false);
    let step = state.on_subscribed(id(6), data(3), Err("router".to_string()));
    assert_eq!(failure(step), Reason::SubscribeFailed("router".to_string()));
    let step = state.on_unsubscribed(id(6), data(3), Err("router".to_string()));
    assert_eq!(failure(step), Reason::UnsubscribeFailed("router".to_string()));
    let step = state.on_sent(Sent::Nothing, data(3), Err(LinkError::StaleReplyPath));
    assert_eq!(failure(step), Reason::Link(LinkError::StaleReplyPath));
    let step = state.begin_packet(Packet::V3(PacketV3::PingResponse), data(3), false, 0);
    assert_eq!(failure(step), Reason::UnimplementedPacket);
    let step = state.begin_packet(Packet::V3(PacketV3::Disconnect), data(3), false, 0);
    assert!(matches!(awaited(step), Await::RecordDisconnect(Disconnect::V3)));
    assert!(is_done(&state.on_disconnect_recorded(Ok(()))));
    assert_eq!(
        failure(state.on_disconnect_recorded(Err("store".to_string()))),
        Reason::Service("store".to_string())
    );
}

fn awaited_delivery(next: DeliveryNext) -> DeliveryAwait {
    match next {
        DeliveryNext::Await(awaited) => awaited,
        next => panic!("unexpected delivery: {next:?}"),
    }
}

#[test]
fn delivery_follows_the_binding_and_its_retransmission_the_transaction() {
    let mut state = SessionState::new(0, 0, false);
    state.subscription_bindings.begin(TopicFilter::parse("sensors/+").unwrap(), data(3));
    state.subscription_bindings.activate(&TopicFilter::parse("sensors/+").unwrap());

    let step = state.begin_delivery(message(QoS::AtLeastOnce, None, false), false);
    let DeliveryAwait::DrawPacketId(publish) = awaited_delivery(step.next) else {
        panic!("expected a packet identifier to be drawn");
    };
    let step = state.on_packet_id(publish, Ok(12));
    let DeliveryAwait::ShowMessage { publish, retry } = awaited_delivery(step.next) else {
        panic!("expected the hooks to be shown the message");
    };
    let step = state.on_message_shown(publish, retry);
    let DeliveryAwait::SendMessage { publish, target, transaction } = awaited_delivery(step.next)
    else {
        panic!("expected the message to be sent");
    };
    assert_eq!(target, SendTarget::Reply(data(3)));
    assert_eq!(publish.packet_id, Some(id(12)));
    let step = state.on_message_sent(publish, target, transaction, receipt(data(3)));
    assert!(matches!(step.next, DeliveryNext::Done));
    assert!(matches!(
        step.effects[..],
        [DeliveryEffect::StoreMessage { status: MomentStatus::UnAck, .. }]
    ));
    let key = PacketRouteKey::new(PacketIssuer::Server, id(12));
    assert_eq!(state.routes.get(key).unwrap().path(), data(3));

    state.subscription_bindings.remove_flow(FlowId::new(3));
    let step = state.begin_retransmission(
        MomentStatus::UnAck,
        message(QoS::AtLeastOnce, Some(12), false),
        false,
    );
    let DeliveryAwait::ShowMessage { publish, retry } = awaited_delivery(step.next) else {
        panic!("expected the hooks to be shown the message");
    };
    assert!(publish.dup);
    let step = state.on_message_shown(publish, retry);
    let DeliveryAwait::SendMessage { target, .. } = awaited_delivery(step.next) else {
        panic!("expected the message to be sent");
    };
    assert_eq!(target, SendTarget::Reply(data(3)));

    let step = state.begin_packet(
        Packet::V3(PacketV3::PublishAck { packet_id: id(12) }),
        data(3),
        false,
        0,
    );
    assert!(is_done(&step));
    assert!(matches!(step.effects[0], Effect::AcknowledgeOutbound(packet_id) if packet_id == id(12)));
    assert!(state.routes.get(key).is_none());
}

#[test]
fn messages_without_a_binding_take_the_control_flow() {
    let mut state = SessionState::new(0, 0, false);
    let step = state.begin_delivery(message(QoS::AtMostOnce, None, false), false);
    let DeliveryAwait::ShowMessage { publish, retry } = awaited_delivery(step.next) else {
        panic!("expected the hooks to be shown the message");
    };
    let step = state.on_message_shown(publish, retry);
    let DeliveryAwait::SendMessage { publish, target, transaction } = awaited_delivery(step.next)
    else {
        panic!("expected the message to be sent");
    };
    assert_eq!(target, SendTarget::Control);
    assert!(transaction.is_none());
    let step = state.on_message_sent(publish, target, transaction, Err(LinkError::StaleReplyPath));
    assert!(matches!(step.next, DeliveryNext::Fail(Reason::Link(LinkError::StaleReplyPath))));
}

#[test]
fn failing_data_flows_lose_unacknowledged_messages_only() {
    let mut state = SessionState::new(0, 0, false);
    state.subscription_bindings.begin(TopicFilter::parse("sensors/+").unwrap(), data(3));
    state.subscription_bindings.activate(&TopicFilter::parse("sensors/+").unwrap());
    let step = state.on_message_shown(message(QoS::AtMostOnce, None, false), None);
    let DeliveryAwait::SendMessage { publish, target, transaction } = awaited_delivery(step.next)
    else {
        panic!("expected the message to be sent");
    };
    let step = state.on_message_sent(
        publish,
        target,
        transaction,
        Err(LinkError::FlowNotActive(FlowId::new(3))),
    );
    assert!(matches!(step.next, DeliveryNext::Done));
    assert!(step.effects.iter().any(|effect| matches!(
        effect,
        DeliveryEffect::ResetFlow { flow_id, reason: FlowCloseReason::SendFailed }
            if *flow_id == FlowId::new(3)
    )));
    assert_eq!(state.subscription_bindings.route("sensors/a"), None);
}

#[test]
fn expired_messages_are_dropped() {
    let mut state = SessionState::new(0, 0, false);
    let step = state.begin_delivery(message(QoS::AtLeastOnce, None, false), true);
    assert!(matches!(step.next, DeliveryNext::Done));
    assert!(matches!(
        step.effects[..],
        [DeliveryEffect::DropMessage { reason: Reason::MessageExpiration, .. }]
    ));
}

#[test]
fn qos2_release_is_resent_on_the_path_of_the_transaction() {
    let mut state = SessionState::new(0, 0, false);
    let key = PacketRouteKey::new(PacketIssuer::Server, id(12));
    state
        .routes
        .insert(
            key,
            TransactionFamily::PublishQos2,
            TransactionStage::PublishQos2AwaitPubcomp,
            data(3),
        )
        .unwrap();
    let step = state.begin_retransmission(
        MomentStatus::UnComplete,
        message(QoS::ExactlyOnce, Some(12), false),
        false,
    );
    let DeliveryAwait::SendRelease { packet_id, target } = awaited_delivery(step.next) else {
        panic!("expected PUBREL");
    };
    assert_eq!(target, SendTarget::Reply(data(3)));
    let step = state.on_release_sent(packet_id, receipt(data(3)));
    assert!(matches!(step.next, DeliveryNext::Done));
}

#[test]
fn retransmissions_keep_their_identity() {
    let mut state = SessionState::new(0, 0, false);
    let step = state.begin_delivery(message(QoS::AtLeastOnce, Some(9), true), false);
    let DeliveryAwait::ShowMessage { publish, retry } = awaited_delivery(step.next) else {
        panic!("expected the hooks to be shown the message");
    };
    let changed = Publish { packet_id: Some(id(10)), ..publish };
    let step = state.on_message_shown(changed, retry);
    assert!(matches!(step.next, DeliveryNext::Fail(Reason::RetryIdentityChanged)));
}

#[test]
fn packet_identifiers_are_shared_by_all_flows() {
    let mut state = SessionState::new(0, 0, false);
    let subscribe = |value: u16| {
        Packet::V3(PacketV3::Subscribe {
            packet_id: id(value),
            topic_filters: vec![("sensors/#".to_string(), QoS::AtMostOnce)],
        })
    };
    let step = state.begin_packet(subscribe(7), data(3), false, 0);
    assert!(matches!(awaited(step), Await::Subscribe { .. }));

    for packet in [
        subscribe(7),
        published(QoS::AtLeastOnce, Some(7), false),
        published(QoS::ExactlyOnce, Some(7), false),
    ] {
        let step = state.begin_packet(packet, data(5), false, 0);
        failure(step);
        let key = PacketRouteKey::new(PacketIssuer::Client, id(7));
        assert_eq!(state.routes.len(), 1);
        assert_eq!(state.routes.get(key).unwrap().family(), TransactionFamily::Subscribe);
        assert_eq!(state.routes.get(key).unwrap().path(), data(3));
    }

    let step = state.begin_packet(subscribe(8), data(5), false, 0);
    assert!(matches!(awaited(step), Await::Subscribe { .. }));
}

#[test]
fn deliveries_that_fit_no_transaction_fail() {
    let mut state = SessionState::new(0, 0, false);
    let step = state.on_message_shown(message(QoS::AtLeastOnce, None, false), None);
    assert!(matches!(step.next, DeliveryNext::Fail(Reason::OutboundPacketIdMissing)));

    let key = PacketRouteKey::new(PacketIssuer::Server, id(9));
    state
        .routes
        .insert(
            key,
            TransactionFamily::PublishQos1,
            TransactionStage::PublishQos1AwaitPuback,
            data(3),
        )
        .unwrap();
    let step = state.on_message_shown(message(QoS::AtLeastOnce, Some(9), false), None);
    assert!(matches!(
        step.next,
        DeliveryNext::Fail(Reason::OutboundPacketIdInUse(packet_id)) if packet_id == id(9)
    ));
    let step = state.on_message_shown(message(QoS::ExactlyOnce, Some(9), true), None);
    assert!(matches!(
        step.next,
        DeliveryNext::Fail(Reason::OutboundRoute(RouteError::WrongFamily { .. }))
    ));
}

fn ack(value: u16) -> PublishAck {
    PublishAck {
        packet_id: id(value),
        reason_code: PublishAckReason::Success,
        properties: Vec::new(),
        reason_string: None,
    }
}

fn ack2(value: u16) -> PublishAck2 {
    PublishAck2 {
        packet_id: id(value),
        reason_code: PublishAck2Reason::Success,
        properties: Vec::new(),
        reason_string: None,
    }
}

fn deliver(state: &mut SessionState, qos: QoS) {
    let step = state.on_message_shown(message(qos, Some(12), false), None);
    let DeliveryAwait::SendMessage { publish, target, transaction } = awaited_delivery(step.next)
    else {
        panic!("expected the message to be sent");
    };
    let step = state.on_message_sent(publish, target, transaction, receipt(data(3)));
    assert!(matches!(step.next, DeliveryNext::Done));
    assert_eq!(state.routes.len(), 1);
}

#[test]
fn mqtt5_acknowledgements_end_deliveries() {
    let mut state = SessionState::new(0, 0, false);
    deliver(&mut state, QoS::AtLeastOnce);
    let step = state.begin_packet(Packet::V5(PacketV5::PublishAck(ack(12))), data(3), false, 0);
    assert!(is_done(&step));
    assert_eq!(state.routes.len(), 0);

    deliver(&mut state, QoS::ExactlyOnce);
    for _ in 0..2 {
        let pubrec = Packet::V5(PacketV5::PublishReceived(ack(12)));
        let step = state.begin_packet(pubrec, data(3), false, 0);
        let Await::Send { reply, path, sent } = awaited(step) else {
            panic!("expected PUBREL");
        };
        assert!(matches!(reply, Reply::PublishRelease { packet_id } if packet_id == id(12)));
        assert!(is_done(&state.on_sent(sent, path, receipt(path))));
    }
    let pubcomp = Packet::V5(PacketV5::PublishComplete(ack2(12)));
    assert!(is_done(&state.begin_packet(pubcomp, data(3), false, 0)));
    assert_eq!(state.routes.len(), 0);
}

#[test]
fn mqtt5_release_ends_an_inbound_message() {
    let mut state = SessionState::new(0, 0, false);
    let publish = Packet::V5(PacketV5::Publish(message(QoS::ExactlyOnce, Some(5), false)));
    let step = state.begin_packet(publish, data(4), false, 7);
    assert!(matches!(awaited(step), Await::Reserve { .. }));
    let pubrel = Packet::V5(PacketV5::PublishRelease(ack2(5)));
    let step = state.begin_packet(pubrel, data(4), true, 9);
    let Await::Send { reply, path, sent } = awaited(step) else {
        panic!("expected a reply");
    };
    assert!(matches!(reply, Reply::PublishComplete { packet_id } if packet_id == id(5)));
    assert!(is_done(&state.on_sent(sent, path, receipt(path))));
    assert_eq!(state.routes.len(), 0);
}
