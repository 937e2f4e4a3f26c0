use rmqtt::identity::{Id, MessageSource};
use rmqtt::lifecycle::{
    clean_session, farewell, keep_alive_interval, last_will_enable, plan_shutdown, plan_will,
    reports_offline_windows, retransmission_delay, ConnectKind, Ending, LoopAction, LoopEvent,
    Message, MessageAction, OfflineAction, OfflineEvent, OfflineState, Shutdown, WillPlan,
};
use rmqtt::link::{
    ConnectionCloseReason, FlowCloseReason, FlowId, FlowKind, LinkError, ReplyPath,
};
use rmqtt::packet::{
    DisconnectReasonCode, DisconnectV5, Packet, PacketId, PacketV3, ProtocolVersion, Publish, QoS,
};
use rmqtt::reason::{ProtocolError, Reason};
use rmqtt::route::{PacketIssuer, PacketRouteKey, TransactionFamily, TransactionStage};
use rmqtt::session::{SessionState, StateFlags};
use rmqtt::session_link::SessionLinkEvent;
use rmqtt::subscribe::{Subscribe, SubscriptionOptions, Unsubscribe};
use rmqtt::time::Duration;
use rmqtt::topic::TopicFilter;

fn source() -> MessageSource {
    MessageSource::from_custom(Id {
        node_id: 1,
        lid: 1,
        local_addr: None,
        remote_addr: None,
        client_id: "c".to_string(),
        username: None,
    })
}

fn message() -> Publish {
    Publish {
        dup: false,
        retain: false,
        qos: QoS::AtMostOnce,
        topic: "a".to_string(),
        packet_id: None,
        payload: vec![],
        properties: None,
        delay_interval: None,
        create_time: None,
    }
}

fn flow_closed(flow_id: FlowId) -> LoopEvent {
    LoopEvent::Link(Ok(Some(SessionLinkEvent::FlowClosed {
        flow_id,
        reason: FlowCloseReason::RecvReset(1),
    })))
}

#[test]
fn deadlines_follow_the_keep_alive() {
    assert_eq!(keep_alive_interval(30), Duration::from_secs(30));
    assert_eq!(keep_alive_interval(0), Duration::from_secs(u32::MAX as u64));
    assert_eq!(retransmission_delay(Some(Duration::from_nanos(3))), Duration::from_nanos(3));
    assert_eq!(retransmission_delay(None), Duration::from_secs(120));
}

#[test]
fn loop_events_are_answered() {
    let mut state = SessionState::new(0, 0, false);
    assert!(matches!(
        state.on_loop_event(LoopEvent::KeepAliveExpired),
        LoopAction::End(Reason::ConnectKeepaliveTimeout)
    ));
    assert!(matches!(state.on_loop_event(LoopEvent::RetransmissionDue), LoopAction::Retransmit));
    assert!(matches!(
        state.on_loop_event(LoopEvent::Queue(Some(Some((source(), message()))))),
        LoopAction::Deliver(_, publish) if publish == message()
    ));
    assert!(matches!(state.on_loop_event(LoopEvent::Queue(Some(None))), LoopAction::Wait));
    assert!(matches!(
        state.on_loop_event(LoopEvent::Queue(None)),
        LoopAction::End(Reason::MessageQueueClosed)
    ));
    assert!(matches!(
        state.on_loop_event(LoopEvent::Mailbox(Some(Message::Closed(Reason::ConnectRemoteClose)))),
        LoopAction::Process(Message::Closed(Reason::ConnectRemoteClose))
    ));
    assert!(matches!(
        state.on_loop_event(LoopEvent::Mailbox(None)),
        LoopAction::End(Reason::MailboxClosed)
    ));
    assert!(matches!(
        state.on_loop_event(LoopEvent::Link(Err(LinkError::StaleReplyPath))),
        LoopAction::End(Reason::Link(LinkError::StaleReplyPath))
    ));
    assert!(matches!(
        state.on_loop_event(LoopEvent::Link(Ok(None))),
        LoopAction::End(Reason::ConnectRemoteClose)
    ));
    assert!(matches!(
        state.on_loop_event(LoopEvent::Link(Ok(Some(SessionLinkEvent::ConnectionClosed {
            reason: ConnectionCloseReason::ProtocolViolation,
        })))),
        LoopAction::End(Reason::ConnectRemoteClose)
    ));
    let path = ReplyPath::new(FlowId::new(3), FlowKind::Data, 1);
    match state.on_loop_event(LoopEvent::Link(Ok(Some(SessionLinkEvent::Packet {
        packet: Packet::V3(PacketV3::PingRequest),
        reply_path: path,
    })))) {
        LoopAction::Handle { packet, reply_path } => {
            assert_eq!(packet, Packet::V3(PacketV3::PingRequest));
            assert_eq!(reply_path, path);
        }
        other => panic!("{:?}", other),
    }
}

#[test]
fn lost_flows_with_transactions_end_the_connection() {
    let mut state = SessionState::new(0, 0, false);
    let flow = FlowId::new(3);
    let path = ReplyPath::new(flow, FlowKind::Data, 1);
    let key = PacketRouteKey::new(PacketIssuer::Client, PacketId::new(7).unwrap());
    let filter = TopicFilter::parse("a/+").unwrap();
    state.subscription_bindings.begin(filter.clone(), path);
    state.subscription_bindings.activate(&filter);
    state
        .routes
        .insert(key, TransactionFamily::PublishQos2, TransactionStage::PublishQos2AwaitPubrel, path)
        .unwrap();

    match state.on_loop_event(flow_closed(flow)) {
        LoopAction::CloseAndEnd { close, reason } => {
            assert_eq!(close, ConnectionCloseReason::StatefulFlowFailure);
            assert_eq!(reason, Reason::ProtocolError(ProtocolError::TransactionLost(flow)));
        }
        other => panic!("{:?}", other),
    }
    assert_eq!(state.subscription_bindings.route("a/b"), Some(path));

    state.routes.remove(key);
    assert!(matches!(state.on_loop_event(flow_closed(flow)), LoopAction::Wait));
    assert_eq!(state.subscription_bindings.route("a/b"), None);
}

#[test]
fn mailbox_messages_are_answered() {
    let mut state = SessionState::new(0, 0, false);
    assert!(matches!(
        state.on_mailbox_message(Message::Forward(source(), message())),
        MessageAction::Enqueue(_, publish) if publish == message()
    ));
    let opts = SubscriptionOptions {
        qos: QoS::AtMostOnce,
        retain_handling: None,
        shared_group: None,
        limit_subs: None,
        id: None,
    };
    let sub = Subscribe { topic_filter: "a".to_string(), opts };
    assert!(matches!(
        state.on_mailbox_message(Message::Subscribe(sub)),
        MessageAction::Subscribe(sub) if sub.topic_filter == "a"
    ));
    assert!(matches!(
        state.on_mailbox_message(Message::Subscribes(vec![])),
        MessageAction::Subscribes(subs) if subs.is_empty()
    ));
    let unsub = Unsubscribe { topic_filter: "b".to_string(), shared_group: None };
    assert!(matches!(
        state.on_mailbox_message(Message::Unsubscribe(unsub)),
        MessageAction::Unsubscribe(unsub) if unsub.topic_filter == "b"
    ));
    assert!(matches!(
        state.on_mailbox_message(Message::Closed(Reason::MailboxClosed)),
        MessageAction::End(Reason::MailboxClosed)
    ));
}

#[test]
fn kicks_count_while_somebody_waits() {
    let mut state = SessionState::new(0, 0, false);
    let kick = |awaited| Message::Kick { awaited, clean_start: true, is_admin: false };
    assert!(matches!(state.on_mailbox_message(kick(false)), MessageAction::Wait));
    assert_eq!(state.flags, StateFlags::empty());
    assert!(matches!(
        state.on_mailbox_message(kick(true)),
        MessageAction::AnswerAndEnd(Reason::ConnectKicked(false))
    ));
    assert!(state.flags.kicked && state.flags.clean_start && !state.flags.by_admin_kick);
    let admin = Message::Kick { awaited: true, clean_start: false, is_admin: true };
    assert!(matches!(
        state.on_mailbox_message(admin),
        MessageAction::AnswerAndEnd(Reason::ConnectKicked(true))
    ));
    assert!(state.flags.by_admin_kick && state.flags.clean_start);
}

#[test]
fn sessions_live_as_long_as_their_connect_says() {
    let second = Duration::from_secs(1);
    assert!(clean_session(None, second));
    assert!(clean_session(Some(ConnectKind::V3 { clean_session: true }), second));
    assert!(!clean_session(Some(ConnectKind::V3 { clean_session: false }), Duration::zero()));
    assert!(clean_session(Some(ConnectKind::V5), Duration::zero()));
    assert!(!clean_session(Some(ConnectKind::V5), second));
}

#[test]
fn wills_follow_disorderly_ends() {
    let none = StateFlags::empty();
    let left = StateFlags { disconnect_received: true, ..none };
    let mut taken = none;
    taken.kick(false, false);
    let mut restarted = none;
    restarted.kick(true, false);
    let delay = Duration::from_secs(5);

    assert!(last_will_enable(none, false));
    assert!(!last_will_enable(left, true));
    assert!(!last_will_enable(taken, false));
    assert!(last_will_enable(taken, true));
    assert!(last_will_enable(restarted, false));

    assert_eq!(plan_will(left, false, Some(delay)), WillPlan::Discard);
    assert_eq!(plan_will(taken, false, Some(delay)), WillPlan::Discard);
    assert_eq!(plan_will(none, false, Some(delay)), WillPlan::Delay(delay));
    assert_eq!(plan_will(none, true, Some(delay)), WillPlan::Publish);
    assert_eq!(plan_will(none, false, None), WillPlan::Publish);
}

#[test]
fn sessions_end_as_they_were_left() {
    let none = StateFlags::empty();
    let delay = Duration::from_secs(5);
    assert_eq!(
        plan_shutdown(none, false, Some(delay), false, ProtocolVersion::MQTT5),
        Shutdown {
            will: WillPlan::Delay(delay),
            add_remote_close: true,
            send_disconnect: true,
            ending: Ending::GoOffline,
        }
    );
    assert_eq!(
        plan_shutdown(none, true, None, true, ProtocolVersion::MQTT3),
        Shutdown {
            will: WillPlan::Publish,
            add_remote_close: false,
            send_disconnect: false,
            ending: Ending::Clean,
        }
    );
    let mut taken = none;
    taken.kick(false, false);
    assert_eq!(
        plan_shutdown(taken, true, None, true, ProtocolVersion::MQTT3).ending,
        Ending::TakenOver
    );
    let mut removed = none;
    removed.kick(false, true);
    assert_eq!(
        plan_shutdown(removed, false, None, true, ProtocolVersion::MQTT3).ending,
        Ending::Clean
    );
    assert!(!reports_offline_windows(0, 0));
    assert!(reports_offline_windows(1, 0));
    assert!(reports_offline_windows(0, 1));
}

#[test]
fn farewells_carry_the_reason() {
    let packet = farewell(None, DisconnectReasonCode::KeepAliveTimeout, "silent".to_string());
    assert_eq!(packet.reason_code, DisconnectReasonCode::KeepAliveTimeout);
    assert_eq!(packet.reason_string.as_deref(), Some("silent"));
    assert_eq!(packet.session_expiry_interval_secs, None);
    let own = DisconnectV5::new(DisconnectReasonCode::DisconnectWithWillMessage);
    let packet = farewell(Some(own.clone()), DisconnectReasonCode::KeepAliveTimeout, String::new());
    assert_eq!(packet, own);
}

#[test]
fn delayed_wills_are_published_once() {
    let mut state = OfflineState::new(StateFlags::empty(), WillPlan::Delay(Duration::from_secs(5)));
    assert!(matches!(
        state.on_event(OfflineEvent::WillDelayElapsed),
        OfflineAction::RestartWillDelay { publish_will: true }
    ));
    assert!(matches!(
        state.on_event(OfflineEvent::WillDelayElapsed),
        OfflineAction::RestartWillDelay { publish_will: false }
    ));
    assert!(matches!(
        state.on_event(OfflineEvent::SessionExpired),
        OfflineAction::End { publish_will: false }
    ));

    let mut state = OfflineState::new(StateFlags::empty(), WillPlan::Delay(Duration::from_secs(5)));
    assert!(matches!(
        state.on_event(OfflineEvent::SessionExpired),
        OfflineAction::End { publish_will: true }
    ));
    let mut state = OfflineState::new(StateFlags::empty(), WillPlan::Publish);
    assert!(matches!(
        state.on_event(OfflineEvent::SessionExpired),
        OfflineAction::End { publish_will: false }
    ));
}

#[test]
fn offline_sessions_answer_their_mailbox() {
    let mut state = OfflineState::new(StateFlags::empty(), WillPlan::Discard);
    assert!(matches!(
        state.on_event(OfflineEvent::Mailbox(Some(Message::Forward(source(), message())))),
        OfflineAction::Enqueue(_, publish) if publish == message()
    ));
    assert!(matches!(
        state.on_event(OfflineEvent::Mailbox(Some(Message::Subscribes(vec![])))),
        OfflineAction::Wait
    ));
    let kick = |awaited| {
        OfflineEvent::Mailbox(Some(Message::Kick { awaited, clean_start: true, is_admin: false }))
    };
    assert!(matches!(state.on_event(kick(false)), OfflineAction::Wait));
    assert!(state.is_cleaned());
    assert!(matches!(state.on_event(kick(true)), OfflineAction::AnswerAndEnd));
    assert!(!state.is_cleaned());
    assert!(state.flags.clean_start);
    assert!(matches!(
        state.on_event(OfflineEvent::Mailbox(None)),
        OfflineAction::End { publish_will: false }
    ));
}
