use std::collections::VecDeque;

use rmqtt::identity::{Id, MessageSource, SourceKind};
use rmqtt::lifecycle::{Message, MessageAction};
use rmqtt::offline::{
    inbound_ids_to_restore, messages_to_drop, plan_transfer, summarize, OfflineInfo,
    OutInflightMessage,
};
use rmqtt::outbound::MomentStatus;
use rmqtt::packet::{PacketId, Publish, QoS};
use rmqtt::session::SessionState;
use rmqtt::subscribe::SubscriptionOptions;

fn id() -> Id {
    Id {
        node_id: 3,
        lid: 1,
        local_addr: None,
        remote_addr: None,
        client_id: "sensor".to_string(),
        username: Some("u".to_string()),
    }
}

fn message(topic: &str) -> Publish {
    Publish {
        dup: false,
        retain: false,
        qos: QoS::AtLeastOnce,
        topic: topic.to_string(),
        packet_id: None,
        payload: vec![],
        properties: None,
        delay_interval: None,
        create_time: None,
    }
}

fn queued(topic: &str) -> (MessageSource, Publish) {
    (MessageSource::from_custom(id()), message(topic))
}

fn inflight(topic: &str) -> OutInflightMessage {
    OutInflightMessage {
        status: MomentStatus::UnAck,
        from: MessageSource::from_lastwill(id()),
        publish: message(topic),
    }
}

fn subscription(filter: &str) -> (String, SubscriptionOptions) {
    (
        filter.to_string(),
        SubscriptionOptions {
            qos: QoS::AtLeastOnce,
            retain_handling: None,
            shared_group: None,
            limit_subs: None,
            id: None,
        },
    )
}

fn info() -> OfflineInfo {
    OfflineInfo::collect(
        &id(),
        vec![subscription("a"), subscription("b")],
        VecDeque::from(vec![queued("q1"), queued("q2")]),
        vec![inflight("i1"), inflight("i2"), inflight("i3")],
        vec![PacketId::new(7).unwrap(), PacketId::new(2).unwrap()],
        1234,
    )
}

#[test]
fn snapshots_hold_what_the_session_leaves() {
    let info = info();
    assert_eq!(info.id.client_id, "sensor");
    assert_eq!(info.id.node_id, 3);
    assert_eq!(info.id.username.as_deref(), Some("u"));
    assert_eq!(info.subscriptions.len(), 2);
    assert_eq!(info.offline_messages[0].1.topic, "q1");
    assert_eq!(info.inflight_messages[2].publish.topic, "i3");
    assert_eq!(info.inbound_inflight_packet_ids[0].get(), 7);
    assert_eq!(info.created_at, 1234);
}

#[test]
fn transfers_reach_the_resumed_session() {
    let transfer = plan_transfer(info(), false);
    let filters: Vec<&str> = transfer.subscriptions.iter().map(|(tf, _)| tf.as_str()).collect();
    assert_eq!(filters, vec!["a", "b"]);
    let window: Vec<&str> =
        transfer.retransmit.iter().map(|kept| kept.publish.topic.as_str()).collect();
    assert_eq!(window, vec!["i3", "i2", "i1"]);
    let queue: Vec<&str> = transfer.forward.iter().map(|(_, p)| p.topic.as_str()).collect();
    assert_eq!(queue, vec!["q1", "q2"]);
    assert!(plan_transfer(info(), true).subscriptions.is_empty());
}

#[test]
fn transfers_come_through_the_mailbox() {
    let mut state = SessionState::new(0, 0, false);
    match state.on_mailbox_message(Message::SessionStateTransfer(info(), true)) {
        MessageAction::Transfer(info, clean_start) => {
            assert_eq!(info.created_at, 1234);
            assert!(clean_start);
        }
        other => panic!("{:?}", other),
    }
}

#[test]
fn receive_windows_are_restored_unless_the_client_starts_clean() {
    let info = info();
    let ids: Vec<u16> =
        inbound_ids_to_restore(Some(&info), false).iter().map(|id| id.get()).collect();
    assert_eq!(ids, vec![7, 2]);
    assert!(inbound_ids_to_restore(Some(&info), true).is_empty());
    assert!(inbound_ids_to_restore(None, false).is_empty());
}

#[test]
fn cleaned_sessions_drop_queue_and_window() {
    let dropped = messages_to_drop(
        VecDeque::from(vec![queued("q1"), queued("q2")]),
        VecDeque::from(vec![inflight("i1")]),
    );
    let topics: Vec<&str> = dropped.iter().map(|(_, p)| p.topic.as_str()).collect();
    assert_eq!(topics, vec!["q1", "q2", "i1"]);
    assert_eq!(dropped[0].0.kind, SourceKind::Custom);
    assert_eq!(dropped[2].0.kind, SourceKind::LastWill);
}

#[test]
fn figures_name_the_first_subscriptions() {
    let many: Vec<(String, SubscriptionOptions)> =
        (0..130).map(|i| subscription(&format!("t/{}", i))).collect();
    let summary = summarize(Some(many), 4, 5, Some(6));
    assert_eq!(summary.subscription_count, 130);
    assert_eq!(summary.topic_filters.len(), 100);
    assert_eq!(summary.topic_filters[99].0, "t/99");
    assert_eq!(summary.queues, 4);
    assert_eq!(summary.inflights, 5);
    assert_eq!(summary.created_at, 6);
    let summary = summarize(None, 0, 0, None);
    assert_eq!(summary.subscription_count, 0);
    assert!(summary.topic_filters.is_empty());
    assert_eq!(summary.created_at, 0);
}
