use rmqtt::identity::{Id, MessageSource};
use rmqtt::inbound::{SubscribeReply, UnsubscribeReply};
use rmqtt::packet::{
    PacketId, Publish, QoS, RetainHandling, SubscribeAckReason, SubscribeReturnCode,
    UnsubscribeAckReason,
};
use rmqtt::subscribe::{
    adjust, adjust_unsubscribe, apply_access_rule, check_limits, conclude, retain_plan,
    retained_message, retained_store_ids, stored_messages, subscribe_metric, Backlog, Retain,
    RetainPlan, StoredMessage, Subscribe, SubscribeBatch, SubscribeError, SubscribeMetric,
    SubscribeOutcome, SubscribeReturn, Subscribers, SubscriptionLimits, SubscriptionOptions,
    Unsubscribe, UnsubscribeBatch,
};

fn options(qos: QoS) -> SubscriptionOptions {
    SubscriptionOptions {
        qos,
        retain_handling: None,
        shared_group: None,
        limit_subs: None,
        id: None,
    }
}

fn request(filter: &str, qos: QoS) -> Subscribe {
    Subscribe { topic_filter: filter.to_string(), opts: options(qos) }
}

fn answer(ack_reason: SubscribeAckReason) -> SubscribeReturn {
    SubscribeReturn { ack_reason, prev_opts: None }
}

fn unlimited() -> SubscriptionLimits {
    SubscriptionLimits {
        max_subscriptions: 0,
        max_topic_levels: 0,
        max_qos_allowed: QoS::ExactlyOnce,
    }
}

fn source(node_id: u64) -> MessageSource {
    MessageSource::from_custom(Id {
        node_id,
        lid: 1,
        local_addr: None,
        remote_addr: None,
        client_id: "c".to_string(),
        username: None,
    })
}

fn message(topic: &str, qos: QoS) -> Publish {
    Publish {
        dup: true,
        retain: true,
        qos,
        topic: topic.to_string(),
        packet_id: PacketId::new(4),
        payload: vec![9],
        properties: None,
        delay_interval: None,
        create_time: Some(1),
    }
}

#[test]
fn listener_limits_are_checked_in_order() {
    let limits = SubscriptionLimits {
        max_subscriptions: 2,
        max_topic_levels: 2,
        max_qos_allowed: QoS::AtLeastOnce,
    };
    assert_eq!(
        check_limits(request("a/#/b", QoS::AtMostOnce), limits, 2, None).unwrap_err(),
        SubscribeError::TooManySubscriptions
    );
    assert_eq!(
        check_limits(request("a/#/b", QoS::AtMostOnce), limits, 1, None).unwrap_err(),
        SubscribeError::InvalidTopicFilter
    );
    assert_eq!(
        check_limits(request("a/b/c", QoS::AtMostOnce), limits, 1, None).unwrap_err(),
        SubscribeError::TooManyTopicLevels
    );
    let taken = check_limits(request("a/b", QoS::ExactlyOnce), limits, 1, None).unwrap();
    assert_eq!(taken.topic_filter, "a/b");
    assert_eq!(taken.opts.qos, QoS::AtLeastOnce);
}

#[test]
fn zero_stands_for_no_limit() {
    let taken =
        check_limits(request("a/#/b", QoS::ExactlyOnce), unlimited(), 1_000_000, None).unwrap();
    assert_eq!(taken.opts.qos, QoS::ExactlyOnce);
}

#[test]
fn full_filters_take_only_their_own_subscribers() {
    let limited = || {
        let mut sub = request("a", QoS::AtMostOnce);
        sub.opts.limit_subs = Some(2);
        sub
    };
    let others = |count| Some(Subscribers { count, has_client: false });
    assert_eq!(
        check_limits(limited(), unlimited(), 0, others(2)).unwrap_err(),
        SubscribeError::SubscribeLimited { limit: 2, count: 2 }
    );
    assert!(check_limits(limited(), unlimited(), 0, others(1)).is_ok());
    assert!(check_limits(limited(), unlimited(), 0, None).is_ok());
    let own = Some(Subscribers { count: 5, has_client: true });
    assert!(check_limits(limited(), unlimited(), 0, own).is_ok());
}

#[test]
fn hooks_may_replace_the_filter() {
    let sub = adjust(request("a", QoS::AtLeastOnce), Some("b".to_string()));
    assert_eq!(sub.topic_filter, "b");
    assert_eq!(adjust(sub, None).topic_filter, "b");
    let unsub = Unsubscribe { topic_filter: "a".to_string(), shared_group: Some("g".to_string()) };
    let unsub = adjust_unsubscribe(unsub, Some("b".to_string()));
    assert_eq!(unsub.topic_filter, "b");
    assert_eq!(unsub.shared_group.as_deref(), Some("g"));
    assert_eq!(adjust_unsubscribe(unsub, None).topic_filter, "b");
}

#[test]
fn quality_is_bounded_by_request_listener_and_access_rule() {
    let limits = SubscriptionLimits { max_qos_allowed: QoS::AtLeastOnce, ..unlimited() };
    let sub = check_limits(request("a", QoS::ExactlyOnce), limits, 0, None).unwrap();
    let sub = apply_access_rule(sub, Some(answer(SubscribeAckReason::GrantedQos2))).unwrap();
    assert_eq!(sub.opts.qos, QoS::AtLeastOnce);
    let sub = apply_access_rule(sub, None).unwrap();
    assert_eq!(sub.opts.qos, QoS::AtLeastOnce);
    let sub = apply_access_rule(sub, Some(answer(SubscribeAckReason::GrantedQos0))).unwrap();
    assert_eq!(sub.opts.qos, QoS::AtMostOnce);
    let refused =
        apply_access_rule(sub, Some(answer(SubscribeAckReason::NotAuthorized))).unwrap_err();
    assert_eq!(refused.reply.ack_reason, SubscribeAckReason::NotAuthorized);
    assert!(refused.reply.failure());
    assert!(refused.topic_filter.is_none());
}

#[test]
fn granted_subscriptions_get_their_backlog() {
    let mut sub = request("a/+", QoS::AtLeastOnce);
    sub.opts.retain_handling = Some(RetainHandling::AtSubscribeNew);
    let (outcome, backlog) = conclude(&sub, answer(SubscribeAckReason::GrantedQos1));
    assert_eq!(outcome.topic_filter.as_deref(), Some("a/+"));
    assert_eq!(outcome.reply.success(), Some(QoS::AtLeastOnce));
    assert_eq!(
        backlog,
        Some(Backlog {
            qos: QoS::AtLeastOnce,
            retain_handling: Some(RetainHandling::AtSubscribeNew),
            is_new: true,
        })
    );
    let replaced = SubscribeReturn {
        ack_reason: SubscribeAckReason::GrantedQos0,
        prev_opts: Some(options(QoS::AtMostOnce)),
    };
    assert!(!conclude(&sub, replaced).1.unwrap().is_new);
    let (outcome, backlog) = conclude(&sub, answer(SubscribeAckReason::QuotaExceeded));
    assert!(outcome.topic_filter.is_none());
    assert_eq!(backlog, None);
}

#[test]
fn refusals_are_counted() {
    assert_eq!(
        subscribe_metric(Some(SubscribeAckReason::NotAuthorized)),
        SubscribeMetric::AuthError
    );
    assert_eq!(subscribe_metric(Some(SubscribeAckReason::GrantedQos0)), SubscribeMetric::Granted);
    assert_eq!(subscribe_metric(Some(SubscribeAckReason::GrantedQos1)), SubscribeMetric::Granted);
    assert_eq!(subscribe_metric(Some(SubscribeAckReason::GrantedQos2)), SubscribeMetric::Granted);
    assert_eq!(subscribe_metric(Some(SubscribeAckReason::QuotaExceeded)), SubscribeMetric::Error);
    assert_eq!(subscribe_metric(None), SubscribeMetric::Error);
}

#[test]
fn retain_handling_decides_what_is_sent() {
    let at_new = Some(RetainHandling::AtSubscribeNew);
    assert_eq!(retain_plan(false, None, true), RetainPlan::Unavailable);
    assert_eq!(retain_plan(true, None, false), RetainPlan::Send);
    assert_eq!(retain_plan(true, Some(RetainHandling::AtSubscribe), false), RetainPlan::Send);
    assert_eq!(retain_plan(true, at_new, true), RetainPlan::Send);
    assert_eq!(retain_plan(true, at_new, false), RetainPlan::SendNone);
    assert_eq!(retain_plan(true, Some(RetainHandling::NoAtSubscribe), true), RetainPlan::SendNone);
}

#[test]
fn retained_messages_are_sent_anew() {
    let copy = retained_message(message("x", QoS::ExactlyOnce), "a/b".to_string(), QoS::AtLeastOnce, 77);
    assert!(!copy.dup);
    assert!(copy.retain);
    assert_eq!(copy.qos, QoS::AtLeastOnce);
    assert_eq!(copy.topic, "a/b");
    assert_eq!(copy.packet_id, None);
    assert_eq!(copy.create_time, Some(77));
    assert_eq!(copy.payload, vec![9]);
}

#[test]
fn stored_messages_skip_what_was_sent_as_retained() {
    let retains = vec![
        Retain { msg_id: Some(5), from: source(1), publish: message("a", QoS::AtMostOnce) },
        Retain { msg_id: None, from: source(1), publish: message("b", QoS::AtMostOnce) },
        Retain { msg_id: Some(6), from: source(2), publish: message("c", QoS::AtMostOnce) },
    ];
    let excluded = retained_store_ids(&retains);
    assert_eq!(excluded, vec![(1, 5), (2, 6)]);

    let stored = vec![
        StoredMessage { msg_id: 4, from: source(1), publish: message("d", QoS::ExactlyOnce) },
        StoredMessage { msg_id: 5, from: source(1), publish: message("a", QoS::AtMostOnce) },
        StoredMessage { msg_id: 5, from: source(2), publish: message("e", QoS::AtMostOnce) },
    ];
    let copies = stored_messages(stored, QoS::AtLeastOnce, &excluded);
    assert_eq!(copies.len(), 2);
    assert_eq!(copies[0].msg_id, 4);
    assert_eq!(copies[0].publish.topic, "d");
    assert_eq!(copies[0].publish.qos, QoS::AtLeastOnce);
    assert!(!copies[0].publish.dup);
    assert!(!copies[0].publish.retain);
    assert_eq!(copies[0].publish.packet_id, None);
    assert_eq!(copies[1].publish.topic, "e");
}

fn granted(filter: &str, ack_reason: SubscribeAckReason) -> Option<SubscribeOutcome> {
    Some(SubscribeOutcome { reply: answer(ack_reason), topic_filter: Some(filter.to_string()) })
}

fn mixed_batch() -> SubscribeBatch {
    let mut batch = SubscribeBatch::new();
    assert!(batch.add(granted("a/+", SubscribeAckReason::GrantedQos1)));
    assert!(batch.add(Some(SubscribeOutcome {
        reply: answer(SubscribeAckReason::NotAuthorized),
        topic_filter: None,
    })));
    assert!(batch.add(None));
    batch
}

#[test]
fn subscribe_answers_name_every_filter() {
    let id = PacketId::new(8).unwrap();
    let (reply, bound) = mixed_batch().into_v3(id);
    assert_eq!(bound.len(), 1);
    assert_eq!(bound[0].as_str(), "a/+");
    match reply {
        SubscribeReply::V3 { packet_id, status } => {
            assert_eq!(packet_id, id);
            assert_eq!(
                status,
                vec![
                    SubscribeReturnCode::Success(QoS::AtLeastOnce),
                    SubscribeReturnCode::Failure,
                    SubscribeReturnCode::Failure,
                ]
            );
        }
        other => panic!("{:?}", other),
    }
    match mixed_batch().into_v5(id).0 {
        SubscribeReply::V5(ack) => {
            assert_eq!(ack.packet_id, id);
            assert_eq!(
                ack.status,
                vec![
                    SubscribeAckReason::GrantedQos1,
                    SubscribeAckReason::NotAuthorized,
                    SubscribeAckReason::UnspecifiedError,
                ]
            );
            assert!(ack.properties.is_empty());
            assert_eq!(ack.reason_string, None);
        }
        other => panic!("{:?}", other),
    }
}

#[test]
fn invalid_filters_fail_the_whole_request() {
    let mut batch = mixed_batch();
    assert!(!batch.add(granted("a/#/b", SubscribeAckReason::GrantedQos0)));
    assert_eq!(batch.status.len(), 3);
    assert_eq!(batch.bound.len(), 1);
    let mut ended = UnsubscribeBatch::new();
    assert!(!ended.add("a+"));
    assert!(ended.unbound.is_empty());
}

#[test]
fn unsubscribe_answers_success_for_every_filter() {
    let id = PacketId::new(9).unwrap();
    let mut batch = UnsubscribeBatch::new();
    assert!(batch.add("a"));
    assert!(batch.add("b/#"));
    match batch.into_v5(id) {
        (UnsubscribeReply::V5(ack), unbound) => {
            assert_eq!(ack.packet_id, id);
            assert_eq!(
                ack.status,
                vec![UnsubscribeAckReason::Success, UnsubscribeAckReason::Success]
            );
            assert_eq!(unbound[1].as_str(), "b/#");
        }
        other => panic!("{:?}", other),
    }
    match UnsubscribeBatch::new().into_v3(id) {
        (UnsubscribeReply::V3 { packet_id }, unbound) => {
            assert_eq!(packet_id, id);
            assert!(unbound.is_empty());
        }
        other => panic!("{:?}", other),
    }
}
