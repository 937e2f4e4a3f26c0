use rmqtt::packet::{Publish, PublishAckReason, PublishProperties, QoS};
use rmqtt::publish::{
    begin_forwarding, begin_publication, conclude, forward_plan, forward_report, needs_lifetime,
    on_access_checked, on_alias_resolved, on_delay_parsed, on_delayed, on_forwarded, on_shown,
    ForwardPlan, ForwardReport, Forwarding, Publication,
};
use rmqtt::reason::{PublishResult, Reason};
use rmqtt::session::SessionState;

fn message(topic: &str, alias: Option<u16>) -> Publish {
    Publish {
        dup: false,
        retain: false,
        qos: QoS::AtLeastOnce,
        topic: topic.to_string(),
        packet_id: None,
        payload: vec![1, 2],
        properties: Some(PublishProperties {
            topic_alias: alias,
            message_expiry_interval: None,
            content_type: None,
            correlation_data: None,
            response_topic: None,
            is_utf8_payload: false,
            subscription_ids: vec![],
            user_properties: vec![],
        }),
        delay_interval: None,
        create_time: None,
    }
}

fn refusal(code: PublishAckReason, text: Option<&str>, disconnect: bool) -> PublishResult {
    PublishResult {
        reason_code: code,
        properties: vec![],
        reason_string: text.map(|text| text.to_string()),
        disconnect,
    }
}

#[test]
fn multistream_connections_refuse_topic_aliases() {
    let state = SessionState::new(0, 0, true);
    assert!(matches!(
        begin_publication(&state, message("", Some(3)), false),
        Publication::Over(Err(Reason::TopicAliasForbidden))
    ));
    assert!(matches!(
        begin_publication(&state, message("a", None), false),
        Publication::Show(_)
    ));
}

#[test]
fn topics_are_resolved_before_delays_are_parsed() {
    let state = SessionState::new(0, 5, false);
    let first = match begin_publication(&state, message("", Some(3)), true) {
        Publication::ResolveAlias(publish) => publish,
        other => panic!("{:?}", other),
    };
    let second = match on_alias_resolved(first, Ok("$delayed/5/a".to_string()), true) {
        Publication::ParseDelay(publish) => publish,
        other => panic!("{:?}", other),
    };
    assert_eq!(second.topic, "$delayed/5/a");
    assert_eq!(second.payload, vec![1, 2]);
    assert!(matches!(
        on_alias_resolved(message("", Some(9)), Err("unknown alias".to_string()), false),
        Publication::Over(Err(Reason::Service(text))) if text == "unknown alias"
    ));
    assert!(matches!(
        on_delay_parsed(Ok(message("a", None))),
        Publication::Show(publish) if publish.topic == "a"
    ));
    assert!(matches!(
        on_delay_parsed(Err("bad delay".to_string())),
        Publication::Over(Err(Reason::Service(text))) if text == "bad delay"
    ));
}

#[test]
fn hooks_may_replace_a_message() {
    assert!(matches!(
        on_shown(message("a", None), Some(message("b", None))),
        Publication::CheckAccess(publish) if publish.topic == "b"
    ));
    assert!(matches!(
        on_shown(message("a", None), None),
        Publication::CheckAccess(publish) if publish.topic == "a"
    ));
}

#[test]
fn denied_messages_are_dropped() {
    let denied = refusal(PublishAckReason::NotAuthorized, Some("no"), true);
    match on_access_checked(message("a", None), Some(denied), true, true) {
        Publication::Refuse { publish, code, result } => {
            assert_eq!(publish.topic, "a");
            assert_eq!(code, PublishAckReason::NotAuthorized);
            assert_eq!(
                result,
                Err(Reason::PublishRefused(PublishAckReason::NotAuthorized, "no".to_string()))
            );
        }
        other => panic!("{:?}", other),
    }
    let denied = refusal(PublishAckReason::QuotaExceeded, None, false);
    match on_access_checked(message("a", None), Some(denied), false, false) {
        Publication::Refuse { result, .. } => {
            assert_eq!(result, Ok(refusal(PublishAckReason::QuotaExceeded, None, false)));
        }
        other => panic!("{:?}", other),
    }
}

#[test]
fn allowed_messages_are_forwarded() {
    for (retain, storage, retained, expiry) in [
        (false, false, false, false),
        (false, true, false, true),
        (true, false, true, true),
        (true, false, false, false),
        (false, false, true, false),
    ] {
        let mut publish = message("a", None);
        publish.retain = retain;
        assert_eq!(needs_lifetime(&publish, storage, retained), expiry);
        match on_access_checked(publish, None, storage, retained) {
            Publication::Forward { publish, with_expiry } => {
                assert_eq!(publish.topic, "a");
                assert_eq!(with_expiry, expiry);
            }
            other => panic!("{:?}", other),
        }
    }
    match on_forwarded(Ok(())) {
        Publication::Over(Ok(result)) => assert_eq!(result, PublishResult::success()),
        other => panic!("{:?}", other),
    }
    assert!(matches!(
        on_forwarded(Err("down".to_string())),
        Publication::Over(Err(Reason::Service(text))) if text == "down"
    ));
}

#[test]
fn refusals_that_disconnect_become_errors() {
    assert_eq!(conclude(PublishResult::success()), Ok(PublishResult::success()));
    let kept = refusal(PublishAckReason::UnspecifiedError, Some("later"), false);
    assert_eq!(
        conclude(kept),
        Ok(refusal(PublishAckReason::UnspecifiedError, Some("later"), false))
    );
    assert_eq!(
        conclude(refusal(PublishAckReason::UnspecifiedError, None, true)),
        Err(Reason::PublishRefused(PublishAckReason::UnspecifiedError, String::new()))
    );
    assert_eq!(
        conclude(refusal(PublishAckReason::Success, None, true)),
        Ok(refusal(PublishAckReason::Success, None, true))
    );
}

#[test]
fn delays_are_tried_first() {
    let mut delayed = message("a", None);
    delayed.delay_interval = Some(5);
    assert!(matches!(begin_forwarding(delayed), Forwarding::Delay(_)));
    assert!(matches!(begin_forwarding(message("a", None)), Forwarding::Now(_)));
    assert!(matches!(on_delayed(None, true), Forwarding::Kept));
    assert!(matches!(on_delayed(Some(message("a", None)), true), Forwarding::Now(_)));
    assert!(matches!(on_delayed(Some(message("a", None)), false), Forwarding::Drop(_)));
}

#[test]
fn identifiers_are_drawn_for_stored_messages() {
    let mut publish = message("a", None);
    assert_eq!(
        forward_plan(&publish, false, true, false),
        ForwardPlan { draw_id: false, set_retained: false, store: false }
    );
    publish.retain = true;
    let has_expiry = needs_lifetime(&publish, true, true);
    assert_eq!(
        forward_plan(&publish, true, true, has_expiry),
        ForwardPlan { draw_id: true, set_retained: true, store: true }
    );
    assert_eq!(
        forward_plan(&publish, true, false, false),
        ForwardPlan { draw_id: true, set_retained: false, store: false }
    );
}

#[test]
fn messages_without_subscribers_are_reported() {
    assert!(matches!(forward_report::<u8>(Ok(0)), ForwardReport::Unsubscribed));
    assert!(matches!(forward_report::<u8>(Ok(3)), ForwardReport::Nothing));
    match forward_report(Err(vec![7u8, 8])) {
        ForwardReport::Dropped(dropped) => assert_eq!(dropped, vec![7, 8]),
        other => panic!("{:?}", other),
    }
}
