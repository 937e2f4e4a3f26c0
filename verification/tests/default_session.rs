use rmqtt::assoc::Table;
use rmqtt::default_session::{
    window_settings, DefaultSession, DefaultSessionManager, DisconnectInfo, SessionLike,
    SessionManager, WindowSettings,
};
use rmqtt::identity::Id;
use rmqtt::nonzero::NonZeroU16;
use rmqtt::packet::{Disconnect, DisconnectReasonCode, DisconnectV5, QoS};
use rmqtt::reason::Reason;
use rmqtt::subscribe::SubscriptionOptions;
use rmqtt::time::Duration;

fn id() -> Id {
    Id {
        node_id: 1,
        lid: 2,
        local_addr: None,
        remote_addr: None,
        client_id: "c".to_string(),
        username: None,
    }
}

fn options(qos: QoS) -> SubscriptionOptions {
    SubscriptionOptions {
        qos,
        retain_handling: None,
        shared_group: None,
        limit_subs: None,
        id: None,
    }
}

fn session() -> DefaultSession {
    DefaultSessionManager
        .create(id(), Table::new(), 10, 20, true, false, true, None)
        .unwrap()
}

#[test]
fn sessions_keep_what_they_were_created_with() {
    let session = session();
    assert_eq!(session.id().client_id, "c");
    assert_eq!(session.created_at(), 10);
    assert_eq!(session.connected_at(), 20);
    assert!(session.session_present());
    assert!(!session.superuser());
    assert!(session.connected());
    assert_eq!(session.disconnected_at(), 0);
    assert!(!session.disconnected_reason_has());
    assert!(session.disconnect().is_none());
}

#[test]
fn sessions_are_connected_until_they_are_not() {
    let ended =
        DisconnectInfo { disconnected_at: 5, reasons: vec![], mqtt_disconnect: None };
    let session = DefaultSession::new(id(), Table::new(), 1, 2, false, true, true, Some(ended));
    assert!(!session.connected());
    assert!(session.superuser());
    let offline = DefaultSession::new(id(), Table::new(), 1, 2, false, false, false, None);
    assert!(!offline.connected());
    assert!(!DisconnectInfo::default().is_disconnected());
}

#[test]
fn subscriptions_are_replaced_by_filter() {
    let mut session = session();
    assert!(session.subscriptions_add("a".to_string(), options(QoS::AtMostOnce)).is_none());
    let previous = session.subscriptions_add("a".to_string(), options(QoS::ExactlyOnce)).unwrap();
    assert_eq!(previous.qos, QoS::AtMostOnce);
    session.subscriptions_extend(vec![
        ("b".to_string(), options(QoS::AtMostOnce)),
        ("a".to_string(), options(QoS::AtLeastOnce)),
    ]);
    assert_eq!(session.subscriptions.len(), 2);
    let (filter, opts) = session.subscriptions_remove(&"a".to_string()).unwrap();
    assert_eq!(filter, "a");
    assert_eq!(opts.qos, QoS::AtLeastOnce);
    assert!(session.subscriptions_remove(&"a".to_string()).is_none());
    let drained = session.subscriptions_drain();
    assert_eq!(drained.len(), 1);
    assert_eq!(drained[0].0, "b");
    assert_eq!(session.subscriptions.len(), 0);
}

#[test]
fn the_end_of_a_connection_is_recorded_once() {
    let mut session = session();
    session.disconnected_reason_add(Reason::ConnectKeepaliveTimeout);
    let mut packet = DisconnectV5::new(DisconnectReasonCode::NormalDisconnection);
    packet.user_properties = vec![("k".to_string(), "v".to_string())];
    packet.session_expiry_interval_secs = Some(9);
    let disconnect = Disconnect::V5(packet);
    session.disconnected_set(Some(disconnect.clone()), Some(Reason::ConnectRemoteClose), 100);
    session.disconnected_set(None, None, 200);
    assert_eq!(session.disconnected_at(), 100);
    assert!(!session.connected());
    assert_eq!(session.disconnect(), Some(&disconnect));
    assert_eq!(
        session.disconnected_reasons(),
        &vec![
            Reason::ConnectKeepaliveTimeout,
            Reason::ConnectDisconnect(disconnect),
            Reason::ConnectRemoteClose,
        ]
    );
    assert!(session.disconnected_reason_has());
    assert_eq!(session.disconnected_reason_take().len(), 3);
    assert!(!session.disconnected_reason_has());
    assert_eq!(session.disconnected_at(), 100);
}

#[test]
fn windows_are_set_up_in_milliseconds() {
    assert_eq!(
        window_settings(
            NonZeroU16::new(16).unwrap(),
            Duration::from_secs(20),
            Duration::from_nanos(5_999_999),
        ),
        WindowSettings {
            max_inflight: 16,
            message_retry_interval: 20_000,
            message_expiry_interval: 5,
        }
    );
}
