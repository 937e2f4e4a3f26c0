use std::collections::VecDeque;

use rmqtt::builder::Builder;
use rmqtt::identity::Id;
use rmqtt::nonzero::NonZeroU16;
use rmqtt::offline::OfflineInfo;
use rmqtt::packet::{
    ConnectAckReason, ConnectAckReasonV3, ConnectAckReasonV5, ConnectV5, PacketId, QoS,
};
use rmqtt::time::{Duration, Instant};
use rmqtt::v5::{
    accepted_ack, check_load, on_execution_timeout, on_no_connect, open_connection, open_with,
    plan_activation, refused_ack, requests_quic_multistream, resume, topic_alias_limits,
    Handshake, HandshakeAction, HandshakeError, HandshakeEvent, HandshakeLimits, HandshakeStage,
    Offer, OfflineSession, Opening, QuicActivationPlan, Refusal, QUIC_MULTISTREAM_PROPERTY,
    QUIC_MULTISTREAM_SIMPLE_V1,
};

fn property(name: &str, value: &str) -> (String, String) {
    (name.to_string(), value.to_string())
}

fn named(client_id: &str) -> ConnectV5 {
    ConnectV5 { client_id: client_id.to_string(), ..ConnectV5::default() }
}

fn asking(client_id: &str) -> ConnectV5 {
    let mut connect = named(client_id);
    connect
        .user_properties
        .push(property(QUIC_MULTISTREAM_PROPERTY, QUIC_MULTISTREAM_SIMPLE_V1));
    connect
}

#[test]
fn multistream_negotiation_requires_the_exact_connect_user_property() {
    let mut connect = ConnectV5::default();
    assert!(!requests_quic_multistream(&connect));

    connect.user_properties.push(property(QUIC_MULTISTREAM_PROPERTY, "future-version"));
    assert!(!requests_quic_multistream(&connect));

    connect
        .user_properties
        .push(property(QUIC_MULTISTREAM_PROPERTY, QUIC_MULTISTREAM_SIMPLE_V1));
    assert!(requests_quic_multistream(&connect));
}

#[test]
fn multistream_takes_both_sides() {
    let simple = Builder::new().multistream_mode("simple");
    assert!(open_connection(asking("a"), &simple, true).multistream_accepted);
    assert!(!open_connection(asking("a"), &simple, false).multistream_accepted);
    assert!(!open_connection(named("a"), &simple, true).multistream_accepted);
    assert!(!open_connection(asking("a"), &Builder::new(), true).multistream_accepted);

    let preconfigured =
        Builder::new().multistream_mode("simple").multistream_negotiation("preconfigured");
    assert!(open_connection(named("a"), &preconfigured, true).multistream_accepted);
    assert!(!open_connection(named("a"), &preconfigured, false).multistream_accepted);
}

#[test]
fn clients_without_an_identifier_get_a_random_one() {
    let cfg = Builder::new();
    let first = open_connection(named(""), &cfg, false);
    let second = open_connection(named(""), &cfg, false);
    for opening in [&first, &second] {
        assert!(opening.is_assigned_client_id);
        let id = &opening.connect.client_id;
        assert_eq!(id.len(), 32);
        assert!(id.chars().all(|c| c.is_ascii_digit() || ('a'..='f').contains(&c)));
        assert_eq!(id.as_bytes()[12], b'4');
    }
    assert_ne!(first.connect.client_id, second.connect.client_id);

    let named = open_connection(named("device"), &cfg, false);
    assert!(!named.is_assigned_client_id);
    assert_eq!(named.connect.client_id, "device");
}

#[test]
fn generated_identifiers_replace_empty_ones_only() {
    let cfg = Builder::new();
    let mut connect = named("");
    connect.max_packet_size = Some(2048);
    let opening = open_with(connect, &cfg, false, "generated".to_string());
    assert_eq!(opening.connect.client_id, "generated");
    assert_eq!(opening.max_outbound_size, Some(2048));
    let opening = open_with(named("own"), &cfg, false, "generated".to_string());
    assert_eq!(opening.connect.client_id, "own");
}

fn limits() -> HandshakeLimits {
    HandshakeLimits {
        handshake_timeout: Duration::from_secs(30),
        max_clientid_len: 8,
        max_sessions: 100,
    }
}

fn begun(connect: ConnectV5) -> Handshake {
    let opening = open_connection(connect, &Builder::new(), false);
    Handshake::begin(&opening, limits(), Instant::from_nanos(0))
}

fn announced(connect: ConnectV5, secs: u128) -> HandshakeAction {
    begun(connect)
        .on_event(HandshakeEvent::Announced { now: Instant::from_nanos(secs * 1_000_000_000) })
}

fn refusal(action: HandshakeAction) -> Refusal {
    match action {
        HandshakeAction::Refuse(refusal) => refusal,
        action => panic!("unexpected action: {action:?}"),
    }
}

fn unavailable(error: HandshakeError) -> Refusal {
    Refusal { reason: ConnectAckReason::V5(ConnectAckReasonV5::ServerUnavailable), error }
}

#[test]
fn connections_are_refused_before_authentication() {
    assert_eq!(refusal(announced(named("a"), 31)), unavailable(HandshakeError::Timeout));
    assert!(matches!(announced(named("a"), 30), HandshakeAction::CountSessions));
    assert_eq!(
        refusal(announced(named("ninebytes"), 0)),
        Refusal {
            reason: ConnectAckReason::V5(ConnectAckReasonV5::ClientIdentifierNotValid),
            error: HandshakeError::ClientIdTooLong,
        }
    );
    assert_eq!(
        refusal(announced(named("\u{fc}\u{fc}\u{fc}\u{fc}\u{fc}"), 0)).error,
        HandshakeError::ClientIdTooLong
    );
    let mut extended = named("a");
    extended.auth_method = Some("SCRAM".to_string());
    assert_eq!(
        refusal(announced(extended, 0)),
        Refusal {
            reason: ConnectAckReason::V5(ConnectAckReasonV5::BadAuthenticationMethod),
            error: HandshakeError::ExtendedAuth,
        }
    );
}

fn counted(sessions: usize, exists: bool) -> HandshakeAction {
    let mut handshake = begun(named("a"));
    handshake.on_event(HandshakeEvent::Announced { now: Instant::from_nanos(0) });
    handshake.on_event(HandshakeEvent::Counted { sessions, exists })
}

#[test]
fn sessions_are_bounded_but_can_be_taken_over() {
    assert!(matches!(counted(99, false), HandshakeAction::Authenticate));
    assert_eq!(
        refusal(counted(100, false)),
        unavailable(HandshakeError::TooManySessions(100))
    );
    assert!(matches!(counted(100, true), HandshakeAction::Authenticate));
}

#[test]
fn only_authenticated_clients_take_over() {
    let mut handshake = begun(named("a"));
    handshake.on_event(HandshakeEvent::Announced { now: Instant::from_nanos(0) });
    handshake.on_event(HandshakeEvent::Counted { sessions: 1, exists: true });
    let ack = ConnectAckReason::V5(ConnectAckReasonV5::NotAuthorized);
    assert_eq!(
        refusal(handshake.on_event(HandshakeEvent::Authenticated { ack })),
        Refusal { reason: ack, error: HandshakeError::AuthenticationFailed }
    );
    assert_eq!(handshake.stage, HandshakeStage::Refused);
}

fn accepted_actions(resumable: bool) -> Vec<HandshakeAction> {
    let mut connect = named("a");
    connect.clean_start = true;
    let mut handshake = begun(connect);
    let mut actions = vec![
        handshake.on_event(HandshakeEvent::Announced { now: Instant::from_nanos(0) }),
        handshake.on_event(HandshakeEvent::Counted { sessions: 1, exists: true }),
        handshake.on_event(HandshakeEvent::Authenticated {
            ack: ConnectAckReason::V5(ConnectAckReasonV5::Success),
        }),
        handshake.on_event(HandshakeEvent::Done),
        handshake.on_event(HandshakeEvent::Kicked { resumable }),
    ];
    while handshake.stage != HandshakeStage::Accepted {
        actions.push(handshake.on_event(HandshakeEvent::Done));
    }
    actions
}

#[test]
fn handshakes_run_to_acceptance() {
    let fresh = accepted_actions(false);
    assert_eq!(fresh.len(), 9);
    assert!(matches!(fresh[2], HandshakeAction::Lock));
    assert!(matches!(fresh[3], HandshakeAction::Kick { clean_start: true }));
    assert!(matches!(fresh[4], HandshakeAction::CreateSession));
    assert!(matches!(fresh[5], HandshakeAction::NegotiateKeepAlive));
    assert!(matches!(fresh[6], HandshakeAction::EnterSession { announces_creation: true }));
    assert!(matches!(fresh[7], HandshakeAction::Subscribe));
    assert!(matches!(fresh[8], HandshakeAction::Accept));
    let resumed = accepted_actions(true);
    assert_eq!(resumed.len(), 10);
    assert!(matches!(resumed[6], HandshakeAction::EnterSession { announces_creation: false }));
    assert!(matches!(resumed[7], HandshakeAction::TransferState));
}

#[test]
fn failing_services_make_the_server_unavailable() {
    let mut handshake = begun(named("a"));
    handshake.stage = HandshakeStage::Locking;
    assert_eq!(
        refusal(handshake.on_event(HandshakeEvent::Failed("locked".to_string()))),
        unavailable(HandshakeError::Service("locked".to_string()))
    );
    assert_eq!(check_load(false, true), Ok(()));
    assert_eq!(check_load(true, false), Ok(()));
    assert_eq!(check_load(true, true), Err(unavailable(HandshakeError::Overloaded)));
    assert_eq!(
        on_no_connect("eof".to_string()),
        unavailable(HandshakeError::NoConnect("eof".to_string()))
    );
    assert_eq!(on_execution_timeout(), unavailable(HandshakeError::ExecutionTimeout));
}

fn left_behind() -> OfflineInfo {
    OfflineInfo {
        id: Id {
            node_id: 1,
            lid: 1883,
            local_addr: None,
            remote_addr: None,
            client_id: "a".to_string(),
            username: None,
        },
        subscriptions: Vec::new(),
        offline_messages: VecDeque::new(),
        inflight_messages: Vec::new(),
        inbound_inflight_packet_ids: vec![PacketId::new(77).unwrap()],
        created_at: 1000,
    }
}

#[test]
fn sessions_are_resumed_unless_the_client_starts_clean() {
    let fresh = resume(&OfflineSession::NotExist, false, 2000);
    assert!(!fresh.session_present && fresh.announces_creation && !fresh.transfers_state);
    assert_eq!(fresh.created_at, 2000);

    let gone = resume(&OfflineSession::Exist(None), false, 2000);
    assert!(!gone.session_present && gone.announces_creation);

    let resumed = resume(&OfflineSession::Exist(Some(left_behind())), false, 2000);
    assert!(resumed.session_present && resumed.transfers_state && !resumed.announces_creation);
    assert_eq!(resumed.created_at, 1000);
    assert_eq!(resumed.inbound_inflight_packet_ids, vec![PacketId::new(77).unwrap()]);

    let clean = resume(&OfflineSession::Exist(Some(left_behind())), true, 2000);
    assert!(!clean.session_present && clean.transfers_state);
    assert!(clean.inbound_inflight_packet_ids.is_empty());
}

fn offer() -> Offer {
    Offer {
        session_present: true,
        server_keepalive_sec: 60,
        session_expiry_interval: Duration::from_secs(7200),
        max_inflight: NonZeroU16::new(16).unwrap(),
        max_qos: QoS::ExactlyOnce,
        retain_available: true,
        max_packet_size: 1024,
        client_topic_alias_max: 3,
        shared_subscription_available: false,
    }
}

fn opening(assigned: bool, multistream_accepted: bool) -> Opening {
    Opening {
        connect: named("device"),
        is_assigned_client_id: assigned,
        multistream_accepted,
        max_outbound_size: None,
    }
}

#[test]
fn connack_carries_what_was_agreed() {
    let ack = accepted_ack(&opening(true, true), offer());
    assert_eq!(ack.reason_code, ConnectAckReasonV5::Success);
    assert!(ack.session_present);
    assert_eq!(ack.server_keepalive_sec, Some(60));
    assert_eq!(ack.session_expiry_interval_secs, Some(7200));
    assert_eq!(ack.receive_max, 16);
    assert_eq!(ack.max_packet_size, Some(1024));
    assert_eq!(ack.assigned_client_id, Some("device".to_string()));
    assert_eq!(ack.topic_alias_max, 0);
    assert_eq!(ack.user_properties, vec![property("rmqtt-quic-multistream", "simple-v1")]);

    let ack = accepted_ack(&opening(false, false), offer());
    assert_eq!(ack.assigned_client_id, None);
    assert_eq!(ack.topic_alias_max, 3);
    assert!(ack.user_properties.is_empty());
}

#[test]
fn session_lifetimes_are_whole_seconds_in_32_bits() {
    let with = |interval| {
        accepted_ack(&opening(false, false), Offer { session_expiry_interval: interval, ..offer() })
            .session_expiry_interval_secs
    };
    assert_eq!(with(Duration::from_nanos(999_999_999)), None);
    assert_eq!(with(Duration::from_secs(1)), Some(1));
    assert_eq!(with(Duration::from_secs(1 << 32)), None);
    assert_eq!(with(Duration::from_secs((1 << 32) + 5)), Some(5));
}

#[test]
fn multistream_rules_topic_aliases_out() {
    assert_eq!(topic_alias_limits(true, 7, 9), (0, 0));
    assert_eq!(topic_alias_limits(false, 7, 9), (7, 9));
}

#[test]
fn refused_clients_are_told_why() {
    let banned = ConnectAckReason::V5(ConnectAckReasonV5::Banned);
    assert_eq!(refused_ack(banned, None).reason_code, ConnectAckReasonV5::Banned);
    assert_eq!(
        refused_ack(banned, Some(ConnectAckReason::V5(ConnectAckReasonV5::QuotaExceeded)))
            .reason_code,
        ConnectAckReasonV5::QuotaExceeded
    );
    assert_eq!(
        refused_ack(ConnectAckReason::V3(ConnectAckReasonV3::NotAuthorized), None).reason_code,
        ConnectAckReasonV5::ServerUnavailable
    );
    assert!(!refused_ack(banned, None).session_present);
}

#[test]
fn early_data_hold_connect_only() {
    let cfg = Builder::new().multistream_max_data_streams(5);
    assert_eq!(plan_activation(true, true, true, &cfg), QuicActivationPlan::RejectEarlyData);
    assert_eq!(
        plan_activation(true, false, true, &cfg),
        QuicActivationPlan::Activate { max_data_streams: 5 }
    );
    assert_eq!(
        plan_activation(false, true, false, &cfg),
        QuicActivationPlan::Activate { max_data_streams: 0 }
    );
}
