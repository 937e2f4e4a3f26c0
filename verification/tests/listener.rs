use rmqtt::addr::{IpAddr, SocketAddr};
use rmqtt::listener::{
    admit_early, extracts_cert_info, is_quic_admission_rejection, on_handshake,
    quic_remote_prefix, rejected, AcceptError, AdmissionLimit, ListenerError, ListenerType,
    QuicAdmission, QuicPrefixLimiter, Transition,
};
use rmqtt::time::Instant;

const SECOND: u128 = 1_000_000_000;

fn v4(ip: u32) -> SocketAddr {
    SocketAddr::v4(ip, 4000)
}

#[test]
fn listeners_become_other_variants() {
    assert_eq!(ListenerType::TCP.tcp(), Ok(ListenerType::TCP));
    assert_eq!(ListenerType::QUIC.tcp(), Err(ListenerError::DowngradeToTcp));
    assert_eq!(ListenerType::TCP.ws(), Ok(ListenerType::WS));
    assert_eq!(ListenerType::TLS.ws(), Err(ListenerError::UpgradeToWs));
    assert_eq!(
        ListenerType::TCP.tls(),
        Ok(Transition { typ: ListenerType::TLS, builds_tls: true })
    );
    assert_eq!(
        ListenerType::TLS.tls(),
        Ok(Transition { typ: ListenerType::TLS, builds_tls: false })
    );
    assert_eq!(ListenerType::WSS.tls(), Err(ListenerError::DowngradeToTls));
    assert_eq!(ListenerType::QUIC.tls(), Err(ListenerError::QuicToTls));
    assert_eq!(
        ListenerType::TLS.wss(),
        Ok(Transition { typ: ListenerType::WSS, builds_tls: false })
    );
    assert_eq!(
        ListenerType::TCP.wss(),
        Ok(Transition { typ: ListenerType::WSS, builds_tls: true })
    );
    assert_eq!(ListenerType::WS.wss(), Err(ListenerError::DowngradeToTls));
    assert_eq!(ListenerType::QUIC.wss(), Err(ListenerError::QuicToWss));
}

#[test]
fn connections_are_handled_as_the_variant_that_accepted_them() {
    assert_eq!(ListenerType::QUIC.expect(ListenerType::QUIC), Ok(()));
    assert_eq!(
        ListenerType::TCP.expect(ListenerType::WS),
        Err(ListenerError::Expected(ListenerType::WS))
    );
}

#[test]
fn certificates_are_looked_at_where_somebody_wants_them() {
    assert!(!extracts_cert_info(false, false, false));
    assert!(extracts_cert_info(true, false, false));
    assert!(extracts_cert_info(false, true, false));
    assert!(extracts_cert_info(false, false, true));
}

#[test]
fn web_sockets_have_to_ask_for_mqtt() {
    assert_eq!(on_handshake(Some("mqtt")), Some("mqtt"));
    assert_eq!(on_handshake(Some("mqttv3.1")), Some("mqttv3.1"));
    assert_eq!(on_handshake(Some("mqtt, chat")), None);
    assert_eq!(on_handshake(Some("MQTT")), None);
    assert_eq!(on_handshake(None), None);
}

#[test]
fn prefixes_drop_the_host_bits() {
    assert_eq!(quic_remote_prefix(IpAddr::V4(0xc0a8_01fe)), IpAddr::V4(0xc0a8_0100));
    assert_eq!(
        quic_remote_prefix(IpAddr::V6(0x2001_0db8_1234_56ff_ffff_ffff_ffff_ffff)),
        IpAddr::V6(0x2001_0db8_1234_5600_0000_0000_0000_0000)
    );
}

#[test]
fn handshakes_of_one_prefix_are_bounded() {
    let mut limiter = QuicPrefixLimiter::new(8);
    let now = Instant::from_nanos(0);
    assert!(limiter.allow(v4(0x0a00_0001), now));
    assert!(limiter.allow(v4(0x0a00_0002), now));
    assert!(!limiter.allow(v4(0x0a00_0003), now));
    assert!(limiter.allow(v4(0x0a00_0101), now));
    assert!(!limiter.allow(v4(0x0a00_0001), Instant::from_nanos(SECOND - 1)));
    assert!(limiter.allow(v4(0x0a00_0001), Instant::from_nanos(SECOND)));
}

#[test]
fn counted_prefixes_are_bounded() {
    let mut limiter = QuicPrefixLimiter::new(1);
    let now = Instant::from_nanos(0);
    for prefix in 0..16_u32 {
        assert!(limiter.allow(v4(prefix << 8), now));
        assert!(!limiter.allow(v4(prefix << 8), now));
    }
    assert!(!limiter.allow(v4(99 << 8), now));
    assert!(limiter.allow(v4(99 << 8), Instant::from_nanos(SECOND)));
}

#[test]
fn connections_are_admitted_retried_or_refused() {
    let mut limiter = QuicPrefixLimiter::new(1);
    let now = Instant::from_nanos(5);
    assert_eq!(admit_early(&mut limiter, v4(1), now, 1, true), QuicAdmission::Admit);
    assert_eq!(
        admit_early(&mut limiter, v4(2), now, 1, true),
        QuicAdmission::Retry(AdmissionLimit::PrefixRate)
    );
    assert_eq!(
        admit_early(&mut limiter, v4(2), now, 1, false),
        QuicAdmission::Refuse(AdmissionLimit::PrefixRate)
    );
    assert_eq!(
        admit_early(&mut limiter, v4(0x100), now, 0, false),
        QuicAdmission::Refuse(AdmissionLimit::Handshakes)
    );
    assert_eq!(AdmissionLimit::Handshakes.message(), "handshake admission limit");
}

#[test]
fn admission_rejections_do_not_stop_the_listener() {
    assert!(is_quic_admission_rejection(&rejected(AdmissionLimit::PrefixRate, false)));
    assert!(!is_quic_admission_rejection(&rejected(AdmissionLimit::PrefixRate, true)));
    assert!(!is_quic_admission_rejection(&AcceptError::NoEndpoint));
    assert!(!is_quic_admission_rejection(&AcceptError::Transport("reset".to_string())));
}
