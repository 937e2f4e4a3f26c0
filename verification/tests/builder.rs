use rmqtt::addr::{IpAddr, SocketAddr};
use rmqtt::builder::{BindError, Builder, ZeroRttCredentialProfile, ZeroRttMode};
use rmqtt::nonzero::{NonZeroU16, NonZeroU32};
use rmqtt::quic_session_store::ZeroRttProfileFingerprint;
use rmqtt::time::Duration;

#[test]
fn builder_carries_default_and_bounded_multistream_config() {
    let builder = Builder::new();

    assert_eq!(builder.multistream_mode, "disabled");
    assert_eq!(builder.multistream_max_data_streams, 8);
    assert_eq!(builder.multistream_stream_open_rate, 32);
    assert_eq!(builder.multistream_stream_idle_timeout, Duration::from_secs(60));
    assert_eq!(builder.multistream_connection_mailbox_packets, 256);
    assert_eq!(builder.multistream_connection_buffer_bytes, 1024 * 1024);

    let builder = Builder::new()
        .multistream_mode("simple")
        .multistream_max_data_streams(u32::MAX)
        .multistream_stream_open_rate(16)
        .multistream_stream_idle_timeout(Duration::from_secs(30))
        .multistream_connection_mailbox_packets(128)
        .multistream_connection_buffer_bytes(512 * 1024);

    assert_eq!(builder.multistream_mode, "simple");
    assert_eq!(builder.multistream_max_data_streams, u32::MAX - 1);
    assert_eq!(builder.multistream_stream_open_rate, 16);
    assert_eq!(builder.multistream_stream_idle_timeout, Duration::from_secs(30));
    assert_eq!(builder.multistream_connection_mailbox_packets, 128);
    assert_eq!(builder.multistream_connection_buffer_bytes, 512 * 1024);
}

#[test]
fn builder_carries_default_zero_rtt_policy() {
    let builder = Builder::new();

    assert!(!builder.enable_quic_0rtt);
    assert_eq!(builder.quic_0rtt_mode, ZeroRttMode::Disabled);
    assert_eq!(builder.quic_0rtt_credential_profile, ZeroRttCredentialProfile::Deny);
    assert_eq!(builder.quic_0rtt_auth_policy_epoch, 0);
    assert_eq!(builder.quic_0rtt_ticket_capacity, 4096);
    assert_eq!(builder.quic_0rtt_ticket_ttl, Duration::from_secs(10 * 60));
    assert_eq!(builder.quic_0rtt_pre_finished_read_budget, 64 * 1024);
}

#[test]
fn builder_configures_zero_rtt_policy() {
    let builder = Builder::new()
        .quic_0rtt_mode("handshake_gated")
        .quic_0rtt_credential_profile("short_lived_token")
        .quic_0rtt_auth_policy_epoch(9)
        .quic_0rtt_ticket_capacity(128)
        .quic_0rtt_ticket_ttl(Duration::from_secs(30))
        .quic_0rtt_pre_finished_read_budget(32 * 1024);

    assert!(builder.enable_quic_0rtt);
    assert_eq!(builder.quic_0rtt_mode, ZeroRttMode::HandshakeGated);
    assert_eq!(builder.quic_0rtt_credential_profile, ZeroRttCredentialProfile::ShortLivedToken);
    assert_eq!(builder.quic_0rtt_auth_policy_epoch, 9);
    assert_eq!(builder.quic_0rtt_ticket_capacity, 128);
    assert_eq!(builder.quic_0rtt_ticket_ttl, Duration::from_secs(30));
    assert_eq!(builder.quic_0rtt_pre_finished_read_budget, 32 * 1024);
}

#[test]
fn builder_carries_listener_defaults() {
    let builder = Builder::default();
    assert_eq!(builder.name, "");
    assert_eq!(builder.laddr, SocketAddr { ip: IpAddr::V4(0), port: 1883 });
    assert_eq!(builder.backlog, 512);
    assert_eq!(builder.max_connections, 1_000_000);
    assert_eq!(builder.max_handshaking_limit, 1_000);
    assert_eq!(builder.max_packet_size, 1024 * 1024);
    assert!(builder.allow_anonymous);
    assert_eq!(builder.max_inflight.get(), 16);
    assert_eq!(builder.mqueue_rate_limit.0.get(), u32::MAX);
    assert_eq!(builder.mqueue_rate_limit.1, Duration::from_secs(1));
    assert_eq!(builder.max_clientid_len, 65535);
    assert_eq!(builder.session_expiry_interval, Duration::from_secs(2 * 60 * 60));
    assert!(builder.max_session_expiry_interval.is_zero());
    assert_eq!(builder.idle_timeout, Duration::from_secs(90));
    assert_eq!(builder.multistream_negotiation, "strict");
}

#[test]
fn setters_change_their_own_setting() {
    let builder = Builder::new()
        .name("EdgeBroker")
        .laddr(SocketAddr::v4(0x7f00_0001, 1883))
        .max_connections(10_000)
        .max_inflight(NonZeroU16::new(32).unwrap())
        .mqueue_rate_limit(NonZeroU32::new(5).unwrap(), Duration::from_secs(2))
        .tls_cert(Some("cert.pem"))
        .proxy_protocol(true);
    assert_eq!(builder.name, "EdgeBroker");
    assert_eq!(builder.laddr, SocketAddr { ip: IpAddr::V4(0x7f00_0001), port: 1883 });
    assert_eq!(builder.max_connections, 10_000);
    assert_eq!(builder.max_inflight.get(), 32);
    assert_eq!(builder.mqueue_rate_limit.0.get(), 5);
    assert_eq!(builder.mqueue_rate_limit.1, Duration::from_secs(2));
    assert_eq!(builder.tls_cert, Some("cert.pem".to_string()));
    assert_eq!(builder.tls_key, None);
    assert!(builder.proxy_protocol);
    assert_eq!(builder.backlog, 512);
}

#[test]
fn configuration_strings_are_known() {
    assert_eq!(ZeroRttMode::HandshakeGated.as_str(), "handshake_gated");
    assert_eq!(ZeroRttMode::from("handshake_gated"), ZeroRttMode::HandshakeGated);
    assert_eq!(ZeroRttMode::from("Handshake_gated"), ZeroRttMode::Disabled);
    assert_eq!(ZeroRttMode::default().as_str(), "disabled");
    for profile in [
        ZeroRttCredentialProfile::Deny,
        ZeroRttCredentialProfile::Anonymous,
        ZeroRttCredentialProfile::ShortLivedToken,
    ] {
        assert_eq!(ZeroRttCredentialProfile::from(profile.as_str()), profile);
    }
    assert_eq!(ZeroRttCredentialProfile::from("token"), ZeroRttCredentialProfile::Deny);
    assert_eq!(ZeroRttCredentialProfile::default(), ZeroRttCredentialProfile::Deny);
}

#[test]
fn zero_rtt_switch_and_mode_agree() {
    let enabled = Builder::new().enable_quic_0rtt(true);
    assert_eq!(enabled.quic_0rtt_mode, ZeroRttMode::HandshakeGated);
    let disabled = enabled.enable_quic_0rtt(false);
    assert_eq!(disabled.quic_0rtt_mode, ZeroRttMode::Disabled);
    let unknown = Builder::new().enable_quic_0rtt(true).quic_0rtt_mode("unknown");
    assert!(!unknown.enable_quic_0rtt);
    let again = Builder::new().enable_quic_0rtt(true).enable_quic_0rtt(false).enable_quic_0rtt(true);
    assert_eq!(again.quic_0rtt_mode, ZeroRttMode::HandshakeGated);
}

#[test]
fn enabling_zero_rtt_keeps_an_explicit_mode() {
    let disabled = Builder::new().quic_0rtt_mode("disabled").enable_quic_0rtt(true);
    assert!(disabled.enable_quic_0rtt);
    assert_eq!(disabled.quic_0rtt_mode, ZeroRttMode::Disabled);
    let disabled = disabled.enable_quic_0rtt(false).enable_quic_0rtt(true);
    assert_eq!(disabled.quic_0rtt_mode, ZeroRttMode::Disabled);

    let gated = Builder::new().quic_0rtt_mode("handshake_gated").enable_quic_0rtt(true);
    assert!(gated.enable_quic_0rtt);
    assert_eq!(gated.quic_0rtt_mode, ZeroRttMode::HandshakeGated);
    let off = gated.enable_quic_0rtt(false);
    assert!(!off.enable_quic_0rtt);
    assert_eq!(off.quic_0rtt_mode, ZeroRttMode::Disabled);
    assert_eq!(off.enable_quic_0rtt(true).quic_0rtt_mode, ZeroRttMode::HandshakeGated);
}

#[test]
fn zero_is_no_window_and_no_rate() {
    assert_eq!(NonZeroU16::new(0), None);
    assert_eq!(NonZeroU32::new(0), None);
    assert_eq!(NonZeroU16::new(1).unwrap().get(), 1);
    assert_eq!(NonZeroU32::new(u32::MAX).unwrap().get(), u32::MAX);
}

#[test]
fn quic_0rtt_rejects_mutual_tls_listener() {
    let result = Builder::new()
        .name("quic-0rtt-mtls-test")
        .laddr(SocketAddr::v4(0x7f00_0001, 0))
        .tls_cross_certificate(true)
        .enable_quic_0rtt(true)
        .quic_0rtt_credential_profile("anonymous")
        .check_quic_policy();

    let Err(error) = result else {
        panic!("0-RTT must not bypass completion of mutual TLS authentication");
    };
    assert!(error.message().contains("mutual TLS"));
}

#[test]
fn quic_0rtt_rejects_default_deny_credential_profile() {
    let result = Builder::new()
        .name("quic-0rtt-deny-test")
        .laddr(SocketAddr::v4(0x7f00_0001, 0))
        .quic_0rtt_mode("handshake_gated")
        .check_quic_policy();

    let Err(error) = result else {
        panic!("0-RTT must require an explicit credential profile");
    };
    assert!(error.message().contains("credential profile"));
}

#[test]
fn quic_0rtt_rejects_anonymous_profile_on_non_anonymous_listener() {
    let result = Builder::new()
        .name("quic-0rtt-anonymous-policy-test")
        .laddr(SocketAddr::v4(0x7f00_0001, 0))
        .allow_anonymous(false)
        .quic_0rtt_mode("handshake_gated")
        .quic_0rtt_credential_profile("anonymous")
        .check_quic_policy();

    let Err(error) = result else {
        panic!("0-RTT anonymous credentials must not be accepted on non-anonymous listeners");
    };
    assert!(error.message().contains("anonymous"));
}

#[test]
fn quic_0rtt_accepts_short_lived_token_policy_on_non_anonymous_listener() {
    let builder = Builder::new()
        .name("quic-0rtt-token-policy-test")
        .laddr(SocketAddr::v4(0x7f00_0001, 0))
        .allow_anonymous(false)
        .quic_0rtt_mode("handshake_gated")
        .quic_0rtt_credential_profile("short_lived_token")
        .quic_0rtt_auth_policy_epoch(11)
        .quic_0rtt_ticket_capacity(32)
        .quic_0rtt_ticket_ttl(Duration::from_secs(20))
        .quic_0rtt_pre_finished_read_budget(16 * 1024);

    assert_eq!(builder.check_quic_policy(), Ok(true));
    let zero_rtt = builder.quic_settings(false).unwrap().zero_rtt.unwrap();
    assert_eq!(zero_rtt.ticket_capacity, 32);
    assert_eq!(zero_rtt.ticket_ttl, Duration::from_secs(20));
    assert_eq!(zero_rtt.max_early_data_size, u32::MAX);
    assert_eq!(zero_rtt.receive_window, 16 * 1024);
    let protocols: [&[u8]; 2] = [b"mqtt", b"mqttv5"];
    assert_eq!(
        zero_rtt.profile,
        ZeroRttProfileFingerprint::mqtt_quic(
            &protocols,
            16 * 1024,
            11,
            "short_lived_token:disabled"
        )
    );
}

#[test]
fn quic_0rtt_rejects_short_lived_token_profile_on_anonymous_listener() {
    let result = Builder::new()
        .name("quic-0rtt-token-anonymous-test")
        .laddr(SocketAddr::v4(0x7f00_0001, 0))
        .allow_anonymous(true)
        .quic_0rtt_mode("handshake_gated")
        .quic_0rtt_credential_profile("short_lived_token")
        .check_quic_policy();

    let Err(error) = result else {
        panic!("short-lived token profile must not silently allow anonymous access");
    };
    assert!(error.message().contains("anonymous access"));
}

#[test]
fn policy_of_a_listener_without_early_data_is_not_checked() {
    let builder = Builder::new().tls_cross_certificate(true);
    assert_eq!(builder.check_quic_policy(), Ok(false));
    let settings = builder.quic_settings(true).unwrap();
    assert!(settings.zero_rtt.is_none());
    assert_eq!(settings.initial_bidi_streams, 1);
    assert_eq!(settings.initial_uni_streams, 0);
    assert_eq!(settings.handshake_permits, 1000);
}

#[test]
fn early_data_need_tickets_that_are_kept() {
    let builder =
        Builder::new().enable_quic_0rtt(true).quic_0rtt_credential_profile("anonymous");
    assert_eq!(builder.check_quic_policy(), Ok(true));
    assert_eq!(builder.quic_settings(true).err(), Some(BindError::StatelessTickets));
    let smallest = builder.quic_0rtt_pre_finished_read_budget(0).max_handshaking_limit(0);
    let settings = smallest.quic_settings(false).unwrap();
    assert_eq!(settings.zero_rtt.unwrap().receive_window, 1);
    assert_eq!(settings.handshake_permits, 1);
}

#[test]
fn tls_files_have_to_be_configured() {
    let builder = Builder::new();
    assert_eq!(builder.tls_files().err(), Some(BindError::CertificateNotSet));
    let builder = builder.tls_cert(Some("chain.pem"));
    assert_eq!(builder.tls_files().err(), Some(BindError::KeyNotSet));
    let builder = builder.tls_key(Some("key.pem"));
    let files = builder.tls_files().unwrap();
    assert_eq!(files.certificate_chain, "chain.pem");
    assert_eq!(files.private_key, "key.pem");
    assert_eq!(files.client_authorities, "chain.pem");
    assert!(!files.verify_clients);
    let builder = builder.tls_client_ca_certs(Some("ca.pem")).tls_cross_certificate(true);
    let files = builder.tls_files().unwrap();
    assert_eq!(files.client_authorities, "ca.pem");
    assert!(files.verify_clients);
}
