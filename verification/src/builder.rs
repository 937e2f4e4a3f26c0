//! Listener configuration, and the policy under which a QUIC listener is bound.

use vstd::prelude::*;

use crate::addr::{IpAddr, SocketAddr};
use crate::nonzero::{NonZeroU16, NonZeroU32};
use crate::packet::QoS;
use crate::quic_session_store::ZeroRttProfileFingerprint;
use crate::text::same_text;
use crate::time::{Duration, NANOS_PER_SEC};

verus! {

/// QUIC 0-RTT operating mode for resumed connections.
#[derive(Clone, Copy, Debug, PartialEq, Eq, Structural)]
pub enum ZeroRttMode {
    /// Disable QUIC 0-RTT and require all MQTT data to wait for a full handshake.
    Disabled,
    /// Accept early data only through the resumed-handshake completion gate.
    HandshakeGated,
}

impl ZeroRttMode {
    /// The configuration string of the mode.
    pub open spec fn text(self) -> Seq<char> {
        match self {
            ZeroRttMode::Disabled => "disabled"@,
            ZeroRttMode::HandshakeGated => "handshake_gated"@,
        }
    }

    /// The mode that a configuration string denotes: anything unknown disables early data.
    pub open spec fn of_text(text: Seq<char>) -> ZeroRttMode {
        if text == "handshake_gated"@ {
            ZeroRttMode::HandshakeGated
        } else {
            ZeroRttMode::Disabled
        }
    }

    /// Returns the configuration string for this 0-RTT mode.
    pub fn as_str(self) -> (text: &'static str)
        ensures
            text@ == self.text(),
    {
        match self {
            ZeroRttMode::Disabled => "disabled",
            ZeroRttMode::HandshakeGated => "handshake_gated",
        }
    }
}

impl Default for ZeroRttMode {
    fn default() -> (mode: ZeroRttMode)
        ensures
            mode == ZeroRttMode::Disabled,
    {
        ZeroRttMode::Disabled
    }
}

impl<'a> From<&'a str> for ZeroRttMode {
    fn from(value: &'a str) -> (mode: ZeroRttMode) {
        if same_text(value, "handshake_gated") {
            ZeroRttMode::HandshakeGated
        } else {
            ZeroRttMode::Disabled
        }
    }
}

impl<'a> vstd::std_specs::convert::FromSpecImpl<&'a str> for ZeroRttMode {
    open spec fn obeys_from_spec() -> bool {
        true
    }

    open spec fn from_spec(value: &'a str) -> ZeroRttMode {
        ZeroRttMode::of_text(value@)
    }
}

/// Credential policy required before QUIC 0-RTT can be enabled.
#[derive(Clone, Copy, Debug, PartialEq, Eq, Structural)]
pub enum ZeroRttCredentialProfile {
    /// Reject QUIC 0-RTT until a concrete credential profile is configured.
    Deny,
    /// Allow 0-RTT for listeners that explicitly allow anonymous MQTT clients.
    Anonymous,
    /// Allow 0-RTT for listeners that require short-lived client credentials.
    ShortLivedToken,
}

impl ZeroRttCredentialProfile {
    /// The configuration string of the profile.
    pub open spec fn text(self) -> Seq<char> {
        match self {
            ZeroRttCredentialProfile::Deny => "deny"@,
            ZeroRttCredentialProfile::Anonymous => "anonymous"@,
            ZeroRttCredentialProfile::ShortLivedToken => "short_lived_token"@,
        }
    }

    /// The profile that a configuration string denotes: anything unknown denies early data.
    pub open spec fn of_text(text: Seq<char>) -> ZeroRttCredentialProfile {
        if text == "anonymous"@ {
            ZeroRttCredentialProfile::Anonymous
        } else if text == "short_lived_token"@ {
            ZeroRttCredentialProfile::ShortLivedToken
        } else {
            ZeroRttCredentialProfile::Deny
        }
    }

    /// Returns the configuration string for this credential profile.
    pub fn as_str(self) -> (text: &'static str)
        ensures
            text@ == self.text(),
    {
        match self {
            ZeroRttCredentialProfile::Deny => "deny",
            ZeroRttCredentialProfile::Anonymous => "anonymous",
            ZeroRttCredentialProfile::ShortLivedToken => "short_lived_token",
        }
    }
}

impl Default for ZeroRttCredentialProfile {
    fn default() -> (profile: ZeroRttCredentialProfile)
        ensures
            profile == ZeroRttCredentialProfile::Deny,
    {
        ZeroRttCredentialProfile::Deny
    }
}

impl<'a> From<&'a str> for ZeroRttCredentialProfile {
    fn from(value: &'a str) -> (profile: ZeroRttCredentialProfile) {
        if same_text(value, "anonymous") {
            ZeroRttCredentialProfile::Anonymous
        } else if same_text(value, "short_lived_token") {
            ZeroRttCredentialProfile::ShortLivedToken
        } else {
            ZeroRttCredentialProfile::Deny
        }
    }
}

impl<'a> vstd::std_specs::convert::FromSpecImpl<&'a str> for ZeroRttCredentialProfile {
    open spec fn obeys_from_spec() -> bool {
        true
    }

    open spec fn from_spec(value: &'a str) -> ZeroRttCredentialProfile {
        ZeroRttCredentialProfile::of_text(value@)
    }
}

/// The configuration string of a mode or profile denotes that mode or profile.
pub proof fn configuration_strings_round_trip(mode: ZeroRttMode, profile: ZeroRttCredentialProfile)
    ensures
        ZeroRttMode::of_text(mode.text()) == mode,
        ZeroRttCredentialProfile::of_text(profile.text()) == profile,
{
    reveal_strlit("disabled");
    reveal_strlit("handshake_gated");
    reveal_strlit("deny");
    reveal_strlit("anonymous");
    reveal_strlit("short_lived_token");
    assert("disabled"@.len() != "handshake_gated"@.len());
    assert("deny"@.len() != "anonymous"@.len());
    assert("deny"@.len() != "short_lived_token"@.len());
    assert("anonymous"@.len() != "short_lived_token"@.len());
}

/// Whether an optional path is the given one.
pub open spec fn same_path(path: Option<String>, text: Option<&str>) -> bool {
    match (path, text) {
        (Some(path), Some(text)) => path@ == text@,
        (None, None) => true,
        _ => false,
    }
}

fn owned_path(text: Option<&str>) -> (path: Option<String>)
    ensures
        same_path(path, text),
{
    match text {
        Some(text) => Some(text.to_owned()),
        None => None,
    }
}

/// Configuration of a listener.
#[derive(Debug)]
pub struct Builder {
    /// Server identifier for logging and monitoring.
    pub name: String,
    /// Network address to listen on.
    pub laddr: SocketAddr,
    /// Maximum number of pending connections in the accept queue.
    pub backlog: i32,
    /// Whether small segments are sent without delay.
    pub nodelay: bool,
    /// Value of the SO_REUSEADDR socket option, where it is set.
    pub reuseaddr: Option<bool>,
    /// Value of the SO_REUSEPORT socket option, where it is set.
    pub reuseport: Option<bool>,
    /// Maximum concurrent active connections.
    pub max_connections: usize,
    /// Maximum simultaneous handshakes during connection setup.
    pub max_handshaking_limit: usize,
    /// Maximum allowed MQTT packet size in bytes, zero for no limit.
    pub max_packet_size: u32,
    /// Whether clients may connect without credentials.
    pub allow_anonymous: bool,
    /// Minimum acceptable keep-alive value in seconds.
    pub min_keepalive: u16,
    /// Maximum acceptable keep-alive value in seconds.
    pub max_keepalive: u16,
    /// Whether clients may do without keep-alive.
    pub allow_zero_keepalive: bool,
    /// Window size for unacknowledged QoS 1 and 2 messages.
    pub max_inflight: NonZeroU16,
    /// Timeout for completing the connection handshake.
    pub handshake_timeout: Duration,
    /// Timeout for sending operations.
    pub send_timeout: Duration,
    /// Maximum messages queued per client.
    pub max_mqueue_len: usize,
    /// Messages that may be delivered in a span of time.
    pub mqueue_rate_limit: (NonZeroU32, Duration),
    /// Maximum length of client identifiers in bytes.
    pub max_clientid_len: usize,
    /// Highest QoS level permitted for publishing.
    pub max_qos_allowed: QoS,
    /// Maximum depth of topics, zero for no limit.
    pub max_topic_levels: usize,
    /// Span before inactive sessions expire.
    pub session_expiry_interval: Duration,
    /// Longest span that a client may ask its session to be kept, zero for no limit.
    pub max_session_expiry_interval: Duration,
    /// Retry interval for unacknowledged messages.
    pub message_retry_interval: Duration,
    /// Lifetime of undelivered messages.
    pub message_expiry_interval: Duration,
    /// Maximum subscriptions per client, zero for no limit.
    pub max_subscriptions: usize,
    /// Maximum topic aliases of MQTT 5.
    pub max_topic_aliases: u16,
    /// Whether limited subscriptions are enabled.
    pub limit_subscription: bool,
    /// Whether delayed publishing is enabled.
    pub delayed_publish: bool,
    /// Whether clients have to present a certificate.
    pub tls_cross_certificate: bool,
    /// Path of the TLS certificate chain.
    pub tls_cert: Option<String>,
    /// Path of the TLS private key.
    pub tls_key: Option<String>,
    /// Path of the certificates that client certificates are checked against.
    pub tls_client_ca_certs: Option<String>,
    /// Whether connections begin with a proxy header.
    pub proxy_protocol: bool,
    /// Timeout for the proxy header.
    pub proxy_protocol_timeout: Duration,
    /// Whether the common name of the client certificate is the user name.
    pub cert_cn_as_username: bool,
    /// Whether the full subject of the client certificate is the user name; it takes
    /// precedence over the common name.
    pub cert_subject_dn_as_username: bool,
    /// Whether certificate information is collected.
    pub collect_cert_info: bool,
    /// Idle timeout of QUIC connections.
    pub idle_timeout: Duration,
    /// Whether MQTT data are accepted during a resumed QUIC handshake.
    ///
    /// Enabling this also selects [`ZeroRttMode::HandshakeGated`] unless an explicit mode was
    /// already configured.
    pub enable_quic_0rtt: bool,
    /// QUIC 0-RTT operating mode used for resumed connections.
    pub quic_0rtt_mode: ZeroRttMode,
    /// QUIC 0-RTT operating mode that was configured explicitly, where one was.
    pub quic_0rtt_mode_configured: Option<ZeroRttMode>,
    /// Credential profile that must match the authentication policy of the listener.
    pub quic_0rtt_credential_profile: ZeroRttCredentialProfile,
    /// Epoch of the authentication policy; a new one makes old tickets void.
    pub quic_0rtt_auth_policy_epoch: u64,
    /// Capacity of the ticket store.
    pub quic_0rtt_ticket_capacity: usize,
    /// Lifetime of tickets.
    pub quic_0rtt_ticket_ttl: Duration,
    /// Bytes accepted before a resumed QUIC handshake finishes.
    pub quic_0rtt_pre_finished_read_budget: u32,
    /// QUIC multistream mode, `disabled` or `simple`.
    pub multistream_mode: String,
    /// How multistream is agreed on: `strict` asks the client for it in CONNECT,
    /// `preconfigured` takes the configuration itself as the agreement.
    pub multistream_negotiation: String,
    /// Maximum concurrent data streams after multistream activation.
    pub multistream_max_data_streams: u32,
    /// Data streams that may be opened in a second.
    pub multistream_stream_open_rate: u32,
    /// Idle timeout of data streams.
    pub multistream_stream_idle_timeout: Duration,
    /// Packets queued per connection.
    pub multistream_connection_mailbox_packets: usize,
    /// Bytes buffered per connection.
    pub multistream_connection_buffer_bytes: usize,
}

impl Builder {
    /// Whether the settings are the defaults.
    pub open spec fn is_default(self) -> bool {
        &&& self.name@ == Seq::<char>::empty()
        &&& self.laddr == (SocketAddr { ip: IpAddr::V4(0), port: 1883 })
        &&& self.backlog == 512
        &&& !self.nodelay
        &&& self.reuseaddr is None
        &&& self.reuseport is None
        &&& self.max_connections == 1_000_000
        &&& self.max_handshaking_limit == 1_000
        &&& self.max_packet_size == 1024 * 1024
        &&& self.allow_anonymous
        &&& self.min_keepalive == 0
        &&& self.max_keepalive == 65535
        &&& self.allow_zero_keepalive
        &&& self.max_inflight.get() == 16
        &&& self.handshake_timeout.nanos == 30 * NANOS_PER_SEC
        &&& self.send_timeout.nanos == 10 * NANOS_PER_SEC
        &&& self.max_mqueue_len == 1000
        &&& self.mqueue_rate_limit.0.get() == u32::MAX
        &&& self.mqueue_rate_limit.1.nanos == NANOS_PER_SEC
        &&& self.max_clientid_len == 65535
        &&& self.max_qos_allowed == QoS::ExactlyOnce
        &&& self.max_topic_levels == 0
        &&& self.session_expiry_interval.nanos == 7200 * NANOS_PER_SEC
        &&& self.max_session_expiry_interval.nanos == 0
        &&& self.message_retry_interval.nanos == 20 * NANOS_PER_SEC
        &&& self.message_expiry_interval.nanos == 300 * NANOS_PER_SEC
        &&& self.max_subscriptions == 0
        &&& self.max_topic_aliases == 0
        &&& !self.limit_subscription
        &&& !self.delayed_publish
        &&& !self.tls_cross_certificate
        &&& self.tls_cert is None
        &&& self.tls_key is None
        &&& self.tls_client_ca_certs is None
        &&& !self.proxy_protocol
        &&& self.proxy_protocol_timeout.nanos == 5 * NANOS_PER_SEC
        &&& !self.cert_cn_as_username
        &&& !self.cert_subject_dn_as_username
        &&& !self.collect_cert_info
        &&& self.idle_timeout.nanos == 90 * NANOS_PER_SEC
        &&& !self.enable_quic_0rtt
        &&& self.quic_0rtt_mode == ZeroRttMode::Disabled
        &&& self.quic_0rtt_mode_configured is None
        &&& self.quic_0rtt_credential_profile == ZeroRttCredentialProfile::Deny
        &&& self.quic_0rtt_auth_policy_epoch == 0
        &&& self.quic_0rtt_ticket_capacity == 4096
        &&& self.quic_0rtt_ticket_ttl.nanos == 600 * NANOS_PER_SEC
        &&& self.quic_0rtt_pre_finished_read_budget == 64 * 1024
        &&& self.multistream_mode@ == "disabled"@
        &&& self.multistream_negotiation@ == "strict"@
        &&& self.multistream_max_data_streams == 8
        &&& self.multistream_stream_open_rate == 32
        &&& self.multistream_stream_idle_timeout.nanos == 60 * NANOS_PER_SEC
        &&& self.multistream_connection_mailbox_packets == 256
        &&& self.multistream_connection_buffer_bytes == 1024 * 1024
    }

    /// Creates a new builder with default configuration values.
    pub fn new() -> (builder: Builder)
        ensures
            builder.is_default(),
    {
        Builder {
            name: String::new(),
            laddr: SocketAddr::v4(0, 1883),
            backlog: 512,
            nodelay: false,
            reuseaddr: None,
            reuseport: None,
            max_connections: 1_000_000,
            max_handshaking_limit: 1_000,
            max_packet_size: 1024 * 1024,
            allow_anonymous: true,
            min_keepalive: 0,
            max_keepalive: 65535,
            allow_zero_keepalive: true,
            max_inflight: NonZeroU16::of(16),
            handshake_timeout: Duration::from_secs(30),
            send_timeout: Duration::from_secs(10),
            max_mqueue_len: 1000,
            mqueue_rate_limit: (NonZeroU32::of(u32::MAX), Duration::from_secs(1)),
            max_clientid_len: 65535,
            max_qos_allowed: QoS::ExactlyOnce,
            max_topic_levels: 0,
            session_expiry_interval: Duration::from_secs(7200),
            max_session_expiry_interval: Duration::zero(),
            message_retry_interval: Duration::from_secs(20),
            message_expiry_interval: Duration::from_secs(300),
            max_subscriptions: 0,
            max_topic_aliases: 0,
            limit_subscription: false,
            delayed_publish: false,
            tls_cross_certificate: false,
            tls_cert: None,
            tls_key: None,
            tls_client_ca_certs: None,
            proxy_protocol: false,
            proxy_protocol_timeout: Duration::from_secs(5),
            cert_cn_as_username: false,
            cert_subject_dn_as_username: false,
            collect_cert_info: false,
            idle_timeout: Duration::from_secs(90),
            enable_quic_0rtt: false,
            quic_0rtt_mode: ZeroRttMode::Disabled,
            quic_0rtt_mode_configured: None,
            quic_0rtt_credential_profile: ZeroRttCredentialProfile::Deny,
            quic_0rtt_auth_policy_epoch: 0,
            quic_0rtt_ticket_capacity: 4096,
            quic_0rtt_ticket_ttl: Duration::from_secs(600),
            quic_0rtt_pre_finished_read_budget: 64 * 1024,
            multistream_mode: "disabled".to_owned(),
            multistream_negotiation: "strict".to_owned(),
            multistream_max_data_streams: 8,
            multistream_stream_open_rate: 32,
            multistream_stream_idle_timeout: Duration::from_secs(60),
            multistream_connection_mailbox_packets: 256,
            multistream_connection_buffer_bytes: 1024 * 1024,
        }
    }

    /// Sets the server name identifier.
    pub fn name(self, name: &str) -> (built: Builder)
        ensures
            built.name@ == name@,
            built == (Builder { name: built.name, ..self }),
    {
        Builder { name: name.to_owned(), ..self }
    }

    /// Configures the network listen address.
    pub fn laddr(self, laddr: SocketAddr) -> (built: Builder)
        ensures
            built == (Builder { laddr, ..self }),
    {
        Builder { laddr, ..self }
    }

    /// Sets the TCP backlog size.
    pub fn backlog(self, backlog: i32) -> (built: Builder)
        ensures
            built == (Builder { backlog, ..self }),
    {
        Builder { backlog, ..self }
    }

    /// Enables or disables the TCP_NODELAY option.
    pub fn nodelay(self, nodelay: bool) -> (built: Builder)
        ensures
            built == (Builder { nodelay, ..self }),
    {
        Builder { nodelay, ..self }
    }

    /// Configures the SO_REUSEADDR socket option.
    pub fn reuseaddr(self, reuseaddr: Option<bool>) -> (built: Builder)
        ensures
            built == (Builder { reuseaddr, ..self }),
    {
        Builder { reuseaddr, ..self }
    }

    /// Configures the SO_REUSEPORT socket option.
    pub fn reuseport(self, reuseport: Option<bool>) -> (built: Builder)
        ensures
            built == (Builder { reuseport, ..self }),
    {
        Builder { reuseport, ..self }
    }

    /// Sets maximum concurrent connections.
    pub fn max_connections(self, max_connections: usize) -> (built: Builder)
        ensures
            built == (Builder { max_connections, ..self }),
    {
        Builder { max_connections, ..self }
    }

    /// Sets maximum concurrent handshakes.
    pub fn max_handshaking_limit(self, max_handshaking_limit: usize) -> (built: Builder)
        ensures
            built == (Builder { max_handshaking_limit, ..self }),
    {
        Builder { max_handshaking_limit, ..self }
    }

    /// Configures maximum MQTT packet size.
    pub fn max_packet_size(self, max_packet_size: u32) -> (built: Builder)
        ensures
            built == (Builder { max_packet_size, ..self }),
    {
        Builder { max_packet_size, ..self }
    }

    /// Enables anonymous client access.
    pub fn allow_anonymous(self, allow_anonymous: bool) -> (built: Builder)
        ensures
            built == (Builder { allow_anonymous, ..self }),
    {
        Builder { allow_anonymous, ..self }
    }

    /// Sets minimum acceptable keep-alive value.
    pub fn min_keepalive(self, min_keepalive: u16) -> (built: Builder)
        ensures
            built == (Builder { min_keepalive, ..self }),
    {
        Builder { min_keepalive, ..self }
    }

    /// Sets maximum acceptable keep-alive value.
    pub fn max_keepalive(self, max_keepalive: u16) -> (built: Builder)
        ensures
            built == (Builder { max_keepalive, ..self }),
    {
        Builder { max_keepalive, ..self }
    }

    /// Allows clients to disable keep-alive.
    pub fn allow_zero_keepalive(self, allow_zero_keepalive: bool) -> (built: Builder)
        ensures
            built == (Builder { allow_zero_keepalive, ..self }),
    {
        Builder { allow_zero_keepalive, ..self }
    }

    /// Sets the in-flight message window size.
    pub fn max_inflight(self, max_inflight: NonZeroU16) -> (built: Builder)
        ensures
            built == (Builder { max_inflight, ..self }),
    {
        Builder { max_inflight, ..self }
    }

    /// Configures the handshake timeout.
    pub fn handshake_timeout(self, handshake_timeout: Duration) -> (built: Builder)
        ensures
            built == (Builder { handshake_timeout, ..self }),
    {
        Builder { handshake_timeout, ..self }
    }

    /// Sets the send timeout.
    pub fn send_timeout(self, send_timeout: Duration) -> (built: Builder)
        ensures
            built == (Builder { send_timeout, ..self }),
    {
        Builder { send_timeout, ..self }
    }

    /// Configures maximum message queue length.
    pub fn max_mqueue_len(self, max_mqueue_len: usize) -> (built: Builder)
        ensures
            built == (Builder { max_mqueue_len, ..self }),
    {
        Builder { max_mqueue_len, ..self }
    }

    /// Sets message rate limiting parameters.
    pub fn mqueue_rate_limit(self, rate_limit: NonZeroU32, duration: Duration) -> (built: Builder)
        ensures
            built == (Builder { mqueue_rate_limit: (rate_limit, duration), ..self }),
    {
        Builder { mqueue_rate_limit: (rate_limit, duration), ..self }
    }

    /// Sets maximum client identifier length.
    pub fn max_clientid_len(self, max_clientid_len: usize) -> (built: Builder)
        ensures
            built == (Builder { max_clientid_len, ..self }),
    {
        Builder { max_clientid_len, ..self }
    }

    /// Configures the maximum allowed QoS level.
    pub fn max_qos_allowed(self, max_qos_allowed: QoS) -> (built: Builder)
        ensures
            built == (Builder { max_qos_allowed, ..self }),
    {
        Builder { max_qos_allowed, ..self }
    }

    /// Sets maximum topic depth.
    pub fn max_topic_levels(self, max_topic_levels: usize) -> (built: Builder)
        ensures
            built == (Builder { max_topic_levels, ..self }),
    {
        Builder { max_topic_levels, ..self }
    }

    /// Configures the session expiry interval.
    pub fn session_expiry_interval(self, session_expiry_interval: Duration) -> (built: Builder)
        ensures
            built == (Builder { session_expiry_interval, ..self }),
    {
        Builder { session_expiry_interval, ..self }
    }

    /// Configures the maximum session expiry interval.
    pub fn max_session_expiry_interval(self, max_session_expiry_interval: Duration) -> (built: Builder)
        ensures
            built == (Builder { max_session_expiry_interval, ..self }),
    {
        Builder { max_session_expiry_interval, ..self }
    }

    /// Sets the message retry interval for QoS 1 and 2.
    pub fn message_retry_interval(self, message_retry_interval: Duration) -> (built: Builder)
        ensures
            built == (Builder { message_retry_interval, ..self }),
    {
        Builder { message_retry_interval, ..self }
    }

    /// Configures the message expiry interval.
    pub fn message_expiry_interval(self, message_expiry_interval: Duration) -> (built: Builder)
        ensures
            built == (Builder { message_expiry_interval, ..self }),
    {
        Builder { message_expiry_interval, ..self }
    }

    /// Sets maximum subscriptions per client.
    pub fn max_subscriptions(self, max_subscriptions: usize) -> (built: Builder)
        ensures
            built == (Builder { max_subscriptions, ..self }),
    {
        Builder { max_subscriptions, ..self }
    }

    /// Configures maximum topic aliases of MQTT 5.
    pub fn max_topic_aliases(self, max_topic_aliases: u16) -> (built: Builder)
        ensures
            built == (Builder { max_topic_aliases, ..self }),
    {
        Builder { max_topic_aliases, ..self }
    }

    /// Enables limited subscriptions.
    pub fn limit_subscription(self, limit_subscription: bool) -> (built: Builder)
        ensures
            built == (Builder { limit_subscription, ..self }),
    {
        Builder { limit_subscription, ..self }
    }

    /// Enables delayed publishing.
    pub fn delayed_publish(self, delayed_publish: bool) -> (built: Builder)
        ensures
            built == (Builder { delayed_publish, ..self }),
    {
        Builder { delayed_publish, ..self }
    }

    /// Enables mutual TLS authentication.
    pub fn tls_cross_certificate(self, tls_cross_certificate: bool) -> (built: Builder)
        ensures
            built == (Builder { tls_cross_certificate, ..self }),
    {
        Builder { tls_cross_certificate, ..self }
    }

    /// Sets the path of the TLS certificate chain.
    pub fn tls_cert(self, tls_cert: Option<&str>) -> (built: Builder)
        ensures
            same_path(built.tls_cert, tls_cert),
            built == (Builder { tls_cert: built.tls_cert, ..self }),
    {
        Builder { tls_cert: owned_path(tls_cert), ..self }
    }

    /// Sets the path of the TLS private key.
    pub fn tls_key(self, tls_key: Option<&str>) -> (built: Builder)
        ensures
            same_path(built.tls_key, tls_key),
            built == (Builder { tls_key: built.tls_key, ..self }),
    {
        Builder { tls_key: owned_path(tls_key), ..self }
    }

    /// Sets the path of the certificates that client certificates are checked against.
    pub fn tls_client_ca_certs(self, tls_client_ca_certs: Option<&str>) -> (built: Builder)
        ensures
            same_path(built.tls_client_ca_certs, tls_client_ca_certs),
            built == (Builder { tls_client_ca_certs: built.tls_client_ca_certs, ..self }),
    {
        Builder { tls_client_ca_certs: owned_path(tls_client_ca_certs), ..self }
    }

    /// Enables parsing of the proxy header.
    pub fn proxy_protocol(self, proxy_protocol: bool) -> (built: Builder)
        ensures
            built == (Builder { proxy_protocol, ..self }),
    {
        Builder { proxy_protocol, ..self }
    }

    /// Sets the timeout for the proxy header.
    pub fn proxy_protocol_timeout(self, proxy_protocol_timeout: Duration) -> (built: Builder)
        ensures
            built == (Builder { proxy_protocol_timeout, ..self }),
    {
        Builder { proxy_protocol_timeout, ..self }
    }

    /// Configures using the common name of the client certificate as the MQTT user name.
    pub fn cert_cn_as_username(self, cert_cn_as_username: bool) -> (built: Builder)
        ensures
            built == (Builder { cert_cn_as_username, ..self }),
    {
        Builder { cert_cn_as_username, ..self }
    }

    /// Configures using the full subject of the client certificate as the MQTT user name.
    pub fn cert_subject_dn_as_username(self, cert_subject_dn_as_username: bool) -> (built: Builder)
        ensures
            built == (Builder { cert_subject_dn_as_username, ..self }),
    {
        Builder { cert_subject_dn_as_username, ..self }
    }

    /// Enables collection of certificate information.
    pub fn collect_cert_info(self, collect_cert_info: bool) -> (built: Builder)
        ensures
            built == (Builder { collect_cert_info, ..self }),
    {
        Builder { collect_cert_info, ..self }
    }

    /// Sets the idle timeout of QUIC connections.
    pub fn idle_timeout(self, idle_timeout: Duration) -> (built: Builder)
        ensures
            built == (Builder { idle_timeout, ..self }),
    {
        Builder { idle_timeout, ..self }
    }

    /// Configures the epoch of the authentication policy.
    pub fn quic_0rtt_auth_policy_epoch(self, quic_0rtt_auth_policy_epoch: u64) -> (built: Builder)
        ensures
            built == (Builder { quic_0rtt_auth_policy_epoch, ..self }),
    {
        Builder { quic_0rtt_auth_policy_epoch, ..self }
    }

    /// Configures the capacity of the ticket store.
    pub fn quic_0rtt_ticket_capacity(self, quic_0rtt_ticket_capacity: usize) -> (built: Builder)
        ensures
            built == (Builder { quic_0rtt_ticket_capacity, ..self }),
    {
        Builder { quic_0rtt_ticket_capacity, ..self }
    }

    /// Configures the lifetime of tickets.
    pub fn quic_0rtt_ticket_ttl(self, quic_0rtt_ticket_ttl: Duration) -> (built: Builder)
        ensures
            built == (Builder { quic_0rtt_ticket_ttl, ..self }),
    {
        Builder { quic_0rtt_ticket_ttl, ..self }
    }

    /// Configures the bytes accepted before a resumed QUIC handshake finishes.
    pub fn quic_0rtt_pre_finished_read_budget(self, quic_0rtt_pre_finished_read_budget: u32) -> (built: Builder)
        ensures
            built == (Builder { quic_0rtt_pre_finished_read_budget, ..self }),
    {
        Builder { quic_0rtt_pre_finished_read_budget, ..self }
    }

    /// Configures the QUIC multistream mode.
    pub fn multistream_mode(self, multistream_mode: &str) -> (built: Builder)
        ensures
            built.multistream_mode@ == multistream_mode@,
            built == (Builder { multistream_mode: built.multistream_mode, ..self }),
    {
        Builder { multistream_mode: multistream_mode.to_owned(), ..self }
    }

    /// Configures how multistream is agreed on.
    pub fn multistream_negotiation(self, multistream_negotiation: &str) -> (built: Builder)
        ensures
            built.multistream_negotiation@ == multistream_negotiation@,
            built == (Builder { multistream_negotiation: built.multistream_negotiation, ..self }),
    {
        Builder { multistream_negotiation: multistream_negotiation.to_owned(), ..self }
    }

    /// Configures the data-stream open rate per QUIC connection.
    pub fn multistream_stream_open_rate(self, multistream_stream_open_rate: u32) -> (built: Builder)
        ensures
            built == (Builder { multistream_stream_open_rate, ..self }),
    {
        Builder { multistream_stream_open_rate, ..self }
    }

    /// Configures the idle timeout of data streams.
    pub fn multistream_stream_idle_timeout(self, multistream_stream_idle_timeout: Duration) -> (built: Builder)
        ensures
            built == (Builder { multistream_stream_idle_timeout, ..self }),
    {
        Builder { multistream_stream_idle_timeout, ..self }
    }

    /// Configures packets queued per connection.
    pub fn multistream_connection_mailbox_packets(self, multistream_connection_mailbox_packets: usize) -> (built: Builder)
        ensures
            built == (Builder { multistream_connection_mailbox_packets, ..self }),
    {
        Builder { multistream_connection_mailbox_packets, ..self }
    }

    /// Configures bytes buffered per connection.
    pub fn multistream_connection_buffer_bytes(self, multistream_connection_buffer_bytes: usize) -> (built: Builder)
        ensures
            built == (Builder { multistream_connection_buffer_bytes, ..self }),
    {
        Builder { multistream_connection_buffer_bytes, ..self }
    }

    /// Whether MQTT data are accepted in early data.
    pub open spec fn zero_rtt_enabled(self) -> bool {
        self.enable_quic_0rtt || self.quic_0rtt_mode == ZeroRttMode::HandshakeGated
    }

    /// The configuration once early data have been switched on or off: switching them on
    /// selects the mode that was configured explicitly, where one was.
    pub open spec fn with_zero_rtt(self, enable_quic_0rtt: bool) -> Builder {
        Builder {
            enable_quic_0rtt,
            quic_0rtt_mode: if !enable_quic_0rtt {
                ZeroRttMode::Disabled
            } else {
                match self.quic_0rtt_mode_configured {
                    Some(mode) => mode,
                    None => ZeroRttMode::HandshakeGated,
                }
            },
            ..self
        }
    }

    /// The configuration once a 0-RTT mode has been chosen.
    pub open spec fn with_zero_rtt_mode(self, mode: ZeroRttMode) -> Builder {
        Builder {
            quic_0rtt_mode: mode,
            quic_0rtt_mode_configured: Some(mode),
            enable_quic_0rtt: mode == ZeroRttMode::HandshakeGated,
            ..self
        }
    }

    /// Enables TLS 1.3 early data and immediate stream acceptance for resumed QUIC connections.
    ///
    /// When enabled, a QUIC listener requires a credential profile other than `deny` and uses
    /// stateful, single-use tickets to guard replay-sensitive MQTT data. A mode that was
    /// configured explicitly stays.
    pub fn enable_quic_0rtt(self, enable_quic_0rtt: bool) -> (built: Builder)
        ensures
            built == self.with_zero_rtt(enable_quic_0rtt),
    {
        let mode = if enable_quic_0rtt {
            match self.quic_0rtt_mode_configured {
                Some(mode) => mode,
                None => ZeroRttMode::HandshakeGated,
            }
        } else {
            ZeroRttMode::Disabled
        };
        Builder { enable_quic_0rtt, quic_0rtt_mode: mode, ..self }
    }

    /// Configures QUIC 0-RTT mode from its configuration string.
    pub fn quic_0rtt_mode(self, mode: &str) -> (built: Builder)
        ensures
            built == self.with_zero_rtt_mode(ZeroRttMode::of_text(mode@)),
    {
        let mode = ZeroRttMode::from(mode);
        Builder {
            quic_0rtt_mode: mode,
            quic_0rtt_mode_configured: Some(mode),
            enable_quic_0rtt: mode == ZeroRttMode::HandshakeGated,
            ..self
        }
    }

    /// Configures the QUIC 0-RTT credential policy from its configuration string.
    pub fn quic_0rtt_credential_profile(self, profile: &str) -> (built: Builder)
        ensures
            built == (Builder {
                quic_0rtt_credential_profile: ZeroRttCredentialProfile::of_text(profile@),
                ..self
            }),
    {
        Builder {
            quic_0rtt_credential_profile: ZeroRttCredentialProfile::from(profile),
            ..self
        }
    }

    /// Configures maximum MQTT data streams per QUIC connection; one stream remains for the
    /// control flow.
    pub fn multistream_max_data_streams(self, max_data_streams: u32) -> (built: Builder)
        ensures
            built == (Builder {
                multistream_max_data_streams: if max_data_streams == u32::MAX {
                    (u32::MAX - 1) as u32
                } else {
                    max_data_streams
                },
                ..self
            }),
    {
        let limit: u32 = if max_data_streams == u32::MAX {
            u32::MAX - 1
        } else {
            max_data_streams
        };
        Builder { multistream_max_data_streams: limit, ..self }
    }

    /// The error for a policy under which early data are not safe, if it is such a policy.
    pub open spec fn policy_error(self) -> Option<BindError> {
        if !self.zero_rtt_enabled() {
            None
        } else if self.quic_0rtt_credential_profile == ZeroRttCredentialProfile::Deny {
            Some(BindError::CredentialProfileRequired)
        } else if self.tls_cross_certificate {
            Some(BindError::MutualTls)
        } else if self.quic_0rtt_credential_profile == ZeroRttCredentialProfile::Anonymous
            && !self.allow_anonymous {
            Some(BindError::AnonymousProfileNeedsAnonymousListener)
        } else if self.quic_0rtt_credential_profile == ZeroRttCredentialProfile::ShortLivedToken
            && self.allow_anonymous {
            Some(BindError::TokenProfileNeedsCredentials)
        } else {
            None
        }
    }

    /// Checks the policy of a QUIC listener, and returns whether early data are accepted.
    pub fn check_quic_policy(&self) -> (checked: Result<bool, BindError>)
        ensures
            checked == (match self.policy_error() {
                Some(error) => Err::<bool, BindError>(error),
                None => Ok::<bool, BindError>(self.zero_rtt_enabled()),
            }),
    {
        let enabled = self.enable_quic_0rtt || self.quic_0rtt_mode == ZeroRttMode::HandshakeGated;
        if enabled && self.quic_0rtt_credential_profile == ZeroRttCredentialProfile::Deny {
            return Err(BindError::CredentialProfileRequired);
        }
        if enabled && self.tls_cross_certificate {
            return Err(BindError::MutualTls);
        }
        if enabled && self.quic_0rtt_credential_profile == ZeroRttCredentialProfile::Anonymous
            && !self.allow_anonymous {
            return Err(BindError::AnonymousProfileNeedsAnonymousListener);
        }
        if enabled && self.quic_0rtt_credential_profile == ZeroRttCredentialProfile::ShortLivedToken
            && self.allow_anonymous {
            return Err(BindError::TokenProfileNeedsCredentials);
        }
        Ok(enabled)
    }

    /// Returns the files that the TLS configuration of a listener is made from.
    pub fn tls_files(&self) -> (files: Result<TlsFiles<'_>, BindError>)
        ensures
            match files {
                Ok(files) => {
                    &&& self.tls_cert matches Some(cert) && files.certificate_chain@ == cert@
                    &&& self.tls_key matches Some(key) && files.private_key@ == key@
                    &&& files.verify_clients == self.tls_cross_certificate
                    &&& files.client_authorities@ == (match self.tls_client_ca_certs {
                        Some(authorities) => authorities@,
                        None => files.certificate_chain@,
                    })
                },
                Err(BindError::CertificateNotSet) => self.tls_cert is None,
                Err(BindError::KeyNotSet) => self.tls_cert is Some && self.tls_key is None,
                Err(_) => false,
            },
    {
        let certificate_chain = match &self.tls_cert {
            Some(cert) => cert.as_str(),
            None => {
                return Err(BindError::CertificateNotSet);
            },
        };
        let private_key = match &self.tls_key {
            Some(key) => key.as_str(),
            None => {
                return Err(BindError::KeyNotSet);
            },
        };
        let client_authorities = match &self.tls_client_ca_certs {
            Some(authorities) => authorities.as_str(),
            None => certificate_chain,
        };
        Ok(
            TlsFiles {
                certificate_chain,
                private_key,
                client_authorities,
                verify_clients: self.tls_cross_certificate,
            },
        )
    }

    /// The text that makes tickets of other credential profiles and multistream modes void.
    pub open spec fn profile_text(self) -> Seq<char> {
        self.quic_0rtt_credential_profile.text() + ":"@ + self.multistream_mode@
    }

    /// The fingerprint under which tickets are issued.
    pub open spec fn ticket_profile(self) -> Seq<u8> {
        crate::quic_session_store::lanes_bytes(
            crate::quic_session_store::profile_chunks(
                seq![vstd::utf8::encode_utf8("mqtt"@), vstd::utf8::encode_utf8("mqttv5"@)],
                1,
                0,
                self.quic_0rtt_pre_finished_read_budget as u64,
                self.quic_0rtt_auth_policy_epoch,
                vstd::utf8::encode_utf8(self.profile_text()),
            ),
        )
    }

    /// Returns the settings of a QUIC endpoint, where `stateless_tickets` says whether the TLS
    /// configuration would issue tickets that are not kept in the store.
    pub fn quic_settings(&self, stateless_tickets: bool) -> (settings: Result<
        QuicSettings,
        BindError,
    >)
        ensures
            match settings {
                Ok(settings) => {
                    &&& !(self.zero_rtt_enabled() && stateless_tickets)
                    &&& settings.initial_bidi_streams == 1
                    &&& settings.initial_uni_streams == 0
                    &&& settings.idle_timeout == self.idle_timeout
                    &&& settings.handshake_permits == at_least_one(self.max_handshaking_limit)
                    &&& match settings.zero_rtt {
                        Some(zero_rtt) => {
                            &&& self.zero_rtt_enabled()
                            &&& zero_rtt.profile.0@ == self.ticket_profile()
                            &&& zero_rtt.ticket_capacity == self.quic_0rtt_ticket_capacity
                            &&& zero_rtt.ticket_ttl == self.quic_0rtt_ticket_ttl
                            &&& zero_rtt.max_early_data_size == u32::MAX
                            &&& zero_rtt.receive_window == (
                            if self.quic_0rtt_pre_finished_read_budget == 0 {
                                1
                            } else {
                                self.quic_0rtt_pre_finished_read_budget
                            })
                        },
                        None => !self.zero_rtt_enabled(),
                    }
                },
                Err(error) => self.zero_rtt_enabled() && stateless_tickets && error
                    == BindError::StatelessTickets,
            },
    {
        let enabled = self.enable_quic_0rtt || self.quic_0rtt_mode == ZeroRttMode::HandshakeGated;
        let mut zero_rtt: Option<ZeroRttSettings> = None;
        if enabled {
            if stateless_tickets {
                return Err(BindError::StatelessTickets);
            }
            let mut text = self.quic_0rtt_credential_profile.as_str().to_owned();
            text.append(":");
            text.append(self.multistream_mode.as_str());
            let protocols: [&[u8]; 2] = ["mqtt".as_bytes(), "mqttv5".as_bytes()];
            let profile = ZeroRttProfileFingerprint::mqtt_quic(
                protocols.as_slice(),
                self.quic_0rtt_pre_finished_read_budget as u64,
                self.quic_0rtt_auth_policy_epoch,
                text.as_str(),
            );
            assert(protocols@.map_values(|name: &[u8]| name@) =~= seq![
                vstd::utf8::encode_utf8("mqtt"@),
                vstd::utf8::encode_utf8("mqttv5"@),
            ]);
            let receive_window: u32 = if self.quic_0rtt_pre_finished_read_budget == 0 {
                1
            } else {
                self.quic_0rtt_pre_finished_read_budget
            };
            zero_rtt =
            Some(
                ZeroRttSettings {
                    profile,
                    ticket_capacity: self.quic_0rtt_ticket_capacity,
                    ticket_ttl: self.quic_0rtt_ticket_ttl,
                    max_early_data_size: u32::MAX,
                    receive_window,
                },
            );
        }
        Ok(
            QuicSettings {
                zero_rtt,
                initial_bidi_streams: 1,
                initial_uni_streams: 0,
                idle_timeout: self.idle_timeout,
                handshake_permits: self.handshake_permits(),
            },
        )
    }

    /// Returns the number of handshakes that may run at a time.
    pub fn handshake_permits(&self) -> (permits: usize)
        ensures
            permits == at_least_one(self.max_handshaking_limit),
    {
        if self.max_handshaking_limit == 0 {
            1
        } else {
            self.max_handshaking_limit
        }
    }
}

/// A limit that leaves room for one.
pub open spec fn at_least_one(limit: usize) -> usize {
    if limit == 0 {
        1
    } else {
        limit
    }
}

impl Default for Builder {
    fn default() -> (builder: Builder)
        ensures
            builder.is_default(),
    {
        Builder::new()
    }
}

/// Why a listener cannot be bound.
#[derive(Clone, Copy, Debug, PartialEq, Eq, Structural)]
pub enum BindError {
    /// Early data are enabled without a credential profile.
    CredentialProfileRequired,
    /// Early data are enabled on a listener that authenticates clients by certificate.
    MutualTls,
    /// Early data are enabled for anonymous clients on a listener without them.
    AnonymousProfileNeedsAnonymousListener,
    /// Early data are enabled for token holders on a listener with anonymous clients.
    TokenProfileNeedsCredentials,
    /// Early data are enabled with tickets that are not kept in the store.
    StatelessTickets,
    /// No certificate chain is configured.
    CertificateNotSet,
    /// No private key is configured.
    KeyNotSet,
}

impl BindError {
    /// The text of the error.
    pub open spec fn text(self) -> Seq<char> {
        match self {
            BindError::CredentialProfileRequired => {
                "QUIC 0-RTT requires an explicit credential profile"@
            },
            BindError::MutualTls => {
                "QUIC 0-RTT cannot be combined with mutual TLS authentication"@
            },
            BindError::AnonymousProfileNeedsAnonymousListener => {
                "QUIC 0-RTT anonymous credential profile requires an anonymous listener"@
            },
            BindError::TokenProfileNeedsCredentials => {
                "QUIC 0-RTT short-lived token profile requires anonymous access to be disabled"@
            },
            BindError::StatelessTickets => "QUIC 0-RTT requires stateful TLS tickets"@,
            BindError::CertificateNotSet => "TLS certificate path not set"@,
            BindError::KeyNotSet => "TLS key path not set"@,
        }
    }

    /// Returns the text of the error.
    pub fn message(self) -> (message: &'static str)
        ensures
            message@ == self.text(),
    {
        match self {
            BindError::CredentialProfileRequired => {
                "QUIC 0-RTT requires an explicit credential profile"
            },
            BindError::MutualTls => "QUIC 0-RTT cannot be combined with mutual TLS authentication",
            BindError::AnonymousProfileNeedsAnonymousListener => {
                "QUIC 0-RTT anonymous credential profile requires an anonymous listener"
            },
            BindError::TokenProfileNeedsCredentials => {
                "QUIC 0-RTT short-lived token profile requires anonymous access to be disabled"
            },
            BindError::StatelessTickets => "QUIC 0-RTT requires stateful TLS tickets",
            BindError::CertificateNotSet => "TLS certificate path not set",
            BindError::KeyNotSet => "TLS key path not set",
        }
    }
}

/// Files that the TLS configuration of a listener is made from.
#[derive(Clone, Copy, Debug)]
pub struct TlsFiles<'a> {
    /// Path of the certificate chain.
    pub certificate_chain: &'a str,
    /// Path of the private key.
    pub private_key: &'a str,
    /// Path of the certificates that client certificates are checked against.
    pub client_authorities: &'a str,
    /// Whether clients have to present a certificate.
    pub verify_clients: bool,
}

/// Settings of a QUIC endpoint.
#[derive(Clone, Copy, Debug)]
pub struct QuicSettings {
    /// Settings for early data, where they are accepted.
    pub zero_rtt: Option<ZeroRttSettings>,
    /// Bidirectional streams that a client may open before its CONNECT is accepted.
    pub initial_bidi_streams: u8,
    /// Unidirectional streams that a client may open.
    pub initial_uni_streams: u8,
    /// Idle timeout.
    pub idle_timeout: Duration,
    /// Handshakes that may run at a time.
    pub handshake_permits: usize,
}

/// Settings for early data.
#[derive(Clone, Copy, Debug)]
pub struct ZeroRttSettings {
    /// Fingerprint under which tickets are issued.
    pub profile: ZeroRttProfileFingerprint,
    /// Capacity of the ticket store.
    pub ticket_capacity: usize,
    /// Lifetime of tickets.
    pub ticket_ttl: Duration,
    /// Early data that TLS announces; QUIC knows all or nothing.
    pub max_early_data_size: u32,
    /// Bytes that are taken in before the handshake is over.
    pub receive_window: u32,
}

/// The switch for early data and the 0-RTT mode agree, however they are configured, except
/// that switching early data on does not override a mode that was explicitly `disabled`: an
/// explicit mode stays, and only where there is none is the handshake-gated mode selected.
pub proof fn zero_rtt_switches_agree(builder: Builder, enable: bool, mode: ZeroRttMode)
    ensures
        ({
            let built = builder.with_zero_rtt(enable);
            &&& built.zero_rtt_enabled() == enable
            &&& built.quic_0rtt_mode == ZeroRttMode::HandshakeGated ==> built.enable_quic_0rtt
            &&& builder.quic_0rtt_mode_configured != Some(ZeroRttMode::Disabled)
                ==> built.enable_quic_0rtt == (built.quic_0rtt_mode
                == ZeroRttMode::HandshakeGated)
            &&& enable && builder.quic_0rtt_mode_configured is None ==> built.quic_0rtt_mode
                == ZeroRttMode::HandshakeGated
        }),
        builder.with_zero_rtt_mode(mode).with_zero_rtt(true).quic_0rtt_mode == mode,
        builder.with_zero_rtt_mode(mode).with_zero_rtt(enable).with_zero_rtt(true).quic_0rtt_mode
            == mode,
        ({
            let built = builder.with_zero_rtt_mode(mode);
            &&& built.enable_quic_0rtt == (built.quic_0rtt_mode == ZeroRttMode::HandshakeGated)
            &&& built.zero_rtt_enabled() == (mode == ZeroRttMode::HandshakeGated)
        }),
        builder.is_default() ==> !builder.zero_rtt_enabled(),
{
}

/// A listener accepts early data only under a credential profile that fits the clients that it
/// lets in, and never where clients are authenticated by certificate.
pub proof fn early_data_need_a_fitting_credential_profile(builder: Builder)
    requires
        builder.zero_rtt_enabled(),
        builder.policy_error() is None,
    ensures
        !builder.tls_cross_certificate,
        builder.allow_anonymous ==> builder.quic_0rtt_credential_profile
            == ZeroRttCredentialProfile::Anonymous,
        !builder.allow_anonymous ==> builder.quic_0rtt_credential_profile
            == ZeroRttCredentialProfile::ShortLivedToken,
{
}

/// Early data are on exactly for the text that names the gated mode, and a credential profile is
/// one that lets clients in exactly for the text that names it; every other text is the safe
/// choice. Each setting is written as the text that it is read from.
pub proof fn unknown_settings_are_safe(text: Seq<char>)
    ensures
        ZeroRttMode::HandshakeGated.text() == "handshake_gated"@,
        ZeroRttMode::Disabled.text() == "disabled"@,
        ZeroRttMode::of_text("handshake_gated"@) == ZeroRttMode::HandshakeGated,
        text != "handshake_gated"@ ==> ZeroRttMode::of_text(text) == ZeroRttMode::Disabled,
        ZeroRttCredentialProfile::Deny.text() == "deny"@,
        ZeroRttCredentialProfile::Anonymous.text() == "anonymous"@,
        ZeroRttCredentialProfile::ShortLivedToken.text() == "short_lived_token"@,
        ZeroRttCredentialProfile::of_text("anonymous"@) == ZeroRttCredentialProfile::Anonymous,
        ZeroRttCredentialProfile::of_text("short_lived_token"@)
            == ZeroRttCredentialProfile::ShortLivedToken,
        text != "anonymous"@ && text != "short_lived_token"@ ==> ZeroRttCredentialProfile::of_text(
            text,
        ) == ZeroRttCredentialProfile::Deny,
{
    reveal_strlit("anonymous");
    reveal_strlit("short_lived_token");
    assert("anonymous"@.len() != "short_lived_token"@.len());
}

/// A listener without early data can be bound under every policy. With early data, which either
/// the switch or the mode turns on, it is refused with the reason that keeps them from being
/// safe, and bound where there is none.
pub proof fn unsafe_policies_are_refused(builder: Builder)
    ensures
        builder.zero_rtt_enabled() <==> builder.enable_quic_0rtt || (
        builder.quic_0rtt_mode matches ZeroRttMode::HandshakeGated),
        !builder.enable_quic_0rtt && (builder.quic_0rtt_mode matches ZeroRttMode::Disabled)
            ==> builder.policy_error() is None,
        builder.enable_quic_0rtt || (builder.quic_0rtt_mode matches ZeroRttMode::HandshakeGated)
            ==> builder.policy_error() == (match builder.quic_0rtt_credential_profile {
            ZeroRttCredentialProfile::Deny => Some(BindError::CredentialProfileRequired),
            ZeroRttCredentialProfile::Anonymous => if builder.tls_cross_certificate {
                Some(BindError::MutualTls)
            } else if builder.allow_anonymous {
                None
            } else {
                Some(BindError::AnonymousProfileNeedsAnonymousListener)
            },
            ZeroRttCredentialProfile::ShortLivedToken => if builder.tls_cross_certificate {
                Some(BindError::MutualTls)
            } else if builder.allow_anonymous {
                Some(BindError::TokenProfileNeedsCredentials)
            } else {
                None
            },
        }),
{
}

/// The 0-RTT settings change nothing else: a listener that is otherwise configured in the same
/// way stays so.
pub proof fn zero_rtt_switches_change_nothing_else(builder: Builder, enable: bool, mode: ZeroRttMode)
    ensures
        builder.with_zero_rtt(enable) == (Builder {
            enable_quic_0rtt: enable,
            quic_0rtt_mode: builder.with_zero_rtt(enable).quic_0rtt_mode,
            ..builder
        }),
        builder.with_zero_rtt(false).quic_0rtt_mode == ZeroRttMode::Disabled,
        builder.with_zero_rtt_mode(mode) == (Builder {
            enable_quic_0rtt: mode == ZeroRttMode::HandshakeGated,
            quic_0rtt_mode: mode,
            quic_0rtt_mode_configured: Some(mode),
            ..builder
        }),
{
}

/// Tickets are issued under a fingerprint of what a client that resumes relies on: the
/// protocols, the streams that it may open, the early data that are taken, the epoch of the
/// authentication policy, and the credential profile with the multistream mode. Listeners that
/// agree in these accept each other's tickets, whatever else they are configured with.
pub proof fn tickets_depend_on_what_clients_rely_on(a: Builder, b: Builder)
    ensures
        a.quic_0rtt_pre_finished_read_budget == b.quic_0rtt_pre_finished_read_budget
            && a.quic_0rtt_auth_policy_epoch == b.quic_0rtt_auth_policy_epoch
            && a.quic_0rtt_credential_profile == b.quic_0rtt_credential_profile
            && a.multistream_mode@ == b.multistream_mode@ ==> a.ticket_profile()
            == b.ticket_profile(),
        a.profile_text() == (match a.quic_0rtt_credential_profile {
            ZeroRttCredentialProfile::Deny => "deny"@,
            ZeroRttCredentialProfile::Anonymous => "anonymous"@,
            ZeroRttCredentialProfile::ShortLivedToken => "short_lived_token"@,
        }) + ":"@ + a.multistream_mode@,
        exists|chunks: Seq<Seq<u8>>|
            {
                &&& a.ticket_profile() == #[trigger] crate::quic_session_store::lanes_bytes(chunks)
                &&& chunks.len() == 20
                &&& chunks[5] == vstd::utf8::encode_utf8("mqtt"@)
                &&& chunks[8] == vstd::utf8::encode_utf8("mqttv5"@)
                &&& chunks[10] == crate::quic_session_store::number_bytes(1)
                &&& chunks[12] == crate::quic_session_store::number_bytes(0)
                &&& chunks[14] == crate::quic_session_store::number_bytes(
                    a.quic_0rtt_pre_finished_read_budget as u64,
                )
                &&& chunks[16] == crate::quic_session_store::number_bytes(
                    a.quic_0rtt_auth_policy_epoch,
                )
                &&& chunks[19] == vstd::utf8::encode_utf8(a.profile_text())
            },
{
    let protocols = seq![vstd::utf8::encode_utf8("mqtt"@), vstd::utf8::encode_utf8("mqttv5"@)];
    let budget = a.quic_0rtt_pre_finished_read_budget as u64;
    let epoch = a.quic_0rtt_auth_policy_epoch;
    let mode = vstd::utf8::encode_utf8(a.profile_text());
    crate::quic_session_store_laws::fingerprints_cover_the_whole_profile(
        protocols,
        1,
        0,
        budget,
        epoch,
        mode,
        0,
    );
    crate::quic_session_store_laws::fingerprints_cover_the_whole_profile(
        protocols,
        1,
        0,
        budget,
        epoch,
        mode,
        1,
    );
    let chunks = crate::quic_session_store::profile_chunks(protocols, 1, 0, budget, epoch, mode);
    assert(a.ticket_profile() == crate::quic_session_store::lanes_bytes(chunks));
}

/// A limit leaves room for one at least, and is otherwise kept.
pub proof fn limits_leave_room_for_one(limit: usize)
    ensures
        at_least_one(0) == 1,
        limit > 0 ==> at_least_one(limit) == limit,
{
}

/// A listener that is not configured further serves plain MQTT to everyone on the usual port:
/// it asks for no certificate, reads no PROXY header, takes no early data and offers no data
/// streams, and can be bound.
pub proof fn plain_listeners_serve_everyone(builder: Builder)
    requires
        builder.is_default(),
    ensures
        builder.laddr.ip == IpAddr::V4(0) && builder.laddr.port == 1883,
        builder.allow_anonymous && !builder.tls_cross_certificate && !builder.proxy_protocol,
        builder.tls_cert is None && builder.tls_key is None && builder.tls_client_ca_certs is None,
        !builder.zero_rtt_enabled() && builder.policy_error() is None,
        builder.quic_0rtt_credential_profile == ZeroRttCredentialProfile::Deny,
        builder.multistream_mode@ == "disabled"@ && builder.multistream_negotiation@ == "strict"@,
        builder.max_qos_allowed == QoS::ExactlyOnce,
        builder.min_keepalive == 0 && builder.max_keepalive == 65535
            && builder.allow_zero_keepalive,
        builder.max_clientid_len == 65535 && builder.max_packet_size == 0x10_0000,
        builder.max_topic_levels == 0 && builder.max_subscriptions == 0
            && builder.max_topic_aliases == 0,
        !builder.limit_subscription && !builder.delayed_publish,
        builder.max_connections == 1_000_000 && builder.max_handshaking_limit == 1_000,
        builder.max_mqueue_len == 1_000 && builder.max_inflight.get() == 16,
        builder.session_expiry_interval.nanos == 7_200_000_000_000
            && builder.max_session_expiry_interval.nanos == 0,
        builder.message_retry_interval.nanos == 20_000_000_000
            && builder.message_expiry_interval.nanos == 300_000_000_000,
        builder.handshake_timeout.nanos == 30_000_000_000 && builder.send_timeout.nanos
            == 10_000_000_000 && builder.idle_timeout.nanos == 90_000_000_000
            && builder.proxy_protocol_timeout.nanos == 5_000_000_000,
        builder.multistream_max_data_streams == 8 && builder.multistream_stream_open_rate == 32,
        builder.quic_0rtt_ticket_capacity == 4096 && builder.quic_0rtt_ticket_ttl.nanos
            == 600_000_000_000 && builder.quic_0rtt_pre_finished_read_budget == 0x1_0000,
{
}

/// Every error says in its own words what is wrong.
pub proof fn bind_errors_say_what_is_wrong()
    ensures
        BindError::CredentialProfileRequired.text()
            == "QUIC 0-RTT requires an explicit credential profile"@,
        BindError::MutualTls.text()
            == "QUIC 0-RTT cannot be combined with mutual TLS authentication"@,
        BindError::AnonymousProfileNeedsAnonymousListener.text()
            == "QUIC 0-RTT anonymous credential profile requires an anonymous listener"@,
        BindError::TokenProfileNeedsCredentials.text()
            == "QUIC 0-RTT short-lived token profile requires anonymous access to be disabled"@,
        BindError::StatelessTickets.text() == "QUIC 0-RTT requires stateful TLS tickets"@,
        BindError::CertificateNotSet.text() == "TLS certificate path not set"@,
        BindError::KeyNotSet.text() == "TLS key path not set"@,
{
}

} // verus!
