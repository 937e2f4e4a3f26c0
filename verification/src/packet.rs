//! MQTT control packets as plain values.
//!
//! These types hold what the broker's rules read and write. Turning them into
//! bytes and back is the transport's business.

use vstd::prelude::*;

verus! {

/// A non-zero MQTT packet identifier.
#[derive(Clone, Copy, Debug, PartialEq, Eq, Hash, Structural)]
pub struct PacketId {
    pub(crate) value: u16,
}

impl PacketId {
    #[verifier::type_invariant]
    pub(crate) closed spec fn is_non_zero(self) -> bool {
        self.value != 0
    }

    /// The identifier's numeric value.
    pub closed spec fn spec_get(self) -> u16 {
        self.value
    }

    /// Creates an identifier, or returns `None` when `value` is zero.
    pub fn new(value: u16) -> (id: Option<PacketId>)
        ensures
            value == 0 ==> id is None,
            value != 0 ==> (id matches Some(id) && id.get() == value),
    {
        if value == 0 {
            None
        } else {
            Some(PacketId { value })
        }
    }

    /// Returns the identifier's numeric value.
    #[verifier::when_used_as_spec(spec_get)]
    pub fn get(self) -> (value: u16)
        ensures
            value == self.get(),
            value != 0,
    {
        proof {
            use_type_invariant(self);
        }
        self.value
    }

    pub(crate) broadcast proof fn get_is_value(self)
        ensures
            #[trigger] self.get() == self.value,
    {
    }

    /// Identifiers with the same numeric value are the same identifier.
    pub proof fn equal_by_value(a: PacketId, b: PacketId)
        ensures
            (a == b) == (a.get() == b.get()),
    {
    }
}

/// MQTT quality of service.
#[derive(Clone, Copy, Debug, PartialEq, Eq, Hash, Structural)]
pub enum QoS {
    /// At most once delivery.
    AtMostOnce,
    /// At least once delivery.
    AtLeastOnce,
    /// Exactly once delivery.
    ExactlyOnce,
}

impl QoS {
    /// The level's number, 0 to 2.
    pub open spec fn level(self) -> int {
        match self {
            QoS::AtMostOnce => 0,
            QoS::AtLeastOnce => 1,
            QoS::ExactlyOnce => 2,
        }
    }

    /// The lower of two levels.
    pub open spec fn spec_less_value(self, other: QoS) -> QoS {
        if self.level() < other.level() {
            self
        } else {
            other
        }
    }

    /// Returns the lower of two levels.
    #[verifier::when_used_as_spec(spec_less_value)]
    pub fn less_value(self, other: QoS) -> (lower: QoS)
        ensures
            lower == self.less_value(other),
            lower.level() <= self.level() && lower.level() <= other.level(),
            lower == self || lower == other,
    {
        match (self, other) {
            (QoS::AtMostOnce, _) => QoS::AtMostOnce,
            (_, QoS::AtMostOnce) => QoS::AtMostOnce,
            (QoS::AtLeastOnce, _) => QoS::AtLeastOnce,
            (_, QoS::AtLeastOnce) => QoS::AtLeastOnce,
            (QoS::ExactlyOnce, QoS::ExactlyOnce) => QoS::ExactlyOnce,
        }
    }
}

/// MQTT protocol generation spoken on a session link.
#[derive(Clone, Copy, Debug, PartialEq, Eq, Structural)]
pub enum ProtocolVersion {
    /// MQTT 3.1 or 3.1.1.
    MQTT3,
    /// MQTT 5.0.
    MQTT5,
}

/// Properties of a PUBLISH packet.
#[derive(Clone, Debug, PartialEq, Eq)]
pub struct PublishProperties {
    /// Alias that stands for the topic name.
    pub topic_alias: Option<u16>,
    /// Remaining lifetime of the message in seconds.
    pub message_expiry_interval: Option<u32>,
    /// Description of the payload's content.
    pub content_type: Option<String>,
    /// Data that correlates a response with its request.
    pub correlation_data: Option<Vec<u8>>,
    /// Topic on which a response is expected.
    pub response_topic: Option<String>,
    /// Whether the payload is UTF-8 text.
    pub is_utf8_payload: bool,
    /// Identifiers of the subscriptions that matched.
    pub subscription_ids: Vec<u32>,
    /// Name and value pairs for the application.
    pub user_properties: Vec<(String, String)>,
}

/// An application message and the fields of the packet that carries it.
#[derive(Clone, Debug, PartialEq, Eq)]
pub struct Publish {
    /// Whether this is a retransmission.
    pub dup: bool,
    /// Whether the broker keeps the message for later subscribers.
    pub retain: bool,
    /// Quality of service of this transmission.
    pub qos: QoS,
    /// Topic name.
    pub topic: String,
    /// Packet identifier, where the quality of service calls for one.
    pub packet_id: Option<PacketId>,
    /// Application payload.
    pub payload: Vec<u8>,
    /// MQTT 5 properties.
    pub properties: Option<PublishProperties>,
    /// Seconds by which publishing is to be delayed.
    pub delay_interval: Option<u32>,
    /// Milliseconds at which the broker took the message.
    pub create_time: Option<i64>,
}

/// Reason code of PUBACK and PUBREC.
#[derive(Clone, Copy, Debug, PartialEq, Eq, Structural)]
pub enum PublishAckReason {
    Success,
    NoMatchingSubscribers,
    UnspecifiedError,
    ImplementationSpecificError,
    NotAuthorized,
    TopicNameInvalid,
    PacketIdentifierInUse,
    ReceiveMaximumExceeded,
    QuotaExceeded,
    PayloadFormatInvalid,
}

/// Reason code of PUBREL and PUBCOMP.
#[derive(Clone, Copy, Debug, PartialEq, Eq, Structural)]
pub enum PublishAck2Reason {
    Success,
    PacketIdNotFound,
}

/// Reason code of one filter in a SUBACK.
#[derive(Clone, Copy, Debug, PartialEq, Eq, Structural)]
pub enum SubscribeAckReason {
    GrantedQos0,
    GrantedQos1,
    GrantedQos2,
    UnspecifiedError,
    ImplementationSpecificError,
    NotAuthorized,
    TopicFilterInvalid,
    PacketIdentifierInUse,
    QuotaExceeded,
    SharedSubscriptionNotSupported,
    SubscriptionIdentifiersNotSupported,
    WildcardSubscriptionsNotSupported,
}

/// Reason code of one filter in an UNSUBACK.
#[derive(Clone, Copy, Debug, PartialEq, Eq, Structural)]
pub enum UnsubscribeAckReason {
    Success,
    NoSubscriptionExisted,
    UnspecifiedError,
    ImplementationSpecificError,
    NotAuthorized,
    TopicFilterInvalid,
    PacketIdentifierInUse,
}

/// Return code of one filter in an MQTT 3 SUBACK.
#[derive(Clone, Copy, Debug, PartialEq, Eq, Structural)]
pub enum SubscribeReturnCode {
    Success(QoS),
    Failure,
}

/// Reason code of a DISCONNECT.
#[derive(Clone, Copy, Debug, PartialEq, Eq, Structural)]
pub enum DisconnectReasonCode {
    NormalDisconnection,
    DisconnectWithWillMessage,
    UnspecifiedError,
    MalformedPacket,
    ProtocolError,
    ImplementationSpecificError,
    NotAuthorized,
    ServerBusy,
    ServerShuttingDown,
    KeepAliveTimeout,
    SessionTakenOver,
    TopicFilterInvalid,
    TopicNameInvalid,
    ReceiveMaximumExceeded,
    TopicAliasInvalid,
    PacketTooLarge,
    MessageRateTooHigh,
    QuotaExceeded,
    AdministrativeAction,
    PayloadFormatInvalid,
    RetainNotSupported,
    QosNotSupported,
    UseAnotherServer,
    ServerMoved,
    SharedSubscriptionNotSupported,
    ConnectionRateExceeded,
    MaximumConnectTime,
    SubscriptionIdentifiersNotSupported,
    WildcardSubscriptionsNotSupported,
}

/// Reason code of an MQTT 5 CONNACK.
#[derive(Clone, Copy, Debug, PartialEq, Eq, Structural)]
pub enum ConnectAckReasonV5 {
    Success,
    UnspecifiedError,
    MalformedPacket,
    ProtocolError,
    ImplementationSpecificError,
    UnsupportedProtocolVersion,
    ClientIdentifierNotValid,
    BadUserNameOrPassword,
    NotAuthorized,
    ServerUnavailable,
    ServerBusy,
    Banned,
    BadAuthenticationMethod,
    TopicNameInvalid,
    PacketTooLarge,
    QuotaExceeded,
    PayloadFormatInvalid,
    RetainNotSupported,
    QosNotSupported,
    UseAnotherServer,
    ServerMoved,
    ConnectionRateExceeded,
}

/// Return code of an MQTT 3 CONNACK.
#[derive(Clone, Copy, Debug, PartialEq, Eq, Structural)]
pub enum ConnectAckReasonV3 {
    ConnectionAccepted,
    UnacceptableProtocolVersion,
    IdentifierRejected,
    ServiceUnavailable,
    BadUserNameOrPassword,
    NotAuthorized,
}

/// Reason code of a CONNACK in either protocol generation.
#[derive(Clone, Copy, Debug, PartialEq, Eq, Structural)]
pub enum ConnectAckReason {
    V3(ConnectAckReasonV3),
    V5(ConnectAckReasonV5),
}

impl ConnectAckReason {
    /// Whether the connection is accepted.
    pub open spec fn spec_success(self) -> bool {
        self == ConnectAckReason::V3(ConnectAckReasonV3::ConnectionAccepted) || self
            == ConnectAckReason::V5(ConnectAckReasonV5::Success)
    }

    /// Returns whether the connection is accepted.
    #[verifier::when_used_as_spec(spec_success)]
    pub fn success(self) -> (accepted: bool)
        ensures
            accepted == self.success(),
    {
        match self {
            ConnectAckReason::V3(ConnectAckReasonV3::ConnectionAccepted) => true,
            ConnectAckReason::V5(ConnectAckReasonV5::Success) => true,
            _ => false,
        }
    }
}

/// When retained messages are sent in answer to a subscription.
#[derive(Clone, Copy, Debug, PartialEq, Eq, Structural)]
pub enum RetainHandling {
    /// At every subscription.
    AtSubscribe,
    /// Only where the subscription did not exist before.
    AtSubscribeNew,
    /// Never.
    NoAtSubscribe,
}

/// MQTT 5 subscription options.
#[derive(Clone, Copy, Debug, PartialEq, Eq, Structural)]
pub struct SubscriptionOptionsV5 {
    /// Highest quality of service wanted.
    pub qos: QoS,
    /// Whether messages of the subscriber itself are withheld.
    pub no_local: bool,
    /// Whether forwarded messages keep their retain flag.
    pub retain_as_published: bool,
    /// When retained messages are sent.
    pub retain_handling: RetainHandling,
}

/// Will message of a CONNECT.
#[derive(Clone, Debug, PartialEq, Eq)]
pub struct LastWill {
    /// Quality of service of the will message.
    pub qos: QoS,
    /// Whether the will message is retained.
    pub retain: bool,
    /// Topic of the will message.
    pub topic: String,
    /// Payload of the will message.
    pub message: Vec<u8>,
    /// Seconds to wait after the connection ended.
    pub will_delay_interval_sec: Option<u32>,
}

/// MQTT 3 CONNECT.
#[derive(Clone, Debug, PartialEq, Eq)]
pub struct ConnectV3 {
    /// Protocol level.
    pub protocol: u8,
    /// Whether the session starts clean and ends with the connection.
    pub clean_session: bool,
    /// Keep-alive in seconds.
    pub keep_alive: u16,
    /// Will message.
    pub last_will: Option<LastWill>,
    /// Client identifier.
    pub client_id: String,
    /// User name.
    pub username: Option<String>,
    /// Password.
    pub password: Option<Vec<u8>>,
}

/// MQTT 3 CONNACK.
#[derive(Clone, Copy, Debug, PartialEq, Eq, Structural)]
pub struct ConnectAckV3 {
    /// Whether the broker resumes a session.
    pub session_present: bool,
    /// Outcome of the connection attempt.
    pub return_code: ConnectAckReasonV3,
}

/// MQTT 5 CONNECT.
#[derive(Clone, Debug, PartialEq, Eq)]
pub struct ConnectV5 {
    /// Whether an existing session is discarded.
    pub clean_start: bool,
    /// Keep-alive in seconds.
    pub keep_alive: u16,
    /// Lifetime of the session after the connection ended, in seconds.
    pub session_expiry_interval_secs: u32,
    /// Extended authentication method.
    pub auth_method: Option<String>,
    /// Extended authentication data.
    pub auth_data: Option<Vec<u8>>,
    /// Unacknowledged messages the client accepts.
    pub receive_max: Option<u16>,
    /// Topic aliases the client accepts.
    pub topic_alias_max: u16,
    /// Name and value pairs for the broker.
    pub user_properties: Vec<(String, String)>,
    /// Largest packet the client accepts.
    pub max_packet_size: Option<u32>,
    /// Will message.
    pub last_will: Option<LastWill>,
    /// Client identifier.
    pub client_id: String,
    /// User name.
    pub username: Option<String>,
    /// Password.
    pub password: Option<Vec<u8>>,
}

impl Default for ConnectV5 {
    fn default() -> (connect: Self)
        ensures
            !connect.clean_start,
            connect.keep_alive == 0,
            connect.session_expiry_interval_secs == 0,
            connect.auth_method is None,
            connect.auth_data is None,
            connect.receive_max is None,
            connect.topic_alias_max == 0,
            connect.user_properties@.len() == 0,
            connect.max_packet_size is None,
            connect.last_will is None,
            connect.client_id@.len() == 0,
            connect.username is None,
            connect.password is None,
    {
        ConnectV5 {
            clean_start: false,
            keep_alive: 0,
            session_expiry_interval_secs: 0,
            auth_method: None,
            auth_data: None,
            receive_max: None,
            topic_alias_max: 0,
            user_properties: Vec::new(),
            max_packet_size: None,
            last_will: None,
            client_id: String::new(),
            username: None,
            password: None,
        }
    }
}

/// MQTT 5 CONNACK.
#[derive(Clone, Debug, PartialEq, Eq)]
pub struct ConnectAck {
    /// Whether the broker resumes a session.
    pub session_present: bool,
    /// Outcome of the connection attempt.
    pub reason_code: ConnectAckReasonV5,
    /// Keep-alive the client has to use, in seconds.
    pub server_keepalive_sec: Option<u16>,
    /// Session lifetime the broker uses, in seconds.
    pub session_expiry_interval_secs: Option<u32>,
    /// Unacknowledged messages the broker accepts.
    pub receive_max: u16,
    /// Highest quality of service the broker supports.
    pub max_qos: QoS,
    /// Whether retained messages are supported.
    pub retain_available: bool,
    /// Largest packet the broker accepts.
    pub max_packet_size: Option<u32>,
    /// Client identifier the broker chose.
    pub assigned_client_id: Option<String>,
    /// Topic aliases the broker accepts.
    pub topic_alias_max: u16,
    /// Whether wildcard subscriptions are supported.
    pub wildcard_subscription_available: bool,
    /// Whether subscription identifiers are supported.
    pub subscription_identifiers_available: bool,
    /// Whether shared subscriptions are supported.
    pub shared_subscription_available: bool,
    /// Name and value pairs for the client.
    pub user_properties: Vec<(String, String)>,
}

/// PUBACK or PUBREC of MQTT 5.
#[derive(Clone, Debug, PartialEq, Eq)]
pub struct PublishAck {
    /// Acknowledged packet identifier.
    pub packet_id: PacketId,
    /// Outcome of the publication.
    pub reason_code: PublishAckReason,
    /// Name and value pairs.
    pub properties: Vec<(String, String)>,
    /// Human readable explanation.
    pub reason_string: Option<String>,
}

/// PUBREL or PUBCOMP of MQTT 5.
#[derive(Clone, Debug, PartialEq, Eq)]
pub struct PublishAck2 {
    /// Packet identifier of the transaction.
    pub packet_id: PacketId,
    /// Outcome of the step.
    pub reason_code: PublishAck2Reason,
    /// Name and value pairs.
    pub properties: Vec<(String, String)>,
    /// Human readable explanation.
    pub reason_string: Option<String>,
}

/// SUBSCRIBE of MQTT 5.
#[derive(Clone, Debug, PartialEq, Eq)]
pub struct SubscribeV5 {
    /// Packet identifier of the transaction.
    pub packet_id: PacketId,
    /// Subscription identifier.
    pub id: Option<u32>,
    /// Name and value pairs.
    pub user_properties: Vec<(String, String)>,
    /// Filters with their options.
    pub topic_filters: Vec<(String, SubscriptionOptionsV5)>,
}

/// SUBACK of MQTT 5.
#[derive(Clone, Debug, PartialEq, Eq)]
pub struct SubscribeAck {
    /// Packet identifier of the transaction.
    pub packet_id: PacketId,
    /// Name and value pairs.
    pub properties: Vec<(String, String)>,
    /// Human readable explanation.
    pub reason_string: Option<String>,
    /// One reason code for each filter, in order.
    pub status: Vec<SubscribeAckReason>,
}

/// UNSUBSCRIBE of MQTT 5.
#[derive(Clone, Debug, PartialEq, Eq)]
pub struct UnsubscribeV5 {
    /// Packet identifier of the transaction.
    pub packet_id: PacketId,
    /// Name and value pairs.
    pub user_properties: Vec<(String, String)>,
    /// Filters to remove.
    pub topic_filters: Vec<String>,
}

/// UNSUBACK of MQTT 5.
#[derive(Clone, Debug, PartialEq, Eq)]
pub struct UnsubscribeAck {
    /// Packet identifier of the transaction.
    pub packet_id: PacketId,
    /// Name and value pairs.
    pub properties: Vec<(String, String)>,
    /// Human readable explanation.
    pub reason_string: Option<String>,
    /// One reason code for each filter, in order.
    pub status: Vec<UnsubscribeAckReason>,
}

/// DISCONNECT of MQTT 5.
#[derive(Clone, Debug, PartialEq, Eq)]
pub struct DisconnectV5 {
    /// Why the connection ends.
    pub reason_code: DisconnectReasonCode,
    /// Session lifetime that replaces the one of CONNECT, in seconds.
    pub session_expiry_interval_secs: Option<u32>,
    /// Server that the client should use instead.
    pub server_reference: Option<String>,
    /// Human readable explanation.
    pub reason_string: Option<String>,
    /// Name and value pairs.
    pub user_properties: Vec<(String, String)>,
}

impl DisconnectV5 {
    /// Creates a DISCONNECT that carries nothing but its reason code.
    pub fn new(reason_code: DisconnectReasonCode) -> (disconnect: DisconnectV5)
        ensures
            disconnect.reason_code == reason_code,
            disconnect.session_expiry_interval_secs is None,
            disconnect.server_reference is None,
            disconnect.reason_string is None,
            disconnect.user_properties@.len() == 0,
    {
        DisconnectV5 {
            reason_code,
            session_expiry_interval_secs: None,
            server_reference: None,
            reason_string: None,
            user_properties: Vec::new(),
        }
    }
}

/// DISCONNECT of either protocol generation.
#[derive(Clone, Debug, PartialEq, Eq)]
pub enum Disconnect {
    /// MQTT 3, which carries nothing.
    V3,
    /// MQTT 5.
    V5(DisconnectV5),
}

/// AUTH of MQTT 5.
#[derive(Clone, Debug, PartialEq, Eq)]
pub struct Auth {
    /// Extended authentication method.
    pub auth_method: Option<String>,
    /// Extended authentication data.
    pub auth_data: Option<Vec<u8>>,
    /// Human readable explanation.
    pub reason_string: Option<String>,
    /// Name and value pairs.
    pub user_properties: Vec<(String, String)>,
}

impl Default for Auth {
    fn default() -> (auth: Self)
        ensures
            auth.auth_method is None,
            auth.auth_data is None,
            auth.reason_string is None,
            auth.user_properties@.len() == 0,
    {
        Auth {
            auth_method: None,
            auth_data: None,
            reason_string: None,
            user_properties: Vec::new(),
        }
    }
}

/// Control packet of MQTT 3.
#[allow(inconsistent_fields)]
#[derive(Clone, Debug, PartialEq, Eq)]
pub enum PacketV3 {
    Connect(ConnectV3),
    ConnectAck(ConnectAckV3),
    Publish(Publish),
    PublishAck { packet_id: PacketId },
    PublishReceived { packet_id: PacketId },
    PublishRelease { packet_id: PacketId },
    PublishComplete { packet_id: PacketId },
    Subscribe { packet_id: PacketId, topic_filters: Vec<(String, QoS)> },
    SubscribeAck { packet_id: PacketId, status: Vec<SubscribeReturnCode> },
    Unsubscribe { packet_id: PacketId, topic_filters: Vec<String> },
    UnsubscribeAck { packet_id: PacketId },
    PingRequest,
    PingResponse,
    Disconnect,
}

/// Control packet of MQTT 5.
#[derive(Clone, Debug, PartialEq, Eq)]
pub enum PacketV5 {
    Connect(ConnectV5),
    ConnectAck(ConnectAck),
    Publish(Publish),
    PublishAck(PublishAck),
    PublishReceived(PublishAck),
    PublishRelease(PublishAck2),
    PublishComplete(PublishAck2),
    Subscribe(SubscribeV5),
    SubscribeAck(SubscribeAck),
    Unsubscribe(UnsubscribeV5),
    UnsubscribeAck(UnsubscribeAck),
    PingRequest,
    PingResponse,
    Disconnect(DisconnectV5),
    Auth(Auth),
}

/// Control packet on a link, before the session has checked its version.
#[derive(Clone, Debug, PartialEq, Eq)]
pub enum MqttPacket {
    V3(PacketV3),
    V5(PacketV5),
    Version(ProtocolVersion),
}

/// Control packet of a session.
#[derive(Clone, Debug, PartialEq, Eq)]
pub enum Packet {
    V3(PacketV3),
    V5(PacketV5),
}

/// The levels of the quality of service are 0, 1 and 2, and the lower of two is the one that
/// promises less.
pub proof fn qualities_are_ordered(qos: QoS)
    ensures
        QoS::AtMostOnce.level() == 0,
        QoS::AtLeastOnce.level() == 1,
        QoS::ExactlyOnce.level() == 2,
        qos.less_value(qos) == qos,
        QoS::AtMostOnce.less_value(qos) == QoS::AtMostOnce,
        qos.less_value(QoS::AtMostOnce) == QoS::AtMostOnce,
        QoS::ExactlyOnce.less_value(qos) == qos,
        qos.less_value(QoS::ExactlyOnce) == qos,
{
}

/// A connection is accepted by one reason code in each protocol generation.
pub proof fn one_reason_accepts_a_connection(v3: ConnectAckReasonV3, v5: ConnectAckReasonV5)
    ensures
        ConnectAckReason::V3(v3).success() <==> (v3 matches ConnectAckReasonV3::ConnectionAccepted),
        ConnectAckReason::V5(v5).success() <==> (v5 matches ConnectAckReasonV5::Success),
{
}

} // verus!
