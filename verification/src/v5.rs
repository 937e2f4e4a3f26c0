//! MQTT v5 connection handling: from CONNECT to CONNACK.

use uuid::Uuid;
use vstd::prelude::*;

use crate::builder::Builder;
use crate::nonzero::NonZeroU16;
use crate::offline::{inbound_ids_to_restore, OfflineInfo};
use crate::packet::{
    ConnectAck, ConnectAckReason, ConnectAckReasonV3, ConnectAckReasonV5, ConnectV5, PacketId, QoS,
};
use crate::text::same_text;
use crate::time::{Duration, Instant};

verus! {

/// Name of the user property by which multistream is asked for and granted.
pub const QUIC_MULTISTREAM_PROPERTY: &'static str = "rmqtt-quic-multistream";

/// Version of multistream that is asked for and granted.
pub const QUIC_MULTISTREAM_SIMPLE_V1: &'static str = "simple-v1";

/// Whether a user property asks for multistream.
pub open spec fn asks_for_multistream(property: (String, String)) -> bool {
    property.0@ == QUIC_MULTISTREAM_PROPERTY@ && property.1@ == QUIC_MULTISTREAM_SIMPLE_V1@
}

/// Whether a client asks for multistream.
pub open spec fn multistream_requested(connect: ConnectV5) -> bool {
    exists|i: int|
        0 <= i < connect.user_properties@.len() && asks_for_multistream(
            #[trigger] connect.user_properties@[i],
        )
}

/// Returns whether a client asks for multistream, by name and version.
pub fn requests_quic_multistream(connect: &ConnectV5) -> (requested: bool)
    ensures
        requested == multistream_requested(*connect),
{
    let mut i: usize = 0;
    while i < connect.user_properties.len()
        invariant
            i <= connect.user_properties.len(),
            forall|j: int|
                0 <= j < i ==> !asks_for_multistream(#[trigger] connect.user_properties@[j]),
        decreases connect.user_properties.len() - i,
    {
        let property = &connect.user_properties[i];
        if same_text(property.0.as_str(), QUIC_MULTISTREAM_PROPERTY) && same_text(
            property.1.as_str(),
            QUIC_MULTISTREAM_SIMPLE_V1,
        ) {
            return true;
        }
        i = i + 1;
    }
    false
}

/// Whether multistream is agreed on: the transport has it, the listener offers it, and the
/// client asks for it unless the configuration of the listener is the agreement.
pub open spec fn multistream_agreed(connect: ConnectV5, cfg: Builder, allow: bool) -> bool {
    allow && cfg.multistream_mode@ == "simple"@ && (cfg.multistream_negotiation@
        == "preconfigured"@ || multistream_requested(connect))
}

/// Returns whether multistream is agreed on.
pub fn accepts_multistream(connect: &ConnectV5, cfg: &Builder, allow_multistream: bool) -> (agreed:
    bool)
    ensures
        agreed == multistream_agreed(*connect, *cfg, allow_multistream),
{
    allow_multistream && same_text(cfg.multistream_mode.as_str(), "simple") && (same_text(
        cfg.multistream_negotiation.as_str(),
        "preconfigured",
    ) || requests_quic_multistream(connect))
}

/// Whether a character is a lower-case hexadecimal digit.
pub open spec fn is_hex_digit(c: char) -> bool {
    ('0' <= c && c <= '9') || ('a' <= c && c <= 'f')
}

/// Whether a text is a random identifier in its plain form.
pub open spec fn is_random_id(text: Seq<char>) -> bool {
    &&& text.len() == 32
    &&& text[12] == '4'
    &&& forall|i: int| 0 <= i < 32 ==> is_hex_digit(#[trigger] text[i])
}

/// Calls `uuid::Uuid::new_v4` and returns its plain, lower-case form.
///
/// The contract claims that the text has 32 hexadecimal digits, the one of the version among
/// them. Which ones it has is left to chance.
#[verifier::external_body]
fn random_client_id() -> (id: String)
    ensures
        is_random_id(id@),
{
    Uuid::new_v4().as_simple().encode_lower(&mut Uuid::encode_buffer()).to_owned()
}

/// A CONNECT that has been taken up.
#[derive(Debug)]
pub struct Opening {
    /// The CONNECT, with the client identifier that is used.
    pub connect: ConnectV5,
    /// Whether the broker chose the client identifier.
    pub is_assigned_client_id: bool,
    /// Whether multistream is agreed on.
    pub multistream_accepted: bool,
    /// Largest packet that may be sent to the client, where it says so.
    pub max_outbound_size: Option<u32>,
}

/// The opening for a CONNECT, where `generated` is the identifier for a client without one.
pub open spec fn opened(connect: ConnectV5, cfg: Builder, allow: bool, generated: String) -> Opening {
    let assigned = connect.client_id@.len() == 0;
    Opening {
        connect: if assigned {
            ConnectV5 { client_id: generated, ..connect }
        } else {
            connect
        },
        is_assigned_client_id: assigned,
        multistream_accepted: multistream_agreed(connect, cfg, allow),
        max_outbound_size: connect.max_packet_size,
    }
}

/// Takes a CONNECT up, with the identifier for a client without one.
pub fn open_with(
    connect: ConnectV5,
    cfg: &Builder,
    allow_multistream: bool,
    generated: String,
) -> (opening: Opening)
    ensures
        opening == opened(connect, *cfg, allow_multistream, generated),
{
    let multistream_accepted = accepts_multistream(&connect, cfg, allow_multistream);
    let max_outbound_size = connect.max_packet_size;
    let is_assigned_client_id = same_text(connect.client_id.as_str(), "");
    proof {
        reveal_strlit("");
        assert(""@.len() == 0);
        if connect.client_id@.len() == 0 {
            assert(connect.client_id@ =~= ""@);
        }
    }
    let connect = if is_assigned_client_id {
        ConnectV5 { client_id: generated, ..connect }
    } else {
        connect
    };
    Opening { connect, is_assigned_client_id, multistream_accepted, max_outbound_size }
}

/// Takes a CONNECT up, and gives a client without an identifier a random one.
pub fn open_connection(connect: ConnectV5, cfg: &Builder, allow_multistream: bool) -> (opening:
    Opening)
    ensures
        opening == opened(connect, *cfg, allow_multistream, opening.connect.client_id),
        opening.is_assigned_client_id ==> is_random_id(opening.connect.client_id@),
{
    let has_client_id = !same_text(connect.client_id.as_str(), "");
    proof {
        reveal_strlit("");
        assert(""@.len() == 0);
        if connect.client_id@.len() == 0 {
            assert(connect.client_id@ =~= ""@);
        }
    }
    if has_client_id {
        return open_with(connect, cfg, allow_multistream, String::new());
    }
    open_with(connect, cfg, allow_multistream, random_client_id())
}

/// Why a connection is refused.
#[derive(Debug, PartialEq, Eq)]
pub enum HandshakeError {
    /// The node is overloaded.
    Overloaded,
    /// No CONNECT came, in the words of the transport.
    NoConnect(String),
    /// The handshake took too long.
    Timeout,
    /// The handshake could not be carried out in time.
    ExecutionTimeout,
    /// The client identifier is too long.
    ClientIdTooLong,
    /// The client asks for extended authentication.
    ExtendedAuth,
    /// The node serves as many sessions as it may, which is the given number.
    TooManySessions(usize),
    /// The client could not be authenticated.
    AuthenticationFailed,
    /// A service of the broker failed, in its own words.
    Service(String),
}

/// A refused connection.
#[derive(Debug, PartialEq, Eq)]
pub struct Refusal {
    /// Reason code for the CONNACK.
    pub reason: ConnectAckReason,
    /// Cause of the refusal.
    pub error: HandshakeError,
}

/// The refusal of a server that cannot serve.
pub open spec fn unavailable(error: HandshakeError) -> Refusal {
    Refusal { reason: ConnectAckReason::V5(ConnectAckReasonV5::ServerUnavailable), error }
}

fn refuse_unavailable(error: HandshakeError) -> (refusal: Refusal)
    ensures
        refusal == unavailable(error),
{
    Refusal { reason: ConnectAckReason::V5(ConnectAckReasonV5::ServerUnavailable), error }
}

/// Checks that the node is not overloaded, before a CONNECT is even read.
pub fn check_load(busy_check_enable: bool, sys_is_busy: bool) -> (checked: Result<(), Refusal>)
    ensures
        checked == (if busy_check_enable && sys_is_busy {
            Err::<(), Refusal>(unavailable(HandshakeError::Overloaded))
        } else {
            Ok::<(), Refusal>(())
        }),
{
    if busy_check_enable && sys_is_busy {
        return Err(refuse_unavailable(HandshakeError::Overloaded));
    }
    Ok(())
}

/// Returns the refusal of a connection on which no CONNECT came.
pub fn on_no_connect(error: String) -> (refusal: Refusal)
    ensures
        refusal == unavailable(HandshakeError::NoConnect(error)),
{
    refuse_unavailable(HandshakeError::NoConnect(error))
}

/// Returns the refusal of a connection whose handshake was not carried out in time.
pub fn on_execution_timeout() -> (refusal: Refusal)
    ensures
        refusal == unavailable(HandshakeError::ExecutionTimeout),
{
    refuse_unavailable(HandshakeError::ExecutionTimeout)
}

/// What the existing session of a client left behind when it was ended.
#[derive(Debug)]
pub enum OfflineSession {
    /// There was no session.
    NotExist,
    /// There was a session; what it left can be resumed where there is anything.
    Exist(Option<OfflineInfo>),
}

impl OfflineSession {
    /// What the session left.
    pub open spec fn left(self) -> Option<OfflineInfo> {
        match self {
            OfflineSession::NotExist => None,
            OfflineSession::Exist(info) => info,
        }
    }
}

/// How the new session continues the one before it.
#[derive(Debug)]
pub struct Resumption {
    /// Whether the client is told that its session was there.
    pub session_present: bool,
    /// When the session was created.
    pub created_at: i64,
    /// Packet identifiers with which the receive window starts.
    pub inbound_inflight_packet_ids: Vec<PacketId>,
    /// Whether the creation of a session is announced.
    pub announces_creation: bool,
    /// Whether state is transferred into the new session.
    pub transfers_state: bool,
}

/// Decides how the new session continues the one before it.
pub fn resume(kicked: &OfflineSession, clean_start: bool, connected_at: i64) -> (resumption:
    Resumption)
    ensures
        ({
            let left = kicked.left();
            &&& resumption.session_present == (left is Some && !clean_start)
            &&& resumption.created_at == (match left {
                Some(info) => info.created_at,
                None => connected_at,
            })
            &&& resumption.inbound_inflight_packet_ids@ == (if left is Some && !clean_start {
                left->0.inbound_inflight_packet_ids@
            } else {
                Seq::empty()
            })
            &&& resumption.announces_creation == (left is None)
            &&& resumption.transfers_state == (left is Some)
        }),
{
    let left: Option<&OfflineInfo> = match kicked {
        OfflineSession::NotExist => None,
        OfflineSession::Exist(Some(info)) => Some(info),
        OfflineSession::Exist(None) => None,
    };
    let created_at: i64 = match left {
        Some(info) => info.created_at,
        None => connected_at,
    };
    Resumption {
        session_present: left.is_some() && !clean_start,
        created_at,
        inbound_inflight_packet_ids: inbound_ids_to_restore(left, clean_start),
        announces_creation: left.is_none(),
        transfers_state: left.is_some(),
    }
}

/// How far a handshake has come: what is awaited.
#[derive(Clone, Copy, Debug, PartialEq, Eq, Structural)]
pub enum HandshakeStage {
    /// The announcement of the client.
    Announcing,
    /// The number of sessions.
    Counting,
    /// The authentication of the client.
    Authenticating,
    /// The lock on the client's entry.
    Locking,
    /// The end of the client's existing session.
    Kicking,
    /// The new session.
    Creating,
    /// The keep-alive that both sides use.
    Negotiating,
    /// The entry of the new session.
    Entering,
    /// The transfer of state into the new session.
    Transferring,
    /// The automatic subscriptions.
    Subscribing,
    /// Nothing: the client has been accepted.
    Accepted,
    /// Nothing: the client has been refused.
    Refused,
}

/// What a handshake meets.
#[derive(Debug)]
pub enum HandshakeEvent {
    /// The client has been announced.
    Announced { now: Instant },
    /// The sessions have been counted; `exists` says whether the client has one.
    Counted { sessions: usize, exists: bool },
    /// The client has been authenticated, or not.
    Authenticated { ack: ConnectAckReason },
    /// What was awaited has been done.
    Done,
    /// What was awaited failed, in the words of the service.
    Failed(String),
    /// The existing session has been ended; `resumable` says whether it left state.
    Kicked { resumable: bool },
}

/// What a handshake does next.
#[derive(Debug)]
pub enum HandshakeAction {
    /// It counts the sessions of the node, and asks whether the client has one.
    CountSessions,
    /// It authenticates the client.
    Authenticate,
    /// It locks the client's entry.
    Lock,
    /// It ends the client's existing session.
    Kick { clean_start: bool },
    /// It creates the session.
    CreateSession,
    /// It negotiates the keep-alive.
    NegotiateKeepAlive,
    /// It announces a session that did not exist, and enters it.
    EnterSession { announces_creation: bool },
    /// It tells the client's hooks, and transfers state into the session.
    TransferState,
    /// It subscribes for the client where that is configured.
    Subscribe,
    /// It accepts the client.
    Accept,
    /// It refuses the client.
    Refuse(Refusal),
}

/// Settings that a handshake goes by.
#[derive(Clone, Copy, Debug, PartialEq, Eq, Structural)]
pub struct HandshakeLimits {
    /// Longest time that the handshake may take.
    pub handshake_timeout: Duration,
    /// Longest client identifier in bytes, zero for no limit.
    pub max_clientid_len: usize,
    /// Most sessions of the node, zero for no limit.
    pub max_sessions: usize,
}

/// What a handshake knows of its client.
#[derive(Clone, Copy, Debug, PartialEq, Eq, Structural)]
pub struct Handshake {
    /// Settings.
    pub limits: HandshakeLimits,
    /// When the handshake began.
    pub start: Instant,
    /// Length of the client identifier in bytes.
    pub client_id_len: usize,
    /// Whether the client asks for extended authentication.
    pub extended_auth: bool,
    /// Whether the client discards its existing session.
    pub clean_start: bool,
    /// Whether the existing session left state.
    pub resumable: bool,
    /// How far the handshake has come.
    pub stage: HandshakeStage,
}

impl Handshake {
    /// Whether the handshake awaits the event.
    pub open spec fn awaits(self, event: HandshakeEvent) -> bool {
        match self.stage {
            HandshakeStage::Announcing => event is Announced,
            HandshakeStage::Counting => event is Counted,
            HandshakeStage::Authenticating => event is Authenticated,
            HandshakeStage::Kicking => event is Kicked || event is Failed,
            HandshakeStage::Accepted => false,
            HandshakeStage::Refused => false,
            _ => event is Done || event is Failed,
        }
    }

    /// The refusal that an event leads to, if it does.
    pub open spec fn refusal(self, event: HandshakeEvent) -> Option<Refusal> {
        match event {
            HandshakeEvent::Announced { now } => if now.since(self.start)
                > self.limits.handshake_timeout.nanos {
                Some(unavailable(HandshakeError::Timeout))
            } else if self.limits.max_clientid_len > 0 && self.client_id_len
                > self.limits.max_clientid_len {
                Some(
                    Refusal {
                        reason: ConnectAckReason::V5(
                            ConnectAckReasonV5::ClientIdentifierNotValid,
                        ),
                        error: HandshakeError::ClientIdTooLong,
                    },
                )
            } else if self.extended_auth {
                Some(
                    Refusal {
                        reason: ConnectAckReason::V5(ConnectAckReasonV5::BadAuthenticationMethod),
                        error: HandshakeError::ExtendedAuth,
                    },
                )
            } else {
                None
            },
            HandshakeEvent::Counted { sessions, exists } => if self.limits.max_sessions > 0
                && sessions >= self.limits.max_sessions && !exists {
                Some(unavailable(HandshakeError::TooManySessions(self.limits.max_sessions)))
            } else {
                None
            },
            HandshakeEvent::Authenticated { ack } => if !ack.success() {
                Some(Refusal { reason: ack, error: HandshakeError::AuthenticationFailed })
            } else {
                None
            },
            HandshakeEvent::Failed(text) => Some(unavailable(HandshakeError::Service(text))),
            _ => None,
        }
    }

    /// The stage that follows where the client is not refused.
    pub open spec fn next_stage(self, event: HandshakeEvent) -> HandshakeStage {
        match self.stage {
            HandshakeStage::Announcing => HandshakeStage::Counting,
            HandshakeStage::Counting => HandshakeStage::Authenticating,
            HandshakeStage::Authenticating => HandshakeStage::Locking,
            HandshakeStage::Locking => HandshakeStage::Kicking,
            HandshakeStage::Kicking => HandshakeStage::Creating,
            HandshakeStage::Creating => HandshakeStage::Negotiating,
            HandshakeStage::Negotiating => HandshakeStage::Entering,
            HandshakeStage::Entering => if self.resumable {
                HandshakeStage::Transferring
            } else {
                HandshakeStage::Subscribing
            },
            HandshakeStage::Transferring => HandshakeStage::Subscribing,
            _ => HandshakeStage::Accepted,
        }
    }

    /// The handshake after an event.
    pub open spec fn after(self, event: HandshakeEvent) -> Handshake {
        Handshake {
            stage: if self.refusal(event) is Some {
                HandshakeStage::Refused
            } else {
                self.next_stage(event)
            },
            resumable: match event {
                HandshakeEvent::Kicked { resumable } => resumable,
                _ => self.resumable,
            },
            ..self
        }
    }

    /// What is done once the handshake has come to its stage.
    pub open spec fn due(self) -> HandshakeAction {
        match self.stage {
            HandshakeStage::Counting => HandshakeAction::CountSessions,
            HandshakeStage::Authenticating => HandshakeAction::Authenticate,
            HandshakeStage::Locking => HandshakeAction::Lock,
            HandshakeStage::Kicking => HandshakeAction::Kick { clean_start: self.clean_start },
            HandshakeStage::Creating => HandshakeAction::CreateSession,
            HandshakeStage::Negotiating => HandshakeAction::NegotiateKeepAlive,
            HandshakeStage::Entering => HandshakeAction::EnterSession {
                announces_creation: !self.resumable,
            },
            HandshakeStage::Transferring => HandshakeAction::TransferState,
            HandshakeStage::Subscribing => HandshakeAction::Subscribe,
            _ => HandshakeAction::Accept,
        }
    }

    /// What follows an event.
    pub open spec fn action(self, event: HandshakeEvent) -> HandshakeAction {
        match self.refusal(event) {
            Some(refusal) => HandshakeAction::Refuse(refusal),
            None => self.after(event).due(),
        }
    }

    /// The handshake for a CONNECT that was taken up at `start`.
    pub open spec fn begun(opening: Opening, limits: HandshakeLimits, start: Instant) -> Handshake {
        Handshake {
            limits,
            start,
            client_id_len: vstd::utf8::encode_utf8(opening.connect.client_id@).len() as usize,
            extended_auth: opening.connect.auth_method is Some,
            clean_start: opening.connect.clean_start,
            resumable: false,
            stage: HandshakeStage::Announcing,
        }
    }

    /// Begins a handshake for a CONNECT that was taken up at `start`.
    pub fn begin(opening: &Opening, limits: HandshakeLimits, start: Instant) -> (handshake:
        Handshake)
        ensures
            handshake == Handshake::begun(*opening, limits, start),
            handshake == (Handshake {
                limits,
                start,
                client_id_len: handshake.client_id_len,
                extended_auth: opening.connect.auth_method is Some,
                clean_start: opening.connect.clean_start,
                resumable: false,
                stage: HandshakeStage::Announcing,
            }),
            handshake.client_id_len == vstd::utf8::encode_utf8(
                opening.connect.client_id@,
            ).len(),
    {
        Handshake {
            limits,
            start,
            client_id_len: opening.connect.client_id.as_str().as_bytes().len(),
            extended_auth: opening.connect.auth_method.is_some(),
            clean_start: opening.connect.clean_start,
            resumable: false,
            stage: HandshakeStage::Announcing,
        }
    }

    /// Takes up an event, and tells what is done next.
    pub fn on_event(&mut self, event: HandshakeEvent) -> (action: HandshakeAction)
        requires
            old(self).awaits(event),
        ensures
            *final(self) == old(self).after(event),
            action == old(self).action(event),
    {
        match event {
            HandshakeEvent::Announced { now } => {
                if now.duration_since(self.start).nanos > self.limits.handshake_timeout.nanos {
                    return self.refuse(refuse_unavailable(HandshakeError::Timeout));
                }
                if self.limits.max_clientid_len > 0 && self.client_id_len
                    > self.limits.max_clientid_len {
                    return self.refuse(
                        Refusal {
                            reason: ConnectAckReason::V5(
                                ConnectAckReasonV5::ClientIdentifierNotValid,
                            ),
                            error: HandshakeError::ClientIdTooLong,
                        },
                    );
                }
                if self.extended_auth {
                    return self.refuse(
                        Refusal {
                            reason: ConnectAckReason::V5(
                                ConnectAckReasonV5::BadAuthenticationMethod,
                            ),
                            error: HandshakeError::ExtendedAuth,
                        },
                    );
                }
                self.stage = HandshakeStage::Counting;
                HandshakeAction::CountSessions
            },
            HandshakeEvent::Counted { sessions, exists } => {
                if self.limits.max_sessions > 0 && sessions >= self.limits.max_sessions && !exists {
                    let limit: usize = self.limits.max_sessions;
                    return self.refuse(refuse_unavailable(HandshakeError::TooManySessions(limit)));
                }
                self.stage = HandshakeStage::Authenticating;
                HandshakeAction::Authenticate
            },
            HandshakeEvent::Authenticated { ack } => {
                if !ack.success() {
                    return self.refuse(
                        Refusal { reason: ack, error: HandshakeError::AuthenticationFailed },
                    );
                }
                self.stage = HandshakeStage::Locking;
                HandshakeAction::Lock
            },
            HandshakeEvent::Kicked { resumable } => {
                self.resumable = resumable;
                self.stage = HandshakeStage::Creating;
                HandshakeAction::CreateSession
            },
            HandshakeEvent::Failed(text) => self.refuse(
                refuse_unavailable(HandshakeError::Service(text)),
            ),
            HandshakeEvent::Done => match self.stage {
                HandshakeStage::Locking => {
                    self.stage = HandshakeStage::Kicking;
                    HandshakeAction::Kick { clean_start: self.clean_start }
                },
                HandshakeStage::Creating => {
                    self.stage = HandshakeStage::Negotiating;
                    HandshakeAction::NegotiateKeepAlive
                },
                HandshakeStage::Negotiating => {
                    self.stage = HandshakeStage::Entering;
                    HandshakeAction::EnterSession { announces_creation: !self.resumable }
                },
                HandshakeStage::Entering => {
                    if self.resumable {
                        self.stage = HandshakeStage::Transferring;
                        return HandshakeAction::TransferState;
                    }
                    self.stage = HandshakeStage::Subscribing;
                    HandshakeAction::Subscribe
                },
                HandshakeStage::Transferring => {
                    self.stage = HandshakeStage::Subscribing;
                    HandshakeAction::Subscribe
                },
                _ => {
                    self.stage = HandshakeStage::Accepted;
                    HandshakeAction::Accept
                },
            },
        }
    }

    fn refuse(&mut self, refusal: Refusal) -> (action: HandshakeAction)
        ensures
            *final(self) == (Handshake { stage: HandshakeStage::Refused, ..*old(self) }),
            action == HandshakeAction::Refuse(refusal),
    {
        self.stage = HandshakeStage::Refused;
        HandshakeAction::Refuse(refusal)
    }
}

/// The topic alias limits for the client and for the broker: none where multistream is agreed
/// on, because aliases would have to be ordered across streams.
pub open spec fn alias_limits(
    multistream_accepted: bool,
    max_client_topic_aliases: u16,
    max_server_topic_aliases: u16,
) -> (u16, u16) {
    if multistream_accepted {
        (0, 0)
    } else {
        (max_client_topic_aliases, max_server_topic_aliases)
    }
}

/// Returns the topic alias limits for the client and for the broker.
pub fn topic_alias_limits(
    multistream_accepted: bool,
    max_client_topic_aliases: u16,
    max_server_topic_aliases: u16,
) -> (limits: (u16, u16))
    ensures
        limits == alias_limits(
            multistream_accepted,
            max_client_topic_aliases,
            max_server_topic_aliases,
        ),
{
    if multistream_accepted {
        (0, 0)
    } else {
        (max_client_topic_aliases, max_server_topic_aliases)
    }
}

/// What the broker offers a client that it accepts.
#[derive(Clone, Copy, Debug, PartialEq, Eq, Structural)]
pub struct Offer {
    /// Whether the client's session was there.
    pub session_present: bool,
    /// Keep-alive that the client has to use, in seconds.
    pub server_keepalive_sec: u16,
    /// Lifetime of the session.
    pub session_expiry_interval: Duration,
    /// Unacknowledged messages that the broker accepts.
    pub max_inflight: NonZeroU16,
    /// Highest quality of service.
    pub max_qos: QoS,
    /// Whether messages are retained.
    pub retain_available: bool,
    /// Largest packet that the broker accepts.
    pub max_packet_size: u32,
    /// Topic aliases that the broker accepts; none are offered where multistream is agreed on.
    pub client_topic_alias_max: u16,
    /// Whether subscriptions can be shared.
    pub shared_subscription_available: bool,
}

/// The lifetime of a session as CONNACK gives it: whole seconds in 32 bits, and nothing where
/// those are zero.
pub open spec fn expiry_secs(interval: Duration) -> Option<u32> {
    let secs = (interval.nanos as int / 1_000_000_000) % 0x1_0000_0000;
    if secs > 0 {
        Some(secs as u32)
    } else {
        None
    }
}

fn session_expiry_secs(interval: Duration) -> (secs: Option<u32>)
    ensures
        secs == expiry_secs(interval),
{
    let whole: u128 = interval.as_secs();
    let secs: u32 = (whole % 0x1_0000_0000) as u32;
    if secs > 0 {
        Some(secs)
    } else {
        None
    }
}

/// Returns the CONNACK for a client that is accepted.
pub fn accepted_ack(opening: &Opening, offer: Offer) -> (ack: ConnectAck)
    ensures
        ack.reason_code == ConnectAckReasonV5::Success,
        ack.session_present == offer.session_present,
        ack.server_keepalive_sec == Some(offer.server_keepalive_sec),
        ack.session_expiry_interval_secs == expiry_secs(offer.session_expiry_interval),
        ack.receive_max == offer.max_inflight.get(),
        ack.max_qos == offer.max_qos,
        ack.retain_available == offer.retain_available,
        ack.max_packet_size == Some(offer.max_packet_size),
        ack.topic_alias_max == (if opening.multistream_accepted {
            0
        } else {
            offer.client_topic_alias_max
        }),
        ack.wildcard_subscription_available,
        ack.subscription_identifiers_available,
        ack.shared_subscription_available == offer.shared_subscription_available,
        match ack.assigned_client_id {
            Some(client_id) => opening.is_assigned_client_id && client_id
                == opening.connect.client_id,
            None => !opening.is_assigned_client_id,
        },
        if opening.multistream_accepted {
            ack.user_properties@.len() == 1 && asks_for_multistream(ack.user_properties@[0])
        } else {
            ack.user_properties@.len() == 0
        },
{
    let assigned_client_id = if opening.is_assigned_client_id {
        Some(opening.connect.client_id.clone())
    } else {
        None
    };
    let topic_alias_max: u16 = if opening.multistream_accepted {
        0
    } else {
        offer.client_topic_alias_max
    };
    let mut user_properties: Vec<(String, String)> = Vec::new();
    if opening.multistream_accepted {
        user_properties.push(
            (QUIC_MULTISTREAM_PROPERTY.to_owned(), QUIC_MULTISTREAM_SIMPLE_V1.to_owned()),
        );
    }
    ConnectAck {
        session_present: offer.session_present,
        reason_code: ConnectAckReasonV5::Success,
        server_keepalive_sec: Some(offer.server_keepalive_sec),
        session_expiry_interval_secs: session_expiry_secs(offer.session_expiry_interval),
        receive_max: offer.max_inflight.get(),
        max_qos: offer.max_qos,
        retain_available: offer.retain_available,
        max_packet_size: Some(offer.max_packet_size),
        assigned_client_id,
        topic_alias_max,
        wildcard_subscription_available: true,
        subscription_identifiers_available: true,
        shared_subscription_available: offer.shared_subscription_available,
        user_properties,
    }
}

/// Returns the CONNACK for a client that is refused, with the reason that the hooks have put in
/// place of the given one where they have. A reason of MQTT 3 says that the server is
/// unavailable.
pub fn refused_ack(ack_code: ConnectAckReason, replaced: Option<ConnectAckReason>) -> (ack:
    ConnectAck)
    ensures
        ack.reason_code == (match replaced {
            Some(ConnectAckReason::V5(reason)) => reason,
            Some(_) => ConnectAckReasonV5::ServerUnavailable,
            None => match ack_code {
                ConnectAckReason::V5(reason) => reason,
                _ => ConnectAckReasonV5::ServerUnavailable,
            },
        }),
        !ack.session_present,
        ack.server_keepalive_sec is None,
        ack.session_expiry_interval_secs is None,
        ack.max_packet_size is None,
        ack.assigned_client_id is None,
        ack.topic_alias_max == 0,
        ack.user_properties@.len() == 0,
        ack.receive_max == u16::MAX,
        ack.max_qos == QoS::ExactlyOnce,
        ack.retain_available,
        ack.wildcard_subscription_available,
        ack.subscription_identifiers_available,
        ack.shared_subscription_available,
{
    let reason = match replaced {
        Some(reason) => reason,
        None => ack_code,
    };
    let reason_code = match reason {
        ConnectAckReason::V5(reason) => reason,
        ConnectAckReason::V3(_) => ConnectAckReasonV5::ServerUnavailable,
    };
    ConnectAck {
        session_present: false,
        reason_code,
        server_keepalive_sec: None,
        session_expiry_interval_secs: None,
        receive_max: u16::MAX,
        max_qos: QoS::ExactlyOnce,
        retain_available: true,
        max_packet_size: None,
        assigned_client_id: None,
        topic_alias_max: 0,
        wildcard_subscription_available: true,
        subscription_identifiers_available: true,
        shared_subscription_available: true,
        user_properties: Vec::new(),
    }
}

/// How a QUIC connection goes on once its client has been accepted.
#[derive(Clone, Copy, Debug, PartialEq, Eq, Structural)]
pub enum QuicActivationPlan {
    /// The CONNACK is sent, and so many data streams are allowed.
    Activate { max_data_streams: u32 },
    /// The connection ends: early data hold more than CONNECT.
    RejectEarlyData,
}

/// Decides how a QUIC connection goes on once its client has been accepted.
pub fn plan_activation(
    is_0rtt: bool,
    has_buffered_input: bool,
    multistream_accepted: bool,
    cfg: &Builder,
) -> (plan: QuicActivationPlan)
    ensures
        plan == (if is_0rtt && has_buffered_input {
            QuicActivationPlan::RejectEarlyData
        } else {
            QuicActivationPlan::Activate {
                max_data_streams: if multistream_accepted {
                    cfg.multistream_max_data_streams
                } else {
                    0
                },
            }
        }),
{
    if is_0rtt && has_buffered_input {
        return QuicActivationPlan::RejectEarlyData;
    }
    let max_data_streams: u32 = if multistream_accepted {
        cfg.multistream_max_data_streams
    } else {
        0
    };
    QuicActivationPlan::Activate { max_data_streams }
}

/// Only a client that has been authenticated takes anything over: before that, nothing is
/// locked and no session is ended, and a client that is refused is refused for good.
pub proof fn authentication_precedes_takeover(handshake: Handshake, event: HandshakeEvent)
    requires
        handshake.awaits(event),
    ensures
        handshake.action(event) is Lock ==> (event matches HandshakeEvent::Authenticated { ack }
            && ack.success()),
        handshake.action(event) is Kick ==> handshake.stage == HandshakeStage::Locking,
        handshake.action(event) is EnterSession ==> handshake.stage
            == HandshakeStage::Negotiating,
        handshake.action(event) is Refuse ==> handshake.after(event).stage
            == HandshakeStage::Refused,
        handshake.stage == HandshakeStage::Announcing || handshake.stage
            == HandshakeStage::Counting ==> !(handshake.action(event) is Lock)
            && !(handshake.action(event) is Kick) && !(handshake.action(event) is EnterSession),
{
}

/// How many events a handshake can still meet at most.
pub open spec fn stages_left(stage: HandshakeStage) -> nat {
    match stage {
        HandshakeStage::Announcing => 10,
        HandshakeStage::Counting => 9,
        HandshakeStage::Authenticating => 8,
        HandshakeStage::Locking => 7,
        HandshakeStage::Kicking => 6,
        HandshakeStage::Creating => 5,
        HandshakeStage::Negotiating => 4,
        HandshakeStage::Entering => 3,
        HandshakeStage::Transferring => 2,
        HandshakeStage::Subscribing => 1,
        _ => 0,
    }
}

/// Every event brings a handshake closer to its end.
pub proof fn handshakes_end(handshake: Handshake, event: HandshakeEvent)
    requires
        handshake.awaits(event),
    ensures
        stages_left(handshake.after(event).stage) < stages_left(handshake.stage),
{
}

/// Multistream is never forced on a client that does not ask for it, unless the listener is
/// configured for such clients; where it is not offered, asking does not help.
pub proof fn multistream_takes_both_sides(connect: ConnectV5, cfg: Builder, allow: bool)
    ensures
        cfg.multistream_negotiation@ != "preconfigured"@ && !multistream_requested(connect)
            ==> !multistream_agreed(connect, cfg, allow),
        !allow || cfg.multistream_mode@ != "simple"@ ==> !multistream_agreed(connect, cfg, allow),
        allow && cfg.multistream_mode@ == "simple"@ && multistream_requested(connect)
            ==> multistream_agreed(connect, cfg, allow),
{
}

/// The handshake after events, one after the other.
pub open spec fn handshake_ran(handshake: Handshake, events: Seq<HandshakeEvent>) -> Handshake
    decreases events.len(),
{
    if events.len() == 0 {
        handshake
    } else {
        handshake_ran(handshake, events.drop_last()).after(events.last())
    }
}

/// Whenever a handshake ends the client's existing session, whatever it has met before, it
/// passes on whether the CONNECT from which it was begun asked for a clean start; it does so
/// once the client's entry is locked.
pub proof fn kicks_carry_the_clean_start_of_the_connect(
    opening: Opening,
    limits: HandshakeLimits,
    start: Instant,
    events: Seq<HandshakeEvent>,
    event: HandshakeEvent,
)
    requires
        vstd::utf8::encode_utf8(opening.connect.client_id@).len() <= usize::MAX,
    ensures
        ({
            let handshake = handshake_ran(Handshake::begun(opening, limits, start), events);
            &&& handshake.clean_start == opening.connect.clean_start
            &&& handshake.extended_auth == (opening.connect.auth_method is Some)
            &&& handshake.limits == limits
            &&& handshake.start == start
            &&& handshake.client_id_len == vstd::utf8::encode_utf8(
                opening.connect.client_id@,
            ).len()
            &&& handshake.action(event) matches HandshakeAction::Kick { clean_start }
                ==> clean_start == opening.connect.clean_start
            &&& handshake.stage == HandshakeStage::Locking ==> handshake.action(
                HandshakeEvent::Done,
            ) == (HandshakeAction::Kick { clean_start: opening.connect.clean_start })
        }),
    decreases events.len(),
{
    if events.len() > 0 {
        kicks_carry_the_clean_start_of_the_connect(
            opening,
            limits,
            start,
            events.drop_last(),
            event,
        );
    }
}

/// A client within its limits that is authenticated and for which every service answers is
/// accepted, and on the way every step is taken in its order: sessions are counted, the client
/// authenticated, its entry locked, its existing session ended, the new one created, its
/// keep-alive negotiated, the session entered, and announced exactly where nothing was left to
/// resume; state is transferred exactly where something was left.
pub proof fn accepted_clients_take_every_step(
    opening: Opening,
    limits: HandshakeLimits,
    start: Instant,
    now: Instant,
    sessions: usize,
    exists_already: bool,
    resumable: bool,
)
    requires
        now.nanos <= start.nanos + limits.handshake_timeout.nanos,
        limits.max_clientid_len == 0 || vstd::utf8::encode_utf8(opening.connect.client_id@).len()
            <= limits.max_clientid_len,
        vstd::utf8::encode_utf8(opening.connect.client_id@).len() <= usize::MAX,
        opening.connect.auth_method is None,
        limits.max_sessions == 0 || sessions < limits.max_sessions || exists_already,
    ensures
        ({
            let announced = HandshakeEvent::Announced { now };
            let counted = HandshakeEvent::Counted { sessions, exists: exists_already };
            let authenticated = HandshakeEvent::Authenticated {
                ack: ConnectAckReason::V5(ConnectAckReasonV5::Success),
            };
            let kicked = HandshakeEvent::Kicked { resumable };
            let done = HandshakeEvent::Done;
            let h0 = Handshake::begun(opening, limits, start);
            let h1 = h0.after(announced);
            let h2 = h1.after(counted);
            let h3 = h2.after(authenticated);
            let h4 = h3.after(done);
            let h5 = h4.after(kicked);
            let h6 = h5.after(done);
            let h7 = h6.after(done);
            let h8 = h7.after(done);
            let h9 = if resumable {
                h8.after(done)
            } else {
                h8
            };
            let h10 = h9.after(done);
            &&& h0.action(announced) == HandshakeAction::CountSessions
            &&& h1.action(counted) == HandshakeAction::Authenticate
            &&& h2.action(authenticated) == HandshakeAction::Lock
            &&& h3.action(done) == (HandshakeAction::Kick {
                clean_start: opening.connect.clean_start,
            })
            &&& h4.action(kicked) == HandshakeAction::CreateSession
            &&& h5.action(done) == HandshakeAction::NegotiateKeepAlive
            &&& h6.action(done) == (HandshakeAction::EnterSession {
                announces_creation: !resumable,
            })
            &&& resumable ==> h7.action(done) == HandshakeAction::TransferState && h8.action(done)
                == HandshakeAction::Subscribe
            &&& !resumable ==> h7.action(done) == HandshakeAction::Subscribe
            &&& h9.action(done) == HandshakeAction::Accept
            &&& h10.stage == HandshakeStage::Accepted
            &&& h0.awaits(announced) && h1.awaits(counted) && h2.awaits(authenticated)
            &&& h3.awaits(done) && h4.awaits(kicked) && h5.awaits(done) && h6.awaits(done)
            &&& h7.awaits(done) && h8.awaits(done) && h9.awaits(done)
        }),
{
}

/// A client is refused for what it or its broker got wrong, in this order and with this code:
/// for taking too long, for an identifier that is too long, for asking for extended
/// authentication, for coming to a full node without a session there, and with the code of the
/// authentication where that fails. A service that fails makes the server unavailable.
pub proof fn refusals_name_their_cause(
    handshake: Handshake,
    now: Instant,
    sessions: usize,
    ack: ConnectAckReason,
    text: String,
)
    requires
        handshake.start.nanos <= now.nanos,
    ensures
        ({
            let refused = handshake.refusal(HandshakeEvent::Announced { now });
            let late = now.nanos - handshake.start.nanos
                > handshake.limits.handshake_timeout.nanos;
            let long = handshake.limits.max_clientid_len > 0 && handshake.client_id_len
                > handshake.limits.max_clientid_len;
            &&& late ==> refused == Some(
                Refusal {
                    reason: ConnectAckReason::V5(ConnectAckReasonV5::ServerUnavailable),
                    error: HandshakeError::Timeout,
                },
            )
            &&& !late && long ==> refused == Some(
                Refusal {
                    reason: ConnectAckReason::V5(ConnectAckReasonV5::ClientIdentifierNotValid),
                    error: HandshakeError::ClientIdTooLong,
                },
            )
            &&& !late && !long && handshake.extended_auth ==> refused == Some(
                Refusal {
                    reason: ConnectAckReason::V5(ConnectAckReasonV5::BadAuthenticationMethod),
                    error: HandshakeError::ExtendedAuth,
                },
            )
            &&& !late && !long && !handshake.extended_auth ==> refused is None
        }),
        ({
            let max = handshake.limits.max_sessions;
            let full = max > 0 && sessions >= max;
            &&& handshake.refusal(HandshakeEvent::Counted { sessions, exists: true }) is None
            &&& full ==> handshake.refusal(HandshakeEvent::Counted { sessions, exists: false })
                == Some(
                Refusal {
                    reason: ConnectAckReason::V5(ConnectAckReasonV5::ServerUnavailable),
                    error: HandshakeError::TooManySessions(max),
                },
            )
            &&& !full ==> handshake.refusal(
                HandshakeEvent::Counted { sessions, exists: false },
            ) is None
        }),
        ({
            let refused = handshake.refusal(HandshakeEvent::Authenticated { ack });
            let passed = ack == ConnectAckReason::V5(ConnectAckReasonV5::Success) || ack
                == ConnectAckReason::V3(ConnectAckReasonV3::ConnectionAccepted);
            &&& passed ==> refused is None
            &&& !passed ==> refused == Some(
                Refusal { reason: ack, error: HandshakeError::AuthenticationFailed },
            )
        }),
        handshake.refusal(HandshakeEvent::Failed(text)) == Some(
            Refusal {
                reason: ConnectAckReason::V5(ConnectAckReasonV5::ServerUnavailable),
                error: HandshakeError::Service(text),
            },
        ),
        handshake.refusal(HandshakeEvent::Done) is None,
        forall|event: HandshakeEvent|
            (#[trigger] handshake.refusal(event)) is Some ==> handshake.after(event).stage
                == HandshakeStage::Refused && handshake.action(event) == HandshakeAction::Refuse(
                handshake.refusal(event)->0,
            ),
{
}

/// A CONNECT is taken up as it came. Only a client without an identifier is given one, and
/// nothing else of its CONNECT changes; what it can take of a packet is remembered.
pub proof fn connects_are_taken_up_as_they_came(
    connect: ConnectV5,
    cfg: Builder,
    allow: bool,
    generated: String,
)
    ensures
        ({
            let opening = opened(connect, cfg, allow, generated);
            &&& opening.is_assigned_client_id <==> connect.client_id@.len() == 0
            &&& connect.client_id@.len() > 0 ==> opening.connect == connect
            &&& connect.client_id@.len() == 0 ==> opening.connect == (ConnectV5 {
                client_id: generated,
                ..connect
            })
            &&& opening.connect.clean_start == connect.clean_start
            &&& opening.max_outbound_size == connect.max_packet_size
            &&& opening.multistream_accepted ==> allow && cfg.multistream_mode@ == "simple"@
            &&& cfg.multistream_negotiation@ == "preconfigured"@ ==> (opening.multistream_accepted
                <==> allow && cfg.multistream_mode@ == "simple"@)
            &&& cfg.multistream_negotiation@ != "preconfigured"@ ==> (
            opening.multistream_accepted <==> allow && cfg.multistream_mode@ == "simple"@ && exists|
                i: int,
            |
                0 <= i < connect.user_properties@.len() && (
                #[trigger] connect.user_properties@[i]).0@ == "rmqtt-quic-multistream"@
                    && connect.user_properties@[i].1@ == "simple-v1"@)
        }),
{
    if multistream_requested(connect) {
        let i = choose|i: int|
            0 <= i < connect.user_properties@.len() && asks_for_multistream(
                #[trigger] connect.user_properties@[i],
            );
        assert(connect.user_properties@[i].0@ == "rmqtt-quic-multistream"@);
    }
    if exists|i: int|
        0 <= i < connect.user_properties@.len() && (#[trigger] connect.user_properties@[i]).0@
            == "rmqtt-quic-multistream"@ && connect.user_properties@[i].1@ == "simple-v1"@ {
        let i = choose|i: int|
            0 <= i < connect.user_properties@.len() && (#[trigger] connect.user_properties@[i]).0@
                == "rmqtt-quic-multistream"@ && connect.user_properties@[i].1@ == "simple-v1"@;
        assert(asks_for_multistream(connect.user_properties@[i]));
    }
}

/// Topic aliases are as configured, and there are none over several streams.
pub proof fn aliases_need_a_single_stream(client: u16, server: u16)
    ensures
        alias_limits(false, client, server) == (client, server),
        alias_limits(true, client, server) == (0u16, 0u16),
{
}

/// A session that is kept for some whole seconds is announced with that many of them.
pub proof fn lifetimes_are_announced_in_seconds(secs: u32, rest: u32)
    requires
        rest < 1_000_000_000,
    ensures
        expiry_secs(Duration { nanos: (secs * 1_000_000_000 + rest) as u128 }) == (if secs == 0 {
            None
        } else {
            Some(secs)
        }),
{
    let nanos = secs * 1_000_000_000 + rest;
    assert(nanos / 1_000_000_000 == secs);
}

/// What can be resumed is what the session before left, and nothing where there was none or it
/// left nothing. A handshake begins with the announcement of the client, and with nothing to
/// resume.
pub proof fn only_what_was_left_is_resumed(
    info: OfflineInfo,
    opening: Opening,
    limits: HandshakeLimits,
    start: Instant,
)
    ensures
        OfflineSession::Exist(Some(info)).left() == Some(info),
        OfflineSession::Exist(None).left() is None,
        OfflineSession::NotExist.left() is None,
        !Handshake::begun(opening, limits, start).resumable,
        Handshake::begun(opening, limits, start).stage == HandshakeStage::Announcing,
{
}

} // verus!
