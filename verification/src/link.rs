//! Logical MQTT flows inside one transport connection.
//!
//! A connection carries one control flow and, once multistream has been
//! activated, a bounded number of data flows. A [`ReplyPath`] names a flow
//! together with the link generation in which it was issued, so that work kept
//! across an asynchronous step cannot be answered on a later flow that happens
//! to carry the same number.

use vstd::prelude::*;

use crate::packet::{MqttPacket, PacketV3, PacketV5};

verus! {

/// Opaque identifier for one logical MQTT flow within a connection.
///
/// Identifiers are scoped to a link generation; use [`ReplyPath`] when retaining
/// a destination across asynchronous work.
#[derive(Clone, Copy, Debug, PartialEq, Eq, Hash, Structural)]
pub struct FlowId(pub u64);

impl FlowId {
    /// The identifier reserved for the connection's MQTT control flow.
    pub open spec fn spec_control() -> FlowId {
        FlowId(0)
    }

    /// Returns the identifier reserved for the connection's MQTT control flow.
    #[verifier::when_used_as_spec(spec_control)]
    pub fn control() -> (id: FlowId)
        ensures
            id == FlowId::control(),
    {
        FlowId(0)
    }

    /// Creates a flow identifier from its connection-local numeric value.
    pub fn new(value: u64) -> (id: FlowId)
        ensures
            id == FlowId(value),
    {
        FlowId(value)
    }

    /// Returns the connection-local numeric value.
    pub fn get(self) -> (value: u64)
        ensures
            value == self.0,
    {
        self.0
    }
}

/// Role of a logical MQTT flow within a transport connection.
#[derive(Clone, Copy, Debug, PartialEq, Eq, Hash, Structural)]
pub enum FlowKind {
    /// The single flow carrying CONNECT, CONNACK, and connection-wide control traffic.
    Control,
    /// An auxiliary flow carrying allowed MQTT application packets.
    Data,
}

/// Stable reply destination for the flow that originated an MQTT packet.
///
/// The generation prevents a path from being reused after its underlying flow
/// has been replaced.
#[derive(Clone, Copy, Debug, PartialEq, Eq, Hash, Structural)]
pub struct ReplyPath {
    /// Destination flow identifier.
    pub flow_id: FlowId,
    /// Role of the destination flow.
    pub flow_kind: FlowKind,
    /// Link generation in which the path was issued.
    pub generation: u64,
}

impl ReplyPath {
    /// The generation-independent control path used by serial links.
    pub open spec fn spec_control() -> ReplyPath {
        ReplyPath { flow_id: FlowId(0), flow_kind: FlowKind::Control, generation: 0 }
    }

    /// Creates a reply path for a flow in a specific link generation.
    pub fn new(flow_id: FlowId, flow_kind: FlowKind, generation: u64) -> (path: ReplyPath)
        ensures
            path == (ReplyPath { flow_id, flow_kind, generation }),
    {
        ReplyPath { flow_id, flow_kind, generation }
    }

    /// Returns the generation-independent control path used by serial links.
    #[verifier::when_used_as_spec(spec_control)]
    pub fn control() -> (path: ReplyPath)
        ensures
            path == ReplyPath::control(),
    {
        ReplyPath { flow_id: FlowId(0), flow_kind: FlowKind::Control, generation: 0 }
    }

    /// Returns the destination flow identifier.
    pub fn flow_id(self) -> (flow_id: FlowId)
        ensures
            flow_id == self.flow_id,
    {
        self.flow_id
    }

    /// Returns whether the destination is the control flow or a data flow.
    pub fn flow_kind(self) -> (flow_kind: FlowKind)
        ensures
            flow_kind == self.flow_kind,
    {
        self.flow_kind
    }

    /// Returns the link generation in which this path was issued.
    pub fn generation(self) -> (generation: u64)
        ensures
            generation == self.generation,
    {
        self.generation
    }
}

/// Reason that one logical MQTT flow was closed.
#[derive(Clone, Copy, Debug, PartialEq, Eq, Structural)]
pub enum FlowCloseReason {
    /// The peer cleanly finished its receive direction.
    RecvFinished,
    /// The peer reset its send direction with the given application error code.
    RecvReset(u64),
    /// The peer requested that the local endpoint stop sending, with the given error code.
    SendStopped(u64),
    /// Writing to the flow failed without a more specific transport classification.
    SendFailed,
    /// The flow exceeded its configured idle timeout.
    IdleTimeout,
    /// The flow contained malformed MQTT framing or packet data.
    CodecMalformed,
    /// The flow exceeded a configured resource limit.
    ResourceLimit,
    /// The underlying transport connection was lost.
    ConnectionLost,
    /// The flow violated MQTT-over-transport rules.
    ProtocolViolation,
}

/// Reason that an entire MQTT transport connection was closed.
#[derive(Clone, Copy, Debug, PartialEq, Eq, Structural)]
pub enum ConnectionCloseReason {
    /// The mandatory MQTT control flow ended.
    ControlFlowClosed,
    /// A packet or flow violated connection-level protocol rules.
    ProtocolViolation,
    /// A flow carrying stateful MQTT work failed and could not be isolated safely.
    StatefulFlowFailure,
    /// The MQTT keep-alive deadline expired.
    KeepAliveTimeout,
    /// The connection exceeded a configured resource limit.
    ResourceLimit,
    /// The local broker intentionally shut down the link.
    LocalShutdown,
    /// The underlying transport connection was lost.
    TransportLost,
}

/// Event produced by a transport-neutral MQTT link.
#[allow(inconsistent_fields)]
#[derive(Debug)]
pub enum LinkEvent {
    /// A decoded MQTT packet and the path on which its response must be sent.
    Packet {
        /// Decoded MQTT packet.
        packet: MqttPacket,
        /// Generation-scoped path on which replies must be sent.
        reply_path: ReplyPath,
    },
    /// One logical flow ended while the connection may remain usable.
    FlowClosed {
        /// Identifier of the flow that ended.
        flow_id: FlowId,
        /// Cause of the flow closure.
        reason: FlowCloseReason,
    },
    /// The entire transport connection ended.
    ConnectionClosed {
        /// Cause of the connection closure.
        reason: ConnectionCloseReason,
    },
}

/// Destination policy for an outbound MQTT packet.
#[derive(Clone, Copy, Debug, PartialEq, Eq, Hash, Structural)]
pub enum SendTarget {
    /// Send on the connection's MQTT control flow.
    Control,
    /// Reply on the exact path supplied with an inbound packet.
    Reply(ReplyPath),
    /// Send on the currently active generation of a flow identifier.
    Bound(FlowId),
}

/// Confirmed path used for an outbound MQTT packet.
#[derive(Clone, Copy, Debug, PartialEq, Eq, Structural)]
pub struct SendReceipt {
    /// Path used by the send operation.
    pub path: ReplyPath,
}

impl SendReceipt {
    /// Creates a receipt for a successfully selected reply path.
    pub fn new(path: ReplyPath) -> (receipt: SendReceipt)
        ensures
            receipt == (SendReceipt { path }),
    {
        SendReceipt { path }
    }

    /// Returns the path used by the send operation.
    pub fn path(self) -> (path: ReplyPath)
        ensures
            path == self.path,
    {
        self.path
    }
}

/// Failure of a link operation.
#[derive(Debug, PartialEq, Eq)]
pub enum LinkError {
    /// A serial link was asked to send on something other than its control flow.
    SerialControlOnly,
    /// A serial link was asked to reset a data flow.
    SerialNoDataFlow,
    /// The packet's MQTT version differs from that of the stream it was to be sent on.
    StreamVersionMismatch,
    /// The named QUIC data flow is not active.
    FlowNotActive(FlowId),
    /// The reply path belongs to another link generation.
    StaleReplyPath,
    /// The reply path claims the control role for a flow that does not have it.
    InvalidControlPath,
    /// The task that serves the flow no longer accepts commands.
    MailboxClosed(FlowId),
    /// The task that serves the flow ended before it completed a command.
    CompletionDropped(FlowId),
    /// An MQTT v5 packet arrived on an MQTT v3 session link.
    ReceivedV5OnV3,
    /// An MQTT v3 packet arrived on an MQTT v5 session link.
    ReceivedV3OnV5,
    /// A protocol version probe arrived on an active session link.
    ReceivedVersionProbe,
    /// An MQTT v5 packet was to be sent on an MQTT v3 session link.
    CannotSendV5OnV3,
    /// An MQTT v3 packet was to be sent on an MQTT v5 session link.
    CannotSendV3OnV5,
    /// MQTT v3 has no PUBREL with a reason code other than success.
    PubrelReasonOnV3,
    /// MQTT v3 has no PUBCOMP with a reason code other than success.
    PubcompReasonOnV3,
    /// The transport reported a failure in its own words.
    Transport(String),
}

/// [`MqttPacket`] adapter for transports that carry MQTT on one ordered byte stream.
pub struct SerialMqttLink<S> {
    /// Version-detected MQTT stream.
    pub stream: S,
}

impl<S> SerialMqttLink<S> {
    /// Wraps a version-detected MQTT stream as a serial link.
    pub fn new(stream: S) -> (link: Self)
        ensures
            link.stream == stream,
    {
        SerialMqttLink { stream }
    }

    /// Returns the wrapped MQTT stream.
    pub fn into_inner(self) -> (stream: S)
        ensures
            stream == self.stream,
    {
        self.stream
    }
}

/// Whether a serial link accepts `target`: only what denotes its control flow.
pub open spec fn serial_target(target: SendTarget) -> bool {
    match target {
        SendTarget::Control => true,
        SendTarget::Reply(path) => path == ReplyPath::control(),
        SendTarget::Bound(flow_id) => flow_id == FlowId::control(),
    }
}

/// Returns whether a serial link accepts `target`.
pub fn is_serial_target(target: SendTarget) -> (accepted: bool)
    ensures
        accepted == serial_target(target),
{
    match target {
        SendTarget::Control => true,
        SendTarget::Reply(path) => path == ReplyPath::control(),
        SendTarget::Bound(flow_id) => flow_id == FlowId::control(),
    }
}

/// The link event for what a serial stream yielded: every packet is to be answered on the
/// control path.
pub open spec fn serial_event(next: Option<Result<MqttPacket, LinkError>>) -> Result<
    Option<LinkEvent>,
    LinkError,
> {
    match next {
        Some(Ok(packet)) => Ok(
            Some(LinkEvent::Packet { packet, reply_path: ReplyPath::control() }),
        ),
        Some(Err(error)) => Err(error),
        None => Ok(None),
    }
}

/// Turns what a serial stream yielded into the link event to report.
pub fn serial_recv(next: Option<Result<MqttPacket, LinkError>>) -> (event: Result<
    Option<LinkEvent>,
    LinkError,
>)
    ensures
        event == serial_event(next),
{
    match next {
        Some(Ok(packet)) => Ok(Some(LinkEvent::Packet { packet, reply_path: ReplyPath::control() })),
        Some(Err(error)) => Err(error),
        None => Ok(None),
    }
}

/// The receipt for a send on a serial stream of the version `stream_is_v5`, where it is
/// accepted: the target has to denote the control flow, and the packet to be of the stream's
/// version.
pub open spec fn serial_receipt(target: SendTarget, packet: MqttPacket, stream_is_v5: bool) -> Result<
    SendReceipt,
    LinkError,
> {
    if !serial_target(target) {
        Err(LinkError::SerialControlOnly)
    } else if (packet is V3 && !stream_is_v5) || (packet is V5 && stream_is_v5) {
        Ok(SendReceipt { path: ReplyPath::control() })
    } else {
        Err(LinkError::StreamVersionMismatch)
    }
}

/// Checks a send on a serial stream of the version `stream_is_v5`, and returns the
/// receipt that is owed once the stream has taken the packet.
///
/// The target is checked before the packet's version.
pub fn serial_send(target: SendTarget, packet: &MqttPacket, stream_is_v5: bool) -> (receipt: Result<
    SendReceipt,
    LinkError,
>)
    ensures
        receipt == serial_receipt(target, *packet, stream_is_v5),
{
    if !is_serial_target(target) {
        return Err(LinkError::SerialControlOnly);
    }
    match packet {
        MqttPacket::V3(_) => if !stream_is_v5 {
            Ok(SendReceipt::new(ReplyPath::control()))
        } else {
            Err(LinkError::StreamVersionMismatch)
        },
        MqttPacket::V5(_) => if stream_is_v5 {
            Ok(SendReceipt::new(ReplyPath::control()))
        } else {
            Err(LinkError::StreamVersionMismatch)
        },
        MqttPacket::Version(_) => Err(LinkError::StreamVersionMismatch),
    }
}

/// Checks a flow reset on a serial link, and returns the reason for which the whole
/// connection is then closed: a serial link has no flow but the control flow.
pub fn serial_reset_flow(flow_id: FlowId) -> (close: Result<ConnectionCloseReason, LinkError>)
    ensures
        close == (if flow_id == FlowId::control() {
            Ok::<ConnectionCloseReason, LinkError>(ConnectionCloseReason::ControlFlowClosed)
        } else {
            Err::<ConnectionCloseReason, LinkError>(LinkError::SerialNoDataFlow)
        }),
{
    if flow_id != FlowId::control() {
        return Err(LinkError::SerialNoDataFlow);
    }
    Ok(ConnectionCloseReason::ControlFlowClosed)
}

/// What a serial link reports for a packet can be answered on it: a reply to the path of the
/// event, sent as a packet of the stream's version, is accepted and confirmed on that path.
pub proof fn serial_reply_is_accepted(packet: MqttPacket, reply: MqttPacket, stream_is_v5: bool)
    requires
        if stream_is_v5 {
            reply is V5
        } else {
            reply is V3
        },
    ensures
        serial_event(Some(Ok(packet))) matches Ok(Some(LinkEvent::Packet { reply_path, .. }))
            && serial_receipt(SendTarget::Reply(reply_path), reply, stream_is_v5) == Ok::<
            SendReceipt,
            LinkError,
        >(SendReceipt { path: reply_path }),
{
}

/// Only what denotes the control flow is sent on a serial link; everything else is refused,
/// whatever is sent.
pub proof fn serial_links_have_one_flow(
    packet: MqttPacket,
    stream_is_v5: bool,
    flow_id: FlowId,
    path: ReplyPath,
)
    ensures
        serial_target(SendTarget::Control),
        serial_target(SendTarget::Bound(FlowId(0))),
        serial_target(
            SendTarget::Reply(
                ReplyPath { flow_id: FlowId(0), flow_kind: FlowKind::Control, generation: 0 },
            ),
        ),
        flow_id.0 != 0 ==> serial_receipt(SendTarget::Bound(flow_id), packet, stream_is_v5) == Err::<
            SendReceipt,
            LinkError,
        >(LinkError::SerialControlOnly),
        path.flow_id.0 != 0 || path.flow_kind != FlowKind::Control || path.generation != 0
            ==> serial_receipt(SendTarget::Reply(path), packet, stream_is_v5) == Err::<
            SendReceipt,
            LinkError,
        >(LinkError::SerialControlOnly),
{
}

/// A serial stream takes the packets of its own version, each confirmed on the control path,
/// and no others; what it yields is reported as it came.
pub proof fn serial_streams_carry_their_own_version(
    v3: PacketV3,
    v5: PacketV5,
    probe: MqttPacket,
    next: MqttPacket,
    error: LinkError,
)
    requires
        probe is Version,
    ensures
        ({
            let confirmed: Result<SendReceipt, LinkError> = Ok(
                SendReceipt {
                    path: ReplyPath {
                        flow_id: FlowId(0),
                        flow_kind: FlowKind::Control,
                        generation: 0,
                    },
                },
            );
            let refused: Result<SendReceipt, LinkError> = Err(LinkError::StreamVersionMismatch);
            &&& serial_receipt(SendTarget::Control, MqttPacket::V3(v3), false) == confirmed
            &&& serial_receipt(SendTarget::Control, MqttPacket::V5(v5), true) == confirmed
            &&& serial_receipt(SendTarget::Control, MqttPacket::V3(v3), true) == refused
            &&& serial_receipt(SendTarget::Control, MqttPacket::V5(v5), false) == refused
            &&& serial_receipt(SendTarget::Control, probe, false) == refused
            &&& serial_receipt(SendTarget::Control, probe, true) == refused
        }),
        serial_event(Some(Ok(next))) == Ok::<Option<LinkEvent>, LinkError>(
            Some(
                LinkEvent::Packet {
                    packet: next,
                    reply_path: ReplyPath {
                        flow_id: FlowId(0),
                        flow_kind: FlowKind::Control,
                        generation: 0,
                    },
                },
            ),
        ),
        serial_event(Some(Err(error))) == Err::<Option<LinkEvent>, LinkError>(error),
        serial_event(None) == Ok::<Option<LinkEvent>, LinkError>(None),
{
}

} // verus!
