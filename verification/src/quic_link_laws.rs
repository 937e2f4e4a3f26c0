//! What holds of a multistream link across its flows.

use vstd::prelude::*;

use crate::link::{
    ConnectionCloseReason, FlowCloseReason, FlowId, FlowKind, LinkError, LinkEvent, ReplyPath,
    SendTarget,
};
use crate::packet::{MqttPacket, PacketV3, PacketV5};
use crate::quic_link::{
    DataPacketAction, FlowCommandKind, FlowContext, FlowStep, LinkView, QueuedLinkEvent,
    ReadFailure, ResolvedTarget, StreamAction, StreamVersion, Supervisor, SupervisorEvent,
    WriteFailure, QUIC_APP_ERROR_PROTOCOL,
};
use crate::time::Instant;

verus! {

/// Whether a flow is what its role says: the control flow has the reserved identifier, a data
/// flow has another.
pub open spec fn well_named(context: FlowContext) -> bool {
    (context.flow_kind == FlowKind::Control) == (context.flow_id == FlowId::control())
}

/// Whether a link serves a flow: it is of the link's generation, and a data flow is active.
pub open spec fn serves<H>(link: LinkView<H>, context: FlowContext) -> bool {
    &&& context.generation == link.generation
    &&& context.flow_kind == FlowKind::Data ==> link.flows.contains_key(context.flow_id.0)
}

/// A packet is answered on the flow that it came from: the path that is reported with it
/// resolves, while the link serves the flow, to that flow and that path.
pub proof fn packets_are_answered_on_their_flow<H>(
    link: LinkView<H>,
    context: FlowContext,
    packet: MqttPacket,
    bytes: usize,
    fits: bool,
)
    requires
        well_named(context),
        serves(link, context),
    ensures
        match context.packet_step(packet, bytes, fits).emit {
            Some(queued) => (queued.event matches LinkEvent::Packet { packet: sent, reply_path }
                ==> sent == packet && reply_path == context.path() && link.resolved(
                SendTarget::Reply(reply_path),
            ) == Ok::<_, crate::link::LinkError>(
                ResolvedTarget { flow_id: context.flow_id, path: context.path() },
            )),
            None => false,
        },
{
}

/// A reply to a path of another generation is refused, whatever flow it names.
pub proof fn stale_replies_are_refused<H>(link: LinkView<H>, path: crate::link::ReplyPath)
    requires
        path.generation != link.generation,
    ensures
        link.resolved(SendTarget::Reply(path)) == Err::<ResolvedTarget, _>(
            crate::link::LinkError::StaleReplyPath,
        ),
{
}

/// A resolved target is never anything but the control flow or an active data flow.
pub proof fn only_active_flows_are_sent_on<H>(link: LinkView<H>, target: SendTarget)
    ensures
        match link.resolved(target) {
            Ok(resolved) => {
                &&& resolved.path.flow_id == resolved.flow_id
                &&& resolved.path.generation == link.generation
                &&& resolved.path.flow_kind == FlowKind::Control ==> resolved.flow_id
                    == FlowId::control()
                &&& resolved.path.flow_kind == FlowKind::Data ==> link.flows.contains_key(
                    resolved.flow_id.0,
                )
            },
            Err(_) => true,
        },
{
}

/// Nothing but application traffic comes from a data flow.
pub proof fn data_flows_carry_application_packets_only(
    context: FlowContext,
    packet: MqttPacket,
    bytes: usize,
    fits: bool,
)
    requires
        context.flow_kind == FlowKind::Data,
    ensures
        match context.packet_step(packet, bytes, fits).emit {
            Some(queued) => queued.event is Packet ==> crate::quic_link::is_application_packet(
                packet,
            ) && fits,
            None => false,
        },
{
}

/// Whether a step ends nothing but the given data flow.
pub open spec fn isolated(step: FlowStep, flow_id: FlowId) -> bool {
    &&& step.ends
    &&& step.emit matches Some(queued) && (queued.event matches LinkEvent::FlowClosed {
        flow_id: closed,
        ..
    } && closed == flow_id)
}

/// A data flow that is reset, stopped, finished, idle, closed on request, over the budget, or
/// that carries a ping ends alone: the event names that flow, and taking it up leaves the
/// connection open and every other flow as it was.
pub proof fn data_flow_failures_are_isolated<H>(
    link: LinkView<H>,
    context: FlowContext,
    packet: MqttPacket,
    bytes: usize,
    code: u64,
    reason: FlowCloseReason,
    other: u64,
)
    requires
        context.flow_kind == FlowKind::Data,
        well_named(context),
        other != context.flow_id.0,
    ensures
        isolated(context.read_failed_step(Some(ReadFailure::Reset(code))), context.flow_id),
        isolated(context.read_failed_step(Some(ReadFailure::ClosedStream)), context.flow_id),
        isolated(context.write_failed_step(Some(WriteFailure::Stopped(code))), context.flow_id),
        isolated(context.write_failed_step(Some(WriteFailure::ClosedStream)), context.flow_id),
        isolated(context.write_failed_step(None), context.flow_id),
        isolated(context.finished_step(), context.flow_id),
        isolated(context.idle_step(), context.flow_id),
        isolated(context.command_done_step(Some(reason)), context.flow_id),
        crate::quic_link::is_ping(packet) ==> isolated(
            context.packet_step(packet, bytes, true),
            context.flow_id,
        ),
        crate::quic_link::is_application_packet(packet) ==> isolated(
            context.packet_step(packet, bytes, false),
            context.flow_id,
        ),
        ({
            let after = link.after_event(LinkEvent::FlowClosed { flow_id: context.flow_id, reason });
            &&& after.closed == link.closed
            &&& after.control_closed == link.control_closed
            &&& after.flows.contains_key(other) == link.flows.contains_key(other)
            &&& link.flows.contains_key(other) ==> after.flows[other] == link.flows[other]
            &&& !after.flows.contains_key(context.flow_id.0)
        }),
{
}

/// The control flow takes the connection with it: however it ends, what is reported is the
/// end of the connection, and the link is closed once it has been taken up.
pub proof fn control_flow_ends_the_connection<H>(
    link: LinkView<H>,
    context: FlowContext,
    packet: MqttPacket,
    bytes: usize,
    fits: bool,
    read: Option<ReadFailure>,
    write: Option<WriteFailure>,
    closing: Option<FlowCloseReason>,
    step: FlowStep,
)
    requires
        context.flow_kind == FlowKind::Control,
        step.ends,
        step == context.packet_step(packet, bytes, fits) || step == context.read_failed_step(read)
            || step == context.write_failed_step(write) || step == context.command_done_step(
            closing,
        ) || step == context.finished_step() || step == context.idle_step(),
    ensures
        match step.emit {
            Some(queued) => queued.event is ConnectionClosed && link.after_event(
                queued.event,
            ).closed && crate::quic_link::close_reason(queued.event) is Some,
            None => false,
        },
{
}

/// A lost transport is reported as such, whichever flow and direction notices.
pub proof fn lost_transports_are_reported(context: FlowContext)
    ensures
        context.read_failed_step(Some(ReadFailure::ConnectionLost)).emit == Some(
            crate::quic_link::connection_closed(ConnectionCloseReason::TransportLost),
        ),
        context.write_failed_step(Some(WriteFailure::ConnectionLost)).emit == Some(
            crate::quic_link::connection_closed(ConnectionCloseReason::TransportLost),
        ),
{
}

/// Bytes are reserved for packets only, and just as many as are given back once the packet
/// has been taken up.
pub proof fn reservations_match_what_is_queued(
    context: FlowContext,
    packet: MqttPacket,
    bytes: usize,
    fits: bool,
)
    ensures
        match context.packet_step(packet, bytes, fits).emit {
            Some(queued) => queued.buffered_bytes == (if fits && context.reserves(packet) {
                bytes
            } else {
                0
            }),
            None => false,
        },
{
}

/// The supervisor opens no more data flows in one second than the rate allows, numbers them
/// upwards from one, and so never gives out the identifier of the control flow.
pub proof fn opening_is_bounded(supervisor: Supervisor, now: Instant)
    requires
        supervisor.next_ordinal >= 1,
        supervisor.opened_in_window <= supervisor.stream_open_rate,
    ensures
        ({
            let after = supervisor.after_stream(now);
            &&& after.next_ordinal >= 1
            &&& after.opened_in_window <= after.stream_open_rate
            &&& after.stream_open_rate == supervisor.stream_open_rate
            &&& after.max_data_streams == supervisor.max_data_streams
            &&& supervisor.next_ordinal < u64::MAX && supervisor.may_open(now)
                ==> after.next_ordinal > supervisor.next_ordinal
            &&& FlowId(supervisor.next_ordinal) != FlowId::control()
        }),
{
}

/// Messages, their acknowledgements and subscription requests of either protocol generation
/// are passed on from a data flow whose budget has room: exactly as they came, on the path of
/// the flow, with their bytes reserved, and the flow goes on. Without room the flow ends alone.
pub proof fn data_flows_pass_application_traffic_on(
    context: FlowContext,
    packet: MqttPacket,
    bytes: usize,
)
    requires
        context.flow_kind == FlowKind::Data,
        match packet {
            MqttPacket::V3(PacketV3::Publish(_)) => true,
            MqttPacket::V3(PacketV3::PublishAck { .. }) => true,
            MqttPacket::V3(PacketV3::PublishReceived { .. }) => true,
            MqttPacket::V3(PacketV3::PublishRelease { .. }) => true,
            MqttPacket::V3(PacketV3::PublishComplete { .. }) => true,
            MqttPacket::V3(PacketV3::Subscribe { .. }) => true,
            MqttPacket::V3(PacketV3::Unsubscribe { .. }) => true,
            MqttPacket::V5(PacketV5::Publish(_)) => true,
            MqttPacket::V5(PacketV5::PublishAck(_)) => true,
            MqttPacket::V5(PacketV5::PublishReceived(_)) => true,
            MqttPacket::V5(PacketV5::PublishRelease(_)) => true,
            MqttPacket::V5(PacketV5::PublishComplete(_)) => true,
            MqttPacket::V5(PacketV5::Subscribe(_)) => true,
            MqttPacket::V5(PacketV5::Unsubscribe(_)) => true,
            _ => false,
        },
    ensures
        crate::quic_link::data_packet_action(packet) == DataPacketAction::Emit,
        context.reserves(packet),
        context.packet_step(packet, bytes, true) == (FlowStep {
            emit: Some(
                QueuedLinkEvent {
                    event: LinkEvent::Packet {
                        packet,
                        reply_path: ReplyPath {
                            flow_id: context.flow_id,
                            flow_kind: FlowKind::Data,
                            generation: context.generation,
                        },
                    },
                    buffered_bytes: bytes,
                },
            ),
            stream: StreamAction::Keep,
            ends: false,
        }),
        context.packet_step(packet, bytes, false) == (FlowStep {
            emit: Some(
                QueuedLinkEvent {
                    event: LinkEvent::FlowClosed {
                        flow_id: context.flow_id,
                        reason: FlowCloseReason::ResourceLimit,
                    },
                    buffered_bytes: 0,
                },
            ),
            stream: StreamAction::Abort(QUIC_APP_ERROR_PROTOCOL),
            ends: true,
        }),
{
}

/// A ping on a data flow costs that flow, whether or not its bytes would fit: it is reset, and
/// nothing is passed on or reserved.
pub proof fn pings_reset_their_data_flow(
    context: FlowContext,
    packet: MqttPacket,
    bytes: usize,
    fits: bool,
)
    requires
        context.flow_kind == FlowKind::Data,
        match packet {
            MqttPacket::V3(PacketV3::PingRequest) => true,
            MqttPacket::V3(PacketV3::PingResponse) => true,
            MqttPacket::V5(PacketV5::PingRequest) => true,
            MqttPacket::V5(PacketV5::PingResponse) => true,
            _ => false,
        },
    ensures
        crate::quic_link::data_packet_action(packet) == DataPacketAction::ResetFlow,
        !context.reserves(packet),
        context.packet_step(packet, bytes, fits) == (FlowStep {
            emit: Some(
                QueuedLinkEvent {
                    event: LinkEvent::FlowClosed {
                        flow_id: context.flow_id,
                        reason: FlowCloseReason::ProtocolViolation,
                    },
                    buffered_bytes: 0,
                },
            ),
            stream: StreamAction::Abort(QUIC_APP_ERROR_PROTOCOL),
            ends: true,
        }),
{
}

/// A packet that belongs to the control flow ends the connection when it comes on a data flow:
/// CONNECT, CONNACK, SUBACK, UNSUBACK, DISCONNECT, AUTH, and a version probe.
pub proof fn control_packets_on_data_flows_end_the_connection(
    context: FlowContext,
    packet: MqttPacket,
    bytes: usize,
    fits: bool,
)
    requires
        context.flow_kind == FlowKind::Data,
        match packet {
            MqttPacket::V3(PacketV3::Connect(_)) => true,
            MqttPacket::V3(PacketV3::ConnectAck(_)) => true,
            MqttPacket::V3(PacketV3::Disconnect) => true,
            MqttPacket::V3(PacketV3::SubscribeAck { .. }) => true,
            MqttPacket::V3(PacketV3::UnsubscribeAck { .. }) => true,
            MqttPacket::V5(PacketV5::Connect(_)) => true,
            MqttPacket::V5(PacketV5::ConnectAck(_)) => true,
            MqttPacket::V5(PacketV5::SubscribeAck(_)) => true,
            MqttPacket::V5(PacketV5::UnsubscribeAck(_)) => true,
            MqttPacket::V5(PacketV5::Disconnect(_)) => true,
            MqttPacket::V5(PacketV5::Auth(_)) => true,
            MqttPacket::Version(_) => true,
            _ => false,
        },
    ensures
        crate::quic_link::data_packet_action(packet) == DataPacketAction::CloseConnection,
        !context.reserves(packet),
        ends_connection(
            context.packet_step(packet, bytes, fits),
            ConnectionCloseReason::ProtocolViolation,
        ),
{
}

/// Whether a step reports the end of the connection for `reason`, leaves the stream alone and
/// ends the task.
pub open spec fn ends_connection(step: FlowStep, reason: ConnectionCloseReason) -> bool {
    &&& step.ends
    &&& step.stream == StreamAction::Keep
    &&& step.emit == Some(
        QueuedLinkEvent { event: LinkEvent::ConnectionClosed { reason }, buffered_bytes: 0 },
    )
}

/// Whether a step reports the end of one flow for `reason`, does `stream` to its stream and
/// ends the task.
pub open spec fn ends_flow(
    step: FlowStep,
    flow_id: FlowId,
    reason: FlowCloseReason,
    stream: StreamAction,
) -> bool {
    &&& step.ends
    &&& step.stream == stream
    &&& step.emit == Some(
        QueuedLinkEvent { event: LinkEvent::FlowClosed { flow_id, reason }, buffered_bytes: 0 },
    )
}

/// Whatever comes on the control flow is passed on while its bytes fit; what does not fit ends
/// the connection for want of resources.
pub proof fn control_flows_pass_everything_on(
    context: FlowContext,
    packet: MqttPacket,
    bytes: usize,
)
    requires
        context.flow_kind == FlowKind::Control,
    ensures
        context.reserves(packet),
        context.packet_step(packet, bytes, true) == (FlowStep {
            emit: Some(
                QueuedLinkEvent {
                    event: LinkEvent::Packet {
                        packet,
                        reply_path: ReplyPath {
                            flow_id: context.flow_id,
                            flow_kind: FlowKind::Control,
                            generation: context.generation,
                        },
                    },
                    buffered_bytes: bytes,
                },
            ),
            stream: StreamAction::Keep,
            ends: false,
        }),
        ends_connection(
            context.packet_step(packet, bytes, false),
            ConnectionCloseReason::ResourceLimit,
        ),
{
}

/// How a data flow fails is told apart: what the peer reset, finished or stopped ends the flow
/// with that cause and the peer's code, and only what concerns the whole connection ends it.
pub proof fn data_flow_failures_are_told_apart(context: FlowContext, code: u64)
    requires
        context.flow_kind == FlowKind::Data,
    ensures
        ends_flow(
            context.read_failed_step(Some(ReadFailure::Reset(code))),
            context.flow_id,
            FlowCloseReason::RecvReset(code),
            StreamAction::Keep,
        ),
        ends_flow(
            context.read_failed_step(Some(ReadFailure::ClosedStream)),
            context.flow_id,
            FlowCloseReason::RecvFinished,
            StreamAction::Keep,
        ),
        ends_flow(
            context.finished_step(),
            context.flow_id,
            FlowCloseReason::RecvFinished,
            StreamAction::Keep,
        ),
        ends_flow(
            context.idle_step(),
            context.flow_id,
            FlowCloseReason::IdleTimeout,
            StreamAction::Close,
        ),
        ends_flow(
            context.write_failed_step(Some(WriteFailure::Stopped(code))),
            context.flow_id,
            FlowCloseReason::SendStopped(code),
            StreamAction::Keep,
        ),
        ends_flow(
            context.write_failed_step(Some(WriteFailure::ClosedStream)),
            context.flow_id,
            FlowCloseReason::SendFailed,
            StreamAction::Keep,
        ),
        ends_flow(
            context.write_failed_step(None),
            context.flow_id,
            FlowCloseReason::SendFailed,
            StreamAction::Keep,
        ),
        ends_connection(
            context.read_failed_step(Some(ReadFailure::ConnectionLost)),
            ConnectionCloseReason::TransportLost,
        ),
        ends_connection(
            context.write_failed_step(Some(WriteFailure::ConnectionLost)),
            ConnectionCloseReason::TransportLost,
        ),
        ends_connection(
            context.read_failed_step(Some(ReadFailure::IllegalOrderedRead)),
            ConnectionCloseReason::ProtocolViolation,
        ),
        ends_connection(
            context.read_failed_step(Some(ReadFailure::ZeroRttRejected)),
            ConnectionCloseReason::ProtocolViolation,
        ),
        ends_connection(
            context.read_failed_step(None),
            ConnectionCloseReason::ProtocolViolation,
        ),
        ends_connection(
            context.write_failed_step(Some(WriteFailure::ZeroRttRejected)),
            ConnectionCloseReason::ProtocolViolation,
        ),
{
}

/// The failures of the control flow end the connection, each with its own reason: a stream that
/// ends in any way as the end of the control flow, a lost transport as that, and early data or
/// bytes that cannot be made out as a violation.
pub proof fn control_flow_failures_are_told_apart(context: FlowContext, code: u64)
    requires
        context.flow_kind == FlowKind::Control,
    ensures
        ends_connection(
            context.read_failed_step(Some(ReadFailure::Reset(code))),
            ConnectionCloseReason::ControlFlowClosed,
        ),
        ends_connection(
            context.read_failed_step(Some(ReadFailure::ClosedStream)),
            ConnectionCloseReason::ControlFlowClosed,
        ),
        ends_connection(
            context.write_failed_step(Some(WriteFailure::Stopped(code))),
            ConnectionCloseReason::ControlFlowClosed,
        ),
        ends_connection(
            context.write_failed_step(Some(WriteFailure::ClosedStream)),
            ConnectionCloseReason::ControlFlowClosed,
        ),
        ends_connection(
            context.write_failed_step(None),
            ConnectionCloseReason::ControlFlowClosed,
        ),
        ends_connection(context.finished_step(), ConnectionCloseReason::ControlFlowClosed),
        ends_connection(
            context.read_failed_step(Some(ReadFailure::ConnectionLost)),
            ConnectionCloseReason::TransportLost,
        ),
        ends_connection(
            context.write_failed_step(Some(WriteFailure::ConnectionLost)),
            ConnectionCloseReason::TransportLost,
        ),
        ends_connection(
            context.read_failed_step(Some(ReadFailure::IllegalOrderedRead)),
            ConnectionCloseReason::ProtocolViolation,
        ),
        ends_connection(
            context.read_failed_step(Some(ReadFailure::ZeroRttRejected)),
            ConnectionCloseReason::ProtocolViolation,
        ),
        ends_connection(
            context.read_failed_step(None),
            ConnectionCloseReason::ProtocolViolation,
        ),
        ends_connection(
            context.write_failed_step(Some(WriteFailure::ZeroRttRejected)),
            ConnectionCloseReason::ProtocolViolation,
        ),
        ({
            let idle = context.idle_step();
            &&& idle.ends
            &&& idle.stream == StreamAction::Close
            &&& idle.emit == Some(
                QueuedLinkEvent {
                    event: LinkEvent::ConnectionClosed {
                        reason: ConnectionCloseReason::ControlFlowClosed,
                    },
                    buffered_bytes: 0,
                },
            )
        }),
{
}

/// A command does to the stream what it says: a packet is written as it is, a flush is a flush,
/// and neither ends the flow; a close ends it with the reason that was asked for, and resets
/// the stream only where the peer broke the protocol.
pub proof fn commands_do_what_they_say(
    context: FlowContext,
    packet: MqttPacket,
    reason: FlowCloseReason,
)
    ensures
        crate::quic_link::command_begun(FlowCommandKind::Send(packet)) == (
            StreamAction::Write(packet),
            None::<FlowCloseReason>,
        ),
        crate::quic_link::command_begun(FlowCommandKind::Flush) == (
            StreamAction::Flush,
            None::<FlowCloseReason>,
        ),
        crate::quic_link::command_begun(FlowCommandKind::Close(reason)).1 == Some(reason),
        (reason is ProtocolViolation || reason is CodecMalformed) ==> crate::quic_link::command_begun(
            FlowCommandKind::Close(reason),
        ).0 == StreamAction::Abort(QUIC_APP_ERROR_PROTOCOL),
        !(reason is ProtocolViolation) && !(reason is CodecMalformed)
            ==> crate::quic_link::command_begun(FlowCommandKind::Close(reason)).0
            == StreamAction::Close,
        context.command_done_step(None) == (FlowStep {
            emit: None,
            stream: StreamAction::Keep,
            ends: false,
        }),
        context.flow_kind == FlowKind::Data ==> ends_flow(
            context.command_done_step(Some(reason)),
            context.flow_id,
            reason,
            StreamAction::Keep,
        ),
        context.flow_kind == FlowKind::Control ==> ends_connection(
            context.command_done_step(Some(reason)),
            ConnectionCloseReason::ControlFlowClosed,
        ),
{
}

/// A stream carries the packets of its own protocol generation and no others.
pub proof fn streams_carry_their_own_version(packet: MqttPacket)
    ensures
        StreamVersion::V3.carries(packet) <==> (packet matches MqttPacket::V3(_)),
        StreamVersion::V5.carries(packet) <==> (packet matches MqttPacket::V5(_)),
{
}

/// The control flow can always be sent on, by name, by binding, and by a path of the link's own
/// generation. A data flow can be sent on exactly from when it has been opened until it has
/// been closed, and what is sent goes to that very flow.
pub proof fn flows_are_reachable_while_they_are_open<H>(
    link: LinkView<H>,
    flow_id: FlowId,
    handle: H,
    reason: FlowCloseReason,
)
    requires
        flow_id.0 != 0,
    ensures
        ({
            let control = ReplyPath {
                flow_id: FlowId(0),
                flow_kind: FlowKind::Control,
                generation: link.generation,
            };
            let data = ReplyPath {
                flow_id,
                flow_kind: FlowKind::Data,
                generation: link.generation,
            };
            let to_control = Ok::<_, LinkError>(ResolvedTarget { flow_id: FlowId(0), path: control });
            let to_data = Ok::<_, LinkError>(ResolvedTarget { flow_id, path: data });
            let gone = Err::<ResolvedTarget, _>(LinkError::FlowNotActive(flow_id));
            let opened = link.after_supervisor(SupervisorEvent::FlowOpened { flow_id, handle });
            let closed = opened.after_event(LinkEvent::FlowClosed { flow_id, reason });
            &&& link.resolved(SendTarget::Control) == to_control
            &&& link.resolved(SendTarget::Bound(FlowId(0))) == to_control
            &&& link.resolved(SendTarget::Reply(control)) == to_control
            &&& link.resolved(
                SendTarget::Reply(ReplyPath { flow_kind: FlowKind::Control, ..data }),
            ) == Err::<ResolvedTarget, _>(LinkError::InvalidControlPath)
            &&& opened.flows[flow_id.0] == handle
            &&& opened.resolved(SendTarget::Bound(flow_id)) == to_data
            &&& opened.resolved(SendTarget::Reply(data)) == to_data
            &&& closed.resolved(SendTarget::Bound(flow_id)) == gone
            &&& closed.resolved(SendTarget::Reply(data)) == gone
            &&& closed.flows == link.flows.remove(flow_id.0)
            &&& closed.closed == link.closed
            &&& closed.control_closed == link.control_closed
            &&& closed.generation == link.generation
        }),
{
    assert(link.flows.insert(flow_id.0, handle).remove(flow_id.0) =~= link.flows.remove(flow_id.0));
}

/// A link is closed by the end of the connection or of its control flow, however that is
/// reported, and by nothing else; only the end of the connection says with which reason the
/// transport is closed. A packet that is taken up changes nothing.
pub proof fn links_close_with_their_connection<H>(
    link: LinkView<H>,
    packet: MqttPacket,
    path: ReplyPath,
    flow_id: FlowId,
    handle: H,
    flow_reason: FlowCloseReason,
    reason: ConnectionCloseReason,
)
    ensures
        link.after_event(LinkEvent::ConnectionClosed { reason }) == (LinkView {
            closed: true,
            ..link
        }),
        link.after_supervisor(SupervisorEvent::ConnectionClosed { reason }) == (LinkView {
            closed: true,
            ..link
        }),
        link.after_event(LinkEvent::FlowClosed { flow_id: FlowId(0), reason: flow_reason }) == (
        LinkView { closed: true, control_closed: true, ..link }),
        link.after_event(LinkEvent::Packet { packet, reply_path: path }) == link,
        link.after_supervisor(SupervisorEvent::FlowOpened { flow_id, handle }).closed
            == link.closed,
        crate::quic_link::close_reason(LinkEvent::ConnectionClosed { reason }) == Some(reason),
        crate::quic_link::close_reason(LinkEvent::FlowClosed { flow_id, reason: flow_reason })
            == None::<ConnectionCloseReason>,
        crate::quic_link::close_reason(LinkEvent::Packet { packet, reply_path: path }) == None::<
            ConnectionCloseReason,
        >,
{
}

/// The peer may open a data stream exactly while data streams were agreed and fewer than the
/// rate were opened in the second under way; a new second starts the count anew. Each stream
/// that is opened counts as one and gets the next number.
pub proof fn streams_open_at_the_agreed_rate(supervisor: Supervisor, now: Instant)
    requires
        supervisor.rate_window_start.nanos <= now.nanos,
        supervisor.next_ordinal < u64::MAX,
    ensures
        ({
            let new_second = now.nanos - supervisor.rate_window_start.nanos >= 1_000_000_000;
            let counted = if new_second {
                0
            } else {
                supervisor.opened_in_window as int
            };
            let after = supervisor.after_stream(now);
            &&& supervisor.may_open(now) <==> supervisor.max_data_streams > 0 && counted
                < supervisor.stream_open_rate
            &&& supervisor.may_open(now) ==> after.opened_in_window == counted + 1
                && after.next_ordinal == supervisor.next_ordinal + 1
            &&& !supervisor.may_open(now) ==> after.next_ordinal == supervisor.next_ordinal
            &&& supervisor.max_data_streams > 0 ==> after.rate_window_start == (if new_second {
                now
            } else {
                supervisor.rate_window_start
            })
            &&& after.generation == supervisor.generation
        }),
{
}

/// A connection that is closed says why: every reason has a label of its own, and a violation of
/// the protocol has an error code of its own.
pub proof fn closes_say_why(a: ConnectionCloseReason, b: ConnectionCloseReason)
    ensures
        crate::quic_link::spec_reason_label(ConnectionCloseReason::ControlFlowClosed)
            == "control-flow-closed"@,
        crate::quic_link::spec_reason_label(ConnectionCloseReason::ProtocolViolation)
            == "protocol-violation"@,
        crate::quic_link::spec_reason_label(ConnectionCloseReason::StatefulFlowFailure)
            == "stateful-flow-failure"@,
        crate::quic_link::spec_reason_label(ConnectionCloseReason::KeepAliveTimeout)
            == "keep-alive-timeout"@,
        crate::quic_link::spec_reason_label(ConnectionCloseReason::ResourceLimit)
            == "resource-limit"@,
        crate::quic_link::spec_reason_label(ConnectionCloseReason::LocalShutdown)
            == "local-shutdown"@,
        crate::quic_link::spec_reason_label(ConnectionCloseReason::TransportLost)
            == "transport-lost"@,
        a != b ==> crate::quic_link::spec_reason_label(a) != crate::quic_link::spec_reason_label(b),
        crate::quic_link::QUIC_APP_ERROR_PROTOCOL == 0x4d51_5450,
        crate::quic_link::QUIC_APP_ERROR_SHUTDOWN == 0x4d51_5400,
        crate::quic_link::DEFAULT_FLOW_COMMANDS == 16,
{
    reveal_strlit("control-flow-closed");
    reveal_strlit("protocol-violation");
    reveal_strlit("stateful-flow-failure");
    reveal_strlit("keep-alive-timeout");
    reveal_strlit("resource-limit");
    reveal_strlit("local-shutdown");
    reveal_strlit("transport-lost");
    if a != b {
        assert(crate::quic_link::spec_reason_label(a)[0] != crate::quic_link::spec_reason_label(
            b,
        )[0]);
    }
}

} // verus!
