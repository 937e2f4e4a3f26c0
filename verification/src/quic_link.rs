//! Decisions of an MQTT-over-QUIC link with one control flow and bounded data flows.
//!
//! Streams, mailboxes and timers belong to the tasks that serve the link. What such a task
//! has met is handed in as a plain value; what it has to do comes back as one.

use std::collections::HashMap;

use vstd::prelude::*;

use crate::link::{
    ConnectionCloseReason, FlowCloseReason, FlowId, FlowKind, LinkError, LinkEvent, ReplyPath,
    SendTarget,
};
use crate::packet::{MqttPacket, PacketV3, PacketV5};
use crate::table::keys_of;
use crate::time::{Duration, Instant};

verus! {

broadcast use vstd::std_specs::hash::group_hash_axioms;

/// Application error code for violations of the protocol.
pub const QUIC_APP_ERROR_PROTOCOL: u32 = 0x4d51_5450;

/// Application error code for every other end of a connection.
pub const QUIC_APP_ERROR_SHUTDOWN: u32 = 0x4d51_5400;

/// Commands that may wait for the task of one flow.
pub const DEFAULT_FLOW_COMMANDS: usize = 16;

/// The text that goes with the close of a QUIC connection.
pub open spec fn spec_reason_label(reason: ConnectionCloseReason) -> Seq<char> {
    match reason {
        ConnectionCloseReason::ControlFlowClosed => "control-flow-closed"@,
        ConnectionCloseReason::ProtocolViolation => "protocol-violation"@,
        ConnectionCloseReason::StatefulFlowFailure => "stateful-flow-failure"@,
        ConnectionCloseReason::KeepAliveTimeout => "keep-alive-timeout"@,
        ConnectionCloseReason::ResourceLimit => "resource-limit"@,
        ConnectionCloseReason::LocalShutdown => "local-shutdown"@,
        ConnectionCloseReason::TransportLost => "transport-lost"@,
    }
}

/// Returns the text that goes with the close of a QUIC connection.
pub fn reason_label(reason: &ConnectionCloseReason) -> (label: &'static str)
    ensures
        label@ == spec_reason_label(*reason),
{
    match reason {
        ConnectionCloseReason::ControlFlowClosed => "control-flow-closed",
        ConnectionCloseReason::ProtocolViolation => "protocol-violation",
        ConnectionCloseReason::StatefulFlowFailure => "stateful-flow-failure",
        ConnectionCloseReason::KeepAliveTimeout => "keep-alive-timeout",
        ConnectionCloseReason::ResourceLimit => "resource-limit",
        ConnectionCloseReason::LocalShutdown => "local-shutdown",
        ConnectionCloseReason::TransportLost => "transport-lost",
    }
}

/// Returns the application error code with which a QUIC connection is closed.
pub fn close_code(reason: &ConnectionCloseReason) -> (code: u32)
    ensures
        code == (if *reason == ConnectionCloseReason::ProtocolViolation {
            QUIC_APP_ERROR_PROTOCOL
        } else {
            QUIC_APP_ERROR_SHUTDOWN
        }),
{
    match reason {
        ConnectionCloseReason::ProtocolViolation => QUIC_APP_ERROR_PROTOCOL,
        _ => QUIC_APP_ERROR_SHUTDOWN,
    }
}

/// What a packet on a data flow leads to.
#[derive(Clone, Copy, Debug, PartialEq, Eq, Structural)]
pub enum DataPacketAction {
    /// The packet is passed on.
    Emit,
    /// The flow is reset.
    ResetFlow,
    /// The connection is closed.
    CloseConnection,
}

/// Whether a packet carries application traffic: a message, a step of its delivery, or a
/// request to subscribe or unsubscribe.
pub open spec fn is_application_packet(packet: MqttPacket) -> bool {
    match packet {
        MqttPacket::V3(packet) => packet is Publish || packet is PublishAck
            || packet is PublishReceived || packet is PublishRelease || packet is PublishComplete
            || packet is Subscribe || packet is Unsubscribe,
        MqttPacket::V5(packet) => packet is Publish || packet is PublishAck
            || packet is PublishReceived || packet is PublishRelease || packet is PublishComplete
            || packet is Subscribe || packet is Unsubscribe,
        MqttPacket::Version(_) => false,
    }
}

/// Whether a packet is a ping or the answer to one.
pub open spec fn is_ping(packet: MqttPacket) -> bool {
    match packet {
        MqttPacket::V3(packet) => packet is PingRequest || packet is PingResponse,
        MqttPacket::V5(packet) => packet is PingRequest || packet is PingResponse,
        MqttPacket::Version(_) => false,
    }
}

/// What a packet on a data flow leads to.
pub open spec fn data_packet_action(packet: MqttPacket) -> DataPacketAction {
    if is_application_packet(packet) {
        DataPacketAction::Emit
    } else if is_ping(packet) {
        DataPacketAction::ResetFlow
    } else {
        DataPacketAction::CloseConnection
    }
}

fn classify_v3_data_packet(packet: &PacketV3) -> (action: DataPacketAction)
    ensures
        action == data_packet_action(MqttPacket::V3(*packet)),
{
    match packet {
        PacketV3::Publish(_)
        | PacketV3::PublishAck { .. }
        | PacketV3::PublishReceived { .. }
        | PacketV3::PublishRelease { .. }
        | PacketV3::PublishComplete { .. }
        | PacketV3::Subscribe { .. }
        | PacketV3::Unsubscribe { .. } => DataPacketAction::Emit,
        PacketV3::PingRequest | PacketV3::PingResponse => DataPacketAction::ResetFlow,
        PacketV3::Connect(_)
        | PacketV3::ConnectAck(_)
        | PacketV3::Disconnect
        | PacketV3::SubscribeAck { .. }
        | PacketV3::UnsubscribeAck { .. } => DataPacketAction::CloseConnection,
    }
}

fn classify_v5_data_packet(packet: &PacketV5) -> (action: DataPacketAction)
    ensures
        action == data_packet_action(MqttPacket::V5(*packet)),
{
    match packet {
        PacketV5::Publish(_)
        | PacketV5::PublishAck(_)
        | PacketV5::PublishReceived(_)
        | PacketV5::PublishRelease(_)
        | PacketV5::PublishComplete(_)
        | PacketV5::Subscribe(_)
        | PacketV5::Unsubscribe(_) => DataPacketAction::Emit,
        PacketV5::PingRequest | PacketV5::PingResponse => DataPacketAction::ResetFlow,
        PacketV5::Connect(_)
        | PacketV5::ConnectAck(_)
        | PacketV5::SubscribeAck(_)
        | PacketV5::UnsubscribeAck(_)
        | PacketV5::Disconnect(_)
        | PacketV5::Auth(_) => DataPacketAction::CloseConnection,
    }
}

/// Tells what a packet on a data flow leads to.
pub fn classify_data_packet(packet: &MqttPacket) -> (action: DataPacketAction)
    ensures
        action == data_packet_action(*packet),
{
    match packet {
        MqttPacket::V3(packet) => classify_v3_data_packet(packet),
        MqttPacket::V5(packet) => classify_v5_data_packet(packet),
        MqttPacket::Version(_) => DataPacketAction::CloseConnection,
    }
}

/// Bytes of packets that have been read from a connection and not yet been taken up.
#[derive(Debug)]
pub struct ConnectionBufferBudget {
    limit: usize,
    used: usize,
}

impl ConnectionBufferBudget {
    #[verifier::type_invariant]
    spec fn within_limit(self) -> bool {
        self.used <= self.limit
    }

    /// Most bytes that may be reserved at a time.
    pub closed spec fn limit(&self) -> int {
        self.limit as int
    }

    /// Bytes that are reserved.
    pub closed spec fn used(&self) -> int {
        self.used as int
    }

    /// Creates a budget of which nothing is reserved.
    pub fn new(limit: usize) -> (budget: ConnectionBufferBudget)
        ensures
            budget.limit() == limit,
            budget.used() == 0,
    {
        ConnectionBufferBudget { limit, used: 0 }
    }

    /// Reserves `bytes` where the limit allows it, and returns whether it does.
    pub fn try_reserve(&mut self, bytes: usize) -> (reserved: bool)
        ensures
            reserved == (old(self).used() + bytes <= old(self).limit()),
            final(self).limit() == old(self).limit(),
            final(self).used() == (if reserved {
                old(self).used() + bytes
            } else {
                old(self).used()
            }),
            final(self).used() <= final(self).limit(),
    {
        proof {
            use_type_invariant(&*self);
        }
        match self.used.checked_add(bytes) {
            Some(next) => {
                if next > self.limit {
                    return false;
                }
                self.used = next;
                true
            },
            None => false,
        }
    }

    /// Gives reserved bytes back.
    pub fn release(&mut self, bytes: usize)
        requires
            bytes <= old(self).used(),
        ensures
            final(self).limit() == old(self).limit(),
            final(self).used() == old(self).used() - bytes,
            final(self).used() <= final(self).limit(),
    {
        proof {
            use_type_invariant(&*self);
        }
        self.used = self.used - bytes;
    }

    /// Returns the number of bytes that are reserved.
    pub fn reserved(&self) -> (bytes: usize)
        ensures
            bytes == self.used(),
            bytes <= self.limit(),
    {
        proof {
            use_type_invariant(self);
        }
        self.used
    }
}

/// An event on its way from a flow to the link, with the bytes that are reserved for it.
#[derive(Debug)]
pub struct QueuedLinkEvent {
    /// The event.
    pub event: LinkEvent,
    /// Bytes that are reserved until the event is taken up.
    pub buffered_bytes: usize,
}

impl QueuedLinkEvent {
    /// An event for which nothing is reserved.
    pub open spec fn spec_unbuffered(event: LinkEvent) -> QueuedLinkEvent {
        QueuedLinkEvent { event, buffered_bytes: 0 }
    }

    /// Returns an event for which nothing is reserved.
    #[verifier::when_used_as_spec(spec_unbuffered)]
    pub fn unbuffered(event: LinkEvent) -> (queued: QueuedLinkEvent)
        ensures
            queued == QueuedLinkEvent::unbuffered(event),
    {
        QueuedLinkEvent { event, buffered_bytes: 0 }
    }

    /// A packet for which its bytes are reserved.
    pub open spec fn spec_packet(
        packet: MqttPacket,
        reply_path: ReplyPath,
        buffered_bytes: usize,
    ) -> QueuedLinkEvent {
        QueuedLinkEvent { event: LinkEvent::Packet { packet, reply_path }, buffered_bytes }
    }

    /// Returns a packet for which its bytes are reserved.
    #[verifier::when_used_as_spec(spec_packet)]
    pub fn packet(packet: MqttPacket, reply_path: ReplyPath, buffered_bytes: usize) -> (queued:
        QueuedLinkEvent)
        ensures
            queued == QueuedLinkEvent::packet(packet, reply_path, buffered_bytes),
    {
        QueuedLinkEvent { event: LinkEvent::Packet { packet, reply_path }, buffered_bytes }
    }
}

/// MQTT version of the streams of a connection.
#[derive(Clone, Copy, Debug, PartialEq, Eq, Structural)]
pub enum StreamVersion {
    V3,
    V5,
}

impl StreamVersion {
    /// Whether a packet has the version.
    pub open spec fn carries(self, packet: MqttPacket) -> bool {
        match self {
            StreamVersion::V3 => packet is V3,
            StreamVersion::V5 => packet is V5,
        }
    }

    fn is_version_of(self, packet: &MqttPacket) -> (same: bool)
        ensures
            same == self.carries(*packet),
    {
        match (self, packet) {
            (StreamVersion::V3, MqttPacket::V3(_)) => true,
            (StreamVersion::V5, MqttPacket::V5(_)) => true,
            _ => false,
        }
    }
}

/// Checks what a stream has yielded: a packet and its size in bytes, a failure, or its end.
pub fn next_packet(version: StreamVersion, item: Option<Result<(MqttPacket, u32), LinkError>>) -> (
next: Result<Option<(MqttPacket, usize)>, LinkError>)
    ensures
        next == (match item {
            Some(Ok((packet, bytes))) => if version.carries(packet) {
                Ok(Some((packet, bytes as usize)))
            } else {
                Err(LinkError::StreamVersionMismatch)
            },
            Some(Err(error)) => Err(error),
            None => Ok(None),
        }),
{
    match item {
        Some(Ok((packet, bytes))) => if version.is_version_of(&packet) {
            Ok(Some((packet, bytes as usize)))
        } else {
            Err(LinkError::StreamVersionMismatch)
        },
        Some(Err(error)) => Err(error),
        None => Ok(None),
    }
}

/// Checks that a packet can be written to a stream of the version.
pub fn send_packet(version: StreamVersion, packet: &MqttPacket) -> (checked: Result<(), LinkError>)
    ensures
        checked == (if version.carries(*packet) {
            Ok::<(), LinkError>(())
        } else {
            Err::<(), LinkError>(LinkError::StreamVersionMismatch)
        }),
{
    if version.is_version_of(packet) {
        Ok(())
    } else {
        Err(LinkError::StreamVersionMismatch)
    }
}

/// How reading from a stream failed.
#[derive(Clone, Copy, Debug, PartialEq, Eq, Structural)]
pub enum ReadFailure {
    /// The peer reset the stream with the given code.
    Reset(u64),
    /// The connection was lost.
    ConnectionLost,
    /// The stream had been finished, stopped or reset before.
    ClosedStream,
    /// Bytes were read out of order before.
    IllegalOrderedRead,
    /// The early data that opened the stream were refused.
    ZeroRttRejected,
}

/// How writing to a stream failed.
#[derive(Clone, Copy, Debug, PartialEq, Eq, Structural)]
pub enum WriteFailure {
    /// The peer asked to stop with the given code.
    Stopped(u64),
    /// The connection was lost.
    ConnectionLost,
    /// The stream had been finished or reset before.
    ClosedStream,
    /// The early data that opened the stream were refused.
    ZeroRttRejected,
}

/// What the link asks of a flow.
#[derive(Debug)]
pub enum FlowCommandKind {
    /// Write a packet.
    Send(MqttPacket),
    /// Write out what is buffered.
    Flush,
    /// End the flow.
    Close(FlowCloseReason),
}

/// What is done to the stream of a flow.
#[derive(Debug)]
pub enum StreamAction {
    /// Nothing.
    Keep,
    /// A packet is written.
    Write(MqttPacket),
    /// What is buffered is written out.
    Flush,
    /// The stream is finished.
    Close,
    /// Both directions are reset with the given application error code.
    Abort(u32),
}

/// What is done to the stream for a command, and the reason with which the flow then ends.
pub open spec fn command_begun(request: FlowCommandKind) -> (StreamAction, Option<FlowCloseReason>) {
    match request {
        FlowCommandKind::Send(packet) => (StreamAction::Write(packet), None),
        FlowCommandKind::Flush => (StreamAction::Flush, None),
        FlowCommandKind::Close(reason) => (
            if reason == FlowCloseReason::ProtocolViolation || reason
                == FlowCloseReason::CodecMalformed {
                StreamAction::Abort(QUIC_APP_ERROR_PROTOCOL)
            } else {
                StreamAction::Close
            },
            Some(reason),
        ),
    }
}

/// Tells what a command does to the stream, and the reason with which the flow then ends.
pub fn handle_flow_command(request: FlowCommandKind) -> (begun: (
    StreamAction,
    Option<FlowCloseReason>,
))
    ensures
        begun == command_begun(request),
{
    match request {
        FlowCommandKind::Send(packet) => (StreamAction::Write(packet), None),
        FlowCommandKind::Flush => (StreamAction::Flush, None),
        FlowCommandKind::Close(reason) => {
            let action = match reason {
                FlowCloseReason::ProtocolViolation | FlowCloseReason::CodecMalformed => {
                    StreamAction::Abort(QUIC_APP_ERROR_PROTOCOL)
                },
                _ => StreamAction::Close,
            };
            (action, Some(reason))
        },
    }
}

/// What the task of a flow does next, in this order: it reports an event, it acts on the
/// stream, and it ends or goes on.
#[derive(Debug)]
pub struct FlowStep {
    /// Event to report. Where the link no longer takes events, the bytes that are reserved
    /// for it are given back and the task ends.
    pub emit: Option<QueuedLinkEvent>,
    /// What is done to the stream.
    pub stream: StreamAction,
    /// Whether the task ends.
    pub ends: bool,
}

/// One flow of a connection.
#[derive(Clone, Copy, Debug, PartialEq, Eq, Structural)]
pub struct FlowContext {
    /// Identifier of the flow.
    pub flow_id: FlowId,
    /// Role of the flow.
    pub flow_kind: FlowKind,
    /// Generation of the link.
    pub generation: u64,
}

/// The event for the end of a connection.
pub open spec fn connection_closed(reason: ConnectionCloseReason) -> QueuedLinkEvent {
    QueuedLinkEvent::unbuffered(LinkEvent::ConnectionClosed { reason })
}

/// The step that reports the end of the connection and ends the task.
pub open spec fn closing_step(reason: ConnectionCloseReason) -> FlowStep {
    FlowStep { emit: Some(connection_closed(reason)), stream: StreamAction::Keep, ends: true }
}

fn emit_connection_closed(reason: ConnectionCloseReason) -> (step: FlowStep)
    ensures
        step == closing_step(reason),
{
    FlowStep {
        emit: Some(QueuedLinkEvent::unbuffered(LinkEvent::ConnectionClosed { reason })),
        stream: StreamAction::Keep,
        ends: true,
    }
}

impl FlowContext {
    /// The path on which packets of the flow are answered.
    pub open spec fn path(self) -> ReplyPath {
        ReplyPath {
            flow_id: self.flow_id,
            flow_kind: self.flow_kind,
            generation: self.generation,
        }
    }

    /// The event for the end of the flow: the end of the control flow is that of the
    /// connection.
    pub open spec fn flow_closed(self, reason: FlowCloseReason) -> QueuedLinkEvent {
        match self.flow_kind {
            FlowKind::Control => connection_closed(ConnectionCloseReason::ControlFlowClosed),
            FlowKind::Data => QueuedLinkEvent::unbuffered(
                LinkEvent::FlowClosed { flow_id: self.flow_id, reason },
            ),
        }
    }

    /// The step that reports the end of the flow, acts on the stream and ends the task.
    pub open spec fn ending_step(self, reason: FlowCloseReason, stream: StreamAction) -> FlowStep {
        FlowStep { emit: Some(self.flow_closed(reason)), stream, ends: true }
    }

    /// The step after a packet has been read, where `fits` says whether its bytes could be
    /// reserved.
    pub open spec fn packet_step(self, packet: MqttPacket, bytes: usize, fits: bool) -> FlowStep {
        let passed_on = FlowStep {
            emit: Some(QueuedLinkEvent::packet(packet, self.path(), bytes)),
            stream: StreamAction::Keep,
            ends: false,
        };
        match self.flow_kind {
            FlowKind::Control => if fits {
                passed_on
            } else {
                closing_step(ConnectionCloseReason::ResourceLimit)
            },
            FlowKind::Data => match data_packet_action(packet) {
                DataPacketAction::Emit => if fits {
                    passed_on
                } else {
                    self.ending_step(
                        FlowCloseReason::ResourceLimit,
                        StreamAction::Abort(QUIC_APP_ERROR_PROTOCOL),
                    )
                },
                DataPacketAction::ResetFlow => self.ending_step(
                    FlowCloseReason::ProtocolViolation,
                    StreamAction::Abort(QUIC_APP_ERROR_PROTOCOL),
                ),
                DataPacketAction::CloseConnection => closing_step(
                    ConnectionCloseReason::ProtocolViolation,
                ),
            },
        }
    }

    /// Whether the bytes of a packet are reserved before it is passed on.
    pub open spec fn reserves(self, packet: MqttPacket) -> bool {
        self.flow_kind == FlowKind::Control || is_application_packet(packet)
    }

    /// The step after the stream has failed to be read.
    pub open spec fn read_failed_step(self, failure: Option<ReadFailure>) -> FlowStep {
        match (failure, self.flow_kind) {
            (Some(ReadFailure::ConnectionLost), _) => closing_step(
                ConnectionCloseReason::TransportLost,
            ),
            (Some(ReadFailure::Reset(code)), FlowKind::Data) => self.ending_step(
                FlowCloseReason::RecvReset(code),
                StreamAction::Keep,
            ),
            (Some(ReadFailure::ClosedStream), FlowKind::Data) => self.ending_step(
                FlowCloseReason::RecvFinished,
                StreamAction::Keep,
            ),
            (Some(ReadFailure::Reset(_)), FlowKind::Control) => closing_step(
                ConnectionCloseReason::ControlFlowClosed,
            ),
            (Some(ReadFailure::ClosedStream), FlowKind::Control) => closing_step(
                ConnectionCloseReason::ControlFlowClosed,
            ),
            _ => closing_step(ConnectionCloseReason::ProtocolViolation),
        }
    }

    /// The step after a command has failed.
    pub open spec fn write_failed_step(self, failure: Option<WriteFailure>) -> FlowStep {
        match (failure, self.flow_kind) {
            (Some(WriteFailure::ConnectionLost), _) => closing_step(
                ConnectionCloseReason::TransportLost,
            ),
            (Some(WriteFailure::ZeroRttRejected), _) => closing_step(
                ConnectionCloseReason::ProtocolViolation,
            ),
            (Some(WriteFailure::Stopped(code)), FlowKind::Data) => self.ending_step(
                FlowCloseReason::SendStopped(code),
                StreamAction::Keep,
            ),
            (_, FlowKind::Data) => self.ending_step(
                FlowCloseReason::SendFailed,
                StreamAction::Keep,
            ),
            (_, FlowKind::Control) => closing_step(ConnectionCloseReason::ControlFlowClosed),
        }
    }

    /// The step after a command has been carried out: the flow ends where the command closes
    /// it.
    pub open spec fn command_done_step(self, closing: Option<FlowCloseReason>) -> FlowStep {
        match closing {
            Some(reason) => self.ending_step(reason, StreamAction::Keep),
            None => FlowStep { emit: None, stream: StreamAction::Keep, ends: false },
        }
    }

    /// The step after the peer has finished the stream.
    pub open spec fn finished_step(self) -> FlowStep {
        self.ending_step(FlowCloseReason::RecvFinished, StreamAction::Keep)
    }

    /// The step after no packet has arrived for too long.
    pub open spec fn idle_step(self) -> FlowStep {
        self.ending_step(FlowCloseReason::IdleTimeout, StreamAction::Close)
    }

    /// Creates the context of the control flow.
    pub fn control(generation: u64) -> (context: FlowContext)
        ensures
            context == (FlowContext {
                flow_id: FlowId::control(),
                flow_kind: FlowKind::Control,
                generation,
            }),
    {
        FlowContext { flow_id: FlowId::control(), flow_kind: FlowKind::Control, generation }
    }

    /// Creates the context of a data flow.
    pub fn data(flow_id: FlowId, generation: u64) -> (context: FlowContext)
        ensures
            context == (FlowContext { flow_id, flow_kind: FlowKind::Data, generation }),
    {
        FlowContext { flow_id, flow_kind: FlowKind::Data, generation }
    }

    /// Returns the path on which packets of the flow are answered.
    pub fn reply_path(self) -> (path: ReplyPath)
        ensures
            path == self.path(),
    {
        ReplyPath::new(self.flow_id, self.flow_kind, self.generation)
    }

    fn emit_flow_closed(self, reason: FlowCloseReason, stream: StreamAction) -> (step: FlowStep)
        ensures
            step == self.ending_step(reason, stream),
    {
        let event = match self.flow_kind {
            FlowKind::Control => LinkEvent::ConnectionClosed {
                reason: ConnectionCloseReason::ControlFlowClosed,
            },
            FlowKind::Data => LinkEvent::FlowClosed { flow_id: self.flow_id, reason },
        };
        FlowStep { emit: Some(QueuedLinkEvent::unbuffered(event)), stream, ends: true }
    }

    fn pass_on(self, packet: MqttPacket, bytes: usize) -> (step: FlowStep)
        ensures
            step == (FlowStep {
                emit: Some(QueuedLinkEvent::packet(packet, self.path(), bytes)),
                stream: StreamAction::Keep,
                ends: false,
            }),
    {
        FlowStep {
            emit: Some(QueuedLinkEvent::packet(packet, self.reply_path(), bytes)),
            stream: StreamAction::Keep,
            ends: false,
        }
    }

    /// Tells what follows once nobody can send commands any more: the stream is finished.
    pub fn on_commands_gone(self) -> (step: FlowStep)
        ensures
            step == (FlowStep { emit: None, stream: StreamAction::Close, ends: true }),
    {
        FlowStep { emit: None, stream: StreamAction::Close, ends: true }
    }

    /// Tells what follows a command that has been carried out and confirmed; `closing` is the
    /// reason with which the command ends the flow.
    pub fn on_command_done(self, closing: Option<FlowCloseReason>) -> (step: FlowStep)
        ensures
            step == self.command_done_step(closing),
    {
        match closing {
            Some(reason) => self.emit_flow_closed(reason, StreamAction::Keep),
            None => FlowStep { emit: None, stream: StreamAction::Keep, ends: false },
        }
    }

    /// Tells what follows a command that failed; `failure` is what the stream has remembered
    /// of its last write.
    pub fn on_command_failed(self, failure: Option<WriteFailure>) -> (step: FlowStep)
        ensures
            step == self.write_failed_step(failure),
    {
        match (failure, self.flow_kind) {
            (Some(WriteFailure::Stopped(code)), FlowKind::Data) => self.emit_flow_closed(
                FlowCloseReason::SendStopped(code),
                StreamAction::Keep,
            ),
            (Some(WriteFailure::ConnectionLost), _) => emit_connection_closed(
                ConnectionCloseReason::TransportLost,
            ),
            (Some(WriteFailure::Stopped(_)), FlowKind::Control) => emit_connection_closed(
                ConnectionCloseReason::ControlFlowClosed,
            ),
            (Some(WriteFailure::ClosedStream), FlowKind::Control) => emit_connection_closed(
                ConnectionCloseReason::ControlFlowClosed,
            ),
            (Some(WriteFailure::ZeroRttRejected), _) => emit_connection_closed(
                ConnectionCloseReason::ProtocolViolation,
            ),
            (_, FlowKind::Data) => self.emit_flow_closed(
                FlowCloseReason::SendFailed,
                StreamAction::Keep,
            ),
            (_, FlowKind::Control) => emit_connection_closed(
                ConnectionCloseReason::ControlFlowClosed,
            ),
        }
    }

    /// Tells what follows a packet that has been read, and reserves its bytes where it is
    /// passed on.
    pub fn on_packet(
        self,
        packet: MqttPacket,
        buffered_bytes: usize,
        budget: &mut ConnectionBufferBudget,
    ) -> (step: FlowStep)
        ensures
            ({
                let fits = old(budget).used() + buffered_bytes <= old(budget).limit();
                &&& step == self.packet_step(packet, buffered_bytes, fits)
                &&& final(budget).limit() == old(budget).limit()
                &&& final(budget).used() == (if fits && self.reserves(packet) {
                    old(budget).used() + buffered_bytes
                } else {
                    old(budget).used()
                })
            }),
    {
        match self.flow_kind {
            FlowKind::Data => match classify_data_packet(&packet) {
                DataPacketAction::Emit => {
                    if !budget.try_reserve(buffered_bytes) {
                        return self.emit_flow_closed(
                            FlowCloseReason::ResourceLimit,
                            StreamAction::Abort(QUIC_APP_ERROR_PROTOCOL),
                        );
                    }
                    self.pass_on(packet, buffered_bytes)
                },
                DataPacketAction::ResetFlow => self.emit_flow_closed(
                    FlowCloseReason::ProtocolViolation,
                    StreamAction::Abort(QUIC_APP_ERROR_PROTOCOL),
                ),
                DataPacketAction::CloseConnection => emit_connection_closed(
                    ConnectionCloseReason::ProtocolViolation,
                ),
            },
            FlowKind::Control => {
                if !budget.try_reserve(buffered_bytes) {
                    return emit_connection_closed(ConnectionCloseReason::ResourceLimit);
                }
                self.pass_on(packet, buffered_bytes)
            },
        }
    }

    /// Tells what follows once the peer has finished the stream.
    pub fn on_finished(self) -> (step: FlowStep)
        ensures
            step == self.finished_step(),
    {
        let reason = match self.flow_kind {
            FlowKind::Control => FlowCloseReason::ConnectionLost,
            FlowKind::Data => FlowCloseReason::RecvFinished,
        };
        self.emit_flow_closed(reason, StreamAction::Keep)
    }

    /// Tells what follows a failure to read a packet; `failure` is what the stream has
    /// remembered of its last read.
    pub fn on_read_failed(self, failure: Option<ReadFailure>) -> (step: FlowStep)
        ensures
            step == self.read_failed_step(failure),
    {
        match (failure, self.flow_kind) {
            (Some(ReadFailure::Reset(code)), FlowKind::Data) => self.emit_flow_closed(
                FlowCloseReason::RecvReset(code),
                StreamAction::Keep,
            ),
            (Some(ReadFailure::ClosedStream), FlowKind::Data) => self.emit_flow_closed(
                FlowCloseReason::RecvFinished,
                StreamAction::Keep,
            ),
            (Some(ReadFailure::ConnectionLost), _) => emit_connection_closed(
                ConnectionCloseReason::TransportLost,
            ),
            (Some(ReadFailure::Reset(_)), FlowKind::Control) => emit_connection_closed(
                ConnectionCloseReason::ControlFlowClosed,
            ),
            (Some(ReadFailure::ClosedStream), FlowKind::Control) => emit_connection_closed(
                ConnectionCloseReason::ControlFlowClosed,
            ),
            _ => emit_connection_closed(ConnectionCloseReason::ProtocolViolation),
        }
    }

    /// Tells what follows once no packet has arrived for too long.
    pub fn on_idle(self) -> (step: FlowStep)
        ensures
            step == self.idle_step(),
    {
        self.emit_flow_closed(FlowCloseReason::IdleTimeout, StreamAction::Close)
    }
}

/// Returns whether a flow is watched for idleness: only where there is a timeout.
pub fn watches_idleness(idle_timeout: Duration) -> (watches: bool)
    ensures
        watches == (idle_timeout.nanos != 0),
{
    !idle_timeout.is_zero()
}

/// The limits under which a connection is activated.
#[derive(Clone, Copy, Debug, PartialEq, Eq, Structural)]
pub struct LinkSettings {
    /// Most data streams that the peer may have open.
    pub max_data_streams: u32,
    /// Bidirectional streams that the peer may have open, the control stream among them.
    pub bi_stream_credit: u32,
    /// Events that may wait in each mailbox.
    pub mailbox_packets: usize,
    /// Bytes of packets that may wait.
    pub buffer_limit: usize,
    /// Receive window of the connection.
    pub receive_window: u32,
}

/// Returns the limits under which a connection is activated, from what was agreed with the
/// client and what the listener is configured for.
pub fn link_settings(
    max_data_streams: u32,
    configured_max_data_streams: u32,
    mailbox_packets: usize,
    buffer_bytes: usize,
) -> (settings: LinkSettings)
    ensures
        settings.max_data_streams == (if max_data_streams <= configured_max_data_streams {
            if max_data_streams == u32::MAX {
                (u32::MAX - 1) as u32
            } else {
                max_data_streams
            }
        } else {
            configured_max_data_streams
        }),
        settings.bi_stream_credit == settings.max_data_streams + 1,
        settings.mailbox_packets == (if mailbox_packets == 0 {
            1
        } else {
            mailbox_packets
        }),
        settings.buffer_limit == (if buffer_bytes == 0 {
            1
        } else {
            buffer_bytes
        }),
        settings.receive_window == (if buffer_bytes == 0 {
            1
        } else if buffer_bytes > u32::MAX {
            u32::MAX as int
        } else {
            buffer_bytes as int
        }),
{
    let mut limit: u32 = max_data_streams;
    if limit > configured_max_data_streams {
        limit = configured_max_data_streams;
    }
    if limit == u32::MAX {
        limit = u32::MAX - 1;
    }
    let buffer_limit: usize = if buffer_bytes == 0 {
        1
    } else {
        buffer_bytes
    };
    let receive_window: u32 = if buffer_limit as u64 > u32::MAX as u64 {
        u32::MAX
    } else {
        buffer_limit as u32
    };
    LinkSettings {
        max_data_streams: limit,
        bi_stream_credit: 1 + limit,
        mailbox_packets: if mailbox_packets == 0 {
            1
        } else {
            mailbox_packets
        },
        buffer_limit,
        receive_window,
    }
}

/// What follows a stream that the peer has opened.
#[derive(Clone, Copy, Debug, PartialEq, Eq, Structural)]
pub enum SupervisorAction {
    /// The stream becomes a data flow.
    Open(FlowContext),
    /// The connection is closed.
    Close(ConnectionCloseReason),
}

/// The nanoseconds over which the opening of streams is counted.
pub const RATE_WINDOW_NANOS: u128 = 1_000_000_000;

/// Watch over the streams that the peer opens.
#[derive(Clone, Copy, Debug, PartialEq, Eq, Structural)]
pub struct Supervisor {
    /// Generation of the link.
    pub generation: u64,
    /// Most data streams that were agreed.
    pub max_data_streams: u32,
    /// Most streams that may be opened in one second.
    pub stream_open_rate: u32,
    /// Number of the next data flow.
    pub next_ordinal: u64,
    /// When the counted second began.
    pub rate_window_start: Instant,
    /// Streams that were opened in the counted second.
    pub opened_in_window: u32,
}

impl Supervisor {
    /// Streams that were opened in the second that is counted at `now`.
    pub open spec fn opened_at(self, now: Instant) -> u32 {
        if now.since(self.rate_window_start) >= RATE_WINDOW_NANOS {
            0
        } else {
            self.opened_in_window
        }
    }

    /// Whether the peer may open a stream at `now`.
    pub open spec fn may_open(self, now: Instant) -> bool {
        self.max_data_streams > 0 && self.opened_at(now) < self.stream_open_rate
    }

    /// The watch after the peer has opened a stream at `now`.
    pub open spec fn after_stream(self, now: Instant) -> Supervisor {
        let window = Supervisor {
            rate_window_start: if now.since(self.rate_window_start) >= RATE_WINDOW_NANOS {
                now
            } else {
                self.rate_window_start
            },
            opened_in_window: self.opened_at(now),
            ..self
        };
        if self.max_data_streams == 0 {
            self
        } else if self.may_open(now) {
            Supervisor {
                opened_in_window: (self.opened_at(now) + 1) as u32,
                next_ordinal: if self.next_ordinal < u64::MAX {
                    (self.next_ordinal + 1) as u64
                } else {
                    u64::MAX
                },
                ..window
            }
        } else {
            window
        }
    }

    /// Creates the watch over the streams of a connection.
    pub fn new(generation: u64, max_data_streams: u32, stream_open_rate: u32, now: Instant) -> (
    supervisor: Supervisor)
        ensures
            supervisor == (Supervisor {
                generation,
                max_data_streams,
                stream_open_rate: if stream_open_rate == 0 {
                    1
                } else {
                    stream_open_rate
                },
                next_ordinal: 1,
                rate_window_start: now,
                opened_in_window: 0,
            }),
    {
        Supervisor {
            generation,
            max_data_streams,
            stream_open_rate: if stream_open_rate == 0 {
                1
            } else {
                stream_open_rate
            },
            next_ordinal: 1,
            rate_window_start: now,
            opened_in_window: 0,
        }
    }

    /// Tells what follows a stream that the peer has opened at `now`.
    pub fn on_stream(&mut self, now: Instant) -> (action: SupervisorAction)
        ensures
            action == (if old(self).may_open(now) {
                SupervisorAction::Open(
                    FlowContext {
                        flow_id: FlowId(old(self).next_ordinal),
                        flow_kind: FlowKind::Data,
                        generation: old(self).generation,
                    },
                )
            } else {
                SupervisorAction::Close(ConnectionCloseReason::ProtocolViolation)
            }),
            *final(self) == old(self).after_stream(now),
    {
        if self.max_data_streams == 0 {
            return SupervisorAction::Close(ConnectionCloseReason::ProtocolViolation);
        }
        if now.duration_since(self.rate_window_start).nanos >= RATE_WINDOW_NANOS {
            self.rate_window_start = now;
            self.opened_in_window = 0;
        }
        if self.opened_in_window >= self.stream_open_rate {
            return SupervisorAction::Close(ConnectionCloseReason::ProtocolViolation);
        }
        self.opened_in_window = self.opened_in_window + 1;
        let flow_id = FlowId::new(self.next_ordinal);
        self.next_ordinal = self.next_ordinal.saturating_add(1);
        SupervisorAction::Open(FlowContext::data(flow_id, self.generation))
    }

    /// Tells what follows the end of the connection under the watch.
    pub fn on_accept_failed(&self) -> (action: SupervisorAction)
        ensures
            action == SupervisorAction::Close(ConnectionCloseReason::TransportLost),
    {
        SupervisorAction::Close(ConnectionCloseReason::TransportLost)
    }
}

/// What the supervisor tells the link; `H` is what it takes to reach the task of a flow.
#[derive(Debug)]
pub enum SupervisorEvent<H> {
    /// A data flow has been opened.
    FlowOpened {
        /// Identifier of the flow.
        flow_id: FlowId,
        /// What it takes to reach its task.
        handle: H,
    },
    /// The connection has to be closed.
    ConnectionClosed {
        /// Cause of the closure.
        reason: ConnectionCloseReason,
    },
}

/// A flow to send on, and the path that the receipt names.
#[derive(Clone, Copy, Debug, PartialEq, Eq, Structural)]
pub struct ResolvedTarget {
    /// Flow to send on.
    pub flow_id: FlowId,
    /// Path that the receipt names.
    pub path: ReplyPath,
}

/// What a link goes by.
#[verifier::ext_equal]
pub struct LinkView<H> {
    /// Generation of the link.
    pub generation: u64,
    /// Active data flows, by their numbers.
    pub flows: Map<u64, H>,
    /// Whether the control flow has ended.
    pub control_closed: bool,
    /// Whether the connection has ended.
    pub closed: bool,
}

impl<H> LinkView<H> {
    /// The target on the control flow.
    pub open spec fn control_target(self) -> ResolvedTarget {
        ResolvedTarget {
            flow_id: FlowId::control(),
            path: ReplyPath {
                flow_id: FlowId::control(),
                flow_kind: FlowKind::Control,
                generation: self.generation,
            },
        }
    }

    /// The target on a data flow.
    pub open spec fn data_target(self, flow_id: FlowId) -> ResolvedTarget {
        ResolvedTarget {
            flow_id,
            path: ReplyPath {
                flow_id,
                flow_kind: FlowKind::Data,
                generation: self.generation,
            },
        }
    }

    /// The flow that a target denotes. A reply goes to its own flow only, and only within the
    /// generation in which its path was issued.
    pub open spec fn resolved(self, target: SendTarget) -> Result<ResolvedTarget, LinkError> {
        match target {
            SendTarget::Control => Ok(self.control_target()),
            SendTarget::Bound(flow_id) => if flow_id == FlowId::control() {
                Ok(self.control_target())
            } else if self.flows.contains_key(flow_id.0) {
                Ok(self.data_target(flow_id))
            } else {
                Err(LinkError::FlowNotActive(flow_id))
            },
            SendTarget::Reply(path) => if path.generation != self.generation {
                Err(LinkError::StaleReplyPath)
            } else {
                match path.flow_kind {
                    FlowKind::Control => if path.flow_id == FlowId::control() {
                        Ok(self.control_target())
                    } else {
                        Err(LinkError::InvalidControlPath)
                    },
                    FlowKind::Data => if self.flows.contains_key(path.flow_id.0) {
                        Ok(self.data_target(path.flow_id))
                    } else {
                        Err(LinkError::FlowNotActive(path.flow_id))
                    },
                }
            },
        }
    }

    /// The link after an event of a flow.
    pub open spec fn after_event(self, event: LinkEvent) -> LinkView<H> {
        match event {
            LinkEvent::FlowClosed { flow_id, .. } => if flow_id == FlowId::control() {
                LinkView { control_closed: true, closed: true, ..self }
            } else {
                LinkView { flows: self.flows.remove(flow_id.0), ..self }
            },
            LinkEvent::ConnectionClosed { .. } => LinkView { closed: true, ..self },
            LinkEvent::Packet { .. } => self,
        }
    }

    /// The link after an event of the supervisor.
    pub open spec fn after_supervisor(self, event: SupervisorEvent<H>) -> LinkView<H> {
        match event {
            SupervisorEvent::FlowOpened { flow_id, handle } => LinkView {
                flows: self.flows.insert(flow_id.0, handle),
                ..self
            },
            SupervisorEvent::ConnectionClosed { .. } => LinkView { closed: true, ..self },
        }
    }
}

/// The reason with which an event closes the QUIC connection, where it does.
pub open spec fn close_reason(event: LinkEvent) -> Option<ConnectionCloseReason> {
    match event {
        LinkEvent::ConnectionClosed { reason } => Some(reason),
        _ => None,
    }
}

/// What the owner of a link does after it has taken something from its mailboxes.
#[derive(Debug)]
pub struct LinkStep {
    /// Reason with which the QUIC connection is closed.
    pub close: Option<ConnectionCloseReason>,
    /// What is reported: an event, the end of the link, or nothing yet.
    pub report: LinkReport,
}

/// What a link reports.
#[derive(Debug)]
pub enum LinkReport {
    /// An event.
    Event(LinkEvent),
    /// The end of the link.
    End,
    /// Nothing yet.
    Wait,
}

/// What reset of a flow takes.
#[derive(Debug)]
pub enum FlowReset<H> {
    /// The connection is closed with the reason.
    CloseConnection(ConnectionCloseReason),
    /// The task of the flow is asked to close it.
    Close(H),
}

/// State of an activated link with one control flow and bounded data flows.
#[derive(Debug)]
pub struct QuicMultiStreamLink<H> {
    generation: u64,
    flows: HashMap<u64, H>,
    control_closed: bool,
    closed: bool,
}

impl<H> View for QuicMultiStreamLink<H> {
    type V = LinkView<H>;

    closed spec fn view(&self) -> LinkView<H> {
        LinkView {
            generation: self.generation,
            flows: self.flows@,
            control_closed: self.control_closed,
            closed: self.closed,
        }
    }
}

impl<H> QuicMultiStreamLink<H> {
    /// Creates the state of a link without data flows.
    pub fn new(generation: u64) -> (link: QuicMultiStreamLink<H>)
        ensures
            link@ == (LinkView::<H> {
                generation,
                flows: Map::empty(),
                control_closed: false,
                closed: false,
            }),
    {
        QuicMultiStreamLink {
            generation,
            flows: HashMap::new(),
            control_closed: false,
            closed: false,
        }
    }

    /// Returns the generation of the link.
    pub fn generation(&self) -> (generation: u64)
        ensures
            generation == self@.generation,
    {
        self.generation
    }

    /// Returns what it takes to reach the task of a data flow.
    pub fn flow(&self, flow_id: FlowId) -> (handle: Option<&H>)
        ensures
            match handle {
                Some(handle) => self@.flows.contains_key(flow_id.0) && self@.flows[flow_id.0]
                    == *handle,
                None => !self@.flows.contains_key(flow_id.0),
            },
    {
        self.flows.get(&flow_id.0)
    }

    /// Finds the flow that a target denotes.
    pub fn resolve_send_target(&self, target: SendTarget) -> (resolved: Result<
        ResolvedTarget,
        LinkError,
    >)
        ensures
            resolved == self@.resolved(target),
    {
        match target {
            SendTarget::Control => Ok(self.control_target()),
            SendTarget::Bound(flow_id) => {
                if flow_id == FlowId::control() {
                    return Ok(self.control_target());
                }
                if !self.flows.contains_key(&flow_id.0) {
                    return Err(LinkError::FlowNotActive(flow_id));
                }
                Ok(
                    ResolvedTarget {
                        flow_id,
                        path: ReplyPath::new(flow_id, FlowKind::Data, self.generation),
                    },
                )
            },
            SendTarget::Reply(path) => {
                if path.generation() != self.generation {
                    return Err(LinkError::StaleReplyPath);
                }
                match path.flow_kind() {
                    FlowKind::Control => if path.flow_id() == FlowId::control() {
                        Ok(ResolvedTarget { flow_id: FlowId::control(), path })
                    } else {
                        Err(LinkError::InvalidControlPath)
                    },
                    FlowKind::Data => if self.flows.contains_key(&path.flow_id().0) {
                        Ok(ResolvedTarget { flow_id: path.flow_id(), path })
                    } else {
                        Err(LinkError::FlowNotActive(path.flow_id()))
                    },
                }
            },
        }
    }

    fn control_target(&self) -> (target: ResolvedTarget)
        ensures
            target == self@.control_target(),
    {
        ResolvedTarget {
            flow_id: FlowId::control(),
            path: ReplyPath::new(FlowId::control(), FlowKind::Control, self.generation),
        }
    }

    /// Takes up an event of the supervisor, and tells what is reported.
    pub fn absorb_supervisor_event(&mut self, event: SupervisorEvent<H>) -> (step: LinkStep)
        ensures
            final(self)@ == old(self)@.after_supervisor(event),
            step == (match event {
                SupervisorEvent::FlowOpened { .. } => LinkStep {
                    close: None,
                    report: LinkReport::Wait,
                },
                SupervisorEvent::ConnectionClosed { reason } => LinkStep {
                    close: Some(reason),
                    report: LinkReport::Event(LinkEvent::ConnectionClosed { reason }),
                },
            }),
    {
        match event {
            SupervisorEvent::FlowOpened { flow_id, handle } => {
                self.flows.insert(flow_id.0, handle);
                LinkStep { close: None, report: LinkReport::Wait }
            },
            SupervisorEvent::ConnectionClosed { reason } => {
                self.closed = true;
                LinkStep {
                    close: Some(reason),
                    report: LinkReport::Event(LinkEvent::ConnectionClosed { reason }),
                }
            },
        }
    }

    /// Takes up an event of a flow, and tells what is reported.
    pub fn absorb_link_event(&mut self, event: LinkEvent) -> (step: LinkStep)
        ensures
            final(self)@ == old(self)@.after_event(event),
            step == (LinkStep {
                close: close_reason(event),
                report: LinkReport::Event(event),
            }),
    {
        let mut close: Option<ConnectionCloseReason> = None;
        match &event {
            LinkEvent::FlowClosed { flow_id, .. } => {
                if *flow_id == FlowId::control() {
                    self.control_closed = true;
                    self.closed = true;
                } else {
                    self.flows.remove(&flow_id.0);
                    assert(self@.flows =~= old(self)@.flows.remove(flow_id.0));
                }
            },
            LinkEvent::ConnectionClosed { reason } => {
                self.closed = true;
                close = Some(*reason);
            },
            LinkEvent::Packet { .. } => {},
        }
        LinkStep { close, report: LinkReport::Event(event) }
    }

    /// Takes up a queued event of a flow, gives back the bytes that were reserved for it, and
    /// tells what is reported.
    pub fn absorb_queued_link_event(
        &mut self,
        queued: QueuedLinkEvent,
        budget: &mut ConnectionBufferBudget,
    ) -> (step: LinkStep)
        requires
            queued.buffered_bytes <= old(budget).used(),
        ensures
            final(self)@ == old(self)@.after_event(queued.event),
            final(budget).limit() == old(budget).limit(),
            final(budget).used() == old(budget).used() - queued.buffered_bytes,
            step == (LinkStep {
                close: close_reason(queued.event),
                report: LinkReport::Event(queued.event),
            }),
    {
        budget.release(queued.buffered_bytes);
        self.absorb_link_event(queued.event)
    }

    /// Returns whether the link has ended, where `mailboxes_closed` says whether no mailbox
    /// of the link will deliver anything any more.
    pub fn has_ended(&self, mailboxes_closed: bool) -> (ended: bool)
        ensures
            ended == (self@.closed && mailboxes_closed),
    {
        self.closed && mailboxes_closed
    }

    /// Tells what is reported once the mailbox of the control flow is found empty and
    /// disconnected: the end of the connection, unless it has been reported.
    pub fn on_control_disconnected(&mut self) -> (report: LinkReport)
        ensures
            final(self)@ == (LinkView {
                control_closed: true,
                closed: old(self)@.closed || !old(self)@.control_closed,
                ..old(self)@
            }),
            report == (if old(self)@.control_closed {
                LinkReport::Wait
            } else {
                LinkReport::Event(
                    LinkEvent::ConnectionClosed { reason: ConnectionCloseReason::ControlFlowClosed },
                )
            }),
    {
        if self.control_closed {
            return LinkReport::Wait;
        }
        self.control_closed = true;
        self.closed = true;
        LinkReport::Event(
            LinkEvent::ConnectionClosed { reason: ConnectionCloseReason::ControlFlowClosed },
        )
    }

    /// Tells what is reported once the supervisor is gone.
    pub fn on_supervisor_gone(&self) -> (report: LinkReport)
        ensures
            report == (if self@.closed {
                LinkReport::End
            } else {
                LinkReport::Wait
            }),
    {
        if self.closed {
            LinkReport::End
        } else {
            LinkReport::Wait
        }
    }

    /// Returns the flows that are flushed: the control flow first, and each data flow once.
    pub fn flush_targets(&self) -> (targets: Vec<ResolvedTarget>)
        ensures
            targets@.len() == self@.flows.dom().len() + 1,
            targets@[0] == self@.control_target(),
            forall|i: int|
                1 <= i < targets@.len() ==> self@.flows.contains_key(
                    (#[trigger] targets@[i]).flow_id.0,
                ) && targets@[i] == self@.data_target(targets@[i].flow_id),
            forall|i: int, j: int|
                1 <= i < j < targets@.len() ==> (#[trigger] targets@[i]).flow_id != (
                #[trigger] targets@[j]).flow_id,
    {
        let mut targets: Vec<ResolvedTarget> = Vec::new();
        targets.push(self.control_target());
        let keys = keys_of(&self.flows);
        let mut i: usize = 0;
        while i < keys.len()
            invariant
                i <= keys@.len(),
                keys@.no_duplicates(),
                keys@.to_set() == self@.flows.dom(),
                targets@.len() == i + 1,
                targets@[0] == self@.control_target(),
                forall|j: int|
                    1 <= j <= i ==> (#[trigger] targets@[j]).flow_id.0 == keys@[j - 1]
                        && self@.flows.contains_key(targets@[j].flow_id.0) && targets@[j]
                        == self@.data_target(targets@[j].flow_id),
            decreases keys@.len() - i,
        {
            let flow_id = FlowId(keys[i]);
            assert(keys@.to_set().contains(keys@[i as int]));
            targets.push(
                ResolvedTarget {
                    flow_id,
                    path: ReplyPath::new(flow_id, FlowKind::Data, self.generation),
                },
            );
            i = i + 1;
        }
        targets
    }

    /// Resets one flow: the control flow takes the connection with it.
    pub fn reset_flow(&mut self, flow_id: FlowId) -> (reset: Result<FlowReset<H>, LinkError>)
        ensures
            reset == (if flow_id == FlowId::control() {
                Ok::<FlowReset<H>, LinkError>(
                    FlowReset::CloseConnection(ConnectionCloseReason::ControlFlowClosed),
                )
            } else if old(self)@.flows.contains_key(flow_id.0) {
                Ok::<FlowReset<H>, LinkError>(FlowReset::Close(old(self)@.flows[flow_id.0]))
            } else {
                Err::<FlowReset<H>, LinkError>(LinkError::FlowNotActive(flow_id))
            }),
            final(self)@ == (if flow_id == FlowId::control() {
                old(self)@
            } else {
                LinkView { flows: old(self)@.flows.remove(flow_id.0), ..old(self)@ }
            }),
    {
        if flow_id == FlowId::control() {
            return Ok(FlowReset::CloseConnection(ConnectionCloseReason::ControlFlowClosed));
        }
        let removed = self.flows.remove(&flow_id.0);
        assert(self@.flows =~= old(self)@.flows.remove(flow_id.0));
        match removed {
            Some(handle) => Ok(FlowReset::Close(handle)),
            None => Err(LinkError::FlowNotActive(flow_id)),
        }
    }

    /// Closes the connection, and returns what it takes to reach the task of each data flow.
    pub fn close_connection(&mut self) -> (handles: Vec<H>)
        ensures
            final(self)@ == (LinkView { flows: Map::empty(), closed: true, ..old(self)@ }),
            handles@.len() == old(self)@.flows.dom().len(),
            forall|flow: u64| #[trigger]
                old(self)@.flows.contains_key(flow) ==> handles@.contains(
                    old(self)@.flows[flow],
                ),
            forall|i: int|
                0 <= i < handles@.len() ==> old(self)@.flows.contains_value(
                    #[trigger] handles@[i],
                ),
    {
        self.closed = true;
        let keys = keys_of(&self.flows);
        let mut handles: Vec<H> = Vec::new();
        let mut i: usize = 0;
        while i < keys.len()
            invariant
                i <= keys@.len(),
                keys@.no_duplicates(),
                keys@.to_set() == old(self)@.flows.dom(),
                handles@.len() == i,
                self.generation == old(self)@.generation,
                self.control_closed == old(self)@.control_closed,
                self.closed,
                forall|flow: u64| #[trigger]
                    self.flows@.contains_key(flow) <==> old(self)@.flows.contains_key(flow)
                        && !keys@.take(i as int).contains(flow),
                forall|flow: u64| #[trigger]
                    self.flows@.contains_key(flow) ==> self.flows@[flow]
                        == old(self)@.flows[flow],
                forall|j: int|
                    0 <= j < i ==> old(self)@.flows[keys@[j]] == #[trigger] handles@[j],
            decreases keys@.len() - i,
        {
            assert(keys@.to_set().contains(keys@[i as int]));
            assert(!keys@.take(i as int).contains(keys@[i as int]));
            if let Some(handle) = self.flows.remove(&keys[i]) {
                handles.push(handle);
            }
            assert(keys@.take(i + 1) =~= keys@.take(i as int).push(keys@[i as int]));
            assert forall|flow: u64| #[trigger]
                self.flows@.contains_key(flow) <==> old(self)@.flows.contains_key(flow)
                    && !keys@.take(i + 1).contains(flow) by {
                if keys@.take(i as int).contains(flow) {
                    let j = choose|j: int| 0 <= j < i && keys@.take(i as int)[j] == flow;
                    assert(keys@.take(i + 1)[j] == flow);
                }
                assert(keys@.take(i + 1)[i as int] == keys@[i as int]);
            }
            i = i + 1;
        }
        assert(keys@.take(i as int) =~= keys@);
        assert(self.flows@ =~= Map::empty()) by {
            assert forall|flow: u64| !self.flows@.contains_key(flow) by {
                if old(self)@.flows.contains_key(flow) {
                    assert(keys@.to_set().contains(flow));
                }
            }
        }
        assert forall|flow: u64| #[trigger]
            old(self)@.flows.contains_key(flow) implies handles@.contains(
            old(self)@.flows[flow],
        ) by {
            assert(keys@.to_set().contains(flow));
            let j = choose|j: int| 0 <= j < keys@.len() && keys@[j] == flow;
            assert(handles@[j] == old(self)@.flows[flow]);
        }
        assert forall|j: int| 0 <= j < handles@.len() implies old(self)@.flows.contains_value(
            #[trigger] handles@[j],
        ) by {
            assert(keys@.to_set().contains(keys@[j]));
            assert(old(self)@.flows.dom().contains(keys@[j]));
        }
        handles
    }
}

} // verus!
