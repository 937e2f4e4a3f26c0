//! In-memory link for deterministic protocol tests.

use std::collections::{HashMap, VecDeque};

use vstd::prelude::*;

use crate::link::{
    ConnectionCloseReason, FlowCloseReason, FlowId, FlowKind, LinkError, LinkEvent, ReplyPath,
    SendReceipt, SendTarget,
};
use crate::packet::MqttPacket;

verus! {

broadcast use vstd::std_specs::hash::group_hash_axioms;

/// Packet recorded by an in-memory link send operation.
#[derive(Debug)]
pub struct SentPacket {
    /// Destination selected by the caller.
    pub target: SendTarget,
    /// MQTT packet passed to the link.
    pub packet: MqttPacket,
    /// Reply path resolved for the send operation.
    pub receipt: SendReceipt,
}

/// Close operation recorded by an in-memory link.
#[allow(inconsistent_fields)]
#[derive(Clone, Copy, Debug, PartialEq, Eq, Structural)]
pub enum ClosedEvent {
    /// A single MQTT flow was reset.
    Flow {
        /// Identifier of the reset flow.
        flow_id: FlowId,
        /// Reason supplied for the flow reset.
        reason: FlowCloseReason,
    },
    /// The whole MQTT connection was closed.
    Connection {
        /// Reason supplied for the connection close.
        reason: ConnectionCloseReason,
    },
}

/// What an in-memory link holds.
#[verifier::ext_equal]
pub struct MemoryLinkView {
    /// Events that wait to be received.
    pub events: Seq<LinkEvent>,
    /// Send operations.
    pub sent: Seq<SentPacket>,
    /// Close operations.
    pub closed: Seq<ClosedEvent>,
    /// Number of the next data flow.
    pub next_flow_id: u64,
    /// Generation of the link.
    pub generation: u64,
    /// Reply paths that have been given out, by the numbers of their flows.
    pub paths: Map<u64, ReplyPath>,
    /// Failure of the next send operation.
    pub next_send_failure: Option<String>,
    /// Failure of the next flush operation.
    pub next_flush_failure: Option<String>,
}

impl MemoryLinkView {
    /// The reply path of a flow.
    pub open spec fn path_for(self, flow_id: FlowId, flow_kind: FlowKind) -> ReplyPath {
        if flow_id == FlowId::control() || flow_kind == FlowKind::Control {
            ReplyPath::control()
        } else if self.paths.contains_key(flow_id.0) {
            self.paths[flow_id.0]
        } else {
            ReplyPath { flow_id, flow_kind, generation: self.generation }
        }
    }

    /// The link after the reply path of a flow has been given out.
    pub open spec fn with_path_for(self, flow_id: FlowId, flow_kind: FlowKind) -> MemoryLinkView {
        if flow_id == FlowId::control() || flow_kind == FlowKind::Control {
            self
        } else {
            MemoryLinkView {
                paths: self.paths.insert(flow_id.0, self.path_for(flow_id, flow_kind)),
                ..self
            }
        }
    }

    /// The path that a target denotes.
    pub open spec fn resolved(self, target: SendTarget) -> ReplyPath {
        match target {
            SendTarget::Control => ReplyPath::control(),
            SendTarget::Reply(path) => path,
            SendTarget::Bound(flow_id) => self.path_for(flow_id, FlowKind::Data),
        }
    }

    /// The link after a target has been resolved.
    pub open spec fn with_resolved(self, target: SendTarget) -> MemoryLinkView {
        match target {
            SendTarget::Bound(flow_id) => self.with_path_for(flow_id, FlowKind::Data),
            _ => self,
        }
    }

    /// The link after a packet has been sent.
    pub open spec fn after_send(self, target: SendTarget, packet: MqttPacket) -> MemoryLinkView {
        let resolved = self.with_resolved(target);
        MemoryLinkView {
            sent: resolved.sent.push(
                SentPacket {
                    target,
                    packet,
                    receipt: SendReceipt { path: self.resolved(target) },
                },
            ),
            ..resolved
        }
    }
}

/// In-memory link for deterministic protocol tests.
#[derive(Debug)]
pub struct MemoryMqttLink {
    events: VecDeque<LinkEvent>,
    sent: Vec<SentPacket>,
    closed: Vec<ClosedEvent>,
    next_flow_id: u64,
    generation: u64,
    paths: HashMap<u64, ReplyPath>,
    next_send_failure: Option<String>,
    next_flush_failure: Option<String>,
}

impl View for MemoryMqttLink {
    type V = MemoryLinkView;

    closed spec fn view(&self) -> MemoryLinkView {
        MemoryLinkView {
            events: self.events@,
            sent: self.sent@,
            closed: self.closed@,
            next_flow_id: self.next_flow_id,
            generation: self.generation,
            paths: self.paths@,
            next_send_failure: self.next_send_failure,
            next_flush_failure: self.next_flush_failure,
        }
    }
}

/// Returns the role of a flow: the reserved identifier is that of the control flow.
pub fn flow_kind_for(flow_id: FlowId) -> (flow_kind: FlowKind)
    ensures
        flow_kind == (if flow_id == FlowId::control() {
            FlowKind::Control
        } else {
            FlowKind::Data
        }),
{
    if flow_id == FlowId::control() {
        FlowKind::Control
    } else {
        FlowKind::Data
    }
}

impl MemoryMqttLink {
    /// Creates an empty link.
    pub fn new() -> (link: MemoryMqttLink)
        ensures
            link@ == (MemoryLinkView {
                events: Seq::empty(),
                sent: Seq::empty(),
                closed: Seq::empty(),
                next_flow_id: 1,
                generation: 1,
                paths: Map::empty(),
                next_send_failure: None,
                next_flush_failure: None,
            }),
    {
        MemoryMqttLink {
            events: VecDeque::new(),
            sent: Vec::new(),
            closed: Vec::new(),
            next_flow_id: 1,
            generation: 1,
            paths: HashMap::new(),
            next_send_failure: None,
            next_flush_failure: None,
        }
    }

    /// Queues a link event for the next receive operation.
    pub fn inject_event(&mut self, event: LinkEvent)
        ensures
            final(self)@ == (MemoryLinkView {
                events: old(self)@.events.push(event),
                ..old(self)@
            }),
    {
        self.events.push_back(event);
    }

    /// Queues an MQTT packet with its originating reply path.
    pub fn inject_packet(&mut self, packet: MqttPacket, reply_path: ReplyPath)
        ensures
            final(self)@ == (MemoryLinkView {
                events: old(self)@.events.push(LinkEvent::Packet { packet, reply_path }),
                ..old(self)@
            }),
    {
        self.inject_event(LinkEvent::Packet { packet, reply_path });
    }

    /// Returns whether another data flow can be given an identifier.
    pub fn has_flow_ids(&self) -> (has: bool)
        ensures
            has == (self@.next_flow_id < u64::MAX),
    {
        self.next_flow_id < u64::MAX
    }

    /// Allocates the next reply path for the requested flow kind.
    pub fn next_reply_path(&mut self, flow_kind: FlowKind) -> (path: ReplyPath)
        requires
            flow_kind == FlowKind::Control || old(self)@.next_flow_id < u64::MAX,
        ensures
            path == (if flow_kind == FlowKind::Control {
                ReplyPath::control()
            } else {
                old(self)@.path_for(FlowId(old(self)@.next_flow_id), flow_kind)
            }),
            final(self)@ == (if flow_kind == FlowKind::Control {
                old(self)@
            } else {
                MemoryLinkView {
                    next_flow_id: (old(self)@.next_flow_id + 1) as u64,
                    ..old(self)@.with_path_for(FlowId(old(self)@.next_flow_id), flow_kind)
                }
            }),
    {
        if flow_kind == FlowKind::Control {
            return ReplyPath::control();
        }
        let flow_id = FlowId::new(self.next_flow_id);
        self.next_flow_id = self.next_flow_id + 1;
        self.reply_path_for(flow_id, flow_kind)
    }

    /// Returns the stable reply path for a particular flow identifier and kind.
    pub fn reply_path_for(&mut self, flow_id: FlowId, flow_kind: FlowKind) -> (path: ReplyPath)
        ensures
            path == old(self)@.path_for(flow_id, flow_kind),
            final(self)@ == old(self)@.with_path_for(flow_id, flow_kind),
    {
        if flow_id == FlowId::control() || flow_kind == FlowKind::Control {
            return ReplyPath::control();
        }
        let path = match self.paths.get(&flow_id.0) {
            Some(path) => *path,
            None => ReplyPath::new(flow_id, flow_kind, self.generation),
        };
        self.paths.insert(flow_id.0, path);
        path
    }

    fn resolve_target(&mut self, target: SendTarget) -> (path: ReplyPath)
        ensures
            path == old(self)@.resolved(target),
            final(self)@ == old(self)@.with_resolved(target),
    {
        match target {
            SendTarget::Control => ReplyPath::control(),
            SendTarget::Reply(reply_path) => reply_path,
            SendTarget::Bound(flow_id) => self.reply_path_for(flow_id, flow_kind_for(flow_id)),
        }
    }

    /// Makes the next send operation fail with the supplied message.
    pub fn fail_next_send(&mut self, message: String)
        ensures
            final(self)@ == (MemoryLinkView {
                next_send_failure: Some(message),
                ..old(self)@
            }),
    {
        self.next_send_failure = Some(message);
    }

    /// Makes the next flush operation fail with the supplied message.
    pub fn fail_next_flush(&mut self, message: String)
        ensures
            final(self)@ == (MemoryLinkView {
                next_flush_failure: Some(message),
                ..old(self)@
            }),
    {
        self.next_flush_failure = Some(message);
    }

    /// Returns the number of recorded send operations.
    pub fn sent_len(&self) -> (count: usize)
        ensures
            count == self@.sent.len(),
    {
        self.sent.len()
    }

    /// Returns the number of events waiting to be received.
    pub fn queued_len(&self) -> (count: usize)
        ensures
            count == self@.events.len(),
    {
        self.events.len()
    }

    /// Returns the number of recorded close operations.
    pub fn closed_len(&self) -> (count: usize)
        ensures
            count == self@.closed.len(),
    {
        self.closed.len()
    }

    /// Drains and returns all recorded send operations.
    pub fn take_sent(&mut self) -> (sent: Vec<SentPacket>)
        ensures
            sent@ == old(self)@.sent,
            final(self)@ == (MemoryLinkView { sent: Seq::empty(), ..old(self)@ }),
    {
        let mut sent: Vec<SentPacket> = Vec::new();
        std::mem::swap(&mut sent, &mut self.sent);
        sent
    }

    /// Drains and returns all recorded close operations.
    pub fn take_closed(&mut self) -> (closed: Vec<ClosedEvent>)
        ensures
            closed@ == old(self)@.closed,
            final(self)@ == (MemoryLinkView { closed: Seq::empty(), ..old(self)@ }),
    {
        let mut closed: Vec<ClosedEvent> = Vec::new();
        std::mem::swap(&mut closed, &mut self.closed);
        closed
    }

    /// Receives the event that has waited longest, if any waits.
    pub fn recv(&mut self) -> (event: Option<LinkEvent>)
        ensures
            match event {
                Some(event) => old(self)@.events.len() > 0 && event == old(self)@.events[0]
                    && final(self)@ == (MemoryLinkView {
                    events: old(self)@.events.drop_first(),
                    ..old(self)@
                }),
                None => old(self)@.events.len() == 0 && final(self)@ == old(self)@,
            },
    {
        let event = self.events.pop_front();
        proof {
            if event is Some {
                assert(self@.events =~= old(self)@.events.drop_first());
            }
        }
        event
    }

    /// Records a packet and returns the receipt, unless the send operation is to fail.
    pub fn send(&mut self, target: SendTarget, packet: MqttPacket) -> (receipt: Result<
        SendReceipt,
        LinkError,
    >)
        ensures
            match old(self)@.next_send_failure {
                Some(message) => receipt == Err::<SendReceipt, LinkError>(
                    LinkError::Transport(message),
                ) && final(self)@ == (MemoryLinkView { next_send_failure: None, ..old(self)@ }),
                None => receipt == Ok::<SendReceipt, LinkError>(
                    SendReceipt { path: old(self)@.resolved(target) },
                ) && final(self)@ == old(self)@.after_send(target, packet),
            },
    {
        if let Some(message) = self.next_send_failure.take() {
            return Err(LinkError::Transport(message));
        }
        let path = self.resolve_target(target);
        let receipt = SendReceipt::new(path);
        self.sent.push(SentPacket { target, packet, receipt });
        Ok(receipt)
    }

    /// Does nothing, unless the flush operation is to fail.
    pub fn flush(&mut self) -> (flushed: Result<(), LinkError>)
        ensures
            flushed == (match old(self)@.next_flush_failure {
                Some(message) => Err::<(), LinkError>(LinkError::Transport(message)),
                None => Ok::<(), LinkError>(()),
            }),
            final(self)@ == (MemoryLinkView { next_flush_failure: None, ..old(self)@ }),
    {
        if let Some(message) = self.next_flush_failure.take() {
            return Err(LinkError::Transport(message));
        }
        Ok(())
    }

    /// Records the reset of a flow, and queues the event for it.
    pub fn reset_flow(&mut self, flow_id: FlowId, reason: FlowCloseReason)
        ensures
            final(self)@ == (MemoryLinkView {
                closed: old(self)@.closed.push(ClosedEvent::Flow { flow_id, reason }),
                events: old(self)@.events.push(LinkEvent::FlowClosed { flow_id, reason }),
                ..old(self)@
            }),
    {
        self.closed.push(ClosedEvent::Flow { flow_id, reason });
        self.events.push_back(LinkEvent::FlowClosed { flow_id, reason });
    }

    /// Records the close of the connection, and queues the event for it.
    pub fn close_connection(&mut self, reason: ConnectionCloseReason)
        ensures
            final(self)@ == (MemoryLinkView {
                closed: old(self)@.closed.push(ClosedEvent::Connection { reason }),
                events: old(self)@.events.push(LinkEvent::ConnectionClosed { reason }),
                ..old(self)@
            }),
    {
        self.closed.push(ClosedEvent::Connection { reason });
        self.events.push_back(LinkEvent::ConnectionClosed { reason });
    }
}

/// The reply path of a flow is stable: once given out, it is given out again, and a packet
/// that is bound to the flow is sent on it.
pub proof fn reply_paths_are_stable(link: MemoryLinkView, flow_id: FlowId, other: FlowId)
    ensures
        ({
            let path = link.path_for(flow_id, FlowKind::Data);
            let after = link.with_path_for(flow_id, FlowKind::Data);
            &&& after.path_for(flow_id, FlowKind::Data) == path
            &&& after.with_path_for(other, FlowKind::Data).path_for(flow_id, FlowKind::Data)
                == path
            &&& after.resolved(SendTarget::Bound(flow_id)) == path
        }),
{
}

/// Every flow but the control flow has a path of its own: it names the flow, its role and the
/// generation of the link, unless one was given out before. The control flow has one path in
/// every generation.
pub proof fn reply_paths_name_their_flow(link: MemoryLinkView, flow_id: FlowId, kind: FlowKind)
    ensures
        flow_id.0 != 0 && !link.paths.contains_key(flow_id.0) ==> link.path_for(
            flow_id,
            FlowKind::Data,
        ) == (ReplyPath { flow_id, flow_kind: FlowKind::Data, generation: link.generation }),
        flow_id.0 != 0 && link.paths.contains_key(flow_id.0) ==> link.path_for(
            flow_id,
            FlowKind::Data,
        ) == link.paths[flow_id.0],
        link.path_for(FlowId(0), kind) == (ReplyPath {
            flow_id: FlowId(0),
            flow_kind: FlowKind::Control,
            generation: 0,
        }),
        link.path_for(flow_id, FlowKind::Control) == (ReplyPath {
            flow_id: FlowId(0),
            flow_kind: FlowKind::Control,
            generation: 0,
        }),
        link.with_path_for(flow_id, FlowKind::Control) == link,
        link.with_path_for(FlowId(0), kind) == link,
{
}

/// A packet is recorded as it was sent, behind those that were sent before it, with the path
/// that its target denotes. Sending takes no event, closes nothing and gives out a path only to
/// a flow that the packet is bound to.
pub proof fn sent_packets_are_recorded_in_turn(
    link: MemoryLinkView,
    path: ReplyPath,
    target: SendTarget,
    packet: MqttPacket,
)
    ensures
        link.resolved(SendTarget::Reply(path)) == path,
        link.resolved(SendTarget::Control) == (ReplyPath {
            flow_id: FlowId(0),
            flow_kind: FlowKind::Control,
            generation: 0,
        }),
        ({
            let after = link.after_send(target, packet);
            &&& after.sent.len() == link.sent.len() + 1
            &&& after.sent.take(link.sent.len() as int) == link.sent
            &&& after.sent.last() == (SentPacket {
                target,
                packet,
                receipt: SendReceipt { path: link.resolved(target) },
            })
            &&& after.events == link.events
            &&& after.closed == link.closed
            &&& after.next_flow_id == link.next_flow_id
            &&& after.generation == link.generation
            &&& after.next_send_failure == link.next_send_failure
            &&& after.next_flush_failure == link.next_flush_failure
            &&& !(target is Bound) ==> after.paths == link.paths
            &&& (target matches SendTarget::Bound(flow_id) && flow_id.0 != 0)
                ==> after.paths == link.paths.insert(
                target->Bound_0.0,
                link.resolved(target),
            )
        }),
{
    assert(link.after_send(target, packet).sent.take(link.sent.len() as int) =~= link.sent);
}

} // verus!
