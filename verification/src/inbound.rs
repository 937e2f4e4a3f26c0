//! What a session does with the packets of its client.
//!
//! Handling one packet takes several steps, between which the session has to
//! wait for something outside it: a reply being sent, a message being published,
//! a subscription being made. Each step returns a [`PacketStep`]: effects to
//! perform at once and in order, and what comes next. Where that is an
//! [`Await`], the caller performs what it asks for and reports the outcome to
//! the matching `on_` function. Until a packet has come to [`Next::Done`] or
//! [`Next::Fail`] no other packet is begun.

use vstd::prelude::*;

use crate::link::{LinkError, ReplyPath, SendReceipt};
use crate::packet::{
    Disconnect, Packet, PacketId, PacketV3, PacketV5, Publish, QoS, SubscribeAck,
    SubscribeReturnCode, SubscribeV5, UnsubscribeAck, UnsubscribeV5,
};
use crate::reason::{ProtocolError, PublishResult, Reason};
use crate::route::{
    PacketIssuer, PacketRouteEntry, PacketRouteKey, TransactionFamily, TransactionStage,
};
use crate::session::{
    accept_client_qos2_publish_route, accept_server_pubrec, required_packet_id,
    restore_client_pubrel_route, route_reason, SessionState, SessionView, StateFlags,
};
use crate::subscription_binding::Bindings;
use crate::topic::TopicFilter;

verus! {

/// A SUBSCRIBE of either protocol generation.
#[allow(inconsistent_fields)]
#[derive(Debug)]
pub enum SubscribeRequest {
    V3 { packet_id: PacketId, topic_filters: Vec<(String, QoS)> },
    V5(SubscribeV5),
}

impl SubscribeRequest {
    /// The packet identifier of the request.
    pub open spec fn packet_id(self) -> PacketId {
        match self {
            SubscribeRequest::V3 { packet_id, .. } => packet_id,
            SubscribeRequest::V5(subscribe) => subscribe.packet_id,
        }
    }

    fn id(&self) -> (packet_id: PacketId)
        ensures
            packet_id == self.packet_id(),
    {
        match self {
            SubscribeRequest::V3 { packet_id, .. } => *packet_id,
            SubscribeRequest::V5(subscribe) => subscribe.packet_id,
        }
    }
}

/// An UNSUBSCRIBE of either protocol generation.
#[allow(inconsistent_fields)]
#[derive(Debug)]
pub enum UnsubscribeRequest {
    V3 { packet_id: PacketId, topic_filters: Vec<String> },
    V5(UnsubscribeV5),
}

impl UnsubscribeRequest {
    /// The packet identifier of the request.
    pub open spec fn packet_id(self) -> PacketId {
        match self {
            UnsubscribeRequest::V3 { packet_id, .. } => packet_id,
            UnsubscribeRequest::V5(unsubscribe) => unsubscribe.packet_id,
        }
    }

    fn id(&self) -> (packet_id: PacketId)
        ensures
            packet_id == self.packet_id(),
    {
        match self {
            UnsubscribeRequest::V3 { packet_id, .. } => *packet_id,
            UnsubscribeRequest::V5(unsubscribe) => unsubscribe.packet_id,
        }
    }
}

/// What a packet of the client asks for, whichever the protocol generation.
#[derive(Debug)]
pub enum Request {
    Publish(Publish),
    PublishRelease(PacketId),
    PublishAck(PacketId),
    PublishReceived(PacketId),
    PublishComplete(PacketId),
    Subscribe(SubscribeRequest),
    Unsubscribe(UnsubscribeRequest),
    Ping,
    Disconnect(Disconnect),
    Auth,
    /// A packet that a client does not send once it is connected.
    Unimplemented,
}

/// What `packet` asks for.
pub open spec fn request_of(packet: Packet) -> Request {
    match packet {
        Packet::V3(PacketV3::Publish(publish)) => Request::Publish(publish),
        Packet::V5(PacketV5::Publish(publish)) => Request::Publish(publish),
        Packet::V3(PacketV3::PublishRelease { packet_id }) => Request::PublishRelease(packet_id),
        Packet::V5(PacketV5::PublishRelease(ack)) => Request::PublishRelease(ack.packet_id),
        Packet::V3(PacketV3::PublishAck { packet_id }) => Request::PublishAck(packet_id),
        Packet::V5(PacketV5::PublishAck(ack)) => Request::PublishAck(ack.packet_id),
        Packet::V3(PacketV3::PublishReceived { packet_id }) => Request::PublishReceived(packet_id),
        Packet::V5(PacketV5::PublishReceived(ack)) => Request::PublishReceived(ack.packet_id),
        Packet::V3(PacketV3::PublishComplete { packet_id }) => Request::PublishComplete(packet_id),
        Packet::V5(PacketV5::PublishComplete(ack)) => Request::PublishComplete(ack.packet_id),
        Packet::V3(PacketV3::Subscribe { packet_id, topic_filters }) => Request::Subscribe(
            SubscribeRequest::V3 { packet_id, topic_filters },
        ),
        Packet::V5(PacketV5::Subscribe(subscribe)) => Request::Subscribe(
            SubscribeRequest::V5(subscribe),
        ),
        Packet::V3(PacketV3::Unsubscribe { packet_id, topic_filters }) => Request::Unsubscribe(
            UnsubscribeRequest::V3 { packet_id, topic_filters },
        ),
        Packet::V5(PacketV5::Unsubscribe(unsubscribe)) => Request::Unsubscribe(
            UnsubscribeRequest::V5(unsubscribe),
        ),
        Packet::V3(PacketV3::PingRequest) => Request::Ping,
        Packet::V5(PacketV5::PingRequest) => Request::Ping,
        Packet::V3(PacketV3::Disconnect) => Request::Disconnect(Disconnect::V3),
        Packet::V5(PacketV5::Disconnect(disconnect)) => Request::Disconnect(
            Disconnect::V5(disconnect),
        ),
        Packet::V5(PacketV5::Auth(_)) => Request::Auth,
        _ => Request::Unimplemented,
    }
}

/// Returns what `packet` asks for.
pub fn classify_request(packet: Packet) -> (request: Request)
    ensures
        request == request_of(packet),
{
    match packet {
        Packet::V3(PacketV3::Publish(publish)) => Request::Publish(publish),
        Packet::V5(PacketV5::Publish(publish)) => Request::Publish(publish),
        Packet::V3(PacketV3::PublishRelease { packet_id }) => Request::PublishRelease(packet_id),
        Packet::V5(PacketV5::PublishRelease(ack)) => Request::PublishRelease(ack.packet_id),
        Packet::V3(PacketV3::PublishAck { packet_id }) => Request::PublishAck(packet_id),
        Packet::V5(PacketV5::PublishAck(ack)) => Request::PublishAck(ack.packet_id),
        Packet::V3(PacketV3::PublishReceived { packet_id }) => Request::PublishReceived(packet_id),
        Packet::V5(PacketV5::PublishReceived(ack)) => Request::PublishReceived(ack.packet_id),
        Packet::V3(PacketV3::PublishComplete { packet_id }) => Request::PublishComplete(packet_id),
        Packet::V5(PacketV5::PublishComplete(ack)) => Request::PublishComplete(ack.packet_id),
        Packet::V3(PacketV3::Subscribe { packet_id, topic_filters }) => Request::Subscribe(
            SubscribeRequest::V3 { packet_id, topic_filters },
        ),
        Packet::V5(PacketV5::Subscribe(subscribe)) => Request::Subscribe(
            SubscribeRequest::V5(subscribe),
        ),
        Packet::V3(PacketV3::Unsubscribe { packet_id, topic_filters }) => Request::Unsubscribe(
            UnsubscribeRequest::V3 { packet_id, topic_filters },
        ),
        Packet::V5(PacketV5::Unsubscribe(unsubscribe)) => Request::Unsubscribe(
            UnsubscribeRequest::V5(unsubscribe),
        ),
        Packet::V3(PacketV3::PingRequest) => Request::Ping,
        Packet::V5(PacketV5::PingRequest) => Request::Ping,
        Packet::V3(PacketV3::Disconnect) => Request::Disconnect(Disconnect::V3),
        Packet::V5(PacketV5::Disconnect(disconnect)) => Request::Disconnect(
            Disconnect::V5(disconnect),
        ),
        Packet::V5(PacketV5::Auth(_)) => Request::Auth,
        _ => Request::Unimplemented,
    }
}

/// A packet that answers the client.
#[allow(inconsistent_fields)]
#[derive(Debug)]
pub enum Reply {
    /// PUBACK with the outcome of the publication.
    PublishAck { packet_id: PacketId, result: PublishResult },
    /// PUBREC with the outcome of the publication; `None` stands for plain success.
    PublishReceived { packet_id: PacketId, result: Option<PublishResult> },
    /// PUBREL with plain success.
    PublishRelease { packet_id: PacketId },
    /// PUBCOMP with plain success.
    PublishComplete { packet_id: PacketId },
    /// SUBACK.
    SubscribeAck(SubscribeReply),
    /// UNSUBACK.
    UnsubscribeAck(UnsubscribeReply),
    /// PINGRESP.
    PingResponse,
    /// AUTH without content.
    Auth,
}

/// A SUBACK of either protocol generation.
#[derive(Debug)]
pub enum SubscribeReply {
    V3 { packet_id: PacketId, status: Vec<SubscribeReturnCode> },
    V5(SubscribeAck),
}

/// An UNSUBACK of either protocol generation.
#[derive(Debug)]
pub enum UnsubscribeReply {
    V3 { packet_id: PacketId },
    V5(UnsubscribeAck),
}

/// An inbound PUBLISH that opened a transaction.
#[derive(Clone, Copy, Debug, PartialEq, Eq, Structural)]
pub struct InboundPublish {
    /// Packet identifier of the transaction.
    pub packet_id: PacketId,
    /// Path on which the transaction runs.
    pub path: ReplyPath,
    /// Whether the transaction ends with PUBREC, PUBREL and PUBCOMP.
    pub exactly_once: bool,
    /// Whether the packet identifier was newly entered into the receive window.
    pub reserved: bool,
}

/// What remains to be done once a reply has been sent.
#[derive(Debug)]
pub enum Sent {
    /// Nothing.
    Nothing,
    /// Remember that the packet was a ping.
    Ping,
    /// Close a QoS 2 transaction of the client.
    Pubcomp(PacketId),
    /// Close a QoS 1 transaction of the client.
    Puback { packet_id: PacketId, reserved: bool },
    /// Let messages follow the new bindings, and close the transaction.
    Suback { packet_id: PacketId, bound: Vec<TopicFilter> },
    /// Remove bindings, and close the transaction.
    Unsuback { packet_id: PacketId, unbound: Vec<TopicFilter> },
}

/// Something that has to happen outside the session before the packet can go on.
#[allow(inconsistent_fields)]
#[derive(Debug)]
pub enum Await {
    /// Send `reply` on exactly `path`; report to [`SessionState::on_sent`].
    Send { reply: Reply, path: ReplyPath, sent: Sent },
    /// Make the subscriptions; report to [`SessionState::on_subscribed`].
    Subscribe { request: SubscribeRequest, path: ReplyPath },
    /// End the subscriptions; report to [`SessionState::on_unsubscribed`].
    Unsubscribe { request: UnsubscribeRequest, path: ReplyPath },
    /// Enter the message into the receive window; report to [`SessionState::on_reserved`].
    Reserve { publish: Publish, packet_id: PacketId, path: ReplyPath },
    /// Publish the message; report to [`SessionState::on_published`].
    Publish { publish: Publish, transaction: Option<InboundPublish> },
    /// Record the DISCONNECT; report to [`SessionState::on_disconnect_recorded`].
    RecordDisconnect(Disconnect),
}

/// Something that is done at once and whose outcome changes nothing.
#[derive(Debug)]
pub enum Effect {
    /// Take the packet identifier out of the receive window.
    ReleaseInbound(PacketId),
    /// Take the message out of the send window and report it acknowledged.
    AcknowledgeOutbound(PacketId),
    /// Note in the send window that the message awaits PUBCOMP.
    MarkReleased(PacketId),
    /// Report the message dropped, for the reason with which the step fails.
    DropMessage(Publish),
    /// Report the client alive, and whether it was a ping that showed it.
    Keepalive { ping: bool },
}

/// How the handling of a packet goes on.
#[derive(Debug)]
pub enum Next {
    /// The packet has been handled; the keep-alive deadline starts anew.
    Done,
    /// The session ends.
    Fail(Reason),
    /// Something has to happen first.
    Await(Await),
}

/// One step in the handling of a packet.
#[derive(Debug)]
pub struct PacketStep {
    /// What is done at once, in order.
    pub effects: Vec<Effect>,
    /// How the handling goes on.
    pub next: Next,
}

/// What a step makes of a session.
#[verifier::ext_equal]
pub struct StepView {
    /// The session after the step.
    pub state: SessionView,
    /// What is done at once, in order.
    pub effects: Seq<Effect>,
    /// How the handling goes on.
    pub next: Next,
}

impl PacketStep {
    /// The step together with the session it leaves.
    pub open spec fn with(self, state: SessionView) -> StepView {
        StepView { state, effects: self.effects@, next: self.next }
    }
}

/// The packet has been handled: the client is reported alive.
pub open spec fn finished(state: SessionView, effects: Seq<Effect>) -> StepView {
    StepView {
        state: SessionView { flags: StateFlags { ping: false, ..state.flags }, ..state },
        effects: effects.push(Effect::Keepalive { ping: state.flags.ping }),
        next: Next::Done,
    }
}

/// The session ends for `reason`.
pub open spec fn failed(state: SessionView, effects: Seq<Effect>, reason: Reason) -> StepView {
    StepView { state, effects, next: Next::Fail(reason) }
}

/// The session waits for `wait`.
pub open spec fn waiting(state: SessionView, effects: Seq<Effect>, wait: Await) -> StepView {
    StepView { state, effects, next: Next::Await(wait) }
}

/// The session with other routes.
pub open spec fn with_routes(state: SessionView, routes: crate::route::Routes) -> SessionView {
    SessionView { routes, ..state }
}

/// A packet of the client opens a transaction and then waits for `wait`.
pub open spec fn opening(
    state: SessionView,
    packet_id: PacketId,
    family: TransactionFamily,
    stage: TransactionStage,
    path: ReplyPath,
    wait: Await,
) -> StepView {
    let key = crate::session::client_key(packet_id);
    match crate::route::checked_insert(state.routes, key, family, stage) {
        Ok(()) => waiting(
            with_routes(
                state,
                state.routes.insert(key, PacketRouteEntry { family, stage, path }),
            ),
            Seq::empty(),
            wait,
        ),
        Err(error) => failed(state, Seq::empty(), crate::session::route_failure(error)),
    }
}

/// An acknowledgement of the client closes a transaction of the broker.
pub open spec fn acknowledged(
    state: SessionView,
    packet_id: PacketId,
    family: TransactionFamily,
    stage: TransactionStage,
    path: ReplyPath,
) -> StepView {
    let key = crate::session::server_key(packet_id);
    match crate::route::checked_route(state.routes, key, family, stage, path) {
        Ok(_) => finished(
            with_routes(state, state.routes.remove(key)),
            seq![Effect::AcknowledgeOutbound(packet_id)],
        ),
        Err(error) => failed(state, Seq::empty(), crate::session::route_failure(error)),
    }
}

/// A transaction of the client is closed once its last reply has been sent.
pub open spec fn closing(
    state: SessionView,
    effects: Seq<Effect>,
    packet_id: PacketId,
    family: TransactionFamily,
    stage: TransactionStage,
    path: ReplyPath,
    last: Seq<Effect>,
) -> StepView {
    let key = crate::session::client_key(packet_id);
    match crate::route::checked_route(state.routes, key, family, stage, path) {
        Ok(_) => finished(with_routes(state, state.routes.remove(key)), effects + last),
        Err(error) => failed(state, effects, crate::session::route_failure(error)),
    }
}

/// What an inbound PUBLISH begins.
pub open spec fn publish_begun(
    state: SessionView,
    publish: Publish,
    path: ReplyPath,
    resumed: bool,
) -> StepView {
    match publish.qos {
        QoS::AtMostOnce => waiting(
            state,
            Seq::empty(),
            Await::Publish { publish, transaction: None },
        ),
        QoS::AtLeastOnce => match publish.packet_id {
            None => failed(
                state,
                Seq::empty(),
                Reason::ProtocolError(ProtocolError::MissingPacketId),
            ),
            Some(packet_id) => opening(
                state,
                packet_id,
                TransactionFamily::PublishQos1,
                TransactionStage::PublishQos1AwaitPuback,
                path,
                Await::Reserve { publish, packet_id, path },
            ),
        },
        QoS::ExactlyOnce => match publish.packet_id {
            None => failed(
                state,
                Seq::empty(),
                Reason::ProtocolError(ProtocolError::MissingPacketId),
            ),
            Some(packet_id) => {
                let key = crate::session::client_key(packet_id);
                let after = with_routes(
                    state,
                    crate::session::qos2_publish_routes(
                        state.routes,
                        key,
                        path,
                        publish.dup,
                        resumed,
                    ),
                );
                match crate::session::qos2_publish_is_new(
                    state.routes,
                    key,
                    path,
                    publish.dup,
                    resumed,
                ) {
                    Err(reason) => failed(after, Seq::empty(), reason),
                    Ok(true) => waiting(
                        after,
                        Seq::empty(),
                        Await::Reserve { publish, packet_id, path },
                    ),
                    Ok(false) => waiting(
                        after,
                        Seq::empty(),
                        Await::Send {
                            reply: Reply::PublishReceived { packet_id, result: None },
                            path,
                            sent: Sent::Nothing,
                        },
                    ),
                }
            },
        },
    }
}

/// What a packet of the client begins.
///
/// `resumed` says whether the receive window holds the packet's identifier from before;
/// `now` is the time at which a message is taken.
pub open spec fn packet_begun(
    state: SessionView,
    packet: Packet,
    path: ReplyPath,
    resumed: bool,
    now: i64,
) -> StepView {
    match request_of(packet) {
        Request::Publish(publish) => publish_begun(
            state,
            Publish { create_time: Some(now), ..publish },
            path,
            resumed,
        ),
        Request::PublishRelease(packet_id) => {
            let key = crate::session::client_key(packet_id);
            let after = with_routes(
                state,
                crate::session::pubrel_routes(state.routes, key, path, resumed),
            );
            match crate::session::pubrel_accepted(state.routes, key, path, resumed) {
                Ok(()) => waiting(
                    after,
                    Seq::empty(),
                    Await::Send {
                        reply: Reply::PublishComplete { packet_id },
                        path,
                        sent: Sent::Pubcomp(packet_id),
                    },
                ),
                Err(reason) => failed(after, Seq::empty(), reason),
            }
        },
        Request::PublishAck(packet_id) => acknowledged(
            state,
            packet_id,
            TransactionFamily::PublishQos1,
            TransactionStage::PublishQos1AwaitPuback,
            path,
        ),
        Request::PublishReceived(packet_id) => {
            let key = crate::session::server_key(packet_id);
            let after = with_routes(
                state,
                crate::session::pubrec_routes(state.routes, key, path),
            );
            match crate::session::pubrec_accepted(state.routes, key, path) {
                Ok(()) => waiting(
                    after,
                    seq![Effect::MarkReleased(packet_id)],
                    Await::Send {
                        reply: Reply::PublishRelease { packet_id },
                        path,
                        sent: Sent::Nothing,
                    },
                ),
                Err(reason) => failed(after, Seq::empty(), reason),
            }
        },
        Request::PublishComplete(packet_id) => acknowledged(
            state,
            packet_id,
            TransactionFamily::PublishQos2,
            TransactionStage::PublishQos2AwaitPubcomp,
            path,
        ),
        Request::Subscribe(request) => opening(
            state,
            request.packet_id(),
            TransactionFamily::Subscribe,
            TransactionStage::SubscribeAwaitSuback,
            path,
            Await::Subscribe { request, path },
        ),
        Request::Unsubscribe(request) => opening(
            state,
            request.packet_id(),
            TransactionFamily::Unsubscribe,
            TransactionStage::UnsubscribeAwaitUnsuback,
            path,
            Await::Unsubscribe { request, path },
        ),
        Request::Ping => waiting(
            state,
            Seq::empty(),
            Await::Send { reply: Reply::PingResponse, path, sent: Sent::Ping },
        ),
        Request::Disconnect(disconnect) => waiting(
            SessionView {
                flags: StateFlags { disconnect_received: true, ..state.flags },
                ..state
            },
            Seq::empty(),
            Await::RecordDisconnect(disconnect),
        ),
        Request::Auth => waiting(
            state,
            Seq::empty(),
            Await::Send { reply: Reply::Auth, path, sent: Sent::Nothing },
        ),
        Request::Unimplemented => failed(state, Seq::empty(), Reason::UnimplementedPacket),
    }
}

/// What follows once an inbound PUBLISH has, or has not, been entered into the receive
/// window.
pub open spec fn reserved_step(
    state: SessionView,
    publish: Publish,
    packet_id: PacketId,
    path: ReplyPath,
    result: Result<bool, Reason>,
) -> StepView {
    match result {
        Ok(reserved) => waiting(
            state,
            Seq::empty(),
            Await::Publish {
                publish,
                transaction: Some(
                    InboundPublish {
                        packet_id,
                        path,
                        exactly_once: publish.qos == QoS::ExactlyOnce,
                        reserved,
                    },
                ),
            },
        ),
        Err(reason) => failed(
            with_routes(state, state.routes.remove(crate::session::client_key(packet_id))),
            seq![Effect::DropMessage(publish)],
            reason,
        ),
    }
}

/// The receive window lets go of a packet identifier that was entered for a message.
pub open spec fn released(transaction: InboundPublish) -> Seq<Effect> {
    if transaction.reserved {
        seq![Effect::ReleaseInbound(transaction.packet_id)]
    } else {
        Seq::empty()
    }
}

/// What follows once a message has, or has not, been published.
pub open spec fn published_step(
    state: SessionView,
    transaction: Option<InboundPublish>,
    result: Result<PublishResult, Reason>,
) -> StepView {
    match (transaction, result) {
        (None, Ok(_)) => finished(state, Seq::empty()),
        (None, Err(reason)) => failed(state, Seq::empty(), reason),
        (Some(transaction), Err(reason)) => failed(
            with_routes(
                state,
                state.routes.remove(crate::session::client_key(transaction.packet_id)),
            ),
            released(transaction),
            reason,
        ),
        (Some(transaction), Ok(result)) => if !transaction.exactly_once {
            waiting(
                state,
                Seq::empty(),
                Await::Send {
                    reply: Reply::PublishAck { packet_id: transaction.packet_id, result },
                    path: transaction.path,
                    sent: Sent::Puback {
                        packet_id: transaction.packet_id,
                        reserved: transaction.reserved,
                    },
                },
            )
        } else if result.is_success() {
            waiting(
                state,
                Seq::empty(),
                Await::Send {
                    reply: Reply::PublishReceived {
                        packet_id: transaction.packet_id,
                        result: Some(result),
                    },
                    path: transaction.path,
                    sent: Sent::Nothing,
                },
            )
        } else {
            waiting(
                with_routes(
                    state,
                    state.routes.remove(crate::session::client_key(transaction.packet_id)),
                ),
                released(transaction),
                Await::Send {
                    reply: Reply::PublishReceived {
                        packet_id: transaction.packet_id,
                        result: Some(result),
                    },
                    path: transaction.path,
                    sent: Sent::Nothing,
                },
            )
        },
    }
}

/// The bindings once each of `filters` is bound to `path` and awaits its SUBACK.
pub open spec fn all_begun(
    bindings: Bindings,
    filters: Seq<TopicFilter>,
    path: ReplyPath,
) -> Bindings
    decreases filters.len(),
{
    if filters.len() == 0 {
        bindings
    } else {
        all_begun(bindings, filters.drop_last(), path).insert(
            filters.last()@,
            crate::subscription_binding::Binding {
                path,
                state: crate::subscription_binding::BindingState::PendingAck,
            },
        )
    }
}

/// The bindings once those of `filters` are active.
pub open spec fn all_activated(bindings: Bindings, filters: Seq<TopicFilter>) -> Bindings
    decreases filters.len(),
{
    if filters.len() == 0 {
        bindings
    } else {
        crate::subscription_binding::activated(
            all_activated(bindings, filters.drop_last()),
            filters.last()@,
        )
    }
}

/// The bindings without those of `filters`.
pub open spec fn all_removed(bindings: Bindings, filters: Seq<TopicFilter>) -> Bindings
    decreases filters.len(),
{
    if filters.len() == 0 {
        bindings
    } else {
        all_removed(bindings, filters.drop_last()).remove(filters.last()@)
    }
}

/// What follows once subscriptions have, or have not, been made.
pub open spec fn subscribed_step(
    state: SessionView,
    packet_id: PacketId,
    path: ReplyPath,
    result: Result<(SubscribeReply, Vec<TopicFilter>), String>,
) -> StepView {
    match result {
        Ok((reply, bound)) => waiting(
            SessionView { bindings: all_begun(state.bindings, bound@, path), ..state },
            Seq::empty(),
            Await::Send {
                reply: Reply::SubscribeAck(reply),
                path,
                sent: Sent::Suback { packet_id, bound },
            },
        ),
        Err(error) => failed(state, Seq::empty(), Reason::SubscribeFailed(error)),
    }
}

/// What follows once subscriptions have, or have not, been ended.
pub open spec fn unsubscribed_step(
    state: SessionView,
    packet_id: PacketId,
    path: ReplyPath,
    result: Result<(UnsubscribeReply, Vec<TopicFilter>), String>,
) -> StepView {
    match result {
        Ok((reply, unbound)) => waiting(
            state,
            Seq::empty(),
            Await::Send {
                reply: Reply::UnsubscribeAck(reply),
                path,
                sent: Sent::Unsuback { packet_id, unbound },
            },
        ),
        Err(error) => failed(state, Seq::empty(), Reason::UnsubscribeFailed(error)),
    }
}

/// What follows once a reply has, or has not, been sent.
pub open spec fn sent_step(
    state: SessionView,
    sent: Sent,
    path: ReplyPath,
    result: Result<SendReceipt, LinkError>,
) -> StepView {
    let before = match sent {
        Sent::Puback { packet_id, reserved } => if reserved {
            seq![Effect::ReleaseInbound(packet_id)]
        } else {
            Seq::empty()
        },
        _ => Seq::empty(),
    };
    match result {
        Err(error) => failed(state, before, Reason::Link(error)),
        Ok(_) => match sent {
            Sent::Nothing => finished(state, before),
            Sent::Ping => finished(
                SessionView { flags: StateFlags { ping: true, ..state.flags }, ..state },
                before,
            ),
            Sent::Pubcomp(packet_id) => closing(
                state,
                before,
                packet_id,
                TransactionFamily::PublishQos2,
                TransactionStage::PublishQos2AwaitPubrel,
                path,
                seq![Effect::ReleaseInbound(packet_id)],
            ),
            Sent::Puback { packet_id, .. } => closing(
                state,
                before,
                packet_id,
                TransactionFamily::PublishQos1,
                TransactionStage::PublishQos1AwaitPuback,
                path,
                Seq::empty(),
            ),
            Sent::Suback { packet_id, bound } => closing(
                SessionView { bindings: all_activated(state.bindings, bound@), ..state },
                before,
                packet_id,
                TransactionFamily::Subscribe,
                TransactionStage::SubscribeAwaitSuback,
                path,
                Seq::empty(),
            ),
            Sent::Unsuback { packet_id, unbound } => closing(
                SessionView { bindings: all_removed(state.bindings, unbound@), ..state },
                before,
                packet_id,
                TransactionFamily::Unsubscribe,
                TransactionStage::UnsubscribeAwaitUnsuback,
                path,
                Seq::empty(),
            ),
        },
    }
}

impl SessionState {
    fn finish(&mut self, effects: Vec<Effect>) -> (step: PacketStep)
        ensures
            step.with(final(self)@) == finished(old(self)@, effects@),
            final(self).wf() == old(self).wf(),
            final(self).same_settings(old(self)),
    {
        let ping: bool = self.flags.ping;
        self.flags.ping = false;
        let mut effects = effects;
        effects.push(Effect::Keepalive { ping });
        PacketStep { effects, next: Next::Done }
    }

    fn open(
        &mut self,
        packet_id: PacketId,
        family: TransactionFamily,
        stage: TransactionStage,
        path: ReplyPath,
        wait: Await,
    ) -> (step: PacketStep)
        ensures
            step.with(final(self)@) == opening(
                old(self)@,
                packet_id,
                family,
                stage,
                path,
                wait,
            ),
            final(self).wf() == old(self).wf(),
            final(self).same_settings(old(self)),
    {
        let key = PacketRouteKey::new(PacketIssuer::Client, packet_id);
        match self.routes.insert(key, family, stage, path) {
            Ok(()) => PacketStep { effects: Vec::new(), next: Next::Await(wait) },
            Err(error) => PacketStep {
                effects: Vec::new(),
                next: Next::Fail(route_reason(error)),
            },
        }
    }

    fn acknowledge(
        &mut self,
        packet_id: PacketId,
        family: TransactionFamily,
        stage: TransactionStage,
        path: ReplyPath,
    ) -> (step: PacketStep)
        ensures
            step.with(final(self)@) == acknowledged(old(self)@, packet_id, family, stage, path),
            final(self).wf() == old(self).wf(),
            final(self).same_settings(old(self)),
    {
        let key = PacketRouteKey::new(PacketIssuer::Server, packet_id);
        match self.routes.complete(key, family, stage, path) {
            Ok(_) => {
                let mut effects: Vec<Effect> = Vec::new();
                effects.push(Effect::AcknowledgeOutbound(packet_id));
                assert(effects@ =~= seq![Effect::AcknowledgeOutbound(packet_id)]);
                self.finish(effects)
            },
            Err(error) => PacketStep {
                effects: Vec::new(),
                next: Next::Fail(route_reason(error)),
            },
        }
    }

    fn close(
        &mut self,
        effects: Vec<Effect>,
        packet_id: PacketId,
        family: TransactionFamily,
        stage: TransactionStage,
        path: ReplyPath,
        release: bool,
    ) -> (step: PacketStep)
        ensures
            step.with(final(self)@) == closing(
                old(self)@,
                effects@,
                packet_id,
                family,
                stage,
                path,
                if release {
                    seq![Effect::ReleaseInbound(packet_id)]
                } else {
                    Seq::empty()
                },
            ),
            final(self).wf() == old(self).wf(),
            final(self).same_settings(old(self)),
    {
        let key = PacketRouteKey::new(PacketIssuer::Client, packet_id);
        match self.routes.complete(key, family, stage, path) {
            Ok(_) => {
                let ghost start = effects@;
                let mut effects = effects;
                if release {
                    effects.push(Effect::ReleaseInbound(packet_id));
                }
                assert(effects@ =~= start + if release {
                    seq![Effect::ReleaseInbound(packet_id)]
                } else {
                    Seq::empty()
                });
                self.finish(effects)
            },
            Err(error) => PacketStep { effects, next: Next::Fail(route_reason(error)) },
        }
    }

    fn begin_publish(&mut self, publish: Publish, path: ReplyPath, resumed: bool) -> (step:
        PacketStep)
        ensures
            step.with(final(self)@) == publish_begun(old(self)@, publish, path, resumed),
            final(self).wf() == old(self).wf(),
            final(self).same_settings(old(self)),
    {
        match publish.qos {
            QoS::AtMostOnce => PacketStep {
                effects: Vec::new(),
                next: Next::Await(Await::Publish { publish, transaction: None }),
            },
            QoS::AtLeastOnce => match required_packet_id(publish.packet_id) {
                Err(reason) => PacketStep { effects: Vec::new(), next: Next::Fail(reason) },
                Ok(packet_id) => self.open(
                    packet_id,
                    TransactionFamily::PublishQos1,
                    TransactionStage::PublishQos1AwaitPuback,
                    path,
                    Await::Reserve { publish, packet_id, path },
                ),
            },
            QoS::ExactlyOnce => match required_packet_id(publish.packet_id) {
                Err(reason) => PacketStep { effects: Vec::new(), next: Next::Fail(reason) },
                Ok(packet_id) => {
                    let key = PacketRouteKey::new(PacketIssuer::Client, packet_id);
                    let next = match accept_client_qos2_publish_route(
                        &mut self.routes,
                        key,
                        path,
                        publish.dup,
                        resumed,
                    ) {
                        Err(reason) => Next::Fail(reason),
                        Ok(true) => Next::Await(Await::Reserve { publish, packet_id, path }),
                        Ok(false) => Next::Await(
                            Await::Send {
                                reply: Reply::PublishReceived { packet_id, result: None },
                                path,
                                sent: Sent::Nothing,
                            },
                        ),
                    };
                    PacketStep { effects: Vec::new(), next }
                },
            },
        }
    }

    /// Begins to handle a packet of the client that came on `path`.
    ///
    /// `resumed` says whether the receive window holds the packet's identifier from
    /// before; `now` is the time at which a message is taken.
    pub fn begin_packet(&mut self, packet: Packet, path: ReplyPath, resumed: bool, now: i64) -> (step:
        PacketStep)
        ensures
            step.with(final(self)@) == packet_begun(old(self)@, packet, path, resumed, now),
            final(self).wf() == old(self).wf(),
            final(self).same_settings(old(self)),
    {
        match classify_request(packet) {
            Request::Publish(publish) => {
                let mut publish = publish;
                publish.create_time = Some(now);
                self.begin_publish(publish, path, resumed)
            },
            Request::PublishRelease(packet_id) => {
                let key = PacketRouteKey::new(PacketIssuer::Client, packet_id);
                let next = match restore_client_pubrel_route(
                    &mut self.routes,
                    key,
                    path,
                    resumed,
                ) {
                    Ok(()) => Next::Await(
                        Await::Send {
                            reply: Reply::PublishComplete { packet_id },
                            path,
                            sent: Sent::Pubcomp(packet_id),
                        },
                    ),
                    Err(reason) => Next::Fail(reason),
                };
                PacketStep { effects: Vec::new(), next }
            },
            Request::PublishAck(packet_id) => self.acknowledge(
                packet_id,
                TransactionFamily::PublishQos1,
                TransactionStage::PublishQos1AwaitPuback,
                path,
            ),
            Request::PublishReceived(packet_id) => {
                match accept_server_pubrec(&mut self.routes, packet_id, path) {
                    Ok(()) => {
                        let mut effects: Vec<Effect> = Vec::new();
                        effects.push(Effect::MarkReleased(packet_id));
                        assert(effects@ =~= seq![Effect::MarkReleased(packet_id)]);
                        PacketStep {
                            effects,
                            next: Next::Await(
                                Await::Send {
                                    reply: Reply::PublishRelease { packet_id },
                                    path,
                                    sent: Sent::Nothing,
                                },
                            ),
                        }
                    },
                    Err(reason) => PacketStep { effects: Vec::new(), next: Next::Fail(reason) },
                }
            },
            Request::PublishComplete(packet_id) => self.acknowledge(
                packet_id,
                TransactionFamily::PublishQos2,
                TransactionStage::PublishQos2AwaitPubcomp,
                path,
            ),
            Request::Subscribe(request) => {
                let packet_id = request.id();
                self.open(
                    packet_id,
                    TransactionFamily::Subscribe,
                    TransactionStage::SubscribeAwaitSuback,
                    path,
                    Await::Subscribe { request, path },
                )
            },
            Request::Unsubscribe(request) => {
                let packet_id = request.id();
                self.open(
                    packet_id,
                    TransactionFamily::Unsubscribe,
                    TransactionStage::UnsubscribeAwaitUnsuback,
                    path,
                    Await::Unsubscribe { request, path },
                )
            },
            Request::Ping => PacketStep {
                effects: Vec::new(),
                next: Next::Await(
                    Await::Send { reply: Reply::PingResponse, path, sent: Sent::Ping },
                ),
            },
            Request::Disconnect(disconnect) => {
                self.flags.disconnect_received = true;
                PacketStep {
                    effects: Vec::new(),
                    next: Next::Await(Await::RecordDisconnect(disconnect)),
                }
            },
            Request::Auth => PacketStep {
                effects: Vec::new(),
                next: Next::Await(Await::Send { reply: Reply::Auth, path, sent: Sent::Nothing }),
            },
            Request::Unimplemented => PacketStep {
                effects: Vec::new(),
                next: Next::Fail(Reason::UnimplementedPacket),
            },
        }
    }

    /// Goes on once the DISCONNECT of the client has been recorded. The client is not
    /// reported alive.
    pub fn on_disconnect_recorded(&self, result: Result<(), String>) -> (step: PacketStep)
        ensures
            step.effects@.len() == 0,
            step.next == (match result {
                Ok(()) => Next::Done,
                Err(error) => Next::Fail(Reason::Service(error)),
            }),
    {
        match result {
            Ok(()) => PacketStep { effects: Vec::new(), next: Next::Done },
            Err(error) => PacketStep {
                effects: Vec::new(),
                next: Next::Fail(Reason::Service(error)),
            },
        }
    }

    /// Goes on once an inbound PUBLISH has, or has not, been entered into the receive
    /// window; `Ok` says whether its identifier was newly entered.
    pub fn on_reserved(
        &mut self,
        publish: Publish,
        packet_id: PacketId,
        path: ReplyPath,
        result: Result<bool, Reason>,
    ) -> (step: PacketStep)
        ensures
            step.with(final(self)@) == reserved_step(old(self)@, publish, packet_id, path, result),
            final(self).wf() == old(self).wf(),
            final(self).same_settings(old(self)),
    {
        match result {
            Ok(reserved) => {
                let exactly_once: bool = publish.qos == QoS::ExactlyOnce;
                let transaction = Some(InboundPublish { packet_id, path, exactly_once, reserved });
                PacketStep {
                    effects: Vec::new(),
                    next: Next::Await(Await::Publish { publish, transaction }),
                }
            },
            Err(reason) => {
                self.routes.remove(PacketRouteKey::new(PacketIssuer::Client, packet_id));
                let mut effects: Vec<Effect> = Vec::new();
                effects.push(Effect::DropMessage(publish));
                assert(effects@ =~= seq![Effect::DropMessage(publish)]);
                PacketStep { effects, next: Next::Fail(reason) }
            },
        }
    }

    /// Goes on once a message has, or has not, been published.
    pub fn on_published(
        &mut self,
        transaction: Option<InboundPublish>,
        result: Result<PublishResult, Reason>,
    ) -> (step: PacketStep)
        ensures
            step.with(final(self)@) == published_step(old(self)@, transaction, result),
            final(self).wf() == old(self).wf(),
            final(self).same_settings(old(self)),
    {
        let transaction = match transaction {
            Some(transaction) => transaction,
            None => {
                return match result {
                    Ok(_) => self.finish(Vec::new()),
                    Err(reason) => PacketStep { effects: Vec::new(), next: Next::Fail(reason) },
                };
            },
        };
        let packet_id = transaction.packet_id;
        let path = transaction.path;
        match result {
            Err(reason) => {
                let effects = self.abandon(transaction);
                PacketStep { effects, next: Next::Fail(reason) }
            },
            Ok(result) => {
                if !transaction.exactly_once {
                    return PacketStep {
                        effects: Vec::new(),
                        next: Next::Await(
                            Await::Send {
                                reply: Reply::PublishAck { packet_id, result },
                                path,
                                sent: Sent::Puback { packet_id, reserved: transaction.reserved },
                            },
                        ),
                    };
                }
                let effects = if result.is_success() {
                    Vec::new()
                } else {
                    self.abandon(transaction)
                };
                PacketStep {
                    effects,
                    next: Next::Await(
                        Await::Send {
                            reply: Reply::PublishReceived { packet_id, result: Some(result) },
                            path,
                            sent: Sent::Nothing,
                        },
                    ),
                }
            },
        }
    }

    fn abandon(&mut self, transaction: InboundPublish) -> (effects: Vec<Effect>)
        ensures
            effects@ == released(transaction),
            final(self)@ == with_routes(
                old(self)@,
                old(self)@.routes.remove(crate::session::client_key(transaction.packet_id)),
            ),
            final(self).wf() == old(self).wf(),
            final(self).same_settings(old(self)),
    {
        self.routes.remove(PacketRouteKey::new(PacketIssuer::Client, transaction.packet_id));
        let mut effects: Vec<Effect> = Vec::new();
        if transaction.reserved {
            effects.push(Effect::ReleaseInbound(transaction.packet_id));
        }
        assert(effects@ =~= released(transaction));
        effects
    }

    /// Goes on once subscriptions have, or have not, been made. The filters that were
    /// granted are bound to `path`, which messages follow once the SUBACK has been sent.
    pub fn on_subscribed(
        &mut self,
        packet_id: PacketId,
        path: ReplyPath,
        result: Result<(SubscribeReply, Vec<TopicFilter>), String>,
    ) -> (step: PacketStep)
        requires
            old(self).wf(),
        ensures
            step.with(final(self)@) == subscribed_step(old(self)@, packet_id, path, result),
            final(self).wf(),
            final(self).same_settings(old(self)),
    {
        match result {
            Ok((reply, bound)) => {
                let mut i: usize = 0;
                assert(bound@.take(0) =~= Seq::empty());
                while i < bound.len()
                    invariant
                        i <= bound.len(),
                        self.wf(),
                        self.same_settings(old(self)),
                        self@ == (SessionView {
                            bindings: all_begun(
                                old(self)@.bindings,
                                bound@.take(i as int),
                                path,
                            ),
                            ..old(self)@
                        }),
                    decreases bound.len() - i,
                {
                    proof {
                        assert(bound@.take(i as int + 1).drop_last() =~= bound@.take(i as int));
                    }
                    self.subscription_bindings.begin(bound[i].clone(), path);
                    i = i + 1;
                }
                assert(bound@.take(bound@.len() as int) =~= bound@);
                PacketStep {
                    effects: Vec::new(),
                    next: Next::Await(
                        Await::Send {
                            reply: Reply::SubscribeAck(reply),
                            path,
                            sent: Sent::Suback { packet_id, bound },
                        },
                    ),
                }
            },
            Err(error) => PacketStep {
                effects: Vec::new(),
                next: Next::Fail(Reason::SubscribeFailed(error)),
            },
        }
    }

    /// Goes on once subscriptions have, or have not, been ended.
    pub fn on_unsubscribed(
        &self,
        packet_id: PacketId,
        path: ReplyPath,
        result: Result<(UnsubscribeReply, Vec<TopicFilter>), String>,
    ) -> (step: PacketStep)
        ensures
            step.with(self@) == unsubscribed_step(self@, packet_id, path, result),
    {
        match result {
            Ok((reply, unbound)) => PacketStep {
                effects: Vec::new(),
                next: Next::Await(
                    Await::Send {
                        reply: Reply::UnsubscribeAck(reply),
                        path,
                        sent: Sent::Unsuback { packet_id, unbound },
                    },
                ),
            },
            Err(error) => PacketStep {
                effects: Vec::new(),
                next: Next::Fail(Reason::UnsubscribeFailed(error)),
            },
        }
    }

    fn activate_all(&mut self, bound: &Vec<TopicFilter>)
        requires
            old(self).wf(),
        ensures
            final(self).wf(),
            final(self).same_settings(old(self)),
            final(self)@ == (SessionView {
                bindings: all_activated(old(self)@.bindings, bound@),
                ..old(self)@
            }),
    {
        let mut i: usize = 0;
        assert(bound@.take(0) =~= Seq::empty());
        while i < bound.len()
            invariant
                i <= bound.len(),
                self.wf(),
                self.same_settings(old(self)),
                self@ == (SessionView {
                    bindings: all_activated(old(self)@.bindings, bound@.take(i as int)),
                    ..old(self)@
                }),
            decreases bound.len() - i,
        {
            proof {
                assert(bound@.take(i as int + 1).drop_last() =~= bound@.take(i as int));
            }
            self.subscription_bindings.activate(&bound[i]);
            i = i + 1;
        }
        assert(bound@.take(bound@.len() as int) =~= bound@);
    }

    fn unbind_all(&mut self, unbound: &Vec<TopicFilter>)
        requires
            old(self).wf(),
        ensures
            final(self).wf(),
            final(self).same_settings(old(self)),
            final(self)@ == (SessionView {
                bindings: all_removed(old(self)@.bindings, unbound@),
                ..old(self)@
            }),
    {
        let mut i: usize = 0;
        assert(unbound@.take(0) =~= Seq::empty());
        while i < unbound.len()
            invariant
                i <= unbound.len(),
                self.wf(),
                self.same_settings(old(self)),
                self@ == (SessionView {
                    bindings: all_removed(old(self)@.bindings, unbound@.take(i as int)),
                    ..old(self)@
                }),
            decreases unbound.len() - i,
        {
            proof {
                assert(unbound@.take(i as int + 1).drop_last() =~= unbound@.take(i as int));
            }
            self.subscription_bindings.unsubscribe(&unbound[i]);
            i = i + 1;
        }
        assert(unbound@.take(unbound@.len() as int) =~= unbound@);
    }

    /// Goes on once a reply has, or has not, been sent on `path`.
    pub fn on_sent(
        &mut self,
        sent: Sent,
        path: ReplyPath,
        result: Result<SendReceipt, LinkError>,
    ) -> (step: PacketStep)
        requires
            old(self).wf(),
        ensures
            step.with(final(self)@) == sent_step(old(self)@, sent, path, result),
            final(self).wf(),
            final(self).same_settings(old(self)),
    {
        let mut effects: Vec<Effect> = Vec::new();
        if let Sent::Puback { packet_id, reserved } = &sent {
            if *reserved {
                effects.push(Effect::ReleaseInbound(*packet_id));
                assert(effects@ =~= seq![Effect::ReleaseInbound(*packet_id)]);
            }
        }
        match result {
            Err(error) => {
                return PacketStep { effects, next: Next::Fail(Reason::Link(error)) };
            },
            Ok(_) => {},
        }
        match sent {
            Sent::Nothing => self.finish(effects),
            Sent::Ping => {
                self.flags.ping = true;
                self.finish(effects)
            },
            Sent::Pubcomp(packet_id) => self.close(
                effects,
                packet_id,
                TransactionFamily::PublishQos2,
                TransactionStage::PublishQos2AwaitPubrel,
                path,
                true,
            ),
            Sent::Puback { packet_id, .. } => self.close(
                effects,
                packet_id,
                TransactionFamily::PublishQos1,
                TransactionStage::PublishQos1AwaitPuback,
                path,
                false,
            ),
            Sent::Suback { packet_id, bound } => {
                self.activate_all(&bound);
                self.close(
                    effects,
                    packet_id,
                    TransactionFamily::Subscribe,
                    TransactionStage::SubscribeAwaitSuback,
                    path,
                    false,
                )
            },
            Sent::Unsuback { packet_id, unbound } => {
                self.unbind_all(&unbound);
                self.close(
                    effects,
                    packet_id,
                    TransactionFamily::Unsubscribe,
                    TransactionStage::UnsubscribeAwaitUnsuback,
                    path,
                    false,
                )
            },
        }
    }
}

} // verus!
