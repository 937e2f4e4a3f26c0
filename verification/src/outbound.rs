//! How a session delivers messages to its client.
//!
//! Like the packets of the client, a delivery goes in steps: each returns
//! effects to perform at once and in order, and what comes next. Where that is a
//! [`DeliveryAwait`], the caller performs what it asks for and reports the outcome
//! to the matching `on_` function.

use vstd::prelude::*;

use crate::link::{FlowCloseReason, FlowId, LinkError, ReplyPath, SendReceipt, SendTarget};
use crate::packet::{PacketId, Publish, QoS};
use crate::reason::{ProtocolError, Reason};
use crate::route::{
    PacketIssuer, PacketRouteEntry, PacketRouteKey, PacketRouteLedger, Routes, TransactionFamily,
    TransactionStage,
};
use crate::session::{required_packet_id, route_reason, SessionState, SessionView};

verus! {

/// What a message in the send window awaits.
#[derive(Clone, Copy, Debug, PartialEq, Eq, Structural)]
pub enum MomentStatus {
    /// A QoS 1 message awaits PUBACK.
    UnAck,
    /// A QoS 2 message awaits PUBREC.
    UnReceived,
    /// A QoS 2 message awaits PUBCOMP.
    UnComplete,
}

/// Transaction that a delivery opens, with what the message then awaits.
pub type OutboundTransaction = (
    PacketRouteKey,
    TransactionFamily,
    TransactionStage,
    MomentStatus,
);

/// The path of the transaction where it is open already, which only a retransmission may
/// find.
pub open spec fn existing_path(
    routes: Routes,
    transaction: Option<OutboundTransaction>,
    duplicate: bool,
) -> Result<Option<ReplyPath>, Reason> {
    match transaction {
        None => Ok(None),
        Some((key, family, stage, _)) => if !routes.contains_key(key) {
            Ok(None)
        } else if !duplicate {
            Err(Reason::OutboundPacketIdInUse(key.packet_id))
        } else {
            match crate::route::checked_route(routes, key, family, stage, routes[key].path) {
                Ok(entry) => Ok(Some(entry.path)),
                Err(error) => Err(Reason::OutboundRoute(error)),
            }
        },
    }
}

/// Returns the path of the transaction where it is open already.
pub fn resolve_existing_outbound_route(
    routes: &PacketRouteLedger,
    transaction: Option<OutboundTransaction>,
    duplicate: bool,
) -> (result: Result<Option<ReplyPath>, Reason>)
    ensures
        result == existing_path(routes@, transaction, duplicate),
{
    match transaction {
        None => Ok(None),
        Some((key, family, stage, _)) => {
            let entry = match routes.get(key) {
                Some(entry) => entry,
                None => {
                    return Ok(None);
                },
            };
            if !duplicate {
                return Err(Reason::OutboundPacketIdInUse(key.packet_id()));
            }
            match routes.validate(key, family, stage, entry.path()) {
                Ok(_) => Ok(Some(entry.path())),
                Err(error) => Err(Reason::OutboundRoute(error)),
            }
        },
    }
}

/// What a retransmission has to keep.
#[derive(Clone, Copy, Debug, PartialEq, Eq, Structural)]
pub struct RetryIdentity {
    /// Quality of service of the message.
    pub qos: QoS,
    /// Packet identifier of the transaction.
    pub packet_id: Option<PacketId>,
}

/// Something that has to happen outside the session before a delivery can go on.
#[allow(inconsistent_fields)]
#[derive(Debug)]
pub enum DeliveryAwait {
    /// Draw a packet identifier; report to [`SessionState::on_packet_id`].
    DrawPacketId(Publish),
    /// Show the message to the hooks; report to [`SessionState::on_message_shown`].
    ShowMessage { publish: Publish, retry: Option<RetryIdentity> },
    /// Send the message; report to [`SessionState::on_message_sent`].
    SendMessage {
        publish: Publish,
        target: SendTarget,
        transaction: Option<OutboundTransaction>,
    },
    /// Send PUBREL; report to [`SessionState::on_release_sent`].
    SendRelease { packet_id: PacketId, target: SendTarget },
}

/// Something that is done at once and whose outcome changes nothing.
#[allow(inconsistent_fields)]
#[derive(Debug)]
pub enum DeliveryEffect {
    /// Report the message dropped.
    DropMessage { publish: Publish, reason: Reason },
    /// Put the message at the end of the send window.
    StoreMessage { publish: Publish, status: MomentStatus },
    /// Reset the flow.
    ResetFlow { flow_id: FlowId, reason: FlowCloseReason },
}

/// How a delivery goes on.
#[derive(Debug)]
pub enum DeliveryNext {
    /// The delivery has come to its end.
    Done,
    /// The delivery failed.
    Fail(Reason),
    /// Something has to happen first.
    Await(DeliveryAwait),
}

/// One step of a delivery.
#[derive(Debug)]
pub struct DeliveryStep {
    /// What is done at once, in order.
    pub effects: Vec<DeliveryEffect>,
    /// How the delivery goes on.
    pub next: DeliveryNext,
}

/// What a step makes of a session.
#[verifier::ext_equal]
pub struct DeliveryView {
    /// The session after the step.
    pub state: SessionView,
    /// What is done at once, in order.
    pub effects: Seq<DeliveryEffect>,
    /// How the delivery goes on.
    pub next: DeliveryNext,
}

impl DeliveryStep {
    /// The step together with the session it leaves.
    pub open spec fn with(self, state: SessionView) -> DeliveryView {
        DeliveryView { state, effects: self.effects@, next: self.next }
    }
}

/// The delivery goes on with `next`, with nothing done and nothing changed.
pub open spec fn going_on(state: SessionView, next: DeliveryNext) -> DeliveryView {
    DeliveryView { state, effects: Seq::empty(), next }
}

/// What a retransmission has to keep; nothing for a new message.
pub open spec fn retry_identity(publish: Publish) -> Option<RetryIdentity> {
    if publish.dup {
        Some(RetryIdentity { qos: publish.qos, packet_id: publish.packet_id })
    } else {
        None
    }
}

/// The message is shown to the hooks.
pub open spec fn showing(publish: Publish) -> DeliveryNext {
    DeliveryNext::Await(
        DeliveryAwait::ShowMessage { publish, retry: retry_identity(publish) },
    )
}

/// Begin of a delivery; `expired` says that the lifetime of the message is over.
///
/// A packet identifier is drawn where the message needs one and does not keep that of an
/// earlier transmission.
pub open spec fn delivery_begun(
    state: SessionView,
    publish: Publish,
    expired: bool,
) -> DeliveryView {
    if expired {
        DeliveryView {
            state: match publish.packet_id {
                Some(packet_id) => if publish.dup {
                    SessionView {
                        routes: state.routes.remove(crate::session::server_key(packet_id)),
                        ..state
                    }
                } else {
                    state
                },
                None => state,
            },
            effects: seq![
                DeliveryEffect::DropMessage { publish, reason: Reason::MessageExpiration },
            ],
            next: DeliveryNext::Done,
        }
    } else if publish.qos != QoS::AtMostOnce && (!publish.dup || publish.packet_id is None) {
        going_on(state, DeliveryNext::Await(DeliveryAwait::DrawPacketId(publish)))
    } else {
        going_on(state, showing(publish))
    }
}

/// The transaction that delivering `publish` opens; `None` inside for QoS 0.
pub open spec fn transaction_of(publish: Publish) -> Result<Option<OutboundTransaction>, Reason> {
    match (publish.qos, publish.packet_id) {
        (QoS::AtMostOnce, _) => Ok(None),
        (_, None) => Err(Reason::OutboundPacketIdMissing),
        (QoS::AtLeastOnce, Some(packet_id)) => Ok(
            Some(
                (
                    crate::session::server_key(packet_id),
                    TransactionFamily::PublishQos1,
                    TransactionStage::PublishQos1AwaitPuback,
                    MomentStatus::UnAck,
                ),
            ),
        ),
        (QoS::ExactlyOnce, Some(packet_id)) => Ok(
            Some(
                (
                    crate::session::server_key(packet_id),
                    TransactionFamily::PublishQos2,
                    TransactionStage::PublishQos2AwaitPubrec,
                    MomentStatus::UnReceived,
                ),
            ),
        ),
    }
}

/// Where a message goes: along its transaction, else along a binding, else to the control
/// flow.
pub open spec fn delivery_target(
    state: SessionView,
    existing: Option<ReplyPath>,
    topic: Seq<char>,
) -> SendTarget {
    match existing {
        Some(path) => SendTarget::Reply(path),
        None => match crate::subscription_binding::bound_path(state.bindings, topic) {
            Some(path) => SendTarget::Reply(path),
            None => SendTarget::Control,
        },
    }
}

/// What follows once the hooks have seen the message, and may have replaced it.
pub open spec fn message_shown(
    state: SessionView,
    publish: Publish,
    retry: Option<RetryIdentity>,
) -> DeliveryView {
    if retry is Some && retry_identity(publish) != retry {
        going_on(state, DeliveryNext::Fail(Reason::RetryIdentityChanged))
    } else {
        match transaction_of(publish) {
            Err(reason) => going_on(state, DeliveryNext::Fail(reason)),
            Ok(transaction) => match existing_path(state.routes, transaction, publish.dup) {
                Err(reason) => going_on(state, DeliveryNext::Fail(reason)),
                Ok(existing) => going_on(
                    state,
                    DeliveryNext::Await(
                        DeliveryAwait::SendMessage {
                            publish,
                            target: delivery_target(state, existing, publish.topic@),
                            transaction,
                        },
                    ),
                ),
            },
        }
    }
}

/// Whether a failed send is contained: a QoS 0 message on a data flow.
pub open spec fn failure_is_contained(publish: Publish, target: SendTarget) -> bool {
    &&& publish.qos == QoS::AtMostOnce
    &&& target matches SendTarget::Reply(path) && path.flow_id != FlowId::control()
}

/// What follows once a message has, or has not, been sent.
pub open spec fn message_sent(
    state: SessionView,
    publish: Publish,
    target: SendTarget,
    transaction: Option<OutboundTransaction>,
    result: Result<SendReceipt, LinkError>,
) -> DeliveryView {
    match result {
        Err(error) => if failure_is_contained(publish, target) {
            let flow_id = target->Reply_0.flow_id;
            DeliveryView {
                state: SessionView {
                    bindings: crate::subscription_binding::without_flow(state.bindings, flow_id),
                    ..state
                },
                effects: seq![
                    DeliveryEffect::ResetFlow { flow_id, reason: FlowCloseReason::SendFailed },
                    DeliveryEffect::DropMessage { publish, reason: Reason::ConnectReadWriteError },
                ],
                next: DeliveryNext::Done,
            }
        } else {
            going_on(state, DeliveryNext::Fail(Reason::Link(error)))
        },
        Ok(receipt) => match transaction {
            None => going_on(state, DeliveryNext::Done),
            Some((key, family, stage, status)) => match crate::route::checked_insert_or_duplicate(
                state.routes,
                key,
                family,
                stage,
                receipt.path,
                publish.dup,
            ) {
                Err(error) => going_on(
                    state,
                    DeliveryNext::Fail(Reason::OutboundRoute(error)),
                ),
                Ok(opened) => DeliveryView {
                    state: if opened {
                        SessionView {
                            routes: state.routes.insert(
                                key,
                                PacketRouteEntry { family, stage, path: receipt.path },
                            ),
                            ..state
                        }
                    } else {
                        state
                    },
                    effects: seq![DeliveryEffect::StoreMessage { publish, status }],
                    next: DeliveryNext::Done,
                },
            },
        },
    }
}

/// The transaction of an outbound QoS 2 message whose PUBREL has been sent.
pub open spec fn qos2_released(path: ReplyPath) -> PacketRouteEntry {
    PacketRouteEntry {
        family: TransactionFamily::PublishQos2,
        stage: TransactionStage::PublishQos2AwaitPubcomp,
        path,
    }
}

/// Begin of the retransmission of a message in the send window.
pub open spec fn retransmission_begun(
    state: SessionView,
    status: MomentStatus,
    publish: Publish,
    expired: bool,
) -> DeliveryView {
    match status {
        MomentStatus::UnAck => delivery_begun(state, Publish { dup: true, ..publish }, expired),
        MomentStatus::UnReceived => delivery_begun(
            state,
            Publish { dup: true, ..publish },
            expired,
        ),
        MomentStatus::UnComplete => match publish.packet_id {
            None => if expired {
                going_on(state, DeliveryNext::Done)
            } else {
                going_on(
                    state,
                    DeliveryNext::Fail(Reason::ProtocolError(ProtocolError::MissingPacketId)),
                )
            },
            Some(packet_id) => {
                let key = crate::session::server_key(packet_id);
                let stored = seq![
                    DeliveryEffect::StoreMessage { publish, status: MomentStatus::UnComplete },
                ];
                if expired {
                    going_on(
                        SessionView { routes: state.routes.remove(key), ..state },
                        DeliveryNext::Done,
                    )
                } else if !state.routes.contains_key(key) {
                    DeliveryView {
                        state,
                        effects: stored,
                        next: DeliveryNext::Await(
                            DeliveryAwait::SendRelease { packet_id, target: SendTarget::Control },
                        ),
                    }
                } else {
                    match crate::route::checked_route(
                        state.routes,
                        key,
                        TransactionFamily::PublishQos2,
                        TransactionStage::PublishQos2AwaitPubcomp,
                        state.routes[key].path,
                    ) {
                        Ok(entry) => DeliveryView {
                            state,
                            effects: stored,
                            next: DeliveryNext::Await(
                                DeliveryAwait::SendRelease {
                                    packet_id,
                                    target: SendTarget::Reply(entry.path),
                                },
                            ),
                        },
                        Err(error) => DeliveryView {
                            state,
                            effects: stored,
                            next: DeliveryNext::Fail(crate::session::route_failure(error)),
                        },
                    }
                }
            },
        },
    }
}

/// What follows once a repeated PUBREL has, or has not, been sent.
pub open spec fn release_sent(
    state: SessionView,
    packet_id: PacketId,
    result: Result<SendReceipt, LinkError>,
) -> DeliveryView {
    let key = crate::session::server_key(packet_id);
    match result {
        Err(error) => going_on(state, DeliveryNext::Fail(Reason::Link(error))),
        Ok(receipt) => going_on(
            if state.routes.contains_key(key) {
                state
            } else {
                SessionView {
                    routes: state.routes.insert(key, qos2_released(receipt.path)),
                    ..state
                }
            },
            DeliveryNext::Done,
        ),
    }
}

impl SessionState {
    /// Begins to deliver a message; `expired` says that its lifetime is over.
    pub fn begin_delivery(&mut self, publish: Publish, expired: bool) -> (step: DeliveryStep)
        ensures
            step.with(final(self)@) == delivery_begun(old(self)@, publish, expired),
            final(self).wf() == old(self).wf(),
            final(self).same_settings(old(self)),
    {
        if expired {
            if publish.dup {
                if let Some(packet_id) = publish.packet_id {
                    self.routes.remove(PacketRouteKey::new(PacketIssuer::Server, packet_id));
                }
            }
            let reason = Reason::MessageExpiration;
            let mut effects: Vec<DeliveryEffect> = Vec::new();
            effects.push(DeliveryEffect::DropMessage { publish, reason });
            assert(effects@ =~= seq![
                DeliveryEffect::DropMessage { publish, reason: Reason::MessageExpiration },
            ]);
            return DeliveryStep { effects, next: DeliveryNext::Done };
        }
        let drawn: bool = publish.qos != QoS::AtMostOnce && (!publish.dup
            || publish.packet_id.is_none());
        if drawn {
            DeliveryStep {
                effects: Vec::new(),
                next: DeliveryNext::Await(DeliveryAwait::DrawPacketId(publish)),
            }
        } else {
            show_message(publish)
        }
    }

    /// Goes on once a packet identifier has, or has not, been drawn.
    pub fn on_packet_id(&self, publish: Publish, result: Result<u16, String>) -> (step:
        DeliveryStep)
        ensures
            step.effects@.len() == 0,
            match result {
                Err(error) => step.next == DeliveryNext::Fail(Reason::Service(error)),
                Ok(id) => exists|packet_id: Option<PacketId>|
                    {
                        &&& id == 0 ==> packet_id is None
                        &&& id != 0 ==> (packet_id matches Some(packet_id) && packet_id.get() == id)
                        &&& step.next == #[trigger] showing(Publish { packet_id, ..publish })
                    },
            },
    {
        match result {
            Err(error) => DeliveryStep {
                effects: Vec::new(),
                next: DeliveryNext::Fail(Reason::Service(error)),
            },
            Ok(id) => {
                let packet_id = PacketId::new(id);
                let ghost given = publish;
                let mut publish = publish;
                publish.packet_id = packet_id;
                assert(publish == (Publish { packet_id, ..given }));
                show_message(publish)
            },
        }
    }

    /// Goes on once the hooks have seen the message, and may have replaced it.
    pub fn on_message_shown(&self, publish: Publish, retry: Option<RetryIdentity>) -> (step:
        DeliveryStep)
        requires
            self.wf(),
        ensures
            step.with(self@) == message_shown(self@, publish, retry),
    {
        if let Some(retry) = retry {
            if !publish.dup || publish.qos != retry.qos || !same_packet_id(
                publish.packet_id,
                retry.packet_id,
            ) {
                return DeliveryStep {
                    effects: Vec::new(),
                    next: DeliveryNext::Fail(Reason::RetryIdentityChanged),
                };
            }
        }
        let transaction = match outbound_transaction(&publish) {
            Ok(transaction) => transaction,
            Err(reason) => {
                return DeliveryStep { effects: Vec::new(), next: DeliveryNext::Fail(reason) };
            },
        };
        let existing = match resolve_existing_outbound_route(
            &self.routes,
            transaction,
            publish.dup,
        ) {
            Ok(existing) => existing,
            Err(reason) => {
                return DeliveryStep { effects: Vec::new(), next: DeliveryNext::Fail(reason) };
            },
        };
        let target = match existing {
            Some(path) => SendTarget::Reply(path),
            None => match self.subscription_bindings.route(publish.topic.as_str()) {
                Some(path) => SendTarget::Reply(path),
                None => SendTarget::Control,
            },
        };
        DeliveryStep {
            effects: Vec::new(),
            next: DeliveryNext::Await(DeliveryAwait::SendMessage { publish, target, transaction }),
        }
    }

    /// Goes on once a message has, or has not, been sent.
    ///
    /// A QoS 0 message that fails on a data flow costs that flow, not the session.
    pub fn on_message_sent(
        &mut self,
        publish: Publish,
        target: SendTarget,
        transaction: Option<OutboundTransaction>,
        result: Result<SendReceipt, LinkError>,
    ) -> (step: DeliveryStep)
        requires
            old(self).wf(),
        ensures
            step.with(final(self)@) == message_sent(
                old(self)@,
                publish,
                target,
                transaction,
                result,
            ),
            final(self).wf(),
            final(self).same_settings(old(self)),
    {
        let receipt = match result {
            Ok(receipt) => receipt,
            Err(error) => {
                if publish.qos == QoS::AtMostOnce {
                    if let SendTarget::Reply(path) = target {
                        if path.flow_id() != FlowId::control() {
                            let flow_id = path.flow_id();
                            self.subscription_bindings.remove_flow(flow_id);
                            let mut effects: Vec<DeliveryEffect> = Vec::new();
                            effects.push(
                                DeliveryEffect::ResetFlow {
                                    flow_id,
                                    reason: FlowCloseReason::SendFailed,
                                },
                            );
                            effects.push(
                                DeliveryEffect::DropMessage {
                                    publish,
                                    reason: Reason::ConnectReadWriteError,
                                },
                            );
                            assert(effects@ =~= seq![
                                DeliveryEffect::ResetFlow {
                                    flow_id,
                                    reason: FlowCloseReason::SendFailed,
                                },
                                DeliveryEffect::DropMessage {
                                    publish,
                                    reason: Reason::ConnectReadWriteError,
                                },
                            ]);
                            return DeliveryStep { effects, next: DeliveryNext::Done };
                        }
                    }
                }
                return DeliveryStep {
                    effects: Vec::new(),
                    next: DeliveryNext::Fail(Reason::Link(error)),
                };
            },
        };
        match transaction {
            None => DeliveryStep { effects: Vec::new(), next: DeliveryNext::Done },
            Some((key, family, stage, status)) => {
                match self.routes.insert_or_validate_duplicate(
                    key,
                    family,
                    stage,
                    receipt.path(),
                    publish.dup,
                ) {
                    Err(error) => DeliveryStep {
                        effects: Vec::new(),
                        next: DeliveryNext::Fail(Reason::OutboundRoute(error)),
                    },
                    Ok(_) => {
                        let mut effects: Vec<DeliveryEffect> = Vec::new();
                        effects.push(DeliveryEffect::StoreMessage { publish, status });
                        assert(effects@ =~= seq![DeliveryEffect::StoreMessage { publish, status }]);
                        DeliveryStep { effects, next: DeliveryNext::Done }
                    },
                }
            },
        }
    }

    /// Begins to retransmit a message of the send window; `expired` says that its lifetime
    /// is over.
    pub fn begin_retransmission(
        &mut self,
        status: MomentStatus,
        publish: Publish,
        expired: bool,
    ) -> (step: DeliveryStep)
        ensures
            step.with(final(self)@) == retransmission_begun(
                old(self)@,
                status,
                publish,
                expired,
            ),
            final(self).wf() == old(self).wf(),
            final(self).same_settings(old(self)),
    {
        match status {
            MomentStatus::UnComplete => {
                if expired {
                    if let Some(packet_id) = publish.packet_id {
                        self.routes.remove(PacketRouteKey::new(PacketIssuer::Server, packet_id));
                    }
                    return DeliveryStep { effects: Vec::new(), next: DeliveryNext::Done };
                }
                self.begin_release(publish)
            },
            _ => {
                let mut publish = publish;
                publish.dup = true;
                self.begin_delivery(publish, expired)
            },
        }
    }

    fn begin_release(&mut self, publish: Publish) -> (step: DeliveryStep)
        ensures
            step.with(final(self)@) == retransmission_begun(
                old(self)@,
                MomentStatus::UnComplete,
                publish,
                false,
            ),
            final(self).wf() == old(self).wf(),
            final(self).same_settings(old(self)),
    {
        let packet_id = match required_packet_id(publish.packet_id) {
            Ok(packet_id) => packet_id,
            Err(reason) => {
                return DeliveryStep { effects: Vec::new(), next: DeliveryNext::Fail(reason) };
            },
        };
        let mut effects: Vec<DeliveryEffect> = Vec::new();
        effects.push(
            DeliveryEffect::StoreMessage { publish, status: MomentStatus::UnComplete },
        );
        assert(effects@ =~= seq![
            DeliveryEffect::StoreMessage { publish, status: MomentStatus::UnComplete },
        ]);
        let key = PacketRouteKey::new(PacketIssuer::Server, packet_id);
        let next = match self.routes.get(key) {
            None => DeliveryNext::Await(
                DeliveryAwait::SendRelease { packet_id, target: SendTarget::Control },
            ),
            Some(route) => {
                match self.routes.transition(
                    key,
                    TransactionFamily::PublishQos2,
                    TransactionStage::PublishQos2AwaitPubcomp,
                    TransactionStage::PublishQos2AwaitPubcomp,
                    route.path(),
                ) {
                    Ok(_) => {
                        assert(self.routes@ =~= old(self).routes@);
                        DeliveryNext::Await(
                            DeliveryAwait::SendRelease {
                                packet_id,
                                target: SendTarget::Reply(route.path()),
                            },
                        )
                    },
                    Err(error) => DeliveryNext::Fail(route_reason(error)),
                }
            },
        };
        DeliveryStep { effects, next }
    }

    /// Goes on once a repeated PUBREL has, or has not, been sent. Where the transaction was
    /// not known, it runs on the path that the PUBREL took.
    pub fn on_release_sent(&mut self, packet_id: PacketId, result: Result<SendReceipt, LinkError>) -> (step:
        DeliveryStep)
        ensures
            step.with(final(self)@) == release_sent(old(self)@, packet_id, result),
            final(self).wf() == old(self).wf(),
            final(self).same_settings(old(self)),
    {
        let receipt = match result {
            Ok(receipt) => receipt,
            Err(error) => {
                return DeliveryStep {
                    effects: Vec::new(),
                    next: DeliveryNext::Fail(Reason::Link(error)),
                };
            },
        };
        let key = PacketRouteKey::new(PacketIssuer::Server, packet_id);
        if self.routes.get(key).is_none() {
            match self.routes.insert(
                key,
                TransactionFamily::PublishQos2,
                TransactionStage::PublishQos2AwaitPubcomp,
                receipt.path(),
            ) {
                Ok(()) => {},
                Err(error) => {
                    return DeliveryStep {
                        effects: Vec::new(),
                        next: DeliveryNext::Fail(route_reason(error)),
                    };
                },
            }
        }
        DeliveryStep { effects: Vec::new(), next: DeliveryNext::Done }
    }
}

fn same_packet_id(a: Option<PacketId>, b: Option<PacketId>) -> (same: bool)
    ensures
        same == (a == b),
{
    match (a, b) {
        (Some(a), Some(b)) => a == b,
        (None, None) => true,
        _ => false,
    }
}

fn show_message(publish: Publish) -> (step: DeliveryStep)
    ensures
        step.effects@.len() == 0,
        step.next == showing(publish),
{
    let retry = if publish.dup {
        Some(RetryIdentity { qos: publish.qos, packet_id: publish.packet_id })
    } else {
        None
    };
    DeliveryStep {
        effects: Vec::new(),
        next: DeliveryNext::Await(DeliveryAwait::ShowMessage { publish, retry }),
    }
}

fn outbound_transaction(publish: &Publish) -> (result: Result<Option<OutboundTransaction>, Reason>)
    ensures
        result == transaction_of(*publish),
{
    match publish.qos {
        QoS::AtMostOnce => Ok(None),
        QoS::AtLeastOnce => match publish.packet_id {
            Some(packet_id) => Ok(
                Some(
                    (
                        PacketRouteKey::new(PacketIssuer::Server, packet_id),
                        TransactionFamily::PublishQos1,
                        TransactionStage::PublishQos1AwaitPuback,
                        MomentStatus::UnAck,
                    ),
                ),
            ),
            None => Err(Reason::OutboundPacketIdMissing),
        },
        QoS::ExactlyOnce => match publish.packet_id {
            Some(packet_id) => Ok(
                Some(
                    (
                        PacketRouteKey::new(PacketIssuer::Server, packet_id),
                        TransactionFamily::PublishQos2,
                        TransactionStage::PublishQos2AwaitPubrec,
                        MomentStatus::UnReceived,
                    ),
                ),
            ),
            None => Err(Reason::OutboundPacketIdMissing),
        },
    }
}

} // verus!
