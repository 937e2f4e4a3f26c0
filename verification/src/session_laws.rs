//! What holds of a session over several steps.

use vstd::prelude::*;

use crate::inbound;
use crate::inbound::{
    Await, Effect, InboundPublish, Next, Reply, Request, Sent, StepView, SubscribeReply,
    SubscribeRequest, UnsubscribeReply, UnsubscribeRequest,
};
use crate::lifecycle::LoopEvent;
use crate::link::{FlowCloseReason, LinkError, ReplyPath, SendReceipt, SendTarget};
use crate::outbound;
use crate::outbound::{
    DeliveryAwait, DeliveryEffect, DeliveryNext, DeliveryView, MomentStatus, OutboundTransaction,
    RetryIdentity,
};
use crate::packet::{
    Disconnect, Packet, PacketId, PacketV3, PacketV5, Publish, PublishAck, PublishAck2,
    PublishAckReason, QoS, SubscribeV5, UnsubscribeV5,
};
use crate::reason::{ProtocolError, PublishResult, Reason};
use crate::route::{
    PacketIssuer, PacketRouteEntry, PacketRouteKey, RouteError, Routes, TransactionFamily,
    TransactionStage,
};
use crate::session::{SessionView, StateFlags};
use crate::subscription_binding::{Binding, BindingState, Bindings};
use crate::topic::TopicFilter;

verus! {

/// Whatever the client sends, the reply that is sent in answer goes to exactly the path on
/// which the packet came.
pub proof fn replies_return_on_the_path_of_the_packet(
    state: SessionView,
    packet: Packet,
    path: ReplyPath,
    resumed: bool,
    now: i64,
)
    ensures
        inbound::packet_begun(state, packet, path, resumed, now).next matches Next::Await(
            Await::Send { path: reply_path, .. },
        ) ==> reply_path == path,
{
}

/// The PUBACK or PUBREC of a message, like the SUBACK and UNSUBACK of a request, goes to
/// the path on which the transaction was opened.
pub proof fn acknowledgements_return_on_the_path_of_the_transaction(
    state: SessionView,
    transaction: InboundPublish,
    published: Result<PublishResult, Reason>,
    packet_id: PacketId,
    path: ReplyPath,
    subscribed: Result<(SubscribeReply, Vec<TopicFilter>), String>,
    unsubscribed: Result<(UnsubscribeReply, Vec<TopicFilter>), String>,
)
    ensures
        inbound::published_step(state, Some(transaction), published).next matches Next::Await(
            Await::Send { path: reply_path, .. },
        ) ==> reply_path == transaction.path,
        inbound::subscribed_step(state, packet_id, path, subscribed).next matches Next::Await(
            Await::Send { path: reply_path, .. },
        ) ==> reply_path == path,
        inbound::unsubscribed_step(state, packet_id, path, unsubscribed).next matches Next::Await(
            Await::Send { path: reply_path, .. },
        ) ==> reply_path == path,
{
}

/// A QoS 2 message that was taken is never published again: while its transaction is open,
/// a retransmission on its path is answered with PUBREC and changes nothing, on another
/// path it ends the session, and so does a PUBLISH with the same identifier that claims to
/// be new.
pub proof fn taken_messages_are_published_once(
    state: SessionView,
    publish: Publish,
    packet_id: PacketId,
    path: ReplyPath,
    open_path: ReplyPath,
    resumed: bool,
)
    requires
        publish.qos == QoS::ExactlyOnce,
        publish.packet_id == Some(packet_id),
        state.routes.contains_key(crate::session::client_key(packet_id)),
        state.routes[crate::session::client_key(packet_id)] == crate::session::qos2_inbound(
            open_path,
        ),
    ensures
        publish.dup && path == open_path ==> inbound::publish_begun(state, publish, path, resumed)
            == inbound::waiting(
            state,
            Seq::empty(),
            Await::Send {
                reply: Reply::PublishReceived { packet_id, result: None },
                path,
                sent: Sent::Nothing,
            },
        ),
        !(publish.dup && path == open_path) ==> inbound::publish_begun(
            state,
            publish,
            path,
            resumed,
        ).next is Fail,
        inbound::publish_begun(state, publish, path, resumed).state == state,
{
}

/// A QoS 2 message that was taken over an earlier connection of the session is not
/// published again either: its retransmission rebuilds the transaction on the new path and
/// is answered with PUBREC.
pub proof fn resumed_messages_are_published_once(
    state: SessionView,
    publish: Publish,
    packet_id: PacketId,
    path: ReplyPath,
)
    requires
        publish.qos == QoS::ExactlyOnce,
        publish.packet_id == Some(packet_id),
        !state.routes.contains_key(crate::session::client_key(packet_id)),
    ensures
        publish.dup ==> inbound::publish_begun(state, publish, path, true) == inbound::waiting(
            inbound::with_routes(
                state,
                state.routes.insert(
                    crate::session::client_key(packet_id),
                    crate::session::qos2_inbound(path),
                ),
            ),
            Seq::empty(),
            Await::Send {
                reply: Reply::PublishReceived { packet_id, result: None },
                path,
                sent: Sent::Nothing,
            },
        ),
        !publish.dup ==> inbound::publish_begun(state, publish, path, true) == inbound::failed(
            state,
            Seq::empty(),
            Reason::PacketIdInUse(packet_id),
        ),
{
}

/// A QoS 1 message runs from PUBLISH to PUBACK: it is entered, published and acknowledged
/// on its path, and then leaves no trace in the ledger.
pub proof fn qos1_runs_to_completion(
    state: SessionView,
    publish: Publish,
    packet_id: PacketId,
    path: ReplyPath,
    resumed: bool,
    reserved: bool,
    result: PublishResult,
    receipt: SendReceipt,
)
    requires
        publish.qos == QoS::AtLeastOnce,
        publish.packet_id == Some(packet_id),
        !state.routes.contains_key(crate::session::client_key(packet_id)),
    ensures
        ({
            let begun = inbound::publish_begun(state, publish, path, resumed);
            let entered = inbound::reserved_step(begun.state, publish, packet_id, path, Ok(reserved));
            let transaction = InboundPublish { packet_id, path, exactly_once: false, reserved };
            let taken = inbound::published_step(entered.state, Some(transaction), Ok(result));
            let sent = Sent::Puback { packet_id, reserved };
            let done = inbound::sent_step(taken.state, sent, path, Ok(receipt));
            &&& begun.next == Next::Await(Await::Reserve { publish, packet_id, path })
            &&& entered.next == Next::Await(
                Await::Publish { publish, transaction: Some(transaction) },
            )
            &&& taken.next == Next::Await(
                Await::Send { reply: Reply::PublishAck { packet_id, result }, path, sent },
            )
            &&& done.next == Next::Done
            &&& done.state.routes == state.routes
            &&& done.state.bindings == state.bindings
        }),
{
    let begun = inbound::publish_begun(state, publish, path, resumed);
    assert(begun.state.routes.remove(crate::session::client_key(packet_id)) =~= state.routes);
}

/// A QoS 2 message runs from PUBLISH over PUBREC and PUBREL to PUBCOMP, all on its path,
/// and then leaves no trace in the ledger.
pub proof fn qos2_runs_to_completion(
    state: SessionView,
    publish: Publish,
    packet_id: PacketId,
    path: ReplyPath,
    reserved: bool,
    result: PublishResult,
    receipt: SendReceipt,
    pubrel: Packet,
    resumed: bool,
    now: i64,
)
    requires
        publish.qos == QoS::ExactlyOnce,
        publish.packet_id == Some(packet_id),
        !state.routes.contains_key(crate::session::client_key(packet_id)),
        result.is_success(),
        inbound::request_of(pubrel) == Request::PublishRelease(packet_id),
    ensures
        ({
            let begun = inbound::publish_begun(state, publish, path, false);
            let entered = inbound::reserved_step(begun.state, publish, packet_id, path, Ok(reserved));
            let transaction = InboundPublish { packet_id, path, exactly_once: true, reserved };
            let taken = inbound::published_step(entered.state, Some(transaction), Ok(result));
            let received = inbound::sent_step(taken.state, Sent::Nothing, path, Ok(receipt));
            let released = inbound::packet_begun(received.state, pubrel, path, resumed, now);
            let done = inbound::sent_step(released.state, Sent::Pubcomp(packet_id), path, Ok(receipt));
            &&& begun.next == Next::Await(Await::Reserve { publish, packet_id, path })
            &&& entered.next == Next::Await(
                Await::Publish { publish, transaction: Some(transaction) },
            )
            &&& taken.next == Next::Await(
                Await::Send {
                    reply: Reply::PublishReceived { packet_id, result: Some(result) },
                    path,
                    sent: Sent::Nothing,
                },
            )
            &&& received.next == Next::Done
            &&& released.next == Next::Await(
                Await::Send {
                    reply: Reply::PublishComplete { packet_id },
                    path,
                    sent: Sent::Pubcomp(packet_id),
                },
            )
            &&& done.next == Next::Done
            &&& done.state.routes == state.routes
            &&& done.state.bindings == state.bindings
        }),
{
    let opened = state.routes.insert(
        crate::session::client_key(packet_id),
        crate::session::qos2_inbound(path),
    );
    assert(opened.remove(crate::session::client_key(packet_id)) =~= state.routes);
}

/// A message that could not be entered or published leaves the ledger as it was before its
/// PUBLISH, and its identifier does not stay in the receive window.
pub proof fn failed_messages_leave_no_transaction(
    state: SessionView,
    publish: Publish,
    packet_id: PacketId,
    path: ReplyPath,
    reserved: bool,
    reason: Reason,
)
    requires
        publish.qos != QoS::AtMostOnce,
        publish.packet_id == Some(packet_id),
        !state.routes.contains_key(crate::session::client_key(packet_id)),
    ensures
        ({
            let begun = inbound::publish_begun(state, publish, path, false);
            let refused = inbound::reserved_step(begun.state, publish, packet_id, path, Err(reason));
            let exactly_once = publish.qos == QoS::ExactlyOnce;
            let transaction = InboundPublish { packet_id, path, exactly_once, reserved };
            let entered = inbound::reserved_step(begun.state, publish, packet_id, path, Ok(reserved));
            let unpublished = inbound::published_step(entered.state, Some(transaction), Err(reason));
            &&& refused.next == Next::Fail(reason)
            &&& refused.state == state
            &&& entered.next == Next::Await(
                Await::Publish { publish, transaction: Some(transaction) },
            )
            &&& unpublished.next == Next::Fail(reason)
            &&& unpublished.state == state
            &&& reserved ==> unpublished.effects == seq![Effect::ReleaseInbound(packet_id)]
        }),
{
    let begun = inbound::publish_begun(state, publish, path, false);
    assert(begun.state.routes.remove(crate::session::client_key(packet_id)) =~= state.routes);
}

/// Subscribing runs from SUBSCRIBE to SUBACK: until the SUBACK has been sent no message
/// follows the new bindings, afterwards each filter that was granted is bound to the path
/// of its SUBSCRIBE, and no transaction is left.
pub proof fn subscribing_runs_to_completion(
    state: SessionView,
    request: SubscribeRequest,
    path: ReplyPath,
    reply: SubscribeReply,
    bound: Vec<TopicFilter>,
    receipt: SendReceipt,
)
    requires
        !state.routes.contains_key(crate::session::client_key(request.packet_id())),
    ensures
        ({
            let packet_id = request.packet_id();
            let begun = inbound::opening(
                state,
                packet_id,
                TransactionFamily::Subscribe,
                TransactionStage::SubscribeAwaitSuback,
                path,
                Await::Subscribe { request, path },
            );
            let made = inbound::subscribed_step(begun.state, packet_id, path, Ok((reply, bound)));
            let sent = Sent::Suback { packet_id, bound };
            let done = inbound::sent_step(made.state, sent, path, Ok(receipt));
            &&& begun.next == Next::Await(Await::Subscribe { request, path })
            &&& made.next == Next::Await(
                Await::Send { reply: Reply::SubscribeAck(reply), path, sent },
            )
            &&& forall|i: int|
                0 <= i < bound@.len() ==> made.state.bindings[(#[trigger] bound@[i])@] == (Binding {
                    path,
                    state: BindingState::PendingAck,
                })
            &&& done.next == Next::Done
            &&& done.state.routes == state.routes
            &&& forall|i: int|
                0 <= i < bound@.len() ==> done.state.bindings.contains_key(
                    (#[trigger] bound@[i])@,
                ) && done.state.bindings[bound@[i]@] == (Binding {
                    path,
                    state: BindingState::Active,
                })
            &&& forall|filter: Seq<char>|
                !(#[trigger] names(bound@, filter)) ==> done.state.bindings.contains_key(filter)
                    == state.bindings.contains_key(filter) && done.state.bindings[filter]
                    == state.bindings[filter]
        }),
{
    let packet_id = request.packet_id();
    let begun = inbound::opening(
        state,
        packet_id,
        TransactionFamily::Subscribe,
        TransactionStage::SubscribeAwaitSuback,
        path,
        Await::Subscribe { request, path },
    );
    assert(begun.state.routes.remove(crate::session::client_key(packet_id)) =~= state.routes);
    let pending = inbound::all_begun(state.bindings, bound@, path);
    let active = inbound::all_activated(pending, bound@);
    lemma_all_begun(state.bindings, bound@, path);
    lemma_all_activated(pending, bound@);
    assert forall|i: int| 0 <= i < bound@.len() implies active.contains_key((#[trigger] bound@[i])@)
        && active[bound@[i]@] == (Binding { path, state: BindingState::Active }) by {
        assert(pending.contains_key(bound@[i]@));
        assert(active[bound@[i]@].path == pending[bound@[i]@].path);
    }
    let made = inbound::subscribed_step(begun.state, packet_id, path, Ok((reply, bound)));
    assert(made.state.bindings == pending);
    let done = inbound::sent_step(
        made.state,
        Sent::Suback { packet_id, bound },
        path,
        Ok(receipt),
    );
    assert(done.state.bindings == active);
    assert(done.state.routes == state.routes);
}

/// Whether `filter` is the text of one of `filters`.
pub open spec fn names(filters: Seq<TopicFilter>, filter: Seq<char>) -> bool {
    exists|i: int| 0 <= i < filters.len() && (#[trigger] filters[i])@ == filter
}

proof fn lemma_names(filters: Seq<TopicFilter>, filter: Seq<char>)
    requires
        filters.len() > 0,
        !names(filters, filter),
    ensures
        !names(filters.drop_last(), filter),
        filters.last()@ != filter,
{
    let rest = filters.drop_last();
    if names(rest, filter) {
        let i = choose|i: int| 0 <= i < rest.len() && (#[trigger] rest[i])@ == filter;
        assert(filters[i]@ == filter);
    }
    assert(filters[filters.len() - 1]@ != filter);
}

proof fn lemma_all_begun(bindings: Bindings, filters: Seq<TopicFilter>, path: ReplyPath)
    ensures
        forall|i: int|
            0 <= i < filters.len() ==> inbound::all_begun(bindings, filters, path).contains_key(
                (#[trigger] filters[i])@,
            ) && inbound::all_begun(bindings, filters, path)[filters[i]@] == (Binding {
                path,
                state: BindingState::PendingAck,
            }),
        forall|filter: Seq<char>|
            !(#[trigger] names(filters, filter)) ==> inbound::all_begun(
                bindings,
                filters,
                path,
            ).contains_key(filter) == bindings.contains_key(filter) && inbound::all_begun(
                bindings,
                filters,
                path,
            )[filter] == bindings[filter],
    decreases filters.len(),
{
    if filters.len() > 0 {
        let rest = filters.drop_last();
        lemma_all_begun(bindings, rest, path);
        assert forall|i: int| 0 <= i < filters.len() implies inbound::all_begun(
            bindings,
            filters,
            path,
        ).contains_key((#[trigger] filters[i])@) && inbound::all_begun(bindings, filters, path)[filters[i]@]
            == (Binding { path, state: BindingState::PendingAck }) by {
            if i < rest.len() {
                assert(rest[i] == filters[i]);
            }
        }
        assert forall|filter: Seq<char>| !(#[trigger] names(filters, filter)) implies !names(
            rest,
            filter,
        ) && filters.last()@ != filter by {
            lemma_names(filters, filter);
        }
    }
}

proof fn lemma_all_activated(bindings: Bindings, filters: Seq<TopicFilter>)
    ensures
        forall|filter: Seq<char>| #[trigger]
            inbound::all_activated(bindings, filters).contains_key(filter) == bindings.contains_key(filter),
        forall|filter: Seq<char>|
            bindings.contains_key(filter) ==> (#[trigger] inbound::all_activated(
                bindings,
                filters,
            )[filter]).path == bindings[filter].path,
        forall|i: int|
            0 <= i < filters.len() && bindings.contains_key((#[trigger] filters[i])@)
                ==> inbound::all_activated(bindings, filters)[filters[i]@].state == BindingState::Active,
        forall|filter: Seq<char>|
            !(#[trigger] names(filters, filter)) ==> inbound::all_activated(
                bindings,
                filters,
            )[filter] == bindings[filter],
    decreases filters.len(),
{
    if filters.len() > 0 {
        let rest = filters.drop_last();
        let last = filters.last()@;
        lemma_all_activated(bindings, rest);
        let before = inbound::all_activated(bindings, rest);
        let after = inbound::all_activated(bindings, filters);
        assert(after == crate::subscription_binding::activated(before, last));
        assert forall|i: int|
            0 <= i < filters.len() && bindings.contains_key(
                (#[trigger] filters[i])@,
            ) implies after[filters[i]@].state == BindingState::Active by {
            if i < rest.len() {
                assert(rest[i] == filters[i]);
            }
        }
        assert forall|filter: Seq<char>| !(#[trigger] names(filters, filter)) implies !names(
            rest,
            filter,
        ) && filters.last()@ != filter by {
            lemma_names(filters, filter);
        }
    }
}

/// No packet of the client opens, moves on or closes a transaction of the broker except
/// the acknowledgement of that very transaction.
pub proof fn client_packets_touch_only_their_own_transaction(
    state: SessionView,
    packet: Packet,
    path: ReplyPath,
    resumed: bool,
    now: i64,
    key: PacketRouteKey,
)
    requires
        match inbound::request_of(packet) {
            Request::Publish(publish) => publish.packet_id != Some(key.packet_id) || key.issuer
                == PacketIssuer::Server,
            Request::PublishRelease(packet_id) => key != crate::session::client_key(packet_id),
            Request::PublishAck(packet_id) => key != crate::session::server_key(packet_id),
            Request::PublishReceived(packet_id) => key != crate::session::server_key(packet_id),
            Request::PublishComplete(packet_id) => key != crate::session::server_key(packet_id),
            Request::Subscribe(request) => key != crate::session::client_key(request.packet_id()),
            Request::Unsubscribe(request) => key != crate::session::client_key(
                request.packet_id(),
            ),
            _ => true,
        },
    ensures
        ({
            let after = inbound::packet_begun(state, packet, path, resumed, now).state.routes;
            &&& after.contains_key(key) == state.routes.contains_key(key)
            &&& after.contains_key(key) ==> after[key] == state.routes[key]
        }),
{
}

/// Every step that a packet of the client takes keeps each transaction at a stage of its own
/// family.
pub proof fn steps_keep_the_ledger_consistent(
    state: SessionView,
    packet: Packet,
    path: ReplyPath,
    resumed: bool,
    now: i64,
    publish: Publish,
    packet_id: PacketId,
    reserved: Result<bool, Reason>,
    transaction: Option<InboundPublish>,
    published: Result<PublishResult, Reason>,
    subscribed: Result<(SubscribeReply, Vec<TopicFilter>), String>,
    unsubscribed: Result<(UnsubscribeReply, Vec<TopicFilter>), String>,
    sent: Sent,
    receipt: Result<SendReceipt, LinkError>,
)
    requires
        crate::route::consistent(state.routes),
    ensures
        crate::route::consistent(inbound::packet_begun(state, packet, path, resumed, now).state.routes),
        crate::route::consistent(
            inbound::reserved_step(state, publish, packet_id, path, reserved).state.routes,
        ),
        crate::route::consistent(inbound::published_step(state, transaction, published).state.routes),
        crate::route::consistent(
            inbound::subscribed_step(state, packet_id, path, subscribed).state.routes,
        ),
        crate::route::consistent(
            inbound::unsubscribed_step(state, packet_id, path, unsubscribed).state.routes,
        ),
        crate::route::consistent(inbound::sent_step(state, sent, path, receipt).state.routes),
{
}

/// Every step of a delivery and of a retransmission keeps each transaction at a stage of its
/// own family, and so does what an event of the connection leaves of a session.
pub proof fn deliveries_keep_the_ledger_consistent(
    state: SessionView,
    publish: Publish,
    expired: bool,
    retry: Option<RetryIdentity>,
    target: SendTarget,
    transaction: Option<OutboundTransaction>,
    status: MomentStatus,
    packet_id: PacketId,
    receipt: Result<SendReceipt, LinkError>,
    event: LoopEvent,
)
    requires
        crate::route::consistent(state.routes),
    ensures
        crate::route::consistent(outbound::delivery_begun(state, publish, expired).state.routes),
        crate::route::consistent(outbound::message_shown(state, publish, retry).state.routes),
        crate::route::consistent(
            outbound::message_sent(state, publish, target, transaction, receipt).state.routes,
        ),
        crate::route::consistent(
            outbound::retransmission_begun(state, status, publish, expired).state.routes,
        ),
        crate::route::consistent(outbound::release_sent(state, packet_id, receipt).state.routes),
        crate::route::consistent(crate::lifecycle::after_loop_event(state, event).routes),
{
}

/// A packet that does not fit the transactions under way ends the session and changes
/// neither transactions nor bindings.
pub proof fn refused_packets_change_nothing(
    state: SessionView,
    packet: Packet,
    path: ReplyPath,
    resumed: bool,
    now: i64,
)
    ensures
        inbound::packet_begun(state, packet, path, resumed, now).next is Fail ==> inbound::packet_begun(
            state,
            packet,
            path,
            resumed,
            now,
        ).state == state,
{
}

/// A retransmission goes out on exactly the path on which its transaction runs, whatever
/// bindings there are; a new message is never given an identifier that is in use.
pub proof fn retransmissions_stay_on_the_path_of_the_transaction(
    state: SessionView,
    publish: Publish,
    packet_id: PacketId,
)
    requires
        publish.packet_id == Some(packet_id),
        state.routes.contains_key(crate::session::server_key(packet_id)),
        publish.qos == QoS::AtLeastOnce && state.routes[crate::session::server_key(packet_id)].stage
            == TransactionStage::PublishQos1AwaitPuback || publish.qos == QoS::ExactlyOnce
            && state.routes[crate::session::server_key(packet_id)].stage
            == TransactionStage::PublishQos2AwaitPubrec,
        crate::route::consistent(state.routes),
    ensures
        ({
            let route = state.routes[crate::session::server_key(packet_id)];
            let shown = outbound::message_shown(
                state,
                publish,
                outbound::retry_identity(publish),
            );
            &&& publish.dup ==> (shown.next matches DeliveryNext::Await(
                DeliveryAwait::SendMessage { target, .. },
            ) && target == SendTarget::Reply(route.path))
            &&& !publish.dup ==> shown.next == DeliveryNext::Fail(
                Reason::OutboundPacketIdInUse(packet_id),
            )
        }),
{
    let key = crate::session::server_key(packet_id);
    assert(state.routes.contains_key(key));
}

/// A retransmission that is sent is what it was: hooks can change neither its quality of
/// service nor its packet identifier, nor make it look new.
pub proof fn retransmissions_keep_their_identity(
    state: SessionView,
    publish: Publish,
    shown: Publish,
)
    requires
        publish.dup,
    ensures
        outbound::message_shown(
            state,
            shown,
            outbound::retry_identity(publish),
        ).next matches DeliveryNext::Await(DeliveryAwait::SendMessage { publish: sent, .. }) ==> {
            &&& sent.dup
            &&& sent.qos == publish.qos
            &&& sent.packet_id == publish.packet_id
        },
{
}

/// Packet identifiers of the client are shared by all flows: while one is in use, whichever
/// flow its transaction runs on, nothing else can be begun with it on any flow.
pub proof fn identifiers_are_shared_by_all_flows(
    state: SessionView,
    packet: Packet,
    packet_id: PacketId,
    path: ReplyPath,
    resumed: bool,
    now: i64,
)
    requires
        state.routes.contains_key(crate::session::client_key(packet_id)),
        match inbound::request_of(packet) {
            Request::Subscribe(request) => request.packet_id() == packet_id,
            Request::Unsubscribe(request) => request.packet_id() == packet_id,
            Request::Publish(publish) => publish.packet_id == Some(packet_id) && (publish.qos
                == QoS::AtLeastOnce || publish.qos == QoS::ExactlyOnce && !publish.dup),
            _ => false,
        },
    ensures
        inbound::packet_begun(state, packet, path, resumed, now).next is Fail,
        inbound::packet_begun(state, packet, path, resumed, now).state == state,
{
}

/// Without a binding that leads it elsewhere, a new message goes to the control flow.
pub proof fn unbound_messages_take_the_control_flow(
    state: SessionView,
    publish: Publish,
    packet_id: PacketId,
)
    requires
        publish.packet_id == Some(packet_id),
        !state.routes.contains_key(crate::session::server_key(packet_id)),
        crate::subscription_binding::bound_path(state.bindings, publish.topic@) is None,
    ensures
        outbound::message_shown(
            state,
            publish,
            outbound::retry_identity(publish),
        ).next matches DeliveryNext::Await(
            DeliveryAwait::SendMessage { target, .. },
        ) && target == SendTarget::Control,
{
}

/// A QoS 1 message to the client runs from PUBLISH to PUBACK on the path on which it was
/// sent, and then leaves no trace in the ledger.
pub proof fn delivery_of_qos1_runs_to_completion(
    state: SessionView,
    publish: Publish,
    packet_id: PacketId,
    receipt: SendReceipt,
    puback: Packet,
    resumed: bool,
    now: i64,
)
    requires
        publish.qos == QoS::AtLeastOnce,
        publish.packet_id == Some(packet_id),
        !state.routes.contains_key(crate::session::server_key(packet_id)),
        inbound::request_of(puback) == Request::PublishAck(packet_id),
    ensures
        ({
            let shown = outbound::message_shown(
                state,
                publish,
                outbound::retry_identity(publish),
            );
            let wait = shown.next->Await_0;
            let sent = outbound::message_sent(
                shown.state,
                publish,
                wait->SendMessage_target,
                wait->SendMessage_transaction,
                Ok(receipt),
            );
            let done = inbound::packet_begun(sent.state, puback, receipt.path, resumed, now);
            &&& shown.next is Await
            &&& wait is SendMessage
            &&& sent.next == DeliveryNext::Done
            &&& sent.effects == seq![
                DeliveryEffect::StoreMessage { publish, status: MomentStatus::UnAck },
            ]
            &&& done.next == Next::Done
            &&& done.effects[0] == Effect::AcknowledgeOutbound(packet_id)
            &&& done.state.routes == state.routes
        }),
{
    let key = crate::session::server_key(packet_id);
    assert forall|entry: crate::route::PacketRouteEntry|
        (#[trigger] state.routes.insert(key, entry)).remove(key) == state.routes by {
        assert(state.routes.insert(key, entry).remove(key) =~= state.routes);
    }
}

/// A QoS 2 message to the client runs from PUBLISH over PUBREC and PUBREL to PUBCOMP on the
/// path on which it was sent, and then leaves no trace in the ledger. A repeated PUBREC is
/// answered with the same PUBREL and changes nothing.
pub proof fn delivery_of_qos2_runs_to_completion(
    state: SessionView,
    publish: Publish,
    packet_id: PacketId,
    receipt: SendReceipt,
    pubrec: Packet,
    pubcomp: Packet,
    resumed: bool,
    now: i64,
)
    requires
        publish.qos == QoS::ExactlyOnce,
        publish.packet_id == Some(packet_id),
        !state.routes.contains_key(crate::session::server_key(packet_id)),
        inbound::request_of(pubrec) == Request::PublishReceived(packet_id),
        inbound::request_of(pubcomp) == Request::PublishComplete(packet_id),
    ensures
        ({
            let path = receipt.path;
            let shown = outbound::message_shown(
                state,
                publish,
                outbound::retry_identity(publish),
            );
            let wait = shown.next->Await_0;
            let sent = outbound::message_sent(
                shown.state,
                publish,
                wait->SendMessage_target,
                wait->SendMessage_transaction,
                Ok(receipt),
            );
            let pubrel = Next::Await(
                Await::Send {
                    reply: Reply::PublishRelease { packet_id },
                    path,
                    sent: Sent::Nothing,
                },
            );
            let received = inbound::packet_begun(sent.state, pubrec, path, resumed, now);
            let released = inbound::sent_step(received.state, Sent::Nothing, path, Ok(receipt));
            let repeated = inbound::packet_begun(released.state, pubrec, path, resumed, now);
            let done = inbound::packet_begun(released.state, pubcomp, path, resumed, now);
            &&& shown.next is Await
            &&& wait is SendMessage
            &&& sent.next == DeliveryNext::Done
            &&& sent.effects == seq![
                DeliveryEffect::StoreMessage { publish, status: MomentStatus::UnReceived },
            ]
            &&& received.next == pubrel
            &&& released.next == Next::Done
            &&& repeated.next == pubrel
            &&& repeated.state.routes == released.state.routes
            &&& done.next == Next::Done
            &&& done.state.routes == state.routes
        }),
{
    let key = crate::session::server_key(packet_id);
    let path = receipt.path;
    let awaiting = crate::route::PacketRouteEntry {
        family: TransactionFamily::PublishQos2,
        stage: TransactionStage::PublishQos2AwaitPubrec,
        path,
    };
    let released = outbound::qos2_released(path);
    assert(state.routes.insert(key, awaiting).insert(key, released) =~= state.routes.insert(
        key,
        released,
    ));
    assert(state.routes.insert(key, released).insert(key, released) =~= state.routes.insert(
        key,
        released,
    ));
    assert(state.routes.insert(key, released).remove(key) =~= state.routes);
}

/// A QoS 0 message that fails on a data flow costs that flow and no more: the session goes
/// on, its transactions stay, bindings to other flows stay, and no later message takes the
/// flow.
pub proof fn qos0_failures_are_contained(
    state: SessionView,
    publish: Publish,
    path: ReplyPath,
    error: LinkError,
    topic: Seq<char>,
    filter: Seq<char>,
)
    requires
        publish.qos == QoS::AtMostOnce,
        path.flow_id != crate::link::FlowId::control(),
        state.bindings.dom().finite(),
    ensures
        ({
            let after = outbound::message_sent(
                state,
                publish,
                SendTarget::Reply(path),
                None,
                Err(error),
            );
            &&& after.next == DeliveryNext::Done
            &&& after.state.routes == state.routes
            &&& state.bindings.contains_key(filter) && state.bindings[filter].path.flow_id
                != path.flow_id ==> after.state.bindings.contains_key(filter)
                && after.state.bindings[filter] == state.bindings[filter]
            &&& crate::subscription_binding::bound_path(
                after.state.bindings,
                topic,
            ) matches Some(other) ==> other.flow_id != path.flow_id
        }),
{
    crate::subscription_binding::removed_flows_lead_no_message(
        state.bindings,
        path.flow_id,
        topic,
    );
}

/// The transaction that a packet of the client opens, by its raw parts.
pub open spec fn opens(
    before: SessionView,
    after: StepView,
    issuer: PacketIssuer,
    packet_id: PacketId,
    family: TransactionFamily,
    stage: TransactionStage,
    path: ReplyPath,
) -> bool {
    &&& after.effects.len() == 0
    &&& after.state.bindings == before.bindings
    &&& after.state.flags == before.flags
    &&& after.state.routes == before.routes.insert(
        PacketRouteKey { issuer, packet_id },
        PacketRouteEntry { family, stage, path },
    )
}

/// Whether a step ends the session for `reason` and does nothing else.
pub open spec fn ends(before: SessionView, after: StepView, reason: Reason) -> bool {
    &&& after.state == before
    &&& after.effects.len() == 0
    &&& after.next == Next::Fail(reason)
}

/// Whether a transaction is exactly at a stage, on a path.
pub open spec fn stands(
    state: SessionView,
    issuer: PacketIssuer,
    packet_id: PacketId,
    family: TransactionFamily,
    stage: TransactionStage,
    path: ReplyPath,
) -> bool {
    let key = PacketRouteKey { issuer, packet_id };
    state.routes.contains_key(key) && state.routes[key] == (PacketRouteEntry {
        family,
        stage,
        path,
    })
}

/// How often effects take an identifier out of the receive window.
pub open spec fn releases(effects: Seq<Effect>, packet_id: PacketId) -> nat
    decreases effects.len(),
{
    if effects.len() == 0 {
        0
    } else {
        releases(effects.drop_last(), packet_id) + (if effects.last() == Effect::ReleaseInbound(
            packet_id,
        ) {
            1nat
        } else {
            0nat
        })
    }
}

/// A SUBSCRIBE of either protocol generation opens a transaction on the path on which it came,
/// under its own identifier, and asks for the subscriptions that it names; an UNSUBSCRIBE does
/// likewise. One whose identifier is in use ends the session instead.
pub proof fn subscription_requests_are_taken_up(
    state: SessionView,
    packet_id: PacketId,
    filters: Vec<(String, QoS)>,
    names: Vec<String>,
    subscribe: SubscribeV5,
    unsubscribe: UnsubscribeV5,
    path: ReplyPath,
    resumed: bool,
    now: i64,
)
    ensures
        ({
            let key = PacketRouteKey { issuer: PacketIssuer::Client, packet_id };
            let subscribed = inbound::packet_begun(
                state,
                Packet::V3(PacketV3::Subscribe { packet_id, topic_filters: filters }),
                path,
                resumed,
                now,
            );
            let unsubscribed = inbound::packet_begun(
                state,
                Packet::V3(PacketV3::Unsubscribe { packet_id, topic_filters: names }),
                path,
                resumed,
                now,
            );
            let conflict = Reason::ProtocolError(
                ProtocolError::Route(RouteError::Conflict { key, existing: state.routes[key] }),
            );
            if state.routes.contains_key(key) {
                ends(state, subscribed, conflict) && ends(state, unsubscribed, conflict)
            } else {
                &&& subscribed.next == Next::Await(
                    Await::Subscribe {
                        request: SubscribeRequest::V3 { packet_id, topic_filters: filters },
                        path,
                    },
                )
                &&& opens(
                    state,
                    subscribed,
                    PacketIssuer::Client,
                    packet_id,
                    TransactionFamily::Subscribe,
                    TransactionStage::SubscribeAwaitSuback,
                    path,
                )
                &&& unsubscribed.next == Next::Await(
                    Await::Unsubscribe {
                        request: UnsubscribeRequest::V3 { packet_id, topic_filters: names },
                        path,
                    },
                )
                &&& opens(
                    state,
                    unsubscribed,
                    PacketIssuer::Client,
                    packet_id,
                    TransactionFamily::Unsubscribe,
                    TransactionStage::UnsubscribeAwaitUnsuback,
                    path,
                )
            }
        }),
        ({
            let key = PacketRouteKey {
                issuer: PacketIssuer::Client,
                packet_id: subscribe.packet_id,
            };
            let subscribed = inbound::packet_begun(
                state,
                Packet::V5(PacketV5::Subscribe(subscribe)),
                path,
                resumed,
                now,
            );
            if state.routes.contains_key(key) {
                ends(
                    state,
                    subscribed,
                    Reason::ProtocolError(
                        ProtocolError::Route(
                            RouteError::Conflict { key, existing: state.routes[key] },
                        ),
                    ),
                )
            } else {
                &&& subscribed.next == Next::Await(
                    Await::Subscribe { request: SubscribeRequest::V5(subscribe), path },
                )
                &&& opens(
                    state,
                    subscribed,
                    PacketIssuer::Client,
                    subscribe.packet_id,
                    TransactionFamily::Subscribe,
                    TransactionStage::SubscribeAwaitSuback,
                    path,
                )
            }
        }),
        ({
            let key = PacketRouteKey {
                issuer: PacketIssuer::Client,
                packet_id: unsubscribe.packet_id,
            };
            let unsubscribed = inbound::packet_begun(
                state,
                Packet::V5(PacketV5::Unsubscribe(unsubscribe)),
                path,
                resumed,
                now,
            );
            if state.routes.contains_key(key) {
                ends(
                    state,
                    unsubscribed,
                    Reason::ProtocolError(
                        ProtocolError::Route(
                            RouteError::Conflict { key, existing: state.routes[key] },
                        ),
                    ),
                )
            } else {
                &&& unsubscribed.next == Next::Await(
                    Await::Unsubscribe { request: UnsubscribeRequest::V5(unsubscribe), path },
                )
                &&& opens(
                    state,
                    unsubscribed,
                    PacketIssuer::Client,
                    unsubscribe.packet_id,
                    TransactionFamily::Unsubscribe,
                    TransactionStage::UnsubscribeAwaitUnsuback,
                    path,
                )
            }
        }),
{
}

/// Pings and AUTH are answered on the path on which they came, a DISCONNECT is recorded as it
/// came and marks the session, and what only a broker sends, or a second CONNECT, ends the
/// session.
pub proof fn connection_packets_are_taken_up(
    state: SessionView,
    packet: Packet,
    path: ReplyPath,
    resumed: bool,
    now: i64,
)
    ensures
        ({
            let begun = inbound::packet_begun(state, packet, path, resumed, now);
            let marked = SessionView {
                flags: StateFlags { disconnect_received: true, ..state.flags },
                ..state
            };
            let ping = Next::Await(
                Await::Send { reply: Reply::PingResponse, path, sent: Sent::Ping },
            );
            match packet {
                Packet::V3(PacketV3::PingRequest) => begun.next == ping && begun.state == state
                    && begun.effects.len() == 0,
                Packet::V5(PacketV5::PingRequest) => begun.next == ping && begun.state == state
                    && begun.effects.len() == 0,
                Packet::V5(PacketV5::Auth(_)) => begun.next == Next::Await(
                    Await::Send { reply: Reply::Auth, path, sent: Sent::Nothing },
                ) && begun.state == state && begun.effects.len() == 0,
                Packet::V3(PacketV3::Disconnect) => begun.next == Next::Await(
                    Await::RecordDisconnect(Disconnect::V3),
                ) && begun.state == marked && begun.effects.len() == 0,
                Packet::V5(PacketV5::Disconnect(disconnect)) => begun.next == Next::Await(
                    Await::RecordDisconnect(Disconnect::V5(disconnect)),
                ) && begun.state == marked && begun.effects.len() == 0,
                Packet::V3(PacketV3::Connect(_)) => ends(state, begun, Reason::UnimplementedPacket),
                Packet::V3(PacketV3::ConnectAck(_)) => ends(
                    state,
                    begun,
                    Reason::UnimplementedPacket,
                ),
                Packet::V3(PacketV3::SubscribeAck { .. }) => ends(
                    state,
                    begun,
                    Reason::UnimplementedPacket,
                ),
                Packet::V3(PacketV3::UnsubscribeAck { .. }) => ends(
                    state,
                    begun,
                    Reason::UnimplementedPacket,
                ),
                Packet::V3(PacketV3::PingResponse) => ends(
                    state,
                    begun,
                    Reason::UnimplementedPacket,
                ),
                Packet::V5(PacketV5::Connect(_)) => ends(state, begun, Reason::UnimplementedPacket),
                Packet::V5(PacketV5::ConnectAck(_)) => ends(
                    state,
                    begun,
                    Reason::UnimplementedPacket,
                ),
                Packet::V5(PacketV5::SubscribeAck(_)) => ends(
                    state,
                    begun,
                    Reason::UnimplementedPacket,
                ),
                Packet::V5(PacketV5::UnsubscribeAck(_)) => ends(
                    state,
                    begun,
                    Reason::UnimplementedPacket,
                ),
                Packet::V5(PacketV5::PingResponse) => ends(
                    state,
                    begun,
                    Reason::UnimplementedPacket,
                ),
                _ => true,
            }
        }),
{
}

/// A PUBLISH of either protocol generation is taken up as it came, with the time at which it
/// was taken: at QoS 0 it is published at once, at QoS 1 and 2 it needs an identifier, and a
/// new one opens its transaction on the path on which it came and is entered first.
pub proof fn messages_are_taken_up(
    state: SessionView,
    publish: Publish,
    path: ReplyPath,
    resumed: bool,
    now: i64,
)
    ensures
        ({
            let taken = Publish { create_time: Some(now), ..publish };
            let begun = inbound::packet_begun(
                state,
                Packet::V5(PacketV5::Publish(publish)),
                path,
                resumed,
                now,
            );
            &&& begun == inbound::packet_begun(
                state,
                Packet::V3(PacketV3::Publish(publish)),
                path,
                resumed,
                now,
            )
            &&& match (publish.qos, publish.packet_id) {
                (QoS::AtMostOnce, _) => begun.next == Next::Await(
                    Await::Publish { publish: taken, transaction: None },
                ) && begun.state == state && begun.effects.len() == 0,
                (_, None) => ends(
                    state,
                    begun,
                    Reason::ProtocolError(ProtocolError::MissingPacketId),
                ),
                (QoS::AtLeastOnce, Some(packet_id)) => {
                    let key = PacketRouteKey { issuer: PacketIssuer::Client, packet_id };
                    if state.routes.contains_key(key) {
                        ends(
                            state,
                            begun,
                            Reason::ProtocolError(
                                ProtocolError::Route(
                                    RouteError::Conflict { key, existing: state.routes[key] },
                                ),
                            ),
                        )
                    } else {
                        &&& begun.next == Next::Await(
                            Await::Reserve { publish: taken, packet_id, path },
                        )
                        &&& opens(
                            state,
                            begun,
                            PacketIssuer::Client,
                            packet_id,
                            TransactionFamily::PublishQos1,
                            TransactionStage::PublishQos1AwaitPuback,
                            path,
                        )
                    }
                },
                (QoS::ExactlyOnce, Some(packet_id)) => {
                    let key = PacketRouteKey { issuer: PacketIssuer::Client, packet_id };
                    let again = Next::Await(
                        Await::Send {
                            reply: Reply::PublishReceived { packet_id, result: None },
                            path,
                            sent: Sent::Nothing,
                        },
                    );
                    if resumed && !publish.dup {
                        ends(state, begun, Reason::PacketIdInUse(packet_id))
                    } else if !state.routes.contains_key(key) {
                        &&& begun.next == if resumed {
                            again
                        } else {
                            Next::Await(Await::Reserve { publish: taken, packet_id, path })
                        }
                        &&& opens(
                            state,
                            begun,
                            PacketIssuer::Client,
                            packet_id,
                            TransactionFamily::PublishQos2,
                            TransactionStage::PublishQos2AwaitPubrel,
                            path,
                        )
                    } else if publish.dup && stands(
                        state,
                        PacketIssuer::Client,
                        packet_id,
                        TransactionFamily::PublishQos2,
                        TransactionStage::PublishQos2AwaitPubrel,
                        path,
                    ) {
                        begun.next == again && begun.state == state && begun.effects.len() == 0
                    } else {
                        begun.next is Fail && begun.state == state && begun.effects.len() == 0
                    }
                },
            }
        }),
{
}

/// Whether an acknowledgement closes a transaction of the broker: the transaction leaves the
/// ledger, its message leaves the send window, and the client is reported alive.
pub open spec fn closes_delivery(
    before: SessionView,
    after: StepView,
    packet_id: PacketId,
) -> bool {
    &&& after.next == Next::Done
    &&& after.effects == seq![
        Effect::AcknowledgeOutbound(packet_id),
        Effect::Keepalive { ping: before.flags.ping },
    ]
    &&& after.state.routes == before.routes.remove(
        PacketRouteKey { issuer: PacketIssuer::Server, packet_id },
    )
    &&& after.state.bindings == before.bindings
    &&& after.state.flags == (StateFlags { ping: false, ..before.flags })
}

/// PUBACK, PUBREC, PUBREL and PUBCOMP of either protocol generation are in turn exactly where
/// the transaction with their identifier stands at that stage on the path on which they came;
/// each then moves its transaction on as the protocol says, and out of turn each ends the
/// session and changes nothing.
pub proof fn acknowledgements_are_taken_in_turn(
    state: SessionView,
    packet_id: PacketId,
    ack: PublishAck,
    ack2: PublishAck2,
    path: ReplyPath,
    resumed: bool,
    now: i64,
)
    requires
        ack.packet_id == packet_id,
        ack2.packet_id == packet_id,
    ensures
        ({
            let begun = inbound::packet_begun(
                state,
                Packet::V5(PacketV5::PublishAck(ack)),
                path,
                resumed,
                now,
            );
            &&& begun == inbound::packet_begun(
                state,
                Packet::V3(PacketV3::PublishAck { packet_id }),
                path,
                resumed,
                now,
            )
            &&& if stands(
                state,
                PacketIssuer::Server,
                packet_id,
                TransactionFamily::PublishQos1,
                TransactionStage::PublishQos1AwaitPuback,
                path,
            ) {
                closes_delivery(state, begun, packet_id)
            } else {
                begun.next is Fail && begun.state == state && begun.effects.len() == 0
            }
        }),
        ({
            let begun = inbound::packet_begun(
                state,
                Packet::V5(PacketV5::PublishComplete(ack2)),
                path,
                resumed,
                now,
            );
            &&& begun == inbound::packet_begun(
                state,
                Packet::V3(PacketV3::PublishComplete { packet_id }),
                path,
                resumed,
                now,
            )
            &&& if stands(
                state,
                PacketIssuer::Server,
                packet_id,
                TransactionFamily::PublishQos2,
                TransactionStage::PublishQos2AwaitPubcomp,
                path,
            ) {
                closes_delivery(state, begun, packet_id)
            } else {
                begun.next is Fail && begun.state == state && begun.effects.len() == 0
            }
        }),
        ({
            let begun = inbound::packet_begun(
                state,
                Packet::V5(PacketV5::PublishReceived(ack)),
                path,
                resumed,
                now,
            );
            let in_turn = stands(
                state,
                PacketIssuer::Server,
                packet_id,
                TransactionFamily::PublishQos2,
                TransactionStage::PublishQos2AwaitPubrec,
                path,
            ) || stands(
                state,
                PacketIssuer::Server,
                packet_id,
                TransactionFamily::PublishQos2,
                TransactionStage::PublishQos2AwaitPubcomp,
                path,
            );
            &&& begun == inbound::packet_begun(
                state,
                Packet::V3(PacketV3::PublishReceived { packet_id }),
                path,
                resumed,
                now,
            )
            &&& if in_turn {
                &&& begun.next == Next::Await(
                    Await::Send {
                        reply: Reply::PublishRelease { packet_id },
                        path,
                        sent: Sent::Nothing,
                    },
                )
                &&& begun.effects == seq![Effect::MarkReleased(packet_id)]
                &&& begun.state.bindings == state.bindings
                &&& begun.state.flags == state.flags
                &&& begun.state.routes == state.routes.insert(
                    PacketRouteKey { issuer: PacketIssuer::Server, packet_id },
                    PacketRouteEntry {
                        family: TransactionFamily::PublishQos2,
                        stage: TransactionStage::PublishQos2AwaitPubcomp,
                        path,
                    },
                )
            } else {
                begun.next is Fail && begun.state == state && begun.effects.len() == 0
            }
        }),
        ({
            let begun = inbound::packet_begun(
                state,
                Packet::V5(PacketV5::PublishRelease(ack2)),
                path,
                resumed,
                now,
            );
            let key = PacketRouteKey { issuer: PacketIssuer::Client, packet_id };
            let answered = Next::Await(
                Await::Send {
                    reply: Reply::PublishComplete { packet_id },
                    path,
                    sent: Sent::Pubcomp(packet_id),
                },
            );
            &&& begun == inbound::packet_begun(
                state,
                Packet::V3(PacketV3::PublishRelease { packet_id }),
                path,
                resumed,
                now,
            )
            &&& if stands(
                state,
                PacketIssuer::Client,
                packet_id,
                TransactionFamily::PublishQos2,
                TransactionStage::PublishQos2AwaitPubrel,
                path,
            ) {
                begun.next == answered && begun.state == state && begun.effects.len() == 0
            } else if !state.routes.contains_key(key) && resumed {
                &&& begun.next == answered
                &&& opens(
                    state,
                    begun,
                    PacketIssuer::Client,
                    packet_id,
                    TransactionFamily::PublishQos2,
                    TransactionStage::PublishQos2AwaitPubrel,
                    path,
                )
            } else {
                begun.next is Fail && begun.state == state && begun.effects.len() == 0
            }
        }),
{
    let alive = Effect::Keepalive { ping: state.flags.ping };
    assert(seq![Effect::AcknowledgeOutbound(packet_id)].push(alive) =~= seq![
        Effect::AcknowledgeOutbound(packet_id),
        alive,
    ]);
}

/// What is done once a reply has gone out: a transaction of the client that stands where the
/// reply ends it leaves the ledger, and nothing else does; the identifier of a QoS 2 message
/// leaves the receive window with its PUBCOMP, that of a QoS 1 message, where it was entered,
/// with its PUBACK; a ping is reported as one. A reply that could not be sent ends the session.
pub proof fn replies_end_their_transactions(
    state: SessionView,
    packet_id: PacketId,
    reserved: bool,
    path: ReplyPath,
    receipt: SendReceipt,
    error: LinkError,
)
    ensures
        ({
            let key = PacketRouteKey { issuer: PacketIssuer::Client, packet_id };
            let alive = StateFlags { ping: false, ..state.flags };
            let entered = if reserved {
                seq![Effect::ReleaseInbound(packet_id)]
            } else {
                Seq::empty()
            };
            let plain = inbound::sent_step(state, Sent::Nothing, path, Ok(receipt));
            let ping = inbound::sent_step(state, Sent::Ping, path, Ok(receipt));
            let pubcomp = inbound::sent_step(state, Sent::Pubcomp(packet_id), path, Ok(receipt));
            let puback = inbound::sent_step(
                state,
                Sent::Puback { packet_id, reserved },
                path,
                Ok(receipt),
            );
            &&& plain.next == Next::Done
            &&& plain.effects == seq![Effect::Keepalive { ping: state.flags.ping }]
            &&& plain.state == (SessionView { flags: alive, ..state })
            &&& ping.next == Next::Done
            &&& ping.effects == seq![Effect::Keepalive { ping: true }]
            &&& ping.state == (SessionView { flags: alive, ..state })
            &&& if stands(
                state,
                PacketIssuer::Client,
                packet_id,
                TransactionFamily::PublishQos2,
                TransactionStage::PublishQos2AwaitPubrel,
                path,
            ) {
                &&& pubcomp.next == Next::Done
                &&& pubcomp.effects == seq![
                    Effect::ReleaseInbound(packet_id),
                    Effect::Keepalive { ping: state.flags.ping },
                ]
                &&& releases(pubcomp.effects, packet_id) == 1
                &&& pubcomp.state == (SessionView {
                    routes: state.routes.remove(key),
                    flags: alive,
                    ..state
                })
            } else {
                pubcomp.next is Fail && pubcomp.effects.len() == 0 && pubcomp.state == state
            }
            &&& if stands(
                state,
                PacketIssuer::Client,
                packet_id,
                TransactionFamily::PublishQos1,
                TransactionStage::PublishQos1AwaitPuback,
                path,
            ) {
                &&& puback.next == Next::Done
                &&& puback.effects == entered.push(Effect::Keepalive { ping: state.flags.ping })
                &&& puback.state == (SessionView {
                    routes: state.routes.remove(key),
                    flags: alive,
                    ..state
                })
            } else {
                puback.next is Fail && puback.effects == entered && puback.state == state
            }
        }),
        ({
            let failed = Next::Fail(Reason::Link(error));
            let plain = inbound::sent_step(state, Sent::Nothing, path, Err(error));
            let ping = inbound::sent_step(state, Sent::Ping, path, Err(error));
            let pubcomp = inbound::sent_step(state, Sent::Pubcomp(packet_id), path, Err(error));
            let puback = inbound::sent_step(
                state,
                Sent::Puback { packet_id, reserved },
                path,
                Err(error),
            );
            &&& plain.next == failed && plain.state == state && plain.effects.len() == 0
            &&& ping.next == failed && ping.state == state && ping.effects.len() == 0
            &&& pubcomp.next == failed && pubcomp.state == state && pubcomp.effects.len() == 0
            &&& puback.next == failed && puback.state == state
            &&& reserved ==> puback.effects == seq![Effect::ReleaseInbound(packet_id)]
            &&& !reserved ==> puback.effects.len() == 0
        }),
{
    reveal_with_fuel(releases, 3);
    let pubcomp = inbound::sent_step(state, Sent::Pubcomp(packet_id), path, Ok(receipt));
    let effects = seq![
        Effect::ReleaseInbound(packet_id),
        Effect::Keepalive { ping: state.flags.ping },
    ];
    assert(effects.drop_last() =~= seq![Effect::ReleaseInbound(packet_id)]);
    assert(effects.drop_last().drop_last() =~= Seq::empty());
    assert(pubcomp.next == Next::Done ==> pubcomp.effects =~= effects);
    assert(Seq::empty().push(Effect::Keepalive { ping: state.flags.ping }) =~= seq![
        Effect::Keepalive { ping: state.flags.ping },
    ]);
}

/// Over a whole QoS 1 or QoS 2 transaction the identifier of a message leaves the receive
/// window exactly once where it was entered, and stays in it until then: with the PUBACK of a
/// QoS 1 message, with the PUBCOMP of a QoS 2 message that was taken, and at once where the
/// message was refused or could not be published.
pub proof fn entered_identifiers_are_released_once(
    state: SessionView,
    publish: Publish,
    packet_id: PacketId,
    path: ReplyPath,
    result: PublishResult,
    reason: Reason,
    receipt: SendReceipt,
    now: i64,
)
    requires
        publish.qos != QoS::AtMostOnce,
        publish.packet_id == Some(packet_id),
        !state.routes.contains_key(
            PacketRouteKey { issuer: PacketIssuer::Client, packet_id },
        ),
    ensures
        ({
            let exactly_once = publish.qos == QoS::ExactlyOnce;
            let begun = inbound::packet_begun(
                state,
                Packet::V5(PacketV5::Publish(publish)),
                path,
                false,
                now,
            );
            let taken = Publish { create_time: Some(now), ..publish };
            let entered = inbound::reserved_step(begun.state, taken, packet_id, path, Ok(true));
            let transaction = InboundPublish { packet_id, path, exactly_once, reserved: true };
            let published = inbound::published_step(entered.state, Some(transaction), Ok(result));
            let lost = inbound::published_step(entered.state, Some(transaction), Err(reason));
            let sent = if exactly_once {
                Sent::Nothing
            } else {
                Sent::Puback { packet_id, reserved: true }
            };
            let answered = inbound::sent_step(published.state, sent, path, Ok(receipt));
            let released = inbound::packet_begun(
                answered.state,
                Packet::V3(PacketV3::PublishRelease { packet_id }),
                path,
                true,
                now,
            );
            let completed = inbound::sent_step(
                released.state,
                Sent::Pubcomp(packet_id),
                path,
                Ok(receipt),
            );
            let until_answer = begun.effects + entered.effects + published.effects
                + answered.effects;
            &&& entered.next == Next::Await(
                Await::Publish { publish: taken, transaction: Some(transaction) },
            )
            &&& releases(begun.effects + entered.effects, packet_id) == 0
            &&& releases(lost.effects, packet_id) == 1
            &&& lost.next == Next::Fail(reason)
            &&& exactly_once && result.reason_code == PublishAckReason::Success ==> {
                &&& releases(until_answer, packet_id) == 0
                &&& releases(released.effects + completed.effects, packet_id) == 1
                &&& completed.next == Next::Done
            }
            &&& exactly_once && result.reason_code != PublishAckReason::Success ==> {
                &&& releases(until_answer, packet_id) == 1
                &&& !answered.state.routes.contains_key(
                    PacketRouteKey { issuer: PacketIssuer::Client, packet_id },
                )
            }
            &&& !exactly_once ==> releases(until_answer, packet_id) == 1
        }),
{
    let exactly_once = publish.qos == QoS::ExactlyOnce;
    let begun = inbound::packet_begun(
        state,
        Packet::V5(PacketV5::Publish(publish)),
        path,
        false,
        now,
    );
    let taken = Publish { create_time: Some(now), ..publish };
    let entered = inbound::reserved_step(begun.state, taken, packet_id, path, Ok(true));
    let transaction = InboundPublish { packet_id, path, exactly_once, reserved: true };
    let published = inbound::published_step(entered.state, Some(transaction), Ok(result));
    let lost = inbound::published_step(entered.state, Some(transaction), Err(reason));
    let sent = if exactly_once {
        Sent::Nothing
    } else {
        Sent::Puback { packet_id, reserved: true }
    };
    let answered = inbound::sent_step(published.state, sent, path, Ok(receipt));
    let released = inbound::packet_begun(
        answered.state,
        Packet::V3(PacketV3::PublishRelease { packet_id }),
        path,
        true,
        now,
    );
    let completed = inbound::sent_step(
        released.state,
        Sent::Pubcomp(packet_id),
        path,
        Ok(receipt),
    );
    lemma_releases_add_up(begun.effects, entered.effects, packet_id);
    lemma_releases_add_up(begun.effects + entered.effects, published.effects, packet_id);
    lemma_releases_add_up(
        begun.effects + entered.effects + published.effects,
        answered.effects,
        packet_id,
    );
    lemma_releases_add_up(released.effects, completed.effects, packet_id);
    lemma_short_releases(begun.effects, packet_id);
    lemma_short_releases(entered.effects, packet_id);
    lemma_short_releases(published.effects, packet_id);
    lemma_short_releases(lost.effects, packet_id);
    lemma_short_releases(answered.effects, packet_id);
    lemma_short_releases(released.effects, packet_id);
    lemma_short_releases(completed.effects, packet_id);
}

proof fn lemma_releases_add_up(a: Seq<Effect>, b: Seq<Effect>, packet_id: PacketId)
    ensures
        releases(a + b, packet_id) == releases(a, packet_id) + releases(b, packet_id),
    decreases b.len(),
{
    if b.len() == 0 {
        assert(a + b =~= a);
    } else {
        assert((a + b).drop_last() =~= a + b.drop_last());
        assert((a + b).last() == b.last());
        lemma_releases_add_up(a, b.drop_last(), packet_id);
    }
}

proof fn lemma_short_releases(effects: Seq<Effect>, packet_id: PacketId)
    ensures
        effects.len() == 0 ==> releases(effects, packet_id) == 0,
        effects.len() == 1 ==> releases(effects, packet_id) == (if effects[0]
            == Effect::ReleaseInbound(packet_id) {
            1nat
        } else {
            0nat
        }),
        effects.len() == 2 ==> releases(effects, packet_id) == (if effects[0]
            == Effect::ReleaseInbound(packet_id) {
            1nat
        } else {
            0nat
        }) + (if effects[1] == Effect::ReleaseInbound(packet_id) {
            1nat
        } else {
            0nat
        }),
{
    reveal_with_fuel(releases, 3);
}

/// What becomes of a message decides its answer: a QoS 1 message is acknowledged with the
/// outcome, a QoS 2 message too, and keeps its transaction only where it was taken. A message
/// that could not be entered is dropped and leaves no transaction, and one that could not be
/// published ends the session.
pub proof fn outcomes_are_answered(
    state: SessionView,
    publish: Publish,
    packet_id: PacketId,
    path: ReplyPath,
    reserved: bool,
    result: PublishResult,
    reason: Reason,
)
    ensures
        ({
            let key = PacketRouteKey { issuer: PacketIssuer::Client, packet_id };
            let without = SessionView { routes: state.routes.remove(key), ..state };
            let given_back = if reserved {
                seq![Effect::ReleaseInbound(packet_id)]
            } else {
                Seq::empty()
            };
            let once = InboundPublish { packet_id, path, exactly_once: true, reserved };
            let acknowledged = InboundPublish { packet_id, path, exactly_once: false, reserved };
            let entered = inbound::reserved_step(state, publish, packet_id, path, Ok(reserved));
            let refused = inbound::reserved_step(state, publish, packet_id, path, Err(reason));
            let plain = inbound::published_step(state, None, Ok(result));
            let puback = inbound::published_step(state, Some(acknowledged), Ok(result));
            let pubrec = inbound::published_step(state, Some(once), Ok(result));
            &&& entered.state == state && entered.effects.len() == 0
            &&& entered.next == Next::Await(
                Await::Publish {
                    publish,
                    transaction: Some(
                        if publish.qos == QoS::ExactlyOnce {
                            once
                        } else {
                            acknowledged
                        },
                    ),
                },
            )
            &&& refused.state == without
            &&& refused.effects == seq![Effect::DropMessage(publish)]
            &&& refused.next == Next::Fail(reason)
            &&& plain.next == Next::Done
            &&& plain.effects == seq![Effect::Keepalive { ping: state.flags.ping }]
            &&& plain.state == (SessionView {
                flags: StateFlags { ping: false, ..state.flags },
                ..state
            })
            &&& puback.next == Next::Await(
                Await::Send {
                    reply: Reply::PublishAck { packet_id, result },
                    path,
                    sent: Sent::Puback { packet_id, reserved },
                },
            )
            &&& puback.state == state && puback.effects.len() == 0
            &&& pubrec.next == Next::Await(
                Await::Send {
                    reply: Reply::PublishReceived { packet_id, result: Some(result) },
                    path,
                    sent: Sent::Nothing,
                },
            )
            &&& result.reason_code == PublishAckReason::Success ==> pubrec.state == state
                && pubrec.effects.len() == 0
            &&& result.reason_code != PublishAckReason::Success ==> pubrec.state == without
                && pubrec.effects == given_back
            &&& ends(state, inbound::published_step(state, None, Err(reason)), reason)
            &&& forall|transaction: InboundPublish|
                transaction == once || transaction == acknowledged ==> {
                    let lost = #[trigger] inbound::published_step(
                        state,
                        Some(transaction),
                        Err(reason),
                    );
                    lost.next == Next::Fail(reason) && lost.state == without && lost.effects
                        == given_back
                }
        }),
{
}

/// Unsubscribing runs from UNSUBSCRIBE to UNSUBACK: until the UNSUBACK has been sent every
/// binding stays as it was, afterwards the filters that were ended are bound no more and the
/// others as before, and no transaction is left. Where the service fails, or the UNSUBACK
/// cannot be sent, the session ends with the bindings as they were.
pub proof fn unsubscribing_runs_to_completion(
    state: SessionView,
    packet_id: PacketId,
    path: ReplyPath,
    reply: UnsubscribeReply,
    unbound: Vec<TopicFilter>,
    receipt: SendReceipt,
    text: String,
    error: LinkError,
)
    requires
        stands(
            state,
            PacketIssuer::Client,
            packet_id,
            TransactionFamily::Unsubscribe,
            TransactionStage::UnsubscribeAwaitUnsuback,
            path,
        ),
    ensures
        ({
            let ended = inbound::unsubscribed_step(state, packet_id, path, Ok((reply, unbound)));
            let sent = Sent::Unsuback { packet_id, unbound };
            let done = inbound::sent_step(ended.state, sent, path, Ok(receipt));
            let lost = inbound::sent_step(ended.state, sent, path, Err(error));
            &&& ended.next == Next::Await(
                Await::Send { reply: Reply::UnsubscribeAck(reply), path, sent },
            )
            &&& ended.state == state && ended.effects.len() == 0
            &&& done.next == Next::Done
            &&& done.effects == seq![Effect::Keepalive { ping: state.flags.ping }]
            &&& done.state.routes == state.routes.remove(
                PacketRouteKey { issuer: PacketIssuer::Client, packet_id },
            )
            &&& forall|filter: Seq<char>|
                #![trigger done.state.bindings.contains_key(filter)]
                done.state.bindings.contains_key(filter) == (state.bindings.contains_key(filter)
                    && !names(unbound@, filter))
            &&& forall|filter: Seq<char>|
                done.state.bindings.contains_key(filter) ==> #[trigger] done.state.bindings[filter]
                    == state.bindings[filter]
            &&& ends(state, lost, Reason::Link(error))
            &&& ends(
                state,
                inbound::unsubscribed_step(state, packet_id, path, Err(text)),
                Reason::UnsubscribeFailed(text),
            )
        }),
{
    lemma_all_removed(state.bindings, unbound@);
    let ended = inbound::unsubscribed_step(state, packet_id, path, Ok((reply, unbound)));
    let sent = Sent::Unsuback { packet_id, unbound };
    let done = inbound::sent_step(ended.state, sent, path, Ok(receipt));
    assert(done.effects =~= seq![Effect::Keepalive { ping: state.flags.ping }]);
}

proof fn lemma_all_removed(bindings: Bindings, filters: Seq<TopicFilter>)
    ensures
        forall|filter: Seq<char>|
            #![trigger inbound::all_removed(bindings, filters).contains_key(filter)]
            inbound::all_removed(bindings, filters).contains_key(filter) == (bindings.contains_key(
                filter,
            ) && !names(filters, filter)),
        forall|filter: Seq<char>|
            inbound::all_removed(bindings, filters).contains_key(filter)
                ==> #[trigger] inbound::all_removed(bindings, filters)[filter] == bindings[filter],
    decreases filters.len(),
{
    if filters.len() > 0 {
        let rest = filters.drop_last();
        lemma_all_removed(bindings, rest);
        let after = inbound::all_removed(bindings, filters);
        let before = inbound::all_removed(bindings, rest);
        assert(after == before.remove(filters.last()@));
        assert forall|filter: Seq<char>|
            #![trigger after.contains_key(filter)]
            after.contains_key(filter) == (bindings.contains_key(filter) && !names(
                filters,
                filter,
            )) by {
            if names(filters, filter) {
                let i = choose|i: int| 0 <= i < filters.len() && (#[trigger] filters[i])@ == filter;
                if i < rest.len() {
                    assert(rest[i]@ == filter);
                }
            } else {
                lemma_names(filters, filter);
            }
        }
    }
}

/// A subscription that could not be made, or whose SUBACK could not be sent, ends the session;
/// in the second case nothing follows the bindings that were begun.
pub proof fn failed_subscriptions_lead_no_message(
    state: SessionView,
    packet_id: PacketId,
    path: ReplyPath,
    reply: SubscribeReply,
    bound: Vec<TopicFilter>,
    text: String,
    error: LinkError,
)
    ensures
        ends(
            state,
            inbound::subscribed_step(state, packet_id, path, Err(text)),
            Reason::SubscribeFailed(text),
        ),
        ({
            let made = inbound::subscribed_step(state, packet_id, path, Ok((reply, bound)));
            let lost = inbound::sent_step(
                made.state,
                Sent::Suback { packet_id, bound },
                path,
                Err(error),
            );
            &&& made.effects.len() == 0
            &&& made.state.routes == state.routes
            &&& made.state.flags == state.flags
            &&& ends(made.state, lost, Reason::Link(error))
        }),
{
}

/// Flags are only ever added: a kick marks the session as kicked, remembers an administrator
/// and a clean start from then on, and touches nothing else; a new session has none.
pub proof fn kicks_are_remembered(flags: StateFlags, clean_start: bool, is_admin: bool)
    ensures
        ({
            let after = flags.after_kick(clean_start, is_admin);
            &&& after.kicked
            &&& after.by_admin_kick <==> flags.by_admin_kick || is_admin
            &&& after.clean_start <==> flags.clean_start || clean_start
            &&& after.ping == flags.ping
            &&& after.disconnect_received == flags.disconnect_received
        }),
        ({
            let none = StateFlags::empty();
            !none.kicked && !none.by_admin_kick && !none.clean_start && !none.ping
                && !none.disconnect_received
        }),
{
}

/// Whether a step of a delivery changes nothing, does nothing and goes on with `next`.
pub open spec fn goes_on(before: SessionView, after: DeliveryView, next: DeliveryNext) -> bool {
    &&& after.state == before
    &&& after.effects.len() == 0
    &&& after.next == next
}

/// A message that was sent and not acknowledged is sent again as what it is: marked as a
/// duplicate, under its own identifier, with its identity to be kept, and otherwise as it was.
/// No new identifier is drawn, at QoS 1 or QoS 2. Once its lifetime is over it is dropped and
/// its transaction leaves the ledger.
pub proof fn retransmissions_are_duplicates(
    state: SessionView,
    status: MomentStatus,
    publish: Publish,
    packet_id: PacketId,
)
    requires
        status == MomentStatus::UnAck || status == MomentStatus::UnReceived,
        publish.qos == QoS::AtLeastOnce || publish.qos == QoS::ExactlyOnce,
        publish.packet_id == Some(packet_id),
    ensures
        ({
            let again = Publish { dup: true, ..publish };
            let dropped = outbound::retransmission_begun(state, status, publish, true);
            &&& goes_on(
                state,
                outbound::retransmission_begun(state, status, publish, false),
                DeliveryNext::Await(
                    DeliveryAwait::ShowMessage {
                        publish: again,
                        retry: Some(
                            RetryIdentity { qos: publish.qos, packet_id: Some(packet_id) },
                        ),
                    },
                ),
            )
            &&& again.packet_id == publish.packet_id && again.qos == publish.qos && again.topic
                == publish.topic && again.payload == publish.payload
            &&& dropped.next == DeliveryNext::Done
            &&& dropped.effects == seq![
                DeliveryEffect::DropMessage { publish: again, reason: Reason::MessageExpiration },
            ]
            &&& dropped.state == (SessionView {
                routes: state.routes.remove(
                    PacketRouteKey { issuer: PacketIssuer::Server, packet_id },
                ),
                ..state
            })
        }),
{
}

/// A QoS 2 message whose PUBREC has come is not sent again: its PUBREL is, on the path of the
/// transaction, or on the control flow where the transaction is not known, and the message
/// stays in the send window. Once its lifetime is over its transaction leaves the ledger.
pub proof fn received_messages_are_released_again(
    state: SessionView,
    publish: Publish,
    packet_id: PacketId,
)
    requires
        publish.packet_id == Some(packet_id),
    ensures
        ({
            let key = PacketRouteKey { issuer: PacketIssuer::Server, packet_id };
            let status = MomentStatus::UnComplete;
            let again = outbound::retransmission_begun(state, status, publish, false);
            let over = outbound::retransmission_begun(state, status, publish, true);
            &&& again.state == state
            &&& again.effects == seq![DeliveryEffect::StoreMessage { publish, status }]
            &&& !state.routes.contains_key(key) ==> again.next == DeliveryNext::Await(
                DeliveryAwait::SendRelease { packet_id, target: SendTarget::Control },
            )
            &&& state.routes.contains_key(key) ==> if stands(
                state,
                PacketIssuer::Server,
                packet_id,
                TransactionFamily::PublishQos2,
                TransactionStage::PublishQos2AwaitPubcomp,
                state.routes[key].path,
            ) {
                again.next == DeliveryNext::Await(
                    DeliveryAwait::SendRelease {
                        packet_id,
                        target: SendTarget::Reply(state.routes[key].path),
                    },
                )
            } else {
                again.next is Fail
            }
            &&& over.next == DeliveryNext::Done
            &&& over.effects.len() == 0
            &&& over.state == (SessionView { routes: state.routes.remove(key), ..state })
        }),
{
}

/// A PUBREL that was sent again leaves a transaction that awaits PUBCOMP: the one that was
/// there, or one on the path that the PUBREL took. One that could not be sent ends the session.
pub proof fn released_messages_await_pubcomp(
    state: SessionView,
    packet_id: PacketId,
    receipt: SendReceipt,
    error: LinkError,
)
    ensures
        ({
            let key = PacketRouteKey { issuer: PacketIssuer::Server, packet_id };
            let sent = outbound::release_sent(state, packet_id, Ok(receipt));
            &&& sent.next == DeliveryNext::Done
            &&& sent.effects.len() == 0
            &&& state.routes.contains_key(key) ==> sent.state == state
            &&& !state.routes.contains_key(key) ==> sent.state == (SessionView {
                routes: state.routes.insert(
                    key,
                    PacketRouteEntry {
                        family: TransactionFamily::PublishQos2,
                        stage: TransactionStage::PublishQos2AwaitPubcomp,
                        path: receipt.path,
                    },
                ),
                ..state
            })
            &&& goes_on(
                state,
                outbound::release_sent(state, packet_id, Err(error)),
                DeliveryNext::Fail(Reason::Link(error)),
            )
        }),
{
}

/// A new message at QoS 1 or 2 draws an identifier before anything else, one at QoS 0 needs
/// none, and a message whose lifetime is over is dropped before either.
pub proof fn deliveries_begin_with_an_identifier(state: SessionView, publish: Publish)
    requires
        !publish.dup,
    ensures
        publish.qos == QoS::AtMostOnce ==> goes_on(
            state,
            outbound::delivery_begun(state, publish, false),
            DeliveryNext::Await(DeliveryAwait::ShowMessage { publish, retry: None }),
        ),
        publish.qos == QoS::AtLeastOnce || publish.qos == QoS::ExactlyOnce ==> goes_on(
            state,
            outbound::delivery_begun(state, publish, false),
            DeliveryNext::Await(DeliveryAwait::DrawPacketId(publish)),
        ),
        ({
            let dropped = outbound::delivery_begun(state, publish, true);
            &&& dropped.state == state
            &&& dropped.next == DeliveryNext::Done
            &&& dropped.effects == seq![
                DeliveryEffect::DropMessage { publish, reason: Reason::MessageExpiration },
            ]
        }),
        outbound::showing(publish) == DeliveryNext::Await(
            DeliveryAwait::ShowMessage { publish, retry: None },
        ),
{
}

/// A message goes out as the hooks have left it. At QoS 0 it opens no transaction; at QoS 1 it
/// opens one that awaits PUBACK, at QoS 2 one that awaits PUBREC, under its identifier. A
/// retransmission whose transaction is open goes to the path of that transaction; everything
/// else follows the binding of its topic, and takes the control flow where there is none.
pub proof fn messages_go_where_they_belong(
    state: SessionView,
    publish: Publish,
    retry: Option<RetryIdentity>,
)
    requires
        retry is None || (publish.dup && retry == Some(
            RetryIdentity { qos: publish.qos, packet_id: publish.packet_id },
        )),
    ensures
        ({
            let shown = outbound::message_shown(state, publish, retry);
            let bound = match crate::subscription_binding::bound_path(
                state.bindings,
                publish.topic@,
            ) {
                Some(path) => SendTarget::Reply(path),
                None => SendTarget::Control,
            };
            match (publish.qos, publish.packet_id) {
                (QoS::AtMostOnce, _) => goes_on(
                    state,
                    shown,
                    DeliveryNext::Await(
                        DeliveryAwait::SendMessage { publish, target: bound, transaction: None },
                    ),
                ),
                (_, None) => goes_on(
                    state,
                    shown,
                    DeliveryNext::Fail(Reason::OutboundPacketIdMissing),
                ),
                (qos, Some(packet_id)) => {
                    let key = PacketRouteKey { issuer: PacketIssuer::Server, packet_id };
                    let family = if qos == QoS::AtLeastOnce {
                        TransactionFamily::PublishQos1
                    } else {
                        TransactionFamily::PublishQos2
                    };
                    let stage = if qos == QoS::AtLeastOnce {
                        TransactionStage::PublishQos1AwaitPuback
                    } else {
                        TransactionStage::PublishQos2AwaitPubrec
                    };
                    let status = if qos == QoS::AtLeastOnce {
                        MomentStatus::UnAck
                    } else {
                        MomentStatus::UnReceived
                    };
                    let transaction = Some((key, family, stage, status));
                    if !state.routes.contains_key(key) {
                        goes_on(
                            state,
                            shown,
                            DeliveryNext::Await(
                                DeliveryAwait::SendMessage { publish, target: bound, transaction },
                            ),
                        )
                    } else if !publish.dup {
                        goes_on(
                            state,
                            shown,
                            DeliveryNext::Fail(Reason::OutboundPacketIdInUse(packet_id)),
                        )
                    } else if state.routes[key].family == family && state.routes[key].stage
                        == stage {
                        goes_on(
                            state,
                            shown,
                            DeliveryNext::Await(
                                DeliveryAwait::SendMessage {
                                    publish,
                                    target: SendTarget::Reply(state.routes[key].path),
                                    transaction,
                                },
                            ),
                        )
                    } else {
                        shown.next is Fail && shown.state == state && shown.effects.len() == 0
                    }
                },
            }
        }),
{
}

/// A retransmission that the hooks have made into something else is not sent.
pub proof fn changed_retransmissions_are_refused(
    state: SessionView,
    publish: Publish,
    retry: RetryIdentity,
)
    requires
        !publish.dup || publish.qos != retry.qos || publish.packet_id != retry.packet_id,
    ensures
        goes_on(
            state,
            outbound::message_shown(state, publish, Some(retry)),
            DeliveryNext::Fail(Reason::RetryIdentityChanged),
        ),
{
}

/// A message that went out opens its transaction on the path that it took, and waits in the
/// send window for what the transaction awaits; at QoS 0 it is done with. A retransmission may
/// find its transaction open on the path that it took, and on no other.
pub proof fn sent_messages_await_their_acknowledgement(
    state: SessionView,
    publish: Publish,
    target: SendTarget,
    packet_id: PacketId,
    family: TransactionFamily,
    stage: TransactionStage,
    status: MomentStatus,
    receipt: SendReceipt,
)
    requires
        (family == TransactionFamily::PublishQos1 && stage
            == TransactionStage::PublishQos1AwaitPuback) || (family
            == TransactionFamily::PublishQos2 && stage
            == TransactionStage::PublishQos2AwaitPubrec),
    ensures
        goes_on(
            state,
            outbound::message_sent(state, publish, target, None, Ok(receipt)),
            DeliveryNext::Done,
        ),
        ({
            let key = PacketRouteKey { issuer: PacketIssuer::Server, packet_id };
            let sent = outbound::message_sent(
                state,
                publish,
                target,
                Some((key, family, stage, status)),
                Ok(receipt),
            );
            let kept = seq![DeliveryEffect::StoreMessage { publish, status }];
            if !state.routes.contains_key(key) {
                &&& sent.next == DeliveryNext::Done
                &&& sent.effects == kept
                &&& sent.state == (SessionView {
                    routes: state.routes.insert(
                        key,
                        PacketRouteEntry { family, stage, path: receipt.path },
                    ),
                    ..state
                })
            } else if publish.dup && stands(
                state,
                PacketIssuer::Server,
                packet_id,
                family,
                stage,
                receipt.path,
            ) {
                sent.next == DeliveryNext::Done && sent.effects == kept && sent.state == state
            } else {
                sent.next is Fail && sent.effects.len() == 0 && sent.state == state
            }
        }),
{
}

/// A message that could not be sent ends the session, with the failure of the link, unless it
/// was a QoS 0 message on a data flow: that one is dropped, its flow is reset and no binding
/// leads to the flow any more.
pub proof fn unsent_messages_end_the_session_or_their_flow(
    state: SessionView,
    publish: Publish,
    target: SendTarget,
    transaction: Option<OutboundTransaction>,
    error: LinkError,
    filter: Seq<char>,
)
    ensures
        ({
            let after = outbound::message_sent(state, publish, target, transaction, Err(error));
            match target {
                SendTarget::Reply(path) => if publish.qos == QoS::AtMostOnce && path.flow_id.0
                    != 0 {
                    &&& after.next == DeliveryNext::Done
                    &&& after.effects == seq![
                        DeliveryEffect::ResetFlow {
                            flow_id: path.flow_id,
                            reason: FlowCloseReason::SendFailed,
                        },
                        DeliveryEffect::DropMessage {
                            publish,
                            reason: Reason::ConnectReadWriteError,
                        },
                    ]
                    &&& after.state.routes == state.routes
                    &&& after.state.flags == state.flags
                    &&& after.state.bindings.contains_key(filter) == (
                    state.bindings.contains_key(filter) && state.bindings[filter].path.flow_id
                        != path.flow_id)
                } else {
                    goes_on(state, after, DeliveryNext::Fail(Reason::Link(error)))
                },
                _ => goes_on(state, after, DeliveryNext::Fail(Reason::Link(error))),
            }
        }),
{
}

} // verus!
