//! What outlives the connection of a session.

use std::collections::VecDeque;

use vstd::prelude::*;

use crate::identity::{Id, MessageSource};
use crate::outbound::MomentStatus;
use crate::packet::{PacketId, Publish};
use crate::subscribe::SubscriptionOptions;

verus! {

/// A message in the send window of a session.
#[derive(Debug)]
pub struct OutInflightMessage {
    /// What the message awaits.
    pub status: MomentStatus,
    /// Where the message comes from.
    pub from: MessageSource,
    /// The message.
    pub publish: Publish,
}

/// Information about an offline session, preserved for session resumption.
///
/// It holds no reply path and no transaction: those belong to a connection, and are built
/// anew from what the client retransmits.
#[derive(Debug)]
pub struct OfflineInfo {
    /// Identity of the session that produced this snapshot.
    pub id: Id,
    /// Subscriptions retained by the persistent session.
    pub subscriptions: Vec<(String, SubscriptionOptions)>,
    /// Messages queued while the session was offline.
    pub offline_messages: VecDeque<(MessageSource, Publish)>,
    /// Broker-to-client QoS messages awaiting acknowledgement.
    pub inflight_messages: Vec<OutInflightMessage>,
    /// Client-issued QoS2 packet identifiers that are awaiting PUBREL.
    pub inbound_inflight_packet_ids: Vec<PacketId>,
    /// Original session creation timestamp.
    pub created_at: i64,
}

impl OfflineInfo {
    /// What a session leaves: its subscriptions, the messages of its queue in the order in which
    /// they would have been delivered, and its send and receive windows.
    pub open spec fn collected(
        id: Id,
        subscriptions: Vec<(String, SubscriptionOptions)>,
        deliver_queue: VecDeque<(MessageSource, Publish)>,
        inflight_messages: Vec<OutInflightMessage>,
        inbound_inflight_packet_ids: Vec<PacketId>,
        created_at: i64,
    ) -> OfflineInfo {
        OfflineInfo {
            id,
            subscriptions,
            offline_messages: deliver_queue,
            inflight_messages,
            inbound_inflight_packet_ids,
            created_at,
        }
    }

    /// Collects what a session leaves.
    pub fn collect(
        id: &Id,
        subscriptions: Vec<(String, SubscriptionOptions)>,
        deliver_queue: VecDeque<(MessageSource, Publish)>,
        inflight_messages: Vec<OutInflightMessage>,
        inbound_inflight_packet_ids: Vec<PacketId>,
        created_at: i64,
    ) -> (info: OfflineInfo)
        ensures
            info == OfflineInfo::collected(
                *id,
                subscriptions,
                deliver_queue,
                inflight_messages,
                inbound_inflight_packet_ids,
                created_at,
            ),
    {
        OfflineInfo {
            id: id.clone(),
            subscriptions,
            offline_messages: deliver_queue,
            inflight_messages,
            inbound_inflight_packet_ids,
            created_at,
        }
    }
}

/// What a resumed session takes over, in the order in which it does so.
#[derive(Debug)]
pub struct Transfer {
    /// Subscriptions to be entered into the routing table and into the session, each
    /// followed by the stored messages that match it.
    pub subscriptions: Vec<(String, SubscriptionOptions)>,
    /// Messages of the send window to be retransmitted.
    pub retransmit: Vec<OutInflightMessage>,
    /// Messages to be put into the session's mailbox.
    pub forward: Vec<(MessageSource, Publish)>,
}

/// Whether `transfer` is what a resumed session takes over of `info`: no subscription where it
/// starts clean, the send window from its end, and the queue from its front.
pub open spec fn takes_over(
    info: OfflineInfo,
    clear_subscriptions: bool,
    transfer: Transfer,
) -> bool {
    &&& transfer.subscriptions@ == (if clear_subscriptions {
        Seq::empty()
    } else {
        info.subscriptions@
    })
    &&& transfer.retransmit@ == info.inflight_messages@.reverse()
    &&& transfer.forward@ == info.offline_messages@
}

/// Returns what a resumed session takes over.
pub fn plan_transfer(info: OfflineInfo, clear_subscriptions: bool) -> (transfer: Transfer)
    ensures
        takes_over(info, clear_subscriptions, transfer),
{
    let subscriptions = if clear_subscriptions {
        Vec::new()
    } else {
        info.subscriptions
    };
    let mut inflight = info.inflight_messages;
    let ghost all = inflight@;
    let mut retransmit: Vec<OutInflightMessage> = Vec::new();
    while inflight.len() > 0
        invariant
            inflight@.len() + retransmit@.len() == all.len(),
            inflight@ == all.take(inflight@.len() as int),
            forall|i: int|
                0 <= i < retransmit@.len() ==> #[trigger] retransmit@[i] == all[all.len() - 1 - i],
        decreases inflight.len(),
    {
        let ghost before = inflight@;
        if let Some(message) = inflight.pop() {
            assert(inflight@ =~= all.take(inflight@.len() as int));
            retransmit.push(message);
        }
    }
    assert(retransmit@ =~= all.reverse());
    let mut queue = info.offline_messages;
    let ghost queued = queue@;
    let mut forward: Vec<(MessageSource, Publish)> = Vec::new();
    while queue.len() > 0
        invariant
            queued == forward@ + queue@,
        decreases queue.len(),
    {
        let ghost before = queue@;
        if let Some(message) = queue.pop_front() {
            let ghost sent = forward@;
            forward.push(message);
            assert(forward@ + queue@ =~= sent + before);
        }
    }
    assert(forward@ =~= queued);
    Transfer { subscriptions, retransmit, forward }
}

/// Packet identifiers with which the receive window of a new session starts: those of the
/// session that is resumed, unless the client starts clean.
pub open spec fn restored_ids(offline: Option<OfflineInfo>, clean_start: bool) -> Seq<PacketId> {
    match offline {
        Some(offline) => if clean_start {
            Seq::empty()
        } else {
            offline.inbound_inflight_packet_ids@
        },
        None => Seq::empty(),
    }
}

/// Returns the packet identifiers with which the receive window of a new session starts.
pub fn inbound_ids_to_restore(offline: Option<&OfflineInfo>, clean_start: bool) -> (ids: Vec<
    PacketId,
>)
    ensures
        ids@ == restored_ids(
            match offline {
                Some(offline) => Some(*offline),
                None => None,
            },
            clean_start,
        ),
{
    let mut ids: Vec<PacketId> = Vec::new();
    if let Some(offline) = offline {
        if !clean_start {
            let mut i: usize = 0;
            while i < offline.inbound_inflight_packet_ids.len()
                invariant
                    i <= offline.inbound_inflight_packet_ids.len(),
                    ids@ == offline.inbound_inflight_packet_ids@.take(i as int),
                decreases offline.inbound_inflight_packet_ids.len() - i,
            {
                ids.push(offline.inbound_inflight_packet_ids[i]);
                i = i + 1;
                assert(ids@ =~= offline.inbound_inflight_packet_ids@.take(i as int));
            }
            assert(ids@ =~= offline.inbound_inflight_packet_ids@);
        }
    }
    ids
}

/// The messages that are reported dropped when a session is cleaned: those of its queue, then
/// those of its send window.
pub fn messages_to_drop(
    deliver_queue: VecDeque<(MessageSource, Publish)>,
    inflight: VecDeque<OutInflightMessage>,
) -> (dropped: Vec<(MessageSource, Publish)>)
    ensures
        dropped@ == deliver_queue@ + inflight@.map_values(
            |message: OutInflightMessage| (message.from, message.publish),
        ),
{
    let ghost parts = |message: OutInflightMessage| (message.from, message.publish);
    let mut queue = deliver_queue;
    let ghost queued = queue@;
    let mut dropped: Vec<(MessageSource, Publish)> = Vec::new();
    while queue.len() > 0
        invariant
            queued == dropped@ + queue@,
        decreases queue.len(),
    {
        let ghost before = queue@;
        if let Some(message) = queue.pop_front() {
            let ghost sent = dropped@;
            dropped.push(message);
            assert(dropped@ + queue@ =~= sent + before);
        }
    }
    assert(dropped@ =~= queued);
    let mut window = inflight;
    let ghost all = window@;
    while window.len() > 0
        invariant
            parts == (|message: OutInflightMessage| (message.from, message.publish)),
            queued + all.map_values(parts) == dropped@ + window@.map_values(parts),
        decreases window.len(),
    {
        let ghost before = window@;
        if let Some(message) = window.pop_front() {
            let ghost sent = dropped@;
            let ghost given = message;
            dropped.push((message.from, message.publish));
            assert(before.map_values(parts) =~= seq![parts(given)] + window@.map_values(parts));
            assert(dropped@ + window@.map_values(parts) =~= sent + before.map_values(parts));
        }
    }
    assert(dropped@ =~= dropped@ + window@.map_values(parts));
    dropped
}

/// Figures about a session.
#[derive(Debug)]
pub struct SessionSummary {
    /// Number of subscriptions.
    pub subscription_count: usize,
    /// The first subscriptions, at most 100 of them.
    pub topic_filters: Vec<(String, SubscriptionOptions)>,
    /// Messages in the queue.
    pub queues: usize,
    /// Messages in the send window.
    pub inflights: usize,
    /// Time at which the session was created, 0 where it is not known.
    pub created_at: i64,
}

/// Returns figures about a session; `subscriptions` is `None` where they cannot be had.
pub fn summarize(
    subscriptions: Option<Vec<(String, SubscriptionOptions)>>,
    queues: usize,
    inflights: usize,
    created_at: Option<i64>,
) -> (summary: SessionSummary)
    ensures
        summary.subscription_count == (match subscriptions {
            Some(subscriptions) => subscriptions@.len(),
            None => 0,
        }),
        summary.topic_filters@ == (match subscriptions {
            Some(subscriptions) => if subscriptions@.len() > 100 {
                subscriptions@.take(100)
            } else {
                subscriptions@
            },
            None => Seq::empty(),
        }),
        summary.queues == queues,
        summary.inflights == inflights,
        summary.created_at == (match created_at {
            Some(created_at) => created_at,
            None => 0,
        }),
{
    let (subscription_count, topic_filters): (usize, Vec<(String, SubscriptionOptions)>) =
        match subscriptions {
        Some(subscriptions) => {
            let count: usize = subscriptions.len();
            let mut first = subscriptions;
            if count > 100 {
                first.truncate(100);
            }
            assert(first@ =~= if count > 100 {
                subscriptions@.take(100)
            } else {
                subscriptions@
            });
            (count, first)
        },
        None => (0, Vec::new()),
    };
    SessionSummary {
        subscription_count,
        topic_filters,
        queues,
        inflights,
        created_at: match created_at {
            Some(created_at) => created_at,
            None => 0,
        },
    }
}

/// Every message of an offline session reaches the session that resumes it: each message of
/// the send window is retransmitted once, and the queue is forwarded in its order.
pub proof fn transfers_lose_no_message(
    info: OfflineInfo,
    clear_subscriptions: bool,
    transfer: Transfer,
)
    requires
        takes_over(info, clear_subscriptions, transfer),
    ensures
        transfer.retransmit@.to_multiset() == info.inflight_messages@.to_multiset(),
        transfer.forward@ == info.offline_messages@,
        !clear_subscriptions ==> transfer.subscriptions@ == info.subscriptions@,
{
    let all = info.inflight_messages@;
    lemma_reversal_keeps_the_messages(all);
}

proof fn lemma_reversal_keeps_the_messages(all: Seq<OutInflightMessage>)
    ensures
        all.reverse().to_multiset() == all.to_multiset(),
    decreases all.len(),
{
    broadcast use vstd::seq_lib::group_to_multiset_ensures;

    if all.len() > 0 {
        let rest = all.drop_last();
        lemma_reversal_keeps_the_messages(rest);
        assert(all.reverse() =~= seq![all.last()] + rest.reverse());
        assert(all =~= rest.push(all.last()));
        vstd::seq_lib::lemma_multiset_commutative(seq![all.last()], rest.reverse());
        assert(seq![all.last()] =~= Seq::<OutInflightMessage>::empty().push(all.last()));
    } else {
        assert(all.reverse() =~= all);
    }
}

/// The receive window survives an interruption: a session that is resumed knows the messages
/// that await PUBREL which the session before it knew, while a client that starts clean begins
/// with an empty one.
pub proof fn receive_windows_survive_interruptions(
    id: Id,
    subscriptions: Vec<(String, SubscriptionOptions)>,
    deliver_queue: VecDeque<(MessageSource, Publish)>,
    inflight_messages: Vec<OutInflightMessage>,
    inbound_inflight_packet_ids: Vec<PacketId>,
    created_at: i64,
)
    ensures
        ({
            let left = OfflineInfo::collected(
                id,
                subscriptions,
                deliver_queue,
                inflight_messages,
                inbound_inflight_packet_ids,
                created_at,
            );
            &&& restored_ids(Some(left), false) == inbound_inflight_packet_ids@
            &&& restored_ids(Some(left), true) == Seq::<PacketId>::empty()
        }),
{
}

/// What a session leaves is what it had: nothing of it is dropped, changed or put into another
/// place.
pub proof fn nothing_is_lost_when_a_session_is_left(
    id: Id,
    subscriptions: Vec<(String, SubscriptionOptions)>,
    deliver_queue: VecDeque<(MessageSource, Publish)>,
    inflight_messages: Vec<OutInflightMessage>,
    inbound_inflight_packet_ids: Vec<PacketId>,
    created_at: i64,
)
    ensures
        ({
            let left = OfflineInfo::collected(
                id,
                subscriptions,
                deliver_queue,
                inflight_messages,
                inbound_inflight_packet_ids,
                created_at,
            );
            &&& left.id == id
            &&& left.subscriptions == subscriptions
            &&& left.offline_messages == deliver_queue
            &&& left.inflight_messages == inflight_messages
            &&& left.inbound_inflight_packet_ids == inbound_inflight_packet_ids
            &&& left.created_at == created_at
        }),
{
}

/// A session that is resumed takes its subscriptions over unless it starts clean, in which case
/// it takes none; either way its messages are taken over, the last of the send window first.
pub proof fn resumed_sessions_take_their_messages_over(
    info: OfflineInfo,
    clear_subscriptions: bool,
    transfer: Transfer,
)
    requires
        takes_over(info, clear_subscriptions, transfer),
    ensures
        clear_subscriptions ==> transfer.subscriptions@.len() == 0,
        !clear_subscriptions ==> transfer.subscriptions@ == info.subscriptions@,
        transfer.forward@ == info.offline_messages@,
        transfer.retransmit@.len() == info.inflight_messages@.len(),
        forall|i: int|
            0 <= i < info.inflight_messages@.len() ==> #[trigger] transfer.retransmit@[i]
                == info.inflight_messages@[info.inflight_messages@.len() - 1 - i],
{
}

/// A client that was not here before starts with an empty receive window.
pub proof fn new_clients_start_with_an_empty_window(clean_start: bool)
    ensures
        restored_ids(None, clean_start) == Seq::<PacketId>::empty(),
{
}

} // verus!
