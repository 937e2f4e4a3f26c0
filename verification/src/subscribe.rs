//! Rules for making and ending subscriptions.
//!
//! Making a subscription alternates between these rules and services of the
//! broker: [`check_limits`] checks the limits of the listener, hooks may then adjust the
//! filter ([`adjust`]) and decide on access ([`apply_access_rule`]), the broker
//! makes the subscription, and [`conclude`] says what follows from its answer.

use vstd::prelude::*;

use crate::identity::MessageSource;
use crate::inbound::{SubscribeReply, UnsubscribeReply};
use crate::packet::{
    PacketId, Publish, QoS, RetainHandling, SubscribeAck, SubscribeAckReason, SubscribeReturnCode,
    UnsubscribeAck, UnsubscribeAckReason,
};
use crate::topic::TopicFilter;

verus! {

/// Options of a subscription.
#[derive(Debug)]
pub struct SubscriptionOptions {
    /// Highest quality of service that is granted.
    pub qos: QoS,
    /// When retained messages are sent; `None` for MQTT 3.
    pub retain_handling: Option<RetainHandling>,
    /// Group that shares the subscription.
    pub shared_group: Option<String>,
    /// Most subscribers that the filter may have.
    pub limit_subs: Option<usize>,
    /// Subscription identifier.
    pub id: Option<u32>,
}

/// A subscription to be made.
#[derive(Debug)]
pub struct Subscribe {
    /// Filter.
    pub topic_filter: String,
    /// Options.
    pub opts: SubscriptionOptions,
}

/// A subscription to be ended.
#[derive(Debug)]
pub struct Unsubscribe {
    /// Filter.
    pub topic_filter: String,
    /// Group that shares the subscription.
    pub shared_group: Option<String>,
}

/// What the broker answers to a subscription.
#[derive(Debug)]
pub struct SubscribeReturn {
    /// Reason code for the client.
    pub ack_reason: SubscribeAckReason,
    /// Options of the subscription that was replaced.
    pub prev_opts: Option<SubscriptionOptions>,
}

impl SubscribeReturn {
    /// The quality of service that was granted, if any.
    pub open spec fn spec_success(&self) -> Option<QoS> {
        match self.ack_reason {
            SubscribeAckReason::GrantedQos0 => Some(QoS::AtMostOnce),
            SubscribeAckReason::GrantedQos1 => Some(QoS::AtLeastOnce),
            SubscribeAckReason::GrantedQos2 => Some(QoS::ExactlyOnce),
            _ => None,
        }
    }

    /// Returns the quality of service that was granted, if any.
    #[verifier::when_used_as_spec(spec_success)]
    pub fn success(&self) -> (qos: Option<QoS>)
        ensures
            qos == self.success(),
    {
        match self.ack_reason {
            SubscribeAckReason::GrantedQos0 => Some(QoS::AtMostOnce),
            SubscribeAckReason::GrantedQos1 => Some(QoS::AtLeastOnce),
            SubscribeAckReason::GrantedQos2 => Some(QoS::ExactlyOnce),
            _ => None,
        }
    }

    /// Returns whether the subscription was refused.
    pub fn failure(&self) -> (refused: bool)
        ensures
            refused == (self.success() is None),
    {
        self.success().is_none()
    }
}

/// What a subscription came to.
#[derive(Debug)]
pub struct SubscribeOutcome {
    /// Answer for the client.
    pub reply: SubscribeReturn,
    /// Filter that was granted, as the broker knows it.
    pub topic_filter: Option<String>,
}

/// Why a subscription is refused.
#[derive(Clone, Copy, Debug, PartialEq, Eq, Structural)]
pub enum SubscribeError {
    /// The client has as many subscriptions as it may have.
    TooManySubscriptions,
    /// The text is not a topic filter.
    InvalidTopicFilter,
    /// The filter has too many levels.
    TooManyTopicLevels,
    /// The filter has as many subscribers as it may have.
    SubscribeLimited {
        /// Most subscribers that the filter may have.
        limit: usize,
        /// Subscribers that it has.
        count: usize,
    },
}

/// Limits that a listener sets to subscriptions; 0 stands for no limit.
#[derive(Clone, Copy, Debug, PartialEq, Eq, Structural)]
pub struct SubscriptionLimits {
    /// Most subscriptions of a client.
    pub max_subscriptions: usize,
    /// Most levels of a filter.
    pub max_topic_levels: usize,
    /// Highest quality of service.
    pub max_qos_allowed: QoS,
}

/// Who has subscribed to a filter already.
#[derive(Clone, Copy, Debug, PartialEq, Eq, Structural)]
pub struct Subscribers {
    /// Number of subscribers.
    pub count: usize,
    /// Whether the client is one of them.
    pub has_client: bool,
}

/// Why a subscription is refused, if it is.
pub open spec fn refusal(
    sub: Subscribe,
    limits: SubscriptionLimits,
    subscription_count: usize,
    subscribers: Option<Subscribers>,
) -> Option<SubscribeError> {
    if limits.max_subscriptions > 0 && subscription_count >= limits.max_subscriptions {
        Some(SubscribeError::TooManySubscriptions)
    } else if limits.max_topic_levels > 0 && !crate::topic::is_filter(sub.topic_filter@) {
        Some(SubscribeError::InvalidTopicFilter)
    } else if limits.max_topic_levels > 0 && crate::topic::levels(sub.topic_filter@).len()
        > limits.max_topic_levels {
        Some(SubscribeError::TooManyTopicLevels)
    } else {
        match (sub.opts.limit_subs, subscribers) {
            (Some(limit), Some(subscribers)) => if !subscribers.has_client && subscribers.count
                >= limit {
                Some(SubscribeError::SubscribeLimited { limit, count: subscribers.count })
            } else {
                None
            },
            _ => None,
        }
    }
}

/// The subscription with its quality of service lowered to at most `qos`.
pub open spec fn lowered(sub: Subscribe, qos: QoS) -> Subscribe {
    Subscribe {
        opts: SubscriptionOptions { qos: sub.opts.qos.less_value(qos), ..sub.opts },
        ..sub
    }
}

/// Checks a subscription against the limits of the listener, and lowers its quality of
/// service to what the listener allows.
///
/// `subscription_count` is the number of subscriptions that the client has, `subscribers`
/// who has subscribed to the same filter.
pub fn check_limits(
    sub: Subscribe,
    limits: SubscriptionLimits,
    subscription_count: usize,
    subscribers: Option<Subscribers>,
) -> (result: Result<Subscribe, SubscribeError>)
    ensures
        result == (match refusal(sub, limits, subscription_count, subscribers) {
            Some(error) => Err::<Subscribe, SubscribeError>(error),
            None => Ok::<Subscribe, SubscribeError>(lowered(sub, limits.max_qos_allowed)),
        }),
{
    if limits.max_subscriptions > 0 && subscription_count >= limits.max_subscriptions {
        return Err(SubscribeError::TooManySubscriptions);
    }
    if limits.max_topic_levels > 0 {
        match TopicFilter::parse(sub.topic_filter.as_str()) {
            None => {
                return Err(SubscribeError::InvalidTopicFilter);
            },
            Some(filter) => {
                if filter.len() > limits.max_topic_levels {
                    return Err(SubscribeError::TooManyTopicLevels);
                }
            },
        }
    }
    if let Some(limit) = sub.opts.limit_subs {
        if let Some(subscribers) = subscribers {
            if !subscribers.has_client && subscribers.count >= limit {
                return Err(SubscribeError::SubscribeLimited { limit, count: subscribers.count });
            }
        }
    }
    let mut sub = sub;
    sub.opts.qos = sub.opts.qos.less_value(limits.max_qos_allowed);
    Ok(sub)
}

/// Replaces the filter where a hook did.
pub fn adjust(sub: Subscribe, topic_filter: Option<String>) -> (adjusted: Subscribe)
    ensures
        adjusted == (match topic_filter {
            Some(topic_filter) => Subscribe { topic_filter, ..sub },
            None => sub,
        }),
{
    let mut sub = sub;
    if let Some(topic_filter) = topic_filter {
        sub.topic_filter = topic_filter;
    }
    sub
}

/// Applies what the access rules say: no rule changes nothing, a grant lowers the quality
/// of service, and a refusal is the outcome.
pub fn apply_access_rule(sub: Subscribe, rule: Option<SubscribeReturn>) -> (result: Result<
    Subscribe,
    SubscribeOutcome,
>)
    ensures
        result == (match rule {
            None => Ok::<Subscribe, SubscribeOutcome>(sub),
            Some(rule) => match rule.success() {
                Some(qos) => Ok::<Subscribe, SubscribeOutcome>(lowered(sub, qos)),
                None => Err::<Subscribe, SubscribeOutcome>(
                    SubscribeOutcome { reply: rule, topic_filter: None },
                ),
            },
        }),
{
    match rule {
        None => Ok(sub),
        Some(rule) => match rule.success() {
            Some(qos) => {
                let mut sub = sub;
                sub.opts.qos = sub.opts.qos.less_value(qos);
                Ok(sub)
            },
            None => Err(SubscribeOutcome { reply: rule, topic_filter: None }),
        },
    }
}

/// What is sent to a client because of a new subscription.
#[derive(Clone, Copy, Debug, PartialEq, Eq, Structural)]
pub struct Backlog {
    /// Quality of service that was granted.
    pub qos: QoS,
    /// When retained messages are sent.
    pub retain_handling: Option<RetainHandling>,
    /// Whether the subscription did not exist before.
    pub is_new: bool,
}

/// Concludes a subscription from the answer of the broker: the outcome, and the backlog that
/// is sent where the subscription was granted.
pub fn conclude(sub: &Subscribe, reply: SubscribeReturn) -> (result: (
    SubscribeOutcome,
    Option<Backlog>,
))
    ensures
        result.0.reply == reply,
        result.0.topic_filter == (if reply.success() is Some {
            Some(sub.topic_filter)
        } else {
            None
        }),
        result.1 == (match reply.success() {
            Some(qos) => Some(
                Backlog {
                    qos,
                    retain_handling: sub.opts.retain_handling,
                    is_new: reply.prev_opts is None,
                },
            ),
            None => None,
        }),
{
    match reply.success() {
        Some(qos) => {
            let backlog = Backlog {
                qos,
                retain_handling: sub.opts.retain_handling,
                is_new: reply.prev_opts.is_none(),
            };
            (
                SubscribeOutcome { reply, topic_filter: Some(sub.topic_filter.clone()) },
                Some(backlog),
            )
        },
        None => (SubscribeOutcome { reply, topic_filter: None }, None),
    }
}

/// How a finished subscription counts in the statistics.
#[derive(Clone, Copy, Debug, PartialEq, Eq, Structural)]
pub enum SubscribeMetric {
    /// Granted.
    Granted,
    /// Refused by the access rules.
    AuthError,
    /// Refused or failed for another reason.
    Error,
}

/// Returns how a finished subscription counts; `None` stands for one that failed.
pub fn subscribe_metric(ack_reason: Option<SubscribeAckReason>) -> (metric: SubscribeMetric)
    ensures
        metric == (match ack_reason {
            Some(SubscribeAckReason::NotAuthorized) => SubscribeMetric::AuthError,
            Some(SubscribeAckReason::GrantedQos0) => SubscribeMetric::Granted,
            Some(SubscribeAckReason::GrantedQos1) => SubscribeMetric::Granted,
            Some(SubscribeAckReason::GrantedQos2) => SubscribeMetric::Granted,
            _ => SubscribeMetric::Error,
        }),
{
    match ack_reason {
        Some(SubscribeAckReason::NotAuthorized) => SubscribeMetric::AuthError,
        Some(SubscribeAckReason::GrantedQos0) => SubscribeMetric::Granted,
        Some(SubscribeAckReason::GrantedQos1) => SubscribeMetric::Granted,
        Some(SubscribeAckReason::GrantedQos2) => SubscribeMetric::Granted,
        _ => SubscribeMetric::Error,
    }
}

/// What is done about retained messages after a subscription.
#[derive(Clone, Copy, Debug, PartialEq, Eq, Structural)]
pub enum RetainPlan {
    /// Retained messages are not kept at all.
    Unavailable,
    /// None is sent.
    SendNone,
    /// Those that match are sent.
    Send,
}

/// Whether retained messages are sent after a subscription; MQTT 3 always sends them.
pub open spec fn sends_retained(retain_handling: Option<RetainHandling>, is_new: bool) -> bool {
    match retain_handling {
        Some(RetainHandling::AtSubscribe) => true,
        Some(RetainHandling::AtSubscribeNew) => is_new,
        Some(RetainHandling::NoAtSubscribe) => false,
        None => true,
    }
}

/// Returns what is done about retained messages after a subscription.
pub fn retain_plan(
    retain_available: bool,
    retain_handling: Option<RetainHandling>,
    is_new: bool,
) -> (plan: RetainPlan)
    ensures
        plan == (if !retain_available {
            RetainPlan::Unavailable
        } else if sends_retained(retain_handling, is_new) {
            RetainPlan::Send
        } else {
            RetainPlan::SendNone
        }),
{
    if !retain_available {
        return RetainPlan::Unavailable;
    }
    let send: bool = match retain_handling {
        Some(RetainHandling::AtSubscribe) => true,
        Some(RetainHandling::AtSubscribeNew) => is_new,
        Some(RetainHandling::NoAtSubscribe) => false,
        None => true,
    };
    if send {
        RetainPlan::Send
    } else {
        RetainPlan::SendNone
    }
}

/// A retained message as it is sent to a new subscriber.
pub open spec fn retained_copy(publish: Publish, topic: String, qos: QoS, now: i64) -> Publish {
    Publish {
        dup: false,
        retain: true,
        qos: publish.qos.less_value(qos),
        topic,
        packet_id: None,
        create_time: Some(now),
        ..publish
    }
}

/// Returns a retained message as it is sent to a new subscriber.
pub fn retained_message(publish: Publish, topic: String, qos: QoS, now: i64) -> (copy: Publish)
    ensures
        copy == retained_copy(publish, topic, qos, now),
{
    let mut publish = publish;
    publish.dup = false;
    publish.retain = true;
    publish.qos = publish.qos.less_value(qos);
    publish.topic = topic;
    publish.packet_id = None;
    publish.create_time = Some(now);
    publish
}

/// A retained message with the identifier under which it is also stored.
#[derive(Debug)]
pub struct Retain {
    /// Identifier in the message store.
    pub msg_id: Option<u64>,
    /// Where the message comes from.
    pub from: MessageSource,
    /// The message.
    pub publish: Publish,
}

/// The node and store identifiers of those retained messages that are stored too.
pub open spec fn stored_ids(retains: Seq<Retain>) -> Seq<(u64, u64)>
    decreases retains.len(),
{
    if retains.len() == 0 {
        Seq::empty()
    } else {
        let before = stored_ids(retains.drop_last());
        match retains.last().msg_id {
            Some(msg_id) => before.push((retains.last().from.id.node_id, msg_id)),
            None => before,
        }
    }
}

/// Returns the node and store identifiers of those retained messages that are stored too, so
/// that they are not sent twice.
pub fn retained_store_ids(retains: &Vec<Retain>) -> (ids: Vec<(u64, u64)>)
    ensures
        ids@ == stored_ids(retains@),
{
    let mut ids: Vec<(u64, u64)> = Vec::new();
    let mut i: usize = 0;
    assert(retains@.take(0) =~= Seq::empty());
    while i < retains.len()
        invariant
            i <= retains.len(),
            ids@ == stored_ids(retains@.take(i as int)),
        decreases retains.len() - i,
    {
        proof {
            assert(retains@.take(i as int + 1).drop_last() =~= retains@.take(i as int));
        }
        if let Some(msg_id) = retains[i].msg_id {
            ids.push((retains[i].from.id.node_id, msg_id));
        }
        i = i + 1;
    }
    assert(retains@.take(retains@.len() as int) =~= retains@);
    ids
}

/// A message from the message store.
#[derive(Debug)]
pub struct StoredMessage {
    /// Identifier in the message store.
    pub msg_id: u64,
    /// Where the message comes from.
    pub from: MessageSource,
    /// The message.
    pub publish: Publish,
}

/// A stored message as it is sent to a new subscriber.
pub open spec fn stored_copy(message: StoredMessage, qos: QoS) -> StoredMessage {
    StoredMessage {
        publish: Publish {
            dup: false,
            retain: false,
            qos: message.publish.qos.less_value(qos),
            packet_id: None,
            ..message.publish
        },
        ..message
    }
}

/// The stored messages that are sent to a new subscriber: in order, without those that were
/// sent as retained messages.
pub open spec fn stored_copies(
    messages: Seq<StoredMessage>,
    qos: QoS,
    excluded: Seq<(u64, u64)>,
) -> Seq<StoredMessage>
    decreases messages.len(),
{
    if messages.len() == 0 {
        Seq::empty()
    } else {
        let first = messages[0];
        let rest = stored_copies(messages.drop_first(), qos, excluded);
        if excluded.contains((first.from.id.node_id, first.msg_id)) {
            rest
        } else {
            seq![stored_copy(first, qos)] + rest
        }
    }
}

fn is_excluded(excluded: &Vec<(u64, u64)>, node_id: u64, msg_id: u64) -> (found: bool)
    ensures
        found == excluded@.contains((node_id, msg_id)),
{
    let mut i: usize = 0;
    while i < excluded.len()
        invariant
            i <= excluded.len(),
            forall|j: int| 0 <= j < i ==> excluded@[j] != (node_id, msg_id),
        decreases excluded.len() - i,
    {
        if excluded[i].0 == node_id && excluded[i].1 == msg_id {
            assert(excluded@[i as int] == (node_id, msg_id));
            return true;
        }
        i = i + 1;
    }
    false
}

/// Returns the stored messages that are sent to a new subscriber.
pub fn stored_messages(messages: Vec<StoredMessage>, qos: QoS, excluded: &Vec<(u64, u64)>) -> (copies:
    Vec<StoredMessage>)
    ensures
        copies@ == stored_copies(messages@, qos, excluded@),
{
    let ghost all = messages@;
    let mut rest = messages;
    let mut copies: Vec<StoredMessage> = Vec::new();
    while rest.len() > 0
        invariant
            stored_copies(all, qos, excluded@) == copies@ + stored_copies(
                rest@,
                qos,
                excluded@,
            ),
        decreases rest.len(),
    {
        let ghost before = rest@;
        let message = rest.remove(0);
        proof {
            assert(before.drop_first() =~= rest@);
        }
        if !is_excluded(excluded, message.from.id.node_id, message.msg_id) {
            let ghost given = message;
            let ghost sent = copies@;
            let mut message = message;
            message.publish.dup = false;
            message.publish.retain = false;
            message.publish.qos = message.publish.qos.less_value(qos);
            message.publish.packet_id = None;
            assert(message == stored_copy(given, qos));
            copies.push(message);
            assert(copies@ + stored_copies(rest@, qos, excluded@) =~= sent + (seq![
                stored_copy(given, qos),
            ] + stored_copies(rest@, qos, excluded@)));
        }
    }
    assert(copies@ =~= copies@ + stored_copies(rest@, qos, excluded@));
    copies
}

/// Whether every filter that was granted is a valid topic filter.
pub open spec fn granted_filter_is_valid(outcome: SubscribeOutcome) -> bool {
    match outcome.topic_filter {
        Some(filter) => crate::topic::is_filter(filter@),
        None => true,
    }
}

/// The texts of `filters`.
pub open spec fn texts(filters: Seq<TopicFilter>) -> Seq<Seq<char>> {
    filters.map_values(|filter: TopicFilter| filter@)
}

/// Answer to a SUBSCRIBE as it grows filter by filter.
#[derive(Debug)]
pub struct SubscribeBatch {
    /// Reason code of each filter, in order.
    pub status: Vec<SubscribeAckReason>,
    /// Filters that were granted, in order.
    pub bound: Vec<TopicFilter>,
}

impl SubscribeBatch {
    /// Creates an answer for no filter yet.
    pub fn new() -> (batch: SubscribeBatch)
        ensures
            batch.status@.len() == 0,
            batch.bound@.len() == 0,
    {
        SubscribeBatch { status: Vec::new(), bound: Vec::new() }
    }

    /// Adds what one filter came to; `None` stands for a subscription that failed.
    ///
    /// A filter that was granted has to be valid: else nothing is added, and the whole
    /// request fails.
    pub fn add(&mut self, outcome: Option<SubscribeOutcome>) -> (added: bool)
        ensures
            added == (match outcome {
                Some(outcome) => granted_filter_is_valid(outcome),
                None => true,
            }),
            !added ==> *final(self) == *old(self),
            added ==> {
                &&& final(self).status@ == old(self).status@.push(
                    match outcome {
                        Some(outcome) => outcome.reply.ack_reason,
                        None => SubscribeAckReason::UnspecifiedError,
                    },
                )
                &&& texts(final(self).bound@) == (match outcome {
                    Some(SubscribeOutcome { topic_filter: Some(filter), .. }) => texts(
                        old(self).bound@,
                    ).push(filter@),
                    _ => texts(old(self).bound@),
                })
            },
    {
        match outcome {
            Some(outcome) => {
                if let Some(text) = &outcome.topic_filter {
                    match TopicFilter::parse(text.as_str()) {
                        Some(filter) => {
                            self.bound.push(filter);
                            assert(texts(self.bound@) =~= texts(old(self).bound@).push(text@));
                        },
                        None => {
                            return false;
                        },
                    }
                }
                self.status.push(outcome.reply.ack_reason);
            },
            None => {
                self.status.push(SubscribeAckReason::UnspecifiedError);
            },
        }
        true
    }

    /// Returns the MQTT 3 answer with the filters that were granted.
    pub fn into_v3(self, packet_id: PacketId) -> (answer: (SubscribeReply, Vec<TopicFilter>))
        ensures
            answer.1 == self.bound,
            answer.0 matches SubscribeReply::V3 { packet_id: id, status } && id == packet_id
                && status@ == return_codes(self.status@),
    {
        let mut status: Vec<SubscribeReturnCode> = Vec::new();
        let mut i: usize = 0;
        while i < self.status.len()
            invariant
                i <= self.status.len(),
                status@ == return_codes(self.status@.take(i as int)),
            decreases self.status.len() - i,
        {
            let code = return_code(self.status[i]);
            status.push(code);
            assert(status@ =~= return_codes(self.status@.take(i as int + 1)));
            i = i + 1;
        }
        assert(self.status@.take(self.status@.len() as int) =~= self.status@);
        (SubscribeReply::V3 { packet_id, status }, self.bound)
    }

    /// Returns the MQTT 5 answer with the filters that were granted.
    pub fn into_v5(self, packet_id: PacketId) -> (answer: (SubscribeReply, Vec<TopicFilter>))
        ensures
            answer.1 == self.bound,
            answer.0 matches SubscribeReply::V5(ack) && ack.packet_id == packet_id && ack.status
                == self.status && ack.properties@.len() == 0 && ack.reason_string is None,
    {
        (
            SubscribeReply::V5(
                SubscribeAck {
                    packet_id,
                    properties: Vec::new(),
                    reason_string: None,
                    status: self.status,
                },
            ),
            self.bound,
        )
    }
}

/// The MQTT 3 return code for a reason code.
pub open spec fn return_code_of(reason: SubscribeAckReason) -> SubscribeReturnCode {
    match reason {
        SubscribeAckReason::GrantedQos0 => SubscribeReturnCode::Success(QoS::AtMostOnce),
        SubscribeAckReason::GrantedQos1 => SubscribeReturnCode::Success(QoS::AtLeastOnce),
        SubscribeAckReason::GrantedQos2 => SubscribeReturnCode::Success(QoS::ExactlyOnce),
        _ => SubscribeReturnCode::Failure,
    }
}

/// The MQTT 3 return codes for reason codes.
pub open spec fn return_codes(reasons: Seq<SubscribeAckReason>) -> Seq<SubscribeReturnCode> {
    reasons.map_values(|reason: SubscribeAckReason| return_code_of(reason))
}

fn return_code(reason: SubscribeAckReason) -> (code: SubscribeReturnCode)
    ensures
        code == return_code_of(reason),
{
    match reason {
        SubscribeAckReason::GrantedQos0 => SubscribeReturnCode::Success(QoS::AtMostOnce),
        SubscribeAckReason::GrantedQos1 => SubscribeReturnCode::Success(QoS::AtLeastOnce),
        SubscribeAckReason::GrantedQos2 => SubscribeReturnCode::Success(QoS::ExactlyOnce),
        _ => SubscribeReturnCode::Failure,
    }
}

/// Answer to an UNSUBSCRIBE as it grows filter by filter.
#[derive(Debug)]
pub struct UnsubscribeBatch {
    /// Filters whose subscriptions were ended, in order.
    pub unbound: Vec<TopicFilter>,
}

impl UnsubscribeBatch {
    /// Creates an answer for no filter yet.
    pub fn new() -> (batch: UnsubscribeBatch)
        ensures
            batch.unbound@.len() == 0,
    {
        UnsubscribeBatch { unbound: Vec::new() }
    }

    /// Adds a filter whose subscription was ended, as the broker knows it. It has to be
    /// valid: else nothing is added, and the whole request fails.
    pub fn add(&mut self, topic_filter: &str) -> (added: bool)
        ensures
            added == crate::topic::is_filter(topic_filter@),
            texts(final(self).unbound@) == (if added {
                texts(old(self).unbound@).push(topic_filter@)
            } else {
                texts(old(self).unbound@)
            }),
    {
        match TopicFilter::parse(topic_filter) {
            Some(filter) => {
                self.unbound.push(filter);
                assert(texts(self.unbound@) =~= texts(old(self).unbound@).push(topic_filter@));
                true
            },
            None => false,
        }
    }

    /// Returns the MQTT 3 answer with the filters.
    pub fn into_v3(self, packet_id: PacketId) -> (answer: (UnsubscribeReply, Vec<TopicFilter>))
        ensures
            answer.0 == (UnsubscribeReply::V3 { packet_id }),
            answer.1 == self.unbound,
    {
        (UnsubscribeReply::V3 { packet_id }, self.unbound)
    }

    /// Returns the MQTT 5 answer with the filters: success for each.
    pub fn into_v5(self, packet_id: PacketId) -> (answer: (UnsubscribeReply, Vec<TopicFilter>))
        ensures
            answer.1 == self.unbound,
            answer.0 matches UnsubscribeReply::V5(ack) && ack.packet_id == packet_id
                && ack.properties@.len() == 0 && ack.reason_string is None && ack.status@
                == Seq::new(self.unbound@.len(), |i: int| UnsubscribeAckReason::Success),
    {
        let mut status: Vec<UnsubscribeAckReason> = Vec::new();
        let mut i: usize = 0;
        while i < self.unbound.len()
            invariant
                i <= self.unbound.len(),
                status@ == Seq::new(i as nat, |j: int| UnsubscribeAckReason::Success),
            decreases self.unbound.len() - i,
        {
            status.push(UnsubscribeAckReason::Success);
            i = i + 1;
            assert(status@ =~= Seq::new(i as nat, |j: int| UnsubscribeAckReason::Success));
        }
        (
            UnsubscribeReply::V5(
                UnsubscribeAck {
                    packet_id,
                    properties: Vec::new(),
                    reason_string: None,
                    status,
                },
            ),
            self.unbound,
        )
    }
}

/// Replaces the filter of a subscription to be ended where a hook did.
pub fn adjust_unsubscribe(unsub: Unsubscribe, topic_filter: Option<String>) -> (adjusted:
    Unsubscribe)
    ensures
        adjusted == (match topic_filter {
            Some(topic_filter) => Unsubscribe { topic_filter, ..unsub },
            None => unsub,
        }),
{
    let mut unsub = unsub;
    if let Some(topic_filter) = topic_filter {
        unsub.topic_filter = topic_filter;
    }
    unsub
}

/// The quality of service that a subscription ends up with never exceeds what the client
/// asked for, what the listener allows, or what the access rules grant.
pub proof fn granted_quality_is_bounded(sub: Subscribe, limits: SubscriptionLimits, rule: QoS)
    ensures
        ({
            let qos = lowered(lowered(sub, limits.max_qos_allowed), rule).opts.qos.level();
            &&& qos <= sub.opts.qos.level()
            &&& qos <= limits.max_qos_allowed.level()
            &&& qos <= rule.level()
        }),
{
}

/// A stored message that was sent as a retained message is not sent a second time.
pub proof fn excluded_messages_are_not_sent(
    messages: Seq<StoredMessage>,
    qos: QoS,
    excluded: Seq<(u64, u64)>,
)
    ensures
        forall|i: int|
            0 <= i < stored_copies(messages, qos, excluded).len() ==> !excluded.contains(
                (
                    (#[trigger] stored_copies(messages, qos, excluded)[i]).from.id.node_id,
                    stored_copies(messages, qos, excluded)[i].msg_id,
                ),
            ),
    decreases messages.len(),
{
    if messages.len() > 0 {
        excluded_messages_are_not_sent(messages.drop_first(), qos, excluded);
        let rest = stored_copies(messages.drop_first(), qos, excluded);
        let all = stored_copies(messages, qos, excluded);
        assert forall|i: int| 0 <= i < all.len() implies !excluded.contains(
            ((#[trigger] all[i]).from.id.node_id, all[i].msg_id),
        ) by {
            if excluded.contains((messages[0].from.id.node_id, messages[0].msg_id)) {
                assert(all[i] == rest[i]);
            } else if i > 0 {
                assert(all[i] == rest[i - 1]);
            }
        }
    }
}

/// A subscription is refused exactly where it breaks a limit that is set: the client has as
/// many as it may have, the filter is not one or has too many levels, or the filter has as many
/// subscribers as it may have and the client is not among them. Limits of zero refuse nothing.
pub proof fn subscriptions_are_refused_at_their_limits(
    sub: Subscribe,
    limits: SubscriptionLimits,
    count: usize,
    subscribers: Option<Subscribers>,
)
    ensures
        ({
            let refused = refusal(sub, limits, count, subscribers);
            let full = limits.max_subscriptions > 0 && count >= limits.max_subscriptions;
            let invalid = limits.max_topic_levels > 0 && !crate::topic::is_filter(
                sub.topic_filter@,
            );
            let deep = limits.max_topic_levels > 0 && crate::topic::levels(sub.topic_filter@).len()
                > limits.max_topic_levels;
            let crowded = sub.opts.limit_subs is Some && subscribers is Some
                && !subscribers->0.has_client && subscribers->0.count >= sub.opts.limit_subs->0;
            &&& refused is None <==> !full && !invalid && !deep && !crowded
            &&& full ==> refused == Some(SubscribeError::TooManySubscriptions)
            &&& !full && invalid ==> refused == Some(SubscribeError::InvalidTopicFilter)
            &&& !full && !invalid && deep ==> refused == Some(SubscribeError::TooManyTopicLevels)
            &&& !full && !invalid && !deep && crowded ==> refused == Some(
                SubscribeError::SubscribeLimited {
                    limit: sub.opts.limit_subs->0,
                    count: subscribers->0.count,
                },
            )
        }),
{
}

/// Lowering the quality of service of a subscription touches nothing else: it is what was asked
/// for where that is allowed, and what is allowed where more was asked for.
pub proof fn lowering_touches_the_quality_only(sub: Subscribe, qos: QoS)
    ensures
        ({
            let after = lowered(sub, qos);
            &&& after.topic_filter == sub.topic_filter
            &&& after.opts.retain_handling == sub.opts.retain_handling
            &&& after.opts.shared_group == sub.opts.shared_group
            &&& after.opts.limit_subs == sub.opts.limit_subs
            &&& after.opts.id == sub.opts.id
            &&& qos == QoS::ExactlyOnce ==> after.opts.qos == sub.opts.qos
            &&& qos == QoS::AtMostOnce ==> after.opts.qos == QoS::AtMostOnce
            &&& qos == QoS::AtLeastOnce ==> after.opts.qos == (if sub.opts.qos
                == QoS::AtMostOnce {
                QoS::AtMostOnce
            } else {
                QoS::AtLeastOnce
            })
        }),
{
}

/// A reason code grants the quality of service that it names, in the answer of either protocol
/// generation, and every other code is a refusal in both.
pub proof fn grants_are_told_in_both_generations(reply: SubscribeReturn)
    ensures
        reply.ack_reason == SubscribeAckReason::GrantedQos0 <==> reply.success() == Some(
            QoS::AtMostOnce,
        ),
        reply.ack_reason == SubscribeAckReason::GrantedQos1 <==> reply.success() == Some(
            QoS::AtLeastOnce,
        ),
        reply.ack_reason == SubscribeAckReason::GrantedQos2 <==> reply.success() == Some(
            QoS::ExactlyOnce,
        ),
        match reply.success() {
            Some(qos) => return_code_of(reply.ack_reason) == SubscribeReturnCode::Success(qos),
            None => return_code_of(reply.ack_reason) == SubscribeReturnCode::Failure,
        },
{
}

/// The answer to a SUBSCRIBE of MQTT 3 has one code for each filter, in order.
pub proof fn answers_have_a_code_for_each_filter(reasons: Seq<SubscribeAckReason>, i: int)
    requires
        0 <= i < reasons.len(),
    ensures
        return_codes(reasons).len() == reasons.len(),
        reasons[i] == SubscribeAckReason::GrantedQos0 <==> return_codes(reasons)[i]
            == SubscribeReturnCode::Success(QoS::AtMostOnce),
        reasons[i] == SubscribeAckReason::GrantedQos1 <==> return_codes(reasons)[i]
            == SubscribeReturnCode::Success(QoS::AtLeastOnce),
        reasons[i] == SubscribeAckReason::GrantedQos2 <==> return_codes(reasons)[i]
            == SubscribeReturnCode::Success(QoS::ExactlyOnce),
{
}

/// Retained messages are sent as the subscription asks: always, for new subscriptions, or
/// never; a subscription that does not say gets them.
pub proof fn retained_messages_are_sent_as_asked(is_new: bool)
    ensures
        sends_retained(None, is_new),
        sends_retained(Some(RetainHandling::AtSubscribe), is_new),
        sends_retained(Some(RetainHandling::AtSubscribeNew), is_new) == is_new,
        !sends_retained(Some(RetainHandling::NoAtSubscribe), is_new),
{
}

/// A kept message reaches a new subscriber with its content as it was, as a new message without
/// an identifier, at no more than the granted quality of service; only what is sent as a
/// retained message says that it is one.
pub proof fn kept_messages_are_sent_as_new(
    publish: Publish,
    topic: String,
    qos: QoS,
    now: i64,
    message: StoredMessage,
)
    ensures
        ({
            let copy = retained_copy(publish, topic, qos, now);
            &&& copy.retain && !copy.dup && copy.packet_id is None
            &&& copy.topic == topic
            &&& copy.payload == publish.payload
            &&& copy.properties == publish.properties
            &&& copy.create_time == Some(now)
            &&& copy.qos == (if publish.qos == QoS::AtMostOnce || qos == QoS::AtMostOnce {
                QoS::AtMostOnce
            } else if publish.qos == QoS::AtLeastOnce || qos == QoS::AtLeastOnce {
                QoS::AtLeastOnce
            } else {
                QoS::ExactlyOnce
            })
        }),
        ({
            let copy = stored_copy(message, qos);
            &&& !copy.publish.retain && !copy.publish.dup && copy.publish.packet_id is None
            &&& copy.publish.topic == message.publish.topic
            &&& copy.publish.payload == message.publish.payload
            &&& copy.publish.properties == message.publish.properties
            &&& copy.publish.create_time == message.publish.create_time
            &&& copy.msg_id == message.msg_id && copy.from == message.from
            &&& copy.publish.qos == (if message.publish.qos == QoS::AtMostOnce || qos
                == QoS::AtMostOnce {
                QoS::AtMostOnce
            } else if message.publish.qos == QoS::AtLeastOnce || qos == QoS::AtLeastOnce {
                QoS::AtLeastOnce
            } else {
                QoS::ExactlyOnce
            })
        }),
{
}

/// The retained messages that are stored too are all noted, and nothing else is.
pub proof fn stored_retained_messages_are_noted(retains: Seq<Retain>, id: (u64, u64))
    ensures
        stored_ids(retains).contains(id) <==> exists|i: int|
            0 <= i < retains.len() && (#[trigger] retains[i]).msg_id == Some(id.1)
                && retains[i].from.id.node_id == id.0,
    decreases retains.len(),
{
    if retains.len() > 0 {
        let rest = retains.drop_last();
        let last = retains.last();
        stored_retained_messages_are_noted(rest, id);
        let ids = stored_ids(retains);
        let before = stored_ids(rest);
        if before.contains(id) {
            let i = choose|i: int|
                0 <= i < rest.len() && (#[trigger] rest[i]).msg_id == Some(id.1)
                    && rest[i].from.id.node_id == id.0;
            assert(retains[i] == rest[i]);
            let k = choose|k: int| 0 <= k < before.len() && before[k] == id;
            assert(ids[k] == id);
        }
        if last.msg_id == Some(id.1) && last.from.id.node_id == id.0 {
            assert(ids[before.len() as int] == id);
            assert(retains[retains.len() - 1] == last);
        }
        if ids.contains(id) && !before.contains(id) {
            let k = choose|k: int| 0 <= k < ids.len() && ids[k] == id;
            if k < before.len() {
                assert(before[k] == id);
            }
            assert(retains[retains.len() - 1] == last);
        }
        if exists|i: int|
            0 <= i < retains.len() && (#[trigger] retains[i]).msg_id == Some(id.1)
                && retains[i].from.id.node_id == id.0 {
            let i = choose|i: int|
                0 <= i < retains.len() && (#[trigger] retains[i]).msg_id == Some(id.1)
                    && retains[i].from.id.node_id == id.0;
            if i < rest.len() {
                assert(rest[i] == retains[i]);
            }
        }
    }
}

/// Every stored message that was not sent as a retained message is sent, in order: none is
/// lost, and where none is excluded there is a copy of each at its place.
pub proof fn stored_messages_are_all_sent(
    messages: Seq<StoredMessage>,
    qos: QoS,
    excluded: Seq<(u64, u64)>,
    i: int,
)
    requires
        0 <= i < messages.len(),
        !excluded.contains((messages[i].from.id.node_id, messages[i].msg_id)),
    ensures
        stored_copies(messages, qos, excluded).contains(stored_copy(messages[i], qos)),
        excluded.len() == 0 ==> stored_copies(messages, qos, excluded).len() == messages.len()
            && stored_copies(messages, qos, excluded)[i] == stored_copy(messages[i], qos),
        stored_copies(messages, qos, excluded).len() <= messages.len(),
    decreases messages.len(),
{
    let rest = messages.drop_first();
    let all = stored_copies(messages, qos, excluded);
    let tail = stored_copies(rest, qos, excluded);
    lemma_copies_are_no_more(rest, qos, excluded);
    if i == 0 {
        assert(all[0] == stored_copy(messages[0], qos));
    } else {
        assert(rest[i - 1] == messages[i]);
        stored_messages_are_all_sent(rest, qos, excluded, i - 1);
        let k = choose|k: int| 0 <= k < tail.len() && tail[k] == stored_copy(messages[i], qos);
        if excluded.contains((messages[0].from.id.node_id, messages[0].msg_id)) {
            assert(all[k] == tail[k]);
        } else {
            assert(all[k + 1] == tail[k]);
            if excluded.len() == 0 {
                assert(all[i] == tail[i - 1]);
            }
        }
    }
}

proof fn lemma_copies_are_no_more(
    messages: Seq<StoredMessage>,
    qos: QoS,
    excluded: Seq<(u64, u64)>,
)
    ensures
        stored_copies(messages, qos, excluded).len() <= messages.len(),
        excluded.len() == 0 ==> stored_copies(messages, qos, excluded).len() == messages.len(),
    decreases messages.len(),
{
    if messages.len() > 0 {
        lemma_copies_are_no_more(messages.drop_first(), qos, excluded);
    }
}

/// Stored messages are sent in the order in which they were stored: what is sent of one batch
/// and then of another is what is sent of both together.
pub proof fn stored_messages_keep_their_order(
    a: Seq<StoredMessage>,
    b: Seq<StoredMessage>,
    qos: QoS,
    excluded: Seq<(u64, u64)>,
)
    ensures
        stored_copies(a + b, qos, excluded) == stored_copies(a, qos, excluded) + stored_copies(
            b,
            qos,
            excluded,
        ),
    decreases a.len(),
{
    if a.len() == 0 {
        assert(a + b =~= b);
        assert(stored_copies(a, qos, excluded) + stored_copies(b, qos, excluded)
            =~= stored_copies(b, qos, excluded));
    } else {
        assert((a + b).drop_first() =~= a.drop_first() + b);
        assert((a + b)[0] == a[0]);
        stored_messages_keep_their_order(a.drop_first(), b, qos, excluded);
        assert(stored_copies(a + b, qos, excluded) =~= stored_copies(a, qos, excluded)
            + stored_copies(b, qos, excluded));
    }
}

} // verus!
