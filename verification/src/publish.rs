//! Rules for publishing a message.
//!
//! Publishing alternates between these rules and services of the broker. Each
//! rule says which service comes next; its answer goes to the matching `on_`
//! function.

use vstd::prelude::*;

use crate::packet::{Publish, PublishAckReason};
use crate::reason::{PublishResult, Reason};
use crate::session::SessionState;

verus! {

/// What publishing a message of a client needs next.
#[allow(inconsistent_fields)]
#[derive(Debug)]
pub enum Publication {
    /// Look the topic up in the alias table; report to [`on_alias_resolved`].
    ResolveAlias(Publish),
    /// Read a delay off the topic; report to [`on_delay_parsed`].
    ParseDelay(Publish),
    /// Show the message to the hooks; report to [`on_shown`].
    Show(Publish),
    /// Ask the access rules; report to [`on_access_checked`].
    CheckAccess(Publish),
    /// Forward the message, with its lifetime where `with_expiry`; report to
    /// [`on_forwarded`].
    Forward { publish: Publish, with_expiry: bool },
    /// Report the message dropped, denied with the reason code; publishing is over.
    Refuse { publish: Publish, code: PublishAckReason, result: Result<PublishResult, Reason> },
    /// Publishing is over.
    Over(Result<PublishResult, Reason>),
}

/// Whether the message uses a topic alias.
pub open spec fn uses_alias(publish: Publish) -> bool {
    match publish.properties {
        Some(properties) => properties.topic_alias is Some,
        None => false,
    }
}

/// What comes once the topic of the message is known.
pub open spec fn topic_known(publish: Publish, delayed_publish: bool) -> Publication {
    if delayed_publish {
        Publication::ParseDelay(publish)
    } else {
        Publication::Show(publish)
    }
}

fn go_on_with_topic(publish: Publish, delayed_publish: bool) -> (next: Publication)
    ensures
        next == topic_known(publish, delayed_publish),
{
    if delayed_publish {
        Publication::ParseDelay(publish)
    } else {
        Publication::Show(publish)
    }
}

/// How publishing a message of a client begins, where aliases are forbidden or the client has
/// `client_topic_alias_max` of them.
///
/// Multistream connections cannot use topic aliases, since packets of different flows have
/// no common order in which aliases could be defined.
pub open spec fn publication_begun(
    topic_alias_forbidden: bool,
    client_topic_alias_max: u16,
    publish: Publish,
    delayed_publish: bool,
) -> Publication {
    if topic_alias_forbidden && uses_alias(publish) {
        Publication::Over(Err(Reason::TopicAliasForbidden))
    } else if client_topic_alias_max > 0 {
        Publication::ResolveAlias(publish)
    } else {
        topic_known(publish, delayed_publish)
    }
}

/// Begins to publish a message of a client; `delayed_publish` says that the listener lets
/// clients delay messages.
pub fn begin_publication(state: &SessionState, publish: Publish, delayed_publish: bool) -> (next:
    Publication)
    ensures
        next == publication_begun(
            state.topic_alias_forbidden,
            state.client_topic_alias_max,
            publish,
            delayed_publish,
        ),
{
    if state.topic_alias_forbidden {
        if let Some(properties) = &publish.properties {
            if properties.topic_alias.is_some() {
                return Publication::Over(Err(Reason::TopicAliasForbidden));
            }
        }
    }
    if state.uses_client_topic_aliases() {
        Publication::ResolveAlias(publish)
    } else {
        go_on_with_topic(publish, delayed_publish)
    }
}

/// Goes on once the alias table has, or has not, given the topic.
pub fn on_alias_resolved(
    publish: Publish,
    topic: Result<String, String>,
    delayed_publish: bool,
) -> (next: Publication)
    ensures
        next == (match topic {
            Ok(topic) => topic_known(Publish { topic, ..publish }, delayed_publish),
            Err(error) => Publication::Over(Err(Reason::Service(error))),
        }),
{
    match topic {
        Ok(topic) => {
            let mut publish = publish;
            publish.topic = topic;
            go_on_with_topic(publish, delayed_publish)
        },
        Err(error) => Publication::Over(Err(Reason::Service(error))),
    }
}

/// Goes on once a delay has, or has not, been read off the topic.
pub fn on_delay_parsed(parsed: Result<Publish, String>) -> (next: Publication)
    ensures
        next == (match parsed {
            Ok(publish) => Publication::Show(publish),
            Err(error) => Publication::Over(Err(Reason::Service(error))),
        }),
{
    match parsed {
        Ok(publish) => Publication::Show(publish),
        Err(error) => Publication::Over(Err(Reason::Service(error))),
    }
}

/// Goes on once the hooks have seen the message, and may have replaced it.
pub fn on_shown(publish: Publish, replaced: Option<Publish>) -> (next: Publication)
    ensures
        next == Publication::CheckAccess(
            match replaced {
                Some(replaced) => replaced,
                None => publish,
            },
        ),
{
    match replaced {
        Some(replaced) => Publication::CheckAccess(replaced),
        None => Publication::CheckAccess(publish),
    }
}

/// Whether `result` says what became of a message: a refusal that ends the connection is
/// an error with the refusal's code and explanation, everything else is the answer.
pub open spec fn concludes(published: PublishResult, result: Result<PublishResult, Reason>) -> bool {
    if !published.is_success() && published.disconnect {
        result matches Err(Reason::PublishRefused(code, text)) && code == published.reason_code
            && text@ == (match published.reason_string {
            Some(reason) => reason@,
            None => Seq::empty(),
        })
    } else {
        result == Ok::<PublishResult, Reason>(published)
    }
}

/// Returns what a published message means for its client.
pub fn conclude(published: PublishResult) -> (result: Result<PublishResult, Reason>)
    ensures
        concludes(published, result),
{
    if published.is_success() {
        return Ok(published);
    }
    if published.disconnect {
        let text = match published.reason_string {
            Some(reason) => reason,
            None => String::new(),
        };
        Err(Reason::PublishRefused(published.reason_code, text))
    } else {
        Ok(published)
    }
}

/// Whether a lifetime is fixed for a message: it is stored, or kept as a retained message.
pub open spec fn has_lifetime(stored: bool, retained: bool, retain_available: bool) -> bool {
    stored || (retained && retain_available)
}

/// Returns whether a lifetime is fixed for a message.
pub fn needs_lifetime(publish: &Publish, storage_available: bool, retain_available: bool) -> (yes:
    bool)
    ensures
        yes == has_lifetime(storage_available, publish.retain, retain_available),
{
    storage_available || (publish.retain && retain_available)
}

/// Goes on once the access rules have been asked; `denied` is their refusal, if any.
pub fn on_access_checked(
    publish: Publish,
    denied: Option<PublishResult>,
    storage_available: bool,
    retain_available: bool,
) -> (next: Publication)
    ensures
        match denied {
            None => next == (Publication::Forward {
                publish,
                with_expiry: has_lifetime(storage_available, publish.retain, retain_available),
            }),
            Some(denied) => next matches Publication::Refuse { publish: dropped, code, result }
                && dropped == publish && code == denied.reason_code && (if denied.disconnect {
                result matches Err(Reason::PublishRefused(refused, text)) && refused
                    == denied.reason_code && text@ == (match denied.reason_string {
                    Some(reason) => reason@,
                    None => Seq::empty(),
                })
            } else {
                result == Ok::<PublishResult, Reason>(denied)
            }),
        },
{
    match denied {
        None => {
            let with_expiry: bool = needs_lifetime(&publish, storage_available, retain_available);
            Publication::Forward { publish, with_expiry }
        },
        Some(denied) => {
            let code = denied.reason_code;
            let result = if denied.disconnect {
                let text = match denied.reason_string {
                    Some(reason) => reason,
                    None => String::new(),
                };
                Err(Reason::PublishRefused(code, text))
            } else {
                Ok(denied)
            };
            Publication::Refuse { publish, code, result }
        },
    }
}

/// Goes on once the message has, or has not, been forwarded.
pub fn on_forwarded(forwarded: Result<(), String>) -> (next: Publication)
    ensures
        match forwarded {
            Ok(()) => next matches Publication::Over(Ok(result)) && result.is_success()
                && result.properties@.len() == 0 && result.reason_string is None
                && !result.disconnect,
            Err(error) => next == Publication::Over(Err(Reason::Service(error))),
        },
{
    match forwarded {
        Ok(()) => Publication::Over(Ok(PublishResult::success())),
        Err(error) => Publication::Over(Err(Reason::Service(error))),
    }
}

/// How a message is forwarded.
#[derive(Debug)]
pub enum Forwarding {
    /// Hand it to the delay queue; report to [`on_delayed`].
    Delay(Publish),
    /// Forward it now.
    Now(Publish),
    /// Report it dropped: it can neither be delayed nor forwarded.
    Drop(Publish),
    /// The delay queue has it.
    Kept,
}

/// Begins to forward a message: one with a delay is delayed.
pub fn begin_forwarding(publish: Publish) -> (next: Forwarding)
    ensures
        next == (if publish.delay_interval is Some {
            Forwarding::Delay(publish)
        } else {
            Forwarding::Now(publish)
        }),
{
    if publish.delay_interval.is_some() {
        Forwarding::Delay(publish)
    } else {
        Forwarding::Now(publish)
    }
}

/// Goes on once the delay queue has taken the message, or has given it back; `immediate`
/// says that the broker forwards at once what it cannot delay.
pub fn on_delayed(given_back: Option<Publish>, immediate: bool) -> (next: Forwarding)
    ensures
        next == (match given_back {
            None => Forwarding::Kept,
            Some(publish) => if immediate {
                Forwarding::Now(publish)
            } else {
                Forwarding::Drop(publish)
            },
        }),
{
    match given_back {
        None => Forwarding::Kept,
        Some(publish) => if immediate {
            Forwarding::Now(publish)
        } else {
            Forwarding::Drop(publish)
        },
    }
}

/// What is done with a message besides handing it to its subscribers. The parts are done in
/// the order of the fields, and before the message is handed out, so that the store knows
/// the message when its receivers are noted.
#[derive(Clone, Copy, Debug, PartialEq, Eq, Structural)]
pub struct ForwardPlan {
    /// Draw an identifier for the message store.
    pub draw_id: bool,
    /// Keep it as the retained message of its topic.
    pub set_retained: bool,
    /// Store it.
    pub store: bool,
}

/// What is done with a message besides handing it to its subscribers.
pub open spec fn forward_parts(
    retained: bool,
    storage_available: bool,
    retain_available: bool,
    has_expiry: bool,
) -> ForwardPlan {
    ForwardPlan {
        draw_id: storage_available,
        set_retained: retain_available && retained,
        store: storage_available && has_expiry,
    }
}

/// Returns what is done with a message besides handing it to its subscribers; `has_expiry`
/// says that a lifetime has been fixed for it.
pub fn forward_plan(
    publish: &Publish,
    storage_available: bool,
    retain_available: bool,
    has_expiry: bool,
) -> (plan: ForwardPlan)
    ensures
        plan == forward_parts(publish.retain, storage_available, retain_available, has_expiry),
{
    ForwardPlan {
        draw_id: storage_available,
        set_retained: retain_available && publish.retain,
        store: storage_available && has_expiry,
    }
}

/// What is reported after a message has been handed to its subscribers.
#[derive(Debug)]
pub enum ForwardReport<D> {
    /// Nothing.
    Nothing,
    /// Nobody has subscribed to its topic.
    Unsubscribed,
    /// These copies were dropped.
    Dropped(Vec<D>),
}

/// Returns what is reported after a message has been handed to its subscribers: the number
/// of subscribers that got it, or the copies that were dropped.
pub fn forward_report<D>(handed: Result<usize, Vec<D>>) -> (report: ForwardReport<D>)
    ensures
        report == (match handed {
            Ok(0) => ForwardReport::Unsubscribed,
            Ok(_) => ForwardReport::Nothing,
            Err(dropped) => ForwardReport::Dropped(dropped),
        }),
{
    match handed {
        Ok(count) => if count == 0 {
            ForwardReport::Unsubscribed
        } else {
            ForwardReport::Nothing
        },
        Err(dropped) => ForwardReport::Dropped(dropped),
    }
}

/// A multistream session neither resolves an alias nor publishes a message that uses one: with
/// the limits that the handshake sets for it, such a message ends the session.
pub proof fn multistream_sessions_use_no_aliases(
    max_client_topic_aliases: u16,
    max_server_topic_aliases: u16,
    publish: Publish,
    delayed_publish: bool,
)
    ensures
        ({
            let limits = crate::v5::alias_limits(
                true,
                max_client_topic_aliases,
                max_server_topic_aliases,
            );
            let next = publication_begun(true, limits.0, publish, delayed_publish);
            &&& next !is ResolveAlias
            &&& uses_alias(publish) ==> next == Publication::Over(Err(Reason::TopicAliasForbidden))
            &&& !uses_alias(publish) ==> next == topic_known(publish, delayed_publish)
            &&& limits.1 == 0
        }),
{
}

/// Every message for which an identifier is drawn is stored, and a retained message is kept
/// with a lifetime: a lifetime is fixed whenever one of the two needs it.
pub proof fn stored_messages_have_a_lifetime(
    retained: bool,
    storage_available: bool,
    retain_available: bool,
)
    ensures
        ({
            let has_expiry = has_lifetime(storage_available, retained, retain_available);
            let plan = forward_parts(retained, storage_available, retain_available, has_expiry);
            &&& plan.draw_id == plan.store
            &&& plan.set_retained ==> has_expiry
        }),
{
}

/// A topic alias is resolved for every client that may use aliases, ends the publication where
/// aliases are forbidden, and is otherwise left alone; a delay is looked for exactly where the
/// listener lets clients delay messages. The message itself stays as it came.
pub proof fn publications_begin_with_their_topic(
    forbidden: bool,
    max: u16,
    publish: Publish,
    properties: crate::packet::PublishProperties,
    delayed: bool,
)
    requires
        publish.properties == Some(properties),
    ensures
        forbidden && properties.topic_alias is Some ==> publication_begun(
            forbidden,
            max,
            publish,
            delayed,
        ) == Publication::Over(Err(Reason::TopicAliasForbidden)),
        !(forbidden && properties.topic_alias is Some) && max > 0 ==> publication_begun(
            forbidden,
            max,
            publish,
            delayed,
        ) == Publication::ResolveAlias(publish),
        !(forbidden && properties.topic_alias is Some) && max == 0 && delayed
            ==> publication_begun(forbidden, max, publish, delayed) == Publication::ParseDelay(
            publish,
        ),
        !(forbidden && properties.topic_alias is Some) && max == 0 && !delayed
            ==> publication_begun(forbidden, max, publish, delayed) == Publication::Show(publish),
        topic_known(publish, true) == Publication::ParseDelay(publish),
        topic_known(publish, false) == Publication::Show(publish),
{
}

/// A message without properties uses no alias.
pub proof fn bare_messages_use_no_alias(publish: Publish, forbidden: bool, delayed: bool)
    requires
        publish.properties is None,
    ensures
        publication_begun(forbidden, 0, publish, delayed) == (if delayed {
            Publication::ParseDelay(publish)
        } else {
            Publication::Show(publish)
        }),
{
}

/// What became of a message is the client's answer, except a refusal that ends the connection:
/// that one is an error, and success never is.
pub proof fn refusals_end_the_connection_where_they_say_so(
    published: PublishResult,
    result: Result<PublishResult, Reason>,
)
    requires
        concludes(published, result),
    ensures
        published.reason_code == PublishAckReason::Success ==> result == Ok::<
            PublishResult,
            Reason,
        >(published),
        !published.disconnect ==> result == Ok::<PublishResult, Reason>(published),
        published.reason_code != PublishAckReason::Success && published.disconnect ==> (
        result matches Err(Reason::PublishRefused(code, text)) && code == published.reason_code
            && (published.reason_string matches Some(reason) ==> text@ == reason@) && (
        published.reason_string is None ==> text@.len() == 0)),
{
}

/// A message is kept as a retained message exactly where it says so and the broker keeps such
/// messages, and stored exactly where there is a store and a lifetime; every message that is
/// stored, and every one that is retained, is given a lifetime, and no other is.
pub proof fn messages_are_kept_as_they_ask(retained: bool, stores: bool, retains: bool)
    ensures
        ({
            let lifetime = has_lifetime(stores, retained, retains);
            let plan = forward_parts(retained, stores, retains, lifetime);
            &&& lifetime <==> stores || (retained && retains)
            &&& plan.set_retained <==> retained && retains
            &&& plan.store <==> stores
            &&& plan.draw_id <==> stores
            &&& !forward_parts(retained, stores, retains, false).store
        }),
{
}

} // verus!
