//! Sessions as the broker keeps them.

use vstd::prelude::*;

use crate::assoc::Table;
use crate::identity::Id;
use crate::nonzero::NonZeroU16;
use crate::packet::{Disconnect, DisconnectV5};
use crate::reason::Reason;
use crate::subscribe::SubscriptionOptions;
use crate::time::Duration;

verus! {

/// Whether two DISCONNECT packets say the same.
pub open spec fn same_disconnect(a: Disconnect, b: Disconnect) -> bool {
    match (a, b) {
        (Disconnect::V3, Disconnect::V3) => true,
        (Disconnect::V5(a), Disconnect::V5(b)) => {
            &&& a.reason_code == b.reason_code
            &&& a.session_expiry_interval_secs == b.session_expiry_interval_secs
            &&& a.server_reference == b.server_reference
            &&& a.reason_string == b.reason_string
            &&& a.user_properties@ == b.user_properties@
        },
        _ => false,
    }
}

fn copy_text(text: &Option<String>) -> (copy: Option<String>)
    ensures
        copy == *text,
{
    match text {
        Some(text) => Some(text.clone()),
        None => None,
    }
}

fn copy_disconnect(disconnect: &Disconnect) -> (copy: Disconnect)
    ensures
        same_disconnect(copy, *disconnect),
{
    match disconnect {
        Disconnect::V3 => Disconnect::V3,
        Disconnect::V5(given) => {
            let mut user_properties: Vec<(String, String)> = Vec::new();
            let mut i: usize = 0;
            while i < given.user_properties.len()
                invariant
                    i <= given.user_properties.len(),
                    user_properties@ == given.user_properties@.take(i as int),
                decreases given.user_properties.len() - i,
            {
                let pair = &given.user_properties[i];
                user_properties.push((pair.0.clone(), pair.1.clone()));
                i = i + 1;
                assert(user_properties@ =~= given.user_properties@.take(i as int));
            }
            assert(user_properties@ =~= given.user_properties@);
            Disconnect::V5(
                DisconnectV5 {
                    reason_code: given.reason_code,
                    session_expiry_interval_secs: given.session_expiry_interval_secs,
                    server_reference: copy_text(&given.server_reference),
                    reason_string: copy_text(&given.reason_string),
                    user_properties,
                },
            )
        },
    }
}

/// How and when the connection of a session ended.
#[derive(Debug)]
pub struct DisconnectInfo {
    /// Milliseconds at which the connection ended, 0 while it lasts.
    pub disconnected_at: i64,
    /// Why it ended.
    pub reasons: Vec<Reason>,
    /// DISCONNECT of the client.
    pub mqtt_disconnect: Option<Disconnect>,
}

impl Default for DisconnectInfo {
    fn default() -> (info: Self)
        ensures
            info.disconnected_at == 0,
            info.reasons@.len() == 0,
            info.mqtt_disconnect is None,
    {
        DisconnectInfo { disconnected_at: 0, reasons: Vec::new(), mqtt_disconnect: None }
    }
}

impl DisconnectInfo {
    /// Whether the connection has ended.
    pub open spec fn spec_is_disconnected(&self) -> bool {
        self.disconnected_at != 0
    }

    /// Returns whether the connection has ended.
    #[verifier::when_used_as_spec(spec_is_disconnected)]
    pub fn is_disconnected(&self) -> (ended: bool)
        ensures
            ended == self.is_disconnected(),
    {
        self.disconnected_at != 0
    }
}

/// Facts about a session that do not change while it lasts.
#[derive(Clone, Copy, Debug, PartialEq, Eq, Structural)]
pub struct SessionStateFlags {
    /// The session resumed an earlier one.
    pub session_present: bool,
    /// The client is exempt from access rules.
    pub superuser: bool,
    /// The session was created for a connection.
    pub connected: bool,
}

/// Core session behavior: subscriptions, connection metadata and the record of how the
/// connection ended.
pub trait SessionLike {
    /// Returns the identity of the session.
    fn id(&self) -> &Id;

    /// Returns the milliseconds at which the session was created.
    fn created_at(&self) -> i64;

    /// Returns whether the session resumed an earlier one.
    fn session_present(&self) -> bool;

    /// Returns whether the client is exempt from access rules.
    fn superuser(&self) -> bool;

    /// Returns whether the session has a connection.
    fn connected(&self) -> bool;

    /// Returns the milliseconds at which the connection was made.
    fn connected_at(&self) -> i64;

    /// Returns the milliseconds at which the connection ended.
    fn disconnected_at(&self) -> i64;

    /// Returns why the connection ended.
    fn disconnected_reasons(&self) -> &Vec<Reason>;

    /// Returns whether a reason was recorded.
    fn disconnected_reason_has(&self) -> bool;

    /// Records a reason.
    fn disconnected_reason_add(&mut self, reason: Reason);

    /// Hands out the reasons that were recorded.
    fn disconnected_reason_take(&mut self) -> Vec<Reason>;

    /// Returns the DISCONNECT of the client.
    fn disconnect(&self) -> Option<&Disconnect>;

    /// Records that the connection ended at `now`, with the DISCONNECT of the client and
    /// another reason where there are any.
    fn disconnected_set(
        &mut self,
        disconnect: Option<Disconnect>,
        reason: Option<Reason>,
        now: i64,
    );
}

/// Default implementation of [`SessionLike`].
#[derive(Debug)]
pub struct DefaultSession {
    /// Identity of the session.
    pub id: Id,
    /// Subscriptions by their filters.
    pub subscriptions: Table<String, SubscriptionOptions>,
    /// Milliseconds at which the session was created.
    pub created_at: i64,
    /// Facts about the session.
    pub state_flags: SessionStateFlags,
    /// Milliseconds at which the connection was made.
    pub connected_at: i64,
    /// How and when the connection ended.
    pub disconnect_info: DisconnectInfo,
}

impl DefaultSession {
    /// Whether the parts of the session are well formed.
    pub open spec fn wf(&self) -> bool {
        self.subscriptions.wf()
    }

    /// Whether this session has the identity and the facts of `other`.
    pub open spec fn same_facts(&self, other: &DefaultSession) -> bool {
        &&& self.id == other.id
        &&& self.created_at == other.created_at
        &&& self.state_flags == other.state_flags
        &&& self.connected_at == other.connected_at
    }

    /// Creates a session.
    pub fn new(
        id: Id,
        subscriptions: Table<String, SubscriptionOptions>,
        created_at: i64,
        connected_at: i64,
        session_present: bool,
        superuser: bool,
        connected: bool,
        disconnect_info: Option<DisconnectInfo>,
    ) -> (session: DefaultSession)
        requires
            subscriptions.wf(),
        ensures
            session.wf(),
            session.id == id,
            session.subscriptions == subscriptions,
            session.created_at == created_at,
            session.connected_at == connected_at,
            session.state_flags == (SessionStateFlags { session_present, superuser, connected }),
            match disconnect_info {
                Some(info) => session.disconnect_info == info,
                None => session.disconnect_info.disconnected_at == 0
                    && session.disconnect_info.reasons@.len() == 0
                    && session.disconnect_info.mqtt_disconnect is None,
            },
    {
        let disconnect_info = match disconnect_info {
            Some(info) => info,
            None => DisconnectInfo::default(),
        };
        DefaultSession {
            id,
            subscriptions,
            created_at,
            state_flags: SessionStateFlags { session_present, superuser, connected },
            connected_at,
            disconnect_info,
        }
    }

    /// Enters a subscription and returns the options of the one that it replaces.
    pub fn subscriptions_add(&mut self, topic_filter: String, opts: SubscriptionOptions) -> (previous:
        Option<SubscriptionOptions>)
        requires
            old(self).wf(),
        ensures
            final(self).wf(),
            final(self).subscriptions@ == old(self).subscriptions@.insert(topic_filter@, opts),
            previous == (if old(self).subscriptions@.contains_key(topic_filter@) {
                Some(old(self).subscriptions@[topic_filter@])
            } else {
                None
            }),
            final(self).disconnect_info == old(self).disconnect_info,
            final(self).same_facts(old(self)),
    {
        self.subscriptions.insert(topic_filter, opts)
    }

    /// Removes a subscription and returns it.
    pub fn subscriptions_remove(&mut self, topic_filter: &String) -> (removed: Option<
        (String, SubscriptionOptions),
    >)
        requires
            old(self).wf(),
        ensures
            final(self).wf(),
            final(self).subscriptions@ == old(self).subscriptions@.remove(topic_filter@),
            match removed {
                Some((text, opts)) => text@ == topic_filter@
                    && old(self).subscriptions@.contains_key(topic_filter@) && opts
                    == old(self).subscriptions@[topic_filter@],
                None => !old(self).subscriptions@.contains_key(topic_filter@),
            },
            final(self).disconnect_info == old(self).disconnect_info,
            final(self).same_facts(old(self)),
    {
        self.subscriptions.remove(topic_filter)
    }

    /// Removes all subscriptions and returns them.
    pub fn subscriptions_drain(&mut self) -> (removed: Vec<(String, SubscriptionOptions)>)
        requires
            old(self).wf(),
        ensures
            final(self).wf(),
            final(self).subscriptions@ == Map::<Seq<char>, SubscriptionOptions>::empty(),
            crate::assoc::lists(removed@, old(self).subscriptions@),
            final(self).disconnect_info == old(self).disconnect_info,
            final(self).same_facts(old(self)),
    {
        self.subscriptions.drain()
    }

    /// Enters subscriptions, in order.
    pub fn subscriptions_extend(&mut self, other: Vec<(String, SubscriptionOptions)>)
        requires
            old(self).wf(),
        ensures
            final(self).wf(),
            final(self).subscriptions@ == crate::assoc::inserted_all(
                old(self).subscriptions@,
                other@,
            ),
            final(self).disconnect_info == old(self).disconnect_info,
            final(self).same_facts(old(self)),
    {
        self.subscriptions.extend(other);
    }
}

impl SessionLike for DefaultSession {
    fn id(&self) -> (id: &Id)
        ensures
            *id == self.id,
    {
        &self.id
    }

    fn created_at(&self) -> (at: i64)
        ensures
            at == self.created_at,
    {
        self.created_at
    }

    fn session_present(&self) -> (present: bool)
        ensures
            present == self.state_flags.session_present,
    {
        self.state_flags.session_present
    }

    fn superuser(&self) -> (superuser: bool)
        ensures
            superuser == self.state_flags.superuser,
    {
        self.state_flags.superuser
    }

    fn connected(&self) -> (connected: bool)
        ensures
            connected == (self.state_flags.connected && !self.disconnect_info.is_disconnected()),
    {
        self.state_flags.connected && !self.disconnect_info.is_disconnected()
    }

    fn connected_at(&self) -> (at: i64)
        ensures
            at == self.connected_at,
    {
        self.connected_at
    }

    fn disconnected_at(&self) -> (at: i64)
        ensures
            at == self.disconnect_info.disconnected_at,
    {
        self.disconnect_info.disconnected_at
    }

    fn disconnected_reasons(&self) -> (reasons: &Vec<Reason>)
        ensures
            *reasons == self.disconnect_info.reasons,
    {
        &self.disconnect_info.reasons
    }

    fn disconnected_reason_has(&self) -> (has: bool)
        ensures
            has == (self.disconnect_info.reasons@.len() > 0),
    {
        self.disconnect_info.reasons.len() > 0
    }

    fn disconnected_reason_add(&mut self, reason: Reason)
        ensures
            final(self).disconnect_info.reasons@ == old(self).disconnect_info.reasons@.push(reason),
            final(self).disconnect_info.disconnected_at == old(
                self,
            ).disconnect_info.disconnected_at,
            final(self).disconnect_info.mqtt_disconnect == old(
                self,
            ).disconnect_info.mqtt_disconnect,
            final(self).subscriptions == old(self).subscriptions,
            final(self).same_facts(old(self)),
    {
        self.disconnect_info.reasons.push(reason);
    }

    fn disconnected_reason_take(&mut self) -> (reasons: Vec<Reason>)
        ensures
            reasons == old(self).disconnect_info.reasons,
            final(self).disconnect_info.reasons@.len() == 0,
            final(self).disconnect_info.disconnected_at == old(
                self,
            ).disconnect_info.disconnected_at,
            final(self).disconnect_info.mqtt_disconnect == old(
                self,
            ).disconnect_info.mqtt_disconnect,
            final(self).subscriptions == old(self).subscriptions,
            final(self).same_facts(old(self)),
    {
        let mut reasons: Vec<Reason> = Vec::new();
        std::mem::swap(&mut reasons, &mut self.disconnect_info.reasons);
        reasons
    }

    fn disconnect(&self) -> (disconnect: Option<&Disconnect>)
        ensures
            match disconnect {
                Some(disconnect) => self.disconnect_info.mqtt_disconnect == Some(*disconnect),
                None => self.disconnect_info.mqtt_disconnect is None,
            },
    {
        match &self.disconnect_info.mqtt_disconnect {
            Some(disconnect) => Some(disconnect),
            None => None,
        }
    }

    fn disconnected_set(&mut self, disconnect: Option<Disconnect>, reason: Option<Reason>, now: i64)
        ensures
            final(self).subscriptions == old(self).subscriptions,
            final(self).same_facts(old(self)),
            final(self).disconnect_info.disconnected_at == (if old(
                self,
            ).disconnect_info.is_disconnected() {
                old(self).disconnect_info.disconnected_at
            } else {
                now
            }),
            final(self).disconnect_info.mqtt_disconnect == (match disconnect {
                Some(disconnect) => Some(disconnect),
                None => old(self).disconnect_info.mqtt_disconnect,
            }),
            recorded(
                old(self).disconnect_info.reasons@,
                disconnect,
                reason,
                final(self).disconnect_info.reasons@,
            ),
    {
        if !self.disconnect_info.is_disconnected() {
            self.disconnect_info.disconnected_at = now;
        }
        if let Some(disconnect) = disconnect {
            let copy = copy_disconnect(&disconnect);
            self.disconnect_info.reasons.push(Reason::ConnectDisconnect(copy));
            self.disconnect_info.mqtt_disconnect = Some(disconnect);
        }
        if let Some(reason) = reason {
            self.disconnect_info.reasons.push(reason);
        }
        assert(self.disconnect_info.reasons@.take(
            old(self).disconnect_info.reasons@.len() as int,
        ) =~= old(self).disconnect_info.reasons@);
    }
}

/// Whether `after` is `before` with first the DISCONNECT and then the other reason added,
/// where there are any.
pub open spec fn recorded(
    before: Seq<Reason>,
    disconnect: Option<Disconnect>,
    reason: Option<Reason>,
    after: Seq<Reason>,
) -> bool {
    let n = before.len() as int;
    let m = if disconnect is Some {
        n + 1
    } else {
        n
    };
    &&& after.len() == m + (if reason is Some {
        1int
    } else {
        0int
    })
    &&& after.take(n) == before
    &&& disconnect matches Some(disconnect) ==> (after[n] matches Reason::ConnectDisconnect(copy)
        && same_disconnect(copy, disconnect))
    &&& reason matches Some(reason) ==> after[m] == reason
}

/// Creates the sessions of a broker.
pub trait SessionManager {
    /// Kind of session that is created.
    type Session: SessionLike;

    /// Creates a session.
    fn create(
        &self,
        id: Id,
        subscriptions: Table<String, SubscriptionOptions>,
        created_at: i64,
        connected_at: i64,
        session_present: bool,
        superuser: bool,
        connected: bool,
        disconnect_info: Option<DisconnectInfo>,
    ) -> Result<Self::Session, String>
        requires
            subscriptions.wf(),
    ;
}

/// Default implementation of [`SessionManager`]: sessions are kept in memory.
pub struct DefaultSessionManager;

impl SessionManager for DefaultSessionManager {
    type Session = DefaultSession;

    fn create(
        &self,
        id: Id,
        subscriptions: Table<String, SubscriptionOptions>,
        created_at: i64,
        connected_at: i64,
        session_present: bool,
        superuser: bool,
        connected: bool,
        disconnect_info: Option<DisconnectInfo>,
    ) -> (created: Result<DefaultSession, String>)
        ensures
            created matches Ok(session) && session.wf() && session.id == id
                && session.subscriptions == subscriptions && session.created_at == created_at
                && session.connected_at == connected_at && session.state_flags == (
            SessionStateFlags { session_present, superuser, connected }) && (disconnect_info is Some
                ==> session.disconnect_info == disconnect_info->Some_0) && (disconnect_info is None
                ==> !session.disconnect_info.is_disconnected()
                && session.disconnect_info.reasons@.len() == 0
                && session.disconnect_info.mqtt_disconnect is None),
    {
        Ok(
            DefaultSession::new(
                id,
                subscriptions,
                created_at,
                connected_at,
                session_present,
                superuser,
                connected,
                disconnect_info,
            ),
        )
    }
}

/// Sizes and spans with which the windows of a new session are set up.
#[derive(Clone, Copy, Debug, PartialEq, Eq, Structural)]
pub struct WindowSettings {
    /// Messages that the send window holds.
    pub max_inflight: u16,
    /// Milliseconds after which an unacknowledged message is sent again.
    pub message_retry_interval: i64,
    /// Milliseconds after which an unacknowledged message is given up.
    pub message_expiry_interval: i64,
}

/// Whole milliseconds of a span, cut to the width of a timestamp.
pub open spec fn millis_of(span: Duration) -> i64 {
    (span.nanos / 1_000_000) as i64
}

fn to_millis(span: Duration) -> (millis: i64)
    ensures
        millis == millis_of(span),
{
    span.as_millis() as i64
}

/// Returns with what the windows of a new session are set up.
pub fn window_settings(
    max_inflight: NonZeroU16,
    message_retry_interval: Duration,
    message_expiry_interval: Duration,
) -> (settings: WindowSettings)
    ensures
        settings == (WindowSettings {
            max_inflight: max_inflight.get(),
            message_retry_interval: millis_of(message_retry_interval),
            message_expiry_interval: millis_of(message_expiry_interval),
        }),
{
    WindowSettings {
        max_inflight: max_inflight.get(),
        message_retry_interval: to_millis(message_retry_interval),
        message_expiry_interval: to_millis(message_expiry_interval),
    }
}

/// DISCONNECT packets that say the same are of one protocol generation, and agree in every
/// field; every packet says the same as itself.
pub proof fn same_disconnects_agree_in_every_field(
    a: DisconnectV5,
    b: DisconnectV5,
    any: Disconnect,
)
    ensures
        same_disconnect(any, any),
        !same_disconnect(Disconnect::V3, Disconnect::V5(a)),
        !same_disconnect(Disconnect::V5(a), Disconnect::V3),
        same_disconnect(Disconnect::V5(a), Disconnect::V5(b)) <==> a.reason_code == b.reason_code
            && a.session_expiry_interval_secs == b.session_expiry_interval_secs
            && a.server_reference == b.server_reference && a.reason_string == b.reason_string
            && a.user_properties@ == b.user_properties@,
{
}

/// What ended a connection is recorded behind what was recorded before: the DISCONNECT of the
/// client first, the reason of the broker last, and nothing where there is nothing.
pub proof fn reasons_are_recorded_in_turn(
    before: Seq<Reason>,
    disconnect: Disconnect,
    reason: Reason,
    after: Seq<Reason>,
)
    ensures
        recorded(before, None, None, after) ==> after == before,
        recorded(before, None, Some(reason), after) ==> after == before.push(reason),
        recorded(before, Some(disconnect), None, after) ==> after.len() == before.len() + 1
            && after.take(before.len() as int) == before && (
        after.last() matches Reason::ConnectDisconnect(copy) && same_disconnect(copy, disconnect)),
        recorded(before, Some(disconnect), Some(reason), after) ==> after.len() == before.len() + 2
            && after.take(before.len() as int) == before && after.last() == reason && (
        after[before.len() as int] matches Reason::ConnectDisconnect(copy) && same_disconnect(
            copy,
            disconnect,
        )),
{
    let n = before.len() as int;
    if recorded(before, None, None, after) {
        assert(after.take(n) =~= after);
    }
    if recorded(before, None, Some(reason), after) {
        assert(after =~= after.take(n).push(after[n]));
    }
}

/// A connection has ended once the time of its end has been set, and not before.
pub proof fn ended_connections_have_an_end(info: DisconnectInfo)
    ensures
        info.is_disconnected() <==> info.disconnected_at != 0,
{
}

/// A span counts as many whole milliseconds as it holds.
pub proof fn spans_are_counted_in_milliseconds(span: Duration)
    requires
        span.nanos < 0x7fff_ffff_ffff_ffff * 1_000_000,
    ensures
        millis_of(span) * 1_000_000 <= span.nanos,
        span.nanos < (millis_of(span) + 1) * 1_000_000,
{
}

} // verus!
