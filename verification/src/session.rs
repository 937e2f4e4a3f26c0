//! State of an MQTT session that is connected.
//!
//! The state holds which transactions run on which paths, which subscriptions
//! are bound to which flows, and what has happened to the connection so far. The
//! modules [`crate::inbound`], [`crate::outbound`] and [`crate::lifecycle`] act
//! on it.

use vstd::prelude::*;

use crate::link::ReplyPath;
use crate::packet::PacketId;
use crate::reason::{ProtocolError, Reason};
use crate::route::{
    PacketIssuer, PacketRouteEntry, PacketRouteKey, PacketRouteLedger, RouteError, Routes,
    TransactionFamily, TransactionStage,
};
use crate::subscription_binding::{Bindings, SubscriptionBindingStore};

verus! {

/// What has happened to the connection of a session.
#[derive(Clone, Copy, Debug, PartialEq, Eq, Structural)]
pub struct StateFlags {
    /// The packet at hand is a PINGREQ.
    pub ping: bool,
    /// The session was taken over or kicked.
    pub kicked: bool,
    /// An administrator kicked the session.
    pub by_admin_kick: bool,
    /// The session that takes over starts clean.
    pub clean_start: bool,
    /// The client sent DISCONNECT.
    pub disconnect_received: bool,
}

impl StateFlags {
    /// No flag is set.
    pub open spec fn spec_empty() -> StateFlags {
        StateFlags {
            ping: false,
            kicked: false,
            by_admin_kick: false,
            clean_start: false,
            disconnect_received: false,
        }
    }

    /// The flags once the session has been kicked.
    pub open spec fn after_kick(self, clean_start: bool, is_admin: bool) -> StateFlags {
        StateFlags {
            kicked: true,
            by_admin_kick: self.by_admin_kick || is_admin,
            clean_start: self.clean_start || clean_start,
            ..self
        }
    }

    /// Returns the flags of a session to which nothing has happened.
    #[verifier::when_used_as_spec(spec_empty)]
    pub fn empty() -> (flags: StateFlags)
        ensures
            flags == StateFlags::empty(),
    {
        StateFlags {
            ping: false,
            kicked: false,
            by_admin_kick: false,
            clean_start: false,
            disconnect_received: false,
        }
    }

    /// Records that the session was kicked.
    pub fn kick(&mut self, clean_start: bool, is_admin: bool)
        ensures
            *final(self) == old(self).after_kick(clean_start, is_admin),
    {
        self.kicked = true;
        if is_admin {
            self.by_admin_kick = true;
        }
        if clean_start {
            self.clean_start = true;
        }
    }
}

/// What the rules of a session speak of.
#[verifier::ext_equal]
pub struct SessionView {
    /// Transactions and the paths on which they run.
    pub routes: Routes,
    /// Subscriptions and the flows to which they are bound.
    pub bindings: Bindings,
    /// What has happened to the connection.
    pub flags: StateFlags,
}

/// State of a connected session.
#[derive(Debug)]
pub struct SessionState {
    /// Transactions and the paths on which they run.
    pub routes: PacketRouteLedger,
    /// Subscriptions and the flows to which they are bound.
    pub subscription_bindings: SubscriptionBindingStore,
    /// What has happened to the connection.
    pub flags: StateFlags,
    /// Aliases that the broker may use for topics it sends, 0 for none.
    pub server_topic_alias_max: u16,
    /// Aliases that the client may use for topics it sends, 0 for none.
    pub client_topic_alias_max: u16,
    /// Whether a topic alias from the client ends the connection.
    pub topic_alias_forbidden: bool,
}

impl View for SessionState {
    type V = SessionView;

    open spec fn view(&self) -> SessionView {
        SessionView {
            routes: self.routes@,
            bindings: self.subscription_bindings@,
            flags: self.flags,
        }
    }
}

impl SessionState {
    /// Whether the parts of the state are well formed.
    pub open spec fn wf(&self) -> bool {
        self.subscription_bindings.wf()
    }

    /// Whether two states differ at most in what [`SessionView`] speaks of.
    pub open spec fn same_settings(&self, other: &SessionState) -> bool {
        &&& self.server_topic_alias_max == other.server_topic_alias_max
        &&& self.client_topic_alias_max == other.client_topic_alias_max
        &&& self.topic_alias_forbidden == other.topic_alias_forbidden
    }

    /// Creates the state of a session that has just been connected: no transaction is
    /// under way and no subscription is bound, whatever the session had before.
    pub fn new(
        server_topic_alias_max: u16,
        client_topic_alias_max: u16,
        topic_alias_forbidden: bool,
    ) -> (state: SessionState)
        ensures
            state.wf(),
            state@ == (SessionView {
                routes: Map::empty(),
                bindings: Map::empty(),
                flags: StateFlags::empty(),
            }),
            state.server_topic_alias_max == server_topic_alias_max,
            state.client_topic_alias_max == client_topic_alias_max,
            state.topic_alias_forbidden == topic_alias_forbidden,
    {
        SessionState {
            routes: PacketRouteLedger::new(),
            subscription_bindings: SubscriptionBindingStore::new(),
            flags: StateFlags::empty(),
            server_topic_alias_max,
            client_topic_alias_max,
            topic_alias_forbidden,
        }
    }

    /// Returns whether the broker may replace topics by aliases.
    pub fn uses_server_topic_aliases(&self) -> (used: bool)
        ensures
            used == (self.server_topic_alias_max > 0),
    {
        self.server_topic_alias_max > 0
    }

    /// Returns whether the client may replace topics by aliases.
    pub fn uses_client_topic_aliases(&self) -> (used: bool)
        ensures
            used == (self.client_topic_alias_max > 0),
    {
        self.client_topic_alias_max > 0
    }
}

/// The key of a transaction that the client opened.
pub open spec fn client_key(packet_id: PacketId) -> PacketRouteKey {
    PacketRouteKey { issuer: PacketIssuer::Client, packet_id }
}

/// The key of a transaction that the broker opened.
pub open spec fn server_key(packet_id: PacketId) -> PacketRouteKey {
    PacketRouteKey { issuer: PacketIssuer::Server, packet_id }
}

/// The reason for which a ledger refusal ends the session.
pub open spec fn route_failure(error: RouteError) -> Reason {
    Reason::ProtocolError(ProtocolError::Route(error))
}

/// Returns the reason for which a ledger refusal ends the session.
pub fn route_reason(error: RouteError) -> (reason: Reason)
    ensures
        reason == route_failure(error),
{
    Reason::ProtocolError(ProtocolError::Route(error))
}

/// Returns the packet identifier, or the violation that its absence is.
pub fn required_packet_id(packet_id: Option<PacketId>) -> (result: Result<PacketId, Reason>)
    ensures
        result == (match packet_id {
            Some(packet_id) => Ok::<PacketId, Reason>(packet_id),
            None => Err::<PacketId, Reason>(Reason::ProtocolError(ProtocolError::MissingPacketId)),
        }),
{
    match packet_id {
        Some(packet_id) => Ok(packet_id),
        None => Err(Reason::ProtocolError(ProtocolError::MissingPacketId)),
    }
}

/// The route of an inbound QoS 2 PUBLISH that was taken.
pub open spec fn qos2_inbound(path: ReplyPath) -> PacketRouteEntry {
    PacketRouteEntry {
        family: TransactionFamily::PublishQos2,
        stage: TransactionStage::PublishQos2AwaitPubrel,
        path,
    }
}

/// Whether an inbound QoS 2 PUBLISH is new, or a retransmission of one that was taken.
///
/// `resumed` says that the session holds the packet identifier from an earlier
/// connection: then the packet must be a retransmission, and its route is rebuilt.
pub open spec fn qos2_publish_is_new(
    routes: Routes,
    key: PacketRouteKey,
    path: ReplyPath,
    duplicate: bool,
    resumed: bool,
) -> Result<bool, Reason> {
    if resumed && !duplicate {
        Err(Reason::PacketIdInUse(key.packet_id))
    } else {
        match crate::route::checked_insert_or_duplicate(
            routes,
            key,
            TransactionFamily::PublishQos2,
            TransactionStage::PublishQos2AwaitPubrel,
            path,
            duplicate,
        ) {
            Ok(inserted) => Ok(inserted && !resumed),
            Err(error) => Err(route_failure(error)),
        }
    }
}

/// The routes after an inbound QoS 2 PUBLISH has been looked at.
pub open spec fn qos2_publish_routes(
    routes: Routes,
    key: PacketRouteKey,
    path: ReplyPath,
    duplicate: bool,
    resumed: bool,
) -> Routes {
    if qos2_publish_is_new(routes, key, path, duplicate, resumed) is Ok && !routes.contains_key(
        key,
    ) {
        routes.insert(key, qos2_inbound(path))
    } else {
        routes
    }
}

/// Opens or checks the route of an inbound QoS 2 PUBLISH; returns whether the message is
/// to be published.
pub fn accept_client_qos2_publish_route(
    routes: &mut PacketRouteLedger,
    route_key: PacketRouteKey,
    reply_path: ReplyPath,
    duplicate: bool,
    resumed_await_pubrel: bool,
) -> (result: Result<bool, Reason>)
    ensures
        result == qos2_publish_is_new(
            old(routes)@,
            route_key,
            reply_path,
            duplicate,
            resumed_await_pubrel,
        ),
        final(routes)@ == qos2_publish_routes(
            old(routes)@,
            route_key,
            reply_path,
            duplicate,
            resumed_await_pubrel,
        ),
{
    if resumed_await_pubrel && !duplicate {
        return Err(Reason::PacketIdInUse(route_key.packet_id()));
    }
    match routes.insert_or_validate_duplicate(
        route_key,
        TransactionFamily::PublishQos2,
        TransactionStage::PublishQos2AwaitPubrel,
        reply_path,
        duplicate,
    ) {
        Ok(inserted) => Ok(inserted && !resumed_await_pubrel),
        Err(error) => Err(route_reason(error)),
    }
}

/// Whether a PUBREL of the client is in turn.
///
/// `resumed` says that the session holds the packet identifier from an earlier
/// connection, so that a PUBREL without a route is in turn too.
pub open spec fn pubrel_accepted(
    routes: Routes,
    key: PacketRouteKey,
    path: ReplyPath,
    resumed: bool,
) -> Result<(), Reason> {
    if !routes.contains_key(key) && resumed {
        Ok(())
    } else {
        match crate::route::checked_route(
            routes,
            key,
            TransactionFamily::PublishQos2,
            TransactionStage::PublishQos2AwaitPubrel,
            path,
        ) {
            Ok(_) => Ok(()),
            Err(error) => Err(route_failure(error)),
        }
    }
}

/// The routes after a PUBREL of the client has been looked at.
pub open spec fn pubrel_routes(
    routes: Routes,
    key: PacketRouteKey,
    path: ReplyPath,
    resumed: bool,
) -> Routes {
    if !routes.contains_key(key) && resumed {
        routes.insert(key, qos2_inbound(path))
    } else {
        routes
    }
}

/// Checks the route of a PUBREL, and rebuilds it where the session holds the packet
/// identifier from an earlier connection.
pub fn restore_client_pubrel_route(
    routes: &mut PacketRouteLedger,
    route_key: PacketRouteKey,
    reply_path: ReplyPath,
    resumed_await_pubrel: bool,
) -> (result: Result<(), Reason>)
    ensures
        result == pubrel_accepted(old(routes)@, route_key, reply_path, resumed_await_pubrel),
        final(routes)@ == pubrel_routes(
            old(routes)@,
            route_key,
            reply_path,
            resumed_await_pubrel,
        ),
{
    match routes.transition(
        route_key,
        TransactionFamily::PublishQos2,
        TransactionStage::PublishQos2AwaitPubrel,
        TransactionStage::PublishQos2AwaitPubrel,
        reply_path,
    ) {
        Ok(_) => {
            assert(routes@ =~= old(routes)@);
            Ok(())
        },
        Err(RouteError::NotFound { key }) => {
            if !resumed_await_pubrel {
                return Err(route_reason(RouteError::NotFound { key }));
            }
            match routes.insert(
                route_key,
                TransactionFamily::PublishQos2,
                TransactionStage::PublishQos2AwaitPubrel,
                reply_path,
            ) {
                Ok(()) => Ok(()),
                Err(error) => Err(route_reason(error)),
            }
        },
        Err(error) => Err(route_reason(error)),
    }
}

/// Whether a PUBREC of the client is in turn. A repeated PUBREC is, once the PUBREL has
/// been sent.
pub open spec fn pubrec_accepted(
    routes: Routes,
    key: PacketRouteKey,
    path: ReplyPath,
) -> Result<(), Reason> {
    let stage = if routes.contains_key(key) && routes[key].family == TransactionFamily::PublishQos2
        && routes[key].stage == TransactionStage::PublishQos2AwaitPubcomp {
        TransactionStage::PublishQos2AwaitPubcomp
    } else {
        TransactionStage::PublishQos2AwaitPubrec
    };
    match crate::route::checked_route(routes, key, TransactionFamily::PublishQos2, stage, path) {
        Ok(_) => Ok(()),
        Err(error) => Err(route_failure(error)),
    }
}

/// The routes after a PUBREC that is in turn: its transaction awaits PUBCOMP.
pub open spec fn pubrec_routes(routes: Routes, key: PacketRouteKey, path: ReplyPath) -> Routes {
    if pubrec_accepted(routes, key, path) is Ok {
        routes.insert(
            key,
            PacketRouteEntry {
                family: TransactionFamily::PublishQos2,
                stage: TransactionStage::PublishQos2AwaitPubcomp,
                path,
            },
        )
    } else {
        routes
    }
}

/// Checks the route of a PUBREC and moves it on to await PUBCOMP.
pub fn accept_server_pubrec(
    routes: &mut PacketRouteLedger,
    packet_id: PacketId,
    reply_path: ReplyPath,
) -> (result: Result<(), Reason>)
    ensures
        result == pubrec_accepted(old(routes)@, server_key(packet_id), reply_path),
        final(routes)@ == pubrec_routes(old(routes)@, server_key(packet_id), reply_path),
{
    let key = PacketRouteKey::new(PacketIssuer::Server, packet_id);
    let released: bool = match routes.get(key) {
        Some(entry) => entry.family() == TransactionFamily::PublishQos2 && entry.stage()
            == TransactionStage::PublishQos2AwaitPubcomp,
        None => false,
    };
    if released {
        match routes.validate(
            key,
            TransactionFamily::PublishQos2,
            TransactionStage::PublishQos2AwaitPubcomp,
            reply_path,
        ) {
            Ok(_) => {
                assert(pubrec_routes(routes@, key, reply_path) =~= routes@);
                Ok(())
            },
            Err(error) => Err(route_reason(error)),
        }
    } else {
        match routes.transition(
            key,
            TransactionFamily::PublishQos2,
            TransactionStage::PublishQos2AwaitPubrec,
            TransactionStage::PublishQos2AwaitPubcomp,
            reply_path,
        ) {
            Ok(_) => Ok(()),
            Err(error) => Err(route_reason(error)),
        }
    }
}

} // verus!
