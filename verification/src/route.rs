//! MQTT transaction-to-flow routing ledger.
//!
//! Every MQTT transaction that awaits an acknowledgement is bound to the exact
//! reply path on which it runs. The ledger answers on which path a transaction
//! lives, and refuses packets that arrive on another path, belong to another
//! kind of transaction, or come out of turn.

use std::collections::HashMap;

use vstd::prelude::*;

use crate::link::{FlowId, ReplyPath};
use crate::packet::PacketId;
use crate::table::keys_of;

verus! {

broadcast use {vstd::std_specs::hash::group_hash_axioms, PacketId::get_is_value};

/// Side that allocated an MQTT packet identifier.
#[derive(Clone, Copy, Debug, PartialEq, Eq, Hash, Structural)]
pub enum PacketIssuer {
    /// Packet identifier allocated by the connected MQTT client.
    Client,
    /// Packet identifier allocated by the broker.
    Server,
}

/// MQTT transaction family associated with a packet identifier.
#[derive(Clone, Copy, Debug, PartialEq, Eq, Structural)]
pub enum TransactionFamily {
    /// QoS 1 PUBLISH transaction.
    PublishQos1,
    /// QoS 2 PUBLISH transaction.
    PublishQos2,
    /// SUBSCRIBE transaction.
    Subscribe,
    /// UNSUBSCRIBE transaction.
    Unsubscribe,
}

/// Expected next acknowledgement in an MQTT transaction.
#[derive(Clone, Copy, Debug, PartialEq, Eq, Structural)]
pub enum TransactionStage {
    /// QoS 1 PUBLISH is awaiting PUBACK.
    PublishQos1AwaitPuback,
    /// Outbound QoS 2 PUBLISH is awaiting PUBREC.
    PublishQos2AwaitPubrec,
    /// Inbound QoS 2 PUBLISH is awaiting PUBREL.
    PublishQos2AwaitPubrel,
    /// Outbound QoS 2 PUBREL is awaiting PUBCOMP.
    PublishQos2AwaitPubcomp,
    /// SUBSCRIBE is awaiting SUBACK.
    SubscribeAwaitSuback,
    /// UNSUBSCRIBE is awaiting UNSUBACK.
    UnsubscribeAwaitUnsuback,
}

impl TransactionStage {
    /// The one family to which the stage belongs.
    pub open spec fn family(self) -> TransactionFamily {
        match self {
            TransactionStage::PublishQos1AwaitPuback => TransactionFamily::PublishQos1,
            TransactionStage::PublishQos2AwaitPubrec => TransactionFamily::PublishQos2,
            TransactionStage::PublishQos2AwaitPubrel => TransactionFamily::PublishQos2,
            TransactionStage::PublishQos2AwaitPubcomp => TransactionFamily::PublishQos2,
            TransactionStage::SubscribeAwaitSuback => TransactionFamily::Subscribe,
            TransactionStage::UnsubscribeAwaitUnsuback => TransactionFamily::Unsubscribe,
        }
    }
}

impl TransactionFamily {
    /// Returns whether `stage` is valid for this transaction family.
    pub fn accepts(self, stage: TransactionStage) -> (valid: bool)
        ensures
            valid == (stage.family() == self),
    {
        match (self, stage) {
            (TransactionFamily::PublishQos1, TransactionStage::PublishQos1AwaitPuback) => true,
            (TransactionFamily::PublishQos2, TransactionStage::PublishQos2AwaitPubrec) => true,
            (TransactionFamily::PublishQos2, TransactionStage::PublishQos2AwaitPubrel) => true,
            (TransactionFamily::PublishQos2, TransactionStage::PublishQos2AwaitPubcomp) => true,
            (TransactionFamily::Subscribe, TransactionStage::SubscribeAwaitSuback) => true,
            (TransactionFamily::Unsubscribe, TransactionStage::UnsubscribeAwaitUnsuback) => true,
            _ => false,
        }
    }
}

/// Issuer-scoped key for an active MQTT transaction route.
#[derive(Clone, Copy, Debug, PartialEq, Eq, Hash, Structural)]
pub struct PacketRouteKey {
    /// Side that allocated the packet identifier.
    pub issuer: PacketIssuer,
    /// Packet identifier of the transaction.
    pub packet_id: PacketId,
}

impl PacketRouteKey {
    /// Creates a route key from an issuer and a non-zero MQTT packet identifier.
    pub fn new(issuer: PacketIssuer, packet_id: PacketId) -> (key: PacketRouteKey)
        ensures
            key == (PacketRouteKey { issuer, packet_id }),
    {
        PacketRouteKey { issuer, packet_id }
    }

    /// Creates a route key, returning `None` when `packet_id` is zero.
    pub fn try_new(issuer: PacketIssuer, packet_id: u16) -> (key: Option<PacketRouteKey>)
        ensures
            packet_id == 0 ==> key is None,
            packet_id != 0 ==> (key matches Some(key) && key.issuer == issuer
                && key.packet_id.get() == packet_id),
    {
        match PacketId::new(packet_id) {
            Some(packet_id) => Some(PacketRouteKey::new(issuer, packet_id)),
            None => None,
        }
    }

    /// Returns the non-zero MQTT packet identifier.
    pub fn packet_id(self) -> (packet_id: PacketId)
        ensures
            packet_id == self.packet_id,
    {
        self.packet_id
    }
}

/// Active route and protocol state for an MQTT transaction.
#[derive(Clone, Copy, Debug, PartialEq, Eq, Structural)]
pub struct PacketRouteEntry {
    /// MQTT transaction family.
    pub family: TransactionFamily,
    /// Acknowledgement stage currently expected.
    pub stage: TransactionStage,
    /// Exact flow and generation assigned to the transaction.
    pub path: ReplyPath,
}

impl PacketRouteEntry {
    /// Creates a route entry for a transaction family, stage, and reply path.
    pub fn new(family: TransactionFamily, stage: TransactionStage, path: ReplyPath) -> (entry:
        PacketRouteEntry)
        ensures
            entry == (PacketRouteEntry { family, stage, path }),
    {
        PacketRouteEntry { family, stage, path }
    }

    /// Returns the MQTT transaction family.
    pub fn family(self) -> (family: TransactionFamily)
        ensures
            family == self.family,
    {
        self.family
    }

    /// Returns the acknowledgement stage currently expected.
    pub fn stage(self) -> (stage: TransactionStage)
        ensures
            stage == self.stage,
    {
        self.stage
    }

    /// Returns the exact flow and generation assigned to the transaction.
    pub fn path(self) -> (path: ReplyPath)
        ensures
            path == self.path,
    {
        self.path
    }

    /// Returns the QUIC flow identifier assigned to the transaction.
    pub fn flow_id(self) -> (flow_id: FlowId)
        ensures
            flow_id == self.path.flow_id,
    {
        self.path.flow_id()
    }
}

/// Validation failure produced while updating the MQTT route ledger.
#[allow(inconsistent_fields)]
#[derive(Clone, Copy, Debug, PartialEq, Eq, Structural)]
pub enum RouteError {
    /// A non-duplicate packet attempted to reuse an active route key.
    Conflict {
        /// Route key that was already active.
        key: PacketRouteKey,
        /// Existing route that owns the key.
        existing: PacketRouteEntry,
    },
    /// No active route exists for the supplied key.
    NotFound {
        /// Route key that was not present.
        key: PacketRouteKey,
    },
    /// A packet arrived on a different flow or flow generation than the active route.
    WrongFlow {
        /// Route key being validated.
        key: PacketRouteKey,
        /// Reply path recorded for the transaction.
        expected: ReplyPath,
        /// Reply path on which the packet arrived.
        actual: ReplyPath,
    },
    /// The packet type belongs to a different transaction family than the active route.
    WrongFamily {
        /// Route key being validated.
        key: PacketRouteKey,
        /// Transaction family recorded for the route.
        expected: TransactionFamily,
        /// Transaction family implied by the packet.
        actual: TransactionFamily,
    },
    /// The packet is invalid for the active transaction stage.
    WrongStage {
        /// Route key being validated.
        key: PacketRouteKey,
        /// Transaction stage recorded for the route.
        expected: TransactionStage,
        /// Transaction stage implied by the packet.
        actual: TransactionStage,
    },
    /// A transaction stage is not valid for its declared family.
    WrongFamilyStage {
        /// Declared transaction family.
        family: TransactionFamily,
        /// Stage rejected for the transaction family.
        stage: TransactionStage,
    },
}

/// The routes of a ledger: which transaction runs where, and what it awaits.
pub type Routes = Map<PacketRouteKey, PacketRouteEntry>;

/// What looking for a route that matches exactly gives.
///
/// A mismatch is reported in the order path, family, stage.
pub open spec fn checked_route(
    routes: Routes,
    key: PacketRouteKey,
    family: TransactionFamily,
    stage: TransactionStage,
    path: ReplyPath,
) -> Result<PacketRouteEntry, RouteError> {
    if stage.family() != family {
        Err(RouteError::WrongFamilyStage { family, stage })
    } else if !routes.contains_key(key) {
        Err(RouteError::NotFound { key })
    } else if routes[key].path != path {
        Err(RouteError::WrongFlow { key, expected: routes[key].path, actual: path })
    } else if routes[key].family != family {
        Err(RouteError::WrongFamily { key, expected: routes[key].family, actual: family })
    } else if routes[key].stage != stage {
        Err(RouteError::WrongStage { key, expected: routes[key].stage, actual: stage })
    } else {
        Ok(routes[key])
    }
}

/// Whether a route may be opened for `key`.
pub open spec fn checked_insert(
    routes: Routes,
    key: PacketRouteKey,
    family: TransactionFamily,
    stage: TransactionStage,
) -> Result<(), RouteError> {
    if stage.family() != family {
        Err(RouteError::WrongFamilyStage { family, stage })
    } else if routes.contains_key(key) {
        Err(RouteError::Conflict { key, existing: routes[key] })
    } else {
        Ok(())
    }
}

/// What opening a route gives where a duplicate may find it open already: `true` for a
/// new route, `false` for a duplicate that matches the open one.
pub open spec fn checked_insert_or_duplicate(
    routes: Routes,
    key: PacketRouteKey,
    family: TransactionFamily,
    stage: TransactionStage,
    path: ReplyPath,
    duplicate: bool,
) -> Result<bool, RouteError> {
    if stage.family() != family {
        Err(RouteError::WrongFamilyStage { family, stage })
    } else if !routes.contains_key(key) {
        Ok(true)
    } else if !duplicate {
        Err(RouteError::Conflict { key, existing: routes[key] })
    } else {
        match checked_route(routes, key, family, stage, path) {
            Ok(_) => Ok(false),
            Err(error) => Err(error),
        }
    }
}

/// What moving a route on to `next_stage` gives.
pub open spec fn checked_transition(
    routes: Routes,
    key: PacketRouteKey,
    family: TransactionFamily,
    expected_stage: TransactionStage,
    next_stage: TransactionStage,
    path: ReplyPath,
) -> Result<PacketRouteEntry, RouteError> {
    if expected_stage.family() != family {
        Err(RouteError::WrongFamilyStage { family, stage: expected_stage })
    } else if next_stage.family() != family {
        Err(RouteError::WrongFamilyStage { family, stage: next_stage })
    } else {
        match checked_route(routes, key, family, expected_stage, path) {
            Ok(_) => Ok(PacketRouteEntry { family, stage: next_stage, path }),
            Err(error) => Err(error),
        }
    }
}

/// Which routes a removal is about.
#[derive(Clone, Copy, PartialEq, Eq, Structural)]
enum Selector {
    Flow(FlowId),
    Path(ReplyPath),
}

impl Selector {
    spec fn selects(self, entry: PacketRouteEntry) -> bool {
        match self {
            Selector::Flow(flow_id) => entry.path.flow_id == flow_id,
            Selector::Path(path) => entry.path == path,
        }
    }

    fn is_selected(self, entry: PacketRouteEntry) -> (selected: bool)
        ensures
            selected == self.selects(entry),
    {
        match self {
            Selector::Flow(flow_id) => entry.flow_id() == flow_id,
            Selector::Path(path) => entry.path == path,
        }
    }
}

/// Returns whether an entry of `side` is selected.
fn any_selected(side: &HashMap<u16, PacketRouteEntry>, selector: Selector) -> (found: bool)
    ensures
        found == exists|id: u16| #[trigger]
            side@.contains_key(id) && selector.selects(side@[id]),
{
    let keys = keys_of(side);
    let mut i: usize = 0;
    while i < keys.len()
        invariant
            i <= keys.len(),
            forall|id: u16| #[trigger] side@.contains_key(id) <==> keys@.contains(id),
            forall|j: int| 0 <= j < i ==> !selector.selects(side@[#[trigger] keys@[j]]),
        decreases keys.len() - i,
    {
        let id: u16 = keys[i];
        assert(keys@.contains(keys@[i as int]));
        assert(side@.contains_key(id));
        match side.get(&id) {
            Some(entry) => {
                if selector.is_selected(*entry) {
                    return true;
                }
            },
            None => {},
        }
        i = i + 1;
    }
    assert forall|id: u16| #[trigger] side@.contains_key(id) implies !selector.selects(side@[id]) by {
        let j = keys@.index_of(id);
        assert(keys@[j] == id);
    }
    false
}

/// Removes the selected entries of `side` and returns how many there were.
fn remove_selected(side: &mut HashMap<u16, PacketRouteEntry>, selector: Selector) -> (removed:
    usize)
    ensures
        final(side)@ == old(side)@.remove_keys(
            old(side)@.dom().filter(|id: u16| selector.selects(old(side)@[id])),
        ),
        removed == old(side)@.dom().len() - final(side)@.dom().len(),
        removed <= old(side)@.dom().len(),
{
    let keys = keys_of(side);
    let before: usize = side.len();
    let ghost start = side@;
    let mut i: usize = 0;
    while i < keys.len()
        invariant
            i <= keys.len(),
            keys@.no_duplicates(),
            start.dom().finite(),
            forall|id: u16| #[trigger] start.contains_key(id) <==> keys@.contains(id),
            forall|id: u16| #[trigger]
                side@.contains_key(id) <==> start.contains_key(id) && !(selector.selects(start[id])
                    && keys@.take(i as int).contains(id)),
            forall|id: u16| #[trigger] side@.contains_key(id) ==> side@[id] == start[id],
        decreases keys.len() - i,
    {
        let id: u16 = keys[i];
        assert(keys@.contains(keys@[i as int]));
        assert(start.contains_key(id));
        assert(keys@.take(i as int + 1) =~= keys@.take(i as int).push(id));
        assert(!keys@.take(i as int).contains(id));
        assert(side@.contains_key(id));
        let selected: bool = match side.get(&id) {
            Some(entry) => selector.is_selected(*entry),
            None => false,
        };
        let ghost before_step = side@;
        if selected {
            side.remove(&id);
        }
        assert forall|k: u16| #[trigger]
            side@.contains_key(k) <==> start.contains_key(k) && !(selector.selects(start[k])
                && keys@.take(i as int + 1).contains(k)) by {
            assert(before_step.contains_key(k) <==> start.contains_key(k) && !(selector.selects(
                start[k],
            ) && keys@.take(i as int).contains(k)));
            if keys@.take(i as int).contains(k) {
                let j = keys@.take(i as int).index_of(k);
                assert(keys@.take(i as int + 1)[j] == k);
            }
            if keys@.take(i as int + 1).contains(k) && k != id {
                let j = keys@.take(i as int + 1).index_of(k);
                assert(keys@.take(i as int)[j] == k);
            }
            if k == id {
                assert(keys@.take(i as int + 1)[i as int] == id);
            }
        }
        i = i + 1;
    }
    proof {
        let gone = start.dom().filter(|id: u16| selector.selects(start[id]));
        assert(keys@.take(keys@.len() as int) =~= keys@);
        assert(side@ =~= start.remove_keys(gone));
        vstd::set_lib::lemma_len_subset(side@.dom(), start.dom());
    }
    before - side.len()
}

/// Ledger that binds active MQTT transactions to exact QUIC reply paths.
#[derive(Debug)]
pub struct PacketRouteLedger {
    client: HashMap<u16, PacketRouteEntry>,
    server: HashMap<u16, PacketRouteEntry>,
}

impl View for PacketRouteLedger {
    type V = Routes;

    closed spec fn view(&self) -> Routes {
        Map::new(
            |key: PacketRouteKey| self.side(key.issuer).contains_key(key.packet_id.get()),
            |key: PacketRouteKey| self.side(key.issuer)[key.packet_id.get()],
        )
    }
}

impl PacketRouteLedger {
    spec fn side(&self, issuer: PacketIssuer) -> Map<u16, PacketRouteEntry> {
        match issuer {
            PacketIssuer::Client => self.client@,
            PacketIssuer::Server => self.server@,
        }
    }

    /// Creates an empty route ledger.
    pub fn new() -> (ledger: PacketRouteLedger)
        ensures
            ledger@ == Map::<PacketRouteKey, PacketRouteEntry>::empty(),
    {
        let ledger = PacketRouteLedger { client: HashMap::new(), server: HashMap::new() };
        assert(ledger@ =~= Map::<PacketRouteKey, PacketRouteEntry>::empty());
        ledger
    }

    /// Returns the active route for `key`, if one exists.
    pub fn get(&self, key: PacketRouteKey) -> (entry: Option<PacketRouteEntry>)
        ensures
            entry == (if self@.contains_key(key) {
                Some(self@[key])
            } else {
                None
            }),
    {
        let id: u16 = key.packet_id.get();
        let found = match key.issuer {
            PacketIssuer::Client => self.client.get(&id),
            PacketIssuer::Server => self.server.get(&id),
        };
        match found {
            Some(entry) => Some(*entry),
            None => None,
        }
    }

    fn put(&mut self, key: PacketRouteKey, entry: PacketRouteEntry)
        ensures
            final(self)@ == old(self)@.insert(key, entry),
    {
        let id: u16 = key.packet_id.get();
        match key.issuer {
            PacketIssuer::Client => {
                self.client.insert(id, entry);
            },
            PacketIssuer::Server => {
                self.server.insert(id, entry);
            },
        }
        assert(self@ =~= old(self)@.insert(key, entry)) by {
            assert forall|k: PacketRouteKey| k != key implies self.side(k.issuer).contains_key(
                k.packet_id.get(),
            ) == old(self).side(k.issuer).contains_key(k.packet_id.get()) by {
                PacketId::equal_by_value(k.packet_id, key.packet_id);
            }
            assert forall|k: PacketRouteKey| k != key implies #[trigger] self.side(
                k.issuer,
            )[k.packet_id.get()] == old(self).side(k.issuer)[k.packet_id.get()] by {
                PacketId::equal_by_value(k.packet_id, key.packet_id);
            }
        }
    }

    /// Inserts a route when the key and family-stage combination are unused and valid.
    pub fn insert(
        &mut self,
        key: PacketRouteKey,
        family: TransactionFamily,
        stage: TransactionStage,
        path: ReplyPath,
    ) -> (result: Result<(), RouteError>)
        ensures
            result == checked_insert(old(self)@, key, family, stage),
            final(self)@ == (if result is Ok {
                old(self)@.insert(key, PacketRouteEntry { family, stage, path })
            } else {
                old(self)@
            }),
    {
        match validate_family_stage(family, stage) {
            Ok(()) => {},
            Err(error) => {
                return Err(error);
            },
        }
        if let Some(existing) = self.get(key) {
            return Err(RouteError::Conflict { key, existing });
        }
        self.put(key, PacketRouteEntry::new(family, stage, path));
        Ok(())
    }

    /// Inserts a new route or validates a protocol-level duplicate against the active route.
    ///
    /// Returns `true` when a new route was inserted and `false` when an existing route was a
    /// valid duplicate on the same flow and transaction stage.
    pub fn insert_or_validate_duplicate(
        &mut self,
        key: PacketRouteKey,
        family: TransactionFamily,
        stage: TransactionStage,
        path: ReplyPath,
        duplicate: bool,
    ) -> (result: Result<bool, RouteError>)
        ensures
            result == checked_insert_or_duplicate(old(self)@, key, family, stage, path, duplicate),
            final(self)@ == (if result == Ok::<bool, RouteError>(true) {
                old(self)@.insert(key, PacketRouteEntry { family, stage, path })
            } else {
                old(self)@
            }),
    {
        match validate_family_stage(family, stage) {
            Ok(()) => {},
            Err(error) => {
                return Err(error);
            },
        }
        if let Some(existing) = self.get(key) {
            if !duplicate {
                return Err(RouteError::Conflict { key, existing });
            }
            return match self.validate_entry(key, family, stage, path) {
                Ok(_) => Ok(false),
                Err(error) => Err(error),
            };
        }
        self.put(key, PacketRouteEntry::new(family, stage, path));
        Ok(true)
    }

    /// Validates that an active route matches the supplied family, stage, and exact path.
    pub fn validate(
        &self,
        key: PacketRouteKey,
        family: TransactionFamily,
        stage: TransactionStage,
        path: ReplyPath,
    ) -> (result: Result<PacketRouteEntry, RouteError>)
        ensures
            result == checked_route(self@, key, family, stage, path),
    {
        match validate_family_stage(family, stage) {
            Ok(()) => {},
            Err(error) => {
                return Err(error);
            },
        }
        self.validate_entry(key, family, stage, path)
    }

    /// Advances a matching route to `next_stage` without changing its reply path.
    pub fn transition(
        &mut self,
        key: PacketRouteKey,
        family: TransactionFamily,
        expected_stage: TransactionStage,
        next_stage: TransactionStage,
        path: ReplyPath,
    ) -> (result: Result<PacketRouteEntry, RouteError>)
        ensures
            result == checked_transition(
                old(self)@,
                key,
                family,
                expected_stage,
                next_stage,
                path,
            ),
            final(self)@ == (match result {
                Ok(next) => old(self)@.insert(key, next),
                Err(_) => old(self)@,
            }),
    {
        match validate_family_stage(family, expected_stage) {
            Ok(()) => {},
            Err(error) => {
                return Err(error);
            },
        }
        match validate_family_stage(family, next_stage) {
            Ok(()) => {},
            Err(error) => {
                return Err(error);
            },
        }
        match self.validate_entry(key, family, expected_stage, path) {
            Ok(_) => {},
            Err(error) => {
                return Err(error);
            },
        }
        let next = PacketRouteEntry::new(family, next_stage, path);
        self.put(key, next);
        Ok(next)
    }

    /// Validates and removes a completed transaction route.
    pub fn complete(
        &mut self,
        key: PacketRouteKey,
        family: TransactionFamily,
        expected_stage: TransactionStage,
        path: ReplyPath,
    ) -> (result: Result<PacketRouteEntry, RouteError>)
        ensures
            result == checked_route(old(self)@, key, family, expected_stage, path),
            final(self)@ == (if result is Ok {
                old(self)@.remove(key)
            } else {
                old(self)@
            }),
    {
        match self.validate(key, family, expected_stage, path) {
            Ok(_) => {},
            Err(error) => {
                return Err(error);
            },
        }
        match self.remove(key) {
            Some(entry) => Ok(entry),
            None => Err(RouteError::NotFound { key }),
        }
    }

    /// Removes and returns the active route for `key` without protocol validation.
    pub fn remove(&mut self, key: PacketRouteKey) -> (entry: Option<PacketRouteEntry>)
        ensures
            entry == (if old(self)@.contains_key(key) {
                Some(old(self)@[key])
            } else {
                None
            }),
            final(self)@ == old(self)@.remove(key),
    {
        let id: u16 = key.packet_id.get();
        let removed = match key.issuer {
            PacketIssuer::Client => self.client.remove(&id),
            PacketIssuer::Server => self.server.remove(&id),
        };
        assert(self@ =~= old(self)@.remove(key)) by {
            assert forall|k: PacketRouteKey| k != key implies self.side(k.issuer).contains_key(
                k.packet_id.get(),
            ) == old(self).side(k.issuer).contains_key(k.packet_id.get()) by {
                PacketId::equal_by_value(k.packet_id, key.packet_id);
            }
            assert forall|k: PacketRouteKey| k != key implies #[trigger] self.side(
                k.issuer,
            )[k.packet_id.get()] == old(self).side(k.issuer)[k.packet_id.get()] by {
                PacketId::equal_by_value(k.packet_id, key.packet_id);
            }
        }
        removed
    }

    fn validate_entry(
        &self,
        key: PacketRouteKey,
        family: TransactionFamily,
        stage: TransactionStage,
        path: ReplyPath,
    ) -> (result: Result<PacketRouteEntry, RouteError>)
        requires
            stage.family() == family,
        ensures
            result == checked_route(self@, key, family, stage, path),
    {
        let entry = match self.get(key) {
            Some(entry) => entry,
            None => {
                return Err(RouteError::NotFound { key });
            },
        };
        if entry.path != path {
            return Err(RouteError::WrongFlow { key, expected: entry.path, actual: path });
        }
        if entry.family != family {
            return Err(RouteError::WrongFamily { key, expected: entry.family, actual: family });
        }
        if entry.stage != stage {
            return Err(RouteError::WrongStage { key, expected: entry.stage, actual: stage });
        }
        Ok(entry)
    }

    /// Returns the number of active transaction routes.
    pub fn len(&self) -> (count: usize)
        ensures
            self@.dom().finite(),
            count == self@.dom().len(),
    {
        proof {
            self.lemma_len();
        }
        self.client.len() + self.server.len()
    }

    /// Returns whether any active route is assigned to `flow_id`, regardless of generation.
    pub fn has_flow_entries(&self, flow_id: FlowId) -> (found: bool)
        ensures
            found == flow_in_use(self@, flow_id),
    {
        let selector = Selector::Flow(flow_id);
        let found: bool = any_selected(&self.client, selector) || any_selected(
            &self.server,
            selector,
        );
        proof {
            self.lemma_any(selector);
            if flow_in_use(self@, flow_id) {
                let key = choose|key: PacketRouteKey| #[trigger]
                    self@.contains_key(key) && self@[key].path.flow_id == flow_id;
                assert(selector.selects(self@[key]));
            }
        }
        found
    }

    /// Returns whether any active route is assigned to the exact reply path.
    pub fn has_path_entries(&self, path: ReplyPath) -> (found: bool)
        ensures
            found == path_in_use(self@, path),
    {
        let selector = Selector::Path(path);
        let found: bool = any_selected(&self.client, selector) || any_selected(
            &self.server,
            selector,
        );
        proof {
            self.lemma_any(selector);
            if path_in_use(self@, path) {
                let key = choose|key: PacketRouteKey| #[trigger]
                    self@.contains_key(key) && self@[key].path == path;
                assert(selector.selects(self@[key]));
            }
        }
        found
    }

    /// Removes all routes assigned to `flow_id` and returns the number removed.
    pub fn remove_flow(&mut self, flow_id: FlowId) -> (removed: usize)
        ensures
            final(self)@ == without_flow(old(self)@, flow_id),
            old(self)@.dom().finite(),
            removed == old(self)@.dom().len() - final(self)@.dom().len(),
    {
        let removed: usize = self.remove_all(Selector::Flow(flow_id));
        assert(self@ =~= without_flow(old(self)@, flow_id));
        removed
    }

    /// Removes all routes assigned to the exact reply path and returns the number removed.
    pub fn remove_path(&mut self, path: ReplyPath) -> (removed: usize)
        ensures
            final(self)@ == without_path(old(self)@, path),
            old(self)@.dom().finite(),
            removed == old(self)@.dom().len() - final(self)@.dom().len(),
    {
        let removed: usize = self.remove_all(Selector::Path(path));
        assert(self@ =~= without_path(old(self)@, path));
        removed
    }

    fn remove_all(&mut self, selector: Selector) -> (removed: usize)
        ensures
            forall|key: PacketRouteKey| #[trigger]
                final(self)@.contains_key(key) <==> old(self)@.contains_key(key)
                    && !selector.selects(old(self)@[key]),
            forall|key: PacketRouteKey| #[trigger]
                final(self)@.contains_key(key) ==> final(self)@[key] == old(self)@[key],
            old(self)@.dom().finite(),
            removed == old(self)@.dom().len() - final(self)@.dom().len(),
    {
        proof {
            self.lemma_len();
        }
        let from_client: usize = remove_selected(&mut self.client, selector);
        let from_server: usize = remove_selected(&mut self.server, selector);
        proof {
            self.lemma_len();
        }
        from_client + from_server
    }

    proof fn lemma_any(&self, selector: Selector)
        ensures
            (exists|key: PacketRouteKey| #[trigger]
                self@.contains_key(key) && selector.selects(self@[key])) <==> (exists|id: u16|
                #[trigger] self.client@.contains_key(id) && selector.selects(self.client@[id])) || (
            exists|id: u16| #[trigger]
                self.server@.contains_key(id) && selector.selects(self.server@[id])),
    {
        assert forall|issuer: PacketIssuer, id: u16| #[trigger]
            self.side(issuer).contains_key(id) && selector.selects(
                self.side(issuer)[id],
            ) implies exists|key: PacketRouteKey| #[trigger]
            self@.contains_key(key) && selector.selects(self@[key]) by {
            let key = PacketRouteKey { issuer, packet_id: PacketId { value: id } };
            assert(self@.contains_key(key));
        }
        if exists|id: u16| #[trigger]
            self.client@.contains_key(id) && selector.selects(self.client@[id]) {
            let id = choose|id: u16| #[trigger]
                self.client@.contains_key(id) && selector.selects(self.client@[id]);
            assert(self.side(PacketIssuer::Client).contains_key(id));
        }
        if exists|id: u16| #[trigger]
            self.server@.contains_key(id) && selector.selects(self.server@[id]) {
            let id = choose|id: u16| #[trigger]
                self.server@.contains_key(id) && selector.selects(self.server@[id]);
            assert(self.side(PacketIssuer::Server).contains_key(id));
        }
    }

    proof fn lemma_len(&self)
        ensures
            self@.dom().finite(),
            self@.dom().len() == self.client@.dom().len() + self.server@.dom().len(),
            self.client@.dom().len() <= 65536,
            self.server@.dom().len() <= 65536,
    {
        let of_client = |id: u16|
            PacketRouteKey { issuer: PacketIssuer::Client, packet_id: PacketId { value: id } };
        let of_server = |id: u16|
            PacketRouteKey { issuer: PacketIssuer::Server, packet_id: PacketId { value: id } };
        let client_keys = self.client@.dom().map(of_client);
        let server_keys = self.server@.dom().map(of_server);
        self.client@.dom().lemma_map_finite(of_client);
        self.server@.dom().lemma_map_finite(of_server);
        vstd::set_lib::lemma_map_size(self.client@.dom(), client_keys, of_client);
        vstd::set_lib::lemma_map_size(self.server@.dom(), server_keys, of_server);
        assert(self@.dom() =~= client_keys.union(server_keys)) by {
            assert forall|key: PacketRouteKey| self@.dom().contains(key) implies client_keys.union(
                server_keys,
            ).contains(key) by {
                let id = key.packet_id.value;
                match key.issuer {
                    PacketIssuer::Client => {
                        assert(of_client(id) == key);
                    },
                    PacketIssuer::Server => {
                        assert(of_server(id) == key);
                    },
                }
            }
        }
        assert(client_keys.disjoint(server_keys));
        vstd::set_lib::lemma_set_disjoint_lens(client_keys, server_keys);
        lemma_u16_set_bound(self.client@.dom());
        lemma_u16_set_bound(self.server@.dom());
    }
}

impl Default for PacketRouteLedger {
    fn default() -> (ledger: Self)
        ensures
            ledger@ == Map::<PacketRouteKey, PacketRouteEntry>::empty(),
    {
        PacketRouteLedger::new()
    }
}

/// Whether a transaction runs on `flow_id`.
pub open spec fn flow_in_use(routes: Routes, flow_id: FlowId) -> bool {
    exists|key: PacketRouteKey| #[trigger]
        routes.contains_key(key) && routes[key].path.flow_id == flow_id
}

/// Whether a transaction runs on exactly `path`.
pub open spec fn path_in_use(routes: Routes, path: ReplyPath) -> bool {
    exists|key: PacketRouteKey| #[trigger] routes.contains_key(key) && routes[key].path == path
}

/// The routes that do not run on `flow_id`.
pub open spec fn without_flow(routes: Routes, flow_id: FlowId) -> Routes {
    Map::new(
        |key: PacketRouteKey| routes.contains_key(key) && routes[key].path.flow_id != flow_id,
        |key: PacketRouteKey| routes[key],
    )
}

/// The routes that do not run on exactly `path`.
pub open spec fn without_path(routes: Routes, path: ReplyPath) -> Routes {
    Map::new(
        |key: PacketRouteKey| routes.contains_key(key) && routes[key].path != path,
        |key: PacketRouteKey| routes[key],
    )
}

proof fn lemma_u16_set_bound(s: Set<u16>)
    requires
        s.finite(),
    ensures
        s.len() <= 65536,
{
    let as_int = |x: u16| x as int;
    let ints = s.map(as_int);
    s.lemma_map_finite(as_int);
    vstd::set_lib::lemma_map_size(s, ints, as_int);
    vstd::set_lib::lemma_int_range(0, 65536);
    let range = vstd::set_lib::set_int_range(0, 65536);
    assert(ints.subset_of(range));
    vstd::set_lib::lemma_len_subset(ints, range);
}

fn validate_family_stage(family: TransactionFamily, stage: TransactionStage) -> (result: Result<
    (),
    RouteError,
>)
    ensures
        result == (if stage.family() == family {
            Ok::<(), RouteError>(())
        } else {
            Err::<(), RouteError>(RouteError::WrongFamilyStage { family, stage })
        }),
{
    if family.accepts(stage) {
        Ok(())
    } else {
        Err(RouteError::WrongFamilyStage { family, stage })
    }
}

/// Whether every route is at a stage of its own family.
pub open spec fn consistent(routes: Routes) -> bool {
    forall|key: PacketRouteKey| #[trigger]
        routes.contains_key(key) ==> routes[key].stage.family() == routes[key].family
}

/// Every update that the ledger performs keeps each route at a stage of its family.
pub proof fn updates_keep_consistency(
    routes: Routes,
    key: PacketRouteKey,
    family: TransactionFamily,
    stage: TransactionStage,
    next_stage: TransactionStage,
    path: ReplyPath,
    duplicate: bool,
)
    requires
        consistent(routes),
    ensures
        consistent(Map::<PacketRouteKey, PacketRouteEntry>::empty()),
        checked_insert(routes, key, family, stage) is Ok ==> consistent(
            routes.insert(key, PacketRouteEntry { family, stage, path }),
        ),
        checked_insert_or_duplicate(routes, key, family, stage, path, duplicate) is Ok
            ==> consistent(routes.insert(key, PacketRouteEntry { family, stage, path })),
        checked_transition(routes, key, family, stage, next_stage, path) matches Ok(next)
            ==> consistent(routes.insert(key, next)),
        consistent(routes.remove(key)),
        consistent(without_flow(routes, path.flow_id)),
        consistent(without_path(routes, path)),
{
}

/// Client and broker allocate packet identifiers independently: a route of one is neither
/// seen nor touched through the other's key for the same number.
pub proof fn issuers_do_not_interfere(
    routes: Routes,
    packet_id: PacketId,
    entry: PacketRouteEntry,
)
    ensures
        ({
            let client = PacketRouteKey { issuer: PacketIssuer::Client, packet_id };
            let server = PacketRouteKey { issuer: PacketIssuer::Server, packet_id };
            &&& routes.insert(client, entry).contains_key(server) == routes.contains_key(server)
            &&& routes.insert(client, entry)[server] == routes[server]
            &&& routes.remove(client).contains_key(server) == routes.contains_key(server)
            &&& routes.insert(server, entry).contains_key(client) == routes.contains_key(client)
            &&& routes.insert(server, entry)[client] == routes[client]
            &&& routes.remove(server).contains_key(client) == routes.contains_key(client)
        }),
{
}

/// Completing a route that was just opened succeeds on its own path and leaves the ledger
/// as it was before the route was opened.
pub proof fn completion_undoes_insertion(
    routes: Routes,
    key: PacketRouteKey,
    family: TransactionFamily,
    stage: TransactionStage,
    path: ReplyPath,
)
    requires
        checked_insert(routes, key, family, stage) is Ok,
    ensures
        ({
            let opened = routes.insert(key, PacketRouteEntry { family, stage, path });
            &&& checked_route(opened, key, family, stage, path) == Ok::<
                PacketRouteEntry,
                RouteError,
            >(PacketRouteEntry { family, stage, path })
            &&& opened.remove(key) == routes
        }),
{
    assert(routes.insert(key, PacketRouteEntry { family, stage, path }).remove(key) =~= routes);
}

/// An open route can be reached on no path but its own: on any other, validation,
/// advancement, completion and duplicates are all refused as coming from the wrong flow.
pub proof fn routes_answer_on_their_own_path_only(
    routes: Routes,
    key: PacketRouteKey,
    family: TransactionFamily,
    stage: TransactionStage,
    next_stage: TransactionStage,
    path: ReplyPath,
)
    requires
        routes.contains_key(key),
        routes[key].path != path,
        stage.family() == family,
        next_stage.family() == family,
    ensures
        ({
            let refused = RouteError::WrongFlow { key, expected: routes[key].path, actual: path };
            &&& checked_route(routes, key, family, stage, path) == Err::<
                PacketRouteEntry,
                RouteError,
            >(refused)
            &&& checked_transition(routes, key, family, stage, next_stage, path) == Err::<
                PacketRouteEntry,
                RouteError,
            >(refused)
            &&& checked_insert_or_duplicate(routes, key, family, stage, path, true) == Err::<
                bool,
                RouteError,
            >(refused)
        }),
{
}

/// Advancing a route changes neither its path nor its family, nor any other route.
pub proof fn transition_keeps_the_path(
    routes: Routes,
    key: PacketRouteKey,
    family: TransactionFamily,
    stage: TransactionStage,
    next_stage: TransactionStage,
    path: ReplyPath,
    other: PacketRouteKey,
)
    requires
        checked_transition(routes, key, family, stage, next_stage, path) is Ok,
    ensures
        ({
            let next = checked_transition(routes, key, family, stage, next_stage, path)->Ok_0;
            let after = routes.insert(key, next);
            &&& after[key].path == routes[key].path
            &&& after[key].family == routes[key].family
            &&& after[key].stage == next_stage
            &&& after.dom() == routes.dom()
            &&& other != key ==> after[other] == routes[other]
        }),
{
    let next = checked_transition(routes, key, family, stage, next_stage, path)->Ok_0;
    assert(routes.insert(key, next).dom() =~= routes.dom());
}

/// A packet identifier can be used again only once its transaction has been removed.
pub proof fn identifiers_are_reusable_after_removal(
    routes: Routes,
    key: PacketRouteKey,
    family: TransactionFamily,
    stage: TransactionStage,
)
    requires
        stage.family() == family,
    ensures
        (checked_insert(routes, key, family, stage) is Ok) == !routes.contains_key(key),
        checked_insert(routes.remove(key), key, family, stage) is Ok,
{
}

/// Once the routes of a flow have been removed, none runs on it in any generation, and the
/// routes of other flows are as before.
pub proof fn flow_removal_is_exact(routes: Routes, flow_id: FlowId, key: PacketRouteKey)
    ensures
        !flow_in_use(without_flow(routes, flow_id), flow_id),
        routes.contains_key(key) && routes[key].path.flow_id != flow_id ==> without_flow(
            routes,
            flow_id,
        ).contains_key(key) && without_flow(routes, flow_id)[key] == routes[key],
{
}

/// The stages of a QoS 1 message, of a QoS 2 message, of SUBSCRIBE and of UNSUBSCRIBE are told
/// apart: each stage belongs to the transaction that its packets are part of.
pub proof fn stages_belong_to_their_transactions()
    ensures
        TransactionStage::PublishQos1AwaitPuback.family() == TransactionFamily::PublishQos1,
        TransactionStage::PublishQos2AwaitPubrec.family() == TransactionFamily::PublishQos2,
        TransactionStage::PublishQos2AwaitPubrel.family() == TransactionFamily::PublishQos2,
        TransactionStage::PublishQos2AwaitPubcomp.family() == TransactionFamily::PublishQos2,
        TransactionStage::SubscribeAwaitSuback.family() == TransactionFamily::Subscribe,
        TransactionStage::UnsubscribeAwaitUnsuback.family() == TransactionFamily::Unsubscribe,
{
}

/// An open route is found by its family, stage and path. Whatever does not fit is named: a key
/// without a route, another family, another stage; a stage that is not one of the family is
/// refused before anything is looked for.
pub proof fn open_routes_are_found(
    routes: Routes,
    key: PacketRouteKey,
    entry: PacketRouteEntry,
    family: TransactionFamily,
    stage: TransactionStage,
)
    requires
        entry.stage.family() == entry.family,
        stage.family() == family,
    ensures
        ({
            let opened = routes.insert(key, entry);
            &&& checked_route(opened, key, entry.family, entry.stage, entry.path) == Ok::<
                PacketRouteEntry,
                RouteError,
            >(entry)
            &&& family != entry.family ==> checked_route(opened, key, family, stage, entry.path)
                == Err::<PacketRouteEntry, RouteError>(
                RouteError::WrongFamily { key, expected: entry.family, actual: family },
            )
            &&& family == entry.family && stage != entry.stage ==> checked_route(
                opened,
                key,
                family,
                stage,
                entry.path,
            ) == Err::<PacketRouteEntry, RouteError>(
                RouteError::WrongStage { key, expected: entry.stage, actual: stage },
            )
            &&& family != entry.family ==> checked_route(
                opened,
                key,
                entry.family,
                stage,
                entry.path,
            ) == Err::<PacketRouteEntry, RouteError>(
                RouteError::WrongFamilyStage { family: entry.family, stage },
            )
            &&& checked_route(routes.remove(key), key, family, stage, entry.path) == Err::<
                PacketRouteEntry,
                RouteError,
            >(RouteError::NotFound { key })
        }),
{
}

/// A transaction is opened under an identifier that is free. Under one that is taken it is
/// refused as a conflict that shows the open route, unless it is a duplicate of that very
/// transaction on its own path, which is recognised as such.
pub proof fn taken_identifiers_are_refused(
    routes: Routes,
    key: PacketRouteKey,
    entry: PacketRouteEntry,
    family: TransactionFamily,
    stage: TransactionStage,
    path: ReplyPath,
    duplicate: bool,
)
    requires
        stage.family() == family,
        entry.stage.family() == entry.family,
    ensures
        ({
            let free = routes.remove(key);
            let taken = routes.insert(key, entry);
            &&& checked_insert(free, key, family, stage) == Ok::<(), RouteError>(())
            &&& checked_insert(taken, key, family, stage) == Err::<(), RouteError>(
                RouteError::Conflict { key, existing: entry },
            )
            &&& checked_insert_or_duplicate(free, key, family, stage, path, duplicate) == Ok::<
                bool,
                RouteError,
            >(true)
            &&& checked_insert_or_duplicate(taken, key, family, stage, path, false) == Err::<
                bool,
                RouteError,
            >(RouteError::Conflict { key, existing: entry })
            &&& checked_insert_or_duplicate(
                taken,
                key,
                entry.family,
                entry.stage,
                entry.path,
                true,
            ) == Ok::<bool, RouteError>(false)
            &&& family == entry.family && stage != entry.stage ==> checked_insert_or_duplicate(
                taken,
                key,
                family,
                stage,
                entry.path,
                true,
            ) == Err::<bool, RouteError>(
                RouteError::WrongStage { key, expected: entry.stage, actual: stage },
            )
        }),
{
}

/// A route moves on from the stage that it is at to the next one of its family, on its path;
/// from another stage it does not move.
pub proof fn routes_move_on_from_their_stage(
    routes: Routes,
    key: PacketRouteKey,
    entry: PacketRouteEntry,
    stage: TransactionStage,
    next_stage: TransactionStage,
)
    requires
        entry.stage.family() == entry.family,
        stage.family() == entry.family,
        next_stage.family() == entry.family,
    ensures
        ({
            let opened = routes.insert(key, entry);
            &&& checked_transition(
                opened,
                key,
                entry.family,
                entry.stage,
                next_stage,
                entry.path,
            ) == Ok::<PacketRouteEntry, RouteError>(
                PacketRouteEntry { family: entry.family, stage: next_stage, path: entry.path },
            )
            &&& stage != entry.stage ==> checked_transition(
                opened,
                key,
                entry.family,
                stage,
                next_stage,
                entry.path,
            ) == Err::<PacketRouteEntry, RouteError>(
                RouteError::WrongStage { key, expected: entry.stage, actual: stage },
            )
            &&& checked_transition(
                routes.remove(key),
                key,
                entry.family,
                stage,
                next_stage,
                entry.path,
            ) == Err::<PacketRouteEntry, RouteError>(RouteError::NotFound { key })
        }),
{
}

/// Removing the routes of a flow, or of one path, removes those and leaves all others as they
/// are; a flow or path is in use exactly while one of its routes is open.
pub proof fn removals_are_exact(
    routes: Routes,
    key: PacketRouteKey,
    path: ReplyPath,
    flow_id: FlowId,
)
    ensures
        without_flow(routes, flow_id).contains_key(key) <==> routes.contains_key(key)
            && routes[key].path.flow_id.0 != flow_id.0,
        without_flow(routes, flow_id).contains_key(key) ==> without_flow(routes, flow_id)[key]
            == routes[key],
        without_path(routes, path).contains_key(key) <==> routes.contains_key(key)
            && routes[key].path != path,
        without_path(routes, path).contains_key(key) ==> without_path(routes, path)[key]
            == routes[key],
        routes.contains_key(key) ==> flow_in_use(routes, routes[key].path.flow_id) && path_in_use(
            routes,
            routes[key].path,
        ),
        !flow_in_use(without_flow(routes, flow_id), flow_id),
        !path_in_use(without_path(routes, path), path),
{
}

} // verus!
