//! Tickets for resuming QUIC connections, each of which can be used once.
//!
//! A ticket is kept under a key that starts with the fingerprint of the settings
//! under which it was issued, so that it cannot be resumed under others. It is
//! given up after its lifetime, when it is taken, and when newer tickets need its
//! place.

use std::collections::VecDeque;

use vstd::prelude::*;

use crate::assoc::Table;
use crate::time::{Duration, Instant};

verus! {

/// Start value of the FNV-1a hash.
pub const FNV_OFFSET: u64 = 0xcbf2_9ce4_8422_2325;

/// Multiplier of the FNV-1a hash.
pub const FNV_PRIME: u64 = 0x0000_0100_0000_01b3;

/// Differences of the start values of the four lanes from that of the first.
pub const LANE_1: u64 = 0x9e37_79b9_7f4a_7c15;

/// See [`LANE_1`].
pub const LANE_2: u64 = 0xc2b2_ae3d_27d4_eb4f;

/// See [`LANE_1`].
pub const LANE_3: u64 = 0x1656_67b1_9e37_79f9;

/// One round of the hash.
pub open spec fn mixed(lane: u64, word: u64) -> u64 {
    (lane ^ word).wrapping_mul(FNV_PRIME)
}

/// The rounds of the hash over `bytes`.
pub open spec fn absorbed(lane: u64, bytes: Seq<u8>) -> u64
    decreases bytes.len(),
{
    if bytes.len() == 0 {
        lane
    } else {
        mixed(absorbed(lane, bytes.drop_last()), bytes.last() as u64)
    }
}

/// A lane after one chunk of input, the length of which closes it.
pub open spec fn updated(lane: u64, chunk: Seq<u8>) -> u64 {
    mixed(absorbed(lane, chunk), chunk.len() as u64)
}

/// A lane after the chunks of an input.
pub open spec fn hashed(lane: u64, chunks: Seq<Seq<u8>>) -> u64
    decreases chunks.len(),
{
    if chunks.len() == 0 {
        lane
    } else {
        updated(hashed(lane, chunks.drop_last()), chunks.last())
    }
}

/// Number as eight bytes, least significant first.
pub open spec fn number_bytes(number: u64) -> Seq<u8> {
    vstd::bytes::spec_u64_to_le_bytes(number)
}

/// The chunks of a byte string under a tag.
pub open spec fn tagged_bytes(tag: u8, value: Seq<u8>) -> Seq<Seq<u8>> {
    seq![seq![tag], number_bytes(value.len() as u64), value]
}

/// The chunks of a number under a tag.
pub open spec fn tagged_number(tag: u8, value: u64) -> Seq<Seq<u8>> {
    seq![seq![tag], number_bytes(value)]
}

/// The chunks of the protocol names.
pub open spec fn tagged_protocols(protocols: Seq<Seq<u8>>) -> Seq<Seq<u8>>
    decreases protocols.len(),
{
    if protocols.len() == 0 {
        Seq::empty()
    } else {
        tagged_protocols(protocols.drop_last()) + tagged_bytes(2, protocols.last())
    }
}

/// The input of a profile fingerprint.
pub open spec fn profile_chunks(
    protocols: Seq<Seq<u8>>,
    initial_max_bidi_streams: u64,
    initial_max_uni_streams: u64,
    pre_finished_read_budget: u64,
    credential_auth_policy_epoch: u64,
    multistream_mode: Seq<u8>,
) -> Seq<Seq<u8>> {
    tagged_bytes(1, vstd::utf8::encode_utf8("rmqtt-net/quic-0rtt-profile/v1"@)) + tagged_protocols(protocols)
        + tagged_number(3, initial_max_bidi_streams) + tagged_number(4, initial_max_uni_streams)
        + tagged_number(5, pre_finished_read_budget) + tagged_number(
        6,
        credential_auth_policy_epoch,
    ) + tagged_bytes(7, multistream_mode)
}

/// The four lanes of the hash as bytes.
pub open spec fn lanes_bytes(chunks: Seq<Seq<u8>>) -> Seq<u8> {
    number_bytes(hashed(FNV_OFFSET, chunks)) + number_bytes(hashed(FNV_OFFSET ^ LANE_1, chunks))
        + number_bytes(hashed(FNV_OFFSET ^ LANE_2, chunks)) + number_bytes(
        hashed(FNV_OFFSET ^ LANE_3, chunks),
    )
}

struct StableHasher {
    lane_0: u64,
    lane_1: u64,
    lane_2: u64,
    lane_3: u64,
    chunks: Ghost<Seq<Seq<u8>>>,
}

impl StableHasher {
    spec fn wf(&self) -> bool {
        &&& self.lane_0 == hashed(FNV_OFFSET, self.chunks@)
        &&& self.lane_1 == hashed(FNV_OFFSET ^ LANE_1, self.chunks@)
        &&& self.lane_2 == hashed(FNV_OFFSET ^ LANE_2, self.chunks@)
        &&& self.lane_3 == hashed(FNV_OFFSET ^ LANE_3, self.chunks@)
    }

    fn new() -> (hasher: StableHasher)
        ensures
            hasher.wf(),
            hasher.chunks@ == Seq::<Seq<u8>>::empty(),
    {
        StableHasher {
            lane_0: FNV_OFFSET,
            lane_1: FNV_OFFSET ^ LANE_1,
            lane_2: FNV_OFFSET ^ LANE_2,
            lane_3: FNV_OFFSET ^ LANE_3,
            chunks: Ghost(Seq::empty()),
        }
    }

    fn update_tagged_bytes(&mut self, tag: u8, value: &[u8])
        requires
            old(self).wf(),
        ensures
            final(self).wf(),
            final(self).chunks@ == old(self).chunks@ + tagged_bytes(tag, value@),
    {
        let tags: [u8; 1] = [tag];
        self.update(&tags);
        self.update(vstd::bytes::u64_to_le_bytes(value.len() as u64).as_slice());
        self.update(value);
        assert(tags@ =~= seq![tag]);
        assert(self.chunks@ =~= old(self).chunks@ + tagged_bytes(tag, value@));
    }

    fn update_tagged_u64(&mut self, tag: u8, value: u64)
        requires
            old(self).wf(),
        ensures
            final(self).wf(),
            final(self).chunks@ == old(self).chunks@ + tagged_number(tag, value),
    {
        let tags: [u8; 1] = [tag];
        self.update(&tags);
        self.update(vstd::bytes::u64_to_le_bytes(value).as_slice());
        assert(tags@ =~= seq![tag]);
        assert(self.chunks@ =~= old(self).chunks@ + tagged_number(tag, value));
    }

    fn update(&mut self, bytes: &[u8])
        requires
            old(self).wf(),
        ensures
            final(self).wf(),
            final(self).chunks@ == old(self).chunks@.push(bytes@),
    {
        self.lane_0 = update_lane(self.lane_0, bytes);
        self.lane_1 = update_lane(self.lane_1, bytes);
        self.lane_2 = update_lane(self.lane_2, bytes);
        self.lane_3 = update_lane(self.lane_3, bytes);
        self.chunks = Ghost(self.chunks@.push(bytes@));
        assert(self.chunks@.drop_last() =~= old(self).chunks@);
    }

    fn finish(self) -> (bytes: [u8; 32])
        requires
            self.wf(),
        ensures
            bytes@ == lanes_bytes(self.chunks@),
    {
        let mut bytes: [u8; 32] = [0;32];
        put_lane(&mut bytes, 0, self.lane_0);
        put_lane(&mut bytes, 8, self.lane_1);
        put_lane(&mut bytes, 16, self.lane_2);
        put_lane(&mut bytes, 24, self.lane_3);
        proof {
            vstd::bytes::lemma_auto_spec_u64_to_from_le_bytes();
            assert(bytes@ =~= lanes_bytes(self.chunks@));
        }
        bytes
    }
}

fn update_lane(start: u64, bytes: &[u8]) -> (lane: u64)
    ensures
        lane == updated(start, bytes@),
{
    let mut lane: u64 = start;
    let mut i: usize = 0;
    while i < bytes.len()
        invariant
            i <= bytes.len(),
            lane == absorbed(start, bytes@.take(i as int)),
        decreases bytes.len() - i,
    {
        assert(bytes@.take(i as int + 1).drop_last() =~= bytes@.take(i as int));
        lane = (lane ^ (bytes[i] as u64)).wrapping_mul(FNV_PRIME);
        i = i + 1;
    }
    assert(bytes@.take(bytes@.len() as int) =~= bytes@);
    (lane ^ (bytes.len() as u64)).wrapping_mul(FNV_PRIME)
}

fn put_lane(bytes: &mut [u8; 32], start: usize, lane: u64)
    requires
        start <= 24,
    ensures
        forall|i: int|
            0 <= i < 32 ==> #[trigger] final(bytes)@[i] == (if start <= i < start + 8 {
                number_bytes(lane)[i - start]
            } else {
                old(bytes)@[i]
            }),
{
    let lane_bytes = vstd::bytes::u64_to_le_bytes(lane);
    proof {
        vstd::bytes::lemma_auto_spec_u64_to_from_le_bytes();
    }
    let mut i: usize = 0;
    while i < 8
        invariant
            i <= 8,
            start <= 24,
            lane_bytes@ == number_bytes(lane),
            lane_bytes@.len() == 8,
            forall|j: int|
                0 <= j < 32 ==> #[trigger] bytes@[j] == (if start <= j < start + i {
                    number_bytes(lane)[j - start]
                } else {
                    old(bytes)@[j]
                }),
        decreases 8 - i,
    {
        bytes[start + i] = lane_bytes[i];
        i = i + 1;
    }
}

/// Stable fingerprint of settings that must match before a QUIC ticket can be resumed.
#[derive(Clone, Copy, Debug, PartialEq, Eq, Hash)]
pub struct ZeroRttProfileFingerprint(pub [u8; 32]);

impl ZeroRttProfileFingerprint {
    /// Builds a fingerprint from an already-derived 32-byte value.
    pub fn from_bytes(bytes: [u8; 32]) -> (fingerprint: ZeroRttProfileFingerprint)
        ensures
            fingerprint.0@ == bytes@,
    {
        ZeroRttProfileFingerprint(bytes)
    }

    /// Derives a fingerprint from every transport and authentication setting that affects
    /// 0-RTT safety.
    pub fn new(
        alpn_protocols: &[&[u8]],
        initial_max_bidi_streams: u64,
        initial_max_uni_streams: u64,
        pre_finished_read_budget: u64,
        credential_auth_policy_epoch: u64,
        multistream_mode: &str,
    ) -> (fingerprint: ZeroRttProfileFingerprint)
        ensures
            fingerprint.0@ == lanes_bytes(
                profile_chunks(
                    alpn_protocols@.map_values(|name: &[u8]| name@),
                    initial_max_bidi_streams,
                    initial_max_uni_streams,
                    pre_finished_read_budget,
                    credential_auth_policy_epoch,
                    vstd::utf8::encode_utf8(multistream_mode@),
                ),
            ),
    {
        let ghost names = alpn_protocols@.map_values(|name: &[u8]| name@);
        let ghost head = tagged_bytes(1, vstd::utf8::encode_utf8("rmqtt-net/quic-0rtt-profile/v1"@));
        let mut hasher = StableHasher::new();
        hasher.update_tagged_bytes(1, "rmqtt-net/quic-0rtt-profile/v1".as_bytes());
        assert(hasher.chunks@ =~= head + tagged_protocols(names.take(0)));
        let mut i: usize = 0;
        while i < alpn_protocols.len()
            invariant
                i <= alpn_protocols.len(),
                names == alpn_protocols@.map_values(|name: &[u8]| name@),
                hasher.wf(),
                hasher.chunks@ == head + tagged_protocols(names.take(i as int)),
            decreases alpn_protocols.len() - i,
        {
            proof {
                assert(names.take(i as int + 1).drop_last() =~= names.take(i as int));
                assert(names[i as int] == alpn_protocols@[i as int]@);
            }
            let ghost before = hasher.chunks@;
            hasher.update_tagged_bytes(2, alpn_protocols[i]);
            assert(hasher.chunks@ =~= head + tagged_protocols(names.take(i as int + 1)));
            i = i + 1;
        }
        assert(names.take(names.len() as int) =~= names);
        hasher.update_tagged_u64(3, initial_max_bidi_streams);
        hasher.update_tagged_u64(4, initial_max_uni_streams);
        hasher.update_tagged_u64(5, pre_finished_read_budget);
        hasher.update_tagged_u64(6, credential_auth_policy_epoch);
        hasher.update_tagged_bytes(7, multistream_mode.as_bytes());
        ZeroRttProfileFingerprint(hasher.finish())
    }

    /// Derives the standard MQTT-over-QUIC profile with one bidirectional control stream.
    pub fn mqtt_quic(
        alpn_protocols: &[&[u8]],
        pre_finished_read_budget: u64,
        credential_auth_policy_epoch: u64,
        multistream_mode: &str,
    ) -> (fingerprint: ZeroRttProfileFingerprint)
        ensures
            fingerprint.0@ == lanes_bytes(
                profile_chunks(
                    alpn_protocols@.map_values(|name: &[u8]| name@),
                    1,
                    0,
                    pre_finished_read_budget,
                    credential_auth_policy_epoch,
                    vstd::utf8::encode_utf8(multistream_mode@),
                ),
            ),
    {
        ZeroRttProfileFingerprint::new(
            alpn_protocols,
            1,
            0,
            pre_finished_read_budget,
            credential_auth_policy_epoch,
            multistream_mode,
        )
    }

    /// Returns the fingerprint bytes used to namespace session-ticket keys.
    pub fn as_bytes(&self) -> (bytes: &[u8; 32])
        ensures
            bytes@ == self.0@,
    {
        &self.0
    }
}

/// A ticket as the rules see it.
pub struct TicketView {
    /// Secret of the ticket.
    pub value: Seq<u8>,
    /// Instant from which on the ticket is void.
    pub expires_at: Instant,
    /// Number of the insertion that put the ticket in.
    pub generation: u64,
}

/// A store as the rules see it.
#[verifier::ext_equal]
pub struct StoreView {
    /// Tickets by their keys.
    pub sessions: Map<Seq<u8>, TicketView>,
    /// Insertions in order, with key and number. An insertion whose ticket is gone or has been
    /// replaced is a tombstone.
    pub order: Seq<(Seq<u8>, u64)>,
    /// Number of the next insertion.
    pub next_generation: u64,
}

/// Whether the ticket that the insertion put in is still there.
pub open spec fn live(sessions: Map<Seq<u8>, TicketView>, record: (Seq<u8>, u64)) -> bool {
    sessions.contains_key(record.0) && sessions[record.0].generation == record.1
}

/// The tickets that are not void at `now`.
pub open spec fn unexpired(sessions: Map<Seq<u8>, TicketView>, now: Instant) -> Map<
    Seq<u8>,
    TicketView,
> {
    Map::new(
        |key: Seq<u8>| sessions.contains_key(key) && sessions[key].expires_at.nanos > now.nanos,
        |key: Seq<u8>| sessions[key],
    )
}

/// What is left once the oldest tickets have made place: at most `capacity` of them.
pub open spec fn evicted(
    sessions: Map<Seq<u8>, TicketView>,
    order: Seq<(Seq<u8>, u64)>,
    capacity: nat,
) -> (Map<Seq<u8>, TicketView>, Seq<(Seq<u8>, u64)>)
    decreases order.len(),
{
    if sessions.dom().len() <= capacity || order.len() == 0 {
        (sessions, order)
    } else {
        let oldest = order[0];
        evicted(
            if live(sessions, oldest) {
                sessions.remove(oldest.0)
            } else {
                sessions
            },
            order.drop_first(),
            capacity,
        )
    }
}

/// Tombstones that a store may keep before it drops them.
pub open spec fn tombstone_budget(capacity: nat) -> nat {
    if 2 * capacity >= 64 {
        2 * capacity
    } else {
        64
    }
}

/// The insertions that are kept: all of them, until there are too many tombstones.
pub open spec fn compacted(
    sessions: Map<Seq<u8>, TicketView>,
    order: Seq<(Seq<u8>, u64)>,
    capacity: nat,
) -> Seq<(Seq<u8>, u64)> {
    if order.len() <= sessions.dom().len() + tombstone_budget(capacity) {
        order
    } else {
        order.filter(|record: (Seq<u8>, u64)| live(sessions, record))
    }
}

/// The instant from which on a ticket that is put in at `now` is void. A lifetime that
/// reaches beyond the clock makes the ticket void at once.
pub open spec fn expiry(now: Instant, ttl: Duration) -> Instant {
    match now.plus(ttl) {
        Some(expires_at) => expires_at,
        None => now,
    }
}

impl StoreView {
    /// The store after a ticket has been put in under `key`.
    pub open spec fn after_put(
        self,
        key: Seq<u8>,
        value: Seq<u8>,
        now: Instant,
        ttl: Duration,
        capacity: nat,
    ) -> StoreView {
        let ticket = TicketView {
            value,
            expires_at: expiry(now, ttl),
            generation: self.next_generation,
        };
        let (sessions, order) = evicted(
            unexpired(self.sessions, now).insert(key, ticket),
            self.order.push((key, self.next_generation)),
            capacity,
        );
        StoreView {
            sessions,
            order: compacted(sessions, order, capacity),
            next_generation: self.next_generation.wrapping_add(1),
        }
    }

    /// The store after a ticket has been looked up.
    pub open spec fn after_get(self, now: Instant) -> StoreView {
        StoreView { sessions: unexpired(self.sessions, now), ..self }
    }

    /// The store after the ticket under `key` has been taken.
    pub open spec fn after_take(self, key: Seq<u8>, now: Instant, capacity: nat) -> StoreView {
        let sessions = unexpired(self.sessions, now).remove(key);
        StoreView { sessions, order: compacted(sessions, self.order, capacity), ..self }
    }

    /// The secret of the ticket under `key`, where it is not void.
    pub open spec fn found(self, key: Seq<u8>, now: Instant) -> Option<Seq<u8>> {
        if unexpired(self.sessions, now).contains_key(key) {
            Some(self.sessions[key].value)
        } else {
            None
        }
    }
}

#[derive(Debug)]
struct Ticket {
    value: Vec<u8>,
    expires_at: Instant,
    generation: u64,
}

impl Ticket {
    spec fn seen(self) -> TicketView {
        TicketView {
            value: self.value@,
            expires_at: self.expires_at,
            generation: self.generation,
        }
    }

    fn is_expired(&self, now: Instant) -> (expired: bool)
        ensures
            expired == (self.expires_at.nanos <= now.nanos),
    {
        self.expires_at.nanos <= now.nanos
    }
}

spec fn seen_tickets(tickets: Map<Seq<u8>, Ticket>) -> Map<Seq<u8>, TicketView> {
    tickets.map_values(|ticket: Ticket| ticket.seen())
}

spec fn seen_order(order: Seq<(Vec<u8>, u64)>) -> Seq<(Seq<u8>, u64)> {
    order.map_values(|record: (Vec<u8>, u64)| (record.0@, record.1))
}

fn copy_bytes(bytes: &[u8]) -> (copy: Vec<u8>)
    ensures
        copy@ == bytes@,
{
    let mut copy: Vec<u8> = Vec::with_capacity(bytes.len());
    copy.extend_from_slice(bytes);
    assert(copy@ =~= bytes@);
    copy
}

/// Bounded, profile-scoped store of session tickets, each of which can be taken once.
#[derive(Debug)]
pub struct ReplaySafeServerSessionStore {
    capacity: usize,
    ttl: Duration,
    profile: ZeroRttProfileFingerprint,
    sessions: Table<Vec<u8>, Ticket>,
    order: VecDeque<(Vec<u8>, u64)>,
    next_generation: u64,
}

impl View for ReplaySafeServerSessionStore {
    type V = StoreView;

    closed spec fn view(&self) -> StoreView {
        StoreView {
            sessions: seen_tickets(self.sessions@),
            order: seen_order(self.order@),
            next_generation: self.next_generation,
        }
    }
}

impl ReplaySafeServerSessionStore {
    /// Whether no key occurs twice.
    pub closed spec fn wf(&self) -> bool {
        self.sessions.wf()
    }

    /// Most tickets that the store keeps.
    pub closed spec fn capacity(&self) -> nat {
        self.capacity as nat
    }

    /// Lifetime of a ticket.
    pub closed spec fn ttl(&self) -> Duration {
        self.ttl
    }

    /// Fingerprint of the settings under which the tickets are issued.
    pub closed spec fn profile(&self) -> Seq<u8> {
        self.profile.0@
    }

    /// Whether capacity, lifetime and profile are the same.
    pub open spec fn same_settings(&self, other: &Self) -> bool {
        &&& self.capacity() == other.capacity()
        &&& self.ttl() == other.ttl()
        &&& self.profile() == other.profile()
    }

    /// Creates a replay-safe session store with the supplied capacity, lifetime, and profile.
    pub fn new(capacity: usize, ttl: Duration, profile: ZeroRttProfileFingerprint) -> (store:
        ReplaySafeServerSessionStore)
        ensures
            store.wf(),
            store.capacity() == capacity,
            store.ttl() == ttl,
            store.profile() == profile.0@,
            store@ == (StoreView {
                sessions: Map::empty(),
                order: Seq::empty(),
                next_generation: 0,
            }),
    {
        let store = ReplaySafeServerSessionStore {
            capacity,
            ttl,
            profile,
            sessions: Table::new(),
            order: VecDeque::new(),
            next_generation: 0,
        };
        assert(store@.sessions =~= Map::<Seq<u8>, TicketView>::empty());
        assert(store@.order =~= Seq::<(Seq<u8>, u64)>::empty());
        store
    }

    /// Returns the key under which a ticket is kept: the fingerprint of the profile, and then
    /// the key that TLS gave it.
    pub fn wrapped_key(&self, key: &[u8]) -> (wrapped: Vec<u8>)
        ensures
            self.profile().len() == 32,
            wrapped@ == self.profile() + key@,
    {
        let mut wrapped = copy_bytes(self.profile.0.as_slice());
        wrapped.extend_from_slice(key);
        assert(wrapped@ =~= self.profile() + key@);
        wrapped
    }

    fn purge_expired(&mut self, now: Instant)
        requires
            old(self).wf(),
        ensures
            final(self).wf(),
            final(self).same_settings(old(self)),
            final(self)@ == old(self)@.after_get(now),
            final(self).capacity == old(self).capacity,
            final(self).order == old(self).order,
    {
        let mut i: usize = 0;
        while i < self.sessions.len()
            invariant
                self.wf(),
                self.same_settings(old(self)),
                self.capacity == old(self).capacity,
                self.order == old(self).order,
                self.next_generation == old(self).next_generation,
                i <= self.sessions.listed().len(),
                unexpired(self@.sessions, now) == unexpired(old(self)@.sessions, now),
                forall|j: int|
                    0 <= j < i ==> (#[trigger] self.sessions.listed()[j]).1.expires_at.nanos
                        > now.nanos,
            decreases self.sessions.listed().len() - i,
        {
            if self.sessions.entry(i).1.is_expired(now) {
                let ghost before = self@.sessions;
                let ghost tickets = self.sessions@;
                let entry = self.sessions.remove_at(i);
                proof {
                    assert(seen_tickets(self.sessions@) =~= before.remove(entry.0@));
                    assert(before[entry.0@] == entry.1.seen());
                    assert(unexpired(self@.sessions, now) =~= unexpired(before, now));
                }
            } else {
                i = i + 1;
            }
        }
        proof {
            self.sessions.lemma_listed();
            assert(self@.sessions =~= unexpired(self@.sessions, now)) by {
                assert forall|key: Seq<u8>| self@.sessions.contains_key(key) implies self@.sessions[key].expires_at.nanos
                    > now.nanos by {
                    assert(self.sessions@.contains_key(key));
                }
            }
        }
    }

    fn is_live(&self, key: &Vec<u8>, generation: u64) -> (alive: bool)
        requires
            self.wf(),
        ensures
            alive == live(self@.sessions, (key@, generation)),
    {
        match self.sessions.get(key) {
            Some(ticket) => ticket.generation == generation,
            None => false,
        }
    }

    fn evict_to_capacity(&mut self)
        requires
            old(self).wf(),
        ensures
            final(self).wf(),
            final(self).same_settings(old(self)),
            final(self).capacity == old(self).capacity,
            (final(self)@.sessions, final(self)@.order) == evicted(
                old(self)@.sessions,
                old(self)@.order,
                old(self).capacity as nat,
            ),
            final(self)@.next_generation == old(self)@.next_generation,
    {
        let ghost goal = evicted(self@.sessions, self@.order, self.capacity as nat);
        loop
            invariant
                self.wf(),
                self.same_settings(old(self)),
                self.capacity == old(self).capacity,
                self.next_generation == old(self).next_generation,
                goal == evicted(self@.sessions, self@.order, self.capacity as nat),
            ensures
                self.sessions@.dom().len() <= self.capacity || self.order@.len() == 0,
            decreases self.order@.len(),
        {
            assert(self@.sessions.dom() =~= self.sessions@.dom());
            if self.sessions.len() <= self.capacity {
                break;
            }
            let ghost before = self@;
            match self.order.pop_front() {
                Some((key, generation)) => {
                    proof {
                        assert(before.order[0] == (key@, generation));
                        assert(self@.order =~= before.order.drop_first());
                        assert(self@.sessions == before.sessions);
                    }
                    if self.is_live(&key, generation) {
                        self.sessions.remove(&key);
                        assert(self@.sessions =~= before.sessions.remove(key@));
                    }
                },
                None => {
                    break;
                },
            }
        }
        assert(self@.sessions.dom() =~= self.sessions@.dom());
    }

    fn maybe_compact_order(&mut self)
        requires
            old(self).wf(),
        ensures
            final(self).wf(),
            final(self).same_settings(old(self)),
            final(self).capacity == old(self).capacity,
            final(self)@ == (StoreView {
                order: compacted(
                    old(self)@.sessions,
                    old(self)@.order,
                    old(self).capacity as nat,
                ),
                ..old(self)@
            }),
    {
        assert(self@.sessions.dom() =~= self.sessions@.dom());
        let mut budget: usize = self.capacity.saturating_add(self.capacity);
        if budget < 64 {
            budget = 64;
        }
        if self.order.len() <= self.sessions.len().saturating_add(budget) {
            return ;
        }
        let ghost keep = |record: (Seq<u8>, u64)| live(old(self)@.sessions, record);
        let mut kept: VecDeque<(Vec<u8>, u64)> = VecDeque::new();
        assert(seen_order(kept@) =~= Seq::<(Seq<u8>, u64)>::empty());
        assert(old(self)@.order =~= Seq::<(Seq<u8>, u64)>::empty() + self@.order);
        proof {
            reveal(Seq::filter);
        }
        let ghost mut done: Seq<(Seq<u8>, u64)> = Seq::empty();
        while self.order.len() > 0
            invariant
                self.wf(),
                self.same_settings(old(self)),
                self.capacity == old(self).capacity,
                self.next_generation == old(self).next_generation,
                self.sessions == old(self).sessions,
                keep == (|record: (Seq<u8>, u64)| live(old(self)@.sessions, record)),
                old(self)@.order == done + self@.order,
                seen_order(kept@) == done.filter(keep),
            decreases self.order@.len(),
        {
            let ghost before = self@.order;
            if let Some((key, generation)) = self.order.pop_front() {
                let ghost record = (key@, generation);
                proof {
                    assert(before[0] == record);
                    assert(self@.order =~= before.drop_first());
                    assert(done.push(record) + self@.order =~= done + before);
                    reveal(Seq::filter);
                    assert(done.push(record).drop_last() =~= done);
                    done = done.push(record);
                }
                if self.is_live(&key, generation) {
                    let ghost previous = kept@;
                    kept.push_back((key, generation));
                    assert(seen_order(kept@) =~= seen_order(previous).push(record));
                }
            }
        }
        assert(done =~= old(self)@.order);
        self.order = kept;
    }

    /// Puts a ticket in at `now`; returns whether the store keeps tickets at all.
    pub fn put(&mut self, key: &[u8], value: Vec<u8>, now: Instant) -> (kept: bool)
        requires
            old(self).wf(),
        ensures
            final(self).wf(),
            final(self).same_settings(old(self)),
            kept == (old(self).capacity() > 0),
            final(self)@ == (if kept {
                old(self)@.after_put(
                    old(self).profile() + key@,
                    value@,
                    now,
                    old(self).ttl(),
                    old(self).capacity(),
                )
            } else {
                old(self)@
            }),
    {
        if self.capacity == 0 {
            return false;
        }
        let wrapped = self.wrapped_key(key);
        self.purge_expired(now);
        let generation: u64 = self.next_generation;
        self.next_generation = generation.wrapping_add(1);
        let ghost order = self@.order;
        self.order.push_back((copy_bytes(wrapped.as_slice()), generation));
        assert(self@.order =~= order.push((wrapped@, generation)));
        let expires_at = match now.checked_add(self.ttl) {
            Some(expires_at) => expires_at,
            None => now,
        };
        let ghost sessions = self@.sessions;
        let ticket = Ticket { value, expires_at, generation };
        let ghost seen = ticket.seen();
        let ghost text = wrapped@;
        self.sessions.insert(wrapped, ticket);
        assert(self@.sessions =~= sessions.insert(text, seen));
        self.evict_to_capacity();
        self.maybe_compact_order();
        true
    }

    /// Looks a ticket up at `now` and leaves it in.
    pub fn get(&mut self, key: &[u8], now: Instant) -> (value: Option<Vec<u8>>)
        requires
            old(self).wf(),
        ensures
            final(self).wf(),
            final(self).same_settings(old(self)),
            final(self)@ == old(self)@.after_get(now),
            match value {
                Some(value) => old(self)@.found(old(self).profile() + key@, now) == Some(value@),
                None => old(self)@.found(old(self).profile() + key@, now) is None,
            },
    {
        let wrapped = self.wrapped_key(key);
        self.purge_expired(now);
        match self.sessions.get(&wrapped) {
            Some(ticket) => {
                assert(self@.sessions[wrapped@] == ticket.seen());
                Some(copy_bytes(ticket.value.as_slice()))
            },
            None => None,
        }
    }

    /// Takes a ticket out at `now`.
    pub fn take(&mut self, key: &[u8], now: Instant) -> (value: Option<Vec<u8>>)
        requires
            old(self).wf(),
        ensures
            final(self).wf(),
            final(self).same_settings(old(self)),
            final(self)@ == old(self)@.after_take(
                old(self).profile() + key@,
                now,
                old(self).capacity(),
            ),
            match value {
                Some(value) => old(self)@.found(old(self).profile() + key@, now) == Some(value@),
                None => old(self)@.found(old(self).profile() + key@, now) is None,
            },
    {
        let wrapped = self.wrapped_key(key);
        self.purge_expired(now);
        let ghost sessions = self@.sessions;
        let value = match self.sessions.remove(&wrapped) {
            Some((_, ticket)) => {
                assert(sessions[wrapped@] == ticket.seen());
                Some(ticket.value)
            },
            None => None,
        };
        assert(self@.sessions =~= sessions.remove(wrapped@));
        self.maybe_compact_order();
        value
    }

    /// Returns whether tickets can be stored: always, as far as TLS is concerned.
    pub fn can_cache(&self) -> (can: bool)
        ensures
            can,
    {
        true
    }

    /// Returns the number of tickets, the void ones among them that nobody has looked for.
    pub fn len(&self) -> (count: usize)
        requires
            self.wf(),
        ensures
            self@.sessions.dom().finite(),
            count == self@.sessions.dom().len(),
    {
        assert(self@.sessions.dom() =~= self.sessions@.dom());
        self.sessions.len()
    }

    /// Returns the number of insertions that are remembered.
    pub fn order_len(&self) -> (count: usize)
        ensures
            count == self@.order.len(),
    {
        self.order.len()
    }
}

} // verus!
