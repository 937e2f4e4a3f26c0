//! What holds of a ticket store over any sequence of operations.

use vstd::prelude::*;

use crate::quic_session_store::{StoreView, TicketView};
use crate::time::{Duration, Instant};

verus! {

/// Whether the insertions are numbered in order, each below `bound`.
pub open spec fn numbered(order: Seq<(Seq<u8>, u64)>, bound: u64) -> bool {
    &&& forall|i: int| 0 <= i < order.len() ==> (#[trigger] order[i]).1 < bound
    &&& forall|i: int, j: int|
        0 <= i < j < order.len() ==> (#[trigger] order[i]).1 < (#[trigger] order[j]).1
}

/// Whether the insertion of each ticket is remembered.
pub open spec fn remembered(
    sessions: Map<Seq<u8>, TicketView>,
    order: Seq<(Seq<u8>, u64)>,
) -> bool {
    forall|key: Seq<u8>| #[trigger]
        sessions.contains_key(key) ==> order.contains((key, sessions[key].generation))
}

/// What holds of a store between operations.
pub open spec fn sound(store: StoreView, capacity: nat) -> bool {
    &&& store.sessions.dom().finite()
    &&& store.sessions.dom().len() <= capacity
    &&& remembered(store.sessions, store.order)
    &&& numbered(store.order, store.next_generation)
}

proof fn lemma_unexpired(sessions: Map<Seq<u8>, TicketView>, now: Instant)
    requires
        sessions.dom().finite(),
    ensures
        crate::quic_session_store::unexpired(sessions, now).dom().finite(),
        crate::quic_session_store::unexpired(sessions, now).dom().len() <= sessions.dom().len(),
{
    let kept = crate::quic_session_store::unexpired(sessions, now);
    assert(kept.dom().subset_of(sessions.dom()));
    vstd::set_lib::lemma_len_subset(kept.dom(), sessions.dom());
}

proof fn lemma_filter(
    sessions: Map<Seq<u8>, TicketView>,
    order: Seq<(Seq<u8>, u64)>,
    keep: spec_fn((Seq<u8>, u64)) -> bool,
    bound: u64,
)
    requires
        keep == (|record: (Seq<u8>, u64)| crate::quic_session_store::live(sessions, record)),
        numbered(order, bound),
    ensures
        numbered(order.filter(keep), bound),
        forall|i: int|
            0 <= i < order.filter(keep).len() ==> crate::quic_session_store::live(
                sessions,
                #[trigger] order.filter(keep)[i],
            ) && order.contains(order.filter(keep)[i]),
        forall|record: (Seq<u8>, u64)|
            order.contains(record) && crate::quic_session_store::live(sessions, record)
                ==> #[trigger] order.filter(keep).contains(record),
    decreases order.len(),
{
    reveal(Seq::filter);
    if order.len() > 0 {
        let rest = order.drop_last();
        lemma_filter(sessions, rest, keep, bound);
        let out = order.filter(keep);
        let sub = rest.filter(keep);
        assert forall|i: int| 0 <= i < out.len() implies crate::quic_session_store::live(
            sessions,
            #[trigger] out[i],
        ) && order.contains(out[i]) by {
            if i < sub.len() {
                assert(out[i] == sub[i]);
                let j = choose|j: int| 0 <= j < rest.len() && rest[j] == sub[i];
                assert(order[j] == out[i]);
            } else {
                assert(order[order.len() - 1] == out[i]);
            }
        }
        assert forall|i: int, j: int| 0 <= i < j < out.len() implies (#[trigger] out[i]).1 < (
        #[trigger] out[j]).1 by {
            assert(out[i] == sub[i]);
            if j < sub.len() {
                assert(out[j] == sub[j]);
            } else {
                assert(rest.contains(sub[i]));
                let k = choose|k: int| 0 <= k < rest.len() && rest[k] == sub[i];
                assert(order[k].1 < order[order.len() - 1].1);
            }
        }
        assert forall|record: (Seq<u8>, u64)|
            order.contains(record) && crate::quic_session_store::live(
                sessions,
                record,
            ) implies #[trigger] out.contains(record) by {
            let j = choose|j: int| 0 <= j < order.len() && order[j] == record;
            if j < rest.len() {
                assert(rest[j] == record);
                assert(sub.contains(record));
                let k = choose|k: int| 0 <= k < sub.len() && sub[k] == record;
                assert(out[k] == record);
            } else {
                assert(out[out.len() - 1] == record);
            }
        }
    }
}

proof fn lemma_live_records_are_few(
    sessions: Map<Seq<u8>, TicketView>,
    order: Seq<(Seq<u8>, u64)>,
    bound: u64,
)
    requires
        sessions.dom().finite(),
        numbered(order, bound),
        forall|i: int|
            0 <= i < order.len() ==> crate::quic_session_store::live(
                sessions,
                #[trigger] order[i],
            ),
    ensures
        order.len() <= sessions.dom().len(),
{
    let keys = order.map_values(|record: (Seq<u8>, u64)| record.0);
    assert(keys.no_duplicates()) by {
        assert forall|i: int, j: int|
            0 <= i < keys.len() && 0 <= j < keys.len() && i != j implies keys[i] != keys[j] by {
            if i < j {
                assert(order[i].1 < order[j].1);
            } else {
                assert(order[j].1 < order[i].1);
            }
        }
    }
    keys.unique_seq_to_set();
    assert(keys.to_set().subset_of(sessions.dom())) by {
        assert forall|key: Seq<u8>| keys.to_set().contains(key) implies sessions.dom().contains(
            key,
        ) by {
            let i = choose|i: int| 0 <= i < keys.len() && keys[i] == key;
            assert(crate::quic_session_store::live(sessions, order[i]));
        }
    }
    vstd::set_lib::lemma_len_subset(keys.to_set(), sessions.dom());
}

proof fn lemma_compacted(
    sessions: Map<Seq<u8>, TicketView>,
    order: Seq<(Seq<u8>, u64)>,
    capacity: nat,
    bound: u64,
)
    requires
        sessions.dom().finite(),
        remembered(sessions, order),
        numbered(order, bound),
    ensures
        remembered(sessions, crate::quic_session_store::compacted(sessions, order, capacity)),
        numbered(crate::quic_session_store::compacted(sessions, order, capacity), bound),
        crate::quic_session_store::compacted(sessions, order, capacity).len()
            <= sessions.dom().len() + crate::quic_session_store::tombstone_budget(capacity),
{
    let keep = |record: (Seq<u8>, u64)| crate::quic_session_store::live(sessions, record);
    lemma_filter(sessions, order, keep, bound);
    let filtered = order.filter(keep);
    lemma_live_records_are_few(sessions, filtered, bound);
    assert forall|key: Seq<u8>| #[trigger] sessions.contains_key(key) implies filtered.contains(
        (key, sessions[key].generation),
    ) by {
        assert(crate::quic_session_store::live(sessions, (key, sessions[key].generation)));
    }
}

proof fn lemma_evicted(
    sessions: Map<Seq<u8>, TicketView>,
    order: Seq<(Seq<u8>, u64)>,
    capacity: nat,
    bound: u64,
)
    requires
        sessions.dom().finite(),
        remembered(sessions, order),
        numbered(order, bound),
    ensures
        ({
            let (kept, rest) = crate::quic_session_store::evicted(sessions, order, capacity);
            &&& kept.dom().finite()
            &&& kept.dom().len() <= capacity
            &&& sessions.dom().len() >= capacity ==> kept.dom().len() >= capacity
            &&& sessions.dom().len() <= capacity ==> kept == sessions
            &&& remembered(kept, rest)
            &&& numbered(rest, bound)
            &&& forall|key: Seq<u8>| #[trigger]
                kept.contains_key(key) ==> sessions.contains_key(key) && kept[key]
                    == sessions[key]
            &&& forall|key: Seq<u8>, gone: Seq<u8>|
                kept.contains_key(key) && sessions.contains_key(gone) && !kept.contains_key(gone)
                    ==> (#[trigger] sessions[gone]).generation < (
                #[trigger] sessions[key]).generation
            &&& capacity > 0 && order.len() > 0 && crate::quic_session_store::live(
                sessions,
                order.last(),
            ) ==> kept.contains_key(order.last().0)
        }),
    decreases order.len(),
{
    if order.len() == 0 {
        assert(sessions.dom() =~= Set::empty()) by {
            assert forall|key: Seq<u8>| !sessions.dom().contains(key) by {
                if sessions.contains_key(key) {
                    assert(order.contains((key, sessions[key].generation)));
                }
            }
        }
    } else if sessions.dom().len() > capacity {
        let oldest = order[0];
        let rest = order.drop_first();
        let left = if crate::quic_session_store::live(sessions, oldest) {
            sessions.remove(oldest.0)
        } else {
            sessions
        };
        assert(remembered(left, rest)) by {
            assert forall|key: Seq<u8>| #[trigger] left.contains_key(key) implies rest.contains(
                (key, left[key].generation),
            ) by {
                assert(sessions.contains_key(key));
                let i = choose|i: int|
                    0 <= i < order.len() && order[i] == (key, sessions[key].generation);
                assert(i != 0);
                assert(rest[i - 1] == order[i]);
            }
        }
        assert(numbered(rest, bound)) by {
            assert forall|i: int, j: int| 0 <= i < j < rest.len() implies (
            #[trigger] rest[i]).1 < (#[trigger] rest[j]).1 by {
                assert(order[i + 1].1 < order[j + 1].1);
            }
            assert forall|i: int| 0 <= i < rest.len() implies (#[trigger] rest[i]).1 < bound by {
                assert(order[i + 1].1 < bound);
            }
        }
        lemma_evicted(left, rest, capacity, bound);
        let kept = crate::quic_session_store::evicted(sessions, order, capacity).0;
        assert forall|key: Seq<u8>, gone: Seq<u8>|
            kept.contains_key(key) && sessions.contains_key(gone) && !kept.contains_key(
                gone,
            ) implies (#[trigger] sessions[gone]).generation < (
        #[trigger] sessions[key]).generation by {
            assert(left.contains_key(key));
            assert(left[key] == sessions[key]);
            if left.contains_key(gone) {
                assert(left[gone] == sessions[gone]);
                assert(left[gone].generation < left[key].generation);
            } else {
                let i = choose|i: int|
                    0 <= i < rest.len() && rest[i] == (key, left[key].generation);
                assert(order[i + 1] == rest[i]);
                assert(order[0].1 < order[i + 1].1);
            }
        }
        if capacity > 0 && crate::quic_session_store::live(sessions, order.last()) {
            if order.len() == 1 {
                assert(sessions.dom() =~= set![order[0].0]) by {
                    assert forall|key: Seq<u8>| sessions.dom().contains(key) implies key
                        == order[0].0 by {
                        assert(sessions.contains_key(key));
                        assert(order.contains((key, sessions[key].generation)));
                    }
                }
                assert(false);
            } else {
                assert(order[0].1 < order[order.len() - 1].1);
                assert(rest.last() == order.last());
                assert(crate::quic_session_store::live(left, rest.last()));
            }
        }
    }
}

proof fn lemma_put(
    store: StoreView,
    capacity: nat,
    key: Seq<u8>,
    value: Seq<u8>,
    now: Instant,
    ttl: Duration,
) -> (inserted: Map<Seq<u8>, TicketView>)
    requires
        sound(store, capacity),
        capacity > 0,
        store.next_generation < u64::MAX,
    ensures
        inserted == crate::quic_session_store::unexpired(store.sessions, now).insert(
            key,
            TicketView {
                value,
                expires_at: crate::quic_session_store::expiry(now, ttl),
                generation: store.next_generation,
            },
        ),
        ({
            let after = store.after_put(key, value, now, ttl, capacity);
            &&& sound(after, capacity)
            &&& after.order.len() <= after.sessions.dom().len()
                + crate::quic_session_store::tombstone_budget(capacity)
            &&& after.sessions.contains_key(key)
            &&& forall|other: Seq<u8>| #[trigger]
                after.sessions.contains_key(other) ==> inserted.contains_key(other)
                    && after.sessions[other] == inserted[other]
            &&& forall|other: Seq<u8>, gone: Seq<u8>|
                after.sessions.contains_key(other) && inserted.contains_key(gone)
                    && !after.sessions.contains_key(gone) ==> (
                #[trigger] inserted[gone]).generation < (#[trigger] inserted[other]).generation
            &&& forall|gone: Seq<u8>|
                inserted.contains_key(gone) && !(#[trigger] after.sessions.contains_key(gone))
                    ==> after.sessions.dom().len() >= capacity
        }),
{
    let kept = crate::quic_session_store::unexpired(store.sessions, now);
    lemma_unexpired(store.sessions, now);
    let ticket = TicketView {
        value,
        expires_at: crate::quic_session_store::expiry(now, ttl),
        generation: store.next_generation,
    };
    let inserted = kept.insert(key, ticket);
    let order = store.order.push((key, store.next_generation));
    let bound = store.next_generation.wrapping_add(1);
    assert(bound == store.next_generation + 1);
    assert(order.last() == (key, store.next_generation));
    assert(remembered(inserted, order)) by {
        assert forall|other: Seq<u8>| #[trigger] inserted.contains_key(other) implies order.contains(
            (other, inserted[other].generation),
        ) by {
            if other == key {
                assert(order[order.len() - 1] == (other, inserted[other].generation));
            } else {
                assert(store.sessions.contains_key(other));
                let i = choose|i: int|
                    0 <= i < store.order.len() && store.order[i] == (
                        other,
                        store.sessions[other].generation,
                    );
                assert(order[i] == (other, inserted[other].generation));
            }
        }
    }
    assert(numbered(order, bound));
    lemma_evicted(inserted, order, capacity, bound);
    let (sessions, rest) = crate::quic_session_store::evicted(inserted, order, capacity);
    lemma_compacted(sessions, rest, capacity, bound);
    inserted
}

/// An operation keeps a store sound: it holds no more tickets than its capacity, and it
/// remembers the insertion of each of them.
pub proof fn operations_keep_the_store_sound(
    store: StoreView,
    capacity: nat,
    key: Seq<u8>,
    value: Seq<u8>,
    now: Instant,
    ttl: Duration,
)
    requires
        sound(store, capacity),
        store.next_generation < u64::MAX,
    ensures
        capacity > 0 ==> sound(store.after_put(key, value, now, ttl, capacity), capacity),
        sound(store.after_get(now), capacity),
        sound(store.after_take(key, now, capacity), capacity),
{
    if capacity > 0 {
        let _ = lemma_put(store, capacity, key, value, now, ttl);
    }
    lemma_unexpired(store.sessions, now);
    let kept = crate::quic_session_store::unexpired(store.sessions, now);
    let left = kept.remove(key);
    assert(remembered(kept, store.order)) by {
        assert forall|other: Seq<u8>| #[trigger] kept.contains_key(
            other,
        ) implies store.order.contains((other, kept[other].generation)) by {
            assert(store.sessions.contains_key(other));
        }
    }
    assert(remembered(left, store.order)) by {
        assert forall|other: Seq<u8>| #[trigger] left.contains_key(
            other,
        ) implies store.order.contains((other, left[other].generation)) by {
            assert(kept.contains_key(other));
        }
    }
    lemma_compacted(left, store.order, capacity, store.next_generation);
}

/// A new store is sound.
pub proof fn new_stores_are_sound(capacity: nat)
    ensures
        sound(
            StoreView { sessions: Map::empty(), order: Seq::empty(), next_generation: 0 },
            capacity,
        ),
{
}

/// After a ticket has been put in or taken, the store remembers no more insertions than it
/// has tickets and room for tombstones.
pub proof fn tombstones_are_bounded(
    store: StoreView,
    capacity: nat,
    key: Seq<u8>,
    value: Seq<u8>,
    now: Instant,
    ttl: Duration,
)
    requires
        sound(store, capacity),
        store.next_generation < u64::MAX,
    ensures
        ({
            let after = store.after_put(key, value, now, ttl, capacity);
            capacity > 0 ==> after.order.len() <= after.sessions.dom().len()
                + crate::quic_session_store::tombstone_budget(capacity)
        }),
        ({
            let after = store.after_take(key, now, capacity);
            after.order.len() <= after.sessions.dom().len()
                + crate::quic_session_store::tombstone_budget(capacity)
        }),
{
    if capacity > 0 {
        let _ = lemma_put(store, capacity, key, value, now, ttl);
    }
    lemma_unexpired(store.sessions, now);
    let kept = crate::quic_session_store::unexpired(store.sessions, now);
    let left = kept.remove(key);
    assert(remembered(left, store.order)) by {
        assert forall|other: Seq<u8>| #[trigger] left.contains_key(
            other,
        ) implies store.order.contains((other, left[other].generation)) by {
            assert(store.sessions.contains_key(other));
        }
    }
    lemma_compacted(left, store.order, capacity, store.next_generation);
}

/// A ticket that has been put in can be taken, with its secret, until it expires; so can
/// every ticket that was there and has not expired, unless it is among the oldest and had to
/// make place.
pub proof fn stored_tickets_are_found(
    store: StoreView,
    capacity: nat,
    key: Seq<u8>,
    value: Seq<u8>,
    now: Instant,
    ttl: Duration,
    later: Instant,
)
    requires
        sound(store, capacity),
        capacity > 0,
        store.next_generation < u64::MAX,
        now.nanos <= later.nanos,
        later.nanos < crate::quic_session_store::expiry(now, ttl).nanos,
    ensures
        ({
            let after = store.after_put(key, value, now, ttl, capacity);
            &&& after.found(key, later) == Some(value)
            &&& forall|other: Seq<u8>|
                other != key && (#[trigger] after.found(other, later)) is Some ==> after.found(
                    other,
                    later,
                ) == store.found(other, later)
            &&& forall|other: Seq<u8>, newer: Seq<u8>|
                other != key && (#[trigger] store.found(other, later)) is Some && after.found(
                    other,
                    later,
                ) is None && after.sessions.contains_key(newer) ==> store.sessions[other].generation
                    < (#[trigger] after.sessions[newer]).generation
        }),
{
    let inserted = lemma_put(store, capacity, key, value, now, ttl);
    let after = store.after_put(key, value, now, ttl, capacity);
    assert(after.sessions[key] == inserted[key]);
    assert forall|other: Seq<u8>| other != key && (#[trigger] after.found(other, later)) is Some implies after.found(
        other,
        later,
    ) == store.found(other, later) by {
        assert(after.sessions.contains_key(other));
        assert(inserted.contains_key(other));
    }
    assert forall|other: Seq<u8>, newer: Seq<u8>|
        other != key && (#[trigger] store.found(other, later)) is Some && after.found(
            other,
            later,
        ) is None && after.sessions.contains_key(newer) implies store.sessions[other].generation
        < (#[trigger] after.sessions[newer]).generation by {
        assert(inserted.contains_key(other));
        assert(inserted[other] == store.sessions[other]);
        if after.sessions.contains_key(other) {
            assert(after.sessions[other] == inserted[other]);
        }
        assert(after.sessions[newer] == inserted[newer]);
        assert(inserted[other].generation < inserted[newer].generation);
    }
}

/// A ticket that has been taken is gone: neither a second take nor a look-up finds it.
pub proof fn tickets_are_taken_once(
    store: StoreView,
    capacity: nat,
    key: Seq<u8>,
    now: Instant,
    later: Instant,
)
    ensures
        !store.after_take(key, now, capacity).sessions.contains_key(key),
        store.after_take(key, now, capacity).found(key, later) is None,
{
}

/// What is not in the store does not come back but by being put in.
pub proof fn absent_tickets_stay_absent(
    store: StoreView,
    capacity: nat,
    key: Seq<u8>,
    other: Seq<u8>,
    value: Seq<u8>,
    now: Instant,
    ttl: Duration,
)
    requires
        !store.sessions.contains_key(key),
    ensures
        forall|later: Instant| (#[trigger] store.found(key, later)) is None,
        !store.after_get(now).sessions.contains_key(key),
        !store.after_take(other, now, capacity).sessions.contains_key(key),
        other != key ==> !store.after_put(other, value, now, ttl, capacity).sessions.contains_key(
            key,
        ),
{
    let ticket = TicketView {
        value,
        expires_at: crate::quic_session_store::expiry(now, ttl),
        generation: store.next_generation,
    };
    if other != key {
        lemma_eviction_adds_nothing(
            crate::quic_session_store::unexpired(store.sessions, now).insert(other, ticket),
            store.order.push((other, store.next_generation)),
            capacity,
            key,
        );
    }
}

proof fn lemma_eviction_adds_nothing(
    sessions: Map<Seq<u8>, TicketView>,
    order: Seq<(Seq<u8>, u64)>,
    capacity: nat,
    key: Seq<u8>,
)
    ensures
        crate::quic_session_store::evicted(sessions, order, capacity).0.contains_key(key)
            ==> sessions.contains_key(key) && sessions[key] == crate::quic_session_store::evicted(
            sessions,
            order,
            capacity,
        ).0[key],
    decreases order.len(),
{
    if !(sessions.dom().len() <= capacity || order.len() == 0) {
        let oldest = order[0];
        let left = if crate::quic_session_store::live(sessions, oldest) {
            sessions.remove(oldest.0)
        } else {
            sessions
        };
        lemma_eviction_adds_nothing(left, order.drop_first(), capacity, key);
    }
}

/// An operation on a store, with the key under which the ticket is kept.
pub enum Operation {
    /// A ticket is put in.
    Put { key: Seq<u8>, value: Seq<u8>, now: Instant },
    /// A ticket is looked up.
    Get { key: Seq<u8>, now: Instant },
    /// A ticket is taken.
    Take { key: Seq<u8>, now: Instant },
}

impl Operation {
    /// Key that the operation is about.
    pub open spec fn about(self) -> Seq<u8> {
        match self {
            Operation::Put { key, .. } => key,
            Operation::Get { key, .. } => key,
            Operation::Take { key, .. } => key,
        }
    }

    /// When the operation is performed.
    pub open spec fn at(self) -> Instant {
        match self {
            Operation::Put { now, .. } => now,
            Operation::Get { now, .. } => now,
            Operation::Take { now, .. } => now,
        }
    }

    /// Whether the operation puts a ticket in under `key`.
    pub open spec fn puts(self, key: Seq<u8>) -> bool {
        self is Put && self.about() == key
    }

    /// Whether the operation takes the ticket under `key`.
    pub open spec fn takes(self, key: Seq<u8>) -> bool {
        self is Take && self.about() == key
    }

    /// The store after the operation.
    pub open spec fn after(self, store: StoreView, ttl: Duration, capacity: nat) -> StoreView {
        match self {
            Operation::Put { key, value, now } => if capacity > 0 {
                store.after_put(key, value, now, ttl, capacity)
            } else {
                store
            },
            Operation::Get { now, .. } => store.after_get(now),
            Operation::Take { key, now } => store.after_take(key, now, capacity),
        }
    }
}

/// The store after operations, one after the other.
pub open spec fn ran(
    store: StoreView,
    operations: Seq<Operation>,
    ttl: Duration,
    capacity: nat,
) -> StoreView
    decreases operations.len(),
{
    if operations.len() == 0 {
        store
    } else {
        operations.last().after(
            ran(store, operations.drop_last(), ttl, capacity),
            ttl,
            capacity,
        )
    }
}

/// The secret that the operation at `i` hands out.
pub open spec fn handed_out(
    store: StoreView,
    operations: Seq<Operation>,
    i: int,
    ttl: Duration,
    capacity: nat,
) -> Option<Seq<u8>> {
    if operations[i] is Put {
        None
    } else {
        ran(store, operations.take(i), ttl, capacity).found(
            operations[i].about(),
            operations[i].at(),
        )
    }
}

/// How many of the operations put a ticket in.
pub open spec fn insertions(operations: Seq<Operation>) -> nat
    decreases operations.len(),
{
    if operations.len() == 0 {
        0
    } else {
        insertions(operations.drop_last()) + (if operations.last() is Put {
            1nat
        } else {
            0nat
        })
    }
}

proof fn lemma_step_adds_nothing(
    store: StoreView,
    operation: Operation,
    ttl: Duration,
    capacity: nat,
    key: Seq<u8>,
)
    requires
        !operation.puts(key),
    ensures
        operation.after(store, ttl, capacity).sessions.contains_key(key)
            ==> store.sessions.contains_key(key) && store.sessions[key] == operation.after(
            store,
            ttl,
            capacity,
        ).sessions[key],
{
    if let Operation::Put { key: other, value, now } = operation {
        let ticket = TicketView {
            value,
            expires_at: crate::quic_session_store::expiry(now, ttl),
            generation: store.next_generation,
        };
        lemma_eviction_adds_nothing(
            crate::quic_session_store::unexpired(store.sessions, now).insert(other, ticket),
            store.order.push((other, store.next_generation)),
            capacity,
            key,
        );
    }
}

proof fn lemma_operations_add_nothing(
    store: StoreView,
    operations: Seq<Operation>,
    ttl: Duration,
    capacity: nat,
    key: Seq<u8>,
)
    requires
        forall|i: int| 0 <= i < operations.len() ==> !(#[trigger] operations[i]).puts(key),
    ensures
        ran(store, operations, ttl, capacity).sessions.contains_key(key)
            ==> store.sessions.contains_key(key) && store.sessions[key] == ran(
            store,
            operations,
            ttl,
            capacity,
        ).sessions[key],
    decreases operations.len(),
{
    if operations.len() > 0 {
        let rest = operations.drop_last();
        assert forall|i: int| 0 <= i < rest.len() implies !(#[trigger] rest[i]).puts(key) by {
            assert(rest[i] == operations[i]);
        }
        lemma_operations_add_nothing(store, rest, ttl, capacity, key);
        lemma_step_adds_nothing(
            ran(store, rest, ttl, capacity),
            operations.last(),
            ttl,
            capacity,
            key,
        );
    }
}

proof fn lemma_taken_stays_taken(
    store: StoreView,
    operations: Seq<Operation>,
    i: int,
    ttl: Duration,
    capacity: nat,
    key: Seq<u8>,
)
    requires
        0 <= i < operations.len(),
        operations[i].takes(key),
        forall|j: int| 0 <= j < operations.len() ==> !(#[trigger] operations[j]).puts(key),
    ensures
        !ran(store, operations, ttl, capacity).sessions.contains_key(key),
    decreases operations.len(),
{
    if i < operations.len() - 1 {
        let rest = operations.drop_last();
        assert forall|j: int| 0 <= j < rest.len() implies !(#[trigger] rest[j]).puts(key) by {
            assert(rest[j] == operations[j]);
        }
        assert(rest[i] == operations[i]);
        lemma_taken_stays_taken(store, rest, i, ttl, capacity, key);
        lemma_step_adds_nothing(
            ran(store, rest, ttl, capacity),
            operations.last(),
            ttl,
            capacity,
            key,
        );
    }
}

/// A ticket can be used once, whatever is done to the store in between and in whatever order:
/// until its key is put in again, every look-up and every take that finds anything finds the
/// secret that was put in, they do find it while the store holds it and its lifetime lasts,
/// and after a take nothing finds it any more. So at most one take hands it out.
pub proof fn tickets_are_single_use(
    store: StoreView,
    capacity: nat,
    key: Seq<u8>,
    value: Seq<u8>,
    now: Instant,
    ttl: Duration,
    operations: Seq<Operation>,
)
    requires
        capacity > 0,
        forall|i: int| 0 <= i < operations.len() ==> !(#[trigger] operations[i]).puts(key),
    ensures
        ({
            let start = store.after_put(key, value, now, ttl, capacity);
            &&& forall|i: int|
                0 <= i < operations.len() && operations[i].about() == key && (#[trigger] handed_out(
                    start,
                    operations,
                    i,
                    ttl,
                    capacity,
                )) is Some ==> handed_out(start, operations, i, ttl, capacity) == Some(value)
            &&& forall|i: int|
                0 <= i < operations.len() && operations[i].about() == key && ran(
                    start,
                    operations.take(i),
                    ttl,
                    capacity,
                ).sessions.contains_key(key) && operations[i].at().nanos
                    < crate::quic_session_store::expiry(now, ttl).nanos ==> (
                #[trigger] handed_out(start, operations, i, ttl, capacity)) == Some(value)
            &&& forall|i: int, j: int|
                0 <= i < j < operations.len() && operations[j].about() == key && (
                #[trigger] operations[i]).takes(key) ==> (#[trigger] handed_out(
                    start,
                    operations,
                    j,
                    ttl,
                    capacity,
                )) is None
            &&& forall|i: int, j: int|
                0 <= i < operations.len() && 0 <= j < operations.len() && operations[i].takes(key)
                    && operations[j].takes(key) && (#[trigger] handed_out(
                    start,
                    operations,
                    i,
                    ttl,
                    capacity,
                )) is Some && (#[trigger] handed_out(start, operations, j, ttl, capacity)) is Some
                    ==> i == j
        }),
{
    let start = store.after_put(key, value, now, ttl, capacity);
    let ticket = TicketView {
        value,
        expires_at: crate::quic_session_store::expiry(now, ttl),
        generation: store.next_generation,
    };
    lemma_eviction_adds_nothing(
        crate::quic_session_store::unexpired(store.sessions, now).insert(key, ticket),
        store.order.push((key, store.next_generation)),
        capacity,
        key,
    );
    assert forall|i: int|
        0 <= i < operations.len() && ran(
            start,
            #[trigger] operations.take(i),
            ttl,
            capacity,
        ).sessions.contains_key(key) implies ran(
        start,
        operations.take(i),
        ttl,
        capacity,
    ).sessions[key] == ticket by {
        let before = operations.take(i);
        assert forall|j: int| 0 <= j < before.len() implies !(#[trigger] before[j]).puts(key) by {
            assert(before[j] == operations[j]);
        }
        lemma_operations_add_nothing(start, before, ttl, capacity, key);
    }
    assert forall|i: int, j: int|
        0 <= i < j < operations.len() && operations[j].about() == key && (
        #[trigger] operations[i]).takes(key) implies (#[trigger] handed_out(
        start,
        operations,
        j,
        ttl,
        capacity,
    )) is None by {
        let before = operations.take(j);
        assert forall|k: int| 0 <= k < before.len() implies !(#[trigger] before[k]).puts(key) by {
            assert(before[k] == operations[k]);
        }
        assert(before[i] == operations[i]);
        lemma_taken_stays_taken(start, before, i, ttl, capacity, key);
    }
}

proof fn lemma_newer_tickets_are_few(store: StoreView, capacity: nat, oldest: int)
    requires
        sound(store, capacity),
        oldest < store.next_generation,
        forall|key: Seq<u8>| #[trigger]
            store.sessions.contains_key(key) ==> store.sessions[key].generation > oldest,
    ensures
        store.sessions.dom().len() < store.next_generation - oldest,
{
    let keys = store.sessions.dom();
    let number = |key: Seq<u8>| store.sessions[key].generation as int;
    let numbers = keys.map(number);
    assert(vstd::relations::injective_on(number, keys)) by {
        assert forall|a: Seq<u8>, b: Seq<u8>|
            keys.contains(a) && keys.contains(b) && #[trigger] number(a) == #[trigger] number(
                b,
            ) implies a == b by {
            assert(store.sessions.contains_key(a) && store.sessions.contains_key(b));
            let i = choose|i: int|
                0 <= i < store.order.len() && store.order[i] == (a, store.sessions[a].generation);
            let j = choose|j: int|
                0 <= j < store.order.len() && store.order[j] == (b, store.sessions[b].generation);
            if i < j {
                assert(store.order[i].1 < store.order[j].1);
            } else if j < i {
                assert(store.order[j].1 < store.order[i].1);
            }
        }
    }
    vstd::set_lib::lemma_map_size(keys, numbers, number);
    let range = vstd::set_lib::set_int_range(oldest + 1, store.next_generation as int);
    vstd::set_lib::lemma_int_range(oldest + 1, store.next_generation as int);
    assert(numbers.subset_of(range)) by {
        assert forall|n: int| numbers.contains(n) implies range.contains(n) by {
            let key = choose|key: Seq<u8>| keys.contains(key) && number(key) == n;
            assert(store.sessions.contains_key(key));
            assert(store.order.contains((key, store.sessions[key].generation)));
        }
    }
    vstd::set_lib::lemma_len_subset(numbers, range);
}

proof fn lemma_room(
    start: StoreView,
    capacity: nat,
    key: Seq<u8>,
    ttl: Duration,
    operations: Seq<Operation>,
)
    requires
        sound(start, capacity),
        capacity > 0,
        start.sessions.contains_key(key),
        start.sessions[key].generation + 1 == start.next_generation,
        start.next_generation + operations.len() < u64::MAX,
        insertions(operations) < capacity,
        forall|i: int|
            0 <= i < operations.len() ==> !(#[trigger] operations[i]).puts(key)
                && !operations[i].takes(key) && operations[i].at().nanos
                < start.sessions[key].expires_at.nanos,
    ensures
        ({
            let after = ran(start, operations, ttl, capacity);
            &&& sound(after, capacity)
            &&& after.sessions.contains_key(key)
            &&& after.sessions[key] == start.sessions[key]
            &&& after.next_generation == start.next_generation + insertions(operations)
            &&& insertions(operations) <= operations.len()
        }),
    decreases operations.len(),
{
    if operations.len() > 0 {
        let rest = operations.drop_last();
        let last = operations.last();
        assert forall|i: int| 0 <= i < rest.len() implies !(#[trigger] rest[i]).puts(key)
            && !rest[i].takes(key) && rest[i].at().nanos
            < start.sessions[key].expires_at.nanos by {
            assert(rest[i] == operations[i]);
        }
        assert(last == operations[operations.len() - 1]);
        lemma_room(start, capacity, key, ttl, rest);
        let before = ran(start, rest, ttl, capacity);
        let after = ran(start, operations, ttl, capacity);
        match last {
            Operation::Put { key: other, value, now } => {
                let inserted = lemma_put(before, capacity, other, value, now, ttl);
                assert(inserted.contains_key(key) && inserted[key] == start.sessions[key]);
                if !after.sessions.contains_key(key) {
                    assert forall|newer: Seq<u8>| #[trigger]
                        after.sessions.contains_key(newer) implies after.sessions[newer].generation
                        > start.sessions[key].generation by {
                        assert(inserted[key].generation < inserted[newer].generation);
                    }
                    lemma_newer_tickets_are_few(
                        after,
                        capacity,
                        start.sessions[key].generation as int,
                    );
                }
            },
            Operation::Get { key: other, now } => {
                operations_keep_the_store_sound(before, capacity, other, Seq::empty(), now, ttl);
            },
            Operation::Take { key: other, now } => {
                operations_keep_the_store_sound(before, capacity, other, Seq::empty(), now, ttl);
            },
        }
    }
}

/// A ticket makes place only once as many others have been put in after it as the store
/// holds: until then, and while its lifetime lasts, it is found.
pub proof fn tickets_stay_while_there_is_room(
    store: StoreView,
    capacity: nat,
    key: Seq<u8>,
    value: Seq<u8>,
    now: Instant,
    ttl: Duration,
    operations: Seq<Operation>,
    later: Instant,
)
    requires
        sound(store, capacity),
        capacity > 0,
        store.next_generation + operations.len() + 1 < u64::MAX,
        insertions(operations) < capacity,
        forall|i: int|
            0 <= i < operations.len() ==> !(#[trigger] operations[i]).puts(key)
                && !operations[i].takes(key) && operations[i].at().nanos
                < crate::quic_session_store::expiry(now, ttl).nanos,
        later.nanos < crate::quic_session_store::expiry(now, ttl).nanos,
    ensures
        ran(
            store.after_put(key, value, now, ttl, capacity),
            operations,
            ttl,
            capacity,
        ).found(key, later) == Some(value),
{
    let inserted = lemma_put(store, capacity, key, value, now, ttl);
    let start = store.after_put(key, value, now, ttl, capacity);
    assert(start.sessions[key] == inserted[key]);
    lemma_room(start, capacity, key, ttl, operations);
}

/// A ticket is not found once its lifetime is over. One whose lifetime is nothing, or reaches
/// beyond the clock, is never found.
pub proof fn tickets_expire(
    store: StoreView,
    capacity: nat,
    key: Seq<u8>,
    value: Seq<u8>,
    now: Instant,
    ttl: Duration,
    later: Instant,
)
    requires
        now.nanos <= later.nanos,
        match now.plus(ttl) {
            Some(expires_at) => expires_at.nanos <= later.nanos,
            None => true,
        },
    ensures
        store.after_put(key, value, now, ttl, capacity).found(key, later) is None,
{
    let ticket = TicketView {
        value,
        expires_at: crate::quic_session_store::expiry(now, ttl),
        generation: store.next_generation,
    };
    lemma_eviction_adds_nothing(
        crate::quic_session_store::unexpired(store.sessions, now).insert(key, ticket),
        store.order.push((key, store.next_generation)),
        capacity,
        key,
    );
}

/// A ticket is found under its own key and its own profile only: within one profile different
/// keys stay different, and under the fingerprint of another profile no key is the same.
pub proof fn tickets_are_scoped_to_their_profile(
    profile: Seq<u8>,
    other_profile: Seq<u8>,
    key: Seq<u8>,
    other_key: Seq<u8>,
)
    requires
        profile.len() == 32,
        other_profile.len() == 32,
    ensures
        (profile + key).len() == 32 + key.len(),
        profile + key == other_profile + other_key <==> profile == other_profile && key
            == other_key,
{
    if profile + key == other_profile + other_key {
        let wrapped = profile + key;
        assert(profile =~= wrapped.subrange(0, 32));
        assert(other_profile =~= wrapped.subrange(0, 32));
        assert(key =~= wrapped.subrange(32, wrapped.len() as int));
        assert(other_key =~= wrapped.subrange(32, wrapped.len() as int));
    }
}

proof fn lemma_protocol_chunks(protocols: Seq<Seq<u8>>, i: int)
    ensures
        crate::quic_session_store::tagged_protocols(protocols).len() == 3 * protocols.len(),
        0 <= i < protocols.len() ==> {
            let chunks = crate::quic_session_store::tagged_protocols(protocols);
            &&& chunks[3 * i] == seq![2u8]
            &&& chunks[3 * i + 1] == vstd::bytes::spec_u64_to_le_bytes(protocols[i].len() as u64)
            &&& chunks[3 * i + 2] == protocols[i]
        },
    decreases protocols.len(),
{
    if protocols.len() > 0 {
        lemma_protocol_chunks(protocols.drop_last(), i);
    }
}

/// A fingerprint covers the whole profile: each part goes into the hash, under a tag of its own
/// and behind its length where it has one.
pub proof fn fingerprints_cover_the_whole_profile(
    protocols: Seq<Seq<u8>>,
    initial_max_bidi_streams: u64,
    initial_max_uni_streams: u64,
    pre_finished_read_budget: u64,
    credential_auth_policy_epoch: u64,
    multistream_mode: Seq<u8>,
    i: int,
)
    ensures
        ({
            let chunks = crate::quic_session_store::profile_chunks(
                protocols,
                initial_max_bidi_streams,
                initial_max_uni_streams,
                pre_finished_read_budget,
                credential_auth_policy_epoch,
                multistream_mode,
            );
            let name = vstd::utf8::encode_utf8("rmqtt-net/quic-0rtt-profile/v1"@);
            let n = 3 + 3 * (protocols.len() as int);
            &&& chunks.len() == n + 11
            &&& chunks[0] == seq![1u8]
            &&& chunks[1] == vstd::bytes::spec_u64_to_le_bytes(name.len() as u64)
            &&& chunks[2] == name
            &&& 0 <= i < protocols.len() ==> chunks[3 + 3 * i] == seq![2u8] && chunks[4 + 3 * i]
                == vstd::bytes::spec_u64_to_le_bytes(protocols[i].len() as u64) && chunks[5 + 3
                * i] == protocols[i]
            &&& chunks[n] == seq![3u8]
            &&& chunks[n + 1] == vstd::bytes::spec_u64_to_le_bytes(initial_max_bidi_streams)
            &&& chunks[n + 2] == seq![4u8]
            &&& chunks[n + 3] == vstd::bytes::spec_u64_to_le_bytes(initial_max_uni_streams)
            &&& chunks[n + 4] == seq![5u8]
            &&& chunks[n + 5] == vstd::bytes::spec_u64_to_le_bytes(pre_finished_read_budget)
            &&& chunks[n + 6] == seq![6u8]
            &&& chunks[n + 7] == vstd::bytes::spec_u64_to_le_bytes(credential_auth_policy_epoch)
            &&& chunks[n + 8] == seq![7u8]
            &&& chunks[n + 9] == vstd::bytes::spec_u64_to_le_bytes(multistream_mode.len() as u64)
            &&& chunks[n + 10] == multistream_mode
        }),
{
    lemma_protocol_chunks(protocols, i);
}

/// The fingerprint is made of four hashes of the same input, which start from different values
/// and take in every byte of every chunk and the length of the chunk.
pub proof fn fingerprints_take_every_byte_in(
    chunks: Seq<Seq<u8>>,
    chunk: Seq<u8>,
    lane: u64,
    byte: u8,
)
    requires
        chunk.len() <= u64::MAX,
    ensures
        ({
            let start = 0xcbf2_9ce4_8422_2325u64;
            crate::quic_session_store::lanes_bytes(chunks) == vstd::bytes::spec_u64_to_le_bytes(
                crate::quic_session_store::hashed(start, chunks),
            ) + vstd::bytes::spec_u64_to_le_bytes(
                crate::quic_session_store::hashed(start ^ 0x9e37_79b9_7f4a_7c15u64, chunks),
            ) + vstd::bytes::spec_u64_to_le_bytes(
                crate::quic_session_store::hashed(start ^ 0xc2b2_ae3d_27d4_eb4fu64, chunks),
            ) + vstd::bytes::spec_u64_to_le_bytes(
                crate::quic_session_store::hashed(start ^ 0x1656_67b1_9e37_79f9u64, chunks),
            )
        }),
        crate::quic_session_store::hashed(lane, Seq::empty()) == lane,
        crate::quic_session_store::hashed(lane, chunks.push(chunk)) == (
        crate::quic_session_store::absorbed(
            crate::quic_session_store::hashed(lane, chunks),
            chunk,
        ) ^ chunk.len() as u64).wrapping_mul(0x100_0000_01b3),
        crate::quic_session_store::absorbed(lane, Seq::empty()) == lane,
        crate::quic_session_store::absorbed(lane, chunk.push(byte)) == (
        crate::quic_session_store::absorbed(lane, chunk) ^ byte as u64).wrapping_mul(
            0x100_0000_01b3,
        ),
{
    assert(chunks.push(chunk).drop_last() =~= chunks);
    assert(chunk.push(byte).drop_last() =~= chunk);
}

/// A ticket is void from its lifetime after it was put in, to the nanosecond; where the clock
/// does not reach so far it is void at once.
pub proof fn lifetimes_are_kept(now: Instant, ttl: Duration)
    ensures
        now.nanos + ttl.nanos <= 9_223_372_036_854_775_807_999_999_999
            ==> crate::quic_session_store::expiry(now, ttl).nanos == now.nanos + ttl.nanos,
        now.nanos + ttl.nanos > 9_223_372_036_854_775_807_999_999_999
            ==> crate::quic_session_store::expiry(now, ttl) == now,
{
}

/// A look-up finds exactly the tickets that are in the store and whose end is yet to come, with
/// the secret that was put in; it removes those whose end has come, and no others.
pub proof fn look_ups_find_what_is_not_void(store: StoreView, key: Seq<u8>, now: Instant)
    ensures
        store.sessions.contains_key(key) && store.sessions[key].expires_at.nanos > now.nanos
            ==> store.found(key, now) == Some(store.sessions[key].value),
        !store.sessions.contains_key(key) || store.sessions[key].expires_at.nanos <= now.nanos
            ==> store.found(key, now) is None,
        store.after_get(now).sessions.contains_key(key) <==> store.sessions.contains_key(key)
            && store.sessions[key].expires_at.nanos > now.nanos,
        store.after_get(now).sessions.contains_key(key) ==> store.after_get(now).sessions[key]
            == store.sessions[key],
        store.after_get(now).order == store.order,
        store.after_get(now).next_generation == store.next_generation,
{
}

/// Taking a ticket leaves every other ticket that is not void as it is.
pub proof fn takes_leave_other_tickets(
    store: StoreView,
    capacity: nat,
    key: Seq<u8>,
    other: Seq<u8>,
    now: Instant,
)
    requires
        other != key,
    ensures
        store.after_take(key, now, capacity).sessions.contains_key(other)
            <==> store.sessions.contains_key(other) && store.sessions[other].expires_at.nanos
            > now.nanos,
        store.after_take(key, now, capacity).sessions.contains_key(other) ==> store.after_take(
            key,
            now,
            capacity,
        ).sessions[other] == store.sessions[other],
        store.after_take(key, now, capacity).next_generation == store.next_generation,
{
}

/// A store keeps room for as many tombstones as twice its capacity, and for sixty-four at
/// least.
pub proof fn tombstones_have_room(capacity: nat)
    ensures
        capacity <= 32 ==> crate::quic_session_store::tombstone_budget(capacity) == 64,
        capacity >= 32 ==> crate::quic_session_store::tombstone_budget(capacity) == 2 * capacity,
{
}

/// Profiles that differ in any part differ in what is hashed.
pub proof fn different_profiles_are_hashed_from_different_input(
    protocols: Seq<Seq<u8>>,
    other_protocols: Seq<Seq<u8>>,
    numbers: (u64, u64, u64, u64),
    other_numbers: (u64, u64, u64, u64),
    mode: Seq<u8>,
    other_mode: Seq<u8>,
)
    requires
        crate::quic_session_store::profile_chunks(
            protocols,
            numbers.0,
            numbers.1,
            numbers.2,
            numbers.3,
            mode,
        ) == crate::quic_session_store::profile_chunks(
            other_protocols,
            other_numbers.0,
            other_numbers.1,
            other_numbers.2,
            other_numbers.3,
            other_mode,
        ),
    ensures
        protocols == other_protocols,
        numbers == other_numbers,
        mode == other_mode,
{
    vstd::bytes::lemma_auto_spec_u64_to_from_le_bytes();
    assert forall|i: int| 0 <= i < protocols.len() implies protocols[i] == other_protocols[i] by {
        fingerprints_cover_the_whole_profile(
            protocols,
            numbers.0,
            numbers.1,
            numbers.2,
            numbers.3,
            mode,
            i,
        );
        fingerprints_cover_the_whole_profile(
            other_protocols,
            other_numbers.0,
            other_numbers.1,
            other_numbers.2,
            other_numbers.3,
            other_mode,
            i,
        );
    }
    fingerprints_cover_the_whole_profile(
        protocols,
        numbers.0,
        numbers.1,
        numbers.2,
        numbers.3,
        mode,
        0,
    );
    fingerprints_cover_the_whole_profile(
        other_protocols,
        other_numbers.0,
        other_numbers.1,
        other_numbers.2,
        other_numbers.3,
        other_mode,
        0,
    );
    assert(protocols =~= other_protocols);
}

} // verus!
