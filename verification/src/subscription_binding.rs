//! Bindings of subscriptions to the flows on which they were made.
//!
//! A subscription is bound to the path of its SUBSCRIBE packet. Messages follow
//! the binding only once the SUBACK has been sent.

use vstd::prelude::*;

use crate::assoc::{Table, TableKey};
use crate::link::{FlowId, ReplyPath};
use crate::text::is_text_before;
use crate::topic::TopicFilter;

verus! {

/// How far a binding has come.
#[derive(Clone, Copy, Debug, PartialEq, Eq, Structural)]
pub enum BindingState {
    /// The SUBACK has not been sent yet.
    PendingAck,
    /// Messages follow the binding.
    Active,
}

/// The path of a subscription.
#[derive(Clone, Copy, Debug, PartialEq, Eq, Structural)]
pub struct Binding {
    /// Path on which the subscription was made.
    pub path: ReplyPath,
    /// How far the binding has come.
    pub state: BindingState,
}

/// The bindings of a session, by the text of their filters.
pub type Bindings = Map<Seq<char>, Binding>;

/// Whether messages on `topic` may follow the binding of `filter`: it is active, not on
/// the control flow, and its filter matches.
pub open spec fn eligible(bindings: Bindings, topic: Seq<char>, filter: Seq<char>) -> bool {
    &&& bindings.contains_key(filter)
    &&& bindings[filter].state == BindingState::Active
    &&& bindings[filter].path.flow_id != FlowId::control()
    &&& crate::topic::filter_matches(filter, topic)
}

/// Whether the binding of `a` is preferred to that of `b`: by flow, then by generation,
/// then by the text of the filter.
pub open spec fn preferred(bindings: Bindings, a: Seq<char>, b: Seq<char>) -> bool {
    let x = bindings[a].path;
    let y = bindings[b].path;
    ||| x.flow_id.0 < y.flow_id.0
    ||| x.flow_id.0 == y.flow_id.0 && x.generation < y.generation
    ||| x.flow_id.0 == y.flow_id.0 && x.generation == y.generation && crate::text::text_before(a, b)
}

/// Whether `filter` is the most preferred of the filters whose bindings messages on
/// `topic` may follow.
pub open spec fn most_preferred(bindings: Bindings, topic: Seq<char>, filter: Seq<char>) -> bool {
    &&& eligible(bindings, topic, filter)
    &&& forall|other: Seq<char>| #[trigger]
        eligible(bindings, topic, other) && other != filter ==> preferred(bindings, filter, other)
}

/// The path that messages on `topic` take, if a binding leads them off the control flow.
pub open spec fn bound_path(bindings: Bindings, topic: Seq<char>) -> Option<ReplyPath> {
    if exists|filter: Seq<char>| #[trigger] eligible(bindings, topic, filter) {
        Some(bindings[choose|filter: Seq<char>| most_preferred(bindings, topic, filter)].path)
    } else {
        None
    }
}

/// The bindings that are not on `flow_id`.
pub open spec fn without_flow(bindings: Bindings, flow_id: FlowId) -> Bindings {
    Map::new(
        |filter: Seq<char>|
            bindings.contains_key(filter) && bindings[filter].path.flow_id != flow_id,
        |filter: Seq<char>| bindings[filter],
    )
}

proof fn lemma_preferred_is_asymmetric(bindings: Bindings, a: Seq<char>, b: Seq<char>)
    requires
        preferred(bindings, a, b),
    ensures
        !preferred(bindings, b, a),
{
    if crate::text::text_before(a, b) && crate::text::text_before(b, a) {
        crate::text::text_order_is_transitive(a, b, a);
        crate::text::text_order_is_irreflexive(a);
    }
}

proof fn lemma_preferred_is_transitive(
    bindings: Bindings,
    a: Seq<char>,
    b: Seq<char>,
    c: Seq<char>,
)
    requires
        preferred(bindings, a, b),
        preferred(bindings, b, c),
    ensures
        preferred(bindings, a, c),
{
    if crate::text::text_before(a, b) && crate::text::text_before(b, c) {
        crate::text::text_order_is_transitive(a, b, c);
    }
}

proof fn lemma_preferred_is_total(bindings: Bindings, a: Seq<char>, b: Seq<char>)
    ensures
        a == b || preferred(bindings, a, b) || preferred(bindings, b, a),
{
    crate::text::text_order_is_total(a, b);
}

/// At most one binding is the most preferred.
pub proof fn most_preferred_is_unique(
    bindings: Bindings,
    topic: Seq<char>,
    a: Seq<char>,
    b: Seq<char>,
)
    requires
        most_preferred(bindings, topic, a),
        most_preferred(bindings, topic, b),
    ensures
        a == b,
{
    if a != b {
        assert(eligible(bindings, topic, a) && eligible(bindings, topic, b));
        lemma_preferred_is_asymmetric(bindings, a, b);
    }
}

/// The subscription bindings of one session.
#[derive(Debug)]
pub struct SubscriptionBindingStore {
    table: Table<TopicFilter, Binding>,
}

impl View for SubscriptionBindingStore {
    type V = Bindings;

    closed spec fn view(&self) -> Bindings {
        self.table@
    }
}

impl SubscriptionBindingStore {
    /// Whether no filter is bound twice.
    pub closed spec fn wf(&self) -> bool {
        self.table.wf()
    }

    /// Creates a store without bindings.
    pub fn new() -> (store: SubscriptionBindingStore)
        ensures
            store.wf(),
            store@ == Map::<Seq<char>, Binding>::empty(),
    {
        SubscriptionBindingStore { table: Table::new() }
    }

    /// Binds a filter to a path until the SUBACK has been sent, in place of an earlier
    /// binding of the same filter.
    pub fn begin(&mut self, topic_filter: TopicFilter, path: ReplyPath)
        requires
            old(self).wf(),
        ensures
            final(self).wf(),
            final(self)@ == old(self)@.insert(
                topic_filter@,
                Binding { path, state: BindingState::PendingAck },
            ),
    {
        self.table.insert(topic_filter, Binding { path, state: BindingState::PendingAck });
    }

    /// Lets messages follow the binding of a filter; returns whether there is one.
    pub fn activate(&mut self, topic_filter: &TopicFilter) -> (found: bool)
        requires
            old(self).wf(),
        ensures
            final(self).wf(),
            found == old(self)@.contains_key(topic_filter@),
            final(self)@ == activated(old(self)@, topic_filter@),
    {
        let path = match self.table.get(topic_filter) {
            Some(binding) => binding.path,
            None => {
                return false;
            },
        };
        self.table.insert(topic_filter.clone(), Binding { path, state: BindingState::Active });
        true
    }

    /// Removes the binding of a filter; returns whether there was one.
    pub fn unsubscribe(&mut self, topic_filter: &TopicFilter) -> (found: bool)
        requires
            old(self).wf(),
        ensures
            final(self).wf(),
            found == old(self)@.contains_key(topic_filter@),
            final(self)@ == old(self)@.remove(topic_filter@),
    {
        self.table.remove(topic_filter).is_some()
    }

    /// Removes the bindings of a flow and returns how many there were.
    pub fn remove_flow(&mut self, flow_id: FlowId) -> (removed: usize)
        requires
            old(self).wf(),
        ensures
            final(self).wf(),
            final(self)@ == without_flow(old(self)@, flow_id),
            old(self)@.dom().finite(),
            removed == old(self)@.dom().len() - final(self)@.dom().len(),
    {
        let before: usize = self.table.len();
        let mut i: usize = 0;
        while i < self.table.len()
            invariant
                self.wf(),
                i <= self.table.listed().len(),
                self.table.listed().len() <= before,
                without_flow(self@, flow_id) == without_flow(old(self)@, flow_id),
                forall|j: int|
                    0 <= j < i ==> (#[trigger] self.table.listed()[j]).1.path.flow_id != flow_id,
            decreases self.table.listed().len() - i,
        {
            if self.table.entry(i).1.path.flow_id() == flow_id {
                let ghost here = self@;
                self.table.remove_at(i);
                assert(without_flow(self@, flow_id) =~= without_flow(here, flow_id));
            } else {
                i = i + 1;
            }
        }
        proof {
            self.table.lemma_listed();
            assert(self@ =~= without_flow(self@, flow_id));
        }
        before - self.table.len()
    }

    /// Returns the path that messages on `topic` take, or `None` where they stay on the
    /// control flow.
    ///
    /// Of the active bindings off the control flow whose filters match, that with the
    /// lowest flow, then the lowest generation, then the first filter text is taken.
    pub fn route(&self, topic: &str) -> (path: Option<ReplyPath>)
        requires
            self.wf(),
        ensures
            path == bound_path(self@, topic@),
    {
        let ghost slots = self.table.listed();
        let count: usize = self.table.len();
        let mut best: Option<usize> = None;
        let mut i: usize = 0;
        proof {
            self.table.lemma_listed();
        }
        while i < count
            invariant
                self.wf(),
                i <= count,
                count == slots.len(),
                slots == self.table.listed(),
                crate::assoc::lists(slots, self@),
                match best {
                    Some(b) => b < i && eligible(self@, topic@, slots[b as int].0@) && forall|
                        j: int,
                    |
                        0 <= j < i && j != b && eligible(
                            self@,
                            topic@,
                            (#[trigger] slots[j]).0@,
                        ) ==> preferred(self@, slots[b as int].0@, slots[j].0@),
                    None => forall|j: int|
                        0 <= j < i ==> !eligible(self@, topic@, (#[trigger] slots[j]).0@),
                },
            decreases count - i,
        {
            let slot = self.table.entry(i);
            assert(slots[i as int].0.text() == slots[i as int].0@);
            if slot.1.state == BindingState::Active && slot.1.path.flow_id() != FlowId::control()
                && slot.0.matches_str(topic) {
                match best {
                    Some(b) => {
                        if is_preferred(slot, self.table.entry(b)) {
                            proof {
                                assert forall|j: int|
                                    0 <= j < i + 1 && j != i && eligible(
                                        self@,
                                        topic@,
                                        (#[trigger] slots[j]).0@,
                                    ) implies preferred(
                                    self@,
                                    slots[i as int].0@,
                                    slots[j].0@,
                                ) by {
                                    if j != b {
                                        lemma_preferred_is_transitive(
                                            self@,
                                            slots[i as int].0@,
                                            slots[b as int].0@,
                                            slots[j].0@,
                                        );
                                    }
                                }
                            }
                            best = Some(i);
                        } else {
                            proof {
                                lemma_preferred_is_total(
                                    self@,
                                    slots[b as int].0@,
                                    slots[i as int].0@,
                                );
                            }
                        }
                    },
                    None => {
                        best = Some(i);
                    },
                }
            }
            i = i + 1;
        }
        proof {
            assert forall|filter: Seq<char>| #[trigger]
                eligible(self@, topic@, filter) implies exists|j: int|
                0 <= j < slots.len() && (#[trigger] slots[j]).0@ == filter by {
                assert(self@.contains_key(filter));
                let j = choose|j: int|
                    0 <= j < slots.len() && (#[trigger] slots[j]).0.text() == filter;
                assert(slots[j].0@ == filter);
            }
        }
        match best {
            Some(b) => {
                proof {
                    let filter = slots[b as int].0@;
                    assert(most_preferred(self@, topic@, filter));
                    let chosen = choose|f: Seq<char>| most_preferred(self@, topic@, f);
                    most_preferred_is_unique(self@, topic@, filter, chosen);
                }
                Some(self.table.entry(b).1.path)
            },
            None => None,
        }
    }
}

/// The bindings once that of `filter`, where there is one, is active.
pub open spec fn activated(bindings: Bindings, filter: Seq<char>) -> Bindings {
    if bindings.contains_key(filter) {
        bindings.insert(
            filter,
            Binding { path: bindings[filter].path, state: BindingState::Active },
        )
    } else {
        bindings
    }
}

/// Returns whether `a` is preferred to `b`.
fn is_preferred(a: &(TopicFilter, Binding), b: &(TopicFilter, Binding)) -> (yes: bool)
    ensures
        yes == {
            let x = a.1.path;
            let y = b.1.path;
            ||| x.flow_id.0 < y.flow_id.0
            ||| x.flow_id.0 == y.flow_id.0 && x.generation < y.generation
            ||| x.flow_id.0 == y.flow_id.0 && x.generation == y.generation
                && crate::text::text_before(a.0@, b.0@)
        },
{
    let x = a.1.path;
    let y = b.1.path;
    if x.flow_id().get() != y.flow_id().get() {
        x.flow_id().get() < y.flow_id().get()
    } else if x.generation() != y.generation() {
        x.generation() < y.generation()
    } else {
        is_text_before(a.0.as_str(), b.0.as_str())
    }
}

proof fn lemma_most_preferred_exists(bindings: Bindings, topic: Seq<char>)
    requires
        bindings.dom().finite(),
        exists|filter: Seq<char>| #[trigger] eligible(bindings, topic, filter),
    ensures
        exists|filter: Seq<char>| most_preferred(bindings, topic, filter),
{
    let candidates = bindings.dom().filter(|filter: Seq<char>| eligible(bindings, topic, filter));
    let some = choose|filter: Seq<char>| #[trigger] eligible(bindings, topic, filter);
    assert(candidates.contains(some));
    let before = |a: Seq<char>, b: Seq<char>| a == b || preferred(bindings, a, b);
    assert(vstd::relations::total_ordering(before)) by {
        assert forall|a: Seq<char>, b: Seq<char>| #[trigger] before(a, b) && #[trigger] before(b, a) implies a == b by {
            if a != b {
                lemma_preferred_is_asymmetric(bindings, a, b);
            }
        }
        assert forall|a: Seq<char>, b: Seq<char>, c: Seq<char>|
            #[trigger] before(a, b) && #[trigger] before(b, c) implies before(a, c) by {
            if a != b && b != c {
                lemma_preferred_is_transitive(bindings, a, b, c);
            }
        }
        assert forall|a: Seq<char>, b: Seq<char>| #[trigger] before(a, b) || #[trigger] before(b, a) by {
            lemma_preferred_is_total(bindings, a, b);
        }
    }
    candidates.find_unique_minimal_ensures(before);
    let first = candidates.find_unique_minimal(before);
    assert(most_preferred(bindings, topic, first)) by {
        assert forall|other: Seq<char>| #[trigger]
            eligible(bindings, topic, other) && other != first implies preferred(
            bindings,
            first,
            other,
        ) by {
            assert(candidates.contains(other));
            assert(before(first, other) || before(other, first));
        }
    }
}

/// A message leaves the control flow only along an active binding whose filter matches its
/// topic, and of those bindings along the one on the lowest flow; on one flow along that of the
/// lowest generation, and within one generation along that of the first filter in the order of
/// texts.
pub proof fn messages_follow_the_lowest_active_data_flow(bindings: Bindings, topic: Seq<char>)
    requires
        bindings.dom().finite(),
    ensures
        bound_path(bindings, topic) is None <==> forall|filter: Seq<char>|
            !(#[trigger] eligible(bindings, topic, filter)),
        bound_path(bindings, topic) matches Some(path) ==> {
            &&& path.flow_id != FlowId::control()
            &&& exists|filter: Seq<char>| #[trigger]
                most_preferred(bindings, topic, filter) && eligible(bindings, topic, filter)
                    && bindings[filter].path == path
            &&& forall|filter: Seq<char>| #[trigger]
                most_preferred(bindings, topic, filter) ==> bindings[filter].path == path
            &&& forall|filter: Seq<char>| #[trigger]
                eligible(bindings, topic, filter) ==> path.flow_id.0
                    <= bindings[filter].path.flow_id.0
        },
{
    if exists|filter: Seq<char>| #[trigger] eligible(bindings, topic, filter) {
        lemma_most_preferred_exists(bindings, topic);
        let chosen = choose|filter: Seq<char>| most_preferred(bindings, topic, filter);
        assert(eligible(bindings, topic, chosen));
        assert forall|filter: Seq<char>| #[trigger]
            most_preferred(bindings, topic, filter) implies filter == chosen by {
            most_preferred_is_unique(bindings, topic, filter, chosen);
        }
    }
}

/// A binding leads no message before its SUBACK has been sent: with the binding begun and
/// not activated, every message takes the path it would take without that binding.
pub proof fn pending_bindings_lead_no_message(
    bindings: Bindings,
    filter: Seq<char>,
    path: ReplyPath,
    topic: Seq<char>,
)
    requires
        bindings.dom().finite(),
    ensures
        bound_path(
            bindings.insert(filter, Binding { path, state: BindingState::PendingAck }),
            topic,
        ) == bound_path(bindings.remove(filter), topic),
{
    let begun = bindings.insert(filter, Binding { path, state: BindingState::PendingAck });
    let gone = bindings.remove(filter);
    lemma_same_candidates(begun, gone, topic);
}

/// Bindings to the control flow lead no message anywhere else.
pub proof fn control_bindings_lead_no_message(
    bindings: Bindings,
    filter: Seq<char>,
    binding: Binding,
    topic: Seq<char>,
)
    requires
        bindings.dom().finite(),
        binding.path.flow_id == FlowId::control(),
    ensures
        bound_path(bindings.insert(filter, binding), topic) == bound_path(
            bindings.remove(filter),
            topic,
        ),
{
    lemma_same_candidates(bindings.insert(filter, binding), bindings.remove(filter), topic);
}

/// Once the bindings of a flow have been removed no message takes a path on it.
pub proof fn removed_flows_lead_no_message(bindings: Bindings, flow_id: FlowId, topic: Seq<char>)
    requires
        bindings.dom().finite(),
    ensures
        bound_path(without_flow(bindings, flow_id), topic) matches Some(path) ==> path.flow_id
            != flow_id,
{
    let left = without_flow(bindings, flow_id);
    assert(left.dom().subset_of(bindings.dom()));
    vstd::set_lib::lemma_len_subset(left.dom(), bindings.dom());
    messages_follow_the_lowest_active_data_flow(left, topic);
}

proof fn lemma_same_candidates(a: Bindings, b: Bindings, topic: Seq<char>)
    requires
        a.dom().finite(),
        b.dom().finite(),
        forall|filter: Seq<char>|
            eligible(a, topic, filter) == eligible(b, topic, filter),
        forall|filter: Seq<char>| #[trigger] eligible(a, topic, filter) ==> a[filter] == b[filter],
    ensures
        bound_path(a, topic) == bound_path(b, topic),
{
    if exists|filter: Seq<char>| #[trigger] eligible(a, topic, filter) {
        let some = choose|filter: Seq<char>| #[trigger] eligible(a, topic, filter);
        assert(eligible(b, topic, some));
        lemma_most_preferred_exists(a, topic);
        lemma_most_preferred_exists(b, topic);
        let x = choose|filter: Seq<char>| most_preferred(a, topic, filter);
        let y = choose|filter: Seq<char>| most_preferred(b, topic, filter);
        assert(most_preferred(b, topic, x)) by {
            assert(eligible(b, topic, x));
            assert forall|other: Seq<char>| #[trigger]
                eligible(b, topic, other) && other != x implies preferred(b, x, other) by {
                assert(eligible(a, topic, other));
                assert(preferred(a, x, other));
            }
        }
        most_preferred_is_unique(b, topic, x, y);
    } else {
        assert forall|filter: Seq<char>| !(#[trigger] eligible(b, topic, filter)) by {
            assert(!eligible(a, topic, filter));
        }
    }
}

/// A message follows a binding that is active, on a data flow, and whose filter matches its
/// topic, or one that comes before it: on a lower flow, or on the same flow in a lower
/// generation.
pub proof fn active_bindings_lead_their_messages(
    bindings: Bindings,
    filter: Seq<char>,
    topic: Seq<char>,
)
    requires
        bindings.dom().finite(),
        bindings.contains_key(filter),
        bindings[filter].state == BindingState::Active,
        bindings[filter].path.flow_id.0 != 0,
        crate::topic::filter_matches(filter, topic),
    ensures
        bound_path(bindings, topic) matches Some(path) && path.flow_id.0 != 0 && (
        path.flow_id.0 < bindings[filter].path.flow_id.0 || path.flow_id.0
            == bindings[filter].path.flow_id.0 && path.generation
            <= bindings[filter].path.generation),
{
    assert(eligible(bindings, topic, filter));
    messages_follow_the_lowest_active_data_flow(bindings, topic);
    let chosen = choose|chosen: Seq<char>| #[trigger]
        most_preferred(bindings, topic, chosen) && eligible(bindings, topic, chosen)
            && bindings[chosen].path == bound_path(bindings, topic)->0;
    if chosen != filter {
        assert(preferred(bindings, chosen, filter));
    }
}

/// Where only one binding can lead a message, it does: the message takes exactly its path.
pub proof fn single_bindings_lead_to_their_path(
    filter: Seq<char>,
    binding: Binding,
    topic: Seq<char>,
)
    requires
        binding.state == BindingState::Active,
        binding.path.flow_id.0 != 0,
        crate::topic::filter_matches(filter, topic),
    ensures
        bound_path(Map::<Seq<char>, Binding>::empty().insert(filter, binding), topic) == Some(
            binding.path,
        ),
        bound_path(Map::<Seq<char>, Binding>::empty(), topic) is None,
{
    let bindings = Map::<Seq<char>, Binding>::empty().insert(filter, binding);
    assert(eligible(bindings, topic, filter));
    messages_follow_the_lowest_active_data_flow(bindings, topic);
    messages_follow_the_lowest_active_data_flow(Map::<Seq<char>, Binding>::empty(), topic);
}

/// A binding leads no message on a topic that its filter does not match.
pub proof fn other_topics_are_not_led(bindings: Bindings, topic: Seq<char>)
    requires
        bindings.dom().finite(),
        forall|filter: Seq<char>| #[trigger]
            bindings.contains_key(filter) ==> !crate::topic::filter_matches(filter, topic),
    ensures
        bound_path(bindings, topic) is None,
{
}

/// Activating a binding changes its state and nothing else: it keeps its path, no other binding
/// is touched, and a filter without a binding does not get one.
pub proof fn activation_keeps_the_path(bindings: Bindings, filter: Seq<char>, other: Seq<char>)
    ensures
        ({
            let after = activated(bindings, filter);
            &&& after.contains_key(other) == bindings.contains_key(other)
            &&& bindings.contains_key(filter) ==> after[filter].state == BindingState::Active
                && after[filter].path == bindings[filter].path
            &&& other != filter ==> after[other] == bindings[other]
        }),
{
}

/// Removing the bindings of a flow removes those and leaves all others as they are.
pub proof fn removed_bindings_are_those_of_the_flow(
    bindings: Bindings,
    flow_id: FlowId,
    filter: Seq<char>,
)
    ensures
        without_flow(bindings, flow_id).contains_key(filter) <==> bindings.contains_key(filter)
            && bindings[filter].path.flow_id.0 != flow_id.0,
        without_flow(bindings, flow_id).contains_key(filter) ==> without_flow(
            bindings,
            flow_id,
        )[filter] == bindings[filter],
{
}

} // verus!
