//! Walks over hash tables.

use std::collections::HashMap;
use std::hash::Hash;

use vstd::prelude::*;

verus! {

broadcast use vstd::std_specs::hash::group_hash_axioms;

/// Returns the keys of `table`, each once, in no particular order.
pub fn keys_of<K: Copy + Eq + Hash, V>(table: &HashMap<K, V>) -> (keys: Vec<K>)
    requires
        vstd::std_specs::hash::obeys_key_model::<K>(),
    ensures
        keys@.no_duplicates(),
        keys@.to_set() == table@.dom(),
        keys@.len() == table@.dom().len(),
        forall|k: K| #[trigger] table@.contains_key(k) <==> keys@.contains(k),
{
    let mut keys: Vec<K> = Vec::new();
    for key in it: table.keys()
        invariant
            vstd::std_specs::hash::obeys_key_model::<K>(),
            it.seq() == vstd::std_specs::iter::IteratorSpec::remaining(&table.keys()),
            keys@.len() == it.index(),
            forall|i: int| 0 <= i < keys@.len() ==> keys@[i] == *#[trigger] it.seq()[i],
    {
        keys.push(*key);
    }
    proof {
        let seq = vstd::std_specs::iter::IteratorSpec::remaining(&table.keys());
        assert(keys@ =~= seq.unref());
        assert(keys@.to_set() == table@.dom());
        assert forall|k: K| #[trigger] table@.contains_key(k) <==> keys@.contains(k) by {
            assert(table@.dom().contains(k) == keys@.to_set().contains(k));
        }
    }
    keys
}

} // verus!
