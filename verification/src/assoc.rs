//! Tables over keys that can be told apart but not hashed.

use vstd::prelude::*;

use crate::text::same_text;

verus! {

/// A key of a [`Table`].
pub trait TableKey: Sized {
    /// What two keys have in common where they are the same key.
    type Text;

    /// What makes the key that key.
    spec fn text(&self) -> Self::Text;

    /// Returns whether two keys are the same key.
    fn same(&self, other: &Self) -> (same: bool)
        ensures
            same == (self.text() == other.text()),
    ;
}

impl TableKey for String {
    type Text = Seq<char>;

    open spec fn text(&self) -> Seq<char> {
        self@
    }

    fn same(&self, other: &Self) -> (same: bool) {
        same_text(self.as_str(), other.as_str())
    }
}

impl TableKey for Vec<u8> {
    type Text = Seq<u8>;

    open spec fn text(&self) -> Seq<u8> {
        self@
    }

    fn same(&self, other: &Self) -> (same: bool) {
        if self.len() != other.len() {
            return false;
        }
        let mut i: usize = 0;
        while i < self.len()
            invariant
                i <= self.len(),
                self.len() == other.len(),
                forall|j: int| 0 <= j < i ==> self@[j] == other@[j],
            decreases self.len() - i,
        {
            if self[i] != other[i] {
                return false;
            }
            i = i + 1;
        }
        assert(self@ =~= other@);
        true
    }
}

/// A table in which no key occurs twice.
#[derive(Debug)]
pub struct Table<K, V> {
    entries: Vec<(K, V)>,
}

spec fn at<K: TableKey, V>(entries: Seq<(K, V)>, text: K::Text, i: int) -> bool {
    0 <= i < entries.len() && entries[i].0.text() == text
}

spec fn table_of<K: TableKey, V>(entries: Seq<(K, V)>) -> Map<K::Text, V> {
    Map::new(
        |text: K::Text| exists|i: int| #[trigger] at(entries, text, i),
        |text: K::Text| entries[choose|i: int| #[trigger] at(entries, text, i)].1,
    )
}

spec fn distinct<K: TableKey, V>(entries: Seq<(K, V)>) -> bool {
    forall|i: int, j: int|
        0 <= i < entries.len() && 0 <= j < entries.len() && i != j ==> (
        #[trigger] entries[i]).0.text() != (#[trigger] entries[j]).0.text()
}

proof fn lemma_at<K: TableKey, V>(entries: Seq<(K, V)>, i: int)
    requires
        distinct(entries),
        0 <= i < entries.len(),
    ensures
        table_of(entries).contains_key(entries[i].0.text()),
        table_of(entries)[entries[i].0.text()] == entries[i].1,
{
    assert(at(entries, entries[i].0.text(), i));
    let j = choose|j: int| #[trigger] at(entries, entries[i].0.text(), j);
    assert(j == i);
}

proof fn lemma_push<K: TableKey, V>(before: Seq<(K, V)>, after: Seq<(K, V)>)
    requires
        distinct(before),
        after.len() == before.len() + 1,
        forall|j: int| 0 <= j < before.len() ==> after[j] == before[j],
        !table_of(before).contains_key(after.last().0.text()),
    ensures
        distinct(after),
        table_of(after) == table_of(before).insert(after.last().0.text(), after.last().1),
{
    let new = after.last();
    let text = new.0.text();
    assert forall|j: int| 0 <= j < before.len() implies (#[trigger] before[j]).0.text()
        != text by {
        lemma_at(before, j);
    }
    assert(distinct(after));
    lemma_at(after, before.len() as int);
    assert forall|key: K::Text| table_of(after).contains_key(key) == table_of(before).insert(
        text,
        new.1,
    ).contains_key(key) by {
        if table_of(after).contains_key(key) {
            let j = choose|j: int| #[trigger] at(after, key, j);
            if j < before.len() {
                assert(at(before, key, j));
            }
        }
        if table_of(before).contains_key(key) {
            let j = choose|j: int| #[trigger] at(before, key, j);
            assert(at(after, key, j));
        }
    }
    assert forall|key: K::Text| #[trigger] table_of(after).contains_key(key) implies table_of(
        after,
    )[key] == table_of(before).insert(text, new.1)[key] by {
        let j = choose|j: int| #[trigger] at(after, key, j);
        lemma_at(after, j);
        if j < before.len() {
            lemma_at(before, j);
        }
    }
    assert(table_of(after) =~= table_of(before).insert(text, new.1));
}

proof fn lemma_remove<K: TableKey, V>(before: Seq<(K, V)>, after: Seq<(K, V)>, i: int)
    requires
        distinct(before),
        0 <= i < before.len(),
        after == before.remove(i),
    ensures
        distinct(after),
        table_of(after) == table_of(before).remove(before[i].0.text()),
{
    let text = before[i].0.text();
    assert forall|key: K::Text| table_of(after).contains_key(key) == table_of(before).remove(
        text,
    ).contains_key(key) by {
        if table_of(after).contains_key(key) {
            let j = choose|j: int| #[trigger] at(after, key, j);
            let k = if j < i {
                j
            } else {
                j + 1
            };
            assert(after[j] == before[k]);
            assert(at(before, key, k));
        }
        if table_of(before).contains_key(key) && key != text {
            let k = choose|k: int| #[trigger] at(before, key, k);
            let j = if k < i {
                k
            } else {
                k - 1
            };
            assert(after[j] == before[k]);
            assert(at(after, key, j));
        }
    }
    assert forall|key: K::Text| #[trigger] table_of(after).contains_key(key) implies table_of(
        after,
    )[key] == table_of(before).remove(text)[key] by {
        let j = choose|j: int| #[trigger] at(after, key, j);
        let k = if j < i {
            j
        } else {
            j + 1
        };
        assert(after[j] == before[k]);
        lemma_at(after, j);
        lemma_at(before, k);
    }
    assert(table_of(after) =~= table_of(before).remove(text));
}

proof fn lemma_size<K: TableKey, V>(entries: Seq<(K, V)>)
    requires
        distinct(entries),
    ensures
        table_of(entries).dom().finite(),
        table_of(entries).dom().len() == entries.len(),
    decreases entries.len(),
{
    if entries.len() == 0 {
        assert(table_of(entries).dom() =~= Set::<K::Text>::empty());
    } else {
        let rest = entries.drop_last();
        lemma_size(rest);
        assert(!table_of(rest).contains_key(entries.last().0.text())) by {
            if table_of(rest).contains_key(entries.last().0.text()) {
                let j = choose|j: int| #[trigger] at(rest, entries.last().0.text(), j);
                assert(entries[j].0.text() == entries[entries.len() - 1].0.text());
            }
        }
        lemma_push(rest, entries);
    }
}

/// The table once `entries` have been inserted in order.
pub open spec fn inserted_all<K: TableKey, V>(
    table: Map<K::Text, V>,
    entries: Seq<(K, V)>,
) -> Map<K::Text, V>
    decreases entries.len(),
{
    if entries.len() == 0 {
        table
    } else {
        inserted_all(table.insert(entries[0].0.text(), entries[0].1), entries.drop_first())
    }
}

/// Whether `entries` lists the keys of `table`, each once, with their values.
pub open spec fn lists<K: TableKey, V>(entries: Seq<(K, V)>, table: Map<K::Text, V>) -> bool {
    &&& table.dom().finite()
    &&& entries.len() == table.dom().len()
    &&& forall|i: int|
        0 <= i < entries.len() ==> table.contains_key((#[trigger] entries[i]).0.text())
            && table[entries[i].0.text()] == entries[i].1
    &&& forall|i: int, j: int|
        0 <= i < entries.len() && 0 <= j < entries.len() && i != j ==> (
        #[trigger] entries[i]).0.text() != (#[trigger] entries[j]).0.text()
    &&& forall|text: K::Text| #[trigger]
        table.contains_key(text) ==> exists|i: int|
            0 <= i < entries.len() && (#[trigger] entries[i]).0.text() == text
}

impl<K: TableKey, V> View for Table<K, V> {
    type V = Map<K::Text, V>;

    closed spec fn view(&self) -> Map<K::Text, V> {
        table_of(self.entries@)
    }
}

impl<K: TableKey, V> Table<K, V> {
    /// Whether no key occurs twice.
    pub closed spec fn wf(&self) -> bool {
        distinct(self.entries@)
    }

    /// The entries in the order in which they are kept.
    pub closed spec fn listed(&self) -> Seq<(K, V)> {
        self.entries@
    }

    /// The entries are those of the table.
    pub proof fn lemma_listed(&self)
        requires
            self.wf(),
        ensures
            lists(self.listed(), self@),
    {
        lemma_size(self.entries@);
        assert forall|i: int| 0 <= i < self.entries@.len() implies self@.contains_key(
            (#[trigger] self.entries@[i]).0.text(),
        ) && self@[self.entries@[i].0.text()] == self.entries@[i].1 by {
            lemma_at(self.entries@, i);
        }
        assert forall|text: K::Text| #[trigger] self@.contains_key(text) implies exists|i: int|
            0 <= i < self.entries@.len() && (#[trigger] self.entries@[i]).0.text() == text by {
            let i = choose|i: int| #[trigger] at(self.entries@, text, i);
            assert(self.entries@[i].0.text() == text);
        }
    }

    /// Creates an empty table.
    pub fn new() -> (table: Table<K, V>)
        ensures
            table.wf(),
            table@ == Map::<K::Text, V>::empty(),
    {
        let table = Table { entries: Vec::new() };
        assert(table@ =~= Map::<K::Text, V>::empty());
        table
    }

    /// Returns the number of keys.
    pub fn len(&self) -> (count: usize)
        requires
            self.wf(),
        ensures
            self@.dom().finite(),
            count == self@.dom().len(),
            count == self.listed().len(),
    {
        proof {
            lemma_size(self.entries@);
        }
        self.entries.len()
    }

    /// Returns the entry at an index.
    pub fn entry(&self, i: usize) -> (entry: &(K, V))
        requires
            self.wf(),
            i < self.listed().len(),
        ensures
            *entry == self.listed()[i as int],
            self@.contains_key(entry.0.text()),
            self@[entry.0.text()] == entry.1,
    {
        proof {
            lemma_at(self.entries@, i as int);
        }
        &self.entries[i]
    }

    /// Returns the index of a key, if the table has it.
    pub fn position(&self, key: &K) -> (index: Option<usize>)
        requires
            self.wf(),
        ensures
            match index {
                Some(i) => i < self.listed().len() && self.listed()[i as int].0.text()
                    == key.text() && self@.contains_key(key.text()) && self@[key.text()]
                    == self.listed()[i as int].1,
                None => !self@.contains_key(key.text()),
            },
    {
        let mut i: usize = 0;
        while i < self.entries.len()
            invariant
                self.wf(),
                i <= self.entries.len(),
                forall|j: int|
                    0 <= j < i ==> (#[trigger] self.entries@[j]).0.text() != key.text(),
            decreases self.entries.len() - i,
        {
            if self.entries[i].0.same(key) {
                proof {
                    lemma_at(self.entries@, i as int);
                }
                return Some(i);
            }
            i = i + 1;
        }
        None
    }

    /// Returns the value of a key, if the table has it.
    pub fn get(&self, key: &K) -> (value: Option<&V>)
        requires
            self.wf(),
        ensures
            match value {
                Some(value) => self@.contains_key(key.text()) && self@[key.text()] == *value,
                None => !self@.contains_key(key.text()),
            },
    {
        match self.position(key) {
            Some(i) => Some(&self.entries[i].1),
            None => None,
        }
    }

    /// Inserts a value and returns the one that it replaces.
    pub fn insert(&mut self, key: K, value: V) -> (previous: Option<V>)
        requires
            old(self).wf(),
        ensures
            final(self).wf(),
            final(self)@ == old(self)@.insert(key.text(), value),
            previous == (if old(self)@.contains_key(key.text()) {
                Some(old(self)@[key.text()])
            } else {
                None
            }),
    {
        let previous = match self.remove(&key) {
            Some((_, value)) => Some(value),
            None => None,
        };
        let ghost before = self.entries@;
        let ghost text = key.text();
        self.entries.push((key, value));
        proof {
            lemma_push(before, self.entries@);
            assert(self@ =~= old(self)@.insert(text, value));
        }
        previous
    }

    /// Removes the entry at an index and returns it.
    pub fn remove_at(&mut self, i: usize) -> (entry: (K, V))
        requires
            old(self).wf(),
            i < old(self).listed().len(),
        ensures
            final(self).wf(),
            entry == old(self).listed()[i as int],
            final(self).listed() == old(self).listed().remove(i as int),
            final(self)@ == old(self)@.remove(entry.0.text()),
            old(self)@.contains_key(entry.0.text()),
            old(self)@[entry.0.text()] == entry.1,
    {
        proof {
            lemma_at(self.entries@, i as int);
        }
        let ghost before = self.entries@;
        let entry = self.entries.remove(i);
        proof {
            lemma_remove(before, self.entries@, i as int);
        }
        entry
    }

    /// Removes a key and returns it with its value.
    pub fn remove(&mut self, key: &K) -> (removed: Option<(K, V)>)
        requires
            old(self).wf(),
        ensures
            final(self).wf(),
            final(self)@ == old(self)@.remove(key.text()),
            match removed {
                Some((text, value)) => text.text() == key.text() && old(self)@.contains_key(
                    key.text(),
                ) && value == old(self)@[key.text()],
                None => !old(self)@.contains_key(key.text()),
            },
    {
        match self.position(key) {
            Some(i) => Some(self.remove_at(i)),
            None => {
                assert(self@ =~= old(self)@.remove(key.text()));
                None
            },
        }
    }

    /// Empties the table and returns what it held.
    pub fn drain(&mut self) -> (entries: Vec<(K, V)>)
        requires
            old(self).wf(),
        ensures
            final(self).wf(),
            final(self)@ == Map::<K::Text, V>::empty(),
            lists(entries@, old(self)@),
    {
        proof {
            self.lemma_listed();
        }
        let mut entries: Vec<(K, V)> = Vec::new();
        std::mem::swap(&mut entries, &mut self.entries);
        assert(self@ =~= Map::<K::Text, V>::empty());
        entries
    }

    /// Inserts all of `entries`, in order.
    pub fn extend(&mut self, entries: Vec<(K, V)>)
        requires
            old(self).wf(),
        ensures
            final(self).wf(),
            final(self)@ == inserted_all(old(self)@, entries@),
    {
        let mut rest = entries;
        let ghost all = rest@;
        while rest.len() > 0
            invariant
                self.wf(),
                inserted_all(old(self)@, all) == inserted_all(self@, rest@),
            decreases rest.len(),
        {
            let ghost before = rest@;
            let (key, value) = rest.remove(0);
            assert(before.drop_first() =~= rest@);
            self.insert(key, value);
        }
    }
}

/// Entries are inserted in their order, so that the last one under a key is the one that stays.
pub proof fn later_entries_replace_earlier_ones<K: TableKey, V>(
    table: Map<K::Text, V>,
    entries: Seq<(K, V)>,
    last: (K, V),
)
    ensures
        inserted_all(table, Seq::<(K, V)>::empty()) == table,
        inserted_all(table, entries.push(last)) == inserted_all(table, entries).insert(
            last.0.text(),
            last.1,
        ),
    decreases entries.len(),
{
    let all = entries.push(last);
    if entries.len() == 0 {
        assert(all.drop_first() =~= entries);
        assert(inserted_all(table.insert(last.0.text(), last.1), entries) == table.insert(
            last.0.text(),
            last.1,
        ));
    } else {
        assert(all.drop_first() =~= entries.drop_first().push(last));
        later_entries_replace_earlier_ones(
            table.insert(entries[0].0.text(), entries[0].1),
            entries.drop_first(),
            last,
        );
    }
}

/// A list of a table holds every key of the table once, with its value, and nothing else.
pub proof fn lists_are_whole<K: TableKey, V>(
    entries: Seq<(K, V)>,
    table: Map<K::Text, V>,
    text: K::Text,
    i: int,
    j: int,
)
    requires
        lists(entries, table),
        0 <= i < entries.len(),
        0 <= j < entries.len(),
    ensures
        entries.len() == table.dom().len(),
        table.contains_key(entries[i].0.text()),
        table[entries[i].0.text()] == entries[i].1,
        i != j ==> entries[i].0.text() != entries[j].0.text(),
        table.contains_key(text) <==> exists|k: int|
            0 <= k < entries.len() && (#[trigger] entries[k]).0.text() == text,
{
}

} // verus!
