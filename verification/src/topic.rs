//! MQTT topic filters.
//!
//! A filter is a sequence of levels separated by `/`. The level `+` stands for
//! exactly one level of a topic name, the level `#`, which comes last, for any
//! number of them. A filter that begins with a wildcard matches no topic name
//! that begins with `$`.

use vstd::prelude::*;

use crate::assoc::TableKey;
use crate::text::{chars_of, same_chars, same_text};

verus! {

/// The levels of a topic name or filter.
pub open spec fn levels(text: Seq<char>) -> Seq<Seq<char>>
    decreases text.len(),
{
    if text.len() == 0 {
        seq![Seq::empty()]
    } else {
        let before = levels(text.drop_last());
        if text.last() == '/' {
            before.push(Seq::empty())
        } else {
            before.update(before.len() - 1, before.last().push(text.last()))
        }
    }
}

/// The level that stands for exactly one level.
pub open spec fn single_wildcard() -> Seq<char> {
    seq!['+']
}

/// The level that stands for all further levels.
pub open spec fn multi_wildcard() -> Seq<char> {
    seq!['#']
}

/// Whether `level` is a wildcard or holds no wildcard character.
pub open spec fn well_formed_level(level: Seq<char>) -> bool {
    level == single_wildcard() || level == multi_wildcard() || (!level.contains('+')
        && !level.contains('#'))
}

/// Whether `text` is a topic filter.
pub open spec fn is_filter(text: Seq<char>) -> bool {
    forall|i: int|
        0 <= i < levels(text).len() ==> well_formed_level(#[trigger] levels(text)[i]) && (levels(
            text,
        )[i] == multi_wildcard() ==> i == levels(text).len() - 1)
}

/// Whether the levels of a filter match the levels of a topic name, wildcards at the
/// start included.
pub open spec fn levels_match(filter: Seq<Seq<char>>, topic: Seq<Seq<char>>) -> bool
    decreases filter.len(),
{
    if filter.len() == 0 {
        topic.len() == 0
    } else if filter[0] == multi_wildcard() {
        true
    } else if topic.len() == 0 {
        false
    } else {
        (filter[0] == single_wildcard() || filter[0] == topic[0]) && levels_match(
            filter.drop_first(),
            topic.drop_first(),
        )
    }
}

/// Whether `filter` matches the topic name `topic`.
pub open spec fn filter_matches(filter: Seq<char>, topic: Seq<char>) -> bool {
    let first = levels(filter)[0];
    &&& levels_match(levels(filter), levels(topic))
    &&& !(topic.len() > 0 && topic[0] == '$' && (first == single_wildcard() || first
        == multi_wildcard()))
}

/// A text has at least one level.
pub proof fn levels_are_not_empty(text: Seq<char>)
    ensures
        levels(text).len() >= 1,
    decreases text.len(),
{
    if text.len() > 0 {
        levels_are_not_empty(text.drop_last());
    }
}

/// Returns the levels of `text`.
fn split_levels(text: &str) -> (parts: Vec<Vec<char>>)
    ensures
        parts@.len() == levels(text@).len(),
        forall|i: int| 0 <= i < parts@.len() ==> (#[trigger] parts@[i])@ == levels(text@)[i],
        parts@.len() >= 1,
{
    let chars = chars_of(text);
    let mut parts: Vec<Vec<char>> = Vec::new();
    let mut current: Vec<char> = Vec::new();
    let mut i: usize = 0;
    assert(chars@.take(0) =~= Seq::<char>::empty());
    while i < chars.len()
        invariant
            i <= chars.len(),
            chars@ == text@,
            levels(chars@.take(i as int)).len() == parts@.len() + 1,
            forall|j: int|
                0 <= j < parts@.len() ==> (#[trigger] parts@[j])@ == levels(
                    chars@.take(i as int),
                )[j],
            current@ == levels(chars@.take(i as int))[parts@.len() as int],
        decreases chars.len() - i,
    {
        let c: char = chars[i];
        let ghost before = levels(chars@.take(i as int));
        let ghost done = parts@;
        proof {
            assert(chars@.take(i as int + 1).drop_last() =~= chars@.take(i as int));
            assert(chars@.take(i as int + 1).last() == c);
        }
        if c == '/' {
            parts.push(current);
            current = Vec::new();
            assert(levels(chars@.take(i as int + 1)) == before.push(Seq::empty()));
        } else {
            current.push(c);
        }
        i = i + 1;
    }
    assert(chars@.take(chars@.len() as int) =~= text@);
    parts.push(current);
    parts
}

/// Returns whether `level` is the single character `c`.
fn is_level(level: &Vec<char>, c: char) -> (is: bool)
    ensures
        is == (level@ == seq![c]),
{
    let is: bool = level.len() == 1 && level[0] == c;
    assert(is ==> level@ =~= seq![c]);
    is
}

/// Returns whether `level` is a wildcard or holds no wildcard character.
fn is_well_formed_level(level: &Vec<char>) -> (ok: bool)
    ensures
        ok == well_formed_level(level@),
{
    if is_level(level, '+') || is_level(level, '#') {
        return true;
    }
    let mut i: usize = 0;
    while i < level.len()
        invariant
            i <= level.len(),
            level@ != single_wildcard(),
            level@ != multi_wildcard(),
            forall|j: int| 0 <= j < i ==> #[trigger] level@[j] != '+' && level@[j] != '#',
        decreases level.len() - i,
    {
        if level[i] == '+' || level[i] == '#' {
            assert(level@.contains(level@[i as int]));
            return false;
        }
        i = i + 1;
    }
    true
}

/// A valid topic filter.
#[derive(Debug)]
pub struct TopicFilter {
    text: String,
}

impl View for TopicFilter {
    type V = Seq<char>;

    closed spec fn view(&self) -> Seq<char> {
        self.text@
    }
}

impl Clone for TopicFilter {
    fn clone(&self) -> (copy: Self)
        ensures
            copy@ == self@,
    {
        proof {
            use_type_invariant(self);
        }
        TopicFilter { text: self.text.clone() }
    }
}

impl TableKey for TopicFilter {
    type Text = Seq<char>;

    open spec fn text(&self) -> Seq<char> {
        self@
    }

    fn same(&self, other: &Self) -> (same: bool) {
        same_text(self.text.as_str(), other.text.as_str())
    }
}

impl TopicFilter {
    #[verifier::type_invariant]
    spec fn inv(self) -> bool {
        is_filter(self.text@)
    }

    /// Parses a topic filter; `None` where a wildcard character stands beside others in a
    /// level, or `#` before the last level.
    pub fn parse(text: &str) -> (filter: Option<TopicFilter>)
        ensures
            match filter {
                Some(filter) => is_filter(text@) && filter@ == text@,
                None => !is_filter(text@),
            },
    {
        let parts = split_levels(text);
        let mut i: usize = 0;
        while i < parts.len()
            invariant
                i <= parts.len(),
                parts@.len() == levels(text@).len(),
                forall|j: int|
                    0 <= j < parts@.len() ==> (#[trigger] parts@[j])@ == levels(text@)[j],
                forall|j: int|
                    0 <= j < i ==> well_formed_level(#[trigger] levels(text@)[j]) && (levels(
                        text@,
                    )[j] == multi_wildcard() ==> j == levels(text@).len() - 1),
            decreases parts.len() - i,
        {
            assert(parts@[i as int]@ == levels(text@)[i as int]);
            if !is_well_formed_level(&parts[i]) {
                return None;
            }
            if is_level(&parts[i], '#') && i != parts.len() - 1 {
                return None;
            }
            i = i + 1;
        }
        Some(TopicFilter { text: text.to_owned() })
    }

    /// Returns the text of the filter.
    pub fn as_str(&self) -> (text: &str)
        ensures
            text@ == self@,
            is_filter(self@),
    {
        proof {
            use_type_invariant(self);
        }
        self.text.as_str()
    }

    /// Returns the number of levels.
    pub fn len(&self) -> (count: usize)
        ensures
            count == levels(self@).len(),
            count >= 1,
    {
        split_levels(self.text.as_str()).len()
    }

    /// Returns whether the filter matches a topic name.
    pub fn matches_str(&self, topic: &str) -> (matched: bool)
        ensures
            matched == filter_matches(self@, topic@),
    {
        let filter = split_levels(self.text.as_str());
        let name = split_levels(topic);
        let name_chars = chars_of(topic);
        if name_chars.len() > 0 && name_chars[0] == '$' && (is_level(&filter[0], '+') || is_level(
            &filter[0],
            '#',
        )) {
            return false;
        }
        let ghost f = levels(self@);
        let ghost t = levels(topic@);
        let mut i: usize = 0;
        assert(f.skip(0) =~= f && t.skip(0) =~= t);
        while i < filter.len()
            invariant
                i <= filter.len(),
                i <= name.len(),
                f == levels(self@),
                t == levels(topic@),
                filter@.len() == f.len(),
                name@.len() == t.len(),
                forall|j: int| 0 <= j < filter@.len() ==> (#[trigger] filter@[j])@ == f[j],
                forall|j: int| 0 <= j < name@.len() ==> (#[trigger] name@[j])@ == t[j],
                !(topic@.len() > 0 && topic@[0] == '$' && (f[0] == single_wildcard() || f[0]
                    == multi_wildcard())),
                levels_match(f, t) == levels_match(f.skip(i as int), t.skip(i as int)),
            decreases filter.len() - i,
        {
            proof {
                assert(filter@[i as int]@ == f[i as int]);
                assert(f.skip(i as int)[0] == f[i as int]);
                assert(f.skip(i as int).drop_first() =~= f.skip(i as int + 1));
                if i < name@.len() {
                    assert(name@[i as int]@ == t[i as int]);
                    assert(t.skip(i as int)[0] == t[i as int]);
                    assert(t.skip(i as int).drop_first() =~= t.skip(i as int + 1));
                }
            }
            if is_level(&filter[i], '#') {
                return true;
            }
            if i >= name.len() {
                return false;
            }
            if !is_level(&filter[i], '+') && !same_chars(&filter[i], &name[i]) {
                return false;
            }
            i = i + 1;
        }
        i == name.len()
    }
}

/// A filter without wildcards matches the topic name that it spells.
pub proof fn plain_filters_match_themselves(filter: Seq<char>)
    requires
        !filter.contains('+'),
        !filter.contains('#'),
    ensures
        filter_matches(filter, filter),
{
    lemma_plain_levels(filter);
    levels_are_not_empty(filter);
    lemma_match_self(levels(filter));
}

proof fn lemma_plain_levels(text: Seq<char>)
    requires
        !text.contains('+'),
        !text.contains('#'),
    ensures
        forall|i: int|
            0 <= i < levels(text).len() ==> !(#[trigger] levels(text)[i]).contains('+')
                && !levels(text)[i].contains('#'),
        forall|i: int|
            0 <= i < levels(text).len() ==> #[trigger] levels(text)[i] != single_wildcard()
                && levels(text)[i] != multi_wildcard(),
    decreases text.len(),
{
    levels_are_not_empty(text);
    if text.len() > 0 {
        let rest = text.drop_last();
        levels_are_not_empty(rest);
        assert forall|c: char| rest.contains(c) implies text.contains(c) by {
            let j = rest.index_of(c);
            assert(text[j] == c);
        }
        lemma_plain_levels(rest);
        assert(text.contains(text.last()));
        let old_last = levels(rest).last();
        assert forall|c: char| old_last.push(text.last()).contains(c) && c != text.last() implies old_last.contains(c) by {
            let j = old_last.push(text.last()).index_of(c);
            assert(old_last[j] == c);
        }
    }
    assert forall|i: int| 0 <= i < levels(text).len() implies #[trigger] levels(text)[i]
        != single_wildcard() && levels(text)[i] != multi_wildcard() by {
        assert(single_wildcard()[0] == '+');
        assert(multi_wildcard()[0] == '#');
        assert(single_wildcard().contains('+'));
        assert(multi_wildcard().contains('#'));
        assert(!levels(text)[i].contains('+'));
    }
}

proof fn lemma_match_self(parts: Seq<Seq<char>>)
    ensures
        levels_match(parts, parts),
    decreases parts.len(),
{
    if parts.len() > 0 {
        lemma_match_self(parts.drop_first());
    }
}

/// The text that levels spell, with `/` between them.
pub open spec fn joined(parts: Seq<Seq<char>>) -> Seq<char>
    decreases parts.len(),
{
    if parts.len() == 0 {
        Seq::empty()
    } else if parts.len() == 1 {
        parts[0]
    } else {
        joined(parts.drop_last()).push('/') + parts.last()
    }
}

/// The levels of a text are what stands between its slashes: joined they spell the text, and
/// none of them holds a slash.
pub proof fn levels_stand_between_slashes(text: Seq<char>)
    ensures
        joined(levels(text)) == text,
        forall|i: int|
            0 <= i < levels(text).len() ==> !(#[trigger] levels(text)[i]).contains('/'),
    decreases text.len(),
{
    levels_are_not_empty(text);
    if text.len() > 0 {
        let rest = text.drop_last();
        let before = levels(rest);
        levels_are_not_empty(rest);
        levels_stand_between_slashes(rest);
        let c = text.last();
        assert(text =~= rest.push(c));
        if c == '/' {
            assert(levels(text).drop_last() =~= before);
            assert(joined(levels(text)) =~= rest.push('/'));
        } else {
            let longer = before.last().push(c);
            assert(levels(text).last() == longer);
            if before.len() == 1 {
                assert(joined(levels(text)) =~= rest.push(c));
            } else {
                assert(levels(text).drop_last() =~= before.drop_last());
                assert(joined(levels(text)) =~= rest.push(c));
            }
            assert forall|i: int| 0 <= i < levels(text).len() implies !(#[trigger] levels(
                text,
            )[i]).contains('/') by {
                if i == before.len() - 1 {
                    if longer.contains('/') {
                        let j = longer.index_of('/');
                        assert(before.last()[j] == '/');
                    }
                } else {
                    assert(levels(text)[i] == before[i]);
                }
            }
        }
    } else {
        assert(joined(levels(text)) =~= text);
    }
}

/// A text is a topic filter exactly if each of its levels is `+`, or `#` in the last place, or
/// holds neither of the two characters.
pub proof fn wildcards_fill_whole_levels(text: Seq<char>)
    ensures
        is_filter(text) <==> forall|i: int|
            0 <= i < levels(text).len() ==> ({
                let level = #[trigger] levels(text)[i];
                ||| level == seq!['+']
                ||| level == seq!['#'] && i == levels(text).len() - 1
                ||| !level.contains('+') && !level.contains('#')
            }),
{
    assert(seq!['+'][0] == '+' && seq!['#'][0] == '#');
    assert(seq!['#'].contains('#'));
    assert(seq!['+'] != seq!['#']);
}

/// Without `#`, a filter matches the topic names that have as many levels as it has and agree
/// with it in each level but those where it has `+`.
pub proof fn filters_match_level_by_level(filter: Seq<Seq<char>>, topic: Seq<Seq<char>>)
    requires
        forall|i: int| 0 <= i < filter.len() ==> #[trigger] filter[i] != seq!['#'],
    ensures
        levels_match(filter, topic) <==> filter.len() == topic.len() && forall|i: int|
            0 <= i < filter.len() ==> (#[trigger] filter[i] == seq!['+'] || filter[i] == topic[i]),
    decreases filter.len(),
{
    if filter.len() > 0 {
        assert(filter[0] != seq!['#']);
        if topic.len() > 0 {
            let f = filter.drop_first();
            let t = topic.drop_first();
            assert forall|i: int| 0 <= i < f.len() implies #[trigger] f[i] != seq!['#'] by {
                assert(f[i] == filter[i + 1]);
            }
            filters_match_level_by_level(f, t);
            if levels_match(filter, topic) {
                assert forall|i: int| 0 <= i < filter.len() implies (#[trigger] filter[i]
                    == seq!['+'] || filter[i] == topic[i]) by {
                    if i > 0 {
                        assert(f[i - 1] == filter[i]);
                        assert(t[i - 1] == topic[i]);
                    }
                }
            }
            if filter.len() == topic.len() && forall|i: int|
                0 <= i < filter.len() ==> (#[trigger] filter[i] == seq!['+'] || filter[i]
                    == topic[i]) {
                assert(filter[0] == seq!['+'] || filter[0] == topic[0]);
                assert forall|i: int| 0 <= i < f.len() implies (#[trigger] f[i] == seq!['+']
                    || f[i] == t[i]) by {
                    assert(f[i] == filter[i + 1]);
                    assert(t[i] == topic[i + 1]);
                }
            }
        }
    }
}

/// A filter that ends in `#` matches the topic names whose first levels the rest of the filter
/// matches, with whatever follows them, be it nothing.
pub proof fn multi_wildcards_match_the_rest(first: Seq<Seq<char>>, topic: Seq<Seq<char>>)
    requires
        forall|i: int| 0 <= i < first.len() ==> #[trigger] first[i] != seq!['#'],
    ensures
        levels_match(first.push(seq!['#']), topic) <==> first.len() <= topic.len() && levels_match(
            first,
            topic.take(first.len() as int),
        ),
    decreases first.len(),
{
    let filter = first.push(seq!['#']);
    if first.len() == 0 {
        assert(filter[0] == seq!['#']);
    } else {
        assert(filter[0] == first[0]);
        if topic.len() > 0 {
            let rest = first.drop_first();
            assert forall|i: int| 0 <= i < rest.len() implies #[trigger] rest[i] != seq!['#'] by {
                assert(rest[i] == first[i + 1]);
            }
            multi_wildcards_match_the_rest(rest, topic.drop_first());
            assert(filter.drop_first() =~= rest.push(seq!['#']));
            if first.len() <= topic.len() {
                assert(topic.take(first.len() as int).drop_first() =~= topic.drop_first().take(
                    rest.len() as int,
                ));
            }
        }
    }
}

/// Topic names that begin with `$` are matched only by filters that spell out their first
/// level; all others are matched by their levels alone.
pub proof fn reserved_topics_need_their_first_level(filter: Seq<char>, topic: Seq<char>)
    ensures
        topic.len() > 0 && topic[0] == '$' && (levels(filter)[0] == seq!['+'] || levels(filter)[0]
            == seq!['#']) ==> !filter_matches(filter, topic),
        topic.len() == 0 || topic[0] != '$' || (levels(filter)[0] != seq!['+'] && levels(filter)[0]
            != seq!['#']) ==> filter_matches(filter, topic) == levels_match(
            levels(filter),
            levels(topic),
        ),
{
}

} // verus!
