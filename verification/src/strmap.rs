//! A small map from text to text, kept as a list of entries.
//!
//! It stands where a hash map keyed by strings would: the maps of a peer's
//! configuration hold a handful of entries, and a list can be reasoned
//! about entry by entry. A map that is built from the empty one never
//! holds a key twice.

use vstd::prelude::*;
use crate::json::pairs_view;
use crate::text::str_eq;

verus! {

/// The map that a list of entries stands for: of two entries with one key,
/// the earlier counts.
pub open spec fn map_of(entries: Seq<(Seq<char>, Seq<char>)>) -> Map<Seq<char>, Seq<char>>
    decreases entries.len(),
{
    if entries.len() == 0 {
        Map::empty()
    } else {
        map_of(entries.drop_first()).insert(entries[0].0, entries[0].1)
    }
}

/// The position of the first entry with key `key`, or the number of
/// entries if there is none.
pub open spec fn first_with(entries: Seq<(Seq<char>, Seq<char>)>, key: Seq<char>) -> int
    decreases entries.len(),
{
    if entries.len() == 0 {
        0
    } else if entries[0].0 == key {
        0
    } else {
        1 + first_with(entries.drop_first(), key)
    }
}

/// `first_with` names the first entry with the key, and `map_of` maps the
/// key to that entry's value.
pub proof fn lemma_first_with(entries: Seq<(Seq<char>, Seq<char>)>, key: Seq<char>)
    ensures
        0 <= first_with(entries, key) <= entries.len(),
        forall|j: int| 0 <= j < first_with(entries, key) ==> entries[j].0 != key,
        first_with(entries, key) < entries.len() ==> {
            &&& entries[first_with(entries, key)].0 == key
            &&& map_of(entries).contains_key(key)
            &&& map_of(entries)[key] == entries[first_with(entries, key)].1
        },
        first_with(entries, key) == entries.len() ==> !map_of(entries).contains_key(key),
    decreases entries.len(),
{
    if entries.len() > 0 {
        let rest = entries.drop_first();
        lemma_first_with(rest, key);
        if entries[0].0 != key {
            assert forall|j: int| 0 <= j < first_with(entries, key) implies entries[j].0
                != key by {
                if j > 0 {
                    assert(entries[j] == rest[j - 1]);
                }
            }
            if first_with(rest, key) < rest.len() {
                assert(entries[first_with(entries, key)] == rest[first_with(rest, key)]);
            }
        }
    }
}

/// A position that holds `key` with no `key` before it is the one that
/// `first_with` names.
pub proof fn lemma_first_with_unique(entries: Seq<(Seq<char>, Seq<char>)>, key: Seq<char>, i: int)
    requires
        0 <= i <= entries.len(),
        forall|j: int| 0 <= j < i ==> entries[j].0 != key,
        i < entries.len() ==> entries[i].0 == key,
    ensures
        first_with(entries, key) == i,
{
    lemma_first_with(entries, key);
}

/// Replacing the value of the first entry with a key changes the map at
/// that key only.
pub proof fn lemma_map_of_update(
    entries: Seq<(Seq<char>, Seq<char>)>,
    key: Seq<char>,
    value: Seq<char>,
)
    requires
        first_with(entries, key) < entries.len(),
    ensures
        map_of(entries.update(first_with(entries, key), (key, value))) == map_of(entries).insert(
            key,
            value,
        ),
{
    let i = first_with(entries, key);
    let after = entries.update(i, (key, value));
    lemma_first_with(entries, key);
    lemma_first_with_unique(after, key, i);
    lemma_first_with(after, key);
    let wanted = map_of(entries).insert(key, value);
    assert forall|q: Seq<char>| #[trigger]
        map_of(after).dom().contains(q) == wanted.dom().contains(q) by {
        if q != key {
            lemma_first_with(entries, q);
            let k = first_with(entries, q);
            assert(k != i);
            lemma_first_with_unique(after, q, k);
            lemma_first_with(after, q);
        }
    }
    assert forall|q: Seq<char>| map_of(after).dom().contains(q) implies #[trigger] map_of(
        after,
    )[q] == wanted[q] by {
        if q != key {
            lemma_first_with(entries, q);
            let k = first_with(entries, q);
            assert(k != i);
            lemma_first_with_unique(after, q, k);
            lemma_first_with(after, q);
        }
    }
    assert(map_of(after) =~= wanted);
}

/// Adding an entry with a new key at the end extends the map by it.
pub proof fn lemma_map_of_push(
    entries: Seq<(Seq<char>, Seq<char>)>,
    key: Seq<char>,
    value: Seq<char>,
)
    requires
        first_with(entries, key) == entries.len(),
    ensures
        map_of(entries.push((key, value))) == map_of(entries).insert(key, value),
{
    let after = entries.push((key, value));
    lemma_first_with(entries, key);
    lemma_first_with_unique(after, key, entries.len() as int);
    lemma_first_with(after, key);
    let wanted = map_of(entries).insert(key, value);
    assert forall|q: Seq<char>| #[trigger]
        map_of(after).dom().contains(q) == wanted.dom().contains(q) by {
        if q != key {
            lemma_first_with(entries, q);
            let k = first_with(entries, q);
            if k < entries.len() {
                lemma_first_with_unique(after, q, k);
            } else {
                lemma_first_with_unique(after, q, after.len() as int);
            }
            lemma_first_with(after, q);
        }
    }
    assert forall|q: Seq<char>| map_of(after).dom().contains(q) implies #[trigger] map_of(
        after,
    )[q] == wanted[q] by {
        if q != key {
            lemma_first_with(entries, q);
            let k = first_with(entries, q);
            if k < entries.len() {
                lemma_first_with_unique(after, q, k);
            } else {
                lemma_first_with_unique(after, q, after.len() as int);
            }
            lemma_first_with(after, q);
        }
    }
    assert(map_of(after) =~= wanted);
}

/// The entries without those of key `key`.
pub open spec fn without(entries: Seq<(Seq<char>, Seq<char>)>, key: Seq<char>) -> Seq<
    (Seq<char>, Seq<char>),
>
    decreases entries.len(),
{
    if entries.len() == 0 {
        entries
    } else if entries.last().0 == key {
        without(entries.drop_last(), key)
    } else {
        without(entries.drop_last(), key).push(entries.last())
    }
}

/// Adding an entry at the end changes the map only where the key is new.
pub proof fn lemma_map_of_push_any(
    entries: Seq<(Seq<char>, Seq<char>)>,
    key: Seq<char>,
    value: Seq<char>,
)
    ensures
        map_of(entries.push((key, value))) == if map_of(entries).contains_key(key) {
            map_of(entries)
        } else {
            map_of(entries).insert(key, value)
        },
    decreases entries.len(),
{
    let after = entries.push((key, value));
    if entries.len() == 0 {
        assert(after.drop_first() =~= entries);
        assert(map_of(after) =~= map_of(entries).insert(key, value));
    } else {
        let rest = entries.drop_first();
        lemma_map_of_push_any(rest, key, value);
        assert(after.drop_first() =~= rest.push((key, value)));
        if map_of(entries).contains_key(key) {
            assert(map_of(after) =~= map_of(entries));
        } else {
            assert(map_of(after) =~= map_of(entries).insert(key, value));
        }
    }
}

/// Dropping the entries of a key removes that key from the map and leaves
/// the others.
pub proof fn lemma_map_of_without(entries: Seq<(Seq<char>, Seq<char>)>, key: Seq<char>)
    ensures
        map_of(without(entries, key)) == map_of(entries).remove(key),
        without(entries, key).len() <= entries.len(),
    decreases entries.len(),
{
    if entries.len() == 0 {
        assert(map_of(entries) =~= map_of(entries).remove(key));
    } else {
        let init = entries.drop_last();
        let last = entries.last();
        lemma_map_of_without(init, key);
        assert(entries =~= init.push(last));
        lemma_map_of_push_any(init, last.0, last.1);
        if last.0 == key {
            assert(map_of(entries).remove(key) =~= map_of(init).remove(key));
        } else {
            lemma_map_of_push_any(without(init, key), last.0, last.1);
            assert(map_of(without(entries, key)) =~= map_of(entries).remove(key));
        }
    }
}

/// Whether no key occurs twice among the entries.
pub open spec fn distinct_keys(entries: Seq<(Seq<char>, Seq<char>)>) -> bool {
    forall|i: int, j: int| 0 <= i < j < entries.len() ==> entries[i].0 != entries[j].0
}

/// Giving a key a value keeps the keys distinct.
pub proof fn lemma_put_keeps_distinct(
    entries: Seq<(Seq<char>, Seq<char>)>,
    key: Seq<char>,
    value: Seq<char>,
)
    requires
        distinct_keys(entries),
    ensures
        distinct_keys(spec_put(entries, key, value)),
{
    lemma_first_with(entries, key);
}

/// Every entry that is left after a key was taken away was there before,
/// and none of them has the key.
pub proof fn lemma_without_keys(entries: Seq<(Seq<char>, Seq<char>)>, key: Seq<char>, i: int)
    requires
        0 <= i < without(entries, key).len(),
    ensures
        without(entries, key)[i].0 != key,
        exists|j: int| 0 <= j < entries.len() && entries[j] == without(entries, key)[i],
    decreases entries.len(),
{
    if entries.len() > 0 {
        let init = entries.drop_last();
        if i < without(init, key).len() {
            lemma_without_keys(init, key, i);
            let j = choose|j: int| 0 <= j < init.len() && init[j] == without(init, key)[i];
            assert(entries[j] == without(entries, key)[i]);
        } else {
            assert(entries[entries.len() - 1] == without(entries, key)[i]);
        }
    }
}

/// Taking a key away keeps the keys distinct.
pub proof fn lemma_without_keeps_distinct(entries: Seq<(Seq<char>, Seq<char>)>, key: Seq<char>)
    requires
        distinct_keys(entries),
    ensures
        distinct_keys(without(entries, key)),
    decreases entries.len(),
{
    if entries.len() > 0 {
        let init = entries.drop_last();
        let last = entries.last();
        assert(distinct_keys(init)) by {
            assert forall|i: int, j: int| 0 <= i < j < init.len() implies init[i].0 != init[j].0 by {
                assert(init[i] == entries[i] && init[j] == entries[j]);
            }
        }
        lemma_without_keeps_distinct(init, key);
        if last.0 != key {
            let kept = without(init, key);
            assert forall|i: int| 0 <= i < kept.len() implies kept[i].0 != last.0 by {
                lemma_without_keys(init, key, i);
                let j = choose|j: int| 0 <= j < init.len() && init[j] == kept[i];
                assert(entries[j] == init[j]);
            }
        }
    }
}

/// A map from text to text.
#[derive(Clone, Debug)]
pub struct StrMap {
    entries: Vec<(String, String)>,
}

impl StrMap {
    /// The entries as plain values, in the order in which they are kept.
    pub closed spec fn entries(&self) -> Seq<(Seq<char>, Seq<char>)> {
        pairs_view(self.entries@)
    }
}

impl View for StrMap {
    type V = Map<Seq<char>, Seq<char>>;

    open spec fn view(&self) -> Map<Seq<char>, Seq<char>> {
        map_of(self.entries())
    }
}

impl StrMap {
    /// Whether no key has two entries. A map that is built from the empty
    /// one has this property.
    pub open spec fn distinct(&self) -> bool {
        distinct_keys(self.entries())
    }

    /// The empty map.
    pub fn new() -> (r: Self)
        ensures
            r@ == Map::<Seq<char>, Seq<char>>::empty(),
            r.entries().len() == 0,
            r.distinct(),
    {
        let r = StrMap { entries: Vec::new() };
        assert(r.entries() =~= Seq::empty());
        r
    }

    /// The map that keeps the given entries.
    pub fn from_pairs(pairs: Vec<(String, String)>) -> (r: Self)
        ensures
            r.entries() == pairs_view(pairs@),
    {
        StrMap { entries: pairs }
    }

    /// The entries that the map keeps.
    pub fn into_pairs(self) -> (r: Vec<(String, String)>)
        ensures
            pairs_view(r@) == self.entries(),
    {
        self.entries
    }

    /// How many entries are kept.
    pub fn len(&self) -> (r: usize)
        ensures
            r == self.entries().len(),
    {
        self.entries.len()
    }

    /// The position of the first entry with key `key`, or the number of
    /// entries if there is none.
    fn position(&self, key: &str) -> (r: usize)
        ensures
            r == first_with(self.entries(), key@),
            r <= self.entries@.len(),
    {
        let n = self.entries.len();
        let mut i: usize = 0;
        while i < n
            invariant
                n == self.entries@.len(),
                i <= n,
                forall|j: int| 0 <= j < i ==> self.entries()[j].0 != key@,
            decreases n - i,
        {
            if str_eq(self.entries[i].0.as_str(), key) {
                proof {
                    lemma_first_with_unique(self.entries(), key@, i as int);
                }
                return i;
            }
            i += 1;
        }
        proof {
            lemma_first_with_unique(self.entries(), key@, n as int);
        }
        n
    }

    /// Whether `key` has a value.
    pub fn contains_key(&self, key: &str) -> (r: bool)
        ensures
            r == self@.contains_key(key@),
    {
        proof {
            lemma_first_with(self.entries(), key@);
        }
        self.position(key) < self.entries.len()
    }

    /// The value of `key`.
    pub fn get(&self, key: &str) -> (r: Option<&String>)
        ensures
            match r {
                Some(value) => self@.contains_key(key@) && self@[key@] == value@,
                None => !self@.contains_key(key@),
            },
    {
        proof {
            lemma_first_with(self.entries(), key@);
        }
        let i = self.position(key);
        if i < self.entries.len() {
            Some(&self.entries[i].1)
        } else {
            None
        }
    }

    /// The value of `key`, or the empty text where it has none.
    pub fn get_or_empty(&self, key: &str) -> (r: String)
        ensures
            r@ == spec_get_or_empty(self@, key@),
    {
        match self.get(key) {
            Some(value) => value.clone(),
            None => String::new(),
        }
    }

    /// Gives `key` the value `value`: in place where `key` has an entry,
    /// else in a new entry at the end.
    pub fn insert(&mut self, key: String, value: String)
        ensures
            final(self)@ == old(self)@.insert(key@, value@),
            final(self).entries() == spec_put(old(self).entries(), key@, value@),
            old(self).distinct() ==> final(self).distinct(),
    {
        proof {
            if self.distinct() {
                lemma_put_keeps_distinct(self.entries(), key@, value@);
            }
        }
        let i = self.position(key.as_str());
        if i < self.entries.len() {
            proof {
                lemma_map_of_update(self.entries(), key@, value@);
            }
            self.entries.set(i, (key, value));
            assert(self.entries() =~= old(self).entries().update(i as int, (key@, value@)));
        } else {
            proof {
                lemma_map_of_push(self.entries(), key@, value@);
            }
            self.entries.push((key, value));
            assert(self.entries() =~= old(self).entries().push((key@, value@)));
        }
    }

    /// Takes the value of `key` away, with every entry of `key`.
    pub fn remove(&mut self, key: &str)
        ensures
            final(self)@ == old(self)@.remove(key@),
            final(self).entries() == without(old(self).entries(), key@),
            old(self).distinct() ==> final(self).distinct(),
    {
        proof {
            if self.distinct() {
                lemma_without_keeps_distinct(self.entries(), key@);
            }
        }
        let ghost before = self.entries();
        let ghost mut seen: int = 0;
        let mut i: usize = 0;
        proof {
            assert(before.take(0) =~= Seq::empty());
            assert(self.entries() =~= without(before.take(0), key@) + before.skip(0));
        }
        while i < self.entries.len()
            invariant
                0 <= seen <= before.len(),
                i == without(before.take(seen), key@).len(),
                self.entries() == without(before.take(seen), key@) + before.skip(seen),
            decreases before.len() - seen,
        {
            let ghost kept = without(before.take(seen), key@);
            proof {
                assert(seen < before.len());
                assert(self.entries()[i as int] == before[seen]);
                assert(before.take(seen + 1).drop_last() =~= before.take(seen));
                assert(before.take(seen + 1).last() == before[seen]);
            }
            if str_eq(self.entries[i].0.as_str(), key) {
                let ghost prev = self.entries();
                self.entries.remove(i);
                proof {
                    assert(self.entries() =~= prev.remove(i as int));
                    assert(prev.remove(i as int) =~= kept + before.skip(seen + 1));
                }
            } else {
                proof {
                    assert(self.entries() =~= kept.push(before[seen]) + before.skip(seen + 1));
                }
                i += 1;
            }
            proof {
                seen = seen + 1;
            }
        }
        proof {
            assert(seen == before.len());
            assert(before.take(seen) =~= before);
            assert(self.entries() =~= without(before, key@));
            lemma_map_of_without(before, key@);
        }
    }
}

/// The entries after `key` was given `value`: in place where `key` has an
/// entry, else in a new entry at the end.
pub open spec fn spec_put(entries: Seq<(Seq<char>, Seq<char>)>, key: Seq<char>, value: Seq<char>)
    -> Seq<(Seq<char>, Seq<char>)> {
    if first_with(entries, key) < entries.len() {
        entries.update(first_with(entries, key), (key, value))
    } else {
        entries.push((key, value))
    }
}

/// The value of `key` in `map`, or the empty text where it has none.
pub open spec fn spec_get_or_empty(map: Map<Seq<char>, Seq<char>>, key: Seq<char>) -> Seq<char> {
    if map.contains_key(key) {
        map[key]
    } else {
        Seq::empty()
    }
}

} // verus!
