//! An insertion-ordered map from strings to strings.

use vstd::prelude::*;
use crate::search::{first_position, lemma_first_position, lemma_first_position_is};
use crate::text::text_eq;

verus! {

/// The condition of having the key `key`, as a value.
pub open spec fn has_key(key: Seq<char>) -> spec_fn((Seq<char>, Seq<char>)) -> bool {
    |entry: (Seq<char>, Seq<char>)| entry.0 == key
}

/// The position of the first entry with key `key`, or the length if there is none.
pub open spec fn key_position(entries: Seq<(Seq<char>, Seq<char>)>, key: Seq<char>) -> int {
    first_position(entries, has_key(key))
}

/// No key occurs twice.
pub open spec fn distinct_keys(entries: Seq<(Seq<char>, Seq<char>)>) -> bool {
    forall|i: int, j: int|
        0 <= i < j < entries.len() ==> (#[trigger] entries[i]).0 != (#[trigger] entries[j]).0
}

/// The entries after `key` was set to `value`: an entry with that key keeps its
/// place and takes the value, a new key goes to the end.
pub open spec fn entries_insert(
    entries: Seq<(Seq<char>, Seq<char>)>,
    key: Seq<char>,
    value: Seq<char>,
) -> Seq<(Seq<char>, Seq<char>)> {
    let at = key_position(entries, key);
    if at < entries.len() {
        entries.update(at, (key, value))
    } else {
        entries.push((key, value))
    }
}

/// The map that the entries stand for; a later entry wins over an earlier one
/// with the same key.
pub open spec fn entries_map(entries: Seq<(Seq<char>, Seq<char>)>) -> Map<Seq<char>, Seq<char>>
    decreases entries.len(),
{
    if entries.len() == 0 {
        Map::empty()
    } else {
        entries_map(entries.drop_last()).insert(entries.last().0, entries.last().1)
    }
}

/// The position is in range, no entry before it has the key, and the entry
/// at it has.
pub proof fn lemma_key_position(entries: Seq<(Seq<char>, Seq<char>)>, key: Seq<char>)
    ensures
        0 <= key_position(entries, key) <= entries.len(),
        forall|i: int| 0 <= i < key_position(entries, key) ==> (#[trigger] entries[i]).0 != key,
        key_position(entries, key) < entries.len() ==> entries[key_position(entries, key)].0
            == key,
{
    lemma_first_position(entries, has_key(key));
}

/// Entries without a repeated key stand for a map with one key for each
/// entry: a key is in the map exactly when an entry has it, with that
/// entry's value.
pub proof fn lemma_entries_map(entries: Seq<(Seq<char>, Seq<char>)>)
    requires
        distinct_keys(entries),
    ensures
        forall|k: Seq<char>| #[trigger]
            entries_map(entries).dom().contains(k) <==> key_position(entries, k) < entries.len(),
        forall|i: int|
            0 <= i < entries.len() ==> entries_map(entries)[(#[trigger] entries[i]).0]
                == entries[i].1,
        entries_map(entries).dom().finite(),
        entries_map(entries).dom().len() == entries.len(),
    decreases entries.len(),
{
    if entries.len() > 0 {
        let front = entries.drop_last();
        let last = entries.last();
        assert(distinct_keys(front)) by {
            assert forall|i: int, j: int| 0 <= i < j < front.len() implies (#[trigger] front[i]).0
                != (#[trigger] front[j]).0 by {
                assert(front[i] == entries[i]);
                assert(front[j] == entries[j]);
            }
        }
        lemma_entries_map(front);
        lemma_key_position(front, last.0);
        assert(key_position(front, last.0) == front.len()) by {
            if key_position(front, last.0) < front.len() {
                let p = key_position(front, last.0);
                assert(front[p] == entries[p]);
                assert(entries[p].0 != entries[entries.len() - 1].0);
            }
        }
        assert(!entries_map(front).dom().contains(last.0));
        assert forall|k: Seq<char>| #[trigger]
            entries_map(entries).dom().contains(k) <==> key_position(entries, k)
                < entries.len() by {
            lemma_key_position(entries, k);
            lemma_key_position(front, k);
            if k == last.0 {
                if key_position(entries, k) >= entries.len() {
                    assert(entries[entries.len() - 1].0 != k);
                }
            } else {
                if key_position(front, k) < front.len() {
                    let p = key_position(front, k);
                    assert(front[p] == entries[p]);
                    if key_position(entries, k) >= entries.len() {
                        assert(entries[p].0 != k);
                    }
                } else {
                    if key_position(entries, k) < entries.len() {
                        let p = key_position(entries, k);
                        assert(p < front.len());
                        assert(front[p] == entries[p]);
                    }
                }
            }
        }
        assert forall|i: int| 0 <= i < entries.len() implies entries_map(entries)[(
        #[trigger] entries[i]).0] == entries[i].1 by {
            if i < front.len() {
                assert(front[i] == entries[i]);
                assert(entries[i].0 != entries[entries.len() - 1].0);
            }
        }
    }
}

/// Setting a key keeps the keys distinct and is an insertion into the map.
pub proof fn lemma_entries_insert(
    entries: Seq<(Seq<char>, Seq<char>)>,
    key: Seq<char>,
    value: Seq<char>,
)
    requires
        distinct_keys(entries),
    ensures
        distinct_keys(entries_insert(entries, key, value)),
        entries_map(entries_insert(entries, key, value)) == entries_map(entries).insert(
            key,
            value,
        ),
{
    let after = entries_insert(entries, key, value);
    let at = key_position(entries, key);
    lemma_key_position(entries, key);
    assert(distinct_keys(after)) by {
        assert forall|i: int, j: int| 0 <= i < j < after.len() implies (#[trigger] after[i]).0 != (
        #[trigger] after[j]).0 by {
            if at < entries.len() {
                assert(after[i].0 == entries[i].0);
                assert(after[j].0 == entries[j].0);
            } else {
                if j < entries.len() {
                    assert(after[i] == entries[i]);
                    assert(after[j] == entries[j]);
                } else {
                    assert(after[i] == entries[i]);
                }
            }
        }
    }
    lemma_entries_map(entries);
    lemma_entries_map(after);
    let want = entries_map(entries).insert(key, value);
    assert forall|k: Seq<char>| entries_map(after).dom().contains(k) <==> want.dom().contains(
        k,
    ) by {
        lemma_key_position(entries, k);
        lemma_key_position(after, k);
        if key_position(after, k) < after.len() {
            let p = key_position(after, k);
            if k != key {
                assert(p < entries.len() && entries[p].0 == k) by {
                    if at < entries.len() {
                        assert(after[p].0 == entries[p].0);
                    } else {
                        if p == entries.len() {
                            assert(after[p].0 == key);
                        } else {
                            assert(after[p] == entries[p]);
                        }
                    }
                }
                if key_position(entries, k) >= entries.len() {
                    assert(entries[p].0 != k);
                }
            }
        } else {
            if k == key {
                if at < entries.len() {
                    assert(after[at].0 == key);
                } else {
                    assert(after[entries.len() as int].0 == key);
                }
            } else if key_position(entries, k) < entries.len() {
                let p = key_position(entries, k);
                assert(after[p].0 == k) by {
                    if at < entries.len() {
                        assert(after[p].0 == entries[p].0) by {
                            if p == at {
                            }
                        }
                    } else {
                        assert(after[p] == entries[p]);
                    }
                }
            }
        }
    }
    assert forall|k: Seq<char>| entries_map(after).dom().contains(k) implies entries_map(after)[k]
        == want[k] by {
        lemma_key_position(after, k);
        let p = key_position(after, k);
        assert(entries_map(after)[after[p].0] == after[p].1);
        if k == key {
            if at < entries.len() {
                if p != at {
                    assert(after[at].0 == key);
                    if p < at {
                        assert(after[p].0 != after[at].0);
                    } else {
                        assert(after[at].0 != after[p].0);
                    }
                }
            } else {
                let q = entries.len() as int;
                if p != q {
                    assert(after[q].0 == key);
                    assert(after[p].0 != after[q].0);
                }
            }
        } else {
            assert(p < entries.len() && after[p] == entries[p]) by {
                if at < entries.len() {
                    if p == at {
                        assert(after[p].0 == key);
                    }
                } else {
                    if p == entries.len() {
                        assert(after[p].0 == key);
                    }
                }
            }
            assert(entries_map(entries)[entries[p].0] == entries[p].1);
        }
    }
    assert(entries_map(after) =~= want);
}

/// The entries after every entry of `more` was inserted, in the order of `more`.
pub open spec fn entries_extend(
    entries: Seq<(Seq<char>, Seq<char>)>,
    more: Seq<(Seq<char>, Seq<char>)>,
) -> Seq<(Seq<char>, Seq<char>)>
    decreases more.len(),
{
    if more.len() == 0 {
        entries
    } else {
        entries_insert(entries_extend(entries, more.drop_last()), more.last().0, more.last().1)
    }
}

/// Inserting the entries of another map keeps the keys distinct and lays
/// that map over this one.
pub proof fn lemma_entries_extend(
    entries: Seq<(Seq<char>, Seq<char>)>,
    more: Seq<(Seq<char>, Seq<char>)>,
)
    requires
        distinct_keys(entries),
    ensures
        distinct_keys(entries_extend(entries, more)),
        entries_map(entries_extend(entries, more)) == entries_map(entries).union_prefer_right(
            entries_map(more),
        ),
    decreases more.len(),
{
    if more.len() == 0 {
        assert(entries_map(entries).union_prefer_right(entries_map(more)) =~= entries_map(
            entries,
        ));
    } else {
        let front = more.drop_last();
        lemma_entries_extend(entries, front);
        lemma_entries_insert(entries_extend(entries, front), more.last().0, more.last().1);
        assert(entries_map(entries).union_prefer_right(entries_map(front)).insert(
            more.last().0,
            more.last().1,
        ) =~= entries_map(entries).union_prefer_right(entries_map(more)));
    }
}

/// A map from strings to strings that keeps its keys in the order in which they
/// were first inserted.
#[derive(Debug)]
pub struct ConfigMap {
    entries: Vec<(String, String)>,
}

impl View for ConfigMap {
    type V = Map<Seq<char>, Seq<char>>;

    closed spec fn view(&self) -> Map<Seq<char>, Seq<char>> {
        entries_map(self.entries())
    }
}

impl ConfigMap {
    /// The entries in insertion order.
    pub closed spec fn entries(&self) -> Seq<(Seq<char>, Seq<char>)> {
        Seq::new(self.entries@.len(), |i: int| (self.entries@[i].0@, self.entries@[i].1@))
    }

    /// No key occurs twice. Every map that the methods hand out is well formed.
    pub open spec fn wf(&self) -> bool {
        distinct_keys(self.entries())
    }

    /// What the view is in terms of the entries.
    pub proof fn lemma_view(&self)
        requires
            self.wf(),
        ensures
            self@ == entries_map(self.entries()),
            self@.dom().finite(),
            self@.dom().len() == self.entries().len(),
            forall|k: Seq<char>| #[trigger]
                self@.dom().contains(k) <==> key_position(self.entries(), k)
                    < self.entries().len(),
            forall|i: int|
                0 <= i < self.entries().len() ==> self@[(#[trigger] self.entries()[i]).0]
                    == self.entries()[i].1,
    {
        lemma_entries_map(self.entries());
    }

    /// The empty map.
    pub fn new() -> (r: ConfigMap)
        ensures
            r.wf(),
            r.entries() == Seq::<(Seq<char>, Seq<char>)>::empty(),
            r@ == Map::<Seq<char>, Seq<char>>::empty(),
    {
        let r = ConfigMap { entries: Vec::new() };
        assert(r.entries() =~= Seq::empty());
        r
    }

    /// The number of keys.
    pub fn len(&self) -> (r: usize)
        requires
            self.wf(),
        ensures
            r == self.entries().len(),
            r == self@.dom().len(),
    {
        proof {
            self.lemma_view();
        }
        self.entries.len()
    }

    /// Whether the map has no key.
    pub fn is_empty(&self) -> (r: bool)
        requires
            self.wf(),
        ensures
            r == (self.entries().len() == 0),
            r == (self@ == Map::<Seq<char>, Seq<char>>::empty()),
    {
        proof {
            self.lemma_view();
            if self.entries().len() == 0 {
                assert(self@ =~= Map::empty());
            } else {
                assert(self@.dom().contains(self.entries()[0].0));
            }
        }
        self.entries.len() == 0
    }

    /// The position of the entry with key `key`, or the number of entries.
    fn position(&self, key: &str) -> (r: usize)
        ensures
            r == key_position(self.entries(), key@),
    {
        let mut i: usize = 0;
        while i < self.entries.len()
            invariant
                0 <= i <= self.entries.len(),
                self.entries().len() == self.entries@.len(),
                forall|j: int| 0 <= j < i ==> !has_key(key@)(#[trigger] self.entries()[j]),
            decreases self.entries.len() - i,
        {
            if text_eq(self.entries[i].0.as_str(), key) {
                proof {
                    lemma_first_position_is(self.entries(), has_key(key@), i as int);
                }
                return i;
            }
            i = i + 1;
        }
        proof {
            lemma_first_position_is(self.entries(), has_key(key@), i as int);
        }
        i
    }

    /// Whether the map has the key `key`.
    pub fn contains_key(&self, key: &str) -> (r: bool)
        requires
            self.wf(),
        ensures
            r == self@.dom().contains(key@),
    {
        proof {
            self.lemma_view();
        }
        self.position(key) < self.entries.len()
    }

    /// The value of the key `key`.
    pub fn get(&self, key: &str) -> (r: Option<&String>)
        requires
            self.wf(),
        ensures
            match r {
                Some(value) => self@.dom().contains(key@) && self@[key@] == value@,
                None => !self@.dom().contains(key@),
            },
    {
        proof {
            self.lemma_view();
            lemma_key_position(self.entries(), key@);
        }
        let at: usize = self.position(key);
        if at < self.entries.len() {
            assert(self.entries()[at as int].0 == key@);
            Some(&self.entries[at].1)
        } else {
            None
        }
    }

    /// Sets `key` to `value` and gives back the value that it had.
    pub fn insert(&mut self, key: String, value: String) -> (r: Option<String>)
        requires
            old(self).wf(),
        ensures
            final(self).wf(),
            final(self).entries() == entries_insert(old(self).entries(), key@, value@),
            final(self)@ == old(self)@.insert(key@, value@),
            match r {
                Some(before) => old(self)@.dom().contains(key@) && old(self)@[key@] == before@,
                None => !old(self)@.dom().contains(key@),
            },
    {
        proof {
            old(self).lemma_view();
            lemma_key_position(old(self).entries(), key@);
            lemma_entries_insert(old(self).entries(), key@, value@);
        }
        let at: usize = self.position(key.as_str());
        if at < self.entries.len() {
            assert(old(self).entries()[at as int].0 == key@);
            let before = self.entries[at].1.clone();
            self.entries.set(at, (key, value));
            assert(self.entries() =~= entries_insert(old(self).entries(), key@, value@));
            Some(before)
        } else {
            self.entries.push((key, value));
            assert(self.entries() =~= entries_insert(old(self).entries(), key@, value@));
            None
        }
    }

    /// Inserts every entry of `other`, in its order.
    pub fn extend(&mut self, other: &ConfigMap)
        requires
            old(self).wf(),
        ensures
            final(self).wf(),
            final(self).entries() == entries_extend(old(self).entries(), other.entries()),
            final(self)@ == old(self)@.union_prefer_right(other@),
    {
        let mut i: usize = 0;
        assert(other.entries().subrange(0, 0) =~= Seq::empty());
        while i < other.entries.len()
            invariant
                0 <= i <= other.entries.len(),
                other.entries().len() == other.entries@.len(),
                self.wf(),
                self.entries() == entries_extend(
                    old(self).entries(),
                    other.entries().subrange(0, i as int),
                ),
            decreases other.entries.len() - i,
        {
            proof {
                let done = other.entries().subrange(0, i + 1);
                assert(done.drop_last() =~= other.entries().subrange(0, i as int));
                assert(done.last() == other.entries()[i as int]);
            }
            let _ = self.insert(other.entries[i].0.clone(), other.entries[i].1.clone());
            i = i + 1;
        }
        proof {
            assert(other.entries().subrange(0, other.entries().len() as int) =~= other.entries());
            lemma_entries_extend(old(self).entries(), other.entries());
        }
    }

    /// The key of the entry at `index`.
    pub fn key_at(&self, index: usize) -> (r: &String)
        requires
            index < self.entries().len(),
        ensures
            r@ == self.entries()[index as int].0,
    {
        &self.entries[index].0
    }

    /// The value of the entry at `index`.
    pub fn value_at(&self, index: usize) -> (r: &String)
        requires
            index < self.entries().len(),
        ensures
            r@ == self.entries()[index as int].1,
    {
        &self.entries[index].1
    }

    /// The number of entries, for a map that need not be well formed.
    pub fn entry_count(&self) -> (r: usize)
        ensures
            r == self.entries().len(),
    {
        self.entries.len()
    }
}

impl Clone for ConfigMap {
    fn clone(&self) -> (r: ConfigMap)
        ensures
            r.entries() == self.entries(),
            r@ == self@,
            r.wf() == self.wf(),
    {
        let mut entries: Vec<(String, String)> = Vec::new();
        let mut i: usize = 0;
        while i < self.entries.len()
            invariant
                0 <= i <= self.entries.len(),
                entries@.len() == i,
                forall|j: int|
                    0 <= j < i ==> entries@[j].0@ == self.entries@[j].0@ && entries@[j].1@
                        == self.entries@[j].1@,
            decreases self.entries.len() - i,
        {
            entries.push((self.entries[i].0.clone(), self.entries[i].1.clone()));
            i = i + 1;
        }
        let r = ConfigMap { entries };
        assert(r.entries() =~= self.entries());
        r
    }
}

} // verus!
