//! A map from texts to values whose entries are walked in key order.

use crate::text::{
    same_text, text_is_less, text_less, text_less_irreflexive, text_less_total,
    text_less_transitive, views,
};
use vstd::prelude::*;

verus! {

/// Whether the keys of a list of entries ascend strictly.
pub open spec fn keys_ascend<V>(entries: Seq<(Seq<char>, V)>) -> bool {
    forall|i: int, j: int|
        0 <= i < j < entries.len() ==> text_less(#[trigger] entries[i].0, #[trigger] entries[j].0)
}

/// The value that a list of entries holds under a key.
pub open spec fn lookup<V>(entries: Seq<(Seq<char>, V)>, key: Seq<char>) -> Option<V>
    decreases entries.len(),
{
    if entries.len() == 0 {
        None
    } else if entries[0].0 == key {
        Some(entries[0].1)
    } else {
        lookup(entries.drop_first(), key)
    }
}

/// A list of entries in key order after a value was stored under a key.
pub open spec fn inserted<V>(
    entries: Seq<(Seq<char>, V)>,
    key: Seq<char>,
    value: V,
) -> Seq<(Seq<char>, V)>
    decreases entries.len(),
{
    if entries.len() == 0 {
        seq![(key, value)]
    } else if entries[0].0 == key {
        seq![(key, value)] + entries.drop_first()
    } else if text_less(key, entries[0].0) {
        seq![(key, value)] + entries
    } else {
        seq![entries[0]] + inserted(entries.drop_first(), key, value)
    }
}

/// Storing a value under a key changes what is found under that key alone.
pub proof fn lookup_after_insert<V>(
    entries: Seq<(Seq<char>, V)>,
    key: Seq<char>,
    value: V,
    other: Seq<char>,
)
    requires
        keys_ascend(entries),
    ensures
        lookup(inserted(entries, key, value), other) == if other == key {
            Some(value)
        } else {
            lookup(entries, other)
        },
        keys_ascend(inserted(entries, key, value)),
    decreases entries.len(),
{
    let after = inserted(entries, key, value);
    inserted_keys(entries, key, value);
    if entries.len() == 0 {
        assert(after.drop_first() =~= entries);
        assert(lookup(after.drop_first(), other) is None);
    } else if entries[0].0 == key {
        assert(after.drop_first() =~= entries.drop_first());
        assert forall|i: int, j: int| 0 <= i < j < after.len() implies text_less(
            #[trigger] after[i].0,
            #[trigger] after[j].0,
        ) by {
            assert(text_less(entries[i].0, entries[j].0));
        }
    } else if text_less(key, entries[0].0) {
        assert(after.drop_first() =~= entries);
        assert forall|i: int, j: int| 0 <= i < j < after.len() implies text_less(
            #[trigger] after[i].0,
            #[trigger] after[j].0,
        ) by {
            if i > 0 {
                assert(text_less(entries[i - 1].0, entries[j - 1].0));
            } else if j > 1 {
                assert(text_less(entries[0].0, entries[j - 1].0));
                text_less_transitive(key, entries[0].0, entries[j - 1].0);
            }
        }
    } else {
        text_less_total(key, entries[0].0);
        let rest = entries.drop_first();
        assert(keys_ascend(rest)) by {
            assert forall|i: int, j: int| 0 <= i < j < rest.len() implies text_less(
                #[trigger] rest[i].0,
                #[trigger] rest[j].0,
            ) by {
                assert(text_less(entries[i + 1].0, entries[j + 1].0));
            }
        }
        lookup_after_insert(rest, key, value, other);
        assert(after.drop_first() =~= inserted(rest, key, value));
        text_less_irreflexive(key);
        assert(after[0] == entries[0]);
        assert forall|i: int, j: int| 0 <= i < j < after.len() implies text_less(
            #[trigger] after[i].0,
            #[trigger] after[j].0,
        ) by {
            let tail = inserted(rest, key, value);
            if i > 0 {
                assert(text_less(tail[i - 1].0, tail[j - 1].0));
            } else {
                inserted_keys(rest, key, value);
                assert(tail[j - 1].0 == key || exists|k: int|
                    0 <= k < rest.len() && #[trigger] rest[k].0 == tail[j - 1].0);
                if tail[j - 1].0 != key {
                    let k = choose|k: int|
                        0 <= k < rest.len() && #[trigger] rest[k].0 == tail[j - 1].0;
                    assert(text_less(entries[0].0, entries[k + 1].0));
                }
            }
        }
    }
}

proof fn inserted_keys<V>(entries: Seq<(Seq<char>, V)>, key: Seq<char>, value: V)
    ensures
        forall|j: int|
            0 <= j < inserted(entries, key, value).len() ==> {
                ||| (#[trigger] inserted(entries, key, value)[j]).0 == key
                ||| exists|k: int|
                    0 <= k < entries.len() && #[trigger] entries[k].0 == inserted(
                        entries,
                        key,
                        value,
                    )[j].0
            },
    decreases entries.len(),
{
    let after = inserted(entries, key, value);
    if entries.len() > 0 && entries[0].0 != key && !text_less(key, entries[0].0) {
        let rest = entries.drop_first();
        inserted_keys(rest, key, value);
        assert forall|j: int| 0 <= j < after.len() implies {
            ||| (#[trigger] after[j]).0 == key
            ||| exists|k: int| 0 <= k < entries.len() && #[trigger] entries[k].0 == after[j].0
        } by {
            if j == 0 {
                assert(entries[0].0 == after[0].0);
            } else {
                let tail = inserted(rest, key, value);
                assert(after[j] == tail[j - 1]);
                if tail[j - 1].0 != key {
                    let k = choose|k: int|
                        0 <= k < rest.len() && #[trigger] rest[k].0 == tail[j - 1].0;
                    assert(entries[k + 1].0 == after[j].0);
                }
            }
        }
    } else {
        assert forall|j: int| 0 <= j < after.len() implies {
            ||| (#[trigger] after[j]).0 == key
            ||| exists|k: int| 0 <= k < entries.len() && #[trigger] entries[k].0 == after[j].0
        } by {
            if j > 0 {
                if entries[0].0 == key {
                    assert(entries[j].0 == after[j].0);
                } else {
                    assert(entries[j - 1].0 == after[j].0);
                }
            }
        }
    }
}

/// A map from texts to values, with its entries in key order.
#[derive(Debug, Clone)]
pub struct TextMap<V> {
    entries: Vec<(String, V)>,
}

impl<V> View for TextMap<V> {
    type V = Seq<(Seq<char>, V)>;

    closed spec fn view(&self) -> Seq<(Seq<char>, V)> {
        self.entries@.map_values(|entry: (String, V)| (entry.0@, entry.1))
    }
}

impl<V> TextMap<V> {
    /// Whether the entries stand in key order, each key once.
    pub open spec fn wf(self) -> bool {
        keys_ascend(self@)
    }

    /// A map without entries.
    pub fn new() -> (res: Self)
        ensures
            res@ == Seq::<(Seq<char>, V)>::empty(),
            res.wf(),
    {
        let entries: Vec<(String, V)> = Vec::new();
        assert(entries@.map_values(|entry: (String, V)| (entry.0@, entry.1)) =~= Seq::empty());
        TextMap { entries }
    }

    /// The number of entries.
    pub fn len(&self) -> (res: usize)
        ensures
            res == self@.len(),
    {
        self.entries.len()
    }

    /// Whether there is no entry.
    pub fn is_empty(&self) -> (res: bool)
        ensures
            res == (self@.len() == 0),
    {
        self.entries.len() == 0
    }

    /// The key at a position in key order.
    pub fn key_at(&self, index: usize) -> (res: &String)
        requires
            index < self@.len(),
        ensures
            res@ == self@[index as int].0,
    {
        &self.entries[index].0
    }

    /// The value at a position in key order.
    pub fn value_at(&self, index: usize) -> (res: &V)
        requires
            index < self@.len(),
        ensures
            *res == self@[index as int].1,
    {
        &self.entries[index].1
    }

    /// The value under a key.
    pub fn get(&self, key: &str) -> (res: Option<&V>)
        ensures
            match res {
                Some(value) => lookup(self@, key@) == Some(*value),
                None => lookup(self@, key@) is None,
            },
    {
        let mut i: usize = 0;
        assert(self@.skip(0) =~= self@);
        while i < self.entries.len()
            invariant
                i <= self.entries@.len() == self@.len(),
                lookup(self@, key@) == lookup(self@.skip(i as int), key@),
            decreases self.entries@.len() - i,
        {
            assert(self@.skip(i as int).drop_first() =~= self@.skip(i as int + 1));
            if same_text(self.entries[i].0.as_str(), key) {
                return Some(&self.entries[i].1);
            }
            i = i + 1;
        }
        None
    }

    /// Whether there is a value under a key.
    pub fn contains_key(&self, key: &str) -> (res: bool)
        ensures
            res == (lookup(self@, key@) is Some),
    {
        self.get(key).is_some()
    }

    /// Stores a value under a key, in place of what was there.
    pub fn insert(&mut self, key: String, value: V)
        ensures
            final(self)@ == inserted(old(self)@, key@, value),
            old(self).wf() ==> final(self).wf(),
    {
        proof {
            if self.wf() {
                lookup_after_insert(self@, key@, value, key@);
            }
        }
        let ghost before = self@;
        let mut i: usize = 0;
        assert(before.take(0) + inserted(before.skip(0), key@, value) =~= inserted(before, key@, value)) by {
            assert(before.skip(0) =~= before);
        }
        while i < self.entries.len()
            invariant
                before == self@,
                *self == *old(self),
                i <= self.entries@.len() == before.len(),
                before.take(i as int) + inserted(before.skip(i as int), key@, value) == inserted(
                    before,
                    key@,
                    value,
                ),
            ensures
                before == self@,
                *self == *old(self),
                i <= before.len(),
                before.take(i as int) + (seq![(key@, value)] + before.skip(i as int)) == inserted(
                    before,
                    key@,
                    value,
                ),
            decreases self.entries@.len() - i,
        {
            let ghost rest = before.skip(i as int);
            assert(rest.drop_first() =~= before.skip(i as int + 1));
            if same_text(self.entries[i].0.as_str(), key.as_str()) {
                assert(before.take(i as int) + (seq![(key@, value)] + rest.drop_first())
                    =~= before.update(i as int, (key@, value)));
                assert(self.entries@.update(i as int, (key, value)).map_values(
                    |entry: (String, V)| (entry.0@, entry.1),
                ) =~= before.update(i as int, (key@, value)));
                self.entries.set(i, (key, value));
                return ;
            }
            if text_is_less(key.as_str(), self.entries[i].0.as_str()) {
                break;
            }
            assert(before.take(i as int + 1) + inserted(rest.drop_first(), key@, value)
                =~= before.take(i as int) + (seq![rest[0]] + inserted(
                rest.drop_first(),
                key@,
                value,
            )));
            i = i + 1;
        }
        assert(before.take(i as int) + (seq![(key@, value)] + before.skip(i as int))
            =~= before.insert(i as int, (key@, value)));
        assert(seq![(key@, value)] + before.skip(before.len() as int) =~= seq![(key@, value)]);
        assert(self.entries@.insert(i as int, (key, value)).map_values(
            |entry: (String, V)| (entry.0@, entry.1),
        ) =~= before.insert(i as int, (key@, value)));
        self.entries.insert(i, (key, value));
    }
}

impl TextMap<String> {
    /// A copy of the map.
    pub fn copied(&self) -> (res: Self)
        ensures
            res@ == self@,
    {
        let mut entries: Vec<(String, String)> = Vec::new();
        let mut i: usize = 0;
        while i < self.entries.len()
            invariant
                i <= self.entries@.len(),
                entries@ == self.entries@.take(i as int),
            decreases self.entries@.len() - i,
        {
            entries.push((self.entries[i].0.clone(), self.entries[i].1.clone()));
            assert(entries@ =~= self.entries@.take(i as int + 1));
            i = i + 1;
        }
        assert(entries@ =~= self.entries@);
        TextMap { entries }
    }
}

/// The values of a list of entries, in key order.
pub open spec fn values_of<V>(entries: Seq<(Seq<char>, V)>) -> Seq<V> {
    entries.map_values(|entry: (Seq<char>, V)| entry.1)
}

/// The keys of a list of entries, in order.
pub open spec fn keys_of<V>(entries: Seq<(Seq<char>, V)>) -> Seq<Seq<char>> {
    entries.map_values(|entry: (Seq<char>, V)| entry.0)
}

impl TextMap<String> {
    /// The values, in key order.
    pub fn values(&self) -> (res: Vec<String>)
        ensures
            res@ == values_of(self@),
    {
        let mut values: Vec<String> = Vec::new();
        let mut i: usize = 0;
        while i < self.entries.len()
            invariant
                i <= self.entries@.len(),
                values@ == values_of(self@).take(i as int),
            decreases self.entries@.len() - i,
        {
            values.push(self.entries[i].1.clone());
            assert(values@ =~= values_of(self@).take(i as int + 1));
            i = i + 1;
        }
        assert(values@ =~= values_of(self@));
        values
    }
}

impl<V> TextMap<V> {
    /// The keys, in order.
    pub fn keys(&self) -> (res: Vec<String>)
        ensures
            views(res@) == keys_of(self@),
    {
        let mut keys: Vec<String> = Vec::new();
        let mut i: usize = 0;
        assert(views(keys@) =~= keys_of(self@).take(0));
        while i < self.entries.len()
            invariant
                i <= self.entries@.len(),
                views(keys@) == keys_of(self@).take(i as int),
            decreases self.entries@.len() - i,
        {
            let ghost before = keys@;
            keys.push(self.entries[i].0.clone());
            assert(views(keys@) =~= views(before).push(self.entries@[i as int].0@));
            assert(views(keys@) =~= keys_of(self@).take(i as int + 1));
            i = i + 1;
        }
        assert(keys_of(self@).take(self@.len() as int) =~= keys_of(self@));
        keys
    }
}

impl<V> Default for TextMap<V> {
    fn default() -> (res: Self)
        ensures
            res@ == Seq::<(Seq<char>, V)>::empty(),
    {
        TextMap::new()
    }
}

} // verus!
