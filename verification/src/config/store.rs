//! The values that were set, by key.

use vstd::prelude::*;
use vstd::string::*;
use crate::text::str_eq;

verus! {

/// A value as it is kept for a key.
#[derive(Debug, Clone, PartialEq, Eq)]
pub enum StoredValue {
    Bool(bool),
    /// A number in millionths.
    Number(i64),
    Text(String),
    /// A value of a kind that no field takes.
    Other,
}

/// A stored value as plain values.
pub enum ValueView {
    Bool(bool),
    Number(i64),
    Text(Seq<char>),
    Other,
}

impl View for StoredValue {
    type V = ValueView;

    open spec fn view(&self) -> ValueView {
        match self {
            StoredValue::Bool(flag) => ValueView::Bool(*flag),
            StoredValue::Number(number) => ValueView::Number(*number),
            StoredValue::Text(text) => ValueView::Text(text@),
            StoredValue::Other => ValueView::Other,
        }
    }
}

impl StoredValue {
    pub fn duplicate(&self) -> (copy: Self)
        ensures
            copy@ == self@,
    {
        match self {
            StoredValue::Bool(flag) => StoredValue::Bool(*flag),
            StoredValue::Number(number) => StoredValue::Number(*number),
            StoredValue::Text(text) => StoredValue::Text(text.clone()),
            StoredValue::Other => StoredValue::Other,
        }
    }
}

/// The map that a list of keys and values stands for; of two values for one
/// key the later one counts.
pub open spec fn pairs_map(items: Seq<(String, StoredValue)>) -> Map<Seq<char>, ValueView>
    decreases items.len(),
{
    if items.len() == 0 {
        Map::empty()
    } else {
        pairs_map(items.drop_last()).insert(items.last().0@, items.last().1@)
    }
}

/// Whether no key occurs twice.
pub open spec fn distinct_keys(items: Seq<(String, StoredValue)>) -> bool {
    forall|i: int, j: int|
        0 <= i < items.len() && 0 <= j < items.len() && i != j ==> (#[trigger] items[i]).0@
            != (#[trigger] items[j]).0@
}

/// The keys of the map are the keys of the list.
pub proof fn lemma_pairs_map_keys(items: Seq<(String, StoredValue)>, key: Seq<char>)
    ensures
        pairs_map(items).contains_key(key) <==> exists|i: int|
            0 <= i < items.len() && (#[trigger] items[i]).0@ == key,
    decreases items.len(),
{
    if items.len() > 0 {
        let earlier = items.drop_last();
        lemma_pairs_map_keys(earlier, key);
        if pairs_map(items).contains_key(key) {
            if items.last().0@ == key {
                assert(items[items.len() - 1].0@ == key);
            } else {
                let i = choose|i: int| 0 <= i < earlier.len() && (#[trigger] earlier[i]).0@ == key;
                assert(items[i].0@ == key);
            }
        }
        if exists|i: int| 0 <= i < items.len() && (#[trigger] items[i]).0@ == key {
            let i = choose|i: int| 0 <= i < items.len() && (#[trigger] items[i]).0@ == key;
            if i < items.len() - 1 {
                assert(earlier[i].0@ == key);
            }
        }
    }
}

/// Where no key occurs twice, the map holds for each key the value beside it.
pub proof fn lemma_pairs_map_value(items: Seq<(String, StoredValue)>, index: int)
    requires
        distinct_keys(items),
        0 <= index < items.len(),
    ensures
        pairs_map(items).contains_key(items[index].0@),
        pairs_map(items)[items[index].0@] == items[index].1@,
    decreases items.len(),
{
    if index < items.len() - 1 {
        let earlier = items.drop_last();
        assert(distinct_keys(earlier)) by {
            assert forall|i: int, j: int|
                0 <= i < earlier.len() && 0 <= j < earlier.len() && i != j implies (
            #[trigger] earlier[i]).0@ != (#[trigger] earlier[j]).0@ by {
                assert(earlier[i] == items[i] && earlier[j] == items[j]);
            }
        }
        lemma_pairs_map_value(earlier, index);
        assert(earlier[index] == items[index]);
        assert(items[items.len() - 1].0@ != items[index].0@);
    }
}

/// Replacing the value beside a key sets the key in the map.
pub proof fn lemma_pairs_map_update(
    items: Seq<(String, StoredValue)>,
    index: int,
    pair: (String, StoredValue),
)
    requires
        distinct_keys(items),
        0 <= index < items.len(),
        pair.0@ == items[index].0@,
    ensures
        distinct_keys(items.update(index, pair)),
        pairs_map(items.update(index, pair)) == pairs_map(items).insert(pair.0@, pair.1@),
{
    let after = items.update(index, pair);
    assert(distinct_keys(after)) by {
        assert forall|i: int, j: int|
            0 <= i < after.len() && 0 <= j < after.len() && i != j implies (#[trigger] after[i]).0@
            != (#[trigger] after[j]).0@ by {
            assert(after[i].0@ == items[i].0@ && after[j].0@ == items[j].0@);
        }
    }
    let left = pairs_map(after);
    let right = pairs_map(items).insert(pair.0@, pair.1@);
    assert forall|key: Seq<char>| left.contains_key(key) <==> right.contains_key(key) by {
        lemma_pairs_map_keys(after, key);
        lemma_pairs_map_keys(items, key);
        if left.contains_key(key) {
            let i = choose|i: int| 0 <= i < after.len() && (#[trigger] after[i]).0@ == key;
            assert(items[i].0@ == key);
        }
        if pairs_map(items).contains_key(key) {
            let i = choose|i: int| 0 <= i < items.len() && (#[trigger] items[i]).0@ == key;
            assert(after[i].0@ == key);
        }
        if key == pair.0@ {
            assert(after[index].0@ == key);
        }
    }
    assert forall|key: Seq<char>| left.contains_key(key) implies left[key] == right[key] by {
        lemma_pairs_map_keys(after, key);
        let i = choose|i: int| 0 <= i < after.len() && (#[trigger] after[i]).0@ == key;
        lemma_pairs_map_value(after, i);
        if i != index {
            assert(after[i] == items[i]);
            lemma_pairs_map_value(items, i);
            assert(items[i].0@ != items[index].0@);
        }
    }
    assert(left =~= right);
}

/// Removing a key and its value from the list removes the key from the map.
pub proof fn lemma_pairs_map_remove(items: Seq<(String, StoredValue)>, index: int)
    requires
        distinct_keys(items),
        0 <= index < items.len(),
    ensures
        distinct_keys(items.remove(index)),
        pairs_map(items.remove(index)) == pairs_map(items).remove(items[index].0@),
{
    let after = items.remove(index);
    assert(distinct_keys(after)) by {
        assert forall|i: int, j: int|
            0 <= i < after.len() && 0 <= j < after.len() && i != j implies (#[trigger] after[i]).0@
            != (#[trigger] after[j]).0@ by {
            let a = if i < index {
                i
            } else {
                i + 1
            };
            let b = if j < index {
                j
            } else {
                j + 1
            };
            assert(after[i] == items[a] && after[j] == items[b]);
        }
    }
    let left = pairs_map(after);
    let right = pairs_map(items).remove(items[index].0@);
    assert forall|key: Seq<char>| left.contains_key(key) <==> right.contains_key(key) by {
        lemma_pairs_map_keys(after, key);
        lemma_pairs_map_keys(items, key);
        if left.contains_key(key) {
            let i = choose|i: int| 0 <= i < after.len() && (#[trigger] after[i]).0@ == key;
            let a = if i < index {
                i
            } else {
                i + 1
            };
            assert(after[i] == items[a]);
            assert(items[a].0@ == key);
        }
        if right.contains_key(key) {
            let i = choose|i: int| 0 <= i < items.len() && (#[trigger] items[i]).0@ == key;
            assert(i != index);
            let a = if i < index {
                i
            } else {
                i - 1
            };
            assert(after[a] == items[i]);
            assert(after[a].0@ == key);
        }
    }
    assert forall|key: Seq<char>| left.contains_key(key) implies left[key] == right[key] by {
        lemma_pairs_map_keys(after, key);
        let i = choose|i: int| 0 <= i < after.len() && (#[trigger] after[i]).0@ == key;
        let a = if i < index {
            i
        } else {
            i + 1
        };
        assert(after[i] == items[a]);
        lemma_pairs_map_value(after, i);
        lemma_pairs_map_value(items, a);
    }
    assert(left =~= right);
}

/// Where no key occurs twice, the map has as many keys as the list.
pub proof fn lemma_pairs_map_len(items: Seq<(String, StoredValue)>)
    requires
        distinct_keys(items),
    ensures
        pairs_map(items).dom().finite(),
        pairs_map(items).len() == items.len(),
    decreases items.len(),
{
    if items.len() > 0 {
        let earlier = items.drop_last();
        assert(distinct_keys(earlier)) by {
            assert forall|i: int, j: int|
                0 <= i < earlier.len() && 0 <= j < earlier.len() && i != j implies (
            #[trigger] earlier[i]).0@ != (#[trigger] earlier[j]).0@ by {
                assert(earlier[i] == items[i] && earlier[j] == items[j]);
            }
        }
        lemma_pairs_map_len(earlier);
        lemma_pairs_map_keys(earlier, items.last().0@);
        if pairs_map(earlier).contains_key(items.last().0@) {
            let i = choose|i: int|
                0 <= i < earlier.len() && (#[trigger] earlier[i]).0@ == items.last().0@;
            assert(earlier[i] == items[i]);
            assert(items[items.len() - 1].0@ == items[i].0@);
        }
    }
}

/// The values that were set: at most one for each key.
#[derive(Debug, Clone)]
pub struct ValueStore {
    items: Vec<(String, StoredValue)>,
}

impl View for ValueStore {
    type V = Map<Seq<char>, ValueView>;

    closed spec fn view(&self) -> Map<Seq<char>, ValueView> {
        pairs_map(self.items@)
    }
}

impl ValueStore {
    /// The invariant of the store: no key occurs twice.
    pub closed spec fn wf(&self) -> bool {
        distinct_keys(self.items@)
    }

    /// A store without values.
    pub fn new() -> (store: Self)
        ensures
            store.wf(),
            store@ == Map::<Seq<char>, ValueView>::empty(),
    {
        ValueStore { items: Vec::new() }
    }

    /// Where the key stands in the list.
    fn position(&self, key: &str) -> (found: Option<usize>)
        requires
            self.wf(),
        ensures
            found matches Some(index) ==> index < self.items@.len() && self.items@[index as int].0@
                == key@,
            found is Some <==> self@.contains_key(key@),
    {
        let n = self.items.len();
        let mut i: usize = 0;
        while i < n
            invariant
                i <= n,
                n == self.items@.len(),
                forall|j: int| 0 <= j < i ==> (#[trigger] self.items@[j]).0@ != key@,
            decreases n - i,
        {
            if str_eq(self.items[i].0.as_str(), key) {
                proof {
                    lemma_pairs_map_keys(self.items@, key@);
                }
                return Some(i);
            }
            i += 1;
        }
        proof {
            lemma_pairs_map_keys(self.items@, key@);
        }
        None
    }

    /// The value that was set for the key, if any.
    pub fn get(&self, key: &str) -> (value: Option<&StoredValue>)
        requires
            self.wf(),
        ensures
            value is Some <==> self@.contains_key(key@),
            value matches Some(found) ==> found@ == self@[key@],
    {
        match self.position(key) {
            Some(index) => {
                proof {
                    lemma_pairs_map_value(self.items@, index as int);
                }
                Some(&self.items[index].1)
            },
            None => None,
        }
    }

    /// Sets the value for the key.
    pub fn insert(&mut self, key: String, value: StoredValue)
        requires
            old(self).wf(),
        ensures
            final(self).wf(),
            final(self)@ == old(self)@.insert(key@, value@),
    {
        match self.position(key.as_str()) {
            Some(index) => {
                proof {
                    lemma_pairs_map_update(self.items@, index as int, (key, value));
                }
                self.items.set(index, (key, value));
            },
            None => {
                let ghost before = self.items@;
                proof {
                    lemma_pairs_map_keys(before, key@);
                }
                self.items.push((key, value));
                assert(self.items@.drop_last() =~= before);
                assert(distinct_keys(self.items@)) by {
                    assert forall|i: int, j: int|
                        0 <= i < self.items@.len() && 0 <= j < self.items@.len() && i
                            != j implies (#[trigger] self.items@[i]).0@ != (
                    #[trigger] self.items@[j]).0@ by {
                        if i < before.len() {
                            assert(before[i] == self.items@[i]);
                        }
                        if j < before.len() {
                            assert(before[j] == self.items@[j]);
                        }
                    }
                }
            },
        }
    }

    /// Removes the value of the key, if one was set.
    pub fn remove(&mut self, key: &str)
        requires
            old(self).wf(),
        ensures
            final(self).wf(),
            final(self)@ == old(self)@.remove(key@),
    {
        match self.position(key) {
            Some(index) => {
                proof {
                    lemma_pairs_map_remove(self.items@, index as int);
                }
                self.items.remove(index);
            },
            None => {
                assert(self@ =~= self@.remove(key@));
            },
        }
    }

    /// The keys and values of the store.
    pub fn export(&self) -> (pairs: Vec<(String, StoredValue)>)
        requires
            self.wf(),
        ensures
            pairs@.len() == self@.len(),
            forall|i: int|
                0 <= i < pairs@.len() ==> self@.contains_key((#[trigger] pairs@[i]).0@)
                    && self@[pairs@[i].0@] == pairs@[i].1@,
            forall|i: int, j: int|
                0 <= i < j < pairs@.len() ==> (#[trigger] pairs@[i]).0@ != (#[trigger] pairs@[j]).0@,
    {
        let n = self.items.len();
        let mut pairs: Vec<(String, StoredValue)> = Vec::new();
        let mut i: usize = 0;
        while i < n
            invariant
                i <= n,
                n == self.items@.len(),
                pairs@.len() == i,
                forall|j: int|
                    0 <= j < i ==> (#[trigger] pairs@[j]).0@ == self.items@[j].0@ && pairs@[j].1@
                        == self.items@[j].1@,
            decreases n - i,
        {
            pairs.push((self.items[i].0.clone(), self.items[i].1.duplicate()));
            i += 1;
        }
        proof {
            lemma_pairs_map_len(self.items@);
            assert forall|j: int| 0 <= j < pairs@.len() implies self@.contains_key(
                (#[trigger] pairs@[j]).0@,
            ) && self@[pairs@[j].0@] == pairs@[j].1@ by {
                lemma_pairs_map_value(self.items@, j);
            }
        }
        pairs
    }

    /// How many values are set.
    pub fn len(&self) -> (n: usize)
        requires
            self.wf(),
        ensures
            n == self.pairs().len(),
    {
        self.items.len()
    }

    /// The keys and values of the store, in the order in which the keys were
    /// first set.
    pub closed spec fn pairs(&self) -> Seq<(Seq<char>, ValueView)> {
        Seq::new(self.items@.len(), |i: int| (self.items@[i].0@, self.items@[i].1@))
    }

    /// One key of the store with its value.
    pub fn pair(&self, index: usize) -> (pair: (&str, &StoredValue))
        requires
            self.wf(),
            index < self.pairs().len(),
        ensures
            pair.0@ == self.pairs()[index as int].0,
            pair.1@ == self.pairs()[index as int].1,
            self@.contains_key(pair.0@),
            self@[pair.0@] == pair.1@,
    {
        proof {
            lemma_pairs_map_value(self.items@, index as int);
        }
        (self.items[index].0.as_str(), &self.items[index].1)
    }
}

} // verus!
