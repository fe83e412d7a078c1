//! Small maps and sets keyed by text, kept as lists without duplicates.
use vstd::prelude::*;
use vstd::string::*;

use crate::text;

verus! {

/// A map from text to text. No key stands twice.
#[derive(Debug, PartialEq, Eq)]
pub struct TextMap {
    pub entries: Vec<(String, String)>,
}

impl View for TextMap {
    type V = Map<Seq<char>, Seq<char>>;

    open spec fn view(&self) -> Map<Seq<char>, Seq<char>> {
        Map::new(
            |key: Seq<char>| has_key(self.entries@, key),
            |key: Seq<char>| self.entries@[place_of(self.entries@, key)].1@,
        )
    }
}

/// Whether some entry has this key.
pub open spec fn has_key(entries: Seq<(String, String)>, key: Seq<char>) -> bool {
    exists|i: int| 0 <= i < entries.len() && (#[trigger] entries[i]).0@ == key
}

/// Where the entry with this key stands.
pub open spec fn place_of(entries: Seq<(String, String)>, key: Seq<char>) -> int {
    choose|i: int| 0 <= i < entries.len() && (#[trigger] entries[i]).0@ == key
}

impl TextMap {
    /// No key stands twice.
    pub open spec fn wf(self) -> bool {
        forall|i: int, j: int|
            0 <= i < self.entries@.len() && 0 <= j < self.entries@.len() && (
            #[trigger] self.entries@[i]).0@ == (#[trigger] self.entries@[j]).0@ ==> i == j
    }

    pub fn new() -> (map: TextMap)
        ensures
            map.wf(),
            map@ == Map::<Seq<char>, Seq<char>>::empty(),
            map.entries@.len() == 0,
    {
        let map = TextMap { entries: Vec::new() };
        assert(map@ =~= Map::<Seq<char>, Seq<char>>::empty());
        map
    }

    /// How many keys there are.
    pub fn len(&self) -> (n: usize)
        ensures
            n == self.entries@.len(),
    {
        self.entries.len()
    }

    /// Whether there is no key at all.
    pub fn is_empty(&self) -> (yes: bool)
        ensures
            yes == (self.entries@.len() == 0),
            yes == (self@ == Map::<Seq<char>, Seq<char>>::empty()),
    {
        proof {
            if self.entries@.len() == 0 {
                assert(self@ =~= Map::<Seq<char>, Seq<char>>::empty());
            } else {
                assert(has_key(self.entries@, self.entries@[0].0@));
                assert(self@.dom().contains(self.entries@[0].0@));
            }
        }
        self.entries.len() == 0
    }

    fn find(&self, key: &str) -> (at: Option<usize>)
        ensures
            at is Some <==> has_key(self.entries@, key@),
            at matches Some(i) ==> i < self.entries@.len() && self.entries@[i as int].0@ == key@,
    {
        let mut i: usize = 0;
        while i < self.entries.len()
            invariant
                i <= self.entries@.len(),
                forall|k: int| 0 <= k < i ==> (#[trigger] self.entries@[k]).0@ != key@,
            decreases self.entries@.len() - i,
        {
            if text::same_text(self.entries[i].0.as_str(), key) {
                return Some(i);
            }
            i = i + 1;
        }
        None
    }

    /// The value under `key`.
    pub fn get(&self, key: &str) -> (out: Option<&String>)
        requires
            self.wf(),
        ensures
            out is Some <==> self@.dom().contains(key@),
            out matches Some(v) ==> v@ == self@[key@],
    {
        match self.find(key) {
            Some(i) => {
                proof {
                    let p = place_of(self.entries@, key@);
                    assert(self.entries@[p].0@ == self.entries@[i as int].0@);
                }
                Some(&self.entries[i].1)
            },
            None => None,
        }
    }

    /// Whether `key` has a value.
    pub fn contains(&self, key: &str) -> (yes: bool)
        ensures
            yes == self@.dom().contains(key@),
    {
        self.find(key).is_some()
    }

    /// Puts `value` under `key`, in place of what was there.
    pub fn insert(&mut self, key: String, value: String)
        requires
            old(self).wf(),
        ensures
            final(self).wf(),
            final(self)@ == old(self)@.insert(key@, value@),
    {
        match self.find(key.as_str()) {
            Some(i) => {
                let ghost before = self.entries@;
                self.entries.set(i, (key, value));
                proof {
                    let now = self.entries@;
                    assert(forall|k: int|
                        0 <= k < now.len() ==> (#[trigger] now[k]).0@ == before[k].0@);
                    lemma_map_updated(*old(self), *self, i as int, key@, value@);
                }
            },
            None => {
                self.entries.push((key, value));
                proof {
                    lemma_map_pushed(*old(self), *self, key@, value@);
                }
            },
        }
    }

    /// Puts `value` under `key`, unless something is there.
    pub fn insert_if_absent(&mut self, key: String, value: String)
        requires
            old(self).wf(),
        ensures
            final(self).wf(),
            final(self)@ == (if old(self)@.dom().contains(key@) {
                old(self)@
            } else {
                old(self)@.insert(key@, value@)
            }),
    {
        if !self.contains(key.as_str()) {
            self.entries.push((key, value));
            proof {
                lemma_map_pushed(*old(self), *self, key@, value@);
            }
        }
    }

    /// Another map with the same keys and values.
    pub fn copy(&self) -> (out: TextMap)
        requires
            self.wf(),
        ensures
            out.wf(),
            out@ == self@,
            out.entries@.len() == self.entries@.len(),
    {
        let mut out = TextMap { entries: Vec::new() };
        let mut i: usize = 0;
        while i < self.entries.len()
            invariant
                self.wf(),
                i <= self.entries@.len(),
                out.entries@.len() == i,
                forall|k: int|
                    0 <= k < i ==> (#[trigger] out.entries@[k]).0@ == self.entries@[k].0@
                        && out.entries@[k].1@ == self.entries@[k].1@,
            decreases self.entries@.len() - i,
        {
            out.entries.push((self.entries[i].0.clone(), self.entries[i].1.clone()));
            i = i + 1;
        }
        proof {
            lemma_map_same(*self, out);
        }
        out
    }
}

proof fn lemma_map_same(a: TextMap, b: TextMap)
    requires
        a.wf(),
        a.entries@.len() == b.entries@.len(),
        forall|k: int|
            0 <= k < b.entries@.len() ==> (#[trigger] b.entries@[k]).0@ == a.entries@[k].0@
                && b.entries@[k].1@ == a.entries@[k].1@,
    ensures
        b.wf(),
        b@ == a@,
{
    assert forall|i: int, j: int|
        0 <= i < b.entries@.len() && 0 <= j < b.entries@.len() && (#[trigger] b.entries@[i]).0@ == (
        #[trigger] b.entries@[j]).0@ implies i == j by {
        assert(a.entries@[i].0@ == a.entries@[j].0@);
    }
    assert forall|key: Seq<char>| #[trigger] b@.dom().contains(key) == a@.dom().contains(key) by {
        if has_key(a.entries@, key) {
            let i = place_of(a.entries@, key);
            assert(b.entries@[i].0@ == key);
        }
        if has_key(b.entries@, key) {
            let i = place_of(b.entries@, key);
            assert(a.entries@[i].0@ == key);
        }
    }
    assert forall|key: Seq<char>| b@.dom().contains(key) implies #[trigger] b@[key] == a@[key] by {
        assert(a@.dom().contains(key));
        let i = place_of(a.entries@, key);
        let j = place_of(b.entries@, key);
        assert(b.entries@[i].0@ == b.entries@[j].0@);
    }
    assert(b@ =~= a@);
}

proof fn lemma_map_pushed(a: TextMap, b: TextMap, key: Seq<char>, value: Seq<char>)
    requires
        a.wf(),
        !has_key(a.entries@, key),
        b.entries@.len() == a.entries@.len() + 1,
        b.entries@.drop_last() =~= a.entries@,
        b.entries@.last().0@ == key,
        b.entries@.last().1@ == value,
    ensures
        b.wf(),
        b@ == a@.insert(key, value),
{
    let n = a.entries@.len() as int;
    assert(forall|k: int| 0 <= k < n ==> a.entries@[k] == #[trigger] b.entries@[k]);
    assert forall|i: int, j: int|
        0 <= i < b.entries@.len() && 0 <= j < b.entries@.len() && (#[trigger] b.entries@[i]).0@ == (
        #[trigger] b.entries@[j]).0@ implies i == j by {
        if i < n && j < n {
            assert(a.entries@[i].0@ == a.entries@[j].0@);
        } else if i < n {
            assert(a.entries@[i].0@ == key);
        } else if j < n {
            assert(a.entries@[j].0@ == key);
        }
    }
    assert forall|k: Seq<char>|
        #[trigger] b@.dom().contains(k) == a@.insert(key, value).dom().contains(k) by {
        if has_key(a.entries@, k) {
            let i = place_of(a.entries@, k);
            assert(b.entries@[i].0@ == k);
        }
        if k == key {
            assert(b.entries@[n].0@ == k);
        }
        if has_key(b.entries@, k) {
            let i = place_of(b.entries@, k);
            if i < n {
                assert(a.entries@[i].0@ == k);
            }
        }
    }
    assert forall|k: Seq<char>| b@.dom().contains(k) implies #[trigger] b@[k] == a@.insert(
        key,
        value,
    )[k] by {
        let j = place_of(b.entries@, k);
        if k == key {
            assert(b.entries@[n].0@ == b.entries@[j].0@);
        } else {
            assert(a@.dom().contains(k));
            let i = place_of(a.entries@, k);
            assert(b.entries@[i].0@ == b.entries@[j].0@);
        }
    }
    assert(b@ =~= a@.insert(key, value));
}

proof fn lemma_map_updated(a: TextMap, b: TextMap, at: int, key: Seq<char>, value: Seq<char>)
    requires
        a.wf(),
        0 <= at < a.entries@.len(),
        a.entries@[at].0@ == key,
        b.entries@.len() == a.entries@.len(),
        forall|k: int| 0 <= k < b.entries@.len() ==> (#[trigger] b.entries@[k]).0@ == a.entries@[k].0@,
        forall|k: int|
            0 <= k < b.entries@.len() && k != at ==> (#[trigger] b.entries@[k]) == a.entries@[k],
        b.entries@[at].1@ == value,
    ensures
        b.wf(),
        b@ == a@.insert(key, value),
{
    assert forall|i: int, j: int|
        0 <= i < b.entries@.len() && 0 <= j < b.entries@.len() && (#[trigger] b.entries@[i]).0@ == (
        #[trigger] b.entries@[j]).0@ implies i == j by {
        assert(a.entries@[i].0@ == a.entries@[j].0@);
    }
    assert forall|k: Seq<char>|
        #[trigger] b@.dom().contains(k) == a@.insert(key, value).dom().contains(k) by {
        if has_key(a.entries@, k) {
            let i = place_of(a.entries@, k);
            assert(b.entries@[i].0@ == k);
        }
        if k == key {
            assert(b.entries@[at].0@ == k);
        }
        if has_key(b.entries@, k) {
            let i = place_of(b.entries@, k);
            assert(a.entries@[i].0@ == k);
        }
    }
    assert forall|k: Seq<char>| b@.dom().contains(k) implies #[trigger] b@[k] == a@.insert(
        key,
        value,
    )[k] by {
        let j = place_of(b.entries@, k);
        if k == key {
            assert(b.entries@[at].0@ == b.entries@[j].0@);
        } else {
            assert(has_key(a.entries@, k));
            let i = place_of(a.entries@, k);
            assert(b.entries@[i].0@ == b.entries@[j].0@);
            assert(i != at);
        }
    }
    assert(b@ =~= a@.insert(key, value));
}

/// A set of texts. No text stands twice.
#[derive(Debug, PartialEq, Eq)]
pub struct TextSet {
    pub items: Vec<String>,
}

/// Whether a list holds this text.
pub open spec fn holds(items: Seq<String>, item: Seq<char>) -> bool {
    exists|i: int| 0 <= i < items.len() && (#[trigger] items[i])@ == item
}

impl View for TextSet {
    type V = Set<Seq<char>>;

    open spec fn view(&self) -> Set<Seq<char>> {
        Set::new(|item: Seq<char>| holds(self.items@, item))
    }
}

impl TextSet {
    /// No text stands twice.
    pub open spec fn wf(self) -> bool {
        forall|i: int, j: int|
            0 <= i < self.items@.len() && 0 <= j < self.items@.len() && (
            #[trigger] self.items@[i])@ == (#[trigger] self.items@[j])@ ==> i == j
    }

    pub fn new() -> (set: TextSet)
        ensures
            set.wf(),
            set@ == Set::<Seq<char>>::empty(),
    {
        let set = TextSet { items: Vec::new() };
        assert(set@ =~= Set::<Seq<char>>::empty());
        set
    }

    fn find(&self, item: &str) -> (at: Option<usize>)
        ensures
            at is Some <==> holds(self.items@, item@),
            at matches Some(i) ==> i < self.items@.len() && self.items@[i as int]@ == item@,
    {
        let mut i: usize = 0;
        while i < self.items.len()
            invariant
                i <= self.items@.len(),
                forall|k: int| 0 <= k < i ==> (#[trigger] self.items@[k])@ != item@,
            decreases self.items@.len() - i,
        {
            if text::same_text(self.items[i].as_str(), item) {
                return Some(i);
            }
            i = i + 1;
        }
        None
    }

    /// Whether the set holds `item`.
    pub fn contains(&self, item: &str) -> (yes: bool)
        ensures
            yes == self@.contains(item@),
    {
        self.find(item).is_some()
    }

    /// Adds `item`.
    pub fn insert(&mut self, item: String)
        requires
            old(self).wf(),
        ensures
            final(self).wf(),
            final(self)@ == old(self)@.insert(item@),
    {
        if !self.contains(item.as_str()) {
            let ghost before = self.items@;
            self.items.push(item);
            proof {
                let n = before.len() as int;
                let now = self.items@;
                assert(forall|k: int| 0 <= k < n ==> before[k] == #[trigger] now[k]);
                assert forall|i: int, j: int|
                    0 <= i < now.len() && 0 <= j < now.len() && (#[trigger] now[i])@ == (
                    #[trigger] now[j])@ implies i == j by {
                    if i < n && j < n {
                        assert(before[i]@ == before[j]@);
                    } else if i < n {
                        assert(before[i]@ == item@);
                    } else if j < n {
                        assert(before[j]@ == item@);
                    }
                }
                assert forall|k: Seq<char>|
                    #[trigger] self@.contains(k) == old(self)@.insert(item@).contains(k) by {
                    if holds(before, k) {
                        let i = choose|i: int| 0 <= i < before.len() && (#[trigger] before[i])@ == k;
                        assert(now[i]@ == k);
                    }
                    if k == item@ {
                        assert(now[n]@ == k);
                    }
                    if holds(now, k) {
                        let i = choose|i: int| 0 <= i < now.len() && (#[trigger] now[i])@ == k;
                        if i < n {
                            assert(before[i]@ == k);
                        }
                    }
                }
                assert(self@ =~= old(self)@.insert(item@));
            }
        } else {
            assert(self@ =~= old(self)@.insert(item@));
        }
    }

    /// Takes `item` out.
    pub fn remove(&mut self, item: &str)
        requires
            old(self).wf(),
        ensures
            final(self).wf(),
            final(self)@ == old(self)@.remove(item@),
    {
        match self.find(item) {
            Some(at) => {
                let ghost before = self.items@;
                let _removed: String = self.items.remove(at);
                proof {
                    let now = self.items@;
                    assert(forall|k: int|
                        0 <= k < now.len() ==> (#[trigger] now[k]) == before[if k < at {
                            k
                        } else {
                            k + 1
                        }]);
                    assert forall|i: int, j: int|
                        0 <= i < now.len() && 0 <= j < now.len() && (#[trigger] now[i])@ == (
                        #[trigger] now[j])@ implies i == j by {
                        let p = if i < at {
                            i
                        } else {
                            i + 1
                        };
                        let q = if j < at {
                            j
                        } else {
                            j + 1
                        };
                        assert(before[p]@ == before[q]@);
                    }
                    assert forall|k: Seq<char>|
                        #[trigger] self@.contains(k) == old(self)@.remove(item@).contains(k) by {
                        if holds(before, k) && k != item@ {
                            let i = choose|i: int|
                                0 <= i < before.len() && (#[trigger] before[i])@ == k;
                            assert(i != at);
                            let p = if i < at {
                                i
                            } else {
                                i - 1
                            };
                            assert(now[p]@ == k);
                        }
                        if holds(now, k) {
                            let i = choose|i: int| 0 <= i < now.len() && (#[trigger] now[i])@ == k;
                            let p = if i < at {
                                i
                            } else {
                                i + 1
                            };
                            assert(before[p]@ == k);
                            if k == item@ {
                                assert(before[p]@ == before[at as int]@);
                            }
                        }
                    }
                    assert(self@ =~= old(self)@.remove(item@));
                }
            },
            None => {
                assert(self@ =~= old(self)@.remove(item@));
            },
        }
    }
}

/// What a map and a set hold is what was put in them: an entry's value under its key, an item,
/// and nothing else.
pub proof fn law_a_map_holds_its_entries(map: TextMap, set: TextSet, key: Seq<char>, i: int)
    requires
        map.wf(),
    ensures
        0 <= i < map.entries@.len() ==> map@.dom().contains(map.entries@[i].0@)
            && map@[map.entries@[i].0@] == map.entries@[i].1@,
        map@.dom().contains(key) ==> exists|k: int|
            0 <= k < map.entries@.len() && (#[trigger] map.entries@[k]).0@ == key,
        0 <= i < set.items@.len() ==> set@.contains(set.items@[i]@),
        set@.contains(key) ==> exists|k: int|
            0 <= k < set.items@.len() && (#[trigger] set.items@[k])@ == key,
{
    if 0 <= i < map.entries@.len() {
        let at = map.entries@[i].0@;
        assert(has_key(map.entries@, at));
        let place = place_of(map.entries@, at);
        assert(map.entries@[place].0@ == at);
        assert(place == i);
    }
    if 0 <= i < set.items@.len() {
        assert(holds(set.items@, set.items@[i]@));
    }
}

} // verus!
