//! Finite maps and sets keyed by strings, kept as vectors without duplicate
//! keys. Their views are mathematical maps and sets over character sequences.
use vstd::prelude::*;
use crate::text::str_eq;

verus! {

/// A map from strings to values with no key stored twice.
pub struct StrMap<V> {
    entries: Vec<(String, V)>,
    contents: Ghost<Map<Seq<char>, V>>,
}

/// The stored pairs have distinct keys and describe exactly the map `m`.
spec fn consistent<V>(entries: Seq<(String, V)>, m: Map<Seq<char>, V>) -> bool {    
        &&& forall|i: int, j: int|
            #![trigger entries[i], entries[j]]
            0 <= i < entries.len() && 0 <= j < entries.len() && i != j
                ==> entries[i].0@ != entries[j].0@
        &&& forall|i: int|
            #![trigger entries[i]]
            0 <= i < entries.len() ==> m.contains_key(entries[i].0@)
                && m[entries[i].0@] == entries[i].1
        &&& forall|k: Seq<char>|
            #[trigger] m.contains_key(k) ==> exists|i: int|
                0 <= i < entries.len() && #[trigger] entries[i].0@ == k
        &&& m.dom().finite()
        &&& m.len() == entries.len()
}

impl<V> View for StrMap<V> {
    type V = Map<Seq<char>, V>;

    closed spec fn view(&self) -> Map<Seq<char>, V> {
        self.contents@
    }
}

impl<V> StrMap<V> {
    #[verifier::type_invariant]
    closed spec fn inv(self) -> bool {
        consistent(self.entries@, self.contents@)
    }

    /// The stored pairs, in an unspecified order.
    pub closed spec fn pairs(&self) -> Seq<(String, V)> {
        self.entries@
    }

    /// The keys in the order the pairs are stored: a key keeps its place
    /// when its value is replaced, and a new key goes last.
    pub closed spec fn key_order(&self) -> Seq<Seq<char>> {
        self.entries@.map_values(|e: (String, V)| e.0@)
    }

    /// An empty map.
    pub fn new() -> (r: Self)
        ensures
            r@ == Map::<Seq<char>, V>::empty(),
            r.key_order() == Seq::<Seq<char>>::empty(),
    {
        let r = StrMap { entries: Vec::new(), contents: Ghost(Map::empty()) };
        proof { assert(r.key_order() =~= Seq::<Seq<char>>::empty()); }
        r
    }

    /// The number of keys.
    pub fn len(&self) -> (r: usize)
        ensures
            r == self@.len(),
    {
        proof { use_type_invariant(self); }
        self.entries.len()
    }

    /// The stored pairs, in an unspecified order.
    pub fn entries(&self) -> (r: &Vec<(String, V)>)
        ensures
            r@ == self.pairs(),
            r@.map_values(|e: (String, V)| e.0@) == self.key_order(),
            r@.len() == self@.len(),
            forall|i: int|
                #![trigger r@[i]]
                0 <= i < r@.len() ==> self@.contains_key(r@[i].0@) && self@[r@[i].0@] == r@[i].1,
            forall|k: Seq<char>|
                #[trigger] self@.contains_key(k) ==> exists|i: int|
                    0 <= i < r@.len() && #[trigger] r@[i].0@ == k,
            forall|i: int, j: int|
                0 <= i < r@.len() && 0 <= j < r@.len() && i != j
                    ==> #[trigger] r@[i].0@ != #[trigger] r@[j].0@,
    {
        proof { use_type_invariant(self); }
        &self.entries
    }

    fn find(&self, key: &str) -> (r: Option<usize>)
        ensures
            match r {
                Some(i) => i < self.entries@.len() && self.entries@[i as int].0@ == key@,
                None => forall|i: int|
                    0 <= i < self.entries@.len() ==> #[trigger] self.entries@[i].0@ != key@,
            },
    {
        let mut i: usize = 0;
        while i < self.entries.len()
            invariant
                i <= self.entries@.len(),
                forall|j: int| 0 <= j < i ==> #[trigger] self.entries@[j].0@ != key@,
            decreases self.entries@.len() - i,
        {
            if str_eq(self.entries[i].0.as_str(), key) {
                return Some(i);
            }
            i = i + 1;
        }
        None
    }

    /// Whether `key` is present.
    pub fn contains_key(&self, key: &str) -> (r: bool)
        ensures
            r == self@.contains_key(key@),
    {
        proof { use_type_invariant(self); }
        self.find(key).is_some()
    }

    /// The value stored under `key`, if any.
    pub fn get(&self, key: &str) -> (r: Option<&V>)
        ensures
            match r {
                Some(v) => self@.contains_key(key@) && *v == self@[key@],
                None => !self@.contains_key(key@),
            },
    {
        proof { use_type_invariant(self); }
        match self.find(key) {
            Some(i) => Some(&self.entries[i].1),
            None => None,
        }
    }

    /// Stores `value` under `key`, replacing any earlier value.
    pub fn insert(&mut self, key: String, value: V)
        ensures
            final(self)@ == old(self)@.insert(key@, value),
            final(self).key_order() == (if old(self)@.contains_key(key@) {
                old(self).key_order()
            } else {
                old(self).key_order().push(key@)
            }),
    {
        proof { use_type_invariant(&*self); }
        let ghost k = key@;
        let ghost old_map = self.contents@;
        let ghost new_map = self.contents@.insert(k, value);
        match self.find(key.as_str()) {
            Some(i) => {
                let ghost old_entries = self.entries@;
                let mut whole = StrMap::new();
                std::mem::swap(self, &mut whole);
                proof { use_type_invariant(&whole); }
                let StrMap { mut entries, contents: _ } = whole;
                entries.set(i, (key, value));
                proof {
                    assert(entries@ == old_entries.update(i as int, entries@[i as int]));
                    assert forall|a: int, b: int|
                        #![trigger entries@[a], entries@[b]]
                        0 <= a < entries@.len() && 0 <= b < entries@.len() && a != b
                            implies entries@[a].0@ != entries@[b].0@ by {
                        assert(old_entries[a].0@ != old_entries[b].0@);
                    }
                    assert forall|a: int|
                        #![trigger entries@[a]]
                        0 <= a < entries@.len() implies new_map.contains_key(entries@[a].0@)
                            && new_map[entries@[a].0@] == entries@[a].1 by {
                        if a != i {
                            assert(old_entries[a].0@ != old_entries[i as int].0@);
                        }
                    }
                    assert forall|kk: Seq<char>| #[trigger] new_map.contains_key(kk) implies exists|j: int|
                        0 <= j < entries@.len() && #[trigger] entries@[j].0@ == kk by {
                        if kk != k {
                            let j = choose|j: int| 0 <= j < old_entries.len() && #[trigger] old_entries[j].0@ == kk;
                            assert(entries@[j].0@ == kk);
                        } else {
                            assert(entries@[i as int].0@ == kk);
                        }
                    }
                    assert(new_map.dom() =~= old_map.dom());
                    assert(entries@.map_values(|e: (String, V)| e.0@) =~= old_entries.map_values(|e: (String, V)| e.0@));
                    assert(old_map.contains_key(k));
                }
                assert(consistent(entries@, new_map));
                *self = StrMap { entries, contents: Ghost(new_map) };
            },
            None => {
                let ghost old_entries = self.entries@;
                let mut whole = StrMap::new();
                std::mem::swap(self, &mut whole);
                proof { use_type_invariant(&whole); }
                let StrMap { mut entries, contents: _ } = whole;
                entries.push((key, value));
                proof {
                    let n = old_entries.len() as int;
                    assert forall|a: int, b: int|
                        #![trigger entries@[a], entries@[b]]
                        0 <= a < entries@.len() && 0 <= b < entries@.len() && a != b
                            implies entries@[a].0@ != entries@[b].0@ by {
                        if a < n && b < n {
                            assert(old_entries[a].0@ != old_entries[b].0@);
                        } else if a < n {
                            assert(old_entries[a] == entries@[a]);
                        } else {
                            assert(old_entries[b] == entries@[b]);
                        }
                    }
                    assert forall|a: int|
                        #![trigger entries@[a]]
                        0 <= a < entries@.len() implies new_map.contains_key(entries@[a].0@)
                            && new_map[entries@[a].0@] == entries@[a].1 by {
                        if a < n {
                            assert(old_entries[a] == entries@[a]);
                        }
                    }
                    assert(entries@.map_values(|e: (String, V)| e.0@) =~= old_entries.map_values(|e: (String, V)| e.0@).push(k));
                    assert forall|kk: Seq<char>| #[trigger] new_map.contains_key(kk) implies exists|j: int|
                        0 <= j < entries@.len() && #[trigger] entries@[j].0@ == kk by {
                        if kk != k {
                            let j = choose|j: int| 0 <= j < old_entries.len() && #[trigger] old_entries[j].0@ == kk;
                            assert(entries@[j].0@ == kk);
                        } else {
                            assert(entries@[n].0@ == kk);
                        }
                    }
                    assert(!old_map.contains_key(k));
                }
                assert(consistent(entries@, new_map));
                *self = StrMap { entries, contents: Ghost(new_map) };
            },
        }
    }

    /// Removes `key` and hands back its value, if it was present.
    pub fn remove(&mut self, key: &str) -> (r: Option<V>)
        ensures
            final(self)@ == old(self)@.remove(key@),
            match r {
                Some(v) => old(self)@.contains_key(key@) && v == old(self)@[key@],
                None => !old(self)@.contains_key(key@),
            },
    {
        proof { use_type_invariant(&*self); }
        match self.find(key) {
            Some(i) => {
                let ghost old_entries = self.entries@;
                let ghost old_map = self.contents@;
                let ghost new_map = self.contents@.remove(key@);
                let mut whole = StrMap::new();
                std::mem::swap(self, &mut whole);
                proof { use_type_invariant(&whole); }
                let StrMap { mut entries, contents: _ } = whole;
                let (_, v) = entries.remove(i);
                proof {
                    assert(entries@ == old_entries.remove(i as int));
                    assert forall|a: int, b: int|
                        0 <= a < entries@.len() && 0 <= b < entries@.len() && a != b
                            implies #[trigger] entries@[a].0@ != #[trigger] entries@[b].0@ by {
                        let oa = if a < i { a } else { a + 1 };
                        let ob = if b < i { b } else { b + 1 };
                        assert(entries@[a] == old_entries[oa]);
                        assert(entries@[b] == old_entries[ob]);
                    }
                    assert forall|a: int| 0 <= a < entries@.len() implies #[trigger] new_map.contains_key(
                        entries@[a].0@,
                    ) && new_map[entries@[a].0@] == entries@[a].1 by {
                        let oa = if a < i { a } else { a + 1 };
                        assert(entries@[a] == old_entries[oa]);
                        assert(old_entries[oa].0@ != old_entries[i as int].0@);
                    }
                    assert forall|kk: Seq<char>| #[trigger] new_map.contains_key(kk) implies exists|j: int|
                        0 <= j < entries@.len() && #[trigger] entries@[j].0@ == kk by {
                        let j = choose|j: int| 0 <= j < old_entries.len() && #[trigger] old_entries[j].0@ == kk;
                        assert(j != i);
                        let nj = if j < i { j } else { j - 1 };
                        assert(entries@[nj] == old_entries[j]);
                    }
                }
                assert(consistent(entries@, new_map));
                *self = StrMap { entries, contents: Ghost(new_map) };
                Some(v)
            },
            None => {
                proof {
                    if self.contents@.contains_key(key@) {
                        let j = choose|j: int| 0 <= j < self.entries@.len() && #[trigger] self.entries@[j].0@ == key@;
                    }
                    assert(self.contents@.remove(key@) =~= self.contents@);
                }
                None
            },
        }
    }
}

/// A set of strings with no member stored twice.
pub struct StrSet {
    items: Vec<String>,
    members: Ghost<Set<Seq<char>>>,
}

/// The stored strings are distinct and are exactly the members of `m`.
spec fn set_consistent(items: Seq<String>, m: Set<Seq<char>>) -> bool {    
        &&& forall|i: int, j: int|
            #![trigger items[i], items[j]]
            0 <= i < items.len() && 0 <= j < items.len() && i != j
                ==> items[i]@ != items[j]@
        &&& forall|i: int|
            #![trigger items[i]]
            0 <= i < items.len() ==> m.contains(items[i]@)
        &&& forall|k: Seq<char>|
            #[trigger] m.contains(k) ==> exists|i: int|
                0 <= i < items.len() && #[trigger] items[i]@ == k
        &&& m.finite()
        &&& m.len() == items.len()
}

impl View for StrSet {
    type V = Set<Seq<char>>;

    closed spec fn view(&self) -> Set<Seq<char>> {
        self.members@
    }
}

impl StrSet {
    #[verifier::type_invariant]
    closed spec fn inv(self) -> bool {
        set_consistent(self.items@, self.members@)
    }

    /// The stored members, in an unspecified order.
    pub closed spec fn members_seq(&self) -> Seq<String> {
        self.items@
    }

    /// An empty set.
    pub fn new() -> (r: Self)
        ensures
            r@ == Set::<Seq<char>>::empty(),
    {
        StrSet { items: Vec::new(), members: Ghost(Set::empty()) }
    }

    /// The number of members.
    pub fn len(&self) -> (r: usize)
        ensures
            r == self@.len(),
    {
        proof { use_type_invariant(self); }
        self.items.len()
    }

    /// The stored members, in an unspecified order.
    pub fn items(&self) -> (r: &Vec<String>)
        ensures
            r@ == self.members_seq(),
            r@.len() == self@.len(),
            forall|i: int| #![trigger r@[i]] 0 <= i < r@.len() ==> self@.contains(r@[i]@),
            forall|k: Seq<char>|
                #[trigger] self@.contains(k) ==> exists|i: int|
                    0 <= i < r@.len() && #[trigger] r@[i]@ == k,
    {
        proof { use_type_invariant(self); }
        &self.items
    }

    /// Whether `key` is a member.
    pub fn contains(&self, key: &str) -> (r: bool)
        ensures
            r == self@.contains(key@),
    {
        proof { use_type_invariant(self); }
        let mut i: usize = 0;
        while i < self.items.len()
            invariant
                i <= self.items@.len(),
                forall|j: int| 0 <= j < i ==> #[trigger] self.items@[j]@ != key@,
            decreases self.items@.len() - i,
        {
            if str_eq(self.items[i].as_str(), key) {
                proof { use_type_invariant(self); }
                return true;
            }
            i = i + 1;
        }
        proof {
            if self.members@.contains(key@) {
                let j = choose|j: int| 0 <= j < self.items@.len() && #[trigger] self.items@[j]@ == key@;
            }
        }
        false
    }

    /// Adds `key`; `true` when it was not a member before.
    pub fn insert(&mut self, key: String) -> (r: bool)
        ensures
            final(self)@ == old(self)@.insert(key@),
            r == !old(self)@.contains(key@),
    {
        proof { use_type_invariant(&*self); }
        if self.contains(key.as_str()) {
            proof { assert(self.members@.insert(key@) =~= self.members@); }
            return false;
        }
        let ghost k = key@;
        let ghost old_items = self.items@;
        let ghost old_set = self.members@;
        let ghost new_set = self.members@.insert(k);
        let mut whole = StrSet::new();
        std::mem::swap(self, &mut whole);
        proof { use_type_invariant(&whole); }
        let StrSet { mut items, members: _ } = whole;
        items.push(key);
        proof {
            let n = old_items.len() as int;
            assert forall|kk: Seq<char>| #[trigger] new_set.contains(kk) implies exists|j: int|
                0 <= j < items@.len() && #[trigger] items@[j]@ == kk by {
                if kk != k {
                    let j = choose|j: int| 0 <= j < old_items.len() && #[trigger] old_items[j]@ == kk;
                    assert(items@[j]@ == kk);
                } else {
                    assert(items@[n]@ == kk);
                }
            }
            assert forall|a: int, b: int|
                0 <= a < items@.len() && 0 <= b < items@.len() && a != b
                    implies #[trigger] items@[a]@ != #[trigger] items@[b]@ by {
                if a < n && b < n {
                    assert(items@[a] == old_items[a]);
                    assert(items@[b] == old_items[b]);
                } else if a < n {
                    assert(old_set.contains(old_items[a]@));
                } else if b < n {
                    assert(old_set.contains(old_items[b]@));
                }
            }
        }
        assert(set_consistent(items@, new_set));
        *self = StrSet { items, members: Ghost(new_set) };
        true
    }
    /// A copy of the set.
    pub fn duplicate(&self) -> (r: StrSet)
        ensures
            r@ == self@,
    {
        proof { use_type_invariant(self); }
        let mut r = StrSet::new();
        let mut i: usize = 0;
        while i < self.items.len()
            invariant
                i <= self.items@.len(),
                set_consistent(self.items@, self.members@),
                r@ == Set::new(|k: Seq<char>| exists|j: int| 0 <= j < i && #[trigger] self.items@[j]@ == k),
            decreases self.items@.len() - i,
        {
            let ghost before = r@;
            r.insert(self.items[i].clone());
            proof {
                assert(r@ =~= Set::new(|k: Seq<char>| exists|j: int| 0 <= j < i + 1 && #[trigger] self.items@[j]@ == k)) by {
                    assert forall|k: Seq<char>| r@.contains(k) implies exists|j: int| 0 <= j < i + 1 && #[trigger] self.items@[j]@ == k by {
                        if k == self.items@[i as int]@ {
                        } else {
                            assert(before.contains(k));
                        }
                    }
                }
            }
            i = i + 1;
        }
        proof {
            assert(r@ =~= self@) by {
                assert forall|k: Seq<char>| self@.contains(k) implies r@.contains(k) by {
                    let j = choose|j: int| 0 <= j < self.items@.len() && #[trigger] self.items@[j]@ == k;
                }
            }
        }
        r
    }
}

} // verus!
