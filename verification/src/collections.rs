//! A small map that keeps its entries in the order in which their keys were
//! first inserted. Keys are compared by what they stand for, so a `String`
//! key is found again by any string with the same characters.

use crate::identifiers::Account;
use vstd::prelude::*;

verus! {

/// A type whose values can key a `VecMap`.
pub trait Key: Sized {
    /// What a key stands for.
    type Id;

    /// What this key stands for.
    spec fn id(&self) -> Self::Id;

    /// Whether two keys stand for the same thing.
    fn same_key(&self, other: &Self) -> (r: bool)
        ensures
            r == (self.id() == other.id()),
    ;

    /// Another key that stands for the same thing.
    fn duplicate(&self) -> (r: Self)
        ensures
            r.id() == self.id(),
    ;
}

impl Key for String {
    type Id = Seq<char>;

    open spec fn id(&self) -> Seq<char> {
        self@
    }

    fn same_key(&self, other: &String) -> (r: bool) {
        *self == *other
    }

    fn duplicate(&self) -> (r: String) {
        self.clone()
    }
}

impl Key for Account {
    type Id = Account;

    open spec fn id(&self) -> Account {
        *self
    }

    fn same_key(&self, other: &Account) -> (r: bool) {
        *self == *other
    }

    fn duplicate(&self) -> (r: Account) {
        *self
    }
}

/// The holder of an allowance and the account allowed to spend it.
#[derive(Clone, Copy, Debug, PartialEq, Eq, Hash, Structural)]
pub struct AllowanceKey {
    pub owner: Account,
    pub spender: Account,
}

impl Key for AllowanceKey {
    type Id = AllowanceKey;

    open spec fn id(&self) -> AllowanceKey {
        *self
    }

    fn same_key(&self, other: &AllowanceKey) -> (r: bool) {
        *self == *other
    }

    fn duplicate(&self) -> (r: AllowanceKey) {
        *self
    }
}

/// In a sequence without duplicates, an element is found at its own place.
pub proof fn lemma_index_of_unique<A>(s: Seq<A>, i: int)
    requires
        s.no_duplicates(),
        0 <= i < s.len(),
    ensures
        s.contains(s[i]),
        s.index_of(s[i]) == i,
{
    let j = s.index_of(s[i]);
    assert(0 <= j < s.len() && s[j] == s[i]);
}

/// A map from keys to values that remembers the order of first insertion.
pub struct VecMap<K, V> {
    keys: Vec<K>,
    values: Vec<V>,
}

impl<K: Key, V> VecMap<K, V> {
    /// What the keys stand for, in the order of first insertion.
    pub closed spec fn ids(&self) -> Seq<K::Id> {
        Seq::new(self.keys@.len(), |i: int| self.keys@[i].id())
    }

    /// The values, each at the place of its key.
    pub closed spec fn vals(&self) -> Seq<V> {
        self.values@
    }

    /// The map is well formed: one value for each key, and no key twice.
    pub open spec fn wf(&self) -> bool {
        &&& self.ids().len() == self.vals().len()
        &&& self.ids().no_duplicates()
    }

    /// The map as a mathematical map.
    pub open spec fn view(&self) -> Map<K::Id, V> {
        Map::new(
            |id: K::Id| self.ids().contains(id),
            |id: K::Id| self.vals()[self.ids().index_of(id)],
        )
    }

    /// The entry at place `i` is in the map, under its key.
    pub proof fn lemma_entry(&self, i: int)
        requires
            self.wf(),
            0 <= i < self.ids().len(),
        ensures
            self@.contains_key(self.ids()[i]),
            self@[self.ids()[i]] == self.vals()[i],
    {
        lemma_index_of_unique(self.ids(), i);
    }

    /// Every key of the map has a place.
    pub proof fn lemma_key_has_place(&self, id: K::Id)
        requires
            self.wf(),
            self@.contains_key(id),
        ensures
            0 <= self.ids().index_of(id) < self.ids().len(),
            self.ids()[self.ids().index_of(id)] == id,
            self@[id] == self.vals()[self.ids().index_of(id)],
    {
    }

    /// The empty map.
    pub fn new() -> (m: Self)
        ensures
            m.wf(),
            m.ids() == Seq::<K::Id>::empty(),
            m.vals() == Seq::<V>::empty(),
            m@ == Map::<K::Id, V>::empty(),
    {
        let m = VecMap { keys: Vec::new(), values: Vec::new() };
        assert(m.ids() =~= Seq::<K::Id>::empty());
        assert(m@ =~= Map::<K::Id, V>::empty());
        m
    }

    /// The number of entries.
    pub fn len(&self) -> (n: usize)
        requires
            self.wf(),
        ensures
            n == self.ids().len(),
    {
        self.keys.len()
    }

    /// The place of `key`, if the map holds it.
    pub fn position(&self, key: &K) -> (r: Option<usize>)
        requires
            self.wf(),
        ensures
            match r {
                Some(i) => i < self.ids().len() && self.ids()[i as int] == key.id()
                    && self@.contains_key(key.id()) && self@[key.id()] == self.vals()[i as int],
                None => !self@.contains_key(key.id()),
            },
    {
        let mut i: usize = 0;
        while i < self.keys.len()
            invariant
                self.wf(),
                i <= self.keys@.len(),
                self.keys@.len() == self.ids().len(),
                forall|j: int| 0 <= j < i ==> self.ids()[j] != key.id(),
            decreases self.keys@.len() - i,
        {
            if self.keys[i].same_key(key) {
                proof {
                    self.lemma_entry(i as int);
                }
                return Some(i);
            }
            i += 1;
        }
        None
    }

    /// Whether the map holds `key`.
    pub fn contains_key(&self, key: &K) -> (r: bool)
        requires
            self.wf(),
        ensures
            r == self@.contains_key(key.id()),
    {
        self.position(key).is_some()
    }

    /// The value under `key`, if the map holds it.
    pub fn get(&self, key: &K) -> (r: Option<&V>)
        requires
            self.wf(),
        ensures
            match r {
                Some(v) => self@.contains_key(key.id()) && *v == self@[key.id()],
                None => !self@.contains_key(key.id()),
            },
    {
        match self.position(key) {
            Some(i) => Some(&self.values[i]),
            None => None,
        }
    }

    /// The key at place `i`.
    pub fn key_at(&self, i: usize) -> (k: &K)
        requires
            self.wf(),
            i < self.ids().len(),
        ensures
            k.id() == self.ids()[i as int],
    {
        &self.keys[i]
    }

    /// The value at place `i`.
    pub fn value_at(&self, i: usize) -> (v: &V)
        requires
            self.wf(),
            i < self.ids().len(),
        ensures
            *v == self.vals()[i as int],
            self@.contains_key(self.ids()[i as int]),
            *v == self@[self.ids()[i as int]],
    {
        proof {
            self.lemma_entry(i as int);
        }
        &self.values[i]
    }

    /// Puts `value` under `key`. A key that the map already holds keeps its
    /// place; a new key goes last.
    pub fn insert(&mut self, key: K, value: V)
        requires
            old(self).wf(),
        ensures
            final(self).wf(),
            final(self)@ == old(self)@.insert(key.id(), value),
            old(self)@.contains_key(key.id()) ==> final(self).ids() == old(self).ids()
                && final(self).vals() == old(self).vals().update(
                old(self).ids().index_of(key.id()),
                value,
            ),
            !old(self)@.contains_key(key.id()) ==> final(self).ids() == old(self).ids().push(
                key.id(),
            ) && final(self).vals() == old(self).vals().push(value),
    {
        let ghost before = *self;
        let ghost id = key.id();
        match self.position(&key) {
            Some(i) => {
                self.values.set(i, value);
                proof {
                    lemma_index_of_unique(before.ids(), i as int);
                    assert(self.ids() =~= before.ids());
                    assert forall|other: K::Id| #[trigger] self.ids().contains(other) implies self@[other]
                        == before@.insert(id, value)[other] by {
                        let j = self.ids().index_of(other);
                        lemma_index_of_unique(self.ids(), j);
                    }
                    assert(self@ =~= before@.insert(id, value));
                }
            },
            None => {
                self.keys.push(key);
                self.values.push(value);
                proof {
                    assert(self.ids() =~= before.ids().push(id));
                    assert forall|other: K::Id| #[trigger]
                        before@.insert(id, value).contains_key(other) implies self@.contains_key(
                        other,
                    ) && self@[other] == before@.insert(id, value)[other] by {
                        if other == id {
                            assert(self.ids()[before.ids().len() as int] == id);
                            lemma_index_of_unique(self.ids(), before.ids().len() as int);
                        } else {
                            let j = before.ids().index_of(other);
                            assert(self.ids()[j] == other);
                            lemma_index_of_unique(self.ids(), j);
                        }
                    }
                    assert forall|other: K::Id| #[trigger] self@.contains_key(other) implies before@.insert(
                        id,
                        value,
                    ).contains_key(other) by {
                        let j = self.ids().index_of(other);
                        if j < before.ids().len() {
                            assert(before.ids()[j] == other);
                        }
                    }
                    assert(self@ =~= before@.insert(id, value));
                }
            },
        }
    }

    /// Takes the entry of `key` out; the other entries keep their order.
    pub fn remove(&mut self, key: &K) -> (r: Option<V>)
        requires
            old(self).wf(),
        ensures
            final(self).wf(),
            final(self)@ == old(self)@.remove(key.id()),
            match r {
                Some(v) => old(self)@.contains_key(key.id()) && v == old(self)@[key.id()]
                    && final(self).ids() == old(self).ids().remove(
                    old(self).ids().index_of(key.id()),
                ) && final(self).vals() == old(self).vals().remove(
                    old(self).ids().index_of(key.id()),
                ),
                None => !old(self)@.contains_key(key.id()) && final(self).ids() == old(self).ids()
                    && final(self).vals() == old(self).vals(),
            },
    {
        let ghost before = *self;
        let ghost id = key.id();
        match self.position(key) {
            Some(i) => {
                self.keys.remove(i);
                let value = self.values.remove(i);
                proof {
                    lemma_index_of_unique(before.ids(), i as int);
                    assert(self.ids() =~= before.ids().remove(i as int));
                    assert(self.vals() =~= before.vals().remove(i as int));
                    assert forall|a: int, b: int|
                        0 <= a < self.ids().len() && 0 <= b < self.ids().len() && a != b implies self.ids()[a]
                        != self.ids()[b] by {
                        let a0 = if a < i { a } else { a + 1 };
                        let b0 = if b < i { b } else { b + 1 };
                        assert(self.ids()[a] == before.ids()[a0]);
                        assert(self.ids()[b] == before.ids()[b0]);
                    }
                    assert forall|other: K::Id| #[trigger]
                        before@.remove(id).contains_key(other) implies self@.contains_key(other)
                        && self@[other] == before@.remove(id)[other] by {
                        let j = before.ids().index_of(other);
                        let j1 = if j < i { j } else { j - 1 };
                        assert(j != i);
                        assert(self.ids()[j1] == other);
                        lemma_index_of_unique(self.ids(), j1);
                    }
                    assert forall|other: K::Id| #[trigger] self@.contains_key(other) implies before@.remove(
                        id,
                    ).contains_key(other) by {
                        let j = self.ids().index_of(other);
                        let j0 = if j < i { j } else { j + 1 };
                        assert(before.ids()[j0] == other);
                        assert(j0 != i);
                    }
                    assert(self@ =~= before@.remove(id));
                }
                Some(value)
            },
            None => {
                proof {
                    assert(self@ =~= before@.remove(id));
                }
                None
            },
        }
    }

    /// The map with these keys and, at the place of each, these values;
    /// none where the numbers of keys and values differ or a key occurs
    /// twice.
    pub fn from_parts(keys: Vec<K>, values: Vec<V>) -> (r: Option<Self>)
        ensures
            r is Some <==> keys@.len() == values@.len() && Seq::new(
                keys@.len(),
                |i: int| keys@[i].id(),
            ).no_duplicates(),
            r matches Some(m) ==> m.wf() && m.ids() == Seq::new(
                keys@.len(),
                |i: int| keys@[i].id(),
            ) && m.vals() == values@,
    {
        let m = VecMap { keys, values };
        proof {
            assert(m.ids() =~= Seq::new(keys@.len(), |i: int| keys@[i].id()));
        }
        if m.check() {
            Some(m)
        } else {
            None
        }
    }

    /// Whether the map is well formed.
    pub fn check(&self) -> (r: bool)
        ensures
            r == self.wf(),
    {
        if self.keys.len() != self.values.len() {
            return false;
        }
        let mut i: usize = 0;
        while i < self.keys.len()
            invariant
                i <= self.keys@.len(),
                self.ids().len() == self.keys@.len(),
                forall|k: int| 0 <= k < self.keys@.len() ==> self.ids()[k] == self.keys@[k].id(),
                forall|a: int, b: int| 0 <= a < b < i ==> self.ids()[a] != self.ids()[b],
            decreases self.keys@.len() - i,
        {
            let mut j: usize = 0;
            while j < i
                invariant
                    j <= i < self.keys@.len(),
                    self.ids().len() == self.keys@.len(),
                    forall|k: int|
                        0 <= k < self.keys@.len() ==> self.ids()[k] == self.keys@[k].id(),
                    forall|a: int| 0 <= a < j ==> self.ids()[a] != self.ids()[i as int],
                decreases i - j,
            {
                if self.keys[j].same_key(&self.keys[i]) {
                    proof {
                        assert(self.ids()[j as int] == self.ids()[i as int]);
                    }
                    return false;
                }
                j += 1;
            }
            i += 1;
        }
        true
    }

    /// The keys and the values of the map, each value at the place of its
    /// key.
    pub fn into_parts(self) -> (r: (Vec<K>, Vec<V>))
        requires
            self.wf(),
        ensures
            r.0@.len() == r.1@.len(),
            self.ids() == Seq::new(r.0@.len(), |i: int| r.0@[i].id()),
            self.vals() == r.1@,
    {
        proof {
            assert(self.ids() =~= Seq::new(self.keys@.len(), |i: int| self.keys@[i].id()));
        }
        (self.keys, self.values)
    }
}

} // verus!
