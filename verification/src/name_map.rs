//! A finite map keyed by names, kept in a vector in which no name occurs
//! twice.
use vstd::prelude::*;
use vstd::string::*;

verus! {

/// A map from names to values of type `V`. Two names are the same key when
/// they hold the same characters.
pub struct NameMap<V> {
    entries: Vec<(String, V)>,
}

impl<V> View for NameMap<V> {
    type V = Map<Seq<char>, V>;

    closed spec fn view(&self) -> Map<Seq<char>, V> {
        Map::new(
            |name: Seq<char>| self.position(name) is Some,
            |name: Seq<char>| self.entries[self.position(name)->0].1,
        )
    }
}

/// `keys` without `name`, which it holds once at most.
pub open spec fn without(keys: Seq<Seq<char>>, name: Seq<char>) -> Seq<Seq<char>> {
    if keys.contains(name) {
        keys.remove(keys.index_of(name))
    } else {
        keys
    }
}

impl<V> NameMap<V> {
    /// No name occurs twice. Every map that this module hands out is well
    /// formed.
    pub closed spec fn wf(&self) -> bool {
        forall|i: int, j: int|
            0 <= i < j < self.entries.len() ==> (#[trigger] self.entries[i]).0@ != (
            #[trigger] self.entries[j]).0@
    }

    spec fn holds_at(&self, name: Seq<char>, i: int) -> bool {
        0 <= i < self.entries.len() && self.entries[i].0@ == name
    }

    spec fn position(&self, name: Seq<char>) -> Option<int> {
        if exists|i: int| self.holds_at(name, i) {
            Some(choose|i: int| self.holds_at(name, i))
        } else {
            None
        }
    }

    /// The keys in the order in which the map walks them.
    pub closed spec fn keys(&self) -> Seq<Seq<char>> {
        Seq::new(self.entries.len() as nat, |i: int| self.entries[i].0@)
    }

    /// The keys are distinct, and they are the domain of the map.
    pub open spec fn keys_agree(&self) -> bool {
        &&& self.keys().no_duplicates()
        &&& forall|name: Seq<char>| self.keys().contains(name) <==> self@.contains_key(name)
    }

    proof fn lemma_position(&self, name: Seq<char>, i: int)
        requires
            self.wf(),
            self.holds_at(name, i),
        ensures
            self.position(name) == Some(i),
    {
        let j = choose|j: int| self.holds_at(name, j);
        assert(self.holds_at(name, j));
        if i < j {
            assert(self.entries[i].0@ != self.entries[j].0@);
        } else if j < i {
            assert(self.entries[j].0@ != self.entries[i].0@);
        }
    }

    /// In a well-formed map the walk visits each key once.
    pub proof fn lemma_keys_agree(&self)
        requires
            self.wf(),
        ensures
            self.keys_agree(),
    {
        let keys = self.keys();
        assert forall|i: int, j: int| 0 <= i < keys.len() && 0 <= j < keys.len() && i != j implies keys[i]
            != keys[j] by {
            if i < j {
                assert(self.entries[i].0@ != self.entries[j].0@);
            } else {
                assert(self.entries[j].0@ != self.entries[i].0@);
            }
        }
        assert forall|name: Seq<char>| keys.contains(name) <==> self@.contains_key(name) by {
            if keys.contains(name) {
                let i = choose|i: int| 0 <= i < keys.len() && keys[i] == name;
                assert(self.holds_at(name, i));
            }
            if self@.contains_key(name) {
                let i = choose|i: int| self.holds_at(name, i);
                assert(self.holds_at(name, i));
                assert(keys[i] == name);
            }
        }
    }

    /// The empty map.
    pub fn new() -> (res: Self)
        ensures
            res.wf(),
            res@ == Map::<Seq<char>, V>::empty(),
            res.keys() == Seq::<Seq<char>>::empty(),
    {
        let res = NameMap { entries: Vec::new() };
        assert(res@ =~= Map::<Seq<char>, V>::empty());
        assert(res.keys() =~= Seq::<Seq<char>>::empty());
        res
    }

    fn find(&self, name: &str) -> (res: Option<usize>)
        requires
            self.wf(),
        ensures
            match res {
                Some(i) => self.holds_at(name@, i as int) && self.position(name@) == Some(i as int),
                None => self.position(name@) is None,
            },
    {
        let key = String::from_str(name);
        let mut i: usize = 0;
        while i < self.entries.len()
            invariant
                self.wf(),
                i <= self.entries.len(),
                key@ == name@,
                forall|j: int| 0 <= j < i ==> !self.holds_at(name@, j),
            decreases self.entries.len() - i,
        {
            if self.entries[i].0 == key {
                proof {
                    self.lemma_position(name@, i as int);
                }
                return Some(i);
            }
            i += 1;
        }
        None
    }

    /// How many names the map holds.
    pub fn size(&self) -> (res: usize)
        requires
            self.wf(),
        ensures
            res == self.keys().len(),
            self.keys_agree(),
    {
        proof {
            self.lemma_keys_agree();
        }
        self.entries.len()
    }

    /// The name at place `i` of the walk.
    pub fn key_at(&self, i: usize) -> (res: &String)
        requires
            self.wf(),
            i < self.keys().len(),
        ensures
            res@ == self.keys()[i as int],
            self@.contains_key(res@),
    {
        proof {
            self.lemma_position(self.entries[i as int].0@, i as int);
        }
        &self.entries[i].0
    }

    /// The value at place `i` of the walk.
    pub fn value_at(&self, i: usize) -> (res: &V)
        requires
            self.wf(),
            i < self.keys().len(),
        ensures
            self@.contains_key(self.keys()[i as int]),
            *res == self@[self.keys()[i as int]],
    {
        proof {
            self.lemma_position(self.entries[i as int].0@, i as int);
        }
        &self.entries[i].1
    }

    /// Whether the map holds `name`.
    pub fn contains(&self, name: &str) -> (res: bool)
        requires
            self.wf(),
        ensures
            res == self@.contains_key(name@),
    {
        self.find(name).is_some()
    }

    /// The value of `name`, if the map holds it.
    pub fn get(&self, name: &str) -> (res: Option<&V>)
        requires
            self.wf(),
        ensures
            match res {
                Some(value) => self@.contains_key(name@) && *value == self@[name@],
                None => !self@.contains_key(name@),
            },
    {
        match self.find(name) {
            Some(i) => Some(&self.entries[i].1),
            None => None,
        }
    }

    /// Binds `name` to `value`, in place of what it was bound to.
    pub fn insert(&mut self, name: String, value: V)
        requires
            old(self).wf(),
        ensures
            final(self).wf(),
            final(self)@ == old(self)@.insert(name@, value),
            final(self).keys() == if old(self)@.contains_key(name@) {
                old(self).keys()
            } else {
                old(self).keys().push(name@)
            },
    {
        let ghost before = *self;
        match self.find(name.as_str()) {
            Some(i) => {
                self.entries.set(i, (name, value));
                proof {
                    assert forall|key: Seq<char>, j: int| self.holds_at(key, j) <==> before.holds_at(
                        key,
                        j,
                    ) by {}
                    assert forall|key: Seq<char>| self.position(key) == before.position(key) by {
                        if before.position(key) is Some {
                            let j = before.position(key)->0;
                            assert(before.holds_at(key, j));
                            assert(self.holds_at(key, j));
                            self.lemma_position(key, j);
                        } else {
                            if exists|j: int| self.holds_at(key, j) {
                                let j = choose|j: int| self.holds_at(key, j);
                                assert(before.holds_at(key, j));
                            }
                        }
                    }
                    assert(self@ =~= before@.insert(name@, value));
                    assert(self.keys() =~= before.keys());
                }
            },
            None => {
                self.entries.push((name, value));
                proof {
                    let last = before.entries.len() as int;
                    assert forall|i: int, j: int| 0 <= i < j < self.entries.len() implies (
                    #[trigger] self.entries[i]).0@ != (#[trigger] self.entries[j]).0@ by {
                        if j == last {
                            assert(!before.holds_at(name@, i));
                        } else {
                            assert(before.entries[i].0@ != before.entries[j].0@);
                        }
                    }
                    assert(self.holds_at(name@, last));
                    self.lemma_position(name@, last);
                    assert forall|key: Seq<char>| key != name@ implies self.position(key)
                        == before.position(key) by {
                        if before.position(key) is Some {
                            let j = before.position(key)->0;
                            assert(before.holds_at(key, j));
                            assert(self.holds_at(key, j));
                            self.lemma_position(key, j);
                        } else {
                            if exists|j: int| self.holds_at(key, j) {
                                let j = choose|j: int| self.holds_at(key, j);
                                assert(before.holds_at(key, j));
                            }
                        }
                    }
                    assert(self@ =~= before@.insert(name@, value));
                    assert(self.keys() =~= before.keys().push(name@));
                }
            },
        }
    }

    /// Takes `name` out of the map and returns what it was bound to.
    pub fn remove(&mut self, name: &str) -> (res: Option<V>)
        requires
            old(self).wf(),
        ensures
            final(self).wf(),
            final(self)@ == old(self)@.remove(name@),
            final(self).keys() == without(old(self).keys(), name@),
            res == if old(self)@.contains_key(name@) {
                Some(old(self)@[name@])
            } else {
                None::<V>
            },
    {
        let ghost before = *self;
        proof {
            before.lemma_keys_agree();
        }
        match self.find(name) {
            Some(i) => {
                let entry = self.entries.remove(i);
                proof {
                    let at = i as int;
                    assert forall|a: int, b: int| 0 <= a < b < self.entries.len() implies (
                    #[trigger] self.entries[a]).0@ != (#[trigger] self.entries[b]).0@ by {
                        let a0 = if a < at { a } else { a + 1 };
                        let b0 = if b < at { b } else { b + 1 };
                        assert(before.entries[a0].0@ != before.entries[b0].0@);
                    }
                    assert forall|key: Seq<char>| key != name@ implies (self.position(key) is Some
                        <==> before.position(key) is Some) && (self.position(key) is Some
                        ==> self.entries[self.position(key)->0].1
                        == before.entries[before.position(key)->0].1) by {
                        if before.position(key) is Some {
                            let j = before.position(key)->0;
                            assert(before.holds_at(key, j));
                            let j1 = if j < at { j } else { j - 1 };
                            assert(self.holds_at(key, j1));
                            self.lemma_position(key, j1);
                        } else {
                            if exists|j: int| self.holds_at(key, j) {
                                let j = choose|j: int| self.holds_at(key, j);
                                let j0 = if j < at { j } else { j + 1 };
                                assert(before.holds_at(key, j0));
                            }
                        }
                    }
                    if exists|j: int| self.holds_at(name@, j) {
                        let j = choose|j: int| self.holds_at(name@, j);
                        let j0 = if j < at { j } else { j + 1 };
                        assert(before.holds_at(name@, j0));
                        assert(before.entries[j0].0@ == before.entries[at].0@);
                        if j0 < at {
                            assert(before.entries[j0].0@ != before.entries[at].0@);
                        } else {
                            assert(before.entries[at].0@ != before.entries[j0].0@);
                        }
                    }
                    assert(self@ =~= before@.remove(name@));
                    let keys = before.keys();
                    assert(keys[at] == name@);
                    let found = keys.index_of(name@);
                    assert(0 <= found < keys.len() && keys[found] == name@);
                    assert(found == at);
                    assert(self.keys() =~= keys.remove(at));
                }
                Some(entry.1)
            },
            None => {
                assert(self@ =~= before@.remove(name@));
                assert(!before@.contains_key(name@));
                None
            },
        }
    }

    /// Takes every name out of the map.
    pub fn clear(&mut self)
        ensures
            final(self).wf(),
            final(self)@ == Map::<Seq<char>, V>::empty(),
            final(self).keys() == Seq::<Seq<char>>::empty(),
    {
        self.entries.clear();
        assert(self@ =~= Map::<Seq<char>, V>::empty());
        assert(self.keys() =~= Seq::<Seq<char>>::empty());
    }
}

} // verus!
