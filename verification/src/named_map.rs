//! A map from names to values, kept as a list in insertion order.

use vstd::prelude::*;
use vstd::string::*;

verus! {

pub struct NamedMap<V> {
    entries: Vec<(String, V)>,
}

/// No name occurs twice.
spec fn distinct<V>(entries: Seq<(String, V)>) -> bool {
    forall|i: int, j: int|
        0 <= i < j < entries.len() ==> #[trigger] entries[i].0@ != #[trigger] entries[j].0@
}

spec fn holds_at<V>(entries: Seq<(String, V)>, name: Seq<char>, i: int) -> bool {
    0 <= i < entries.len() && entries[i].0@ == name
}

spec fn content<V>(entries: Seq<(String, V)>) -> Map<Seq<char>, V> {
    Map::new(
        |name: Seq<char>| exists|i: int| holds_at(entries, name, i),
        |name: Seq<char>| entries[choose|i: int| holds_at(entries, name, i)].1,
    )
}

/// Whether every name in use is among these.
pub open spec fn names_all<V>(names: Seq<String>, map: Map<Seq<char>, V>) -> bool {
    forall|name: Seq<char>| #[trigger]
        map.contains_key(name) ==> exists|k: int|
            0 <= k < names.len() && #[trigger] names[k]@ == name
}

impl<V> View for NamedMap<V> {
    type V = Map<Seq<char>, V>;

    closed spec fn view(&self) -> Map<Seq<char>, V> {
        content(self.entries@)
    }
}

proof fn lemma_at<V>(entries: Seq<(String, V)>, i: int)
    requires
        distinct(entries),
        0 <= i < entries.len(),
    ensures
        content(entries).contains_key(entries[i].0@),
        content(entries)[entries[i].0@] == entries[i].1,
{
    let name = entries[i].0@;
    assert(holds_at(entries, name, i));
    let j = choose|j: int| holds_at(entries, name, j);
    assert(holds_at(entries, name, j));
    assert(i == j);
}

proof fn lemma_same_map<V>(a: Map<Seq<char>, V>, b: Map<Seq<char>, V>)
    requires
        forall|k: Seq<char>| #[trigger] a.dom().contains(k) ==> b.dom().contains(k) && a[k] == b[k],
        forall|k: Seq<char>| #[trigger] b.dom().contains(k) ==> a.dom().contains(k),
    ensures
        a == b,
{
    assert(a =~= b);
}

impl<V> NamedMap<V> {
    #[verifier::type_invariant]
    spec fn names_are_distinct(self) -> bool {
        distinct(self.entries@)
    }

    pub fn new() -> (map: Self)
        ensures
            map@ == Map::<Seq<char>, V>::empty(),
    {
        let map = NamedMap { entries: Vec::new() };
        assert(content(map.entries@) =~= Map::<Seq<char>, V>::empty());
        map
    }

    fn find(&self, name: &str) -> (r: Option<usize>)
        ensures
            match r {
                Some(i) => holds_at(self.entries@, name@, i as int),
                None => !self@.contains_key(name@),
            },
    {
        let key = name.to_string();
        let mut i: usize = 0;
        while i < self.entries.len()
            invariant
                i <= self.entries@.len(),
                key@ == name@,
                forall|j: int| 0 <= j < i ==> !holds_at(self.entries@, name@, j),
            decreases self.entries@.len() - i,
        {
            if self.entries[i].0 == key {
                return Some(i);
            }
            i += 1;
        }
        None
    }

    pub fn get(&self, name: &str) -> (r: Option<&V>)
        ensures
            match r {
                Some(v) => self@.contains_key(name@) && *v == self@[name@],
                None => !self@.contains_key(name@),
            },
    {
        proof {
            use_type_invariant(self);
        }
        match self.find(name) {
            Some(i) => {
                proof {
                    lemma_at(self.entries@, i as int);
                }
                Some(&self.entries[i].1)
            },
            None => None,
        }
    }

    /// Sets the value for `name`, replacing one that is there.
    pub fn insert(&mut self, name: &str, value: V)
        ensures
            final(self)@ == old(self)@.insert(name@, value),
    {
        self.remove(name);
        let ghost before = self.entries@;
        proof {
            use_type_invariant(&*self);
        }
        let mut entries: Vec<(String, V)> = Vec::new();
        std::mem::swap(&mut entries, &mut self.entries);
        entries.push((name.to_string(), value));
        proof {
            let after = entries@;
            assert(after.last().0@ == name@);
            assert forall|i: int, j: int| 0 <= i < j < after.len() implies #[trigger] after[i].0@
                != #[trigger] after[j].0@ by {
                if j == before.len() {
                    assert(holds_at(before, before[i].0@, i));
                    lemma_at(before, i);
                } else {
                    assert(after[i] == before[i] && after[j] == before[j]);
                }
            }
            assert(content(after) =~= content(before).insert(name@, value)) by {
                assert forall|k: Seq<char>| #[trigger] content(after).dom().contains(k) implies content(
                    before,
                ).insert(name@, value).dom().contains(k) && content(after)[k] == content(
                    before,
                ).insert(name@, value)[k] by {
                    let i = choose|i: int| holds_at(after, k, i);
                    assert(holds_at(after, k, i));
                    lemma_at(after, i);
                    if i < before.len() {
                        assert(after[i] == before[i]);
                        lemma_at(before, i);
                    }
                }
                assert forall|k: Seq<char>| #[trigger]
                    content(before).insert(name@, value).dom().contains(k) implies content(
                    after,
                ).dom().contains(k) by {
                    if k == name@ {
                        assert(holds_at(after, k, before.len() as int));
                    } else {
                        let i = choose|i: int| holds_at(before, k, i);
                        assert(holds_at(before, k, i));
                        assert(holds_at(after, k, i));
                    }
                }
                lemma_same_map(content(after), content(before).insert(name@, value));
            }
        }
        self.entries = entries;
    }

    /// Takes out the value for `name`.
    pub fn remove(&mut self, name: &str) -> (r: Option<V>)
        ensures
            final(self)@ == old(self)@.remove(name@),
            match r {
                Some(v) => old(self)@.contains_key(name@) && v == old(self)@[name@],
                None => !old(self)@.contains_key(name@),
            },
    {
        proof {
            use_type_invariant(&*self);
        }
        let ghost before = self.entries@;
        match self.find(name) {
            None => {
                assert(content(before).remove(name@) =~= content(before));
                None
            },
            Some(at) => {
                let mut entries: Vec<(String, V)> = Vec::new();
                std::mem::swap(&mut entries, &mut self.entries);
                let (_key, value) = entries.remove(at);
                proof {
                    let after = entries@;
                    lemma_at(before, at as int);
                    assert forall|i: int, j: int| 0 <= i < j < after.len() implies #[trigger] after[i].0@
                        != #[trigger] after[j].0@ by {
                        let i2 = if i < at { i } else { i + 1 };
                        let j2 = if j < at { j } else { j + 1 };
                        assert(after[i] == before[i2] && after[j] == before[j2]);
                    }
                    assert(content(after) =~= content(before).remove(name@)) by {
                        assert forall|k: Seq<char>| #[trigger] content(after).dom().contains(k) implies content(
                            before,
                        ).remove(name@).dom().contains(k) && content(after)[k] == content(
                            before,
                        ).remove(name@)[k] by {
                            let i = choose|i: int| holds_at(after, k, i);
                            assert(holds_at(after, k, i));
                            lemma_at(after, i);
                            let i2 = if i < at { i } else { i + 1 };
                            assert(after[i] == before[i2]);
                            lemma_at(before, i2);
                        }
                        assert forall|k: Seq<char>| #[trigger]
                            content(before).remove(name@).dom().contains(k) implies content(
                            after,
                        ).dom().contains(k) by {
                            let i = choose|i: int| holds_at(before, k, i);
                            assert(holds_at(before, k, i));
                            let i2 = if i < at { i } else { i - 1 };
                            assert(after[i2] == before[i]);
                            assert(holds_at(after, k, i2));
                        }
                        lemma_same_map(content(after), content(before).remove(name@));
                    }
                }
                self.entries = entries;
                Some(value)
            },
        }
    }

    /// The names that are in use, each once.
    pub fn names(&self) -> (r: Vec<String>)
        ensures
            forall|k: int| 0 <= k < r@.len() ==> self@.contains_key(#[trigger] r@[k]@),
            names_all(r@, self@),
            forall|i: int, j: int|
                0 <= i < j < r@.len() ==> #[trigger] r@[i]@ != #[trigger] r@[j]@,
    {
        proof {
            use_type_invariant(self);
        }
        let mut out: Vec<String> = Vec::new();
        let mut i: usize = 0;
        while i < self.entries.len()
            invariant
                i <= self.entries@.len(),
                out@.len() == i,
                forall|j: int| 0 <= j < i ==> #[trigger] out@[j]@ == self.entries@[j].0@,
            decreases self.entries@.len() - i,
        {
            out.push(self.entries[i].0.clone());
            i += 1;
        }
        proof {
            assert forall|k: int| 0 <= k < out@.len() implies self@.contains_key(
                #[trigger] out@[k]@,
            ) by {
                lemma_at(self.entries@, k);
            }
            assert forall|name: Seq<char>| #[trigger] self@.contains_key(name) implies exists|
                k: int,
            | 0 <= k < out@.len() && #[trigger] out@[k]@ == name by {
                let k = choose|k: int| holds_at(self.entries@, name, k);
                assert(holds_at(self.entries@, name, k));
                assert(out@[k]@ == name);
            }
            assert forall|i: int, j: int| 0 <= i < j < out@.len() implies #[trigger] out@[i]@
                != #[trigger] out@[j]@ by {
                assert(self.entries@[i].0@ != self.entries@[j].0@);
            }
        }
        out
    }
}

// ---------------------------------------------------------------------------
// laws
// ---------------------------------------------------------------------------

/// What was put under a name is found there, and what is under other names
/// stays.
pub proof fn law_what_is_put_is_found<V>(
    map: &mut NamedMap<V>,
    name: &str,
    value: V,
    other: &str,
    found: Option<&V>,
    before: Option<&V>,
    after: Option<&V>,
)
    requires
        call_ensures(NamedMap::<V>::insert, (map, name, value), ()),
        call_ensures(NamedMap::<V>::get, (&*final(map), name), found),
        call_ensures(NamedMap::<V>::get, (&*old(map), other), before),
        call_ensures(NamedMap::<V>::get, (&*final(map), other), after),
        other@ != name@,
    ensures
        found == Some(&value),
        after == before,
{
}

/// What is taken out was there and is there no more, and what is under other
/// names stays.
pub proof fn law_what_is_taken_is_gone<V>(
    map: &mut NamedMap<V>,
    name: &str,
    taken: Option<V>,
    other: &str,
    was: Option<&V>,
    now: Option<&V>,
    before: Option<&V>,
    after: Option<&V>,
)
    requires
        call_ensures(NamedMap::<V>::remove, (map, name), taken),
        call_ensures(NamedMap::<V>::get, (&*old(map), name), was),
        call_ensures(NamedMap::<V>::get, (&*final(map), name), now),
        call_ensures(NamedMap::<V>::get, (&*old(map), other), before),
        call_ensures(NamedMap::<V>::get, (&*final(map), other), after),
        other@ != name@,
    ensures
        taken is Some <==> was is Some,
        taken matches Some(v) ==> *was->0 == v,
        now is None,
        after == before,
{
}

} // verus!
