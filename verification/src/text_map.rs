//! A map from texts to values, in the order in which the keys first came.
use vstd::prelude::*;
use crate::text::{same_text, texts};

verus! {

/// A map from texts to values.
pub struct TextMap<V> {
    entries: Vec<(String, V)>,
}

spec fn holds<V>(entries: Seq<(String, V)>, key: Seq<char>, i: int) -> bool {
    0 <= i < entries.len() && entries[i].0@ == key
}

spec fn spot<V>(entries: Seq<(String, V)>, key: Seq<char>) -> int {
    choose|i: int| holds(entries, key, i)
}

spec fn contents<V>(entries: Seq<(String, V)>) -> Map<Seq<char>, V> {
    Map::new(
        |key: Seq<char>| exists|i: int| holds(entries, key, i),
        |key: Seq<char>| entries[spot(entries, key)].1,
    )
}

spec fn distinct_keys<V>(entries: Seq<(String, V)>) -> bool {
    forall|i: int, j: int| 0 <= i < j < entries.len() ==> (#[trigger] entries[i]).0@ != (
    #[trigger] entries[j]).0@
}

proof fn lemma_contents<V>(entries: Seq<(String, V)>, i: int)
    requires
        distinct_keys(entries),
        0 <= i < entries.len(),
    ensures
        contents(entries).dom().contains(entries[i].0@),
        contents(entries)[entries[i].0@] == entries[i].1,
{
    let key = entries[i].0@;
    assert(holds(entries, key, i));
    let j = spot(entries, key);
    assert(holds(entries, key, j));
    if i < j {
        assert(entries[i].0@ != entries[j].0@);
    } else if j < i {
        assert(entries[j].0@ != entries[i].0@);
    }
}

proof fn lemma_no_contents<V>(entries: Seq<(String, V)>, key: Seq<char>)
    requires
        forall|i: int| 0 <= i < entries.len() ==> (#[trigger] entries[i]).0@ != key,
    ensures
        !contents(entries).dom().contains(key),
{
    assert(forall|i: int| !holds(entries, key, i));
}

impl<V> TextMap<V> {
    #[verifier::type_invariant]
    spec fn inv(&self) -> bool {
        distinct_keys(self.entries@)
    }

    /// The map that this holds.
    pub closed spec fn view(&self) -> Map<Seq<char>, V> {
        contents(self.entries@)
    }

    /// A map without entries.
    pub fn new() -> (r: Self)
        ensures
            r@ == Map::<Seq<char>, V>::empty(),
    {
        let r = TextMap { entries: Vec::new() };
        assert(r@ =~= Map::<Seq<char>, V>::empty());
        r
    }

    fn find(&self, key: &str) -> (r: Option<usize>)
        ensures
            match r {
                Some(i) => i < self.entries@.len() && self.entries@[i as int].0@ == key@
                    && self@.dom().contains(key@) && self@[key@] == self.entries@[i as int].1,
                None => !self@.dom().contains(key@) && forall|j: int|
                    0 <= j < self.entries@.len() ==> (#[trigger] self.entries@[j]).0@ != key@,
            },
    {
        proof {
            use_type_invariant(self);
        }
        for i in 0..self.entries.len()
            invariant
                distinct_keys(self.entries@),
                forall|j: int| 0 <= j < i ==> (#[trigger] self.entries@[j]).0@ != key@,
        {
            if same_text(&self.entries[i].0, key) {
                proof {
                    lemma_contents(self.entries@, i as int);
                }
                return Some(i);
            }
        }
        proof {
            lemma_no_contents(self.entries@, key@);
        }
        None
    }

    /// The keys, each once.
    pub fn keys(&self) -> (r: Vec<String>)
        ensures
            texts(r@).no_duplicates(),
            forall|key: Seq<char>| #[trigger]
                texts(r@).contains(key) == self@.dom().contains(key),
    {
        proof {
            use_type_invariant(self);
        }
        let mut out: Vec<String> = Vec::new();
        for i in 0..self.entries.len()
            invariant
                out@.len() == i,
                forall|j: int| 0 <= j < i ==> (#[trigger] out@[j])@ == self.entries@[j].0@,
        {
            out.push(self.entries[i].0.clone());
        }
        proof {
            let all = texts(out@);
            assert forall|i: int, j: int|
                0 <= i < all.len() && 0 <= j < all.len() && i != j implies all[i] != all[j] by {
                assert(all[i] == out@[i]@ && all[j] == out@[j]@);
                if i < j {
                    assert(self.entries@[i].0@ != self.entries@[j].0@);
                } else {
                    assert(self.entries@[j].0@ != self.entries@[i].0@);
                }
            }
            assert forall|key: Seq<char>| #[trigger] all.contains(key) == self@.dom().contains(
                key,
            ) by {
                if all.contains(key) {
                    let i = choose|i: int| 0 <= i < all.len() && all[i] == key;
                    assert(out@[i]@ == key);
                    lemma_contents(self.entries@, i);
                }
                if self@.dom().contains(key) {
                    let i = choose|i: int| holds(self.entries@, key, i);
                    assert(all[i] == out@[i]@);
                }
            }
        }
        out
    }

    /// The value at `key`, if there is one.
    pub fn get(&self, key: &str) -> (r: Option<&V>)
        ensures
            match r {
                Some(v) => self@.dom().contains(key@) && self@[key@] == *v,
                None => !self@.dom().contains(key@),
            },
    {
        match self.find(key) {
            Some(i) => Some(&self.entries[i].1),
            None => None,
        }
    }

    /// Whether there is a value at `key`.
    pub fn contains_key(&self, key: &str) -> (r: bool)
        ensures
            r == self@.dom().contains(key@),
    {
        self.find(key).is_some()
    }

    /// Puts `value` at `key`, in place of what was there.
    pub fn insert(&mut self, key: &str, value: V)
        ensures
            final(self)@ == old(self)@.insert(key@, value),
    {
        proof {
            use_type_invariant(&*self);
        }
        let ghost before = self.entries@;
        match self.find(key) {
            Some(i) => {
                let mut entries = Vec::new();
                std::mem::swap(&mut entries, &mut self.entries);
                entries.set(i, (key.to_owned(), value));
                proof {
                    lemma_replace(before, entries@, i as int);
                }
                self.entries = entries;
            },
            None => {
                let entry = (key.to_owned(), value);
                let mut entries = Vec::new();
                std::mem::swap(&mut entries, &mut self.entries);
                entries.push(entry);
                proof {
                    lemma_push(before, entry);
                }
                self.entries = entries;
            },
        }
        assert(self@ =~= contents(before).insert(key@, value));
    }

    /// Takes the value at `key` out.
    pub fn remove(&mut self, key: &str)
        ensures
            final(self)@ == old(self)@.remove(key@),
    {
        proof {
            use_type_invariant(&*self);
        }
        let ghost before = self.entries@;
        match self.find(key) {
            Some(i) => {
                let mut entries = Vec::new();
                std::mem::swap(&mut entries, &mut self.entries);
                let _ = entries.remove(i);
                proof {
                    lemma_remove(before, i as int);
                }
                self.entries = entries;
            },
            None => {},
        }
        assert(self@ =~= contents(before).remove(key@));
    }

    /// Takes everything out.
    pub fn clear(&mut self)
        ensures
            final(self)@ == Map::<Seq<char>, V>::empty(),
    {
        self.entries = Vec::new();
        assert(self@ =~= Map::<Seq<char>, V>::empty());
    }

    /// Whether there is no entry.
    pub fn is_empty(&self) -> (r: bool)
        ensures
            r == (self@ == Map::<Seq<char>, V>::empty()),
    {
        proof {
            use_type_invariant(self);
        }
        if self.entries.len() == 0 {
            assert(self@ =~= Map::<Seq<char>, V>::empty());
            true
        } else {
            proof {
                lemma_contents(self.entries@, 0);
            }
            false
        }
    }
}

proof fn lemma_replace<V>(before: Seq<(String, V)>, after: Seq<(String, V)>, i: int)
    requires
        distinct_keys(before),
        0 <= i < before.len(),
        after == before.update(i, after[i]),
        after[i].0@ == before[i].0@,
    ensures
        distinct_keys(after),
        contents(after) == contents(before).insert(after[i].0@, after[i].1),
{
    assert forall|a: int, b: int| 0 <= a < b < after.len() implies (#[trigger] after[a]).0@ != (
    #[trigger] after[b]).0@ by {
        assert(before[a].0@ != before[b].0@);
    }
    let want = contents(before).insert(after[i].0@, after[i].1);
    assert forall|key: Seq<char>|
        contents(after).dom().contains(key) == want.dom().contains(key) by {
        if contents(after).dom().contains(key) {
            let j = spot(after, key);
            assert(holds(after, key, j));
            assert(holds(before, key, j));
        }
        if contents(before).dom().contains(key) {
            let j = spot(before, key);
            assert(holds(before, key, j));
            assert(holds(after, key, j));
        }
        assert(holds(after, after[i].0@, i));
    }
    assert forall|key: Seq<char>| #[trigger]
        contents(after).dom().contains(key) implies contents(after)[key] == want[key] by {
        let j = spot(after, key);
        assert(holds(after, key, j));
        lemma_contents(after, j);
        lemma_contents(before, j);
        if j != i && key == after[i].0@ {
            lemma_contents(after, i);
            if i < j {
                assert(after[i].0@ != after[j].0@);
            } else {
                assert(after[j].0@ != after[i].0@);
            }
        }
    }
    assert(contents(after) =~= want);
}

proof fn lemma_push<V>(before: Seq<(String, V)>, entry: (String, V))
    requires
        distinct_keys(before),
        forall|j: int| 0 <= j < before.len() ==> (#[trigger] before[j]).0@ != entry.0@,
    ensures
        distinct_keys(before.push(entry)),
        contents(before.push(entry)) == contents(before).insert(entry.0@, entry.1),
{
    let after = before.push(entry);
    assert forall|a: int, b: int| 0 <= a < b < after.len() implies (#[trigger] after[a]).0@ != (
    #[trigger] after[b]).0@ by {
        if b < before.len() {
            assert(before[a].0@ != before[b].0@);
        }
    }
    let want = contents(before).insert(entry.0@, entry.1);
    assert forall|key: Seq<char>|
        contents(after).dom().contains(key) == want.dom().contains(key) by {
        if contents(after).dom().contains(key) {
            let j = spot(after, key);
            assert(holds(after, key, j));
            if j < before.len() {
                assert(holds(before, key, j));
            }
        }
        if contents(before).dom().contains(key) {
            let j = spot(before, key);
            assert(holds(before, key, j));
            assert(holds(after, key, j));
        }
        assert(holds(after, entry.0@, before.len() as int));
    }
    assert forall|key: Seq<char>| #[trigger]
        contents(after).dom().contains(key) implies contents(after)[key] == want[key] by {
        let j = spot(after, key);
        assert(holds(after, key, j));
        lemma_contents(after, j);
        if j < before.len() {
            lemma_contents(before, j);
        }
    }
    assert(contents(after) =~= want);
}

proof fn lemma_remove<V>(before: Seq<(String, V)>, i: int)
    requires
        distinct_keys(before),
        0 <= i < before.len(),
    ensures
        distinct_keys(before.remove(i)),
        contents(before.remove(i)) == contents(before).remove(before[i].0@),
{
    let after = before.remove(i);
    assert forall|a: int, b: int| 0 <= a < b < after.len() implies (#[trigger] after[a]).0@ != (
    #[trigger] after[b]).0@ by {
        let x = if a < i { a } else { a + 1 };
        let y = if b < i { b } else { b + 1 };
        assert(before[x].0@ != before[y].0@);
    }
    let want = contents(before).remove(before[i].0@);
    assert forall|key: Seq<char>|
        contents(after).dom().contains(key) == want.dom().contains(key) by {
        if contents(after).dom().contains(key) {
            let j = spot(after, key);
            assert(holds(after, key, j));
            let x = if j < i { j } else { j + 1 };
            assert(holds(before, key, x));
            if x < i {
                assert(before[x].0@ != before[i].0@);
            } else {
                assert(before[i].0@ != before[x].0@);
            }
        }
        if want.dom().contains(key) {
            let j = spot(before, key);
            assert(holds(before, key, j));
            assert(holds(after, key, if j < i { j } else { j - 1 }));
        }
    }
    assert forall|key: Seq<char>| #[trigger]
        contents(after).dom().contains(key) implies contents(after)[key] == want[key] by {
        let j = spot(after, key);
        assert(holds(after, key, j));
        lemma_contents(after, j);
        lemma_contents(before, if j < i { j } else { j + 1 });
    }
    assert(contents(after) =~= want);
}

} // verus!
