//! Per-server bookkeeping collections keyed by `ServerId`: a set of servers and a map from a
//! server to a value, each holding a server at most once.

use vstd::prelude::*;
use crate::protocol::ServerId;

verus! {

/// A set of servers.
#[derive(Debug, Clone)]
pub struct IdSet {
    ids: Vec<ServerId>,
}

impl View for IdSet {
    type V = Set<Option<Seq<char>>>;

    closed spec fn view(&self) -> Set<Option<Seq<char>>> {
        Set::new(|k: Option<Seq<char>>| exists|i: int| 0 <= i < self.ids@.len() && (#[trigger] self.ids@[i])@ == k)
    }
}

impl IdSet {
    /// No server is held twice.
    pub closed spec fn wf(&self) -> bool {
        forall|i: int, j: int| 0 <= i < self.ids@.len() && 0 <= j < self.ids@.len() && i != j
            ==> (#[trigger] self.ids@[i])@ != (#[trigger] self.ids@[j])@
    }

    /// The empty set.
    pub fn new() -> (r: IdSet)
        ensures
            r.wf(),
            r@ == Set::<Option<Seq<char>>>::empty(),
    {
        let r = IdSet { ids: Vec::new() };
        assert(r@ =~= Set::<Option<Seq<char>>>::empty());
        r
    }

    fn position(&self, id: &ServerId) -> (r: Option<usize>)
        ensures
            match r {
                Some(i) => i < self.ids@.len() && self.ids@[i as int]@ == id@,
                None => !self@.contains(id@),
            },
    {
        let mut i: usize = 0;
        while i < self.ids.len()
            invariant
                i <= self.ids@.len(),
                forall|j: int| 0 <= j < i ==> (#[trigger] self.ids@[j])@ != id@,
            decreases self.ids@.len() - i,
        {
            if self.ids[i].same_as(id) {
                return Some(i);
            }
            i = i + 1;
        }
        None
    }

    /// Whether `id` is in the set.
    pub fn contains(&self, id: &ServerId) -> (r: bool)
        ensures
            r == self@.contains(id@),
    {
        self.position(id).is_some()
    }

    /// Add `id`; true when it was not there before.
    pub fn insert(&mut self, id: ServerId) -> (r: bool)
        requires
            old(self).wf(),
        ensures
            final(self).wf(),
            final(self)@ == old(self)@.insert(id@),
            r == !old(self)@.contains(id@),
    {
        match self.position(&id) {
            Some(_) => {
                assert(self@ =~= self@.insert(id@));
                false
            },
            None => {
                let ghost before = self.ids@;
                self.ids.push(id);
                proof {
                    assert forall|k: Option<Seq<char>>| self@.contains(k) <==> (old(self)@.contains(k) || k == id@) by {
                        if old(self)@.contains(k) {
                            let i = choose|i: int| 0 <= i < before.len() && (#[trigger] before[i])@ == k;
                            assert(self.ids@[i] == before[i]);
                        }
                        if k == id@ {
                            assert(self.ids@[before.len() as int] == id);
                        }
                        if self@.contains(k) {
                            let i = choose|i: int| 0 <= i < self.ids@.len() && (#[trigger] self.ids@[i])@ == k;
                            if i < before.len() {
                                assert(before[i] == self.ids@[i]);
                            }
                        }
                    }
                    assert(self@ =~= old(self)@.insert(id@));
                }
                true
            },
        }
    }

    /// Remove `id`; true when it was there.
    pub fn remove(&mut self, id: &ServerId) -> (r: bool)
        requires
            old(self).wf(),
        ensures
            final(self).wf(),
            final(self)@ == old(self)@.remove(id@),
            r == old(self)@.contains(id@),
    {
        match self.position(id) {
            None => {
                assert(self@ =~= self@.remove(id@));
                false
            },
            Some(p) => {
                let ghost before = self.ids@;
                self.ids.remove(p);
                proof {
                    assert(self.ids@ == before.remove(p as int));
                    assert forall|k: Option<Seq<char>>| self@.contains(k) <==> (old(self)@.contains(k) && k != id@) by {
                        if old(self)@.contains(k) && k != id@ {
                            let i = choose|i: int| 0 <= i < before.len() && (#[trigger] before[i])@ == k;
                            assert(i != p);
                            if i < p {
                                assert(self.ids@[i] == before[i]);
                            } else {
                                assert(self.ids@[i - 1] == before[i]);
                            }
                        }
                        if self@.contains(k) {
                            let i = choose|i: int| 0 <= i < self.ids@.len() && (#[trigger] self.ids@[i])@ == k;
                            if i < p {
                                assert(before[i] == self.ids@[i]);
                            } else {
                                assert(before[i + 1] == self.ids@[i]);
                                assert(before[p as int]@ == id@);
                            }
                        }
                    }
                    assert(self@ =~= old(self)@.remove(id@));
                }
                true
            },
        }
    }

    /// Whether the set is empty.
    pub fn is_empty(&self) -> (r: bool)
        ensures
            r == (self@ == Set::<Option<Seq<char>>>::empty()),
    {
        if self.ids.len() == 0 {
            assert(self@ =~= Set::<Option<Seq<char>>>::empty());
            true
        } else {
            assert(self@.contains(self.ids@[0]@));
            false
        }
    }
}

/// A map from servers to values.
#[derive(Debug, Clone)]
pub struct IdMap<V> {
    entries: Vec<(ServerId, V)>,
}

impl<V> View for IdMap<V> {
    type V = Map<Option<Seq<char>>, V>;

    closed spec fn view(&self) -> Map<Option<Seq<char>>, V> {
        Map::new(
            |k: Option<Seq<char>>| exists|i: int| 0 <= i < self.entries@.len() && (#[trigger] self.entries@[i]).0@ == k,
            |k: Option<Seq<char>>| self.entries@[choose|i: int| 0 <= i < self.entries@.len() && (#[trigger] self.entries@[i]).0@ == k].1,
        )
    }
}

impl<V: Copy> IdMap<V> {
    /// No server is held twice.
    pub closed spec fn wf(&self) -> bool {
        forall|i: int, j: int| 0 <= i < self.entries@.len() && 0 <= j < self.entries@.len() && i != j
            ==> (#[trigger] self.entries@[i]).0@ != (#[trigger] self.entries@[j]).0@
    }

    proof fn lemma_entry(&self, i: int)
        requires
            self.wf(),
            0 <= i < self.entries@.len(),
        ensures
            self@.contains_key(self.entries@[i].0@),
            self@[self.entries@[i].0@] == self.entries@[i].1,
    {
        let k = self.entries@[i].0@;
        assert(self@.contains_key(k));
        let j = choose|j: int| 0 <= j < self.entries@.len() && (#[trigger] self.entries@[j]).0@ == k;
        assert(j == i);
    }

    /// The empty map.
    pub fn new() -> (r: IdMap<V>)
        ensures
            r.wf(),
            r@ == Map::<Option<Seq<char>>, V>::empty(),
    {
        let r = IdMap { entries: Vec::new() };
        assert(r@ =~= Map::<Option<Seq<char>>, V>::empty());
        r
    }

    fn position(&self, id: &ServerId) -> (r: Option<usize>)
        ensures
            match r {
                Some(i) => i < self.entries@.len() && self.entries@[i as int].0@ == id@,
                None => !self@.contains_key(id@),
            },
    {
        let mut i: usize = 0;
        while i < self.entries.len()
            invariant
                i <= self.entries@.len(),
                forall|j: int| 0 <= j < i ==> (#[trigger] self.entries@[j]).0@ != id@,
            decreases self.entries@.len() - i,
        {
            if self.entries[i].0.same_as(id) {
                return Some(i);
            }
            i = i + 1;
        }
        None
    }

    /// The value held for `id`.
    pub fn get(&self, id: &ServerId) -> (r: Option<V>)
        requires
            self.wf(),
        ensures
            r == (if self@.contains_key(id@) { Some(self@[id@]) } else { None::<V> }),
    {
        match self.position(id) {
            Some(i) => {
                proof {
                    self.lemma_entry(i as int);
                }
                Some(self.entries[i].1)
            },
            None => None,
        }
    }

    /// Whether a value is held for `id`.
    pub fn contains_key(&self, id: &ServerId) -> (r: bool)
        ensures
            r == self@.contains_key(id@),
    {
        self.position(id).is_some()
    }

    /// Hold `value` for `id`, replacing what was held for it.
    pub fn insert(&mut self, id: ServerId, value: V)
        requires
            old(self).wf(),
        ensures
            final(self).wf(),
            final(self)@ == old(self)@.insert(id@, value),
    {
        let ghost key = id@;
        match self.position(&id) {
            Some(p) => {
                let ghost before = self.entries@;
                self.entries.set(p, (id, value));
                proof {
                    assert forall|k: Option<Seq<char>>| #[trigger] self@.contains_key(k) <==> old(self)@.insert(key, value).contains_key(k) by {
                        if self@.contains_key(k) {
                            let i = choose|i: int| 0 <= i < self.entries@.len() && (#[trigger] self.entries@[i]).0@ == k;
                            if i != p {
                                assert(before[i] == self.entries@[i]);
                            }
                        }
                        if old(self)@.contains_key(k) {
                            let i = choose|i: int| 0 <= i < before.len() && (#[trigger] before[i]).0@ == k;
                            if i != p {
                                assert(before[i] == self.entries@[i]);
                            } else {
                                assert(self.entries@[p as int].0@ == k);
                            }
                        }
                        if k == key {
                            assert(self.entries@[p as int].0@ == k);
                        }
                    }
                    assert forall|k: Option<Seq<char>>| #[trigger] self@.contains_key(k) implies self@[k] == old(self)@.insert(key, value)[k] by {
                        let i = choose|i: int| 0 <= i < self.entries@.len() && (#[trigger] self.entries@[i]).0@ == k;
                        self.lemma_entry(i);
                        if i != p {
                            assert(before[i] == self.entries@[i]);
                            old(self).lemma_entry(i);
                        }
                    }
                    assert(self@ =~= old(self)@.insert(key, value));
                }
            },
            None => {
                let ghost before = self.entries@;
                self.entries.push((id, value));
                proof {
                    let n = before.len() as int;
                    assert forall|k: Option<Seq<char>>| #[trigger] self@.contains_key(k) <==> old(self)@.insert(key, value).contains_key(k) by {
                        if self@.contains_key(k) {
                            let i = choose|i: int| 0 <= i < self.entries@.len() && (#[trigger] self.entries@[i]).0@ == k;
                            if i < n {
                                assert(before[i] == self.entries@[i]);
                            }
                        }
                        if old(self)@.contains_key(k) {
                            let i = choose|i: int| 0 <= i < before.len() && (#[trigger] before[i]).0@ == k;
                            assert(before[i] == self.entries@[i]);
                        }
                        if k == key {
                            assert(self.entries@[n].0@ == k);
                        }
                    }
                    assert forall|k: Option<Seq<char>>| #[trigger] self@.contains_key(k) implies self@[k] == old(self)@.insert(key, value)[k] by {
                        let i = choose|i: int| 0 <= i < self.entries@.len() && (#[trigger] self.entries@[i]).0@ == k;
                        self.lemma_entry(i);
                        if i < n {
                            assert(before[i] == self.entries@[i]);
                            old(self).lemma_entry(i);
                        }
                    }
                    assert(self@ =~= old(self)@.insert(key, value));
                }
            },
        }
    }

    /// Drop what is held for `id`, returning it.
    pub fn remove(&mut self, id: &ServerId) -> (r: Option<V>)
        requires
            old(self).wf(),
        ensures
            final(self).wf(),
            final(self)@ == old(self)@.remove(id@),
            r == (if old(self)@.contains_key(id@) { Some(old(self)@[id@]) } else { None::<V> }),
    {
        match self.position(id) {
            None => {
                assert(self@ =~= self@.remove(id@));
                None
            },
            Some(p) => {
                let ghost before = self.entries@;
                proof {
                    self.lemma_entry(p as int);
                }
                let value = self.entries[p].1;
                self.entries.remove(p);
                proof {
                    assert(self.entries@ == before.remove(p as int));
                    assert forall|k: Option<Seq<char>>| #[trigger] self@.contains_key(k) <==> old(self)@.remove(id@).contains_key(k) by {
                        if old(self)@.contains_key(k) && k != id@ {
                            let i = choose|i: int| 0 <= i < before.len() && (#[trigger] before[i]).0@ == k;
                            assert(i != p);
                            if i < p {
                                assert(self.entries@[i] == before[i]);
                            } else {
                                assert(self.entries@[i - 1] == before[i]);
                            }
                        }
                        if self@.contains_key(k) {
                            let i = choose|i: int| 0 <= i < self.entries@.len() && (#[trigger] self.entries@[i]).0@ == k;
                            if i < p {
                                assert(before[i] == self.entries@[i]);
                            } else {
                                assert(before[i + 1] == self.entries@[i]);
                            }
                        }
                    }
                    assert forall|k: Option<Seq<char>>| #[trigger] self@.contains_key(k) implies self@[k] == old(self)@[k] by {
                        let i = choose|i: int| 0 <= i < self.entries@.len() && (#[trigger] self.entries@[i]).0@ == k;
                        self.lemma_entry(i);
                        if i < p {
                            assert(before[i] == self.entries@[i]);
                            old(self).lemma_entry(i);
                        } else {
                            assert(before[i + 1] == self.entries@[i]);
                            old(self).lemma_entry(i + 1);
                        }
                    }
                    assert(self@ =~= old(self)@.remove(id@));
                }
                Some(value)
            },
        }
    }

    /// Whether the map is empty.
    pub fn is_empty(&self) -> (r: bool)
        ensures
            r == (self@ == Map::<Option<Seq<char>>, V>::empty()),
    {
        if self.entries.len() == 0 {
            assert(self@ =~= Map::<Option<Seq<char>>, V>::empty());
            true
        } else {
            assert(self@.contains_key(self.entries@[0].0@));
            false
        }
    }

    /// Every held server with its value, each once.
    pub fn snapshot(&self) -> (r: Vec<(ServerId, V)>)
        requires
            self.wf(),
        ensures
            forall|i: int, j: int| 0 <= i < r@.len() && 0 <= j < r@.len() && i != j
                ==> (#[trigger] r@[i]).0@ != (#[trigger] r@[j]).0@,
            forall|i: int| 0 <= i < r@.len() ==> self@.contains_key((#[trigger] r@[i]).0@)
                && self@[r@[i].0@] == r@[i].1,
            forall|k: Option<Seq<char>>| #[trigger] self@.contains_key(k)
                ==> exists|i: int| 0 <= i < r@.len() && (#[trigger] r@[i]).0@ == k,
    {
        let mut r: Vec<(ServerId, V)> = Vec::new();
        let mut i: usize = 0;
        while i < self.entries.len()
            invariant
                i <= self.entries@.len(),
                self.wf(),
                r@.len() == i,
                forall|j: int| 0 <= j < i ==> (#[trigger] r@[j]).0@ == self.entries@[j].0@ && r@[j].1 == self.entries@[j].1,
            decreases self.entries@.len() - i,
        {
            r.push((self.entries[i].0.duplicate(), self.entries[i].1));
            i = i + 1;
        }
        proof {
            assert forall|a: int| 0 <= a < r@.len() implies self@.contains_key((#[trigger] r@[a]).0@)
                && self@[r@[a].0@] == r@[a].1 by {
                self.lemma_entry(a);
            }
            assert forall|k: Option<Seq<char>>| #[trigger] self@.contains_key(k)
                implies exists|a: int| 0 <= a < r@.len() && (#[trigger] r@[a]).0@ == k by {
                let a = choose|a: int| 0 <= a < self.entries@.len() && (#[trigger] self.entries@[a]).0@ == k;
                assert(r@[a].0@ == k);
            }
        }
        r
    }
}

} // verus!
