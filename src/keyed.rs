//! A collection of values keyed by path, with unique keys and the order of
//! first insertion kept, viewed as a map from the key's characters.
use vstd::prelude::*;

verus! {

#[derive(Debug)]
pub struct Keyed<T> {
    items: Vec<(String, T)>,
}

impl<T> Keyed<T> {
    pub closed spec fn has_index(&self, k: Seq<char>, i: int) -> bool {
        0 <= i < self.items@.len() && self.items@[i].0@ == k
    }

    /// Keys are unique.
    pub closed spec fn wf(&self) -> bool {
        forall|i: int, j: int|
            0 <= i < self.items@.len() && 0 <= j < self.items@.len() && i != j
                ==> self.items@[i].0@ != self.items@[j].0@
    }

    pub closed spec fn view(&self) -> Map<Seq<char>, T> {
        Map::new(
            |k: Seq<char>| exists|i: int| self.has_index(k, i),
            |k: Seq<char>| self.items@[choose|i: int| self.has_index(k, i)].1,
        )
    }

    /// The keys in the order in which they were first inserted.
    pub closed spec fn key_order(&self) -> Seq<Seq<char>> {
        self.items@.map_values(|p: (String, T)| p.0@)
    }

    proof fn lemma_at(&self, i: int)
        requires
            self.wf(),
            0 <= i < self.items@.len(),
        ensures
            self.view().contains_key(self.items@[i].0@),
            self.view()[self.items@[i].0@] == self.items@[i].1,
    {
        let k = self.items@[i].0@;
        assert(self.has_index(k, i));
        let j = choose|j: int| self.has_index(k, j);
        assert(self.has_index(k, j));
    }

    pub fn new() -> (r: Keyed<T>)
        ensures
            r.wf(),
            r.view() == Map::<Seq<char>, T>::empty(),
            r.key_order() == Seq::<Seq<char>>::empty(),
    {
        let r = Keyed { items: Vec::new() };
        assert(r.view() =~= Map::<Seq<char>, T>::empty());
        assert(r.key_order() =~= Seq::<Seq<char>>::empty());
        r
    }

    pub fn len(&self) -> (r: usize)
        requires
            self.wf(),
        ensures
            r == self.view().len(),
            r == self.key_order().len(),
    {
        proof {
            self.lemma_len();
        }
        self.items.len()
    }

    proof fn lemma_len(&self)
        requires
            self.wf(),
        ensures
            self.view().len() == self.items@.len(),
            self.key_order().len() == self.items@.len(),
            self.view().dom() == self.key_order().to_set(),
        decreases self.items@.len(),
    {
        let ks = self.key_order();
        assert forall|k: Seq<char>| self.view().dom().contains(k) == ks.to_set().contains(k) by {
            if self.view().dom().contains(k) {
                let i = choose|i: int| self.has_index(k, i);
                assert(ks[i] == k);
            }
            if ks.to_set().contains(k) {
                let i = choose|i: int| 0 <= i < ks.len() && ks[i] == k;
                assert(self.has_index(k, i));
            }
        }
        assert(self.view().dom() =~= ks.to_set());
        assert(ks.no_duplicates()) by {
            assert forall|i: int, j: int| 0 <= i < ks.len() && 0 <= j < ks.len() && i != j implies ks[i]
                != ks[j] by {}
        }
        ks.unique_seq_to_set();
    }

    /// The position of `key`, if it is present.
    fn find(&self, key: &str) -> (r: Option<usize>)
        requires
            self.wf(),
        ensures
            match r {
                Some(i) => i < self.items@.len() && self.items@[i as int].0@ == key@
                    && self.view().contains_key(key@) && self.view()[key@] == self.items@[i as int].1,
                None => !self.view().contains_key(key@),
            },
    {
        let mut i: usize = 0;
        while i < self.items.len()
            invariant
                self.wf(),
                i <= self.items@.len(),
                forall|j: int| 0 <= j < i ==> self.items@[j].0@ != key@,
            decreases self.items@.len() - i,
        {
            if self.items[i].0 == String::from_str(key) {
                proof {
                    self.lemma_at(i as int);
                }
                return Some(i);
            }
            i = i + 1;
        }
        None
    }

    /// Whether `key` is present.
    pub fn contains(&self, key: &str) -> (r: bool)
        requires
            self.wf(),
        ensures
            r == self.view().contains_key(key@),
    {
        self.find(key).is_some()
    }

    /// The value under `key`, if there is one.
    pub fn get(&self, key: &str) -> (r: Option<&T>)
        requires
            self.wf(),
        ensures
            match r {
                Some(v) => self.view().contains_key(key@) && self.view()[key@] == *v,
                None => !self.view().contains_key(key@),
            },
    {
        match self.find(key) {
            Some(i) => Some(&self.items[i].1),
            None => None,
        }
    }

    /// Puts `value` under `key`, replacing what was there. A new key goes
    /// last in the order of insertion; a present one keeps its place.
    pub fn insert(&mut self, key: String, value: T)
        requires
            old(self).wf(),
        ensures
            final(self).wf(),
            final(self).view() == old(self).view().insert(key@, value),
            old(self).view().contains_key(key@) ==> final(self).key_order() == old(self).key_order(),
            !old(self).view().contains_key(key@) ==> final(self).key_order() == old(
                self,
            ).key_order().push(key@),
    {
        let ghost old_self = *self;
        match self.find(key.as_str()) {
            Some(i) => {
                let ghost k = key@;
                self.items.set(i, (key, value));
                proof {
                    assert forall|a: int, b: int|
                        0 <= a < self.items@.len() && 0 <= b < self.items@.len() && a != b
                            implies self.items@[a].0@ != self.items@[b].0@ by {
                        assert(old_self.items@[a].0@ == self.items@[a].0@);
                        assert(old_self.items@[b].0@ == self.items@[b].0@);
                    }
                    assert forall|kk: Seq<char>|
                        #![trigger self.view().contains_key(kk)]
                        self.view().contains_key(kk) == old_self.view().insert(k, value).contains_key(
                            kk,
                        ) by {
                        if kk != k && old_self.view().contains_key(kk) {
                            let j = choose|j: int| old_self.has_index(kk, j);
                            assert(self.has_index(kk, j));
                        }
                        if self.view().contains_key(kk) && kk != k {
                            let j = choose|j: int| self.has_index(kk, j);
                            assert(old_self.has_index(kk, j));
                        }
                        assert(self.has_index(k, i as int));
                    }
                    assert forall|kk: Seq<char>| #[trigger]
                        self.view().contains_key(kk) implies self.view()[kk] == old_self.view().insert(
                            k,
                            value,
                        )[kk] by {
                        let j = choose|j: int| self.has_index(kk, j);
                        assert(self.has_index(kk, j));
                        if kk == k {
                            assert(j == i);
                        } else {
                            assert(old_self.has_index(kk, j));
                            old_self.lemma_at(j);
                        }
                    }
                    assert(self.view() =~= old_self.view().insert(k, value));
                    assert(self.key_order() =~= old_self.key_order());
                }
            },
            None => {
                let ghost k = key@;
                self.items.push((key, value));
                proof {
                    let n = old_self.items@.len() as int;
                    assert(self.has_index(k, n));
                    assert forall|a: int, b: int|
                        0 <= a < self.items@.len() && 0 <= b < self.items@.len() && a != b
                            implies self.items@[a].0@ != self.items@[b].0@ by {
                        if a == n {
                            assert(!old_self.has_index(k, b));
                        } else if b == n {
                            assert(!old_self.has_index(k, a));
                        }
                    }
                    assert forall|kk: Seq<char>|
                        #![trigger self.view().contains_key(kk)]
                        self.view().contains_key(kk) == old_self.view().insert(k, value).contains_key(
                            kk,
                        ) by {
                        if kk != k && old_self.view().contains_key(kk) {
                            let j = choose|j: int| old_self.has_index(kk, j);
                            assert(self.has_index(kk, j));
                        }
                        if self.view().contains_key(kk) && kk != k {
                            let j = choose|j: int| self.has_index(kk, j);
                            assert(old_self.has_index(kk, j));
                        }
                    }
                    assert forall|kk: Seq<char>| #[trigger]
                        self.view().contains_key(kk) implies self.view()[kk] == old_self.view().insert(
                            k,
                            value,
                        )[kk] by {
                        let j = choose|j: int| self.has_index(kk, j);
                        assert(self.has_index(kk, j));
                        if kk == k {
                            if j != n {
                                assert(old_self.has_index(k, j));
                            }
                        } else {
                            assert(old_self.has_index(kk, j));
                            old_self.lemma_at(j);
                        }
                    }
                    assert(self.view() =~= old_self.view().insert(k, value));
                    assert(self.key_order() =~= old_self.key_order().push(k));
                }
            },
        }
    }

    /// Takes `key` out, with its value, if it is present.
    pub fn take(&mut self, key: &str) -> (r: Option<T>)
        requires
            old(self).wf(),
        ensures
            final(self).wf(),
            final(self).view() == old(self).view().remove(key@),
            match r {
                Some(v) => old(self).view().contains_key(key@) && old(self).view()[key@] == v,
                None => !old(self).view().contains_key(key@),
            },
    {
        let ghost old_self = *self;
        match self.find(key) {
            Some(i) => {
                let (_, v) = self.items.remove(i);
                proof {
                    let n = old_self.items@.len() as int;
                    let ii = i as int;
                    assert forall|a: int| 0 <= a < self.items@.len() implies #[trigger] self.items@[a]
                        == old_self.items@[if a < ii {
                        a
                    } else {
                        a + 1
                    }] by {}
                    assert forall|a: int, b: int|
                        0 <= a < self.items@.len() && 0 <= b < self.items@.len() && a != b
                            implies self.items@[a].0@ != self.items@[b].0@ by {
                        let oa = if a < ii {
                            a
                        } else {
                            a + 1
                        };
                        let ob = if b < ii {
                            b
                        } else {
                            b + 1
                        };
                        assert(self.items@[a] == old_self.items@[oa]);
                        assert(self.items@[b] == old_self.items@[ob]);
                    }
                    let k = key@;
                    assert forall|kk: Seq<char>|
                        #![trigger self.view().contains_key(kk)]
                        self.view().contains_key(kk) == old_self.view().remove(k).contains_key(kk)
                            by {
                        if kk != k && old_self.view().contains_key(kk) {
                            let j = choose|j: int| old_self.has_index(kk, j);
                            assert(j != ii);
                            let nj = if j < ii {
                                j
                            } else {
                                j - 1
                            };
                            assert(self.items@[nj] == old_self.items@[j]);
                            assert(self.has_index(kk, nj));
                        }
                        if self.view().contains_key(kk) {
                            let j = choose|j: int| self.has_index(kk, j);
                            let oj = if j < ii {
                                j
                            } else {
                                j + 1
                            };
                            assert(self.items@[j] == old_self.items@[oj]);
                            assert(old_self.has_index(kk, oj));
                            if kk == k {
                                assert(old_self.has_index(k, ii));
                            }
                        }
                    }
                    assert forall|kk: Seq<char>| #[trigger]
                        self.view().contains_key(kk) implies self.view()[kk] == old_self.view()[kk] by {
                        let j = choose|j: int| self.has_index(kk, j);
                        assert(self.has_index(kk, j));
                        let oj = if j < ii {
                            j
                        } else {
                            j + 1
                        };
                        assert(self.items@[j] == old_self.items@[oj]);
                        assert(old_self.has_index(kk, oj));
                        old_self.lemma_at(oj);
                    }
                    assert(self.view() =~= old_self.view().remove(k));
                }
                Some(v)
            },
            None => {
                assert(self.view() =~= old_self.view().remove(key@));
                None
            },
        }
    }

    /// The entries, in the order of first insertion.
    pub fn items(&self) -> (r: &Vec<(String, T)>)
        requires
            self.wf(),
        ensures
            r@.map_values(|p: (String, T)| p.0@) == self.key_order(),
            forall|i: int|
                0 <= i < r@.len() ==> self.view().contains_key(#[trigger] r@[i].0@) && self.view()[r@[
                    i
                ].0@] == r@[i].1,
    {
        proof {
            assert forall|i: int| 0 <= i < self.items@.len() implies self.view().contains_key(
                #[trigger] self.items@[i].0@,
            ) && self.view()[self.items@[i].0@] == self.items@[i].1 by {
                self.lemma_at(i);
            }
        }
        &self.items
    }
}

} // verus!
