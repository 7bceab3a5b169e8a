//! An association list from `String` keys to values, the storage primitive
//! that every pallet builds its per-account mapping on. In specifications a
//! map is viewed as a `Map` from the key's character sequence to the value.

use vstd::prelude::*;

verus! {

/// A mapping from `String` keys to values of type `V`, stored as a vector of
/// entries whose key views are pairwise distinct.
#[derive(Debug)]
pub struct AccountMap<V> {
    entries: Vec<(String, V)>,
}

impl<V> View for AccountMap<V> {
    type V = Map<Seq<char>, V>;

    closed spec fn view(&self) -> Map<Seq<char>, V> {
        Map::new(
            |k: Seq<char>|
                exists|i: int|
                    0 <= i < self.entries@.len() && #[trigger] self.entries@[i].0@ == k,
            |k: Seq<char>|
                self.entries@[choose|i: int|
                    0 <= i < self.entries@.len() && #[trigger] self.entries@[i].0@ == k].1,
        )
    }
}

impl<V> AccountMap<V> {
    /// Key views are pairwise distinct, so each key determines one entry.
    pub closed spec fn wf(self) -> bool {
        forall|i: int, j: int|
            0 <= i < j < self.entries@.len()
                ==> self.entries@[i].0@ != self.entries@[j].0@
    }

    /// Two entries with the same key view are the same entry.
    proof fn lemma_unique_index(self, i: int, j: int)
        requires
            self.wf(),
            0 <= i < self.entries@.len(),
            0 <= j < self.entries@.len(),
            self.entries@[i].0@ == self.entries@[j].0@,
        ensures
            i == j,
    {
    }

    /// The entry at index `i` is what the viewed map holds for its key.
    proof fn lemma_view_index(self, i: int)
        requires
            self.wf(),
            0 <= i < self.entries@.len(),
        ensures
            self@.contains_key(self.entries@[i].0@),
            self@[self.entries@[i].0@] == self.entries@[i].1,
    {
        let k = self.entries@[i].0@;
        assert(exists|j: int|
            0 <= j < self.entries@.len() && #[trigger] self.entries@[j].0@ == k);
        let j = choose|j: int|
            0 <= j < self.entries@.len() && #[trigger] self.entries@[j].0@ == k;
        self.lemma_unique_index(i, j);
    }

    /// A key is in the viewed map exactly when some entry carries it.
    proof fn lemma_view_dom(self, k: Seq<char>)
        ensures
            self@.contains_key(k) <==> exists|i: int|
                0 <= i < self.entries@.len() && #[trigger] self.entries@[i].0@ == k,
    {
    }

    pub fn new() -> (r: Self)
        ensures
            r.wf(),
            r@ == Map::<Seq<char>, V>::empty(),
    {
        let r = AccountMap { entries: Vec::new() };
        proof {
            assert(r@ =~= Map::<Seq<char>, V>::empty());
        }
        r
    }

    pub fn get(&self, key: &String) -> (r: Option<&V>)
        requires
            self.wf(),
        ensures
            match r {
                Some(v) => self@.contains_key(key@) && *v == self@[key@],
                None => !self@.contains_key(key@),
            },
    {
        let n = self.entries.len();
        let mut idx: usize = 0;
        while idx < n
            invariant
                self.wf(),
                n == self.entries@.len(),
                idx <= n,
                forall|j: int| 0 <= j < idx ==> #[trigger] self.entries@[j].0@ != key@,
            decreases n - idx,
        {
            if self.entries[idx].0 == *key {
                proof {
                    self.lemma_view_index(idx as int);
                }
                return Some(&self.entries[idx].1);
            }
            idx += 1;
        }
        proof {
            self.lemma_view_dom(key@);
        }
        None
    }

    pub fn insert(&mut self, key: &String, value: V)
        requires
            old(self).wf(),
        ensures
            final(self).wf(),
            final(self)@ == old(self)@.insert(key@, value),
    {
        let n = self.entries.len();
        let mut idx: usize = 0;
        while idx < n
            invariant
                *self == *old(self),
                self.wf(),
                n == self.entries@.len(),
                idx <= n,
                forall|j: int| 0 <= j < idx ==> #[trigger] self.entries@[j].0@ != key@,
            decreases n - idx,
        {
            if self.entries[idx].0 == *key {
                let ghost prior = *self;
                self.entries[idx] = (key.clone(), value);
                proof {
                    assert forall|i: int, j: int|
                        0 <= i < j < self.entries@.len() implies self.entries@[i].0@
                        != self.entries@[j].0@ by {
                        assert(prior.entries@[i].0@ != prior.entries@[j].0@);
                    }
                    self.lemma_updated_view(prior, idx as int, key@, value);
                }
                return ;
            }
            idx += 1;
        }
        let ghost prior = *self;
        self.entries.push((key.clone(), value));
        proof {
            assert forall|i: int, j: int|
                0 <= i < j < self.entries@.len() implies self.entries@[i].0@
                != self.entries@[j].0@ by {
                if j < prior.entries@.len() {
                    assert(prior.entries@[i].0@ != prior.entries@[j].0@);
                }
            }
            self.lemma_pushed_view(prior, key@, value);
        }
    }

    /// After overwriting the entry at `idx`, the view is the old view with
    /// the key bound to the new value.
    proof fn lemma_updated_view(self, prior: Self, idx: int, k: Seq<char>, value: V)
        requires
            prior.wf(),
            self.wf(),
            0 <= idx < prior.entries@.len(),
            prior.entries@[idx].0@ == k,
            self.entries@ == prior.entries@.update(idx, (self.entries@[idx].0, value)),
            self.entries@[idx].0@ == k,
            self.entries@[idx].1 == value,
        ensures
            self@ == prior@.insert(k, value),
    {
        assert forall|q: Seq<char>| self@.contains_key(q) <==> prior@.insert(
            k,
            value,
        ).contains_key(q) by {
            self.lemma_view_dom(q);
            prior.lemma_view_dom(q);
            if q == k {
                assert(self.entries@[idx].0@ == q);
            } else {
                assert forall|i: int|
                    0 <= i < self.entries@.len() implies (self.entries@[i].0@ == q
                    <==> prior.entries@[i].0@ == q) by {
                    if i != idx {
                        assert(self.entries@[i] == prior.entries@[i]);
                    }
                }
            }
        }
        assert forall|q: Seq<char>| self@.contains_key(q) implies self@[q] == prior@.insert(
            k,
            value,
        )[q] by {
            self.lemma_view_dom(q);
            let i = choose|i: int|
                0 <= i < self.entries@.len() && #[trigger] self.entries@[i].0@ == q;
            self.lemma_view_index(i);
            if q == k {
                self.lemma_unique_index(i, idx);
            } else {
                assert(i != idx);
                assert(self.entries@[i] == prior.entries@[i]);
                prior.lemma_view_index(i);
            }
        }
        assert(self@ =~= prior@.insert(k, value));
    }

    /// After appending an entry with a fresh key, the view is the old view
    /// with the key bound to the value.
    proof fn lemma_pushed_view(self, prior: Self, k: Seq<char>, value: V)
        requires
            prior.wf(),
            self.wf(),
            forall|i: int|
                0 <= i < prior.entries@.len() ==> #[trigger] prior.entries@[i].0@ != k,
            self.entries@.len() == prior.entries@.len() + 1,
            self.entries@ == prior.entries@.push(self.entries@.last()),
            self.entries@.last().0@ == k,
            self.entries@.last().1 == value,
        ensures
            self@ == prior@.insert(k, value),
    {
        let n = prior.entries@.len() as int;
        assert forall|q: Seq<char>| self@.contains_key(q) <==> prior@.insert(
            k,
            value,
        ).contains_key(q) by {
            self.lemma_view_dom(q);
            prior.lemma_view_dom(q);
            if q == k {
                assert(self.entries@[n].0@ == q);
            } else {
                assert forall|i: int|
                    0 <= i < self.entries@.len() && #[trigger] self.entries@[i].0@
                    == q implies 0 <= i < n && prior.entries@[i].0@ == q by {
                    assert(i != n);
                    assert(self.entries@[i] == prior.entries@[i]);
                }
                assert forall|i: int|
                    0 <= i < n && #[trigger] prior.entries@[i].0@ == q implies self.entries@[i].0@
                    == q by {
                    assert(self.entries@[i] == prior.entries@[i]);
                }
            }
        }
        assert forall|q: Seq<char>| self@.contains_key(q) implies self@[q] == prior@.insert(
            k,
            value,
        )[q] by {
            self.lemma_view_dom(q);
            let i = choose|i: int|
                0 <= i < self.entries@.len() && #[trigger] self.entries@[i].0@ == q;
            self.lemma_view_index(i);
            if q == k {
                self.lemma_unique_index(i, n);
            } else {
                assert(i != n);
                assert(self.entries@[i] == prior.entries@[i]);
                prior.lemma_view_index(i);
            }
        }
        assert(self@ =~= prior@.insert(k, value));
    }

    pub fn remove(&mut self, key: &String)
        requires
            old(self).wf(),
        ensures
            final(self).wf(),
            final(self)@ == old(self)@.remove(key@),
    {
        let n = self.entries.len();
        let mut idx: usize = 0;
        while idx < n
            invariant
                *self == *old(self),
                self.wf(),
                n == self.entries@.len(),
                idx <= n,
                forall|j: int| 0 <= j < idx ==> #[trigger] self.entries@[j].0@ != key@,
            decreases n - idx,
        {
            if self.entries[idx].0 == *key {
                let ghost prior = *self;
                let _ = self.entries.remove(idx);
                proof {
                    assert forall|i: int, j: int|
                        0 <= i < j < self.entries@.len() implies self.entries@[i].0@
                        != self.entries@[j].0@ by {
                        let pi: int = if i < idx { i } else { i + 1 };
                        let pj: int = if j < idx { j } else { j + 1 };
                        assert(self.entries@[i] == prior.entries@[pi]);
                        assert(self.entries@[j] == prior.entries@[pj]);
                        assert(prior.entries@[pi].0@ != prior.entries@[pj].0@);
                    }
                    self.lemma_removed_view(prior, idx as int, key@);
                }
                return ;
            }
            idx += 1;
        }
        proof {
            self.lemma_view_dom(key@);
            assert(self@ =~= self@.remove(key@));
        }
    }

    /// After taking out the entry at `idx`, the view is the old view without
    /// that entry's key.
    proof fn lemma_removed_view(self, prior: Self, idx: int, k: Seq<char>)
        requires
            prior.wf(),
            self.wf(),
            0 <= idx < prior.entries@.len(),
            prior.entries@[idx].0@ == k,
            self.entries@ == prior.entries@.remove(idx),
        ensures
            self@ == prior@.remove(k),
    {
        let shift = |i: int| if i < idx { i } else { i + 1 };
        assert forall|q: Seq<char>| self@.contains_key(q) <==> prior@.remove(k).contains_key(
            q,
        ) by {
            self.lemma_view_dom(q);
            prior.lemma_view_dom(q);
            if q == k {
                assert forall|i: int|
                    0 <= i < self.entries@.len() implies #[trigger] self.entries@[i].0@
                    != q by {
                    let pi: int = if i < idx { i } else { i + 1 };
                    assert(self.entries@[i] == prior.entries@[pi]);
                    assert(pi != idx);
                    assert(prior.entries@[pi].0@ != prior.entries@[idx].0@);
                }
            } else {
                assert forall|i: int|
                    0 <= i < self.entries@.len() && #[trigger] self.entries@[i].0@
                    == q implies exists|p: int|
                    0 <= p < prior.entries@.len() && #[trigger] prior.entries@[p].0@ == q by {
                    let pi: int = if i < idx { i } else { i + 1 };
                    assert(self.entries@[i] == prior.entries@[pi]);
                    assert(prior.entries@[pi].0@ == q);
                }
                assert forall|p: int|
                    0 <= p < prior.entries@.len() && #[trigger] prior.entries@[p].0@
                    == q implies exists|i: int|
                    0 <= i < self.entries@.len() && #[trigger] self.entries@[i].0@ == q by {
                    assert(p != idx);
                    let i: int = if p < idx { p } else { p - 1 };
                    assert(self.entries@[i] == prior.entries@[p]);
                    assert(self.entries@[i].0@ == q);
                }
            }
        }
        assert forall|q: Seq<char>| self@.contains_key(q) implies self@[q] == prior@.remove(
            k,
        )[q] by {
            self.lemma_view_dom(q);
            let i = choose|i: int|
                0 <= i < self.entries@.len() && #[trigger] self.entries@[i].0@ == q;
            self.lemma_view_index(i);
            let pi: int = if i < idx { i } else { i + 1 };
            assert(self.entries@[i] == prior.entries@[pi]);
            assert(pi != idx);
            assert(prior.entries@[pi].0@ != prior.entries@[idx].0@);
            assert(q != k);
            prior.lemma_view_index(pi);
        }
        assert(self@ =~= prior@.remove(k));
    }
}

} // verus!
