//! A small keyed store: an association list from `u64` identifiers to entries,
//! with the invariant that at most one entry exists per key at any time.
//!
//! Every component of the bridge that the engine owns (the element registry,
//! the video and image asset stores, the extracted render elements) keeps its
//! entries in one of these, so the uniqueness guarantee is proved once here.

use vstd::prelude::*;

verus! {

/// Whether some position of `s` holds the key `k`.
pub open spec fn has_key<V>(s: Seq<(u64, V)>, k: u64) -> bool {
    exists|i: int| 0 <= i < s.len() && (#[trigger] s[i]).0 == k
}

/// The position of `s` holding the key `k`; meaningful only when `has_key(s, k)`.
pub open spec fn index_of_key<V>(s: Seq<(u64, V)>, k: u64) -> int {
    choose|i: int| 0 <= i < s.len() && (#[trigger] s[i]).0 == k
}

/// The entry stored under the key `k`; meaningful only when `has_key(s, k)`.
pub open spec fn value_of<V>(s: Seq<(u64, V)>, k: u64) -> V {
    s[index_of_key(s, k)].1
}

/// No key occurs at two distinct positions.
pub open spec fn unique_keys<V>(s: Seq<(u64, V)>) -> bool {
    forall|i: int, j: int|
        0 <= i < j < s.len() ==> (#[trigger] s[i]).0 != (#[trigger] s[j]).0
}

/// `s` with the entry for `k` taken out, or `s` itself when no entry holds `k`.
pub open spec fn remove_key<V>(s: Seq<(u64, V)>, k: u64) -> Seq<(u64, V)> {
    if has_key(s, k) {
        s.remove(index_of_key(s, k))
    } else {
        s
    }
}

/// Law (registry uniqueness): under `unique_keys`, any two positions holding
/// the same key coincide, so at most one entry exists per identifier.
pub proof fn lemma_at_most_one_entry<V>(s: Seq<(u64, V)>, k: u64, i: int, j: int)
    requires
        unique_keys(s),
        0 <= i < s.len(),
        0 <= j < s.len(),
        s[i].0 == k,
        s[j].0 == k,
    ensures
        i == j,
{
    if i < j {
        assert(s[i].0 != s[j].0);
    } else if j < i {
        assert(s[j].0 != s[i].0);
    }
}

/// Under `unique_keys`, a position holding `k` is the position `index_of_key`
/// picks, and `value_of` is the entry stored there.
pub proof fn lemma_index_of_key<V>(s: Seq<(u64, V)>, k: u64, i: int)
    requires
        unique_keys(s),
        0 <= i < s.len(),
        s[i].0 == k,
    ensures
        has_key(s, k),
        index_of_key(s, k) == i,
        value_of(s, k) == s[i].1,
{
    assert(has_key(s, k));
    let j = index_of_key(s, k);
    assert(0 <= j < s.len() && s[j].0 == k);
    lemma_at_most_one_entry(s, k, i, j);
}

/// Pushing a fresh key leaves every other key's entry where it was.
pub proof fn lemma_push_preserves<V>(s: Seq<(u64, V)>, k: u64, v: V, k2: u64)
    requires
        unique_keys(s),
        !has_key(s, k),
    ensures
        unique_keys(s.push((k, v))),
        k2 != k ==> has_key(s.push((k, v)), k2) == has_key(s, k2),
        k2 != k && has_key(s, k2) ==> value_of(s.push((k, v)), k2) == value_of(s, k2),
        has_key(s.push((k, v)), k),
        value_of(s.push((k, v)), k) == v,
{
    let s1 = s.push((k, v));
    assert forall|i: int, j: int| 0 <= i < j < s1.len() implies (#[trigger] s1[i]).0
        != (#[trigger] s1[j]).0 by {
        if j < s.len() {
            assert(s[i].0 != s[j].0);
        } else {
            assert(s1[j] == (k, v));
            assert(s1[i] == s[i]);
            if s[i].0 == k {
                assert(has_key(s, k));
            }
        }
    }
    assert(s1[s.len() as int] == (k, v));
    lemma_index_of_key(s1, k, s.len() as int);
    if k2 != k {
        if has_key(s, k2) {
            let i = index_of_key(s, k2);
            assert(0 <= i < s.len() && s[i].0 == k2);
            assert(s1[i] == s[i]);
            lemma_index_of_key(s1, k2, i);
            lemma_index_of_key(s, k2, i);
        }
        if has_key(s1, k2) {
            let i = index_of_key(s1, k2);
            assert(0 <= i < s1.len() && s1[i].0 == k2);
            assert(i < s.len());
            assert(s[i] == s1[i]);
            assert(has_key(s, k2));
        }
    }
}

/// Removing the position that holds `k` keeps every other key's entry and
/// leaves no entry for `k` itself.
pub proof fn lemma_remove_preserves<V>(s: Seq<(u64, V)>, k: u64, k2: u64)
    requires
        unique_keys(s),
        has_key(s, k),
    ensures
        unique_keys(s.remove(index_of_key(s, k))),
        !has_key(s.remove(index_of_key(s, k)), k),
        k2 != k ==> has_key(s.remove(index_of_key(s, k)), k2) == has_key(s, k2),
        k2 != k && has_key(s, k2) ==> value_of(s.remove(index_of_key(s, k)), k2) == value_of(
            s,
            k2,
        ),
{
    let p = index_of_key(s, k);
    assert(0 <= p < s.len() && s[p].0 == k);
    let s1 = s.remove(p);
    assert forall|i: int, j: int| 0 <= i < j < s1.len() implies (#[trigger] s1[i]).0
        != (#[trigger] s1[j]).0 by {
        let i0 = if i < p {
            i
        } else {
            i + 1
        };
        let j0 = if j < p {
            j
        } else {
            j + 1
        };
        assert(s1[i] == s[i0]);
        assert(s1[j] == s[j0]);
        assert(s[i0].0 != s[j0].0);
    }
    assert forall|i: int| 0 <= i < s1.len() implies (#[trigger] s1[i]).0 != k by {
        let i0 = if i < p {
            i
        } else {
            i + 1
        };
        assert(s1[i] == s[i0]);
        if s[i0].0 == k {
            lemma_at_most_one_entry(s, k, i0, p);
        }
    }
    if k2 != k {
        if has_key(s, k2) {
            let q = index_of_key(s, k2);
            assert(0 <= q < s.len() && s[q].0 == k2);
            assert(q != p);
            let q1 = if q < p {
                q
            } else {
                q - 1
            };
            assert(s1[q1] == s[q]);
            lemma_index_of_key(s1, k2, q1);
            lemma_index_of_key(s, k2, q);
        }
        if has_key(s1, k2) {
            let q = index_of_key(s1, k2);
            assert(0 <= q < s1.len() && s1[q].0 == k2);
            let q0 = if q < p {
                q
            } else {
                q + 1
            };
            assert(s1[q] == s[q0]);
            assert(has_key(s, k2));
        }
    }
}

/// `remove_key` in one statement: the key is gone, every other entry stays,
/// and key uniqueness is preserved.
pub proof fn lemma_remove_key<V>(s: Seq<(u64, V)>, k: u64, k2: u64)
    requires
        unique_keys(s),
    ensures
        unique_keys(remove_key(s, k)),
        !has_key(remove_key(s, k), k),
        k2 != k ==> has_key(remove_key(s, k), k2) == has_key(s, k2),
        k2 != k && has_key(s, k2) ==> value_of(remove_key(s, k), k2) == value_of(s, k2),
{
    if has_key(s, k) {
        lemma_remove_preserves(s, k, k2);
    }
}

/// Law (insert after remove): once the entry for `k` is removed, the key is
/// free again, and storing a fresh entry under it succeeds cleanly: the new
/// entry is found under `k` and no other key is disturbed.
pub proof fn lemma_insert_after_remove<V>(s: Seq<(u64, V)>, k: u64, v: V, k2: u64)
    requires
        unique_keys(s),
    ensures
        !has_key(remove_key(s, k), k),
        unique_keys(remove_key(s, k).push((k, v))),
        has_key(remove_key(s, k).push((k, v)), k),
        value_of(remove_key(s, k).push((k, v)), k) == v,
        k2 != k ==> has_key(remove_key(s, k).push((k, v)), k2) == has_key(s, k2),
        k2 != k && has_key(s, k2) ==> value_of(remove_key(s, k).push((k, v)), k2) == value_of(
            s,
            k2,
        ),
{
    lemma_remove_key(s, k, k2);
    lemma_push_preserves(remove_key(s, k), k, v, k2);
}

/// Dropping the last entry leaves any other key's presence and entry as they
/// were, and keeps key uniqueness.
pub proof fn lemma_drop_last_key<V>(s: Seq<(u64, V)>, k: u64)
    requires
        unique_keys(s),
        s.len() > 0,
        s.last().0 != k,
    ensures
        unique_keys(s.drop_last()),
        has_key(s.drop_last(), k) == has_key(s, k),
        has_key(s, k) ==> value_of(s.drop_last(), k) == value_of(s, k),
{
    let s0 = s.drop_last();
    assert forall|i: int, j: int| 0 <= i < j < s0.len() implies (#[trigger] s0[i]).0
        != (#[trigger] s0[j]).0 by {
        assert(s[i].0 != s[j].0);
    }
    if has_key(s, k) {
        let i = index_of_key(s, k);
        assert(0 <= i < s.len() && s[i].0 == k);
        assert(i < s.len() - 1);
        assert(s0[i] == s[i]);
        lemma_index_of_key(s0, k, i);
        lemma_index_of_key(s, k, i);
    }
    if has_key(s0, k) {
        let i = index_of_key(s0, k);
        assert(0 <= i < s0.len() && s0[i].0 == k);
        assert(s[i] == s0[i]);
        assert(has_key(s, k));
    }
}

/// An association list from `u64` keys to entries of type `V`, keyed uniquely.
pub struct KeyedStore<V> {
    pairs: Vec<(u64, V)>,
}

impl<V> View for KeyedStore<V> {
    type V = Seq<(u64, V)>;

    closed spec fn view(&self) -> Seq<(u64, V)> {
        self.pairs@
    }
}

impl<V> KeyedStore<V> {
    /// Key uniqueness, the store's well-formedness invariant.
    pub open spec fn wf(&self) -> bool {
        unique_keys(self@)
    }

    /// Creates an empty store.
    pub fn new() -> (r: Self)
        ensures
            r@ == Seq::<(u64, V)>::empty(),
            r.wf(),
    {
        KeyedStore { pairs: Vec::new() }
    }

    /// The number of entries.
    pub fn len(&self) -> (n: usize)
        ensures
            n == self@.len(),
    {
        self.pairs.len()
    }

    /// Whether an entry exists for `k`.
    pub fn contains_key(&self, k: u64) -> (r: bool)
        ensures
            r == has_key(self@, k),
    {
        let n = self.pairs.len();
        let mut i: usize = 0;
        while i < n
            invariant
                n == self@.len(),
                i <= n,
                forall|j: int| 0 <= j < i ==> (#[trigger] self@[j]).0 != k,
            decreases n - i,
        {
            if self.pairs[i].0 == k {
                assert(has_key(self@, k));
                return true;
            }
            i += 1;
        }
        false
    }

    /// Looks up the entry for `k`; absence is a normal outcome, not an error.
    pub fn get(&self, k: u64) -> (r: Option<&V>)
        requires
            self.wf(),
        ensures
            match r {
                Some(v) => has_key(self@, k) && *v == value_of(self@, k),
                None => !has_key(self@, k),
            },
    {
        let n = self.pairs.len();
        let mut i: usize = 0;
        while i < n
            invariant
                n == self@.len(),
                i <= n,
                self.wf(),
                forall|j: int| 0 <= j < i ==> (#[trigger] self@[j]).0 != k,
            decreases n - i,
        {
            if self.pairs[i].0 == k {
                proof {
                    lemma_index_of_key(self@, k, i as int);
                }
                return Some(&self.pairs[i].1);
            }
            i += 1;
        }
        None
    }

    /// The key stored at position `i`.
    pub fn key_at(&self, i: usize) -> (k: u64)
        requires
            i < self@.len(),
        ensures
            k == self@[i as int].0,
    {
        self.pairs[i].0
    }

    /// The entry stored at position `i`.
    pub fn value_at(&self, i: usize) -> (v: &V)
        requires
            i < self@.len(),
        ensures
            *v == self@[i as int].1,
    {
        &self.pairs[i].1
    }

    /// Stores a fresh entry under a key that is not yet taken.
    pub fn insert_new(&mut self, k: u64, v: V)
        requires
            old(self).wf(),
            !has_key(old(self)@, k),
        ensures
            final (self)@ == old(self)@.push((k, v)),
            final (self).wf(),
            has_key(final (self)@, k),
            value_of(final (self)@, k) == v,
            forall|k2: u64|
                k2 != k ==> #[trigger] has_key(final (self)@, k2) == has_key(old(self)@, k2),
            forall|k2: u64|
                k2 != k && has_key(old(self)@, k2) ==> #[trigger] value_of(final (self)@, k2)
                    == value_of(old(self)@, k2),
    {
        self.pairs.push((k, v));
        proof {
            lemma_push_preserves(old(self)@, k, v, k);
            assert forall|k2: u64| k2 != k implies #[trigger] has_key(self@, k2) == has_key(
                old(self)@,
                k2,
            ) by {
                lemma_push_preserves(old(self)@, k, v, k2);
            }
            assert forall|k2: u64|
                k2 != k && has_key(old(self)@, k2) implies #[trigger] value_of(self@, k2)
                == value_of(old(self)@, k2) by {
                lemma_push_preserves(old(self)@, k, v, k2);
            }
        }
    }

    /// Removes and returns the entry for `k`, leaving the key free.
    #[verifier::loop_isolation(false)]
    pub fn remove(&mut self, k: u64) -> (r: Option<V>)
        requires
            old(self).wf(),
        ensures
            final (self)@ == remove_key(old(self)@, k),
            final (self).wf(),
            !has_key(final (self)@, k),
            r == if has_key(old(self)@, k) {
                Some(value_of(old(self)@, k))
            } else {
                None::<V>
            },
            forall|k2: u64|
                k2 != k ==> #[trigger] has_key(final (self)@, k2) == has_key(old(self)@, k2),
            forall|k2: u64|
                k2 != k && has_key(old(self)@, k2) ==> #[trigger] value_of(final (self)@, k2)
                    == value_of(old(self)@, k2),
    {
        let n = self.pairs.len();
        let mut i: usize = 0;
        while i < n
            invariant
                n == self@.len(),
                i <= n,
                self.wf(),
                self@ == old(self)@,
                forall|j: int| 0 <= j < i ==> (#[trigger] self@[j]).0 != k,
            decreases n - i,
        {
            if self.pairs[i].0 == k {
                proof {
                    lemma_index_of_key(self@, k, i as int);
                    lemma_remove_key(old(self)@, k, k);
                }
                let entry = self.pairs.remove(i);
                proof {
                    assert forall|k2: u64| k2 != k implies #[trigger] has_key(self@, k2) == has_key(
                        old(self)@,
                        k2,
                    ) by {
                        lemma_remove_key(old(self)@, k, k2);
                    }
                    assert forall|k2: u64|
                        k2 != k && has_key(old(self)@, k2) implies #[trigger] value_of(self@, k2)
                        == value_of(old(self)@, k2) by {
                        lemma_remove_key(old(self)@, k, k2);
                    }
                }
                return Some(entry.1);
            }
            i += 1;
        }
        assert(!has_key(self@, k));
        None
    }

    /// Stores `v` under `k`, replacing any previous entry for `k` whole: no
    /// state of the earlier entry is left behind.
    pub fn upsert(&mut self, k: u64, v: V)
        requires
            old(self).wf(),
        ensures
            final (self)@ == remove_key(old(self)@, k).push((k, v)),
            final (self).wf(),
            has_key(final (self)@, k),
            value_of(final (self)@, k) == v,
            forall|k2: u64|
                k2 != k ==> #[trigger] has_key(final (self)@, k2) == has_key(old(self)@, k2),
            forall|k2: u64|
                k2 != k && has_key(old(self)@, k2) ==> #[trigger] value_of(final (self)@, k2)
                    == value_of(old(self)@, k2),
    {
        let _ = self.remove(k);
        self.insert_new(k, v);
        proof {
            assert forall|k2: u64| k2 != k implies #[trigger] has_key(final (self)@, k2) == has_key(
                old(self)@,
                k2,
            ) && (has_key(old(self)@, k2) ==> value_of(final (self)@, k2) == value_of(
                old(self)@,
                k2,
            )) by {
                lemma_insert_after_remove(old(self)@, k, v, k2);
            }
        }
    }
}

} // verus!
