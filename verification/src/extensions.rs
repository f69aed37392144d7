//! A keyed store of observer-supplied side data, attached to a trace context.
//!
//! Observers pick a key (typically an identifier hash of their own type) and
//! attach plain values under it. Keys are unique; inserting an existing key
//! is a contract violation, `replace` overwrites.

use vstd::prelude::*;

verus! {

/// A value an observer can attach to a context.
#[derive(Debug)]
pub enum ExtVal {
    Int(i64),
    Text(String),
    Flag(bool),
}

impl Clone for ExtVal {
    fn clone(&self) -> (r: Self)
        ensures
            r == *self,
    {
        match self {
            ExtVal::Int(v) => ExtVal::Int(*v),
            ExtVal::Text(s) => ExtVal::Text(s.clone()),
            ExtVal::Flag(b) => ExtVal::Flag(*b),
        }
    }
}

/// The first value stored under `key`, scanning `entries` front to back.
pub open spec fn seq_get(entries: Seq<(u64, ExtVal)>, key: u64) -> Option<ExtVal>
    decreases entries.len(),
{
    if entries.len() == 0 {
        None
    } else if entries[0].0 == key {
        Some(entries[0].1)
    } else {
        seq_get(entries.drop_first(), key)
    }
}

/// A store of context extensions.
///
/// Holds the data that observers record about one error occurrence.
#[derive(Debug)]
pub struct Extensions {
    pub entries: Vec<(u64, ExtVal)>,
}

impl Extensions {
    /// Every key occurs at most once.
    pub open spec fn wf(&self) -> bool {
        forall|i: int, j: int|
            0 <= i < j < self.entries@.len() ==> (#[trigger] self.entries@[i]).0 != (
            #[trigger] self.entries@[j]).0
    }

    /// The value stored under `key`, if any.
    pub open spec fn spec_get(&self, key: u64) -> Option<ExtVal> {
        seq_get(self.entries@, key)
    }

    /// Creates an empty store.
    pub fn new() -> (r: Self)
        ensures
            r.entries@.len() == 0,
            r.wf(),
    {
        Extensions { entries: Vec::new() }
    }

    /// The number of stored entries.
    pub fn len(&self) -> (r: usize)
        ensures
            r == self.entries@.len(),
    {
        self.entries.len()
    }

    /// Looks up the value stored under `key`.
    pub fn get(&self, key: u64) -> (r: Option<&ExtVal>)
        ensures
            match r {
                Some(v) => self.spec_get(key) == Some(*v),
                None => self.spec_get(key) is None,
            },
    {
        let n = self.entries.len();
        let mut i: usize = 0;
        assert(self.entries@.skip(0) =~= self.entries@);
        while i < n
            invariant
                n == self.entries@.len(),
                i <= n,
                seq_get(self.entries@, key) == seq_get(self.entries@.skip(i as int), key),
                forall|j: int| 0 <= j < i ==> (#[trigger] self.entries@[j]).0 != key,
            decreases n - i,
        {
            if self.entries[i].0 == key {
                assert(seq_get(self.entries@.skip(i as int), key) == Some(self.entries@[i as int].1));
                return Some(&self.entries[i].1);
            }
            proof {
                assert(self.entries@.skip(i as int).drop_first() =~= self.entries@.skip(i + 1));
            }
            i = i + 1;
        }
        assert(self.entries@.skip(n as int) =~= Seq::<(u64, ExtVal)>::empty());
        None
    }

    /// Looks up the value stored under `key` for mutation.
    pub fn get_mut(&mut self, key: u64) -> (r: Option<&mut ExtVal>)
        requires
            old(self).wf(),
        ensures
            match r {
                Some(v) => {
                    &&& old(self).spec_get(key) == Some(*v)
                    &&& final(self).wf()
                    &&& final(self).spec_get(key) == Some(*final(v))
                    &&& forall|k: u64|
                        k != key ==> final(self).spec_get(k) == old(self).spec_get(k)
                },
                None => old(self).spec_get(key) is None && *final(self) == *old(self),
            },
    {
        let n = self.entries.len();
        let mut i: usize = 0;
        assert(self.entries@.skip(0) =~= self.entries@);
        while i < n
            invariant
                old(self).wf(),
                n == self.entries@.len(),
                i <= n,
                old(self) == self,
                seq_get(self.entries@, key) == seq_get(self.entries@.skip(i as int), key),
                forall|j: int| 0 <= j < i ==> (#[trigger] self.entries@[j]).0 != key,
            decreases n - i,
        {
            if self.entries[i].0 == key {
                assert(seq_get(self.entries@.skip(i as int), key) == Some(self.entries@[i as int].1));
                let ghost pre = self.entries@;
                let res = &mut self.entries[i].1;
                proof {
                    assert(pre[i as int].0 == key);
                    let ghost upd = (key, *final(res));
                    lemma_seq_get_update(pre, i as int, upd, key);
                    assert forall|k: u64| k != key implies seq_get(
                        pre.update(i as int, upd),
                        k,
                    ) == seq_get(pre, k) by {
                        lemma_seq_get_update(pre, i as int, upd, k);
                    }
                    assert forall|p: int, q: int|
                        0 <= p < q < pre.update(i as int, upd).len() implies (
                        #[trigger] pre.update(i as int, upd)[p]).0 != (
                        #[trigger] pre.update(i as int, upd)[q]).0 by {
                        assert(pre.update(i as int, upd)[p].0 == pre[p].0);
                        assert(pre.update(i as int, upd)[q].0 == pre[q].0);
                    }
                }
                return Some(res);
            }
            proof {
                assert(self.entries@.skip(i as int).drop_first() =~= self.entries@.skip(i + 1));
            }
            i = i + 1;
        }
        assert(self.entries@.skip(n as int) =~= Seq::<(u64, ExtVal)>::empty());
        None
    }

    /// Stores `val` under the fresh key `key`.
    ///
    /// A key already present is a programming-contract violation; callers
    /// that cannot rule it out use [`Extensions::replace`].
    pub fn insert(&mut self, key: u64, val: ExtVal)
        requires
            old(self).wf(),
            old(self).spec_get(key) is None,
        ensures
            final(self).wf(),
            final(self).entries@ == old(self).entries@.push((key, val)),
            final(self).spec_get(key) == Some(val),
            forall|k: u64| k != key ==> final(self).spec_get(k) == old(self).spec_get(k),
    {
        proof {
            lemma_seq_get_push(self.entries@, (key, val), key);
            assert forall|k: u64| k != key implies seq_get(
                self.entries@.push((key, val)),
                k,
            ) == seq_get(self.entries@, k) by {
                lemma_seq_get_push(self.entries@, (key, val), k);
            }
            lemma_seq_get_none_absent(self.entries@, key);
        }
        let ghost pre = self.entries@;
        self.entries.push((key, val));
        assert forall|p: int, q: int|
            0 <= p < q < self.entries@.len() implies (#[trigger] self.entries@[p]).0 != (
        #[trigger] self.entries@[q]).0 by {
            if q < pre.len() {
                assert(self.entries@[p] == pre[p] && self.entries@[q] == pre[q]);
            } else {
                assert(self.entries@[p] == pre[p] && self.entries@[q] == (key, val));
            }
        }
    }

    /// Stores `val` under `key`, returning the value previously stored there.
    pub fn replace(&mut self, key: u64, val: ExtVal) -> (r: Option<ExtVal>)
        requires
            old(self).wf(),
        ensures
            final(self).wf(),
            r == old(self).spec_get(key),
            final(self).spec_get(key) == Some(val),
            forall|k: u64| k != key ==> final(self).spec_get(k) == old(self).spec_get(k),
    {
        let n = self.entries.len();
        let mut i: usize = 0;
        assert(self.entries@.skip(0) =~= self.entries@);
        while i < n
            invariant
                old(self).wf(),
                n == self.entries@.len(),
                i <= n,
                old(self) == self,
                seq_get(self.entries@, key) == seq_get(self.entries@.skip(i as int), key),
                forall|j: int| 0 <= j < i ==> (#[trigger] self.entries@[j]).0 != key,
            decreases n - i,
        {
            if self.entries[i].0 == key {
                let prev = self.entries[i].1.clone();
                assert(seq_get(self.entries@.skip(i as int), key) == Some(self.entries@[i as int].1));
                proof {
                    lemma_seq_get_update(self.entries@, i as int, (key, val), key);
                    assert forall|k: u64| k != key implies seq_get(
                        self.entries@.update(i as int, (key, val)),
                        k,
                    ) == seq_get(self.entries@, k) by {
                        lemma_seq_get_update(self.entries@, i as int, (key, val), k);
                    }
                }
                let ghost pre = self.entries@;
                self.entries.set(i, (key, val));
                proof {
                    assert(pre == old(self).entries@);
                    assert(pre[i as int].0 == key);
                    assert forall|p: int|
                        0 <= p < self.entries@.len() implies (#[trigger] self.entries@[p]).0 == pre[
                        p
                    ].0 by {
                        if p == i {
                            assert(self.entries@[p] == (key, val));
                        } else {
                            assert(self.entries@[p] == pre[p]);
                        }
                    }
                    assert forall|p: int, q: int|
                        0 <= p < q < self.entries@.len() implies (#[trigger] self.entries@[p]).0
                        != (#[trigger] self.entries@[q]).0 by {
                        assert(self.entries@[p].0 == pre[p].0);
                        assert(self.entries@[q].0 == pre[q].0);
                    }
                }
                return Some(prev);
            }
            proof {
                assert(self.entries@.skip(i as int).drop_first() =~= self.entries@.skip(i + 1));
            }
            i = i + 1;
        }
        assert(self.entries@.skip(n as int) =~= Seq::<(u64, ExtVal)>::empty());
        proof {
            lemma_seq_get_push(self.entries@, (key, val), key);
            assert forall|k: u64| k != key implies seq_get(
                self.entries@.push((key, val)),
                k,
            ) == seq_get(self.entries@, k) by {
                lemma_seq_get_push(self.entries@, (key, val), k);
            }
            lemma_seq_get_none_absent(self.entries@, key);
        }
        let ghost pre = self.entries@;
        self.entries.push((key, val));
        assert forall|p: int, q: int|
            0 <= p < q < self.entries@.len() implies (#[trigger] self.entries@[p]).0 != (
        #[trigger] self.entries@[q]).0 by {
            if q < pre.len() {
                assert(self.entries@[p] == pre[p] && self.entries@[q] == pre[q]);
            } else {
                assert(self.entries@[p] == pre[p] && self.entries@[q] == (key, val));
            }
        }
        None
    }

    /// Removes and returns the value stored under `key`.
    pub fn remove(&mut self, key: u64) -> (r: Option<ExtVal>)
        requires
            old(self).wf(),
        ensures
            final(self).wf(),
            r == old(self).spec_get(key),
            final(self).spec_get(key) is None,
            forall|k: u64| k != key ==> final(self).spec_get(k) == old(self).spec_get(k),
    {
        let n = self.entries.len();
        let mut i: usize = 0;
        assert(self.entries@.skip(0) =~= self.entries@);
        while i < n
            invariant
                old(self).wf(),
                n == self.entries@.len(),
                i <= n,
                old(self) == self,
                seq_get(self.entries@, key) == seq_get(self.entries@.skip(i as int), key),
                forall|j: int| 0 <= j < i ==> (#[trigger] self.entries@[j]).0 != key,
            decreases n - i,
        {
            if self.entries[i].0 == key {
                assert(seq_get(self.entries@.skip(i as int), key) == Some(self.entries@[i as int].1));
                proof {
                    assert forall|k: u64| k != key implies seq_get(
                        self.entries@.remove(i as int),
                        k,
                    ) == seq_get(self.entries@, k) by {
                        lemma_seq_get_remove(self.entries@, i as int, k);
                    }
                    lemma_seq_get_remove_unique(self.entries@, i as int);
                }
                let ghost pre = self.entries@;
                let prev = self.entries.remove(i);
                proof {
                    assert(pre == old(self).entries@);
                    assert forall|p: int, q: int|
                        0 <= p < q < self.entries@.len() implies (#[trigger] self.entries@[p]).0
                        != (#[trigger] self.entries@[q]).0 by {
                        if q < i {
                            assert(self.entries@[p] == pre[p] && self.entries@[q] == pre[q]);
                        } else if p < i {
                            assert(self.entries@[p] == pre[p] && self.entries@[q] == pre[q + 1]);
                        } else {
                            assert(self.entries@[p] == pre[p + 1] && self.entries@[q] == pre[q + 1]);
                        }
                    }
                }
                return Some(prev.1);
            }
            proof {
                assert(self.entries@.skip(i as int).drop_first() =~= self.entries@.skip(i + 1));
            }
            i = i + 1;
        }
        assert(self.entries@.skip(n as int) =~= Seq::<(u64, ExtVal)>::empty());
        None
    }

    /// Removes every entry.
    pub fn clear(&mut self)
        ensures
            final(self).entries@.len() == 0,
            final(self).wf(),
            forall|k: u64| final(self).spec_get(k) is None,
    {
        self.entries.clear();
    }
}

proof fn lemma_seq_get_push(s: Seq<(u64, ExtVal)>, e: (u64, ExtVal), k: u64)
    ensures
        seq_get(s.push(e), k) == if seq_get(s, k) is Some {
            seq_get(s, k)
        } else if e.0 == k {
            Some(e.1)
        } else {
            None
        },
    decreases s.len(),
{
    if s.len() == 0 {
        assert(s.push(e).drop_first() =~= Seq::<(u64, ExtVal)>::empty());
        assert(seq_get(Seq::<(u64, ExtVal)>::empty(), k) is None);
        assert(s.push(e)[0] == e);
    } else {
        assert(s.push(e)[0] == s[0]);
        assert(s.push(e).drop_first() =~= s.drop_first().push(e));
        lemma_seq_get_push(s.drop_first(), e, k);
    }
}

proof fn lemma_seq_get_update(s: Seq<(u64, ExtVal)>, i: int, e: (u64, ExtVal), k: u64)
    requires
        0 <= i < s.len(),
        s[i].0 == e.0,
        forall|j: int| 0 <= j < i ==> (#[trigger] s[j]).0 != e.0,
    ensures
        seq_get(s.update(i, e), k) == if k == e.0 {
            Some(e.1)
        } else {
            seq_get(s, k)
        },
    decreases i,
{
    if i == 0 {
        if k != e.0 {
            assert(s.update(0, e).drop_first() =~= s.drop_first());
        }
    } else {
        assert(s.update(i, e).drop_first() =~= s.drop_first().update(i - 1, e));
        lemma_seq_get_update(s.drop_first(), i - 1, e, k);
    }
}

proof fn lemma_seq_get_remove(s: Seq<(u64, ExtVal)>, i: int, k: u64)
    requires
        0 <= i < s.len(),
        s[i].0 != k,
    ensures
        seq_get(s.remove(i), k) == seq_get(s, k),
    decreases i,
{
    if i == 0 {
        assert(s.remove(0) =~= s.drop_first());
    } else {
        assert(s.remove(i).drop_first() =~= s.drop_first().remove(i - 1));
        lemma_seq_get_remove(s.drop_first(), i - 1, k);
    }
}

proof fn lemma_seq_get_remove_unique(s: Seq<(u64, ExtVal)>, i: int)
    requires
        0 <= i < s.len(),
        forall|p: int, q: int| 0 <= p < q < s.len() ==> (#[trigger] s[p]).0 != (#[trigger] s[q]).0,
    ensures
        seq_get(s.remove(i), s[i].0) is None,
    decreases i,
{
    if i == 0 {
        assert(s.remove(0) =~= s.drop_first());
        lemma_seq_get_none_absent(s.drop_first(), s[0].0);
    } else {
        assert(s.remove(i).drop_first() =~= s.drop_first().remove(i - 1));
        lemma_seq_get_remove_unique(s.drop_first(), i - 1);
    }
}

proof fn lemma_seq_get_none_absent(s: Seq<(u64, ExtVal)>, k: u64)
    ensures
        (seq_get(s, k) is None) <==> (forall|j: int| 0 <= j < s.len() ==> (#[trigger] s[j]).0 != k),
    decreases s.len(),
{
    if s.len() > 0 {
        lemma_seq_get_none_absent(s.drop_first(), k);
        if s[0].0 == k {
            assert(seq_get(s, k) == Some(s[0].1));
            assert(!(forall|j: int| 0 <= j < s.len() ==> (#[trigger] s[j]).0 != k)) by {
                assert(0 <= 0 < s.len() && s[0].0 == k);
            }
        } else {
            assert(seq_get(s, k) == seq_get(s.drop_first(), k));
            if forall|j: int| 0 <= j < s.drop_first().len() ==> (#[trigger] s.drop_first()[j]).0
                != k {
                assert forall|j: int| 0 <= j < s.len() implies (#[trigger] s[j]).0 != k by {
                    if j > 0 {
                        assert(s.drop_first()[j - 1] == s[j]);
                    }
                }
            }
            if forall|j: int| 0 <= j < s.len() ==> (#[trigger] s[j]).0 != k {
                assert forall|j: int| 0 <= j < s.drop_first().len() implies (
                #[trigger] s.drop_first()[j]).0 != k by {
                    assert(s.drop_first()[j] == s[j + 1]);
                }
            }
        }
    }
}

} // verus!
