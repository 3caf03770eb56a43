use vstd::prelude::*;

verus! {

/// A small string-keyed table: each key appears at most once, and the table
/// is seen as a finite map from key text to value.
pub struct Table<V> {
    entries: Vec<(String, V)>,
    contents: Ghost<Map<Seq<char>, V>>,
}

impl<V> Table<V> {
    pub closed spec fn view(&self) -> Map<Seq<char>, V> {
        self.contents@
    }

    pub closed spec fn wf(&self) -> bool {
        &&& forall|i: int, j: int|
            0 <= i < j < self.entries@.len() ==> self.entries@[i].0@ != self.entries@[j].0@
        &&& forall|i: int|
            0 <= i < self.entries@.len() ==> #[trigger] self.contents@.contains_key(
                self.entries@[i].0@,
            ) && self.contents@[self.entries@[i].0@] == self.entries@[i].1
        &&& forall|k: Seq<char>|
            #[trigger] self.contents@.contains_key(k) ==> exists|i: int|
                0 <= i < self.entries@.len() && #[trigger] self.entries@[i].0@ == k
    }

    pub fn new() -> (t: Self)
        ensures
            t.wf(),
            t@ == Map::<Seq<char>, V>::empty(),
    {
        Table { entries: Vec::new(), contents: Ghost(Map::empty()) }
    }

    fn position(&self, key: &String) -> (r: Option<usize>)
        requires
            self.wf(),
        ensures
            match r {
                Some(i) => i < self.entries@.len() && self.entries@[i as int].0@ == key@,
                None => !self@.contains_key(key@),
            },
    {
        let mut i: usize = 0;
        while i < self.entries.len()
            invariant
                self.wf(),
                i <= self.entries@.len(),
                forall|j: int| 0 <= j < i ==> self.entries@[j].0@ != key@,
            decreases self.entries@.len() - i,
        {
            if self.entries[i].0 == *key {
                return Some(i);
            }
            i = i + 1;
        }
        None
    }

    pub fn contains_key(&self, key: &String) -> (r: bool)
        requires
            self.wf(),
        ensures
            r == self@.contains_key(key@),
    {
        match self.position(key) {
            Some(i) => {
                proof {
                    assert(self.contents@.contains_key(self.entries@[i as int].0@));
                }
                true
            },
            None => false,
        }
    }

    pub fn get(&self, key: &String) -> (r: Option<&V>)
        requires
            self.wf(),
        ensures
            match r {
                Some(v) => self@.contains_key(key@) && *v == self@[key@],
                None => !self@.contains_key(key@),
            },
    {
        match self.position(key) {
            Some(i) => {
                proof {
                    assert(self.contents@.contains_key(self.entries@[i as int].0@));
                }
                Some(&self.entries[i].1)
            },
            None => None,
        }
    }

    /// Takes the entry for `key` out of the table, if there is one.
    pub fn remove(&mut self, key: &String) -> (r: Option<V>)
        requires
            old(self).wf(),
        ensures
            final(self).wf(),
            final(self)@ == old(self)@.remove(key@),
            r == (if old(self)@.contains_key(key@) {
                Some(old(self)@[key@])
            } else {
                None
            }),
    {
        match self.position(key) {
            Some(i) => {
                proof {
                    assert(self.contents@.contains_key(self.entries@[i as int].0@));
                }
                let ghost pre = self.entries@;
                let (_, v) = self.entries.remove(i);
                self.contents = Ghost(self.contents@.remove(key@));
                proof {
                    let post = self.entries@;
                    assert forall|a: int, b: int|
                        0 <= a < b < post.len() implies post[a].0@ != post[b].0@ by {
                        let a0 = if a < i { a } else { a + 1 };
                        let b0 = if b < i { b } else { b + 1 };
                        assert(post[a] == pre[a0]);
                        assert(post[b] == pre[b0]);
                    }
                    assert forall|a: int|
                        0 <= a < post.len() implies #[trigger] self.contents@.contains_key(
                            post[a].0@,
                        ) && self.contents@[post[a].0@] == post[a].1 by {
                        let a0 = if a < i { a } else { a + 1 };
                        assert(post[a] == pre[a0]);
                        assert(old(self).contents@.contains_key(pre[a0].0@));
                    }
                    assert forall|k: Seq<char>|
                        #[trigger] self.contents@.contains_key(k) implies exists|a: int|
                            0 <= a < post.len() && #[trigger] post[a].0@ == k by {
                        assert(old(self).contents@.contains_key(k));
                        let a0 = choose|a0: int| 0 <= a0 < pre.len() && #[trigger] pre[a0].0@ == k;
                        assert(a0 != i);
                        let a = if a0 < i { a0 } else { a0 - 1 };
                        assert(post[a] == pre[a0]);
                    }
                }
                Some(v)
            },
            None => {
                proof {
                    assert(self.contents@.remove(key@) =~= self.contents@);
                }
                None
            },
        }
    }

    /// Sets the value of `key`, replacing any value it had.
    pub fn insert(&mut self, key: String, value: V)
        requires
            old(self).wf(),
        ensures
            final(self).wf(),
            final(self)@ == old(self)@.insert(key@, value),
    {
        let _ = self.remove(&key);
        let ghost pre = self.entries@;
        let ghost k = key@;
        self.entries.push((key, value));
        self.contents = Ghost(self.contents@.insert(k, value));
        proof {
            let post = self.entries@;
            assert(post[pre.len() as int].0@ == k);
            assert(!old(self)@.remove(k).contains_key(k));
            assert forall|a: int, b: int|
                0 <= a < b < post.len() implies post[a].0@ != post[b].0@ by {
                if b == pre.len() {
                    assert(post[a] == pre[a]);
                    assert(old(self)@.remove(k).contains_key(pre[a].0@));
                } else {
                    assert(post[a] == pre[a]);
                    assert(post[b] == pre[b]);
                }
            }
            assert forall|a: int|
                0 <= a < post.len() implies #[trigger] self.contents@.contains_key(post[a].0@)
                && self.contents@[post[a].0@] == post[a].1 by {
                if a < pre.len() {
                    assert(post[a] == pre[a]);
                    assert(old(self)@.remove(k).contains_key(pre[a].0@));
                }
            }
            assert forall|kk: Seq<char>|
                #[trigger] self.contents@.contains_key(kk) implies exists|a: int|
                    0 <= a < post.len() && #[trigger] post[a].0@ == kk by {
                if kk == k {
                    assert(post[pre.len() as int].0@ == kk);
                } else {
                    assert(old(self)@.remove(k).contains_key(kk));
                    let a = choose|a: int| 0 <= a < pre.len() && #[trigger] pre[a].0@ == kk;
                    assert(post[a] == pre[a]);
                }
            }
        }
    }
}

} // verus!
