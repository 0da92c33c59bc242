//! An in-memory store of named counters, with compare-and-set updates; it
//! holds checkpoints where no durable store is wanted (benchmarks, tests).
use vstd::prelude::*;

verus! {

broadcast use vstd::seq_lib::seq_to_set_is_finite;

pub struct MemoryMutableCounters {
    counters: Vec<(String, i64)>,
}

impl View for MemoryMutableCounters {
    type V = Map<Seq<char>, i64>;

    closed spec fn view(&self) -> Map<Seq<char>, i64> {
        Map::new(
            |k: Seq<char>| exists|i: int| 0 <= i < self.counters@.len() && self.counters@[i].0@ == k,
            |k: Seq<char>|
                self.counters@[choose|i: int|
                    0 <= i < self.counters@.len() && self.counters@[i].0@ == k].1,
        )
    }
}

impl MemoryMutableCounters {
    /// Names are unique.
    pub closed spec fn wf(&self) -> bool {
        forall|i: int, j: int|
            0 <= i < j < self.counters@.len() ==> self.counters@[i].0@ != self.counters@[j].0@
    }

    pub fn new() -> (r: Self)
        ensures
            r.wf(),
            r@ == Map::<Seq<char>, i64>::empty(),
    {
        let r = MemoryMutableCounters { counters: Vec::new() };
        assert(r@ =~= Map::<Seq<char>, i64>::empty());
        r
    }

    /// The position of the counter called `name`.
    fn find(&self, name: &String) -> (r: Option<usize>)
        requires
            self.wf(),
        ensures
            r is None ==> !self@.contains_key(name@),
            r is Some ==> r.unwrap() < self.counters@.len() && self.counters@[r.unwrap() as int].0@
                == name@ && self@.contains_key(name@) && self@[name@] == self.counters@[r.unwrap() as int].1,
    {
        let mut i: usize = 0;
        while i < self.counters.len()
            invariant
                self.wf(),
                i <= self.counters@.len(),
                forall|k: int| 0 <= k < i ==> self.counters@[k].0@ != name@,
            decreases self.counters.len() - i,
        {
            if self.counters[i].0.eq(name) {
                proof {
                    assert(self.counters@[i as int].0@ == name@);
                    let c = choose|k: int|
                        0 <= k < self.counters@.len() && self.counters@[k].0@ == name@;
                    assert(0 <= c < self.counters@.len() && self.counters@[c].0@ == name@);
                    if c != i as int {
                        if c < i {
                        } else {
                            assert(self.counters@[i as int].0@ != self.counters@[c].0@);
                        }
                    }
                }
                return Some(i);
            }
            i = i + 1;
        }
        None
    }

    /// The value of the counter called `name`, if it was ever set.
    pub fn get_counter(&self, name: &str) -> (r: Option<i64>)
        requires
            self.wf(),
        ensures
            r == (if self@.contains_key(name@) {
                Some(self@[name@])
            } else {
                None
            }),
    {
        let key = name.to_owned();
        match self.find(&key) {
            Some(i) => Some(self.counters[i].1),
            None => None,
        }
    }

    /// Same as `get_counter`: this store is never stale.
    pub fn get_maybe_stale_counter(&self, name: &str) -> (r: Option<i64>)
        requires
            self.wf(),
        ensures
            r == (if self@.contains_key(name@) {
                Some(self@[name@])
            } else {
                None
            }),
    {
        self.get_counter(name)
    }

    /// Sets the counter called `name` to `value`. With `prev_value` given,
    /// only when the counter currently holds exactly that value
    /// (compare-and-set); returns whether the counter was set.
    pub fn set_counter(&mut self, name: &str, value: i64, prev_value: Option<i64>) -> (r: bool)
        requires
            old(self).wf(),
        ensures
            final(self).wf(),
            r == match prev_value {
                Some(p) => old(self)@.contains_key(name@) && old(self)@[name@] == p,
                None => true,
            },
            r ==> final(self)@ == old(self)@.insert(name@, value),
            !r ==> final(self)@ == old(self)@,
    {
        let key = name.to_owned();
        let found = self.find(&key);
        match prev_value {
            Some(p) => {
                match found {
                    Some(i) => {
                        if self.counters[i].1 != p {
                            return false;
                        }
                    },
                    None => {
                        return false;
                    },
                }
            },
            None => {},
        }
        match found {
            Some(i) => {
                self.counters.set(i, (key, value));
                proof {
                    let o = old(self).counters@;
                    let c = self.counters@;
                    assert forall|a: int, b: int| 0 <= a < b < c.len() implies c[a].0@ != c[b].0@ by {
                        if a != i as int && b != i as int {
                            assert(c[a] == o[a] && c[b] == o[b]);
                        } else if a == i as int {
                            assert(c[b] == o[b]);
                            assert(o[a].0@ != o[b].0@);
                        } else {
                            assert(c[a] == o[a]);
                            assert(o[a].0@ != o[b].0@);
                        }
                    }
                    assert forall|k: Seq<char>| #[trigger] self@.contains_key(k) == old(self)@.insert(name@, value).contains_key(k) by {
                        if k != name@ {
                            if old(self)@.contains_key(k) {
                                let w = choose|j: int| 0 <= j < o.len() && o[j].0@ == k;
                                assert(c[w].0@ == k);
                            }
                            if self@.contains_key(k) {
                                let w = choose|j: int| 0 <= j < c.len() && c[j].0@ == k;
                                assert(w != i as int);
                                assert(o[w].0@ == k);
                            }
                        } else {
                            assert(c[i as int].0@ == k);
                        }
                    }
                    assert forall|k: Seq<char>| #[trigger] self@.contains_key(k) implies self@[k] == old(self)@.insert(name@, value)[k] by {
                        let w = choose|j: int| 0 <= j < c.len() && c[j].0@ == k;
                        if k == name@ {
                            assert(w == i as int) by {
                                if w != i as int {
                                    if w < i as int {
                                        assert(c[w].0@ != c[i as int].0@);
                                    } else {
                                        assert(c[i as int].0@ != c[w].0@);
                                    }
                                }
                            }
                        } else {
                            assert(w != i as int);
                            let w2 = choose|j: int| 0 <= j < o.len() && o[j].0@ == k;
                            assert(o[w].0@ == k);
                            assert(w2 == w) by {
                                if w2 != w {
                                    if w2 < w {
                                        assert(o[w2].0@ != o[w].0@);
                                    } else {
                                        assert(o[w].0@ != o[w2].0@);
                                    }
                                }
                            }
                        }
                    }
                    assert(self@ =~= old(self)@.insert(name@, value));
                }
            },
            None => {
                self.counters.push((key, value));
                proof {
                    let o = old(self).counters@;
                    let c = self.counters@;
                    let n = o.len() as int;
                    assert forall|a: int, b: int| 0 <= a < b < c.len() implies c[a].0@ != c[b].0@ by {
                        assert(c[a] == o[a]);
                        if b < n {
                            assert(c[b] == o[b]);
                        }
                    }
                    assert forall|k: Seq<char>| #[trigger] self@.contains_key(k) == old(self)@.insert(name@, value).contains_key(k) by {
                        if old(self)@.contains_key(k) {
                            let w = choose|j: int| 0 <= j < o.len() && o[j].0@ == k;
                            assert(c[w].0@ == k);
                        }
                        if self@.contains_key(k) && k != name@ {
                            let w = choose|j: int| 0 <= j < c.len() && c[j].0@ == k;
                            assert(w != n);
                            assert(o[w].0@ == k);
                        }
                        if k == name@ {
                            assert(c[n].0@ == k);
                        }
                    }
                    assert forall|k: Seq<char>| #[trigger] self@.contains_key(k) implies self@[k] == old(self)@.insert(name@, value)[k] by {
                        let w = choose|j: int| 0 <= j < c.len() && c[j].0@ == k;
                        if k == name@ {
                            assert(w == n);
                        } else {
                            assert(w != n);
                            let w2 = choose|j: int| 0 <= j < o.len() && o[j].0@ == k;
                            assert(o[w].0@ == k);
                            assert(w2 == w) by {
                                if w2 != w {
                                    if w2 < w {
                                        assert(o[w2].0@ != o[w].0@);
                                    } else {
                                        assert(o[w].0@ != o[w2].0@);
                                    }
                                }
                            }
                        }
                    }
                    assert(self@ =~= old(self)@.insert(name@, value));
                }
            },
        }
        true
    }

    /// Every counter with its value, once each.
    pub fn get_all_counters(&self) -> (r: Vec<(String, i64)>)
        requires
            self.wf(),
        ensures
            self@.dom().finite(),
            r@.len() == self@.dom().len(),
            forall|i: int, j: int| 0 <= i < j < r@.len() ==> r@[i].0@ != r@[j].0@,
            forall|i: int|
                0 <= i < r@.len() ==> self@.contains_key(r@[i].0@) && self@[r@[i].0@] == r@[i].1,
            forall|k: Seq<char>|
                self@.contains_key(k) ==> exists|i: int| 0 <= i < r@.len() && r@[i].0@ == k,
    {
        let mut out: Vec<(String, i64)> = Vec::new();
        let mut i: usize = 0;
        while i < self.counters.len()
            invariant
                i <= self.counters@.len(),
                out@.len() == i,
                forall|k: int| 0 <= k < i ==> out@[k].0@ == self.counters@[k].0@ && out@[k].1
                    == self.counters@[k].1,
            decreases self.counters.len() - i,
        {
            let name = self.counters[i].0.clone();
            out.push((name, self.counters[i].1));
            i = i + 1;
        }
        proof {
            let c = self.counters@;
            assert forall|a: int| 0 <= a < out@.len() implies self@.contains_key(out@[a].0@)
                && self@[out@[a].0@] == out@[a].1 by {
                let k = out@[a].0@;
                assert(c[a].0@ == k);
                let w = choose|j: int| 0 <= j < c.len() && c[j].0@ == k;
                assert(w == a) by {
                    if w != a {
                        if w < a {
                            assert(c[w].0@ != c[a].0@);
                        } else {
                            assert(c[a].0@ != c[w].0@);
                        }
                    }
                }
            }
            assert forall|k: Seq<char>| self@.contains_key(k) implies exists|a: int|
                0 <= a < out@.len() && out@[a].0@ == k by {
                let w = choose|j: int| 0 <= j < c.len() && c[j].0@ == k;
                assert(out@[w].0@ == k);
            }
            let keys = c.map_values(|p: (String, i64)| p.0@);
            assert(keys.no_duplicates()) by {
                assert forall|a: int, b: int|
                    0 <= a < keys.len() && 0 <= b < keys.len() && a != b implies keys[a]
                    != keys[b] by {
                    if a < b {
                        assert(c[a].0@ != c[b].0@);
                    } else {
                        assert(c[b].0@ != c[a].0@);
                    }
                }
            }
            keys.unique_seq_to_set();
            assert forall|k: Seq<char>| #[trigger] self@.dom().contains(k) == keys.to_set().contains(k) by {
                if self@.dom().contains(k) {
                    let w = choose|j: int| 0 <= j < c.len() && c[j].0@ == k;
                    assert(keys[w] == k);
                }
                if keys.to_set().contains(k) {
                    let w = choose|j: int| 0 <= j < keys.len() && keys[j] == k;
                    assert(c[w].0@ == k);
                }
            }
            assert(self@.dom() =~= keys.to_set());
        }
        out
    }
}

} // verus!
