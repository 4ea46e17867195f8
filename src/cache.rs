use vstd::prelude::*;

verus! {

/// Frame lists by sprite-set name: filled when a mode is entered, then read
/// by every spawn that needs the frames of a set.
pub struct FrameCache<H> {
    pub sets: Vec<(String, Vec<H>)>,
}

/// The position of the first set named `name`.
pub open spec fn first_index<H>(sets: Seq<(String, Vec<H>)>, name: Seq<char>) -> Option<int>
    decreases sets.len(),
{
    if sets.len() == 0 {
        None
    } else {
        match first_index(sets.drop_last(), name) {
            Some(i) => Some(i),
            None => if sets.last().0@ == name {
                Some(sets.len() - 1)
            } else {
                None
            },
        }
    }
}

proof fn lemma_first_index<H>(sets: Seq<(String, Vec<H>)>, name: Seq<char>)
    ensures
        match first_index(sets, name) {
            Some(i) => {
                &&& 0 <= i < sets.len()
                &&& sets[i].0@ == name
                &&& forall|k: int| 0 <= k < i ==> (#[trigger] sets[k]).0@ != name
            },
            None => forall|k: int| 0 <= k < sets.len() ==> (#[trigger] sets[k]).0@ != name,
        },
    decreases sets.len(),
{
    if sets.len() > 0 {
        lemma_first_index(sets.drop_last(), name);
        assert forall|k: int| 0 <= k < sets.len() - 1 implies sets.drop_last()[k] == #[trigger] sets[k] by {}
    }
}

/// Two lists whose names agree position by position find a name at the same
/// position.
proof fn lemma_first_index_by_names<H>(a: Seq<(String, Vec<H>)>, b: Seq<(String, Vec<H>)>, name: Seq<char>)
    requires
        a.len() == b.len(),
        forall|k: int| 0 <= k < a.len() ==> (#[trigger] a[k]).0@ == b[k].0@,
    ensures
        first_index(a, name) == first_index(b, name),
    decreases a.len(),
{
    if a.len() > 0 {
        assert forall|k: int| 0 <= k < a.len() - 1 implies (#[trigger] a.drop_last()[k]).0@
            == b.drop_last()[k].0@ by {
            assert(a.drop_last()[k] == a[k]);
            assert(b.drop_last()[k] == b[k]);
        }
        lemma_first_index_by_names(a.drop_last(), b.drop_last(), name);
    }
}

impl<H> FrameCache<H> {
    /// The frames stored under `name`, if any.
    pub open spec fn frames_of(&self, name: Seq<char>) -> Option<Seq<H>> {
        match first_index(self.sets@, name) {
            Some(i) => Some(self.sets@[i].1@),
            None => None,
        }
    }

    /// A cache with no sets.
    pub fn new() -> (r: FrameCache<H>)
        ensures
            forall|name: Seq<char>| #[trigger] r.frames_of(name).is_none(),
    {
        FrameCache { sets: Vec::new() }
    }

    /// Stores `frames` under `name`, in place of any frames stored there
    /// before.
    pub fn insert(&mut self, name: String, frames: Vec<H>)
        ensures
            forall|n: Seq<char>| #[trigger]
                final(self).frames_of(n) == if n == name@ {
                    Some(frames@)
                } else {
                    old(self).frames_of(n)
                },
    {
        let ghost before = self.sets@;
        let ghost key = name@;
        let ghost stored = frames@;
        proof {
            lemma_first_index(before, key);
        }
        let n = self.sets.len();
        let mut i: usize = 0;
        while i < n
            invariant
                n == self.sets@.len(),
                self.sets@ == before,
                before == old(self).sets@,
                key == name@,
                stored == frames@,
                i <= n,
                forall|k: int| 0 <= k < i ==> (#[trigger] before[k]).0@ != key,
            decreases n - i,
        {
            if self.sets[i].0 == name {
                proof {
                    lemma_first_index(before, key);
                }
                let ghost found = i as int;
                assert(first_index(before, key) == Some(found)) by {
                    if first_index(before, key) != Some(found) {
                        match first_index(before, key) {
                            Some(j) => {
                                if j < found {
                                    assert(before[j].0@ != key);
                                } else {
                                    assert(before[found].0@ != key);
                                }
                            },
                            None => {
                                assert(before[found].0@ != key);
                            },
                        }
                    }
                };
                self.sets.set(i, (name, frames));
                proof {
                    let after = self.sets@;
                    assert forall|k: int| 0 <= k < after.len() implies (#[trigger] after[k]).0@
                        == before[k].0@ by {}
                    assert forall|m: Seq<char>| #[trigger]
                        self.frames_of(m) == if m == key {
                            Some(stored)
                        } else {
                            old(self).frames_of(m)
                        } by {
                        lemma_first_index_by_names(after, before, m);
                        lemma_first_index(before, m);
                    }
                }
                return;
            }
            i = i + 1;
        }
        self.sets.push((name, frames));
        proof {
            let after = self.sets@;
            assert(after.drop_last() == before);
            assert forall|m: Seq<char>| #[trigger]
                self.frames_of(m) == if m == key {
                    Some(stored)
                } else {
                    old(self).frames_of(m)
                } by {
                lemma_first_index(before, m);
                if m == key {
                    assert(first_index(before, m).is_none());
                }
            }
        }
    }

    /// The frames stored under `name`, if any.
    pub fn get(&self, name: &String) -> (r: Option<&Vec<H>>)
        ensures
            match r {
                Some(v) => self.frames_of(name@) == Some(v@),
                None => self.frames_of(name@).is_none(),
            },
    {
        proof {
            lemma_first_index(self.sets@, name@);
        }
        let n = self.sets.len();
        let mut i: usize = 0;
        while i < n
            invariant
                n == self.sets@.len(),
                i <= n,
                forall|k: int| 0 <= k < i ==> (#[trigger] self.sets@[k]).0@ != name@,
                match first_index(self.sets@, name@) {
                    Some(j) => {
                        &&& 0 <= j < self.sets@.len()
                        &&& self.sets@[j].0@ == name@
                        &&& forall|k: int| 0 <= k < j ==> (#[trigger] self.sets@[k]).0@ != name@
                    },
                    None => forall|k: int|
                        0 <= k < self.sets@.len() ==> (#[trigger] self.sets@[k]).0@ != name@,
                },
            decreases n - i,
        {
            if self.sets[i].0 == *name {
                let ghost found = i as int;
                assert(first_index(self.sets@, name@) == Some(found)) by {
                    match first_index(self.sets@, name@) {
                        Some(j) => {
                            if j < found {
                                assert(self.sets@[j].0@ != name@);
                            } else if j > found {
                                assert(self.sets@[found].0@ != name@);
                            }
                        },
                        None => {
                            assert(self.sets@[found].0@ != name@);
                        },
                    }
                };
                return Some(&self.sets[i].1);
            }
            i = i + 1;
        }
        None
    }
}

} // verus!
