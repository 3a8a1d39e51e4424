//! The dedup store: the set of quest ids seen so far, which only grows.
use vstd::prelude::*;

verus! {

/// The contents of each string, in order.
pub open spec fn string_views(v: Seq<String>) -> Seq<Seq<char>> {
    v.map_values(|s: String| s@)
}

/// A finite set of quest ids, kept as a list without repeats.
pub struct IdSet {
    ids: Vec<String>,
}

impl IdSet {
    /// The ids, in the order they were first inserted.
    pub closed spec fn id_seq(&self) -> Seq<Seq<char>> {
        string_views(self.ids@)
    }

    /// The list holds no id twice.
    pub closed spec fn wf(&self) -> bool {
        self.id_seq().no_duplicates()
    }

    /// An empty set.
    pub fn new() -> (r: IdSet)
        ensures
            r.wf(),
            r@ == Set::<Seq<char>>::empty(),
    {
        let r = IdSet { ids: Vec::new() };
        proof {
            assert(r.id_seq() =~= Seq::<Seq<char>>::empty());
        }
        r
    }

    /// Whether `id` is in the set.
    pub fn contains(&self, id: &String) -> (r: bool)
        ensures
            r == self@.contains(id@),
    {
        let mut i: usize = 0;
        while i < self.ids.len()
            invariant
                0 <= i <= self.ids.len(),
                forall|j: int| 0 <= j < i ==> self.ids@[j]@ != id@,
            decreases self.ids.len() - i,
        {
            if self.ids[i] == *id {
                proof {
                    assert(self.id_seq()[i as int] == id@);
                }
                return true;
            }
            i = i + 1;
        }
        proof {
            if self.id_seq().contains(id@) {
                let j = choose|j: int| 0 <= j < self.id_seq().len() && self.id_seq()[j] == id@;
                assert(self.ids@[j]@ == id@);
            }
        }
        false
    }

    /// Adds `id`; a no-op where it is already present.
    pub fn insert(&mut self, id: String)
        requires
            old(self).wf(),
        ensures
            final(self).wf(),
            final(self)@ == old(self)@.insert(id@),
    {
        if !self.contains(&id) {
            let ghost before = self.id_seq();
            self.ids.push(id);
            proof {
                assert(self.id_seq() =~= before.push(id@));
                assert(!before.contains(id@));
                assert(self.id_seq().no_duplicates()) by {
                    assert forall|a: int, b: int|
                        0 <= a < self.id_seq().len() && 0 <= b < self.id_seq().len() && a != b
                        implies self.id_seq()[a] != self.id_seq()[b] by {
                        if a < before.len() && b < before.len() {
                        } else if a == before.len() {
                            assert(before[b] == self.id_seq()[b]);
                        } else {
                            assert(before[a] == self.id_seq()[a]);
                        }
                    }
                }
                assert(before.push(id@) =~= before + seq![id@]);
                Seq::lemma_to_set_insert_commutes(before, id@);
                assert(self@ =~= before.to_set().insert(id@));
            }
        } else {
            proof {
                assert(old(self)@.insert(id@) =~= old(self)@);
            }
        }
    }

    /// The number of ids in the set.
    pub fn len(&self) -> (r: usize)
        requires
            self.wf(),
        ensures
            r == self@.len(),
            self@.finite(),
    {
        proof {
            self.id_seq().unique_seq_to_set();
            self.id_seq().lemma_cardinality_of_set();
        }
        self.ids.len()
    }

    /// A copy of the set, independent of later changes to `self`.
    pub fn snapshot(&self) -> (r: IdSet)
        requires
            self.wf(),
        ensures
            r.wf(),
            r@ == self@,
    {
        let mut copy: Vec<String> = Vec::new();
        let mut i: usize = 0;
        while i < self.ids.len()
            invariant
                0 <= i <= self.ids.len(),
                copy.len() == i,
                forall|j: int| 0 <= j < i ==> copy@[j]@ == self.ids@[j]@,
            decreases self.ids.len() - i,
        {
            copy.push(self.ids[i].clone());
            i = i + 1;
        }
        let r = IdSet { ids: copy };
        proof {
            assert(r.id_seq() =~= self.id_seq());
        }
        r
    }
}

impl View for IdSet {
    type V = Set<Seq<char>>;

    closed spec fn view(&self) -> Set<Seq<char>> {
        self.id_seq().to_set()
    }
}

/// The ids of `ids`, as a set.
pub open spec fn id_set_of(ids: Seq<String>) -> Set<Seq<char>> {
    string_views(ids).to_set()
}

/// The process-wide dedup store. Ids are added, never removed.
pub struct DedupStore {
    seen: IdSet,
}

impl View for DedupStore {
    type V = Set<Seq<char>>;

    closed spec fn view(&self) -> Set<Seq<char>> {
        self.seen@
    }
}

impl DedupStore {
    /// The underlying set is well formed.
    pub closed spec fn wf(&self) -> bool {
        self.seen.wf()
    }

    /// An empty store, as at process start.
    pub fn new() -> (r: DedupStore)
        ensures
            r.wf(),
            r@ == Set::<Seq<char>>::empty(),
    {
        DedupStore { seen: IdSet::new() }
    }

    /// A point-in-time copy of every id known.
    pub fn snapshot(&self) -> (r: IdSet)
        requires
            self.wf(),
        ensures
            r.wf(),
            r@ == self@,
    {
        self.seen.snapshot()
    }

    /// Whether `id` has been seen.
    pub fn contains(&self, id: &String) -> (r: bool)
        ensures
            r == self@.contains(id@),
    {
        self.seen.contains(id)
    }

    /// The number of ids seen.
    pub fn len(&self) -> (r: usize)
        requires
            self.wf(),
        ensures
            r == self@.len(),
            self@.finite(),
    {
        self.seen.len()
    }

    /// Adds every id of `ids`; ids already present are left as they are.
    pub fn insert_all(&mut self, ids: Vec<String>)
        requires
            old(self).wf(),
        ensures
            final(self).wf(),
            final(self)@ == old(self)@.union(id_set_of(ids@)),
    {
        let ghost all = ids@;
        for id in it: ids
            invariant
                it.seq() == all,
                self.wf(),
                self@ == old(self)@.union(id_set_of(all.take(it.index() as int))),
        {
            let ghost i = it.index() as int;
            self.seen.insert(id);
            proof {
                assert(string_views(all.take(i + 1)) =~= string_views(all.take(i)) + seq![all[i]@]);
                Seq::lemma_to_set_insert_commutes(string_views(all.take(i)), all[i]@);
                assert(self@ =~= old(self)@.union(id_set_of(all.take(i + 1))));
            }
        }
        proof {
            assert(all.take(all.len() as int) == all);
        }
    }
}

} // verus!
