use vstd::prelude::*;

verus! {

/// The pools of the indexes a process has opened, one per index identifier.
/// It is owned by whoever composes the application and handed to each
/// operation, rather than held as process-wide state.
pub struct PoolRegistry<P> {
    entries: Vec<(String, P)>,
    pools: Ghost<Map<Seq<char>, P>>,
}

impl<P> PoolRegistry<P> {
    /// The pool registered for each identifier.
    pub closed spec fn view(&self) -> Map<Seq<char>, P> {
        self.pools@
    }

    /// Each identifier appears once among the entries, and the entries are
    /// exactly the registered pools.
    pub closed spec fn wf(&self) -> bool {
        &&& forall|i: int, j: int|
            0 <= i < j < self.entries@.len() ==> self.entries@[i].0@ != self.entries@[j].0@
        &&& forall|i: int|
            0 <= i < self.entries@.len() ==> #[trigger] self.pools@.contains_key(
                self.entries@[i].0@,
            ) && self.pools@[self.entries@[i].0@] == self.entries@[i].1
        &&& forall|k: Seq<char>|
            #[trigger] self.pools@.contains_key(k) ==> exists|i: int|
                0 <= i < self.entries@.len() && self.entries@[i].0@ == k
    }

    /// A registry with no pool.
    pub fn new() -> (r: Self)
        ensures
            r.wf(),
            r@ == Map::<Seq<char>, P>::empty(),
    {
        PoolRegistry { entries: Vec::new(), pools: Ghost(Map::empty()) }
    }

    /// The pool registered for `id`, if any.
    pub fn get(&self, id: &String) -> (r: Option<&P>)
        requires
            self.wf(),
        ensures
            r is Some <==> self@.contains_key(id@),
            r matches Some(p) ==> *p == self@[id@],
    {
        let mut i: usize = 0;
        while i < self.entries.len()
            invariant
                self.wf(),
                i <= self.entries@.len(),
                forall|j: int| 0 <= j < i ==> self.entries@[j].0@ != id@,
            decreases self.entries@.len() - i,
        {
            if self.entries[i].0 == *id {
                return Some(&self.entries[i].1);
            }
            i = i + 1;
        }
        proof {
            if self.pools@.contains_key(id@) {
                let j = choose|j: int| 0 <= j < self.entries@.len() && self.entries@[j].0@ == id@;
                assert(self.entries@[j].0@ != id@);
            }
        }
        None
    }

    /// Registers `pool` for `id` unless a pool is registered for it already,
    /// in which case the registry is left as it was: an identifier keeps the
    /// first pool it was given for the registry's whole life.
    pub fn register(&mut self, id: String, pool: P)
        requires
            old(self).wf(),
        ensures
            final(self).wf(),
            old(self)@.contains_key(id@) ==> final(self)@ == old(self)@,
            !old(self)@.contains_key(id@) ==> final(self)@ == old(self)@.insert(id@, pool),
    {
        if self.get(&id).is_some() {
            return;
        }
        let ghost key = id@;
        let ghost old_entries = self.entries@;
        self.entries.push((id, pool));
        self.pools = Ghost(self.pools@.insert(key, pool));
        proof {
            assert forall|k: Seq<char>| #[trigger] self.pools@.contains_key(k) implies exists|i: int|
                0 <= i < self.entries@.len() && self.entries@[i].0@ == k by {
                if k == key {
                    assert(self.entries@[old_entries.len() as int].0@ == k);
                } else {
                    let i = choose|i: int| 0 <= i < old_entries.len() && old_entries[i].0@ == k;
                    assert(self.entries@[i].0@ == k);
                }
            }
        }
    }
}

} // verus!
