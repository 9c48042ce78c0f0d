//! The persistent claim map: claim bytes to ownership record.

use vstd::prelude::*;

verus! {

/// An account or actor, compared by equality only.
pub type AccountId = u64;

/// A logical time (block height) handed in by the host's clock.
pub type BlockNumber = u64;

/// Who owns a claim, and since when.
#[derive(Clone, Copy, Debug, PartialEq, Eq, Structural)]
pub struct OwnershipRecord {
    pub owner: AccountId,
    pub registered_at: BlockNumber,
}

/// The abstract registry: claim bytes to ownership record.
pub type Registry = Map<Seq<u8>, OwnershipRecord>;

/// Compares two byte strings element by element.
pub fn bytes_equal(a: &Vec<u8>, b: &Vec<u8>) -> (r: bool)
    ensures
        r == (a@ == b@),
{
    if a.len() != b.len() {
        return false;
    }
    let mut i: usize = 0;
    while i < a.len()
        invariant
            a@.len() == b@.len(),
            0 <= i <= a@.len(),
            forall|j: int| 0 <= j < i ==> a@[j] == b@[j],
        decreases a@.len() - i,
    {
        if a[i] != b[i] {
            return false;
        }
        i = i + 1;
    }
    assert(a@ =~= b@);
    true
}

/// Storage of the claim map, keyed by exact byte equality.
///
/// Entries are held in a vector whose keys are pairwise distinct; the ghost
/// map is the abstract content.
pub struct Proofs {
    entries: Vec<(Vec<u8>, OwnershipRecord)>,
    contents: Ghost<Registry>,
}

impl View for Proofs {
    type V = Registry;

    closed spec fn view(&self) -> Registry {
        self.contents@
    }
}

impl Proofs {
    /// The entries and the abstract map agree, and no key occurs twice.
    pub closed spec fn wf(&self) -> bool {
        &&& forall|i: int|
            0 <= i < self.entries@.len() ==> {
                &&& #[trigger] self.contents@.contains_key(self.entries@[i].0@)
                &&& self.contents@[self.entries@[i].0@] == self.entries@[i].1
            }
        &&& forall|i: int, j: int|
            0 <= i < self.entries@.len() && 0 <= j < self.entries@.len() && i != j
                ==> #[trigger] self.entries@[i].0@ != #[trigger] self.entries@[j].0@
        &&& forall|k: Seq<u8>|
            #[trigger] self.contents@.contains_key(k) ==> exists|i: int|
                0 <= i < self.entries@.len() && #[trigger] self.entries@[i].0@ == k
    }

    /// An empty map.
    pub fn new() -> (r: Proofs)
        ensures
            r.wf(),
            r@ == Map::<Seq<u8>, OwnershipRecord>::empty(),
    {
        Proofs { entries: Vec::new(), contents: Ghost(Map::empty()) }
    }

    /// The position of `key` among the entries, if it is there.
    fn find(&self, key: &Vec<u8>) -> (r: Option<usize>)
        requires
            self.wf(),
        ensures
            match r {
                Some(i) => i < self.entries@.len() && self.entries@[i as int].0@ == key@,
                None => !self@.contains_key(key@),
            },
    {
        let mut i: usize = 0;
        while i < self.entries.len()
            invariant
                self.wf(),
                0 <= i <= self.entries@.len(),
                forall|j: int| 0 <= j < i ==> self.entries@[j].0@ != key@,
            decreases self.entries@.len() - i,
        {
            if bytes_equal(&self.entries[i].0, key) {
                return Some(i);
            }
            i = i + 1;
        }
        None
    }

    /// Whether `key` has a record.
    pub fn contains_key(&self, key: &Vec<u8>) -> (r: bool)
        requires
            self.wf(),
        ensures
            r == self@.contains_key(key@),
    {
        match self.find(key) {
            Some(i) => {
                assert(self.contents@.contains_key(self.entries@[i as int].0@));
                true
            },
            None => false,
        }
    }

    /// The record stored under `key`, if any.
    pub fn get(&self, key: &Vec<u8>) -> (r: Option<OwnershipRecord>)
        requires
            self.wf(),
        ensures
            match r {
                Some(v) => self@.contains_key(key@) && self@[key@] == v,
                None => !self@.contains_key(key@),
            },
    {
        match self.find(key) {
            Some(i) => {
                assert(self.contents@.contains_key(self.entries@[i as int].0@));
                Some(self.entries[i].1)
            },
            None => None,
        }
    }

    /// Stores `value` under `key`, replacing any earlier record.
    pub fn insert(&mut self, key: Vec<u8>, value: OwnershipRecord)
        requires
            old(self).wf(),
        ensures
            final(self).wf(),
            final(self)@ == old(self)@.insert(key@, value),
    {
        let ghost k = key@;
        let ghost es = self.entries@;
        let ghost m = self.contents@;
        match self.find(&key) {
            Some(i) => {
                self.entries.set(i, (key, value));
                self.contents = Ghost(m.insert(k, value));
                assert forall|j: int| 0 <= j < self.entries@.len() implies {
                    &&& #[trigger] self.contents@.contains_key(self.entries@[j].0@)
                    &&& self.contents@[self.entries@[j].0@] == self.entries@[j].1
                } by {
                    if j != i {
                        assert(es[j].0@ != es[i as int].0@);
                        assert(m.contains_key(es[j].0@));
                    }
                }
                assert forall|q: Seq<u8>| #[trigger] self.contents@.contains_key(q) implies exists|j: int|
                    0 <= j < self.entries@.len() && #[trigger] self.entries@[j].0@ == q by {
                    if q == k {
                        assert(self.entries@[i as int].0@ == q);
                    } else {
                        let j = choose|j: int| 0 <= j < es.len() && #[trigger] es[j].0@ == q;
                        assert(j != i);
                        assert(self.entries@[j].0@ == q);
                    }
                }
            },
            None => {
                self.entries.push((key, value));
                self.contents = Ghost(m.insert(k, value));
                let ghost n = es.len() as int;
                assert forall|j: int| 0 <= j < n implies #[trigger] es[j].0@ != k by {
                    assert(m.contains_key(es[j].0@));
                }
                assert forall|j: int| 0 <= j < self.entries@.len() implies {
                    &&& #[trigger] self.contents@.contains_key(self.entries@[j].0@)
                    &&& self.contents@[self.entries@[j].0@] == self.entries@[j].1
                } by {
                    if j < n {
                        assert(self.entries@[j] == es[j]);
                        assert(m.contains_key(es[j].0@));
                    }
                }
                assert forall|a: int, b: int|
                    0 <= a < self.entries@.len() && 0 <= b < self.entries@.len() && a != b
                    implies #[trigger] self.entries@[a].0@ != #[trigger] self.entries@[b].0@ by {
                    if a < n && b < n {
                        assert(self.entries@[a] == es[a]);
                        assert(self.entries@[b] == es[b]);
                    } else if a < n {
                        assert(self.entries@[a] == es[a]);
                        assert(es[a].0@ != k);
                    } else {
                        assert(self.entries@[b] == es[b]);
                        assert(es[b].0@ != k);
                    }
                }
                assert forall|q: Seq<u8>| #[trigger] self.contents@.contains_key(q) implies exists|j: int|
                    0 <= j < self.entries@.len() && #[trigger] self.entries@[j].0@ == q by {
                    if q == k {
                        assert(self.entries@[n].0@ == q);
                    } else {
                        let j = choose|j: int| 0 <= j < es.len() && #[trigger] es[j].0@ == q;
                        assert(self.entries@[j] == es[j]);
                    }
                }
            },
        }
    }

    /// Drops the record under `key`, if there is one.
    pub fn remove(&mut self, key: &Vec<u8>)
        requires
            old(self).wf(),
        ensures
            final(self).wf(),
            final(self)@ == old(self)@.remove(key@),
    {
        let ghost k = key@;
        let ghost es = self.entries@;
        let ghost m = self.contents@;
        match self.find(key) {
            Some(i) => {
                let _ = self.entries.swap_remove(i);
                self.contents = Ghost(m.remove(k));
                let ghost last = es.len() - 1;
                // after swap_remove, slot i holds what was last; the others stay put
                assert forall|j: int| 0 <= j < self.entries@.len() implies
                    #[trigger] self.entries@[j] == es[if j == i { last } else { j }] by {}
                assert forall|j: int| 0 <= j < self.entries@.len() implies {
                    &&& #[trigger] self.contents@.contains_key(self.entries@[j].0@)
                    &&& self.contents@[self.entries@[j].0@] == self.entries@[j].1
                } by {
                    let o = if j == i { last } else { j };
                    assert(self.entries@[j] == es[o]);
                    assert(o != i);
                    assert(es[o].0@ != es[i as int].0@);
                    assert(m.contains_key(es[o].0@));
                }
                assert forall|a: int, b: int|
                    0 <= a < self.entries@.len() && 0 <= b < self.entries@.len() && a != b
                    implies #[trigger] self.entries@[a].0@ != #[trigger] self.entries@[b].0@ by {
                    let oa = if a == i { last } else { a };
                    let ob = if b == i { last } else { b };
                    assert(self.entries@[a] == es[oa]);
                    assert(self.entries@[b] == es[ob]);
                    assert(es[oa].0@ != es[ob].0@);
                }
                assert forall|q: Seq<u8>| #[trigger] self.contents@.contains_key(q) implies exists|j: int|
                    0 <= j < self.entries@.len() && #[trigger] self.entries@[j].0@ == q by {
                    let o = choose|o: int| 0 <= o < es.len() && #[trigger] es[o].0@ == q;
                    assert(o != i);
                    if o == last {
                        assert(self.entries@[i as int] == es[o]);
                    } else {
                        assert(self.entries@[o] == es[o]);
                    }
                }
            },
            None => {
                self.contents = Ghost(m.remove(k));
                assert(self.contents@ =~= m);
            },
        }
    }
}

} // verus!
