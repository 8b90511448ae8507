//! A table keyed by peer.

use vstd::prelude::*;
use crate::peer_id::PeerId;

verus! {

/// A table that holds at most one value for each peer.
#[derive(Debug)]
pub struct PeerTable<V> {
    keys: Vec<PeerId>,
    values: Vec<V>,
}

impl<V> View for PeerTable<V> {
    type V = Map<Seq<u8>, V>;

    closed spec fn view(&self) -> Map<Seq<u8>, V> {
        Map::new(
            |peer: Seq<u8>| self.slot(peer) is Some,
            |peer: Seq<u8>| self.values@[self.slot(peer)->Some_0],
        )
    }
}

impl<V> PeerTable<V> {
    /// The position at which `peer` stands, if it stands in the table.
    spec fn slot(&self, peer: Seq<u8>) -> Option<int> {
        if exists|i: int| 0 <= i < self.keys@.len() && self.keys@[i]@ == peer {
            Some(choose|i: int| 0 <= i < self.keys@.len() && self.keys@[i]@ == peer)
        } else {
            None
        }
    }

    /// Every peer stands in the table at most once.
    pub closed spec fn wf(&self) -> bool {
        &&& self.keys@.len() == self.values@.len()
        &&& forall|i: int, j: int|
            0 <= i < self.keys@.len() && 0 <= j < self.keys@.len() && i != j
                ==> self.keys@[i]@ != self.keys@[j]@
    }

    proof fn lemma_slot(&self, i: int)
        requires
            self.wf(),
            0 <= i < self.keys@.len(),
        ensures
            self.slot(self.keys@[i]@) == Some(i),
            self@.contains_key(self.keys@[i]@),
            self@[self.keys@[i]@] == self.values@[i],
    {
    }

    proof fn lemma_absent(&self, peer: Seq<u8>)
        requires
            forall|i: int| 0 <= i < self.keys@.len() ==> self.keys@[i]@ != peer,
        ensures
            self.slot(peer) is None,
            !self@.contains_key(peer),
    {
    }

    /// The empty table.
    pub fn new() -> (r: PeerTable<V>)
        ensures
            r.wf(),
            r@ == Map::<Seq<u8>, V>::empty(),
    {
        let r = PeerTable { keys: Vec::new(), values: Vec::new() };
        assert(r@ =~= Map::<Seq<u8>, V>::empty());
        r
    }

    fn find(&self, peer: &PeerId) -> (r: Option<usize>)
        requires
            self.wf(),
        ensures
            match r {
                Some(i) => i < self.keys@.len() && self.keys@[i as int]@ == peer@
                    && self.slot(peer@) == Some(i as int),
                None => self.slot(peer@) is None,
            },
    {
        let mut i: usize = 0;
        while i < self.keys.len()
            invariant
                self.wf(),
                i <= self.keys@.len(),
                forall|j: int| 0 <= j < i ==> self.keys@[j]@ != peer@,
            decreases self.keys@.len() - i,
        {
            if self.keys[i] == *peer {
                proof {
                    self.lemma_slot(i as int);
                }
                return Some(i);
            }
            i += 1;
        }
        proof {
            self.lemma_absent(peer@);
        }
        None
    }

    /// Whether the table holds a value for `peer`.
    pub fn contains_key(&self, peer: &PeerId) -> (r: bool)
        requires
            self.wf(),
        ensures
            r == self@.contains_key(peer@),
    {
        self.find(peer).is_some()
    }

    /// The value of `peer`, if the table holds one.
    pub fn get(&self, peer: &PeerId) -> (r: Option<&V>)
        requires
            self.wf(),
        ensures
            match r {
                Some(value) => self@.contains_key(peer@) && *value == self@[peer@],
                None => !self@.contains_key(peer@),
            },
    {
        match self.find(peer) {
            Some(i) => Some(&self.values[i]),
            None => None,
        }
    }

    /// Takes the value of `peer` out of the table, if it holds one.
    pub fn remove(&mut self, peer: &PeerId) -> (r: Option<V>)
        requires
            old(self).wf(),
        ensures
            final(self).wf(),
            final(self)@ == old(self)@.remove(peer@),
            match r {
                Some(value) => old(self)@.contains_key(peer@) && value == old(self)@[peer@],
                None => !old(self)@.contains_key(peer@),
            },
    {
        match self.find(peer) {
            Some(i) => {
                let _ = self.keys.remove(i);
                let value = self.values.remove(i);
                proof {
                    let before = *old(self);
                    let after = *self;
                    assert(after.wf());
                    assert forall|k: Seq<u8>| #[trigger]
                        after@.contains_key(k) == before@.remove(peer@).contains_key(k) by {
                        if after.slot(k) is Some {
                            let a = after.slot(k)->Some_0;
                            let b = if a < i { a } else { a + 1 };
                            before.lemma_slot(b);
                        }
                        if before.slot(k) is Some && k != peer@ {
                            let b = before.slot(k)->Some_0;
                            let a = if b < i { b } else { b - 1 };
                            after.lemma_slot(a);
                        }
                    }
                    assert forall|k: Seq<u8>| #[trigger] after@.contains_key(k) implies after@[k]
                        == before@.remove(peer@)[k] by {
                        let a = after.slot(k)->Some_0;
                        let b = if a < i { a } else { a + 1 };
                        before.lemma_slot(b);
                    }
                    assert(after@ =~= before@.remove(peer@));
                }
                Some(value)
            },
            None => {
                assert(self@ =~= old(self)@.remove(peer@));
                None
            },
        }
    }

    /// Puts `value` into the table as the value of `peer`, and gives back the
    /// value that `peer` had before, if it had one.
    pub fn insert(&mut self, peer: PeerId, value: V) -> (r: Option<V>)
        requires
            old(self).wf(),
        ensures
            final(self).wf(),
            final(self)@ == old(self)@.insert(peer@, value),
            match r {
                Some(previous) => old(self)@.contains_key(peer@) && previous == old(self)@[peer@],
                None => !old(self)@.contains_key(peer@),
            },
    {
        let previous = self.remove(&peer);
        proof {
            let middle = *self;
            assert(!middle@.contains_key(peer@));
            assert forall|i: int| 0 <= i < middle.keys@.len() implies middle.keys@[i]@
                != peer@ by {
                middle.lemma_slot(i);
            }
        }
        let ghost middle = *self;
        let ghost key = peer@;
        self.keys.push(peer);
        self.values.push(value);
        proof {
            let after = *self;
            let last = middle.keys@.len() as int;
            assert(after.wf());
            assert forall|k: Seq<u8>| #[trigger]
                after@.contains_key(k) == middle@.insert(key, value).contains_key(k) by {
                if after.slot(k) is Some {
                    let a = after.slot(k)->Some_0;
                    if a < last {
                        middle.lemma_slot(a);
                    }
                }
                if middle.slot(k) is Some {
                    after.lemma_slot(middle.slot(k)->Some_0);
                }
                if k == key {
                    after.lemma_slot(last);
                }
            }
            assert forall|k: Seq<u8>| #[trigger] after@.contains_key(k) implies after@[k]
                == middle@.insert(key, value)[k] by {
                let a = after.slot(k)->Some_0;
                after.lemma_slot(a);
                if a < last {
                    middle.lemma_slot(a);
                }
            }
            assert(after@ =~= middle@.insert(key, value));
            assert(middle@.insert(key, value) =~= old(self)@.insert(key, value));
        }
        previous
    }
}

} // verus!
