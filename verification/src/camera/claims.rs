//! Which cameras are in use.

use vstd::prelude::*;

use crate::resource::ResourceId;

verus! {

/// The identities of the cameras that are in use.
pub struct ClaimSet {
    ids: Vec<ResourceId>,
}

impl ClaimSet {
    /// No identity occurs twice.
    pub closed spec fn wf(self) -> bool {
        forall|i: int, j: int|
            0 <= i < j < self.ids@.len() ==> #[trigger] self.ids@[i]@ != #[trigger] self.ids@[j]@
    }

    closed spec fn at(self, i: int, id: Seq<char>) -> bool {
        0 <= i < self.ids@.len() && self.ids@[i]@ == id
    }
}

impl View for ClaimSet {
    type V = Set<Seq<char>>;

    closed spec fn view(&self) -> Set<Seq<char>> {
        Set::new(|id: Seq<char>| exists|i: int| self.at(i, id))
    }
}

impl ClaimSet {
    /// No camera is in use.
    pub fn new() -> (claims: ClaimSet)
        ensures
            claims.wf(),
            claims@ == Set::<Seq<char>>::empty(),
    {
        let claims = ClaimSet { ids: Vec::new() };
        proof {
            assert(claims@ =~= Set::<Seq<char>>::empty());
        }
        claims
    }

    fn position(&self, id: &ResourceId) -> (position: Option<usize>)
        ensures
            match position {
                Some(i) => self.at(i as int, id@),
                None => !self@.contains(id@),
            },
    {
        let mut index: usize = 0;
        while index < self.ids.len()
            invariant
                index <= self.ids@.len(),
                forall|i: int| 0 <= i < index ==> #[trigger] self.ids@[i]@ != id@,
            decreases self.ids@.len() - index,
        {
            if self.ids[index].same(id) {
                return Some(index);
            }
            index += 1;
        }
        None
    }

    /// Whether a camera is in use.
    pub fn contains(&self, id: &ResourceId) -> (claimed: bool)
        ensures
            claimed == self@.contains(id@),
    {
        match self.position(id) {
            Some(index) => {
                proof {
                    assert(self.at(index as int, id@));
                }
                true
            },
            None => false,
        }
    }

    /// Takes a camera into use, unless it is already.
    pub fn claim(&mut self, id: &ResourceId) -> (claimed: bool)
        requires
            old(self).wf(),
        ensures
            final(self).wf(),
            final(self)@ == old(self)@.insert(id@),
            claimed == !old(self)@.contains(id@),
    {
        let ghost before = *self;
        match self.position(id) {
            Some(index) => {
                proof {
                    assert(self.at(index as int, id@));
                    assert(self@.insert(id@) =~= self@);
                }
                false
            },
            None => {
                self.ids.push(id.copy());
                let ghost after = *self;
                proof {
                    let last = before.ids@.len() as int;
                    assert(forall|i: int| 0 <= i < last ==> after.ids@[i] == before.ids@[i]);
                    assert forall|i: int, j: int| 0 <= i < j < after.ids@.len() implies (
                    #[trigger] after.ids@[i]@) != (#[trigger] after.ids@[j]@) by {
                        if j == last {
                            assert(before.at(i, before.ids@[i]@));
                        }
                    }
                    assert forall|other: Seq<char>|
                        after@.contains(other) == before@.insert(id@).contains(other) by {
                        if after@.contains(other) {
                            let i = choose|i: int| after.at(i, other);
                            if i < last {
                                assert(before.at(i, other));
                            }
                        }
                        if before@.contains(other) {
                            let i = choose|i: int| before.at(i, other);
                            assert(after.at(i, other));
                        }
                        if other == id@ {
                            assert(after.at(last, other));
                        }
                    }
                    assert(after@ =~= before@.insert(id@));
                }
                true
            },
        }
    }

    /// Gives a camera back.
    pub fn release(&mut self, id: &ResourceId)
        requires
            old(self).wf(),
        ensures
            final(self).wf(),
            final(self)@ == old(self)@.remove(id@),
    {
        let ghost before = *self;
        match self.position(id) {
            Some(index) => {
                let _ = self.ids.remove(index);
                let ghost after = *self;
                proof {
                    let gone = index as int;
                    assert(forall|i: int| 0 <= i < gone ==> after.ids@[i] == before.ids@[i]);
                    assert(forall|i: int|
                        gone <= i < after.ids@.len() ==> after.ids@[i] == before.ids@[i + 1]);
                    assert forall|i: int, j: int| 0 <= i < j < after.ids@.len() implies (
                    #[trigger] after.ids@[i]@) != (#[trigger] after.ids@[j]@) by {
                        let first = if i < gone {
                            i
                        } else {
                            i + 1
                        };
                        let second = if j < gone {
                            j
                        } else {
                            j + 1
                        };
                        assert(before.ids@[first]@ != before.ids@[second]@);
                    }
                    assert forall|other: Seq<char>|
                        after@.contains(other) == before@.remove(id@).contains(other) by {
                        if after@.contains(other) {
                            let i = choose|i: int| after.at(i, other);
                            let kept = if i < gone {
                                i
                            } else {
                                i + 1
                            };
                            assert(before.at(kept, other));
                            if kept < gone {
                                assert(before.ids@[kept]@ != before.ids@[gone]@);
                            } else {
                                assert(before.ids@[gone]@ != before.ids@[kept]@);
                            }
                        }
                        if before@.contains(other) && other != id@ {
                            let i = choose|i: int| before.at(i, other);
                            let kept = if i < gone {
                                i
                            } else {
                                i - 1
                            };
                            assert(after.at(kept, other));
                        }
                    }
                    assert(after@ =~= before@.remove(id@));
                }
            },
            None => {
                proof {
                    assert(self@.remove(id@) =~= self@);
                }
            },
        }
    }

    /// Gives the camera of a dropped session back, unless a worker that may still use it will.
    pub fn release_claim_after_drop(&mut self, id: &ResourceId, quarantined: bool)
        requires
            old(self).wf(),
        ensures
            final(self).wf(),
            final(self)@ == if quarantined {
                old(self)@
            } else {
                old(self)@.remove(id@)
            },
    {
        if !quarantined {
            self.release(id);
        }
    }
}

} // verus!
