use vstd::prelude::*;

use crate::row::{LikeCompletion, RowId, RowView, SonglistRow};

verus! {

struct Slot {
    generation: u64,
    row: Option<SonglistRow>,
}

/// Owns the live rows and resolves `RowId` handles to them. A slot freed by
/// `remove` is reused under a higher generation, so a handle to a destroyed row
/// never resolves again.
pub struct RowRegistry {
    slots: Vec<Slot>,
}

impl RowRegistry {
    pub closed spec fn wf(&self) -> bool {
        forall|i: int|
            0 <= i < self.slots@.len() && (#[trigger] self.slots@[i]).row is Some
                ==> self.slots@[i].row.unwrap()@.self_ref == Some(
                RowId { index: i as usize, generation: self.slots@[i].generation },
            )
    }

    /// The handle resolves to a live row.
    pub closed spec fn is_live(&self, id: RowId) -> bool {
        &&& id.index < self.slots@.len()
        &&& self.slots@[id.index as int].generation == id.generation
        &&& self.slots@[id.index as int].row is Some
    }

    /// The handle was handed out by this registry, live or not.
    pub closed spec fn issued(&self, id: RowId) -> bool {
        id.index < self.slots@.len() && id.generation <= self.slots@[id.index as int].generation
    }

    /// The live row a handle resolves to.
    pub closed spec fn row_at(&self, id: RowId) -> RowView {
        self.slots@[id.index as int].row.unwrap()@
    }

    /// The handle was handed out and its row is gone.
    pub open spec fn is_dead(&self, id: RowId) -> bool {
        self.issued(id) && !self.is_live(id)
    }

    /// What `insert` guarantees: `r` is fresh, now live and resolves to `row`
    /// with its handle set, and every other handle keeps its state.
    pub open spec fn inserted(old: RowRegistry, new: RowRegistry, row: RowView, r: RowId) -> bool {
        &&& !old.issued(r)
        &&& new.issued(r)
        &&& new.is_live(r)
        &&& new.row_at(r) == row.with_self_ref(Some(r))
        &&& forall|id: RowId| old.issued(id) ==> new.issued(id)
        &&& forall|id: RowId| id != r ==> (new.is_live(id) == old.is_live(id))
        &&& forall|id: RowId| id != r && old.is_live(id) ==> new.row_at(id) == old.row_at(id)
    }

    /// An empty registry.
    pub fn new() -> (r: Self)
        ensures
            r.wf(),
            forall|id: RowId| !r.issued(id),
            forall|id: RowId| !r.is_live(id),
    {
        RowRegistry { slots: Vec::new() }
    }

    /// Takes ownership of a row and returns a fresh handle to it; the row learns
    /// that handle as its own.
    pub fn insert(&mut self, row: SonglistRow) -> (r: RowId)
        requires
            old(self).wf(),
        ensures
            final(self).wf(),
            Self::inserted(*old(self), *final(self), row@, r),
    {
        let mut new_row = row;
        let n = self.slots.len();
        let mut i: usize = 0;
        while i < n
            invariant
                n == self.slots@.len(),
                self.slots@ == old(self).slots@,
                new_row@ == row@,
                old(self).wf(),
                0 <= i <= n,
                forall|j: int|
                    0 <= j < i ==> (#[trigger] self.slots@[j]).row is Some
                        || self.slots@[j].generation == u64::MAX,
            decreases n - i,
        {
            if self.slots[i].row.is_none() && self.slots[i].generation < u64::MAX {
                let g = self.slots[i].generation + 1;
                let id = RowId { index: i, generation: g };
                new_row.set_self_ref(Some(id));
                let ghost rv = new_row@;
                assert(rv == row@.with_self_ref(Some(id)));
                let ghost before = self.slots@;
                self.slots.set(i, Slot { generation: g, row: Some(new_row) });
                assert(self.slots@[i as int].row.unwrap()@ == rv);
                assert forall|j: int| 0 <= j < self.slots@.len() && j != i implies #[trigger] self.slots@[j] == before[j] by {}
                assert forall|x: RowId| x != id implies self.is_live(x) == old(self).is_live(x) by {
                    if x.index != i && (x.index as int) < before.len() {
                        assert(self.slots@[x.index as int] == before[x.index as int]);
                    }
                }
                assert forall|x: RowId| old(self).issued(x) implies self.issued(x) by {
                    if x.index != i {
                        assert(self.slots@[x.index as int] == before[x.index as int]);
                    }
                }
                assert forall|x: RowId| x != id && old(self).is_live(x) implies self.row_at(x) == old(self).row_at(x) by {
                    if x.index != i {
                        assert(self.slots@[x.index as int] == before[x.index as int]);
                    }
                }
                return id;
            }
            i = i + 1;
        }
        let id = RowId { index: n, generation: 0 };
        new_row.set_self_ref(Some(id));
        self.slots.push(Slot { generation: 0, row: Some(new_row) });
        assert(self.slots@[n as int].generation == 0);
        assert forall|j: int| 0 <= j < n implies #[trigger] self.slots@[j] == old(self).slots@[j] by {}
        assert forall|x: RowId| old(self).issued(x) implies self.issued(x) by {
            assert(self.slots@[x.index as int] == old(self).slots@[x.index as int]);
        }
        assert forall|x: RowId| x != id implies self.is_live(x) == old(self).is_live(x) by {
            if (x.index as int) < n {
                assert(self.slots@[x.index as int] == old(self).slots@[x.index as int]);
            }
        }
        assert forall|x: RowId| x != id && old(self).is_live(x) implies self.row_at(x) == old(self).row_at(x) by {
            assert(self.slots@[x.index as int] == old(self).slots@[x.index as int]);
        }
        id
    }

    /// Destroys the row behind a handle, returning it if it was live.
    pub fn remove(&mut self, id: RowId) -> (r: Option<SonglistRow>)
        requires
            old(self).wf(),
        ensures
            final(self).wf(),
            r is Some <==> old(self).is_live(id),
            r is Some ==> r.unwrap()@ == old(self).row_at(id),
            !final(self).is_live(id),
            forall|x: RowId| final(self).issued(x) == old(self).issued(x),
            forall|x: RowId| x != id ==> (final(self).is_live(x) == old(self).is_live(x)),
            forall|x: RowId|
                x != id && old(self).is_live(x) ==> final(self).row_at(x) == old(self).row_at(x),
            !old(self).is_live(id) ==> *final(self) == *old(self),
    {
        if id.index < self.slots.len() && self.slots[id.index].generation == id.generation
            && self.slots[id.index].row.is_some() {
            let ghost before = self.slots@;
            let g = self.slots[id.index].generation;
            let mut slot = Slot { generation: g, row: None };
            std::mem::swap(&mut slot, &mut self.slots[id.index]);
            assert forall|x: RowId| #[trigger] self.issued(x) == before_issued(before, x) by {
                if x.index != id.index && (x.index as int) < before.len() {
                    assert(self.slots@[x.index as int] == before[x.index as int]);
                }
            }
            assert forall|x: RowId| x != id && old(self).is_live(x) implies self.row_at(x)
                == old(self).row_at(x) && self.is_live(x) by {
                assert(x.index != id.index);
                assert(self.slots@[x.index as int] == before[x.index as int]);
            }
            slot.row
        } else {
            None
        }
    }

    /// Resolves a handle to its row, or to nothing when the row is gone.
    pub fn get(&self, id: RowId) -> (r: Option<&SonglistRow>)
        ensures
            r is Some <==> self.is_live(id),
            r is Some ==> r.unwrap()@ == self.row_at(id),
    {
        if id.index < self.slots.len() && self.slots[id.index].generation == id.generation {
            match &self.slots[id.index].row {
                Some(row) => Some(row),
                None => None,
            }
        } else {
            None
        }
    }

    /// Delivers a like completion: if its row is live, the row's flag becomes
    /// the negation of the flag captured when the command was sent; otherwise
    /// nothing changes. Returns whether the row was reached.
    pub fn deliver(&mut self, c: LikeCompletion) -> (r: bool)
        requires
            old(self).wf(),
        ensures
            final(self).wf(),
            r == old(self).is_live(c.row),
            !r ==> *final(self) == *old(self),
            r ==> final(self).row_at(c.row) == old(self).row_at(c.row).with_like(!c.like),
            forall|x: RowId| final(self).issued(x) == old(self).issued(x),
            forall|x: RowId| final(self).is_live(x) == old(self).is_live(x),
            forall|x: RowId|
                x != c.row && old(self).is_live(x) ==> final(self).row_at(x) == old(
                    self,
                ).row_at(x),
    {
        let id = c.row;
        if id.index < self.slots.len() && self.slots[id.index].generation == id.generation
            && self.slots[id.index].row.is_some() {
            let ghost before = self.slots@;
            let g = self.slots[id.index].generation;
            let mut slot = Slot { generation: g, row: None };
            std::mem::swap(&mut slot, &mut self.slots[id.index]);
            match slot.row {
                Some(row) => {
                    let mut row = row;
                    row.set_like(!c.like);
                    self.slots.set(id.index, Slot { generation: g, row: Some(row) });
                    assert forall|x: RowId| #[trigger] self.issued(x) == before_issued(before, x) by {
                        if x.index != id.index && (x.index as int) < before.len() {
                            assert(self.slots@[x.index as int] == before[x.index as int]);
                        }
                    }
                    assert forall|x: RowId| x != id && old(self).is_live(x) implies self.row_at(x)
                        == old(self).row_at(x) by {
                        if x.index != id.index && (x.index as int) < before.len() {
                            assert(self.slots@[x.index as int] == before[x.index as int]);
                        }
                    }
                    assert forall|x: RowId| #[trigger] self.is_live(x) == old(self).is_live(x) by {
                        if x.index != id.index && (x.index as int) < before.len() {
                            assert(self.slots@[x.index as int] == before[x.index as int]);
                        }
                    }
                    true
                },
                None => false,
            }
        } else {
            false
        }
    }
}

spec fn before_issued(s: Seq<Slot>, id: RowId) -> bool {
    id.index < s.len() && id.generation <= s[id.index as int].generation
}

} // verus!
