//! A table of records ordered by their integer primary key.
//!
//! Ids are handed out from a counter that only grows, so a row inserted
//! later always carries a larger id than every row inserted before it and,
//! within a table, an id is never handed out twice. A table rebuilt from
//! storage continues after the largest id storage records as handed out, or
//! after its largest stored id where storage records none.

use vstd::prelude::*;

verus! {

/// A row type that can be kept in a [`Table`].
pub trait Record: Sized {
    /// The primary key of the row, `None` while the row is not stored.
    spec fn spec_id(&self) -> Option<i32>;

    fn id(&self) -> (r: Option<i32>)
        ensures
            r == self.spec_id(),
    ;

    /// A copy of the row that is equal to it field by field.
    fn duplicate(&self) -> (r: Self)
        ensures
            r == *self,
    ;
}

/// The largest id a table can hand out.
pub open spec fn max_id() -> int {
    i32::MAX as int
}

/// The id carried by a row, read as a plain integer.
pub open spec fn row_id<R: Record>(r: R) -> int {
    match r.spec_id() {
        Some(k) => k as int,
        None => 0,
    }
}

/// Every row is stored under an id below `next`, in strictly ascending order.
pub open spec fn rows_well_ordered<R: Record>(rows: Seq<R>, next: int) -> bool {
    &&& forall|i: int| 0 <= i < rows.len() ==> (#[trigger] rows[i]).spec_id() is Some
    &&& forall|i: int| 0 <= i < rows.len() ==> #[trigger] row_id(rows[i]) < next
    &&& forall|i: int, j: int| 0 <= i < j < rows.len() ==> row_id(rows[i]) < row_id(rows[j])
}

/// Whether some row of `rows` carries `id`.
pub open spec fn seq_has_id<R: Record>(rows: Seq<R>, id: i32) -> bool {
    exists|i: int| 0 <= i < rows.len() && (#[trigger] rows[i]).spec_id() == Some(id)
}

/// The id the counter continues from after loading `rows`, given the
/// largest id storage records as handed out.
pub open spec fn next_after<R: Record>(rows: Seq<R>, last_issued: int) -> int {
    let top = if rows.len() == 0 {
        0
    } else {
        row_id(rows.last())
    };
    if top < last_issued {
        last_issued + 1
    } else {
        top + 1
    }
}

pub struct Table<R> {
    rows: Vec<R>,
    next_id: i64,
}

impl<R: Record> Table<R> {
    /// The stored rows, in ascending id order.
    pub closed spec fn rows(&self) -> Seq<R> {
        self.rows@
    }

    /// The id that the next inserted row receives; above `max_id()` once
    /// every id has been handed out.
    pub closed spec fn next_id(&self) -> int {
        self.next_id as int
    }

    pub closed spec fn wf(&self) -> bool {
        &&& 1 <= self.next_id <= max_id() + 1
        &&& rows_well_ordered(self.rows@, self.next_id as int)
    }

    /// Whether some stored row carries `id`.
    pub open spec fn has_id(&self, id: i32) -> bool {
        seq_has_id(self.rows(), id)
    }

    /// The position of the row that carries `id` (meaningful when `has_id`).
    pub open spec fn index_of(&self, id: i32) -> int {
        choose|i: int| 0 <= i < self.rows().len() && (#[trigger] self.rows()[i]).spec_id() == Some(id)
    }

    /// The row stored under `id`, if any.
    pub open spec fn find(&self, id: i32) -> Option<R> {
        if self.has_id(id) {
            Some(self.rows()[self.index_of(id)])
        } else {
            None
        }
    }

    /// Whether another row can still be inserted.
    pub open spec fn has_room(&self) -> bool {
        self.next_id() <= max_id()
    }

    pub proof fn lemma_wf(&self)
        requires
            self.wf(),
        ensures
            1 <= self.next_id() <= max_id() + 1,
            rows_well_ordered(self.rows(), self.next_id()),
    {
    }

    /// In a well-formed table the row found at a position is the one
    /// `index_of` picks for its id.
    pub proof fn lemma_index_unique(&self, p: int)
        requires
            self.wf(),
            0 <= p < self.rows().len(),
        ensures
            self.has_id(row_id(self.rows()[p]) as i32),
            self.index_of(row_id(self.rows()[p]) as i32) == p,
            self.rows()[p].spec_id() == Some(row_id(self.rows()[p]) as i32),
    {
        let id = row_id(self.rows()[p]) as i32;
        assert(self.rows()[p].spec_id() == Some(id));
        assert(self.has_id(id));
        let q = self.index_of(id);
        if q < p {
            assert(row_id(self.rows()[q]) < row_id(self.rows()[p]));
        } else if q > p {
            assert(row_id(self.rows()[p]) < row_id(self.rows()[q]));
        }
    }

    /// Builds a table from rows read back from storage, together with the
    /// largest id storage records as handed out (0 when it records none).
    /// The rows must carry ids in strictly ascending order
    /// and the recorded id must lie in `0..=max_id()`; the counter then continues
    /// after the larger of the recorded id and the largest stored one, so an
    /// id handed out before, even of a row deleted since, is not handed out
    /// again.
    pub fn from_rows(rows: Vec<R>, last_issued: i64) -> (res: Option<Self>)
        ensures
            res is Some <==> rows_well_ordered(rows@, max_id() + 1) && 0 <= last_issued <= max_id(),
            res matches Some(t) ==> {
                &&& t.wf()
                &&& t.rows() == rows@
                &&& t.next_id() == next_after(rows@, last_issued as int)
            },
    {
        if last_issued < 0 || last_issued > i32::MAX as i64 {
            return None;
        }
        let n = rows.len();
        // Below every `i32` id until the first row has been read.
        let mut prev: i64 = i32::MIN as i64 - 1;
        let mut i: usize = 0;
        while i < n
            invariant
                n == rows@.len(),
                0 <= i <= n,
                i == 0 ==> prev == i32::MIN - 1,
                i > 0 ==> prev == row_id(rows@[i - 1]),
                i32::MIN - 1 <= prev <= max_id(),
                rows_well_ordered(rows@.take(i as int), prev + 1),
            decreases n - i,
        {
            let cur = rows[i].id();
            match cur {
                None => {
                    assert(!rows_well_ordered(rows@, max_id() + 1)) by {
                        assert(rows@[i as int].spec_id() is None);
                    }
                    return None;
                },
                Some(k) => {
                    if (k as i64) <= prev {
                        assert(!rows_well_ordered(rows@, max_id() + 1)) by {
                            assert(row_id(rows@[i - 1]) >= row_id(rows@[i as int]));
                        }
                        return None;
                    }
                    proof {
                        let t = rows@.take(i as int + 1);
                        assert(t.drop_last() =~= rows@.take(i as int));
                        assert forall|a: int, b: int| 0 <= a < b < t.len() implies row_id(t[a]) < row_id(t[b]) by {
                            if b < i {
                                assert(t[a] == rows@.take(i as int)[a]);
                                assert(t[b] == rows@.take(i as int)[b]);
                            } else {
                                assert(t[a] == rows@.take(i as int)[a]);
                            }
                        }
                        assert forall|a: int| 0 <= a < t.len() implies #[trigger] row_id(t[a]) < k + 1 by {
                            if a < i {
                                assert(t[a] == rows@.take(i as int)[a]);
                            }
                        }
                        assert forall|a: int| 0 <= a < t.len() implies (#[trigger] t[a]).spec_id() is Some by {
                            if a < i {
                                assert(t[a] == rows@.take(i as int)[a]);
                            }
                        }
                    }
                    prev = k as i64;
                },
            }
            i = i + 1;
        }
        assert(rows@.take(n as int) =~= rows@);
        let top: i64 = if prev < last_issued {
            last_issued
        } else {
            prev
        };
        proof {
            assert forall|i: int| 0 <= i < rows@.len() implies #[trigger] row_id(rows@[i]) < top + 1 by {
                assert(row_id(rows@[i]) < prev + 1);
            }
        }
        Some(Table { rows, next_id: top + 1 })
    }

    /// The id the next insertion receives, or `None` when every id has been
    /// handed out.
    pub fn next_free_id(&self) -> (r: Option<i32>)
        requires
            self.wf(),
        ensures
            r is Some <==> self.has_room(),
            r matches Some(k) ==> k == self.next_id(),
    {
        if self.next_id <= i32::MAX as i64 {
            Some(self.next_id as i32)
        } else {
            None
        }
    }

    /// Copies of every row, in ascending id order.
    pub fn all(&self) -> (r: Vec<R>)
        requires
            self.wf(),
        ensures
            r@ == self.rows(),
    {
        let mut out: Vec<R> = Vec::new();
        let n = self.rows.len();
        for i in 0..n
            invariant
                n == self.rows@.len(),
                out@ == self.rows@.take(i as int),
        {
            out.push(self.rows[i].duplicate());
            assert(out@ =~= self.rows@.take(i as int + 1));
        }
        assert(self.rows@.take(n as int) =~= self.rows@);
        out
    }

    /// The position of the row stored under `id`.
    pub fn position(&self, id: i32) -> (r: Option<usize>)
        requires
            self.wf(),
        ensures
            r is Some <==> self.has_id(id),
            r matches Some(p) ==> p == self.index_of(id) && p < self.rows().len(),
    {
        let n = self.rows.len();
        for i in 0..n
            invariant
                self.wf(),
                n == self.rows@.len(),
                forall|j: int| 0 <= j < i ==> (#[trigger] self.rows@[j]).spec_id() != Some(id),
        {
            if self.rows[i].id() == Some(id) {
                proof {
                    self.lemma_index_unique(i as int);
                }
                return Some(i);
            }
        }
        None
    }

    /// A copy of the row stored under `id`.
    pub fn get(&self, id: i32) -> (r: Option<R>)
        requires
            self.wf(),
        ensures
            r == self.find(id),
    {
        match self.position(id) {
            Some(p) => Some(self.rows[p].duplicate()),
            None => None,
        }
    }

    /// Stores `row`, which carries the next free id, after every other row.
    pub fn append(&mut self, row: R)
        requires
            old(self).wf(),
            old(self).has_room(),
            row.spec_id() == Some(old(self).next_id() as i32),
        ensures
            final(self).wf(),
            final(self).rows() == old(self).rows().push(row),
            final(self).next_id() == old(self).next_id() + 1,
    {
        self.rows.push(row);
        self.next_id = self.next_id + 1;
        proof {
            let s = self.rows@;
            assert(row_id(s[s.len() - 1]) == old(self).next_id());
            assert forall|i: int, j: int| 0 <= i < j < s.len() implies row_id(s[i]) < row_id(s[j]) by {
                if j < s.len() - 1 {
                    assert(s[i] == old(self).rows@[i]);
                    assert(s[j] == old(self).rows@[j]);
                } else {
                    assert(s[i] == old(self).rows@[i]);
                }
            }
            assert forall|i: int| 0 <= i < s.len() implies #[trigger] row_id(s[i]) < self.next_id by {
                if i < s.len() - 1 {
                    assert(s[i] == old(self).rows@[i]);
                }
            }
            assert forall|i: int| 0 <= i < s.len() implies (#[trigger] s[i]).spec_id() is Some by {
                if i < s.len() - 1 {
                    assert(s[i] == old(self).rows@[i]);
                }
            }
        }
    }

    /// Replaces the row at position `p` by `row`, which keeps its id.
    pub fn replace_at(&mut self, p: usize, row: R)
        requires
            old(self).wf(),
            p < old(self).rows().len(),
            row.spec_id() == old(self).rows()[p as int].spec_id(),
        ensures
            final(self).wf(),
            final(self).rows() == old(self).rows().update(p as int, row),
            final(self).next_id() == old(self).next_id(),
    {
        self.rows.set(p, row);
        proof {
            let s = self.rows@;
            assert forall|i: int| 0 <= i < s.len() implies row_id(#[trigger] s[i]) == row_id(old(self).rows@[i]) by {}
            assert forall|i: int| 0 <= i < s.len() implies (#[trigger] s[i]).spec_id() is Some by {
                assert(old(self).rows@[i].spec_id() is Some);
            }
            assert forall|i: int| 0 <= i < s.len() implies #[trigger] row_id(s[i]) < self.next_id by {
                assert(row_id(s[i]) == row_id(old(self).rows@[i]));
            }
            assert forall|i: int, j: int| 0 <= i < j < s.len() implies row_id(s[i]) < row_id(s[j]) by {
                assert(row_id(s[i]) == row_id(old(self).rows@[i]));
                assert(row_id(s[j]) == row_id(old(self).rows@[j]));
            }
        }
    }

    /// Removes the row at position `p`.
    pub fn remove_at(&mut self, p: usize)
        requires
            old(self).wf(),
            p < old(self).rows().len(),
        ensures
            final(self).wf(),
            final(self).rows() == old(self).rows().remove(p as int),
            final(self).next_id() == old(self).next_id(),
    {
        self.rows.remove(p);
        proof {
            let s = self.rows@;
            let o = old(self).rows@;
            assert forall|i: int| 0 <= i < s.len() implies #[trigger] s[i] == o[if i < p { i } else { i + 1 }] by {}
            assert forall|i: int| 0 <= i < s.len() implies (#[trigger] s[i]).spec_id() is Some by {
                assert(s[i] == o[if i < p { i } else { i + 1 }]);
            }
            assert forall|i: int| 0 <= i < s.len() implies #[trigger] row_id(s[i]) < self.next_id by {
                assert(s[i] == o[if i < p { i } else { i + 1 }]);
            }
            assert forall|i: int, j: int| 0 <= i < j < s.len() implies row_id(s[i]) < row_id(s[j]) by {
                assert(s[i] == o[if i < p { i } else { i + 1 }]);
                assert(s[j] == o[if j < p { j } else { j + 1 }]);
            }
        }
    }

    /// After a row is appended, every id that was present still is.
    pub proof fn lemma_push_keeps_ids(old: Self, new: Self, x: R)
        requires
            new.rows() == old.rows().push(x),
        ensures
            forall|k: i32| seq_has_id(old.rows(), k) ==> #[trigger] seq_has_id(new.rows(), k),
    {
        assert forall|k: i32| seq_has_id(old.rows(), k) implies #[trigger] seq_has_id(new.rows(), k) by {
            let i = old.index_of(k);
            assert(new.rows()[i] == old.rows()[i]);
        }
    }

    /// Replacing a row by one with the same id keeps the set of ids.
    pub proof fn lemma_update_keeps_ids(old: Self, new: Self, p: int, x: R)
        requires
            0 <= p < old.rows().len(),
            new.rows() == old.rows().update(p, x),
            x.spec_id() == old.rows()[p].spec_id(),
        ensures
            forall|k: i32| #[trigger] seq_has_id(new.rows(), k) == seq_has_id(old.rows(), k),
    {
        assert forall|k: i32| #[trigger] seq_has_id(new.rows(), k) == seq_has_id(old.rows(), k) by {
            if old.has_id(k) {
                let i = old.index_of(k);
                assert(new.rows()[i].spec_id() == Some(k));
            }
            if new.has_id(k) {
                let i = new.index_of(k);
                assert(old.rows()[i].spec_id() == Some(k));
            }
        }
    }

    /// Removing the row at `p` keeps every id but the one it carried.
    pub proof fn lemma_remove_keeps_ids(old: Self, new: Self, p: int)
        requires
            0 <= p < old.rows().len(),
            new.rows() == old.rows().remove(p),
        ensures
            forall|k: i32|
                old.rows()[p].spec_id() != Some(k) && seq_has_id(old.rows(), k) ==> #[trigger] seq_has_id(
                    new.rows(),
                    k,
                ),
    {
        assert forall|k: i32| old.rows()[p].spec_id() != Some(k) && seq_has_id(old.rows(), k) implies #[trigger] seq_has_id(
            new.rows(),
            k,
        ) by {
            let i = old.index_of(k);
            assert(i != p);
            if i < p {
                assert(new.rows()[i] == old.rows()[i]);
            } else {
                assert(new.rows()[i - 1] == old.rows()[i]);
            }
        }
    }

    /// After appending a row under the next id, looking that id up finds
    /// the appended row.
    pub proof fn lemma_find_after_push(old: Self, new: Self, x: R)
        requires
            old.wf(),
            old.has_room(),
            x.spec_id() == Some(old.next_id() as i32),
            new.rows() == old.rows().push(x),
        ensures
            new.find(old.next_id() as i32) == Some(x),
    {
        let k = old.next_id() as i32;
        let last = old.rows().len() as int;
        assert(new.rows()[last] == x);
        assert(new.has_id(k));
        let q = new.index_of(k);
        if q < last {
            assert(new.rows()[q] == old.rows()[q]);
            assert(row_id(old.rows()[q]) < old.next_id());
        }
    }

    /// After replacing the row stored under `id` by `x`, which keeps the
    /// id, looking `id` up finds `x`.
    pub proof fn lemma_find_after_update(old: Self, new: Self, id: i32, x: R)
        requires
            old.wf(),
            old.has_id(id),
            x.spec_id() == Some(id),
            new.rows() == old.rows().update(old.index_of(id), x),
        ensures
            new.find(id) == Some(x),
    {
        let p = old.index_of(id);
        assert(new.rows()[p] == x);
        assert(new.has_id(id));
        let q = new.index_of(id);
        if q != p {
            assert(new.rows()[q] == old.rows()[q]);
            assert(old.rows()[q].spec_id() == Some(id));
            assert(old.rows()[p].spec_id() == Some(id));
            if q < p {
                assert(row_id(old.rows()[q]) < row_id(old.rows()[p]));
            } else {
                assert(row_id(old.rows()[p]) < row_id(old.rows()[q]));
            }
        }
    }

    /// After removing the row stored under `id`, no row carries `id`.
    pub proof fn lemma_find_after_remove(old: Self, new: Self, id: i32)
        requires
            old.wf(),
            old.has_id(id),
            new.rows() == old.rows().remove(old.index_of(id)),
        ensures
            new.find(id) is None,
    {
        let p = old.index_of(id);
        if new.has_id(id) {
            let q = new.index_of(id);
            let o = if q < p { q } else { q + 1 };
            assert(new.rows()[q] == old.rows()[o]);
            assert(old.rows()[o].spec_id() == Some(id));
            assert(old.rows()[p].spec_id() == Some(id));
            if o < p {
                assert(row_id(old.rows()[o]) < row_id(old.rows()[p]));
            } else {
                assert(row_id(old.rows()[p]) < row_id(old.rows()[o]));
            }
        }
    }

    /// The rows, in ascending id order, as a slice.
    pub fn as_slice(&self) -> (r: &[R])
        ensures
            r@ == self.rows(),
    {
        self.rows.as_slice()
    }

    pub fn new() -> (t: Self)
        ensures
            t.wf(),
            t.rows() == Seq::<R>::empty(),
            t.next_id() == 1,
    {
        Table { rows: Vec::new(), next_id: 1 }
    }
}

} // verus!
