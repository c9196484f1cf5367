use vstd::prelude::*;

use crate::todo::{rows_of, Row, TodoItem};

verus! {

/// Failure to reach or write the store.
#[derive(PartialEq, Eq, Structural, Clone, Copy, Debug)]
pub enum StorageError {
    /// The store could not be reached, or refused the statement.
    Unavailable,
    /// The id sequence is exhausted: no new id can be assigned.
    IdsExhausted,
}

/// The rows left after removing every row with the given id.
pub open spec fn without_id(rows: Seq<Row>, id: i32) -> Seq<Row>
    decreases rows.len(),
{
    if rows.len() == 0 {
        rows
    } else {
        let rest = without_id(rows.drop_last(), id);
        if rows.last().0 == id {
            rest
        } else {
            rest.push(rows.last())
        }
    }
}

/// The rows with the `completed` flag of every row with the given id set.
pub open spec fn with_completed(rows: Seq<Row>, id: i32, completed: bool) -> Seq<Row> {
    rows.map_values(|r: Row| if r.0 == id { (r.0, r.1, completed) } else { r })
}

/// Whether some row has the given id.
pub open spec fn has_id(rows: Seq<Row>, id: i32) -> bool {
    exists|i: int| 0 <= i < rows.len() && #[trigger] rows[i].0 == id
}

/// Each row left after removing an id is a row of the original, with
/// another id.
pub proof fn lemma_without_id_members(rows: Seq<Row>, id: i32)
    ensures
        forall|k: int|
            0 <= k < without_id(rows, id).len() ==> #[trigger] without_id(rows, id)[k].0 != id
                && exists|j: int| 0 <= j < rows.len() && rows[j] == without_id(rows, id)[k],
    decreases rows.len(),
{
    if rows.len() > 0 {
        let pre = rows.drop_last();
        lemma_without_id_members(pre, id);
        assert forall|k: int| 0 <= k < without_id(rows, id).len() implies #[trigger] without_id(
            rows,
            id,
        )[k].0 != id && exists|j: int| 0 <= j < rows.len() && rows[j] == without_id(rows, id)[k] by {
            if k < without_id(pre, id).len() {
                let j = choose|j: int| 0 <= j < pre.len() && pre[j] == without_id(pre, id)[k];
                assert(rows[j] == without_id(rows, id)[k]);
            } else {
                assert(rows[rows.len() - 1] == without_id(rows, id)[k]);
            }
        }
    }
}

/// Removing an id from rows that hold none changes nothing.
pub proof fn lemma_without_absent_id(rows: Seq<Row>, id: i32)
    requires
        !has_id(rows, id),
    ensures
        without_id(rows, id) == rows,
    decreases rows.len(),
{
    if rows.len() > 0 {
        let pre = rows.drop_last();
        assert(!has_id(pre, id)) by {
            if has_id(pre, id) {
                let i = choose|i: int| 0 <= i < pre.len() && #[trigger] pre[i].0 == id;
                assert(rows[i].0 == id);
            }
        }
        lemma_without_absent_id(pre, id);
        assert(rows[rows.len() - 1].0 != id);
        assert(pre.push(rows.last()) =~= rows);
    }
}

/// Removing an id keeps the table well formed.
pub proof fn lemma_without_id_wf(rows: Seq<Row>, id: i32, next_id: i32)
    requires
        rows_wf(rows, next_id),
    ensures
        rows_wf(without_id(rows, id), next_id),
    decreases rows.len(),
{
    if rows.len() > 0 {
        let pre = rows.drop_last();
        assert(rows_wf(pre, next_id)) by {
            assert forall|i: int, j: int|
                0 <= i < pre.len() && 0 <= j < pre.len() && i != j implies #[trigger] pre[i].0
                != #[trigger] pre[j].0 by {
                assert(rows[i] == pre[i] && rows[j] == pre[j]);
            }
            assert forall|i: int| 0 <= i < pre.len() implies 1 <= #[trigger] pre[i].0 < next_id by {
                assert(rows[i] == pre[i]);
            }
        }
        lemma_without_id_wf(pre, id, next_id);
        lemma_without_id_members(pre, id);
        let w = without_id(pre, id);
        let last = rows.last();
        if last.0 != id {
            assert forall|k: int| 0 <= k < w.len() implies w[k].0 != last.0 by {
                assert(w[k].0 != id);
                let j = choose|j: int| 0 <= j < pre.len() && pre[j] == w[k];
                assert(rows[j] == w[k]);
            }
            let wl = w.push(last);
            assert forall|i: int, j: int|
                0 <= i < wl.len() && 0 <= j < wl.len() && i != j implies #[trigger] wl[i].0
                != #[trigger] wl[j].0 by {
                if i < w.len() && j < w.len() {
                    assert(wl[i] == w[i] && wl[j] == w[j]);
                } else if i < w.len() {
                    assert(wl[i] == w[i]);
                } else if j < w.len() {
                    assert(wl[j] == w[j]);
                }
            }
            assert forall|i: int| 0 <= i < wl.len() implies 1 <= #[trigger] wl[i].0 < next_id by {
                if i < w.len() {
                    assert(wl[i] == w[i]);
                }
            }
        }
    }
}

/// Whether the rows hold the given row.
pub open spec fn has_row(rows: Seq<Row>, row: Row) -> bool {
    exists|i: int| 0 <= i < rows.len() && #[trigger] rows[i] == row
}

/// A row with another id stays when an id is removed.
pub proof fn lemma_without_id_keeps(rows: Seq<Row>, id: i32, row: Row)
    requires
        has_row(rows, row),
        row.0 != id,
    ensures
        has_row(without_id(rows, id), row),
    decreases rows.len(),
{
    let pre = rows.drop_last();
    let w = without_id(pre, id);
    if rows.last() == row {
        assert(without_id(rows, id) == w.push(row));
        assert(w.push(row)[w.len() as int] == row);
    } else {
        let i = choose|i: int| 0 <= i < rows.len() && #[trigger] rows[i] == row;
        assert(pre[i] == row);
        lemma_without_id_keeps(pre, id, row);
        let k = choose|k: int| 0 <= k < w.len() && #[trigger] w[k] == row;
        if rows.last().0 != id {
            assert(w.push(rows.last())[k] == row);
        }
    }
}

/// Ids are positive, below the next id to assign, and unique.
pub open spec fn rows_wf(rows: Seq<Row>, next_id: i32) -> bool {
    &&& 1 <= next_id
    &&& forall|i: int| 0 <= i < rows.len() ==> 1 <= #[trigger] rows[i].0 < next_id
    &&& forall|i: int, j: int|
        0 <= i < rows.len() && 0 <= j < rows.len() && i != j ==> #[trigger] rows[i].0
            != #[trigger] rows[j].0
}

/// The `todos` table held in memory: rows in order of insertion, ids
/// assigned from a sequence that starts at 1.
pub struct TodoTable {
    rows: Vec<TodoItem>,
    next_id: i32,
}

impl View for TodoTable {
    type V = Seq<Row>;

    closed spec fn view(&self) -> Seq<Row> {
        rows_of(self.rows@)
    }
}

impl TodoTable {
    /// The id that the next successful insert assigns.
    pub closed spec fn next_id(&self) -> i32 {
        self.next_id
    }

    /// Ids are positive, below the next id to assign, and unique.
    pub open spec fn wf(&self) -> bool {
        rows_wf(self@, self.next_id())
    }

    /// An empty table whose first id is 1.
    pub fn new() -> (t: TodoTable)
        ensures
            t.wf(),
            t@ == Seq::<Row>::empty(),
            t.next_id() == 1,
    {
        let t = TodoTable { rows: Vec::new(), next_id: 1 };
        assert(t@ =~= Seq::<Row>::empty());
        t
    }

    /// Every row of the table.
    pub fn list_all(&self) -> (r: Vec<TodoItem>)
        ensures
            rows_of(r@) == self@,
    {
        let mut out: Vec<TodoItem> = Vec::new();
        let mut i: usize = 0;
        while i < self.rows.len()
            invariant
                i <= self.rows@.len(),
                out@.len() == i,
                forall|k: int| 0 <= k < i ==> (#[trigger] out@[k])@ == self.rows@[k]@,
            decreases self.rows@.len() - i,
        {
            out.push(self.rows[i].copy());
            i = i + 1;
        }
        assert(rows_of(out@) =~= self@);
        out
    }

    /// Adds a row with the given title, not completed, under the next id of
    /// the sequence, and returns it. Fails, changing nothing, once the
    /// sequence has reached the largest id.
    pub fn insert(&mut self, title: String) -> (r: Result<TodoItem, StorageError>)
        requires
            old(self).wf(),
        ensures
            final(self).wf(),
            old(self).next_id() < i32::MAX <==> r is Ok,
            r is Ok ==> {
                &&& r->Ok_0@ == (old(self).next_id(), title@, false)
                &&& 1 <= r->Ok_0.id
                &&& final(self)@ == old(self)@.push(r->Ok_0@)
                &&& final(self).next_id() == old(self).next_id() + 1
            },
            r is Err ==> r == Err::<TodoItem, StorageError>(StorageError::IdsExhausted) && *final(self)
                == *old(self),
    {
        if self.next_id == i32::MAX {
            return Err(StorageError::IdsExhausted);
        }
        let id = self.next_id;
        let item = TodoItem { id, title: title.clone(), completed: false };
        self.rows.push(item);
        self.next_id = id + 1;
        assert(self@ =~= old(self)@.push((id, title@, false)));
        Ok(TodoItem { id, title, completed: false })
    }

    /// Sets the flag of the row with the given id. A missing id is no
    /// error: nothing changes then.
    pub fn update_completed(&mut self, id: i32, completed: bool)
        requires
            old(self).wf(),
        ensures
            final(self).wf(),
            final(self)@ == with_completed(old(self)@, id, completed),
            final(self).next_id() == old(self).next_id(),
    {
        let mut out: Vec<TodoItem> = Vec::new();
        let mut i: usize = 0;
        let ghost target = with_completed(self@, id, completed);
        while i < self.rows.len()
            invariant
                i <= self.rows@.len(),
                out@.len() == i,
                target == with_completed(rows_of(self.rows@), id, completed),
                forall|k: int| 0 <= k < i ==> (#[trigger] out@[k])@ == target[k],
            decreases self.rows@.len() - i,
        {
            let row = &self.rows[i];
            let flag = if row.id == id { completed } else { row.completed };
            out.push(TodoItem { id: row.id, title: row.title.clone(), completed: flag });
            i = i + 1;
        }
        self.rows = out;
        assert(self@ =~= target);
    }

    /// Removes the row with the given id. A missing id is no error: nothing
    /// changes then.
    pub fn delete(&mut self, id: i32)
        requires
            old(self).wf(),
        ensures
            final(self).wf(),
            final(self)@ == without_id(old(self)@, id),
            final(self).next_id() == old(self).next_id(),
    {
        let mut out: Vec<TodoItem> = Vec::new();
        let mut i: usize = 0;
        while i < self.rows.len()
            invariant
                i <= self.rows@.len(),
                rows_of(out@) == without_id(rows_of(self.rows@.take(i as int)), id),
            decreases self.rows@.len() - i,
        {
            let row = &self.rows[i];
            assert(rows_of(self.rows@.take(i + 1)).drop_last() =~= rows_of(self.rows@.take(i as int)));
            if row.id != id {
                out.push(row.copy());
                assert(rows_of(out@) =~= without_id(rows_of(self.rows@.take(i + 1)), id));
            }
            i = i + 1;
        }
        assert(self.rows@.take(i as int) =~= self.rows@);
        proof {
            lemma_without_id_wf(self@, id, self.next_id);
        }
        self.rows = out;
    }
}

} // verus!
