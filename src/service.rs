use vstd::prelude::*;

use crate::exposition::{encode_metrics, metrics_text, EXACT_LIMIT};
use crate::handlers::{
    create_response, delete_response, is_empty_ok, is_item_response, is_server_error,
    list_response, metrics_response, update_response, Response, STATUS_OK,
};
use crate::metrics::{bumped, Counters};
use crate::store::{rows_wf, with_completed, without_id, TodoTable};
use crate::todo::{rows_of, CreateTodo, Row, UpdateTodo};

verus! {

/// The service's state: the table of items and the metric counters, handed
/// to every handler.
pub struct TodoService {
    table: TodoTable,
    counters: Counters,
}

impl TodoService {
    /// The rows of the table.
    pub closed spec fn rows(&self) -> Seq<Row> {
        self.table@
    }

    /// The id that the next successful create assigns.
    pub closed spec fn next_id(&self) -> i32 {
        self.table.next_id()
    }

    /// The current counter values.
    pub closed spec fn counts(&self) -> Counters {
        self.counters
    }

    /// Ids are positive, below the next id to assign, and unique.
    pub open spec fn wf(&self) -> bool {
        rows_wf(self.rows(), self.next_id())
    }

    /// An empty table and counters at zero.
    pub fn new() -> (s: TodoService)
        ensures
            s.wf(),
            s.rows() == Seq::<Row>::empty(),
            s.next_id() == 1,
            s.counts() == (Counters { created_total: 0, completed_total: 0 }),
    {
        TodoService { table: TodoTable::new(), counters: Counters::new() }
    }

    /// The counter values that the metrics endpoint exposes.
    pub fn counters(&self) -> (c: Counters)
        ensures
            c == self.counts(),
    {
        self.counters
    }

    /// Metrics: 200 with the exposition text of the current counters,
    /// which up to 2^53 shows each value exactly; nothing changes.
    pub fn metrics(&self) -> (r: Response)
        ensures
            r.status == STATUS_OK,
            r.body is Exposition,
            self.counts().created_total <= EXACT_LIMIT && self.counts().completed_total
                <= EXACT_LIMIT ==> r.body->Exposition_0@ == metrics_text(self.counts()),
    {
        metrics_response(encode_metrics(&self.counters))
    }

    /// List items: 200 with every row.
    pub fn get_todos(&self) -> (r: Response)
        ensures
            r.status == STATUS_OK,
            r.body is Items,
            rows_of(r.body->Items_0@) == self.rows(),
    {
        list_response(Ok(self.table.list_all()))
    }

    /// Create item: 200 with the new row, under the next id, not completed,
    /// and one more created item counted. Once no id is left, a 500 and no
    /// change.
    pub fn create_todo(&mut self, item: CreateTodo) -> (r: Response)
        requires
            old(self).wf(),
        ensures
            final(self).wf(),
            old(self).next_id() < i32::MAX ==> {
                &&& is_item_response(r, (old(self).next_id(), item.title@, false))
                &&& 1 <= r.body->Item_0.id
                &&& final(self).rows() == old(self).rows().push(r.body->Item_0@)
                &&& final(self).next_id() == old(self).next_id() + 1
                &&& final(self).counts().created_total == bumped(old(self).counts().created_total)
                &&& final(self).counts().completed_total == old(self).counts().completed_total
            },
            old(self).next_id() == i32::MAX ==> is_server_error(r) && *final(self) == *old(self),
    {
        let title = item.title;
        let stored = self.table.insert(title.clone());
        let assigned = match stored {
            Ok(row) => Ok(row.id),
            Err(e) => Err(e),
        };
        create_response(&mut self.counters, title, assigned)
    }

    /// Update item: always a 200, also for an id that no row has; the flag
    /// of the matching row is set, and a `true` flag is counted on every
    /// call.
    pub fn update_todo(&mut self, id: i32, item: UpdateTodo) -> (r: Response)
        requires
            old(self).wf(),
        ensures
            final(self).wf(),
            is_empty_ok(r),
            final(self).rows() == with_completed(old(self).rows(), id, item.completed),
            final(self).next_id() == old(self).next_id(),
            final(self).counts().created_total == old(self).counts().created_total,
            final(self).counts().completed_total == if item.completed {
                bumped(old(self).counts().completed_total)
            } else {
                old(self).counts().completed_total
            },
    {
        self.table.update_completed(id, item.completed);
        update_response(&mut self.counters, item.completed, Ok(()))
    }

    /// Delete item: always a 200, also for an id that no row has; the
    /// matching row is removed.
    pub fn delete_todo(&mut self, id: i32) -> (r: Response)
        requires
            old(self).wf(),
        ensures
            final(self).wf(),
            is_empty_ok(r),
            final(self).rows() == without_id(old(self).rows(), id),
            final(self).next_id() == old(self).next_id(),
            final(self).counts() == old(self).counts(),
    {
        self.table.delete(id);
        delete_response(Ok(()))
    }
}

} // verus!
