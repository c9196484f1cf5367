use vstd::prelude::*;

use crate::exposition::{counter_text, metrics_text, EXACT_LIMIT};
use crate::metrics::{
    after_events, bumped, completions_in, creates_in, CounterEvent, Counters, TODO_COMPLETED_HELP,
    TODO_COMPLETED_NAME, TODO_CREATED_HELP, TODO_CREATED_NAME,
};
use crate::store::{
    has_id, has_row, lemma_without_absent_id, lemma_without_id_keeps, lemma_without_id_members,
    rows_wf, with_completed, without_id,
};
use crate::todo::Row;

verus! {

/// Two creates in a row, from a well-formed table, leave both new rows in
/// the list, each with the id, title and flag that its create returned,
/// under two different ids; the table stays well formed.
pub proof fn law_list_after_two_creates(
    rows: Seq<Row>,
    next_id: i32,
    first: Seq<char>,
    second: Seq<char>,
)
    requires
        rows_wf(rows, next_id),
        next_id < i32::MAX - 1,
    ensures
        ({
            let a: Row = (next_id, first, false);
            let b: Row = ((next_id + 1) as i32, second, false);
            let listed = rows.push(a).push(b);
            &&& has_row(listed, a)
            &&& has_row(listed, b)
            &&& a.0 != b.0
            &&& rows_wf(listed, (next_id + 2) as i32)
        }),
{
    let a: Row = (next_id, first, false);
    let b: Row = ((next_id + 1) as i32, second, false);
    let listed = rows.push(a).push(b);
    assert(listed[rows.len() as int] == a);
    assert(listed[rows.len() as int + 1] == b);
    assert forall|i: int| 0 <= i < listed.len() implies 1 <= #[trigger] listed[i].0 < next_id + 2 by {
        if i < rows.len() {
            assert(listed[i] == rows[i]);
        }
    }
    assert forall|i: int, j: int|
        0 <= i < listed.len() && 0 <= j < listed.len() && i != j implies #[trigger] listed[i].0
        != #[trigger] listed[j].0 by {
        if i < rows.len() {
            assert(listed[i] == rows[i]);
        }
        if j < rows.len() {
            assert(listed[j] == rows[j]);
        }
    }
}

/// Setting `completed` to `true` twice on one id counts twice, though the
/// second call leaves the rows as the first left them; every row with
/// that id is completed afterwards.
pub proof fn law_completed_counts_every_call(rows: Seq<Row>, id: i32, completed_total: u64)
    requires
        completed_total < u64::MAX - 1,
    ensures
        bumped(completed_total) == completed_total + 1,
        bumped(bumped(completed_total)) == completed_total + 2,
        with_completed(with_completed(rows, id, true), id, true) == with_completed(rows, id, true),
        forall|i: int|
            0 <= i < rows.len() && rows[i].0 == id ==> (#[trigger] with_completed(rows, id, true)[i]).2,
{
    assert(with_completed(with_completed(rows, id, true), id, true) =~= with_completed(rows, id, true));
}

/// An update of an id that no row has changes no row.
pub proof fn law_update_missing_id(rows: Seq<Row>, id: i32, completed: bool)
    requires
        !has_id(rows, id),
    ensures
        with_completed(rows, id, completed) == rows,
{
    assert forall|i: int| 0 <= i < rows.len() implies #[trigger] with_completed(rows, id, completed)[i]
        == rows[i] by {
        assert(rows[i].0 != id);
    }
    assert(with_completed(rows, id, completed) =~= rows);
}

/// After a delete no row has the id, every row with another id is still
/// there, and a delete of an id that no row has changes nothing.
pub proof fn law_delete_removes(rows: Seq<Row>, id: i32)
    ensures
        !has_id(without_id(rows, id), id),
        forall|row: Row| has_row(rows, row) && row.0 != id ==> #[trigger] has_row(without_id(rows, id), row),
        !has_id(rows, id) ==> without_id(rows, id) == rows,
{
    lemma_without_id_members(rows, id);
    assert forall|row: Row| has_row(rows, row) && row.0 != id implies #[trigger] has_row(
        without_id(rows, id),
        row,
    ) by {
        lemma_without_id_keeps(rows, id, row);
    }
    if !has_id(rows, id) {
        lemma_without_absent_id(rows, id);
    }
}

/// From zero, the counters hold the number of successful inserts and the
/// number of successful updates that submitted `true`, whatever the order of
/// the events, as long as neither number passes `u64::MAX`; up to 2^53 the
/// metrics text shows exactly these two numbers.
pub proof fn law_counts_match_events(events: Seq<CounterEvent>)
    requires
        creates_in(events) <= u64::MAX,
        completions_in(events) <= u64::MAX,
    ensures
        after_events(Counters { created_total: 0, completed_total: 0 }, events) == (Counters {
            created_total: creates_in(events) as u64,
            completed_total: completions_in(events) as u64,
        }),
        creates_in(events) <= EXACT_LIMIT && completions_in(events) <= EXACT_LIMIT ==> metrics_text(
            after_events(Counters { created_total: 0, completed_total: 0 }, events),
        ) == counter_text(TODO_CREATED_NAME@, TODO_CREATED_HELP@, creates_in(events))
            + counter_text(TODO_COMPLETED_NAME@, TODO_COMPLETED_HELP@, completions_in(events)),
    decreases events.len(),
{
    if events.len() > 0 {
        law_counts_match_events(events.drop_last());
    }
}

} // verus!
